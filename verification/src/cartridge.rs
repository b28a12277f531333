//! The iNES cartridge loader: parses a raw byte image into PRG-ROM, CHR-ROM,
//! mapper id and nametable mirroring mode.
use vstd::prelude::*;
use vstd::string::*;

verus! {

/// Size of one PRG-ROM bank in an iNES image.
pub const PRG_ROM_PAGE_SIZE: usize = 16384;

/// Size of one CHR-ROM bank in an iNES image.
pub const CHR_ROM_PAGE_SIZE: usize = 8192;

/// Nametable mirroring mode stored in the cartridge header.
#[derive(Clone, Copy, Debug, PartialEq, Eq, Structural)]
pub enum Mirroring {
    VERTICAL,
    HORIZONTAL,
    FOUR_SCREEN,
}

/// A parsed cartridge: immutable once created.
pub struct Rom {
    pub prg_rom: Vec<u8>,
    pub chr_rom: Vec<u8>,
    pub mapper: u8,
    pub screen_mirroring: Mirroring,
}

/// The first four bytes of the image are the fixed iNES magic sequence.
pub open spec fn magic_ok(raw: Seq<u8>) -> bool {
    &&& raw.len() >= 4
    &&& raw[0] == 0x4E
    &&& raw[1] == 0x45
    &&& raw[2] == 0x53
    &&& raw[3] == 0x1A
}

/// Bits 2-3 of header control byte 2 equal to 0b10 mark the NES 2.0 header
/// extension, which this loader refuses. Meaningful once the header is known
/// to be at least 16 bytes long.
pub open spec fn version_ok(raw: Seq<u8>) -> bool {
    (raw[7] >> 2) & 0b11 != 2
}

/// PRG-ROM size in bytes: header byte 4 counts 16KB banks.
pub open spec fn spec_prg_size(raw: Seq<u8>) -> int {
    raw[4] * 16384
}

/// CHR-ROM size in bytes: header byte 5 counts 8KB banks.
pub open spec fn spec_chr_size(raw: Seq<u8>) -> int {
    raw[5] * 8192
}

/// Control-byte-1 bit 2 marks a 512-byte trainer between header and PRG-ROM.
pub open spec fn has_trainer(raw: Seq<u8>) -> bool {
    raw[6] & 0b100 != 0
}

/// Offset of the first PRG-ROM byte in the image.
pub open spec fn spec_prg_start(raw: Seq<u8>) -> int {
    16 + if has_trainer(raw) {
        512 as int
    } else {
        0
    }
}

/// Offset of the first CHR-ROM byte in the image.
pub open spec fn spec_chr_start(raw: Seq<u8>) -> int {
    spec_prg_start(raw) + spec_prg_size(raw)
}

/// Number of bytes the header promises the image holds.
pub open spec fn spec_total_size(raw: Seq<u8>) -> int {
    spec_chr_start(raw) + spec_chr_size(raw)
}

/// Mapper id: high nibble of control byte 2 over the high nibble of control
/// byte 1.
pub open spec fn spec_mapper(raw: Seq<u8>) -> u8 {
    (raw[7] & 0xF0) | (raw[6] >> 4)
}

/// Mirroring: control-byte-1 bit 3 forces four-screen, else bit 0 picks
/// vertical over horizontal.
pub open spec fn spec_mirroring(raw: Seq<u8>) -> Mirroring {
    if raw[6] & 0b1000 != 0 {
        Mirroring::FOUR_SCREEN
    } else if raw[6] & 0b1 != 0 {
        Mirroring::VERTICAL
    } else {
        Mirroring::HORIZONTAL
    }
}

/// A fresh byte vector holding `count` copies of `value`.
pub fn repeat_byte(value: u8, count: usize) -> (r: Vec<u8>)
    ensures
        r@.len() == count,
        forall|i: int| 0 <= i < count ==> r@[i] == value,
{
    let mut r: Vec<u8> = Vec::new();
    let mut n: usize = 0;
    while n < count
        invariant
            n <= count,
            r@.len() == n,
            forall|i: int| 0 <= i < n ==> r@[i] == value,
        decreases count - n,
    {
        r.push(value);
        n = n + 1;
    }
    r
}

/// A fresh copy of `src[start .. start + len]`.
fn copy_range(src: &Vec<u8>, start: usize, len: usize) -> (r: Vec<u8>)
    requires
        start + len <= src@.len(),
    ensures
        r@ == src@.subrange(start as int, start + len),
{
    let src_len: usize = src.len();
    let mut r: Vec<u8> = Vec::new();
    let mut n: usize = 0;
    while n < len
        invariant
            n <= len,
            start + len <= src_len == src@.len(),
            r@.len() == n,
            forall|i: int| 0 <= i < n ==> r@[i] == src@[start + i],
        decreases len - n,
    {
        r.push(src[start + n]);
        n = n + 1;
    }
    proof {
        assert(r@ =~= src@.subrange(start as int, start + len));
    }
    r
}

/// Append a copy of every byte of `src` to `dst`.
fn append_bytes(dst: &mut Vec<u8>, src: &Vec<u8>)
    ensures
        final(dst)@ == old(dst)@ + src@,
{
    let mut n: usize = 0;
    while n < src.len()
        invariant
            n <= src@.len(),
            dst@ == old(dst)@ + src@.subrange(0, n as int),
        decreases src@.len() - n,
    {
        dst.push(src[n]);
        n = n + 1;
        proof {
            assert(dst@ =~= old(dst)@ + src@.subrange(0, n as int));
        }
    }
    proof {
        assert(src@.subrange(0, src@.len() as int) =~= src@);
    }
}

impl Rom {
    /// Parse a raw iNES image. Fails with a format error on a bad magic
    /// sequence and with a distinct error on a NES 2.0 header; on success the
    /// PRG-ROM and CHR-ROM slices, the mapper id and the mirroring mode are
    /// exactly those the header describes.
    pub fn new(raw: &Vec<u8>) -> (r: Result<Rom, String>)
        requires
            magic_ok(raw@) ==> raw@.len() >= 16 && (version_ok(raw@) ==> raw@.len()
                >= spec_total_size(raw@)),
        ensures
            match r {
                Ok(rom) => magic_ok(raw@) && version_ok(raw@) && rom.prg_rom@ == raw@.subrange(
                    spec_prg_start(raw@),
                    spec_chr_start(raw@),
                ) && rom.chr_rom@ == raw@.subrange(
                    spec_chr_start(raw@),
                    spec_total_size(raw@),
                ) && rom.mapper == spec_mapper(raw@) && rom.screen_mirroring == spec_mirroring(
                    raw@,
                ),
                Err(m) => (!magic_ok(raw@) && m@ == "File is not in iNES file format"@) || (
                magic_ok(raw@) && !version_ok(raw@) && m@ == "iNES2.0 is not supported yet"@),
            },
    {
        if raw.len() < 4 || raw[0] != 0x4E || raw[1] != 0x45 || raw[2] != 0x53 || raw[3] != 0x1A {
            return Err(String::from_str("File is not in iNES file format"));
        }
        let ines_ver: u8 = (raw[7] >> 2) & 0b11;
        if ines_ver == 2 {
            return Err(String::from_str("iNES2.0 is not supported yet"));
        }
        let mapper: u8 = (raw[7] & 0xF0) | (raw[6] >> 4);
        let four_screen = raw[6] & 0b1000 != 0;
        let vertical_mirroring = raw[6] & 0b1 != 0;
        let screen_mirroring = if four_screen {
            Mirroring::FOUR_SCREEN
        } else if vertical_mirroring {
            Mirroring::VERTICAL
        } else {
            Mirroring::HORIZONTAL
        };
        let prg_rom_size: usize = raw[4] as usize * PRG_ROM_PAGE_SIZE;
        let chr_rom_size: usize = raw[5] as usize * CHR_ROM_PAGE_SIZE;
        let skip_trainer = raw[6] & 0b100 != 0;
        let prg_rom_start: usize = 16 + if skip_trainer {
            512
        } else {
            0
        };
        let chr_rom_start: usize = prg_rom_start + prg_rom_size;
        Ok(
            Rom {
                prg_rom: copy_range(raw, prg_rom_start, prg_rom_size),
                chr_rom: copy_range(raw, chr_rom_start, chr_rom_size),
                mapper,
                screen_mirroring,
            },
        )
    }
}

/// The pieces of a synthetic iNES image, used to assemble test cartridges.
pub struct TestRom {
    pub header: Vec<u8>,
    pub trainer: Option<Vec<u8>>,
    pub pgp_rom: Vec<u8>,
    pub chr_rom: Vec<u8>,
}

/// Concatenate the pieces of a synthetic image into one raw byte buffer.
pub fn create_rom(rom: TestRom) -> (r: Vec<u8>)
    requires
        rom.header@.len() + (match rom.trainer {
            Some(t) => t@.len(),
            None => 0,
        }) + rom.pgp_rom@.len() + rom.chr_rom@.len() <= usize::MAX,
    ensures
        r@ == rom.header@ + (match rom.trainer {
            Some(t) => t@,
            None => Seq::<u8>::empty(),
        }) + rom.pgp_rom@ + rom.chr_rom@,
{
    let mut res: Vec<u8> = Vec::new();
    append_bytes(&mut res, &rom.header);
    match &rom.trainer {
        Some(t) => append_bytes(&mut res, t),
        None => {
            proof {
                assert(res@ =~= rom.header@ + Seq::<u8>::empty());
            }
        },
    }
    append_bytes(&mut res, &rom.pgp_rom);
    append_bytes(&mut res, &rom.chr_rom);
    res
}

/// A ready-made 32KB-PRG cartridge image whose PRG and CHR banks are filled
/// with ones, parsed into a `Rom`; the bank shape is what the CPU tests need.
pub fn gen_test_rom() -> (r: Rom)
    ensures
        r.prg_rom@.len() == 0x8000,
        forall|i: int| 0 <= i < 0x8000 ==> r.prg_rom@[i] == 1u8,
        r.chr_rom@.len() == CHR_ROM_PAGE_SIZE,
        r.mapper == 3,
        r.screen_mirroring == Mirroring::VERTICAL,
{
    let mut header: Vec<u8> = Vec::new();
    header.push(0x4E);
    header.push(0x45);
    header.push(0x53);
    header.push(0x1A);
    header.push(0x02);
    header.push(0x01);
    header.push(0x31);
    let mut pad: usize = 0;
    while pad < 9
        invariant
            pad <= 9,
            header@.len() == 7 + pad,
            header@[0] == 0x4E,
            header@[1] == 0x45,
            header@[2] == 0x53,
            header@[3] == 0x1A,
            header@[4] == 0x02,
            header@[5] == 0x01,
            header@[6] == 0x31,
            forall|i: int| 7 <= i < 7 + pad ==> header@[i] == 0x00,
        decreases 9 - pad,
    {
        header.push(0x00);
        pad = pad + 1;
    }
    let pgp_rom = repeat_byte(1, 2 * PRG_ROM_PAGE_SIZE);
    let chr_rom = repeat_byte(1, 2 * CHR_ROM_PAGE_SIZE);
    let ghost hv = header@;
    let ghost pv = pgp_rom@;
    let ghost cv = chr_rom@;
    let test_rom = create_rom(TestRom { header, trainer: None, pgp_rom, chr_rom });
    proof {
        let tv = test_rom@;
        assert(tv == hv + Seq::<u8>::empty() + pv + cv);
        assert(tv.len() == 16 + 0x8000 + 0x4000);
        assert(magic_ok(tv));
        assert(tv[7] == 0x00 && tv[6] == 0x31 && tv[4] == 0x02 && tv[5] == 0x01);
        let b6: u8 = tv[6];
        let b7: u8 = tv[7];
        assert((b7 >> 2) & 0b11 != 2 && b6 & 0b100 == 0) by (bit_vector)
            requires
                b6 == 0x31 && b7 == 0x00,
        ;
        assert(version_ok(tv));
        assert(!has_trainer(tv));
        assert(spec_prg_size(tv) == 0x8000);
        assert(spec_chr_size(tv) == 0x2000);
        assert(spec_total_size(tv) <= tv.len());
    }
    let parsed = Rom::new(&test_rom);
    match parsed {
        Ok(rom) => {
            proof {
                let tv = test_rom@;
                assert(rom.prg_rom@ =~= tv.subrange(16int, 16int + 0x8000));
                assert forall|i: int| 0 <= i < 0x8000 implies rom.prg_rom@[i] == 1u8 by {
                    assert(tv[16 + i] == pv[i]);
                }
                let b6: u8 = tv[6];
                let b7: u8 = tv[7];
                assert((b7 & 0xF0) | (b6 >> 4) == 3 && b6 & 0b1000 == 0 && b6 & 0b1 != 0) by (
                bit_vector)
                    requires
                        b6 == 0x31 && b7 == 0x00,
                ;
                assert(spec_mapper(tv) == 3);
                assert(spec_mirroring(tv) == Mirroring::VERTICAL);
            }
            rom
        },
        Err(_) => {
            proof {
                assert(false);
            }
            Rom {
                prg_rom: Vec::new(),
                chr_rom: Vec::new(),
                mapper: 0,
                screen_mirroring: Mirroring::HORIZONTAL,
            }
        },
    }
}

} // verus!
