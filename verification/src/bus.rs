//! The bus address decoder: routes 16-bit addresses to mirrored RAM, to the
//! (unimplemented) PPU register window, or to mirrored/banked PRG-ROM.
use vstd::prelude::*;

use crate::cartridge::Mirroring;
use crate::cartridge::Rom;
use crate::cartridge::repeat_byte;

verus! {

/// A fatal condition that aborts the current run.
#[derive(Clone, Copy, Debug, PartialEq, Eq, Structural)]
pub enum Fault {
    /// The opcode byte has no entry in the opcode table; the instruction
    /// length is unknown, so execution cannot safely continue.
    UnknownOpcode(u8),
    /// A read or write touched the PPU register window, which this core
    /// recognizes but does not implement.
    PpuUnsupported(u16),
    /// A write targeted the PRG-ROM window; ROM is immutable.
    RomWrite(u16),
}

/// The bus as mathematics: RAM and cartridge contents as sequences.
#[verifier::ext_equal]
pub ghost struct BusV {
    pub ram: Seq<u8>,
    pub prg: Seq<u8>,
    pub chr: Seq<u8>,
    pub mapper: u8,
    pub mirroring: Mirroring,
}

/// RAM is 2KB and PRG-ROM is one bank (16KB, mirrored) or two (32KB).
pub open spec fn bus_wf(b: BusV) -> bool {
    &&& b.ram.len() == 2048
    &&& (b.prg.len() == 0x4000 || b.prg.len() == 0x8000)
}

/// Index into RAM: the 2KB array is mirrored every 0x0800 bytes across
/// `0x0000..0x1FFF`.
pub open spec fn ram_index(addr: u16) -> int {
    (addr & 0x07FF) as int
}

/// Index into PRG-ROM for an address in `0x8000..=0xFFFF`: a single 16KB bank
/// appears mirrored across both halves of the window.
pub open spec fn prg_index(prg_len: int, addr: u16) -> int {
    let off = addr - 0x8000;
    if prg_len == 0x4000 && off >= 0x4000 {
        off - 0x4000
    } else {
        off
    }
}

/// What a read returns at each address: mirrored RAM below 0x2000, a fault in
/// the PPU register window, zero in the unmapped expansion region, PRG-ROM
/// from 0x8000 up.
pub open spec fn v_read(b: BusV, addr: u16) -> Result<u8, Fault> {
    if addr <= 0x1FFF {
        Ok(b.ram[ram_index(addr)])
    } else if addr <= 0x3FFF {
        Err(Fault::PpuUnsupported(addr))
    } else if addr < 0x8000 {
        Ok(0)
    } else {
        Ok(b.prg[prg_index(b.prg.len() as int, addr)])
    }
}

/// What a write does at each address: updates mirrored RAM, faults in the PPU
/// window, faults in the ROM window, and is discarded elsewhere.
pub open spec fn v_write(b: BusV, addr: u16, data: u8) -> Result<BusV, Fault> {
    if addr <= 0x1FFF {
        Ok(BusV { ram: b.ram.update(ram_index(addr), data), ..b })
    } else if addr <= 0x3FFF {
        Err(Fault::PpuUnsupported(addr))
    } else if addr < 0x8000 {
        Ok(b)
    } else {
        Err(Fault::RomWrite(addr))
    }
}

/// A little-endian 16-bit read built from two 8-bit reads, the second at the
/// wrapping successor address.
pub open spec fn v_read_u16(b: BusV, pos: u16) -> Result<u16, Fault> {
    match v_read(b, pos) {
        Ok(lo) => match v_read(b, ((pos + 1) % 0x10000) as u16) {
            Ok(hi) => Ok(((hi as u16) << 8) | (lo as u16)),
            Err(e) => Err(e),
        },
        Err(e) => Err(e),
    }
}

/// The mask `0x07FF` keeps a RAM address inside the 2KB array.
pub proof fn lemma_ram_index_bounds(addr: u16)
    ensures
        0 <= ram_index(addr) < 2048,
        addr < 0x0800 ==> ram_index(addr) == addr,
{
    assert(addr & 0x07FF < 2048) by (bit_vector);
    assert(addr < 0x0800 ==> addr & 0x07FF == addr) by (bit_vector);
}

/// Owns the 2KB of CPU RAM and the cartridge; every memory access of the CPU
/// core goes through it.
pub struct Bus {
    pub cpu_vram: Vec<u8>,
    pub rom: Rom,
}

impl View for Bus {
    type V = BusV;

    open spec fn view(&self) -> BusV {
        BusV {
            ram: self.cpu_vram@,
            prg: self.rom.prg_rom@,
            chr: self.rom.chr_rom@,
            mapper: self.rom.mapper,
            mirroring: self.rom.screen_mirroring,
        }
    }
}

impl Bus {
    /// Is this bus well formed? Holds from construction on and is preserved
    /// by every operation.
    pub open spec fn wf(self) -> bool {
        bus_wf(self@)
    }

    /// A bus over zeroed RAM that owns the given cartridge.
    pub fn new(rom: Rom) -> (r: Bus)
        requires
            rom.prg_rom@.len() == 0x4000 || rom.prg_rom@.len() == 0x8000,
        ensures
            r.wf(),
            r@.ram =~= Seq::new(2048, |i: int| 0u8),
            r@.prg == rom.prg_rom@,
            r@.chr == rom.chr_rom@,
            r@.mapper == rom.mapper,
            r@.mirroring == rom.screen_mirroring,
    {
        let cpu_vram = repeat_byte(0, 2048);
        proof {
            assert(cpu_vram@ =~= Seq::new(2048, |i: int| 0u8));
        }
        Bus { cpu_vram, rom }
    }

    /// Read one byte from an address in the PRG-ROM window, mirroring a
    /// single 16KB bank across both halves.
    pub fn read_prg_rom(&self, addr: u16) -> (r: u8)
        requires
            self.wf(),
            0x8000 <= addr,
        ensures
            r == self@.prg[prg_index(self@.prg.len() as int, addr)],
    {
        let mut offset: u16 = addr - 0x8000;
        if self.rom.prg_rom.len() == 0x4000 && offset >= 0x4000 {
            offset = offset % 0x4000;
        }
        self.rom.prg_rom[offset as usize]
    }

    /// Read one byte; the result is exactly `v_read` of the bus contents.
    pub fn mem_read(&self, addr: u16) -> (r: Result<u8, Fault>)
        requires
            self.wf(),
        ensures
            r == v_read(self@, addr),
    {
        if addr <= 0x1FFF {
            proof {
                lemma_ram_index_bounds(addr);
            }
            Ok(self.cpu_vram[(addr & 0x07FF) as usize])
        } else if addr <= 0x3FFF {
            Err(Fault::PpuUnsupported(addr))
        } else if addr >= 0x8000 {
            Ok(self.read_prg_rom(addr))
        } else {
            Ok(0)
        }
    }

    /// Write one byte; on success the bus holds `v_write` of the old
    /// contents, and on a fault nothing has changed.
    pub fn mem_write(&mut self, addr: u16, data: u8) -> (r: Result<(), Fault>)
        requires
            old(self).wf(),
        ensures
            final(self).wf(),
            match v_write(old(self)@, addr, data) {
                Ok(b) => r == Ok::<(), Fault>(()) && final(self)@ == b,
                Err(e) => r == Err::<(), Fault>(e) && final(self)@ == old(self)@,
            },
    {
        if addr <= 0x1FFF {
            proof {
                lemma_ram_index_bounds(addr);
            }
            self.cpu_vram.set((addr & 0x07FF) as usize, data);
            proof {
                assert(self@ =~= (match v_write(old(self)@, addr, data) {
                    Ok(b) => b,
                    Err(_) => self@,
                }));
            }
            Ok(())
        } else if addr <= 0x3FFF {
            Err(Fault::PpuUnsupported(addr))
        } else if addr >= 0x8000 {
            Err(Fault::RomWrite(addr))
        } else {
            Ok(())
        }
    }

    /// Overwrite the start of PRG-ROM with a program image and point the
    /// little-endian reset vector (the last two bank bytes, which the CPU
    /// reads at `0xFFFC`) at `0x8000`.
    pub fn load_program(&mut self, program: &Vec<u8>)
        requires
            old(self).wf(),
            program@.len() <= old(self)@.prg.len(),
        ensures
            final(self).wf(),
            final(self)@.ram == old(self)@.ram,
            final(self)@.chr == old(self)@.chr,
            final(self)@.mapper == old(self)@.mapper,
            final(self)@.mirroring == old(self)@.mirroring,
            final(self)@.prg =~= Seq::new(
                old(self)@.prg.len(),
                |i: int|
                    if i == old(self)@.prg.len() - 4 {
                        0x00u8
                    } else if i == old(self)@.prg.len() - 3 {
                        0x80u8
                    } else if i < program@.len() {
                        program@[i]
                    } else {
                        old(self)@.prg[i]
                    },
            ),
    {
        let mut n: usize = 0;
        let plen: usize = program.len();
        while n < plen
            invariant
                n <= plen == program@.len(),
                self.rom.prg_rom@.len() == old(self)@.prg.len(),
                plen <= self.rom.prg_rom@.len(),
                forall|i: int| 0 <= i < n ==> self.rom.prg_rom@[i] == program@[i],
                forall|i: int|
                    n <= i < self.rom.prg_rom@.len() ==> self.rom.prg_rom@[i] == old(self)@.prg[i],
                self.cpu_vram == old(self).cpu_vram,
                self.rom.chr_rom == old(self).rom.chr_rom,
                self.rom.mapper == old(self).rom.mapper,
                self.rom.screen_mirroring == old(self).rom.screen_mirroring,
            decreases plen - n,
        {
            self.rom.prg_rom.set(n, program[n]);
            n = n + 1;
        }
        let rom_len: usize = self.rom.prg_rom.len();
        self.rom.prg_rom.set(rom_len - 4, 0x00);
        self.rom.prg_rom.set(rom_len - 3, 0x80);
    }
}

} // verus!
