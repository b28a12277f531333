//! A verified emulator core for the 6502-family microprocessor used in the
//! NES, together with the bus address decoder and the iNES cartridge loader
//! needed to run program images against it.
#![allow(non_camel_case_types)]

pub mod bus;
pub mod control_flow_ops;
pub mod cpu;
pub mod other_ops;
pub mod stack_ops;
pub mod cartridge;
pub mod flags;
pub mod laws;
pub mod logic_ops;
pub mod opcodes;
pub mod register_ops;
pub mod status_ops;
pub mod step;
