//! A cycle-counting instruction-set emulator for the MOS 6502 family of 8-bit
//! microprocessors.
//!
//! The processor core lives in [`mos6502`]: the register file, the 256-entry
//! opcode dispatch table, the addressing-mode resolver, the per-instruction
//! handlers, and the interrupt sequencing. Memory and peripherals are reached
//! through the [`mos6502::Bus`] trait; [`memory::Ram`] is a plain in-memory
//! implementation of it.

pub mod composite_bus;
pub mod error;
pub mod memory;
pub mod mos6502;
