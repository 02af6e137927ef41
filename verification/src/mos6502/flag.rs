//! Flag set and clear instructions: CLC, CLD, CLI, CLV, SEC, SED and SEI.
//! Each forces one named flag on or off and costs the table's fixed two
//! cycles.

use vstd::prelude::*;

use crate::error::CpuError;
use crate::mos6502::model::with_flag;
use crate::mos6502::model::Registers;
use crate::mos6502::AddressingMode;
use crate::mos6502::Bus;
use crate::mos6502::CpuFlags;
use crate::mos6502::FLAG_CARRY;
use crate::mos6502::FLAG_DECIMAL;
use crate::mos6502::FLAG_NO_INTERRUPTS;
use crate::mos6502::FLAG_OVERFLOW;
use crate::mos6502::MOS6502;

verus! {

impl MOS6502 {
    /// Forces one flag on or off; the body every flag instruction shares.
    fn flag_toggle(&mut self, mask: u8, value: bool) -> (r: Result<u32, CpuError>)
        ensures
            final(self).regs() == (Registers {
                sr: with_flag(old(self).regs().sr, mask, value),
                ..old(self).regs()
            }),
            r == Ok::<u32, CpuError>(2u32),
            final(self).spec_cycles() == old(self).spec_cycles(),
    {
        self.flag_set(CpuFlags { bits: mask }, value);
        Ok(2)
    }

    /// CLC: clear the Carry flag.
    pub fn clc<T: Bus>(&mut self, _bus: &mut T, _address_mode: AddressingMode) -> (r: Result<
        u32,
        CpuError,
    >)
        ensures
            final(self).regs() == (Registers {
                sr: with_flag(old(self).regs().sr, FLAG_CARRY, false),
                ..old(self).regs()
            }),
            r == Ok::<u32, CpuError>(2u32),
            final(self).spec_cycles() == old(self).spec_cycles(),
            final(_bus).mem() == old(_bus).mem(),
            final(_bus).writable() == old(_bus).writable(),
    {
        self.flag_toggle(FLAG_CARRY, false)
    }

    /// CLD: clear the Decimal flag.
    pub fn cld<T: Bus>(&mut self, _bus: &mut T, _address_mode: AddressingMode) -> (r: Result<
        u32,
        CpuError,
    >)
        ensures
            final(self).regs() == (Registers {
                sr: with_flag(old(self).regs().sr, FLAG_DECIMAL, false),
                ..old(self).regs()
            }),
            r == Ok::<u32, CpuError>(2u32),
            final(self).spec_cycles() == old(self).spec_cycles(),
            final(_bus).mem() == old(_bus).mem(),
            final(_bus).writable() == old(_bus).writable(),
    {
        self.flag_toggle(FLAG_DECIMAL, false)
    }

    /// CLI: clear the NoInterrupts flag.
    pub fn cli<T: Bus>(&mut self, _bus: &mut T, _address_mode: AddressingMode) -> (r: Result<
        u32,
        CpuError,
    >)
        ensures
            final(self).regs() == (Registers {
                sr: with_flag(old(self).regs().sr, FLAG_NO_INTERRUPTS, false),
                ..old(self).regs()
            }),
            r == Ok::<u32, CpuError>(2u32),
            final(self).spec_cycles() == old(self).spec_cycles(),
            final(_bus).mem() == old(_bus).mem(),
            final(_bus).writable() == old(_bus).writable(),
    {
        self.flag_toggle(FLAG_NO_INTERRUPTS, false)
    }

    /// CLV: clear the Overflow flag.
    pub fn clv<T: Bus>(&mut self, _bus: &mut T, _address_mode: AddressingMode) -> (r: Result<
        u32,
        CpuError,
    >)
        ensures
            final(self).regs() == (Registers {
                sr: with_flag(old(self).regs().sr, FLAG_OVERFLOW, false),
                ..old(self).regs()
            }),
            r == Ok::<u32, CpuError>(2u32),
            final(self).spec_cycles() == old(self).spec_cycles(),
            final(_bus).mem() == old(_bus).mem(),
            final(_bus).writable() == old(_bus).writable(),
    {
        self.flag_toggle(FLAG_OVERFLOW, false)
    }

    /// SEC: set the Carry flag.
    pub fn sec<T: Bus>(&mut self, _bus: &mut T, _address_mode: AddressingMode) -> (r: Result<
        u32,
        CpuError,
    >)
        ensures
            final(self).regs() == (Registers {
                sr: with_flag(old(self).regs().sr, FLAG_CARRY, true),
                ..old(self).regs()
            }),
            r == Ok::<u32, CpuError>(2u32),
            final(self).spec_cycles() == old(self).spec_cycles(),
            final(_bus).mem() == old(_bus).mem(),
            final(_bus).writable() == old(_bus).writable(),
    {
        self.flag_toggle(FLAG_CARRY, true)
    }

    /// SED: set the Decimal flag; decimal arithmetic itself is not
    /// modelled.
    pub fn sed<T: Bus>(&mut self, _bus: &mut T, _address_mode: AddressingMode) -> (r: Result<
        u32,
        CpuError,
    >)
        ensures
            final(self).regs() == (Registers {
                sr: with_flag(old(self).regs().sr, FLAG_DECIMAL, true),
                ..old(self).regs()
            }),
            r == Ok::<u32, CpuError>(2u32),
            final(self).spec_cycles() == old(self).spec_cycles(),
            final(_bus).mem() == old(_bus).mem(),
            final(_bus).writable() == old(_bus).writable(),
    {
        self.flag_toggle(FLAG_DECIMAL, true)
    }

    /// SEI: set the NoInterrupts flag.
    pub fn sei<T: Bus>(&mut self, _bus: &mut T, _address_mode: AddressingMode) -> (r: Result<
        u32,
        CpuError,
    >)
        ensures
            final(self).regs() == (Registers {
                sr: with_flag(old(self).regs().sr, FLAG_NO_INTERRUPTS, true),
                ..old(self).regs()
            }),
            r == Ok::<u32, CpuError>(2u32),
            final(self).spec_cycles() == old(self).spec_cycles(),
            final(_bus).mem() == old(_bus).mem(),
            final(_bus).writable() == old(_bus).writable(),
    {
        self.flag_toggle(FLAG_NO_INTERRUPTS, true)
    }
}

} // verus!
