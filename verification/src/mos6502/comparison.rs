//! Comparison instructions: CMP, CPX and CPY. Each subtracts the operand
//! from a register without storing the result, setting Carry, Zero and
//! Negative.

use vstd::prelude::*;

use crate::error::CpuError;
use crate::mos6502::model::bit7;
use crate::mos6502::model::fetch_spec;
use crate::mos6502::model::with_flag;
use crate::mos6502::model::Outcome;
use crate::mos6502::model::Registers;
use crate::mos6502::AddressingMode;
use crate::mos6502::Bus;
use crate::mos6502::CpuFlags;
use crate::mos6502::FLAG_CARRY;
use crate::mos6502::FLAG_NEGATIVE;
use crate::mos6502::FLAG_ZERO;
use crate::mos6502::MOS6502;

verus! {

/// The status byte after comparing `reg` with `v`: Negative from bit 7 of
/// the wrapped difference, Zero exactly on equality, Carry exactly when the
/// register is at least the operand.
pub open spec fn compare_sr(sr: u8, reg: u8, v: u8) -> u8 {
    with_flag(
        with_flag(with_flag(sr, FLAG_NEGATIVE, bit7(reg.wrapping_sub(v))), FLAG_ZERO, reg == v),
        FLAG_CARRY,
        reg >= v,
    )
}

/// The meaning of a comparison against the register value `reg`: flags only,
/// with a crossed page worth one extra cycle.
pub open spec fn compare_spec(
    mode: AddressingMode,
    regs: Registers,
    m: Map<u16, u8>,
    reg: u8,
) -> Outcome {
    let f = fetch_spec(mode, regs, m);
    match f.res {
        Ok(va) => Outcome {
            regs: Registers { sr: compare_sr(regs.sr, reg, va.0), pc: f.pc, ..regs },
            mem: m,
            res: Ok(va.1),
        },
        Err(e) => Outcome { regs: Registers { pc: f.pc, ..regs }, mem: m, res: Err(e) },
    }
}

impl MOS6502 {
    /// Compares `reg` with the operand's value, setting Negative, Zero and
    /// Carry.
    fn compare_register<T: Bus>(&mut self, bus: &mut T, address_mode: AddressingMode, reg: u8) -> (r:
        Result<u32, CpuError>)
        ensures
            ({
                let out = compare_spec(address_mode, old(self).regs(), old(bus).mem(), reg);
                &&& final(self).regs() == out.regs
                &&& final(bus).mem() == out.mem
                &&& r == out.res
            }),
            final(self).spec_cycles() == old(self).spec_cycles(),
            final(bus).writable() == old(bus).writable(),
    {
        match self.fetch_operand_value(bus, address_mode) {
            Ok((value, extra)) => {
                let difference = reg.wrapping_sub(value);
                self.flag_set(CpuFlags { bits: FLAG_NEGATIVE }, difference & 0x80 != 0);
                self.flag_set(CpuFlags { bits: FLAG_ZERO }, reg == value);
                self.flag_set(CpuFlags { bits: FLAG_CARRY }, reg >= value);
                Ok(extra)
            },
            Err(e) => Err(e),
        }
    }

    /// CMP: compare the accumulator with the operand.
    pub fn cmp<T: Bus>(&mut self, bus: &mut T, address_mode: AddressingMode) -> (r: Result<
        u32,
        CpuError,
    >)
        ensures
            ({
                let out = compare_spec(
                    address_mode,
                    old(self).regs(),
                    old(bus).mem(),
                    old(self).regs().a,
                );
                &&& final(self).regs() == out.regs
                &&& final(bus).mem() == out.mem
                &&& r == out.res
            }),
            final(self).spec_cycles() == old(self).spec_cycles(),
            final(bus).writable() == old(bus).writable(),
    {
        let reg = self.accumulator();
        self.compare_register(bus, address_mode, reg)
    }

    /// CPX: compare the X register with the operand.
    pub fn cpx<T: Bus>(&mut self, bus: &mut T, address_mode: AddressingMode) -> (r: Result<
        u32,
        CpuError,
    >)
        ensures
            ({
                let out = compare_spec(
                    address_mode,
                    old(self).regs(),
                    old(bus).mem(),
                    old(self).regs().x,
                );
                &&& final(self).regs() == out.regs
                &&& final(bus).mem() == out.mem
                &&& r == out.res
            }),
            final(self).spec_cycles() == old(self).spec_cycles(),
            final(bus).writable() == old(bus).writable(),
    {
        let reg = self.x_register();
        self.compare_register(bus, address_mode, reg)
    }

    /// CPY: compare the Y register with the operand.
    pub fn cpy<T: Bus>(&mut self, bus: &mut T, address_mode: AddressingMode) -> (r: Result<
        u32,
        CpuError,
    >)
        ensures
            ({
                let out = compare_spec(
                    address_mode,
                    old(self).regs(),
                    old(bus).mem(),
                    old(self).regs().y,
                );
                &&& final(self).regs() == out.regs
                &&& final(bus).mem() == out.mem
                &&& r == out.res
            }),
            final(self).spec_cycles() == old(self).spec_cycles(),
            final(bus).writable() == old(bus).writable(),
    {
        let reg = self.y_register();
        self.compare_register(bus, address_mode, reg)
    }
}

} // verus!
