//! The remaining instructions: NOP, and BIT, which tests memory bits
//! against the accumulator without storing anything.

use vstd::prelude::*;

use crate::error::CpuError;
use crate::mos6502::model::read_fail_error;
use crate::mos6502::model::resolve_spec;
use crate::mos6502::model::with_flag;
use crate::mos6502::model::Outcome;
use crate::mos6502::model::Registers;
use crate::mos6502::AddressingMode;
use crate::mos6502::Bus;
use crate::mos6502::CpuFlags;
use crate::mos6502::FLAG_NEGATIVE;
use crate::mos6502::FLAG_OVERFLOW;
use crate::mos6502::FLAG_ZERO;
use crate::mos6502::OpcodeOperand;
use crate::mos6502::MOS6502;

verus! {

/// The status byte after BIT on the operand byte `v`: Negative and Overflow
/// are copied from bits 7 and 6 of the operand itself, Zero from whether
/// the operand and the accumulator share no set bit.
pub open spec fn bit_sr(sr: u8, a: u8, v: u8) -> u8 {
    with_flag(
        with_flag(with_flag(sr, FLAG_NEGATIVE, v & 0x80 != 0), FLAG_OVERFLOW, v & 0x40 != 0),
        FLAG_ZERO,
        v & a == 0,
    )
}

/// The meaning of BIT: the operand must resolve to a plain address; its
/// byte is read and tested, and nothing is stored.
pub open spec fn bit_spec(mode: AddressingMode, regs: Registers, m: Map<u16, u8>) -> Outcome {
    let r = resolve_spec(mode, regs, m);
    let regs2 = Registers { pc: r.pc, ..regs };
    match r.res {
        Err(e) => Outcome { regs: regs2, mem: m, res: Err(e) },
        Ok(op) => match op {
            OpcodeOperand::Address(w) => {
                if m.dom().contains(w) {
                    Outcome {
                        regs: Registers { sr: bit_sr(regs.sr, regs.a, m[w]), ..regs2 },
                        mem: m,
                        res: Ok(0u32),
                    }
                } else {
                    Outcome { regs: regs2, mem: m, res: Err(read_fail_error(w)) }
                }
            },
            _ => Outcome { regs: regs2, mem: m, res: Err(CpuError::InvalidAddressingMode(mode)) },
        },
    }
}

impl MOS6502 {
    /// NOP: no state changes; the table's fixed two cycles elapse.
    pub fn nop<T: Bus>(&mut self, _bus: &mut T, _address_mode: AddressingMode) -> (r: Result<
        u32,
        CpuError,
    >)
        ensures
            final(self).regs() == old(self).regs(),
            r == Ok::<u32, CpuError>(2u32),
            final(self).spec_cycles() == old(self).spec_cycles(),
            final(_bus).mem() == old(_bus).mem(),
            final(_bus).writable() == old(_bus).writable(),
    {
        Ok(2)
    }

    /// BIT: test the accumulator against the byte at the resolved address.
    pub fn bit<T: Bus>(&mut self, bus: &mut T, address_mode: AddressingMode) -> (r: Result<
        u32,
        CpuError,
    >)
        ensures
            ({
                let out = bit_spec(address_mode, old(self).regs(), old(bus).mem());
                &&& final(self).regs() == out.regs
                &&& final(bus).mem() == out.mem
                &&& r == out.res
            }),
            final(self).spec_cycles() == old(self).spec_cycles(),
            final(bus).writable() == old(bus).writable(),
    {
        let address = match self.resolve_operand(bus, address_mode) {
            Ok(OpcodeOperand::Address(w)) => w,
            Ok(_) => {
                return Err(CpuError::InvalidAddressingMode(address_mode));
            },
            Err(e) => {
                return Err(e);
            },
        };
        let value = match crate::mos6502::read_bus(bus, address) {
            Ok(v) => v,
            Err(e) => {
                return Err(e);
            },
        };
        self.flag_set(CpuFlags { bits: FLAG_NEGATIVE }, value & 0x80 != 0);
        self.flag_set(CpuFlags { bits: FLAG_OVERFLOW }, value & 0x40 != 0);
        let masked = value & self.accumulator();
        self.flag_set(CpuFlags { bits: FLAG_ZERO }, masked == 0);
        Ok(0)
    }
}

} // verus!
