//! Bitwise logical instructions: AND, EOR and ORA.

use vstd::prelude::*;

use crate::error::CpuError;
use crate::mos6502::model::fetch_spec;
use crate::mos6502::model::with_zn;
use crate::mos6502::model::Outcome;
use crate::mos6502::model::Registers;
use crate::mos6502::AddressingMode;
use crate::mos6502::Bus;
use crate::mos6502::MOS6502;

verus! {

/// The meaning of AND: the accumulator is masked with the operand's value,
/// and Zero and Negative follow the result.
pub open spec fn and_spec(mode: AddressingMode, regs: Registers, m: Map<u16, u8>) -> Outcome {
    let f = fetch_spec(mode, regs, m);
    match f.res {
        Ok(va) => {
            let result = regs.a & va.0;
            Outcome {
                regs: Registers { a: result, sr: with_zn(regs.sr, result), pc: f.pc, ..regs },
                mem: m,
                res: Ok(va.1),
            }
        },
        Err(e) => Outcome { regs: Registers { pc: f.pc, ..regs }, mem: m, res: Err(e) },
    }
}

/// The meaning of EOR: the accumulator is combined with the operand's value
/// by exclusive or, and Zero and Negative follow the result.
pub open spec fn eor_spec(mode: AddressingMode, regs: Registers, m: Map<u16, u8>) -> Outcome {
    let f = fetch_spec(mode, regs, m);
    match f.res {
        Ok(va) => {
            let result = regs.a ^ va.0;
            Outcome {
                regs: Registers { a: result, sr: with_zn(regs.sr, result), pc: f.pc, ..regs },
                mem: m,
                res: Ok(va.1),
            }
        },
        Err(e) => Outcome { regs: Registers { pc: f.pc, ..regs }, mem: m, res: Err(e) },
    }
}

/// The meaning of ORA: the accumulator is combined with the operand's value
/// by inclusive or, and Zero and Negative follow the result.
pub open spec fn ora_spec(mode: AddressingMode, regs: Registers, m: Map<u16, u8>) -> Outcome {
    let f = fetch_spec(mode, regs, m);
    match f.res {
        Ok(va) => {
            let result = regs.a | va.0;
            Outcome {
                regs: Registers { a: result, sr: with_zn(regs.sr, result), pc: f.pc, ..regs },
                mem: m,
                res: Ok(va.1),
            }
        },
        Err(e) => Outcome { regs: Registers { pc: f.pc, ..regs }, mem: m, res: Err(e) },
    }
}

impl MOS6502 {
    /// AND: mask the accumulator with the operand.
    pub fn and<T: Bus>(&mut self, bus: &mut T, address_mode: AddressingMode) -> (r: Result<
        u32,
        CpuError,
    >)
        ensures
            ({
                let out = and_spec(address_mode, old(self).regs(), old(bus).mem());
                &&& final(self).regs() == out.regs
                &&& final(bus).mem() == out.mem
                &&& r == out.res
            }),
            final(self).spec_cycles() == old(self).spec_cycles(),
            final(bus).writable() == old(bus).writable(),
    {
        match self.fetch_operand_value(bus, address_mode) {
            Ok((value, extra)) => {
                let result = self.accumulator() & value;
                self.set_accumulator_value(result);
                Ok(extra)
            },
            Err(e) => Err(e),
        }
    }

    /// EOR: exclusive-or the accumulator with the operand.
    pub fn eor<T: Bus>(&mut self, bus: &mut T, address_mode: AddressingMode) -> (r: Result<
        u32,
        CpuError,
    >)
        ensures
            ({
                let out = eor_spec(address_mode, old(self).regs(), old(bus).mem());
                &&& final(self).regs() == out.regs
                &&& final(bus).mem() == out.mem
                &&& r == out.res
            }),
            final(self).spec_cycles() == old(self).spec_cycles(),
            final(bus).writable() == old(bus).writable(),
    {
        match self.fetch_operand_value(bus, address_mode) {
            Ok((value, extra)) => {
                let result = self.accumulator() ^ value;
                self.set_accumulator_value(result);
                Ok(extra)
            },
            Err(e) => Err(e),
        }
    }

    /// ORA: inclusive-or the accumulator with the operand.
    pub fn ora<T: Bus>(&mut self, bus: &mut T, address_mode: AddressingMode) -> (r: Result<
        u32,
        CpuError,
    >)
        ensures
            ({
                let out = ora_spec(address_mode, old(self).regs(), old(bus).mem());
                &&& final(self).regs() == out.regs
                &&& final(bus).mem() == out.mem
                &&& r == out.res
            }),
            final(self).spec_cycles() == old(self).spec_cycles(),
            final(bus).writable() == old(bus).writable(),
    {
        match self.fetch_operand_value(bus, address_mode) {
            Ok((value, extra)) => {
                let result = self.accumulator() | value;
                self.set_accumulator_value(result);
                Ok(extra)
            },
            Err(e) => Err(e),
        }
    }
}

} // verus!
