//! Arithmetic instructions: ADC and SBC. Subtraction is addition of the
//! operand's one's complement, reproducing the processor's
//! borrow-as-inverted-carry semantics; the equivalence of the two views is
//! proved here.

use vstd::prelude::*;

use crate::error::CpuError;
use crate::mos6502::model::fetch_spec;
use crate::mos6502::model::flag_on;
use crate::mos6502::model::with_flag;
use crate::mos6502::model::with_zn;
use crate::mos6502::model::Outcome;
use crate::mos6502::model::Registers;
use crate::mos6502::AddressingMode;
use crate::mos6502::Bus;
use crate::mos6502::CpuFlags;
use crate::mos6502::FLAG_CARRY;
use crate::mos6502::FLAG_OVERFLOW;
use crate::mos6502::MOS6502;

verus! {

/// The 8-bit result of adding the operand and the carry-in to the
/// accumulator, wrapping.
pub open spec fn adc_result(a: u8, v: u8, c: bool) -> u8 {
    a.wrapping_add(v).wrapping_add(if c { 1u8 } else { 0u8 })
}

/// The carry out of ADC: the true sum does not fit in eight bits.
pub open spec fn adc_carry(a: u8, v: u8, c: bool) -> bool {
    a as int + v as int + (if c { 1int } else { 0int }) > 0xff
}

/// The signed overflow of ADC, by the sign-bit formula: the accumulator and
/// the operand agreed in sign, and the result's sign differs from the
/// operand's.
pub open spec fn adc_overflow(a: u8, v: u8, c: bool) -> bool {
    (!(a ^ v)) & 0x80 != 0 && (adc_result(a, v, c) ^ v) & 0x80 != 0
}

/// The status byte after ADC: Zero and Negative from the result, Carry and
/// Overflow from their formulas.
pub open spec fn adc_sr(sr: u8, a: u8, v: u8) -> u8 {
    let c = flag_on(sr, FLAG_CARRY);
    with_flag(
        with_flag(with_zn(sr, adc_result(a, v, c)), FLAG_CARRY, adc_carry(a, v, c)),
        FLAG_OVERFLOW,
        adc_overflow(a, v, c),
    )
}

/// The meaning of ADC: the operand's value and the carry-in are added to the
/// accumulator.
pub open spec fn adc_spec(mode: AddressingMode, regs: Registers, m: Map<u16, u8>) -> Outcome {
    let f = fetch_spec(mode, regs, m);
    match f.res {
        Ok(va) => {
            let c = flag_on(regs.sr, FLAG_CARRY);
            Outcome {
                regs: Registers {
                    a: adc_result(regs.a, va.0, c),
                    sr: adc_sr(regs.sr, regs.a, va.0),
                    pc: f.pc,
                    ..regs
                },
                mem: m,
                res: Ok(va.1),
            }
        },
        Err(e) => Outcome { regs: Registers { pc: f.pc, ..regs }, mem: m, res: Err(e) },
    }
}

/// The 8-bit result of subtracting the operand from the accumulator, the
/// borrow being the inverted carry, wrapping.
pub open spec fn sbc_result(a: u8, v: u8, c: bool) -> u8 {
    a.wrapping_sub(v).wrapping_sub(if c { 0u8 } else { 1u8 })
}

/// The carry after SBC: set exactly when no borrow was needed.
pub open spec fn sbc_carry(a: u8, v: u8, c: bool) -> bool {
    a as int >= v as int + (if c { 0int } else { 1int })
}

/// The signed overflow of SBC: the accumulator and the operand differed in
/// sign, and the result's sign differs from the accumulator's.
pub open spec fn sbc_overflow(a: u8, v: u8, c: bool) -> bool {
    (a ^ v) & 0x80 != 0 && (a ^ sbc_result(a, v, c)) & 0x80 != 0
}

/// The status byte after SBC.
pub open spec fn sbc_sr(sr: u8, a: u8, v: u8) -> u8 {
    let c = flag_on(sr, FLAG_CARRY);
    with_flag(
        with_flag(with_zn(sr, sbc_result(a, v, c)), FLAG_CARRY, sbc_carry(a, v, c)),
        FLAG_OVERFLOW,
        sbc_overflow(a, v, c),
    )
}

/// The meaning of SBC: the operand's value is subtracted from the
/// accumulator with the borrow given by the inverted carry.
pub open spec fn sbc_spec(mode: AddressingMode, regs: Registers, m: Map<u16, u8>) -> Outcome {
    let f = fetch_spec(mode, regs, m);
    match f.res {
        Ok(va) => {
            let c = flag_on(regs.sr, FLAG_CARRY);
            Outcome {
                regs: Registers {
                    a: sbc_result(regs.a, va.0, c),
                    sr: sbc_sr(regs.sr, regs.a, va.0),
                    pc: f.pc,
                    ..regs
                },
                mem: m,
                res: Ok(va.1),
            }
        },
        Err(e) => Outcome { regs: Registers { pc: f.pc, ..regs }, mem: m, res: Err(e) },
    }
}

/// Subtraction is addition of the one's complement: for every accumulator
/// value `a`, operand `v` and carry-in `c`, SBC agrees with ADC of `!v`
/// bit for bit — in the 8-bit result, the carry out and the signed
/// overflow, and so in every resulting flag.
pub proof fn lemma_sbc_is_adc_of_complement(a: u8, v: u8, c: bool)
    by (bit_vector)
    ensures
        sbc_result(a, v, c) == adc_result(a, !v, c),
        sbc_carry(a, v, c) == adc_carry(a, !v, c),
        sbc_overflow(a, v, c) == adc_overflow(a, !v, c),
{
}

/// The flag images agree as well: SBC's status byte is ADC's on the
/// complemented operand.
pub proof fn lemma_sbc_sr_is_adc_sr_of_complement(sr: u8, a: u8, v: u8)
    ensures
        sbc_sr(sr, a, v) == adc_sr(sr, a, !v),
{
    lemma_sbc_is_adc_of_complement(a, v, flag_on(sr, FLAG_CARRY));
}

impl MOS6502 {
    /// Adds `value` and the carry flag into the accumulator, deriving Zero,
    /// Negative, Carry and Overflow.
    fn add_to_accumulator_with_carry(&mut self, value: u8)
        ensures
            final(self).regs() == (Registers {
                a: adc_result(old(self).regs().a, value, flag_on(old(self).regs().sr, FLAG_CARRY)),
                sr: adc_sr(old(self).regs().sr, old(self).regs().a, value),
                ..old(self).regs()
            }),
            final(self).spec_cycles() == old(self).spec_cycles(),
    {
        let old_value = self.accumulator();
        let carry_in: u8 = if self.flag_check(CpuFlags { bits: FLAG_CARRY }) {
            1
        } else {
            0
        };

        let result = old_value.wrapping_add(value).wrapping_add(carry_in);
        let carry_out = (old_value as u16) + (value as u16) + (carry_in as u16) > 0xff;
        let overflow = (!(old_value ^ value)) & 0x80 != 0 && (result ^ value) & 0x80 != 0;

        self.set_accumulator_value(result);
        self.flag_set(CpuFlags { bits: FLAG_CARRY }, carry_out);
        self.flag_set(CpuFlags { bits: FLAG_OVERFLOW }, overflow);
    }

    /// ADC: add the operand to the accumulator with carry.
    pub fn adc<T: Bus>(&mut self, bus: &mut T, address_mode: AddressingMode) -> (r: Result<
        u32,
        CpuError,
    >)
        ensures
            ({
                let out = adc_spec(address_mode, old(self).regs(), old(bus).mem());
                &&& final(self).regs() == out.regs
                &&& final(bus).mem() == out.mem
                &&& r == out.res
            }),
            final(self).spec_cycles() == old(self).spec_cycles(),
            final(bus).writable() == old(bus).writable(),
    {
        match self.fetch_operand_value(bus, address_mode) {
            Ok((value, extra)) => {
                self.add_to_accumulator_with_carry(value);
                Ok(extra)
            },
            Err(e) => Err(e),
        }
    }

    /// SBC: subtract the operand from the accumulator with borrow, realised
    /// as addition of the operand's one's complement.
    pub fn sbc<T: Bus>(&mut self, bus: &mut T, address_mode: AddressingMode) -> (r: Result<
        u32,
        CpuError,
    >)
        ensures
            ({
                let out = sbc_spec(address_mode, old(self).regs(), old(bus).mem());
                &&& final(self).regs() == out.regs
                &&& final(bus).mem() == out.mem
                &&& r == out.res
            }),
            final(self).spec_cycles() == old(self).spec_cycles(),
            final(bus).writable() == old(bus).writable(),
    {
        match self.fetch_operand_value(bus, address_mode) {
            Ok((value, extra)) => {
                self.add_to_accumulator_with_carry(!value);
                proof {
                    lemma_sbc_is_adc_of_complement(
                        old(self).regs().a,
                        value,
                        flag_on(old(self).regs().sr, FLAG_CARRY),
                    );
                }
                Ok(extra)
            },
            Err(e) => Err(e),
        }
    }
}

} // verus!
