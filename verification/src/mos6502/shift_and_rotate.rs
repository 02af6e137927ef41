//! Shift and rotate instructions: ASL, LSR, ROL and ROR. Each acts on the
//! accumulator or on a memory byte in place; ASL and ROL move bit 7 into
//! Carry, LSR and ROR move bit 0, and the rotates feed the prior Carry into
//! the vacated bit.

use vstd::prelude::*;

use crate::error::CpuError;
use crate::mos6502::model::bit7;
use crate::mos6502::model::flag_on;
use crate::mos6502::model::read_fail_error;
use crate::mos6502::model::resolve_spec;
use crate::mos6502::model::with_flag;
use crate::mos6502::model::with_zn;
use crate::mos6502::model::write_fail_error;
use crate::mos6502::model::Outcome;
use crate::mos6502::model::Registers;
use crate::mos6502::AddressingMode;
use crate::mos6502::Bus;
use crate::mos6502::CpuFlags;
use crate::mos6502::FLAG_CARRY;
use crate::mos6502::FLAG_NEGATIVE;
use crate::mos6502::OpcodeOperand;
use crate::mos6502::MOS6502;

verus! {

/// Which of the four one-bit shift or rotate operations is meant.
#[derive(Clone, Copy, Debug, PartialEq, Eq, Structural)]
pub enum ShiftOp {
    /// Arithmetic shift left: bit 7 leaves into Carry, zero enters.
    Asl,
    /// Logical shift right: bit 0 leaves into Carry, zero enters.
    Lsr,
    /// Rotate left: bit 7 leaves into Carry, the prior Carry enters at bit 0.
    Rol,
    /// Rotate right: bit 0 leaves into Carry, the prior Carry enters at bit 7.
    Ror,
}

/// The shifted or rotated byte, `c` being the Carry before the operation.
pub open spec fn shift_value(op: ShiftOp, v: u8, c: bool) -> u8 {
    match op {
        ShiftOp::Asl => v << 1,
        ShiftOp::Lsr => v >> 1,
        ShiftOp::Rol => (v << 1) | (if c { 1u8 } else { 0u8 }),
        ShiftOp::Ror => (v >> 1) | (if c { 0x80u8 } else { 0u8 }),
    }
}

/// The bit the operation pushes out into Carry.
pub open spec fn shift_carry(op: ShiftOp, v: u8) -> bool {
    match op {
        ShiftOp::Asl => bit7(v),
        ShiftOp::Lsr => v & 1 != 0,
        ShiftOp::Rol => bit7(v),
        ShiftOp::Ror => v & 1 != 0,
    }
}

/// The status byte after the operation on the byte `v`: Carry from the
/// departing bit, Zero and Negative from the new value, and for LSR the
/// Negative flag forced clear (the new bit 7 is always zero there).
pub open spec fn shift_sr(op: ShiftOp, sr: u8, v: u8) -> u8 {
    let nv = shift_value(op, v, flag_on(sr, FLAG_CARRY));
    let s1 = with_zn(with_flag(sr, FLAG_CARRY, shift_carry(op, v)), nv);
    match op {
        ShiftOp::Lsr => with_flag(s1, FLAG_NEGATIVE, false),
        _ => s1,
    }
}

/// The in-place operation at the effective address `w`: the byte is read,
/// the flags are derived, and the new value is written back; a refused
/// write leaves the flags already derived but the byte unchanged.
pub open spec fn shift_memory_at(
    op: ShiftOp,
    regs: Registers,
    m: Map<u16, u8>,
    wr: Set<u16>,
    w: u16,
) -> Outcome {
    if !m.dom().contains(w) {
        Outcome { regs, mem: m, res: Err(read_fail_error(w)) }
    } else {
        let nv = shift_value(op, m[w], flag_on(regs.sr, FLAG_CARRY));
        let regs2 = Registers { sr: shift_sr(op, regs.sr, m[w]), ..regs };
        if wr.contains(w) {
            Outcome { regs: regs2, mem: m.insert(w, nv), res: Ok(0u32) }
        } else {
            Outcome { regs: regs2, mem: m, res: Err(write_fail_error(w, m, wr)) }
        }
    }
}

/// The meaning of a shift or rotate: in accumulator mode it acts on the
/// accumulator, otherwise in place on the byte at the resolved address.
pub open spec fn shift_spec(
    op: ShiftOp,
    mode: AddressingMode,
    regs: Registers,
    m: Map<u16, u8>,
    wr: Set<u16>,
) -> Outcome {
    let r = resolve_spec(mode, regs, m);
    let regs2 = Registers { pc: r.pc, ..regs };
    match r.res {
        Err(e) => Outcome { regs: regs2, mem: m, res: Err(e) },
        Ok(operand) => match operand {
            OpcodeOperand::Byte(_) => Outcome {
                regs: Registers {
                    a: shift_value(op, regs.a, flag_on(regs.sr, FLAG_CARRY)),
                    sr: shift_sr(op, regs.sr, regs.a),
                    ..regs2
                },
                mem: m,
                res: Ok(0u32),
            },
            OpcodeOperand::Address(w) => shift_memory_at(op, regs2, m, wr, w),
            OpcodeOperand::AddressWithOverflow(w, _) => shift_memory_at(op, regs2, m, wr, w),
            OpcodeOperand::NoOperand => Outcome {
                regs: regs2,
                mem: m,
                res: Err(CpuError::InvalidAddressingMode(mode)),
            },
        },
    }
}

impl MOS6502 {
    /// Derives Carry, Zero and Negative for operation `op` on the prior
    /// byte `v`.
    fn shift_flags(&mut self, op: ShiftOp, v: u8)
        ensures
            final(self).regs() == (Registers {
                sr: shift_sr(op, old(self).regs().sr, v),
                ..old(self).regs()
            }),
            final(self).spec_cycles() == old(self).spec_cycles(),
    {
        let nv = self.shifted_value(op, v);
        let carry = match op {
            ShiftOp::Asl => v & 0x80 != 0,
            ShiftOp::Lsr => v & 1 != 0,
            ShiftOp::Rol => v & 0x80 != 0,
            ShiftOp::Ror => v & 1 != 0,
        };
        self.flag_set(CpuFlags { bits: FLAG_CARRY }, carry);
        self.set_zn(nv);
        if let ShiftOp::Lsr = op {
            self.flag_set(CpuFlags { bits: FLAG_NEGATIVE }, false);
        }
    }

    /// The shifted or rotated byte, with the Carry read from the status
    /// register.
    fn shifted_value(&self, op: ShiftOp, v: u8) -> (nv: u8)
        ensures
            nv == shift_value(op, v, flag_on(self.regs().sr, FLAG_CARRY)),
    {
        let carry_in = self.flag_check(CpuFlags { bits: FLAG_CARRY });
        match op {
            ShiftOp::Asl => v << 1,
            ShiftOp::Lsr => v >> 1,
            ShiftOp::Rol => (v << 1) | (if carry_in { 1u8 } else { 0u8 }),
            ShiftOp::Ror => (v >> 1) | (if carry_in { 0x80u8 } else { 0u8 }),
        }
    }

    /// Performs operation `op` on the accumulator or on the byte at the
    /// resolved address, per [`shift_spec`].
    fn shift_operand<T: Bus>(&mut self, bus: &mut T, address_mode: AddressingMode, op: ShiftOp) -> (r:
        Result<u32, CpuError>)
        ensures
            ({
                let out = shift_spec(
                    op,
                    address_mode,
                    old(self).regs(),
                    old(bus).mem(),
                    old(bus).writable(),
                );
                &&& final(self).regs() == out.regs
                &&& final(bus).mem() == out.mem
                &&& r == out.res
            }),
            final(self).spec_cycles() == old(self).spec_cycles(),
            final(bus).writable() == old(bus).writable(),
    {
        let address = match self.resolve_operand(bus, address_mode) {
            Ok(OpcodeOperand::Byte(_)) => {
                let v = self.accumulator();
                let nv = self.shifted_value(op, v);
                self.accumulator = nv;
                self.shift_flags(op, v);
                return Ok(0);
            },
            Ok(OpcodeOperand::Address(w)) => w,
            Ok(OpcodeOperand::AddressWithOverflow(w, _)) => w,
            Ok(OpcodeOperand::NoOperand) => {
                return Err(CpuError::InvalidAddressingMode(address_mode));
            },
            Err(e) => {
                return Err(e);
            },
        };
        let value = match crate::mos6502::read_bus(bus, address) {
            Ok(v) => v,
            Err(e) => {
                return Err(e);
            },
        };
        let new_value = self.shifted_value(op, value);
        self.shift_flags(op, value);
        match crate::mos6502::write_bus(bus, address, new_value) {
            Ok(()) => Ok(0),
            Err(e) => Err(e),
        }
    }

    /// ASL: shift the operand left one bit.
    pub fn asl<T: Bus>(&mut self, bus: &mut T, address_mode: AddressingMode) -> (r: Result<
        u32,
        CpuError,
    >)
        ensures
            ({
                let out = shift_spec(
                    ShiftOp::Asl,
                    address_mode,
                    old(self).regs(),
                    old(bus).mem(),
                    old(bus).writable(),
                );
                &&& final(self).regs() == out.regs
                &&& final(bus).mem() == out.mem
                &&& r == out.res
            }),
            final(self).spec_cycles() == old(self).spec_cycles(),
            final(bus).writable() == old(bus).writable(),
    {
        self.shift_operand(bus, address_mode, ShiftOp::Asl)
    }

    /// LSR: shift the operand right one bit; Negative always clears.
    pub fn lsr<T: Bus>(&mut self, bus: &mut T, address_mode: AddressingMode) -> (r: Result<
        u32,
        CpuError,
    >)
        ensures
            ({
                let out = shift_spec(
                    ShiftOp::Lsr,
                    address_mode,
                    old(self).regs(),
                    old(bus).mem(),
                    old(bus).writable(),
                );
                &&& final(self).regs() == out.regs
                &&& final(bus).mem() == out.mem
                &&& r == out.res
            }),
            final(self).spec_cycles() == old(self).spec_cycles(),
            final(bus).writable() == old(bus).writable(),
    {
        self.shift_operand(bus, address_mode, ShiftOp::Lsr)
    }

    /// ROL: rotate the operand left through Carry.
    pub fn rol<T: Bus>(&mut self, bus: &mut T, address_mode: AddressingMode) -> (r: Result<
        u32,
        CpuError,
    >)
        ensures
            ({
                let out = shift_spec(
                    ShiftOp::Rol,
                    address_mode,
                    old(self).regs(),
                    old(bus).mem(),
                    old(bus).writable(),
                );
                &&& final(self).regs() == out.regs
                &&& final(bus).mem() == out.mem
                &&& r == out.res
            }),
            final(self).spec_cycles() == old(self).spec_cycles(),
            final(bus).writable() == old(bus).writable(),
    {
        self.shift_operand(bus, address_mode, ShiftOp::Rol)
    }

    /// ROR: rotate the operand right through Carry.
    pub fn ror<T: Bus>(&mut self, bus: &mut T, address_mode: AddressingMode) -> (r: Result<
        u32,
        CpuError,
    >)
        ensures
            ({
                let out = shift_spec(
                    ShiftOp::Ror,
                    address_mode,
                    old(self).regs(),
                    old(bus).mem(),
                    old(bus).writable(),
                );
                &&& final(self).regs() == out.regs
                &&& final(bus).mem() == out.mem
                &&& r == out.res
            }),
            final(self).spec_cycles() == old(self).spec_cycles(),
            final(bus).writable() == old(bus).writable(),
    {
        self.shift_operand(bus, address_mode, ShiftOp::Ror)
    }
}

} // verus!
