//! Jump and subroutine instructions: JMP, JSR and RTS. JSR pushes the
//! address of its own last byte, high byte first; RTS pops it back and
//! resumes one past it. The round trip of the two is proved here.

use vstd::prelude::*;

use crate::error::CpuError;
use crate::mos6502::model::hi8;
use crate::mos6502::model::lemma_word_round_trip;
use crate::mos6502::model::lo8;
use crate::mos6502::model::push_ok;
use crate::mos6502::model::read_fail_error;
use crate::mos6502::model::resolve_spec;
use crate::mos6502::model::stack_addr;
use crate::mos6502::model::word;
use crate::mos6502::model::write_fail_error;
use crate::mos6502::model::Outcome;
use crate::mos6502::model::Registers;
use crate::mos6502::AddressingMode;
use crate::mos6502::Bus;
use crate::mos6502::OpcodeOperand;
use crate::mos6502::MOS6502;

verus! {

/// The meaning of JMP: the operand must resolve to a plain address, and the
/// program counter is set to it.
pub open spec fn jmp_spec(mode: AddressingMode, regs: Registers, m: Map<u16, u8>) -> Outcome {
    let r = resolve_spec(mode, regs, m);
    let regs2 = Registers { pc: r.pc, ..regs };
    match r.res {
        Err(e) => Outcome { regs: regs2, mem: m, res: Err(e) },
        Ok(op) => match op {
            OpcodeOperand::Address(target) => Outcome {
                regs: Registers { pc: target, ..regs },
                mem: m,
                res: Ok(0u32),
            },
            _ => Outcome { regs: regs2, mem: m, res: Err(CpuError::InvalidAddressingMode(mode)) },
        },
    }
}

/// The meaning of JSR: the absolute target is resolved, the address of the
/// instruction's last byte — the program counter past the operand, minus
/// one — is pushed high byte then low byte, and the program counter is set
/// to the target. The stack pointer moves down for each push even when the
/// push is refused.
pub open spec fn jsr_spec(
    mode: AddressingMode,
    regs: Registers,
    m: Map<u16, u8>,
    wr: Set<u16>,
) -> Outcome {
    let r = resolve_spec(mode, regs, m);
    let regs2 = Registers { pc: r.pc, ..regs };
    match r.res {
        Err(e) => Outcome { regs: regs2, mem: m, res: Err(e) },
        Ok(op) => match op {
            OpcodeOperand::Address(target) => {
                let ra = r.pc.wrapping_sub(1);
                let hi_slot = stack_addr(regs.sp);
                let sp1 = regs.sp.wrapping_sub(1);
                let lo_slot = stack_addr(sp1);
                let sp2 = sp1.wrapping_sub(1);
                if !push_ok(regs.sp, m, wr) {
                    Outcome {
                        regs: Registers { pc: r.pc, sp: sp1, ..regs },
                        mem: m,
                        res: Err(write_fail_error(hi_slot, m, wr)),
                    }
                } else {
                    let m1 = m.insert(hi_slot, hi8(ra));
                    if !push_ok(sp1, m1, wr) {
                        Outcome {
                            regs: Registers { pc: r.pc, sp: sp2, ..regs },
                            mem: m1,
                            res: Err(write_fail_error(lo_slot, m1, wr)),
                        }
                    } else {
                        Outcome {
                            regs: Registers { pc: target, sp: sp2, ..regs },
                            mem: m1.insert(lo_slot, lo8(ra)),
                            res: Ok(0u32),
                        }
                    }
                }
            },
            _ => Outcome { regs: regs2, mem: m, res: Err(CpuError::InvalidAddressingMode(mode)) },
        },
    }
}

/// The meaning of RTS: the low then the high byte of the return address are
/// popped, and the program counter is set to one past that address. The
/// stack pointer moves up for each pop even when the read fails.
pub open spec fn rts_spec(regs: Registers, m: Map<u16, u8>) -> Outcome {
    let sp1 = regs.sp.wrapping_add(1);
    let lo_slot = stack_addr(sp1);
    if !m.dom().contains(lo_slot) {
        Outcome {
            regs: Registers { sp: sp1, ..regs },
            mem: m,
            res: Err(read_fail_error(lo_slot)),
        }
    } else {
        let sp2 = sp1.wrapping_add(1);
        let hi_slot = stack_addr(sp2);
        if !m.dom().contains(hi_slot) {
            Outcome {
                regs: Registers { sp: sp2, ..regs },
                mem: m,
                res: Err(read_fail_error(hi_slot)),
            }
        } else {
            Outcome {
                regs: Registers {
                    sp: sp2,
                    pc: word(m[lo_slot], m[hi_slot]).wrapping_add(1),
                    ..regs
                },
                mem: m,
                res: Ok(6u32),
            }
        }
    }
}

/// JSR followed by RTS returns: from the state just after the JSR opcode
/// fetch — the program counter at its two operand bytes, so one past the
/// opcode itself — executing JSR and then RTS on the resulting state leaves
/// the program counter two past the operand position (three past the
/// opcode) and the stack pointer exactly where it began.
pub proof fn lemma_jsr_rts_round_trip(regs: Registers, m: Map<u16, u8>, wr: Set<u16>)
    requires
        m.dom().contains(regs.pc),
        m.dom().contains(regs.pc.wrapping_add(1)),
        push_ok(regs.sp, m, wr),
        push_ok(regs.sp.wrapping_sub(1), m, wr),
    ensures
        ({
            let out1 = jsr_spec(AddressingMode::Absolute, regs, m, wr);
            let out2 = rts_spec(out1.regs, out1.mem);
            &&& out1.res == Ok::<u32, CpuError>(0u32)
            &&& out1.regs.pc == word(m[regs.pc], m[regs.pc.wrapping_add(1)])
            &&& out2.res == Ok::<u32, CpuError>(6u32)
            &&& out2.regs.pc == regs.pc.wrapping_add(2)
            &&& out2.regs.sp == regs.sp
        }),
{
    let ra = regs.pc.wrapping_add(1).wrapping_add(1).wrapping_sub(1);
    assert(ra == regs.pc.wrapping_add(1));
    assert(ra.wrapping_add(1) == regs.pc.wrapping_add(2));
    let sp1 = regs.sp.wrapping_sub(1);
    assert(sp1.wrapping_add(1) == regs.sp);
    assert(regs.sp.wrapping_sub(1).wrapping_sub(1).wrapping_add(1) == sp1);
    assert(stack_addr(sp1) != stack_addr(regs.sp));
    lemma_word_round_trip(ra);
}

impl MOS6502 {
    /// JMP: set the program counter to the resolved address.
    pub fn jmp<T: Bus>(&mut self, bus: &mut T, address_mode: AddressingMode) -> (r: Result<
        u32,
        CpuError,
    >)
        ensures
            ({
                let out = jmp_spec(address_mode, old(self).regs(), old(bus).mem());
                &&& final(self).regs() == out.regs
                &&& final(bus).mem() == out.mem
                &&& r == out.res
            }),
            final(self).spec_cycles() == old(self).spec_cycles(),
            final(bus).writable() == old(bus).writable(),
    {
        let target = match self.resolve_operand(bus, address_mode) {
            Ok(OpcodeOperand::Address(w)) => w,
            Ok(_) => {
                return Err(CpuError::InvalidAddressingMode(address_mode));
            },
            Err(e) => {
                return Err(e);
            },
        };
        self.set_program_counter(target);
        Ok(0)
    }

    /// JSR: push the address of this instruction's last byte, then jump to
    /// the resolved target.
    pub fn jsr<T: Bus>(&mut self, bus: &mut T, address_mode: AddressingMode) -> (r: Result<
        u32,
        CpuError,
    >)
        ensures
            ({
                let out = jsr_spec(
                    address_mode,
                    old(self).regs(),
                    old(bus).mem(),
                    old(bus).writable(),
                );
                &&& final(self).regs() == out.regs
                &&& final(bus).mem() == out.mem
                &&& r == out.res
            }),
            final(self).spec_cycles() == old(self).spec_cycles(),
            final(bus).writable() == old(bus).writable(),
    {
        let target = match self.resolve_operand(bus, address_mode) {
            Ok(OpcodeOperand::Address(w)) => w,
            Ok(_) => {
                return Err(CpuError::InvalidAddressingMode(address_mode));
            },
            Err(e) => {
                return Err(e);
            },
        };

        let return_address = self.program_counter().wrapping_sub(1);
        let return_address_hi = (return_address >> 8) as u8;
        let return_address_lo = (return_address & 0xff) as u8;

        match self.push_to_stack(bus, return_address_hi) {
            Ok(()) => (),
            Err(e) => {
                return Err(CpuError::InvalidBusOperation(e));
            },
        };
        match self.push_to_stack(bus, return_address_lo) {
            Ok(()) => (),
            Err(e) => {
                return Err(CpuError::InvalidBusOperation(e));
            },
        };

        self.set_program_counter(target);
        Ok(0)
    }

    /// RTS: pop the return address and resume one past it.
    pub fn rts<T: Bus>(&mut self, bus: &mut T, _address_mode: AddressingMode) -> (r: Result<
        u32,
        CpuError,
    >)
        ensures
            ({
                let out = rts_spec(old(self).regs(), old(bus).mem());
                &&& final(self).regs() == out.regs
                &&& final(bus).mem() == out.mem
                &&& r == out.res
            }),
            final(self).spec_cycles() == old(self).spec_cycles(),
            final(bus).writable() == old(bus).writable(),
    {
        let return_address_lo = match self.pop_from_stack(bus) {
            Ok(v) => v,
            Err(e) => {
                return Err(CpuError::InvalidBusOperation(e));
            },
        };
        let return_address_hi = match self.pop_from_stack(bus) {
            Ok(v) => v,
            Err(e) => {
                return Err(CpuError::InvalidBusOperation(e));
            },
        };
        let return_address = ((return_address_hi as u16) << 8) | (return_address_lo as u16);
        self.set_program_counter(return_address.wrapping_add(1));
        Ok(6)
    }
}

} // verus!
