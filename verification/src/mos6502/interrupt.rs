//! The software-interrupt instructions: BRK, which enters the interrupt
//! sequence with its return address past its single padding byte, and RTI,
//! which restores the status register and the program counter exactly.

use vstd::prelude::*;

use crate::error::CpuError;
use crate::mos6502::model::interrupt_spec;
use crate::mos6502::model::read_fail_error;
use crate::mos6502::model::stack_addr;
use crate::mos6502::model::word;
use crate::mos6502::model::Outcome;
use crate::mos6502::model::Registers;
use crate::mos6502::AddressingMode;
use crate::mos6502::Bus;
use crate::mos6502::InterruptKind;
use crate::mos6502::FLAG_BREAK;
use crate::mos6502::FLAG_UNUSED;
use crate::mos6502::MOS6502;

verus! {

/// The meaning of RTI: the status byte is popped first, with Break and
/// Unused forced set, then the low and high bytes of the return address;
/// the program counter is set to that address exactly, with no increment.
/// The stack pointer moves up for each pop even when the read fails.
pub open spec fn rti_spec(regs: Registers, m: Map<u16, u8>) -> Outcome {
    let sp1 = regs.sp.wrapping_add(1);
    let status_slot = stack_addr(sp1);
    if !m.dom().contains(status_slot) {
        Outcome {
            regs: Registers { sp: sp1, ..regs },
            mem: m,
            res: Err(read_fail_error(status_slot)),
        }
    } else {
        let sr2 = (m[status_slot] | FLAG_BREAK | FLAG_UNUSED) as u8;
        let sp2 = sp1.wrapping_add(1);
        let lo_slot = stack_addr(sp2);
        if !m.dom().contains(lo_slot) {
            Outcome {
                regs: Registers { sp: sp2, sr: sr2, ..regs },
                mem: m,
                res: Err(read_fail_error(lo_slot)),
            }
        } else {
            let sp3 = sp2.wrapping_add(1);
            let hi_slot = stack_addr(sp3);
            if !m.dom().contains(hi_slot) {
                Outcome {
                    regs: Registers { sp: sp3, sr: sr2, ..regs },
                    mem: m,
                    res: Err(read_fail_error(hi_slot)),
                }
            } else {
                Outcome {
                    regs: Registers {
                        sp: sp3,
                        sr: sr2,
                        pc: word(m[lo_slot], m[hi_slot]),
                        ..regs
                    },
                    mem: m,
                    res: Ok(6u32),
                }
            }
        }
    }
}

impl MOS6502 {
    /// BRK: enter the software interrupt, the pushed return address being
    /// the address just past BRK's single operand byte.
    pub fn brk<T: Bus>(&mut self, bus: &mut T, _address_mode: AddressingMode) -> (r: Result<
        u32,
        CpuError,
    >)
        ensures
            ({
                let out = interrupt_spec(
                    old(self).regs(),
                    old(bus).mem(),
                    old(bus).writable(),
                    old(self).regs().pc.wrapping_add(1),
                    InterruptKind::Brk,
                );
                &&& final(self).regs() == out.regs
                &&& final(bus).mem() == out.mem
                &&& r == out.res
            }),
            final(self).spec_cycles() == old(self).spec_cycles(),
            final(bus).writable() == old(bus).writable(),
    {
        let return_address = self.program_counter().wrapping_add(1);
        self.perform_interrupt(return_address, InterruptKind::Brk, bus)
    }

    /// RTI: restore the status register and the program counter from the
    /// stack.
    pub fn rti<T: Bus>(&mut self, bus: &mut T, _address_mode: AddressingMode) -> (r: Result<
        u32,
        CpuError,
    >)
        ensures
            ({
                let out = rti_spec(old(self).regs(), old(bus).mem());
                &&& final(self).regs() == out.regs
                &&& final(bus).mem() == out.mem
                &&& r == out.res
            }),
            final(self).spec_cycles() == old(self).spec_cycles(),
            final(bus).writable() == old(bus).writable(),
    {
        let status = match self.pop_from_stack(bus) {
            Ok(v) => v,
            Err(e) => {
                return Err(CpuError::InvalidBusOperation(e));
            },
        };
        self.set_status_byte(status | FLAG_BREAK | FLAG_UNUSED);
        let return_address_lo = match self.pop_from_stack(bus) {
            Ok(v) => v,
            Err(e) => {
                return Err(CpuError::InvalidBusOperation(e));
            },
        };
        let return_address_hi = match self.pop_from_stack(bus) {
            Ok(v) => v,
            Err(e) => {
                return Err(CpuError::InvalidBusOperation(e));
            },
        };
        self.set_program_counter(
            ((return_address_hi as u16) << 8) | (return_address_lo as u16),
        );
        Ok(6)
    }
}

} // verus!
