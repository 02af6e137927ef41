//! Branch instructions: BCC, BCS, BEQ, BMI, BNE, BPL, BVC and BVS. Each
//! resolves a relative target, and takes it only when its flag condition
//! holds; a taken branch costs one extra cycle, and one more when the
//! target lies in another page than the instruction's end.

use vstd::prelude::*;

use crate::error::CpuError;
use crate::mos6502::decode::decode_spec;
use crate::mos6502::decode::Cycles;
use crate::mos6502::model::flag_on;
use crate::mos6502::model::resolve_spec;
use crate::mos6502::model::Outcome;
use crate::mos6502::model::Registers;
use crate::mos6502::AddressingMode;
use crate::mos6502::Bus;
use crate::mos6502::CpuFlags;
use crate::mos6502::FLAG_CARRY;
use crate::mos6502::FLAG_NEGATIVE;
use crate::mos6502::FLAG_OVERFLOW;
use crate::mos6502::FLAG_ZERO;
use crate::mos6502::OpcodeOperand;
use crate::mos6502::MOS6502;

verus! {

/// The meaning of a branch whose condition evaluated to `taken`: the
/// relative target is resolved either way; a taken branch moves the program
/// counter there for one extra cycle, plus one more if the page changed,
/// and a branch not taken leaves the program counter past the operand for
/// no extra cycle.
pub open spec fn branch_spec(
    mode: AddressingMode,
    regs: Registers,
    m: Map<u16, u8>,
    taken: bool,
) -> Outcome {
    let r = resolve_spec(mode, regs, m);
    let regs2 = Registers { pc: r.pc, ..regs };
    match r.res {
        Err(e) => Outcome { regs: regs2, mem: m, res: Err(e) },
        Ok(op) => match op {
            OpcodeOperand::Address(target) => {
                if taken {
                    let crossed = (r.pc & 0xff00) != (target & 0xff00);
                    Outcome {
                        regs: Registers { pc: target, ..regs },
                        mem: m,
                        res: Ok(if crossed { 2u32 } else { 1u32 }),
                    }
                } else {
                    Outcome { regs: regs2, mem: m, res: Ok(0u32) }
                }
            },
            _ => Outcome { regs: regs2, mem: m, res: Err(CpuError::InvalidAddressingMode(mode)) },
        },
    }
}

/// The flag condition each branch opcode tests.
pub open spec fn branch_opcode_condition(opcode: u8, sr: u8) -> bool {
    match opcode {
        0x10u8 => !flag_on(sr, FLAG_NEGATIVE),
        0x30u8 => flag_on(sr, FLAG_NEGATIVE),
        0x50u8 => !flag_on(sr, FLAG_OVERFLOW),
        0x70u8 => flag_on(sr, FLAG_OVERFLOW),
        0x90u8 => !flag_on(sr, FLAG_CARRY),
        0xb0u8 => flag_on(sr, FLAG_CARRY),
        0xd0u8 => !flag_on(sr, FLAG_ZERO),
        _ => flag_on(sr, FLAG_ZERO),
    }
}

/// Branch cycle cost, through one whole step: every branch opcode's
/// dispatch entry carries a variable base of two cycles, so a branch not
/// taken costs exactly the table's fixed 2 cycles, a taken branch whose
/// target shares the page of the instruction's end costs 3, and a taken
/// branch into another page costs 4.
#[verifier::rlimit(100)]
#[verifier::spinoff_prover]
pub proof fn lemma_branch_cycle_cost(regs: Registers, m: Map<u16, u8>, wr: Set<u16>)
    requires
        m.dom().contains(regs.pc),
        m.dom().contains(regs.pc.wrapping_add(1)),
        m[regs.pc] == 0x10u8 || m[regs.pc] == 0x30u8 || m[regs.pc] == 0x50u8 || m[regs.pc]
            == 0x70u8 || m[regs.pc] == 0x90u8 || m[regs.pc] == 0xb0u8 || m[regs.pc] == 0xd0u8
            || m[regs.pc] == 0xf0u8,
    ensures
        ({
            let taken = branch_opcode_condition(m[regs.pc], regs.sr);
            let next = regs.pc.wrapping_add(1).wrapping_add(1);
            let target = next.wrapping_add_signed(m[regs.pc.wrapping_add(1)] as i8 as i16);
            let out = crate::mos6502::step_spec(regs, m, wr);
            &&& decode_spec(m[regs.pc]).cycles == Cycles::Variable(2u32)
            &&& !taken ==> out.res == Ok::<u32, CpuError>(2u32) && out.regs.pc == next
            &&& (taken && (next & 0xff00) == (target & 0xff00)) ==> out.res == Ok::<
                u32,
                CpuError,
            >(3u32) && out.regs.pc == target
            &&& (taken && (next & 0xff00) != (target & 0xff00)) ==> out.res == Ok::<
                u32,
                CpuError,
            >(4u32) && out.regs.pc == target
        }),
{
}

impl MOS6502 {
    /// Resolves the relative target and branches exactly when `taken`
    /// holds.
    fn branch_if<T: Bus>(&mut self, bus: &mut T, address_mode: AddressingMode, taken: bool) -> (r:
        Result<u32, CpuError>)
        ensures
            ({
                let out = branch_spec(address_mode, old(self).regs(), old(bus).mem(), taken);
                &&& final(self).regs() == out.regs
                &&& final(bus).mem() == out.mem
                &&& r == out.res
            }),
            final(self).spec_cycles() == old(self).spec_cycles(),
            final(bus).writable() == old(bus).writable(),
    {
        let target = match self.resolve_operand(bus, address_mode) {
            Ok(OpcodeOperand::Address(w)) => w,
            Ok(_) => {
                return Err(CpuError::InvalidAddressingMode(address_mode));
            },
            Err(e) => {
                return Err(e);
            },
        };
        if taken {
            let crossed = (self.program_counter() & 0xff00) != (target & 0xff00);
            self.set_program_counter(target);
            Ok(if crossed { 2 } else { 1 })
        } else {
            Ok(0)
        }
    }

    /// BCC: branch when Carry is clear.
    pub fn bcc<T: Bus>(&mut self, bus: &mut T, address_mode: AddressingMode) -> (r: Result<
        u32,
        CpuError,
    >)
        ensures
            ({
                let out = branch_spec(
                    address_mode,
                    old(self).regs(),
                    old(bus).mem(),
                    !flag_on(old(self).regs().sr, FLAG_CARRY),
                );
                &&& final(self).regs() == out.regs
                &&& final(bus).mem() == out.mem
                &&& r == out.res
            }),
            final(self).spec_cycles() == old(self).spec_cycles(),
            final(bus).writable() == old(bus).writable(),
    {
        let taken = !self.flag_check(CpuFlags { bits: FLAG_CARRY });
        self.branch_if(bus, address_mode, taken)
    }

    /// BCS: branch when Carry is set.
    pub fn bcs<T: Bus>(&mut self, bus: &mut T, address_mode: AddressingMode) -> (r: Result<
        u32,
        CpuError,
    >)
        ensures
            ({
                let out = branch_spec(
                    address_mode,
                    old(self).regs(),
                    old(bus).mem(),
                    flag_on(old(self).regs().sr, FLAG_CARRY),
                );
                &&& final(self).regs() == out.regs
                &&& final(bus).mem() == out.mem
                &&& r == out.res
            }),
            final(self).spec_cycles() == old(self).spec_cycles(),
            final(bus).writable() == old(bus).writable(),
    {
        let taken = self.flag_check(CpuFlags { bits: FLAG_CARRY });
        self.branch_if(bus, address_mode, taken)
    }

    /// BEQ: branch when Zero is set.
    pub fn beq<T: Bus>(&mut self, bus: &mut T, address_mode: AddressingMode) -> (r: Result<
        u32,
        CpuError,
    >)
        ensures
            ({
                let out = branch_spec(
                    address_mode,
                    old(self).regs(),
                    old(bus).mem(),
                    flag_on(old(self).regs().sr, FLAG_ZERO),
                );
                &&& final(self).regs() == out.regs
                &&& final(bus).mem() == out.mem
                &&& r == out.res
            }),
            final(self).spec_cycles() == old(self).spec_cycles(),
            final(bus).writable() == old(bus).writable(),
    {
        let taken = self.flag_check(CpuFlags { bits: FLAG_ZERO });
        self.branch_if(bus, address_mode, taken)
    }

    /// BMI: branch when Negative is set.
    pub fn bmi<T: Bus>(&mut self, bus: &mut T, address_mode: AddressingMode) -> (r: Result<
        u32,
        CpuError,
    >)
        ensures
            ({
                let out = branch_spec(
                    address_mode,
                    old(self).regs(),
                    old(bus).mem(),
                    flag_on(old(self).regs().sr, FLAG_NEGATIVE),
                );
                &&& final(self).regs() == out.regs
                &&& final(bus).mem() == out.mem
                &&& r == out.res
            }),
            final(self).spec_cycles() == old(self).spec_cycles(),
            final(bus).writable() == old(bus).writable(),
    {
        let taken = self.flag_check(CpuFlags { bits: FLAG_NEGATIVE });
        self.branch_if(bus, address_mode, taken)
    }

    /// BNE: branch when Zero is clear.
    pub fn bne<T: Bus>(&mut self, bus: &mut T, address_mode: AddressingMode) -> (r: Result<
        u32,
        CpuError,
    >)
        ensures
            ({
                let out = branch_spec(
                    address_mode,
                    old(self).regs(),
                    old(bus).mem(),
                    !flag_on(old(self).regs().sr, FLAG_ZERO),
                );
                &&& final(self).regs() == out.regs
                &&& final(bus).mem() == out.mem
                &&& r == out.res
            }),
            final(self).spec_cycles() == old(self).spec_cycles(),
            final(bus).writable() == old(bus).writable(),
    {
        let taken = !self.flag_check(CpuFlags { bits: FLAG_ZERO });
        self.branch_if(bus, address_mode, taken)
    }

    /// BPL: branch when Negative is clear.
    pub fn bpl<T: Bus>(&mut self, bus: &mut T, address_mode: AddressingMode) -> (r: Result<
        u32,
        CpuError,
    >)
        ensures
            ({
                let out = branch_spec(
                    address_mode,
                    old(self).regs(),
                    old(bus).mem(),
                    !flag_on(old(self).regs().sr, FLAG_NEGATIVE),
                );
                &&& final(self).regs() == out.regs
                &&& final(bus).mem() == out.mem
                &&& r == out.res
            }),
            final(self).spec_cycles() == old(self).spec_cycles(),
            final(bus).writable() == old(bus).writable(),
    {
        let taken = !self.flag_check(CpuFlags { bits: FLAG_NEGATIVE });
        self.branch_if(bus, address_mode, taken)
    }

    /// BVC: branch when Overflow is clear.
    pub fn bvc<T: Bus>(&mut self, bus: &mut T, address_mode: AddressingMode) -> (r: Result<
        u32,
        CpuError,
    >)
        ensures
            ({
                let out = branch_spec(
                    address_mode,
                    old(self).regs(),
                    old(bus).mem(),
                    !flag_on(old(self).regs().sr, FLAG_OVERFLOW),
                );
                &&& final(self).regs() == out.regs
                &&& final(bus).mem() == out.mem
                &&& r == out.res
            }),
            final(self).spec_cycles() == old(self).spec_cycles(),
            final(bus).writable() == old(bus).writable(),
    {
        let taken = !self.flag_check(CpuFlags { bits: FLAG_OVERFLOW });
        self.branch_if(bus, address_mode, taken)
    }

    /// BVS: branch when Overflow is set.
    pub fn bvs<T: Bus>(&mut self, bus: &mut T, address_mode: AddressingMode) -> (r: Result<
        u32,
        CpuError,
    >)
        ensures
            ({
                let out = branch_spec(
                    address_mode,
                    old(self).regs(),
                    old(bus).mem(),
                    flag_on(old(self).regs().sr, FLAG_OVERFLOW),
                );
                &&& final(self).regs() == out.regs
                &&& final(bus).mem() == out.mem
                &&& r == out.res
            }),
            final(self).spec_cycles() == old(self).spec_cycles(),
            final(bus).writable() == old(bus).writable(),
    {
        let taken = self.flag_check(CpuFlags { bits: FLAG_OVERFLOW });
        self.branch_if(bus, address_mode, taken)
    }
}

} // verus!
