//! Stack instructions: PHA, PHP, PLA and PLP. PHP pushes the status byte
//! with Break and Unused forced set; PLP restores it with the same two bits
//! forced set. The stack round-trip laws are proved here.

use vstd::prelude::*;

use crate::error::CpuError;
use crate::mos6502::model::push_ok;
use crate::mos6502::model::read_fail_error;
use crate::mos6502::model::stack_addr;
use crate::mos6502::model::with_zn;
use crate::mos6502::model::write_fail_error;
use crate::mos6502::model::Outcome;
use crate::mos6502::model::Registers;
use crate::mos6502::AddressingMode;
use crate::mos6502::Bus;
use crate::mos6502::FLAG_BREAK;
use crate::mos6502::FLAG_UNUSED;
use crate::mos6502::MOS6502;

verus! {

/// The meaning of pushing one byte for `cost` fixed cycles: the byte lands
/// at the stack pointer's slot and the pointer moves down — even when the
/// write is refused.
pub open spec fn push_spec(
    regs: Registers,
    m: Map<u16, u8>,
    wr: Set<u16>,
    value: u8,
    cost: u32,
) -> Outcome {
    let sp1 = regs.sp.wrapping_sub(1);
    if push_ok(regs.sp, m, wr) {
        Outcome {
            regs: Registers { sp: sp1, ..regs },
            mem: m.insert(stack_addr(regs.sp), value),
            res: Ok(cost),
        }
    } else {
        Outcome {
            regs: Registers { sp: sp1, ..regs },
            mem: m,
            res: Err(write_fail_error(stack_addr(regs.sp), m, wr)),
        }
    }
}

/// The meaning of PLA: the pointer moves up — even when the read fails —
/// and the byte at its new slot lands in the accumulator, Zero and Negative
/// following it.
pub open spec fn pla_spec(regs: Registers, m: Map<u16, u8>) -> Outcome {
    let sp1 = regs.sp.wrapping_add(1);
    let slot = stack_addr(sp1);
    if m.dom().contains(slot) {
        Outcome {
            regs: Registers { a: m[slot], sp: sp1, sr: with_zn(regs.sr, m[slot]), ..regs },
            mem: m,
            res: Ok(4u32),
        }
    } else {
        Outcome { regs: Registers { sp: sp1, ..regs }, mem: m, res: Err(read_fail_error(slot)) }
    }
}

/// The meaning of PLP: the popped byte becomes the status register, with
/// Break and Unused forced set — software can never observe either bit
/// cleared through this model's stack.
pub open spec fn plp_spec(regs: Registers, m: Map<u16, u8>) -> Outcome {
    let sp1 = regs.sp.wrapping_add(1);
    let slot = stack_addr(sp1);
    if m.dom().contains(slot) {
        Outcome {
            regs: Registers {
                sp: sp1,
                sr: (m[slot] | FLAG_BREAK | FLAG_UNUSED) as u8,
                ..regs
            },
            mem: m,
            res: Ok(4u32),
        }
    } else {
        Outcome { regs: Registers { sp: sp1, ..regs }, mem: m, res: Err(read_fail_error(slot)) }
    }
}

/// Stack round trip: for every byte `b`, pushing it and then popping reads
/// back exactly `b`, and the stack pointer returns to its pre-push value.
pub proof fn lemma_stack_round_trip(regs: Registers, m: Map<u16, u8>, wr: Set<u16>, b: u8)
    requires
        push_ok(regs.sp, m, wr),
    ensures
        ({
            let pushed = push_spec(regs, m, wr, b, 3u32);
            let popped = pla_spec(pushed.regs, pushed.mem);
            &&& pushed.res == Ok::<u32, CpuError>(3u32)
            &&& popped.res == Ok::<u32, CpuError>(4u32)
            &&& popped.regs.a == b
            &&& popped.regs.sp == regs.sp
        }),
{
    assert(regs.sp.wrapping_sub(1).wrapping_add(1) == regs.sp);
}

/// The stack pointer after `n` pushes, each moving it down one slot with
/// wrap-around inside the stack page.
pub open spec fn sp_after_pushes(sp: u8, n: nat) -> u8
    decreases n,
{
    if n == 0 {
        sp
    } else {
        sp_after_pushes(sp, (n - 1) as nat).wrapping_sub(1)
    }
}

/// The pointer after `n` pushes is the start less `n`, modulo the page
/// size.
pub proof fn lemma_sp_after_pushes(sp: u8, n: nat)
    ensures
        sp_after_pushes(sp, n) == ((sp as int - n as int) % 0x100) as u8,
    decreases n,
{
    if n > 0 {
        lemma_sp_after_pushes(sp, (n - 1) as nat);
    }
}

/// Pushing 256 times wraps the stack pointer back to its start.
pub proof fn lemma_stack_wraps_after_256_pushes(sp: u8)
    ensures
        sp_after_pushes(sp, 256) == sp,
{
    lemma_sp_after_pushes(sp, 256);
}

impl MOS6502 {
    /// PHA: push the accumulator.
    pub fn pha<T: Bus>(&mut self, bus: &mut T, _address_mode: AddressingMode) -> (r: Result<
        u32,
        CpuError,
    >)
        ensures
            ({
                let out = push_spec(
                    old(self).regs(),
                    old(bus).mem(),
                    old(bus).writable(),
                    old(self).regs().a,
                    3u32,
                );
                &&& final(self).regs() == out.regs
                &&& final(bus).mem() == out.mem
                &&& r == out.res
            }),
            final(self).spec_cycles() == old(self).spec_cycles(),
            final(bus).writable() == old(bus).writable(),
    {
        let value = self.accumulator();
        match self.push_to_stack(bus, value) {
            Ok(()) => Ok(3),
            Err(e) => Err(CpuError::InvalidBusOperation(e)),
        }
    }

    /// PHP: push the status register with Break and Unused forced set.
    pub fn php<T: Bus>(&mut self, bus: &mut T, _address_mode: AddressingMode) -> (r: Result<
        u32,
        CpuError,
    >)
        ensures
            ({
                let out = push_spec(
                    old(self).regs(),
                    old(bus).mem(),
                    old(bus).writable(),
                    (old(self).regs().sr | FLAG_BREAK | FLAG_UNUSED) as u8,
                    3u32,
                );
                &&& final(self).regs() == out.regs
                &&& final(bus).mem() == out.mem
                &&& r == out.res
            }),
            final(self).spec_cycles() == old(self).spec_cycles(),
            final(bus).writable() == old(bus).writable(),
    {
        let value = self.status_byte() | FLAG_BREAK | FLAG_UNUSED;
        match self.push_to_stack(bus, value) {
            Ok(()) => Ok(3),
            Err(e) => Err(CpuError::InvalidBusOperation(e)),
        }
    }

    /// PLA: pop into the accumulator, deriving Zero and Negative.
    pub fn pla<T: Bus>(&mut self, bus: &mut T, _address_mode: AddressingMode) -> (r: Result<
        u32,
        CpuError,
    >)
        ensures
            ({
                let out = pla_spec(old(self).regs(), old(bus).mem());
                &&& final(self).regs() == out.regs
                &&& final(bus).mem() == out.mem
                &&& r == out.res
            }),
            final(self).spec_cycles() == old(self).spec_cycles(),
            final(bus).writable() == old(bus).writable(),
    {
        match self.pop_from_stack(bus) {
            Ok(value) => {
                self.set_accumulator_value(value);
                Ok(4)
            },
            Err(e) => Err(CpuError::InvalidBusOperation(e)),
        }
    }

    /// PLP: pop into the status register, forcing Break and Unused set.
    pub fn plp<T: Bus>(&mut self, bus: &mut T, _address_mode: AddressingMode) -> (r: Result<
        u32,
        CpuError,
    >)
        ensures
            ({
                let out = plp_spec(old(self).regs(), old(bus).mem());
                &&& final(self).regs() == out.regs
                &&& final(bus).mem() == out.mem
                &&& r == out.res
            }),
            final(self).spec_cycles() == old(self).spec_cycles(),
            final(bus).writable() == old(bus).writable(),
    {
        match self.pop_from_stack(bus) {
            Ok(value) => {
                self.set_status_byte(value | FLAG_BREAK | FLAG_UNUSED);
                Ok(4)
            },
            Err(e) => Err(CpuError::InvalidBusOperation(e)),
        }
    }
}

} // verus!
