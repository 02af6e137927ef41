//! Increment and decrement instructions: INC and DEC on a memory byte,
//! INX, INY, DEX and DEY on a register. All wrap at the byte's bounds and
//! derive Zero and Negative; Carry and Overflow are untouched.

use vstd::prelude::*;

use crate::error::CpuError;
use crate::mos6502::model::read_fail_error;
use crate::mos6502::model::resolve_spec;
use crate::mos6502::model::with_zn;
use crate::mos6502::model::write_fail_error;
use crate::mos6502::model::Outcome;
use crate::mos6502::model::Registers;
use crate::mos6502::AddressingMode;
use crate::mos6502::Bus;
use crate::mos6502::OpcodeOperand;
use crate::mos6502::MOS6502;

verus! {

/// The meaning of a read-modify-write step of `delta` on the byte at the
/// resolved address: the byte is read, moved by `delta` wrapping, written
/// back, and only then are Zero and Negative derived from the new value — a
/// refused write leaves the flags alone.
pub open spec fn step_memory_spec(
    mode: AddressingMode,
    regs: Registers,
    m: Map<u16, u8>,
    wr: Set<u16>,
    delta: u8,
) -> Outcome {
    let r = resolve_spec(mode, regs, m);
    let regs2 = Registers { pc: r.pc, ..regs };
    match r.res {
        Err(e) => Outcome { regs: regs2, mem: m, res: Err(e) },
        Ok(op) => match op {
            OpcodeOperand::Address(w) => step_memory_at(regs2, m, wr, w, delta),
            OpcodeOperand::AddressWithOverflow(w, _) => step_memory_at(regs2, m, wr, w, delta),
            _ => Outcome { regs: regs2, mem: m, res: Err(CpuError::InvalidAddressingMode(mode)) },
        },
    }
}

/// The read-modify-write step itself, at the effective address `w`.
pub open spec fn step_memory_at(
    regs: Registers,
    m: Map<u16, u8>,
    wr: Set<u16>,
    w: u16,
    delta: u8,
) -> Outcome {
    if !m.dom().contains(w) {
        Outcome { regs, mem: m, res: Err(read_fail_error(w)) }
    } else {
        let value = m[w].wrapping_add(delta);
        if wr.contains(w) {
            Outcome {
                regs: Registers { sr: with_zn(regs.sr, value), ..regs },
                mem: m.insert(w, value),
                res: Ok(0u32),
            }
        } else {
            Outcome { regs, mem: m, res: Err(write_fail_error(w, m, wr)) }
        }
    }
}

impl MOS6502 {
    /// Moves the byte at the resolved address by `delta`, wrapping, then
    /// derives Zero and Negative from the new value.
    fn step_memory<T: Bus>(&mut self, bus: &mut T, address_mode: AddressingMode, delta: u8) -> (r:
        Result<u32, CpuError>)
        ensures
            ({
                let out = step_memory_spec(
                    address_mode,
                    old(self).regs(),
                    old(bus).mem(),
                    old(bus).writable(),
                    delta,
                );
                &&& final(self).regs() == out.regs
                &&& final(bus).mem() == out.mem
                &&& r == out.res
            }),
            final(self).spec_cycles() == old(self).spec_cycles(),
            final(bus).writable() == old(bus).writable(),
    {
        let address = match self.resolve_operand(bus, address_mode) {
            Ok(OpcodeOperand::Address(w)) => w,
            Ok(OpcodeOperand::AddressWithOverflow(w, _)) => w,
            Ok(_) => {
                return Err(CpuError::InvalidAddressingMode(address_mode));
            },
            Err(e) => {
                return Err(e);
            },
        };
        let value = match crate::mos6502::read_bus(bus, address) {
            Ok(v) => v,
            Err(e) => {
                return Err(e);
            },
        };
        let stepped = value.wrapping_add(delta);
        match crate::mos6502::write_bus(bus, address, stepped) {
            Ok(()) => {
                self.set_zn(stepped);
                Ok(0)
            },
            Err(e) => Err(e),
        }
    }

    /// DEC: decrement the byte at the resolved address.
    pub fn dec<T: Bus>(&mut self, bus: &mut T, address_mode: AddressingMode) -> (r: Result<
        u32,
        CpuError,
    >)
        ensures
            ({
                let out = step_memory_spec(
                    address_mode,
                    old(self).regs(),
                    old(bus).mem(),
                    old(bus).writable(),
                    0xffu8,
                );
                &&& final(self).regs() == out.regs
                &&& final(bus).mem() == out.mem
                &&& r == out.res
            }),
            final(self).spec_cycles() == old(self).spec_cycles(),
            final(bus).writable() == old(bus).writable(),
    {
        self.step_memory(bus, address_mode, 0xff)
    }

    /// INC: increment the byte at the resolved address.
    pub fn inc<T: Bus>(&mut self, bus: &mut T, address_mode: AddressingMode) -> (r: Result<
        u32,
        CpuError,
    >)
        ensures
            ({
                let out = step_memory_spec(
                    address_mode,
                    old(self).regs(),
                    old(bus).mem(),
                    old(bus).writable(),
                    1u8,
                );
                &&& final(self).regs() == out.regs
                &&& final(bus).mem() == out.mem
                &&& r == out.res
            }),
            final(self).spec_cycles() == old(self).spec_cycles(),
            final(bus).writable() == old(bus).writable(),
    {
        self.step_memory(bus, address_mode, 1)
    }

    /// DEX: decrement the X register.
    pub fn dex<T: Bus>(&mut self, _bus: &mut T, _address_mode: AddressingMode) -> (r: Result<
        u32,
        CpuError,
    >)
        ensures
            final(self).regs() == (Registers {
                x: old(self).regs().x.wrapping_sub(1),
                sr: with_zn(old(self).regs().sr, old(self).regs().x.wrapping_sub(1)),
                ..old(self).regs()
            }),
            r == Ok::<u32, CpuError>(2u32),
            final(self).spec_cycles() == old(self).spec_cycles(),
            final(_bus).mem() == old(_bus).mem(),
            final(_bus).writable() == old(_bus).writable(),
    {
        let value = self.x_register().wrapping_sub(1);
        self.set_x_value(value);
        Ok(2)
    }

    /// DEY: decrement the Y register.
    pub fn dey<T: Bus>(&mut self, _bus: &mut T, _address_mode: AddressingMode) -> (r: Result<
        u32,
        CpuError,
    >)
        ensures
            final(self).regs() == (Registers {
                y: old(self).regs().y.wrapping_sub(1),
                sr: with_zn(old(self).regs().sr, old(self).regs().y.wrapping_sub(1)),
                ..old(self).regs()
            }),
            r == Ok::<u32, CpuError>(2u32),
            final(self).spec_cycles() == old(self).spec_cycles(),
            final(_bus).mem() == old(_bus).mem(),
            final(_bus).writable() == old(_bus).writable(),
    {
        let value = self.y_register().wrapping_sub(1);
        self.set_y_value(value);
        Ok(2)
    }

    /// INX: increment the X register.
    pub fn inx<T: Bus>(&mut self, _bus: &mut T, _address_mode: AddressingMode) -> (r: Result<
        u32,
        CpuError,
    >)
        ensures
            final(self).regs() == (Registers {
                x: old(self).regs().x.wrapping_add(1),
                sr: with_zn(old(self).regs().sr, old(self).regs().x.wrapping_add(1)),
                ..old(self).regs()
            }),
            r == Ok::<u32, CpuError>(2u32),
            final(self).spec_cycles() == old(self).spec_cycles(),
            final(_bus).mem() == old(_bus).mem(),
            final(_bus).writable() == old(_bus).writable(),
    {
        let value = self.x_register().wrapping_add(1);
        self.set_x_value(value);
        Ok(2)
    }

    /// INY: increment the Y register.
    pub fn iny<T: Bus>(&mut self, _bus: &mut T, _address_mode: AddressingMode) -> (r: Result<
        u32,
        CpuError,
    >)
        ensures
            final(self).regs() == (Registers {
                y: old(self).regs().y.wrapping_add(1),
                sr: with_zn(old(self).regs().sr, old(self).regs().y.wrapping_add(1)),
                ..old(self).regs()
            }),
            r == Ok::<u32, CpuError>(2u32),
            final(self).spec_cycles() == old(self).spec_cycles(),
            final(_bus).mem() == old(_bus).mem(),
            final(_bus).writable() == old(_bus).writable(),
    {
        let value = self.y_register().wrapping_add(1);
        self.set_y_value(value);
        Ok(2)
    }
}

} // verus!
