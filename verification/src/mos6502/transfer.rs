//! Load, store and register-transfer instructions: LDA, LDX, LDY, STA, STX,
//! STY, TAX, TAY, TSX, TXA, TXS and TYA.

use vstd::prelude::*;

use crate::error::CpuError;
use crate::mos6502::model::fetch_spec;
use crate::mos6502::model::store_spec;
use crate::mos6502::model::with_zn;
use crate::mos6502::model::Outcome;
use crate::mos6502::model::Registers;
use crate::mos6502::AddressingMode;
use crate::mos6502::Bus;
use crate::mos6502::MOS6502;

verus! {

/// The meaning of LDA: the operand's value lands in the accumulator, and
/// Zero and Negative follow it.
pub open spec fn lda_spec(mode: AddressingMode, regs: Registers, m: Map<u16, u8>) -> Outcome {
    let f = fetch_spec(mode, regs, m);
    match f.res {
        Ok(va) => Outcome {
            regs: Registers { a: va.0, sr: with_zn(regs.sr, va.0), pc: f.pc, ..regs },
            mem: m,
            res: Ok(va.1),
        },
        Err(e) => Outcome { regs: Registers { pc: f.pc, ..regs }, mem: m, res: Err(e) },
    }
}

/// The meaning of LDX: the operand's value lands in the X register, and
/// Zero and Negative follow it.
pub open spec fn ldx_spec(mode: AddressingMode, regs: Registers, m: Map<u16, u8>) -> Outcome {
    let f = fetch_spec(mode, regs, m);
    match f.res {
        Ok(va) => Outcome {
            regs: Registers { x: va.0, sr: with_zn(regs.sr, va.0), pc: f.pc, ..regs },
            mem: m,
            res: Ok(va.1),
        },
        Err(e) => Outcome { regs: Registers { pc: f.pc, ..regs }, mem: m, res: Err(e) },
    }
}

/// The meaning of LDY: the operand's value lands in the Y register, and
/// Zero and Negative follow it.
pub open spec fn ldy_spec(mode: AddressingMode, regs: Registers, m: Map<u16, u8>) -> Outcome {
    let f = fetch_spec(mode, regs, m);
    match f.res {
        Ok(va) => Outcome {
            regs: Registers { y: va.0, sr: with_zn(regs.sr, va.0), pc: f.pc, ..regs },
            mem: m,
            res: Ok(va.1),
        },
        Err(e) => Outcome { regs: Registers { pc: f.pc, ..regs }, mem: m, res: Err(e) },
    }
}

/// The meaning of a register-to-register transfer that sets flags: the
/// source value lands in the target, and Zero and Negative follow it.
pub open spec fn transfer_sr(sr: u8, value: u8) -> u8 {
    with_zn(sr, value)
}

impl MOS6502 {
    /// LDA: load the operand into the accumulator.
    pub fn lda<T: Bus>(&mut self, bus: &mut T, address_mode: AddressingMode) -> (r: Result<
        u32,
        CpuError,
    >)
        ensures
            ({
                let out = lda_spec(address_mode, old(self).regs(), old(bus).mem());
                &&& final(self).regs() == out.regs
                &&& final(bus).mem() == out.mem
                &&& r == out.res
            }),
            final(self).spec_cycles() == old(self).spec_cycles(),
            final(bus).writable() == old(bus).writable(),
    {
        match self.fetch_operand_value(bus, address_mode) {
            Ok((value, extra)) => {
                self.set_accumulator_value(value);
                Ok(extra)
            },
            Err(e) => Err(e),
        }
    }

    /// LDX: load the operand into the X register.
    pub fn ldx<T: Bus>(&mut self, bus: &mut T, address_mode: AddressingMode) -> (r: Result<
        u32,
        CpuError,
    >)
        ensures
            ({
                let out = ldx_spec(address_mode, old(self).regs(), old(bus).mem());
                &&& final(self).regs() == out.regs
                &&& final(bus).mem() == out.mem
                &&& r == out.res
            }),
            final(self).spec_cycles() == old(self).spec_cycles(),
            final(bus).writable() == old(bus).writable(),
    {
        match self.fetch_operand_value(bus, address_mode) {
            Ok((value, extra)) => {
                self.set_x_value(value);
                Ok(extra)
            },
            Err(e) => Err(e),
        }
    }

    /// LDY: load the operand into the Y register.
    pub fn ldy<T: Bus>(&mut self, bus: &mut T, address_mode: AddressingMode) -> (r: Result<
        u32,
        CpuError,
    >)
        ensures
            ({
                let out = ldy_spec(address_mode, old(self).regs(), old(bus).mem());
                &&& final(self).regs() == out.regs
                &&& final(bus).mem() == out.mem
                &&& r == out.res
            }),
            final(self).spec_cycles() == old(self).spec_cycles(),
            final(bus).writable() == old(bus).writable(),
    {
        match self.fetch_operand_value(bus, address_mode) {
            Ok((value, extra)) => {
                self.set_y_value(value);
                Ok(extra)
            },
            Err(e) => Err(e),
        }
    }

    /// STA: store the accumulator at the resolved address.
    pub fn sta<T: Bus>(&mut self, bus: &mut T, address_mode: AddressingMode) -> (r: Result<
        u32,
        CpuError,
    >)
        ensures
            ({
                let out = store_spec(
                    address_mode,
                    old(self).regs(),
                    old(bus).mem(),
                    old(bus).writable(),
                    old(self).regs().a,
                );
                &&& final(self).regs() == out.regs
                &&& final(bus).mem() == out.mem
                &&& r == out.res
            }),
            final(self).spec_cycles() == old(self).spec_cycles(),
            final(bus).writable() == old(bus).writable(),
    {
        let value = self.accumulator();
        self.store_value(bus, address_mode, value)
    }

    /// STX: store the X register at the resolved address.
    pub fn stx<T: Bus>(&mut self, bus: &mut T, address_mode: AddressingMode) -> (r: Result<
        u32,
        CpuError,
    >)
        ensures
            ({
                let out = store_spec(
                    address_mode,
                    old(self).regs(),
                    old(bus).mem(),
                    old(bus).writable(),
                    old(self).regs().x,
                );
                &&& final(self).regs() == out.regs
                &&& final(bus).mem() == out.mem
                &&& r == out.res
            }),
            final(self).spec_cycles() == old(self).spec_cycles(),
            final(bus).writable() == old(bus).writable(),
    {
        let value = self.x_register();
        self.store_value(bus, address_mode, value)
    }

    /// STY: store the Y register at the resolved address.
    pub fn sty<T: Bus>(&mut self, bus: &mut T, address_mode: AddressingMode) -> (r: Result<
        u32,
        CpuError,
    >)
        ensures
            ({
                let out = store_spec(
                    address_mode,
                    old(self).regs(),
                    old(bus).mem(),
                    old(bus).writable(),
                    old(self).regs().y,
                );
                &&& final(self).regs() == out.regs
                &&& final(bus).mem() == out.mem
                &&& r == out.res
            }),
            final(self).spec_cycles() == old(self).spec_cycles(),
            final(bus).writable() == old(bus).writable(),
    {
        let value = self.y_register();
        self.store_value(bus, address_mode, value)
    }

    /// TAX: transfer the accumulator to the X register.
    pub fn tax<T: Bus>(&mut self, _bus: &mut T, _address_mode: AddressingMode) -> (r: Result<
        u32,
        CpuError,
    >)
        ensures
            final(self).regs() == (Registers {
                x: old(self).regs().a,
                sr: transfer_sr(old(self).regs().sr, old(self).regs().a),
                ..old(self).regs()
            }),
            r == Ok::<u32, CpuError>(2u32),
            final(self).spec_cycles() == old(self).spec_cycles(),
            final(_bus).mem() == old(_bus).mem(),
            final(_bus).writable() == old(_bus).writable(),
    {
        let value = self.accumulator();
        self.set_x_value(value);
        Ok(2)
    }

    /// TAY: transfer the accumulator to the Y register.
    pub fn tay<T: Bus>(&mut self, _bus: &mut T, _address_mode: AddressingMode) -> (r: Result<
        u32,
        CpuError,
    >)
        ensures
            final(self).regs() == (Registers {
                y: old(self).regs().a,
                sr: transfer_sr(old(self).regs().sr, old(self).regs().a),
                ..old(self).regs()
            }),
            r == Ok::<u32, CpuError>(2u32),
            final(self).spec_cycles() == old(self).spec_cycles(),
            final(_bus).mem() == old(_bus).mem(),
            final(_bus).writable() == old(_bus).writable(),
    {
        let value = self.accumulator();
        self.set_y_value(value);
        Ok(2)
    }

    /// TSX: transfer the stack pointer to the X register.
    pub fn tsx<T: Bus>(&mut self, _bus: &mut T, _address_mode: AddressingMode) -> (r: Result<
        u32,
        CpuError,
    >)
        ensures
            final(self).regs() == (Registers {
                x: old(self).regs().sp,
                sr: transfer_sr(old(self).regs().sr, old(self).regs().sp),
                ..old(self).regs()
            }),
            r == Ok::<u32, CpuError>(2u32),
            final(self).spec_cycles() == old(self).spec_cycles(),
            final(_bus).mem() == old(_bus).mem(),
            final(_bus).writable() == old(_bus).writable(),
    {
        let value = self.stack_pointer();
        self.set_x_value(value);
        Ok(2)
    }

    /// TXA: transfer the X register to the accumulator.
    pub fn txa<T: Bus>(&mut self, _bus: &mut T, _address_mode: AddressingMode) -> (r: Result<
        u32,
        CpuError,
    >)
        ensures
            final(self).regs() == (Registers {
                a: old(self).regs().x,
                sr: transfer_sr(old(self).regs().sr, old(self).regs().x),
                ..old(self).regs()
            }),
            r == Ok::<u32, CpuError>(2u32),
            final(self).spec_cycles() == old(self).spec_cycles(),
            final(_bus).mem() == old(_bus).mem(),
            final(_bus).writable() == old(_bus).writable(),
    {
        let value = self.x_register();
        self.set_accumulator_value(value);
        Ok(2)
    }

    /// TXS: transfer the X register to the stack pointer; no flags change.
    pub fn txs<T: Bus>(&mut self, _bus: &mut T, _address_mode: AddressingMode) -> (r: Result<
        u32,
        CpuError,
    >)
        ensures
            final(self).regs() == (Registers { sp: old(self).regs().x, ..old(self).regs() }),
            r == Ok::<u32, CpuError>(2u32),
            final(self).spec_cycles() == old(self).spec_cycles(),
            final(_bus).mem() == old(_bus).mem(),
            final(_bus).writable() == old(_bus).writable(),
    {
        let value = self.x_register();
        self.set_stack_pointer_value(value);
        Ok(2)
    }

    /// TYA: transfer the Y register to the accumulator.
    pub fn tya<T: Bus>(&mut self, _bus: &mut T, _address_mode: AddressingMode) -> (r: Result<
        u32,
        CpuError,
    >)
        ensures
            final(self).regs() == (Registers {
                a: old(self).regs().y,
                sr: transfer_sr(old(self).regs().sr, old(self).regs().y),
                ..old(self).regs()
            }),
            r == Ok::<u32, CpuError>(2u32),
            final(self).spec_cycles() == old(self).spec_cycles(),
            final(_bus).mem() == old(_bus).mem(),
            final(_bus).writable() == old(_bus).writable(),
    {
        let value = self.y_register();
        self.set_accumulator_value(value);
        Ok(2)
    }
}

} // verus!
