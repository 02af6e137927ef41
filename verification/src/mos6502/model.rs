//! The mathematical model of the processor: the register file as a plain
//! record, and the meaning of flag updates, stack traffic and addressing-mode
//! resolution as functions over that record and a map model of the bus.

use vstd::prelude::*;

use crate::error::BusError;
use crate::error::CpuError;
use crate::mos6502::AddressingMode;
use crate::mos6502::InterruptKind;
use crate::mos6502::OpcodeOperand;
use crate::mos6502::FLAG_BREAK;
use crate::mos6502::FLAG_CARRY;
use crate::mos6502::FLAG_DECIMAL;
use crate::mos6502::FLAG_NEGATIVE;
use crate::mos6502::FLAG_NO_INTERRUPTS;
use crate::mos6502::FLAG_OVERFLOW;
use crate::mos6502::FLAG_UNUSED;
use crate::mos6502::FLAG_ZERO;
use crate::mos6502::STACK_BASE;

verus! {

/// The architectural state of the processor, as plain values: the three
/// general registers, the stack pointer, the status byte and the program
/// counter.
pub struct Registers {
    /// The accumulator.
    pub a: u8,
    /// The X index register.
    pub x: u8,
    /// The Y index register.
    pub y: u8,
    /// The stack pointer, an offset into the fixed stack page.
    pub sp: u8,
    /// The status register byte.
    pub sr: u8,
    /// The program counter.
    pub pc: u16,
}

/// What one instruction handler leaves behind: the registers, the bus
/// contents, and the handler's result (extra cycles, or the error).
pub struct Outcome {
    /// The register file after the handler.
    pub regs: Registers,
    /// The bus contents after the handler.
    pub mem: Map<u16, u8>,
    /// Extra cycles beyond the dispatch table's base, or the failure.
    pub res: Result<u32, CpuError>,
}

/// What addressing-mode resolution leaves behind: the program counter after
/// the consumed operand bytes, and the operand or the failure.
pub struct ResolveOut {
    /// The program counter after resolution.
    pub pc: u16,
    /// The resolved operand, or the error of the first failing read.
    pub res: Result<OpcodeOperand, CpuError>,
}

/// What fetching an operand's value leaves behind: the program counter, and
/// either the byte together with the page-crossing cycle penalty, or the
/// failure.
pub struct FetchOut {
    /// The program counter after resolution.
    pub pc: u16,
    /// The operand byte and extra cycles, or the error.
    pub res: Result<(u8, u32), CpuError>,
}

/// Whether `mask`'s bit is set in the status byte `sr`.
pub open spec fn flag_on(sr: u8, mask: u8) -> bool {
    sr & mask != 0
}

/// The status byte with `mask`'s bit forced to `value`.
pub open spec fn with_flag(sr: u8, mask: u8, value: bool) -> u8 {
    if value {
        sr | mask
    } else {
        sr & !mask
    }
}

/// Whether bit 7, the sign bit, of `v` is set.
pub open spec fn bit7(v: u8) -> bool {
    v & 0x80 != 0
}

/// The status byte after an instruction produced the 8-bit result `v`:
/// Zero tracks `v == 0`, Negative tracks bit 7 of `v`, the rest is kept.
pub open spec fn with_zn(sr: u8, v: u8) -> u8 {
    with_flag(with_flag(sr, FLAG_ZERO, v == 0), FLAG_NEGATIVE, bit7(v))
}

/// The 16-bit word assembled from a low and a high byte.
pub open spec fn word(lo: u8, hi: u8) -> u16 {
    ((hi as u16) << 8) | (lo as u16)
}

/// The low byte of a 16-bit word.
pub open spec fn lo8(w: u16) -> u8 {
    (w & 0xff) as u8
}

/// The high byte of a 16-bit word.
pub open spec fn hi8(w: u16) -> u8 {
    (w >> 8) as u8
}

/// The address within the fixed stack page that `sp` names.
pub open spec fn stack_addr(sp: u8) -> u16 {
    (STACK_BASE + sp as u16) as u16
}

/// Whether a push at stack pointer `sp` succeeds: the slot is mapped and
/// writable.
pub open spec fn push_ok(sp: u8, m: Map<u16, u8>, wr: Set<u16>) -> bool {
    m.dom().contains(stack_addr(sp)) && wr.contains(stack_addr(sp))
}

/// The error a failed write at `w` raises, wrapped for the instruction's
/// result: unmapped addresses refuse outright, mapped but read-only ones
/// report so.
pub open spec fn write_fail_error(w: u16, m: Map<u16, u8>, wr: Set<u16>) -> CpuError {
    CpuError::InvalidBusOperation(
        if !m.dom().contains(w) {
            BusError::InvalidWrite(w)
        } else {
            BusError::ReadOnlyAddress(w)
        },
    )
}

/// The error a failed read at `bad` raises, wrapped for the instruction's
/// result.
pub open spec fn read_fail_error(bad: u16) -> CpuError {
    CpuError::InvalidBusOperation(BusError::InvalidRead(bad))
}

/// Resolution that stopped at a failing read: the program counter as far as
/// it got, and the read's error.
pub open spec fn resolve_fail(pc: u16, bad: u16) -> ResolveOut {
    ResolveOut { pc, res: Err(read_fail_error(bad)) }
}

/// The meaning of addressing-mode resolution: from the registers and the bus
/// contents, the operand and the program counter after the consumed bytes,
/// or the error of the first read that misses the mapped space. Instruction
/// bytes are consumed at the program counter one at a time; indirect modes
/// then follow the pointer they assembled. The high byte of an indirect
/// pointer is read from the next address of the full 16-bit space: the
/// hardware's page-wrap quirk at page boundaries is not reproduced.
pub open spec fn resolve_spec(mode: AddressingMode, regs: Registers, m: Map<u16, u8>) -> ResolveOut {
    let pc = regs.pc;
    match mode {
        AddressingMode::Accumulator => ResolveOut { pc, res: Ok(OpcodeOperand::Byte(regs.a)) },
        AddressingMode::Implied => ResolveOut { pc, res: Ok(OpcodeOperand::NoOperand) },
        AddressingMode::Immediate => {
            if m.dom().contains(pc) {
                ResolveOut { pc: pc.wrapping_add(1), res: Ok(OpcodeOperand::Byte(m[pc])) }
            } else {
                resolve_fail(pc, pc)
            }
        },
        AddressingMode::Absolute => {
            if !m.dom().contains(pc) {
                resolve_fail(pc, pc)
            } else {
                let pc1 = pc.wrapping_add(1);
                if !m.dom().contains(pc1) {
                    resolve_fail(pc1, pc1)
                } else {
                    ResolveOut {
                        pc: pc1.wrapping_add(1),
                        res: Ok(OpcodeOperand::Address(word(m[pc], m[pc1]))),
                    }
                }
            }
        },
        AddressingMode::AbsoluteXIndex => resolve_absolute_indexed(regs.x, pc, m),
        AddressingMode::AbsoluteYIndex => resolve_absolute_indexed(regs.y, pc, m),
        AddressingMode::Indirect => {
            if !m.dom().contains(pc) {
                resolve_fail(pc, pc)
            } else {
                let pc1 = pc.wrapping_add(1);
                if !m.dom().contains(pc1) {
                    resolve_fail(pc1, pc1)
                } else {
                    let pc2 = pc1.wrapping_add(1);
                    let ptr = word(m[pc], m[pc1]);
                    if !m.dom().contains(ptr) {
                        resolve_fail(pc2, ptr)
                    } else {
                        let ptr1 = ptr.wrapping_add(1);
                        if !m.dom().contains(ptr1) {
                            resolve_fail(pc2, ptr1)
                        } else {
                            ResolveOut {
                                pc: pc2,
                                res: Ok(OpcodeOperand::Address(word(m[ptr], m[ptr1]))),
                            }
                        }
                    }
                }
            }
        },
        AddressingMode::XIndexIndirect => {
            if !m.dom().contains(pc) {
                resolve_fail(pc, pc)
            } else {
                let pc1 = pc.wrapping_add(1);
                let zx = m[pc].wrapping_add(regs.x);
                let a0 = zx as u16;
                let a1 = zx.wrapping_add(1) as u16;
                if !m.dom().contains(a0) {
                    resolve_fail(pc1, a0)
                } else if !m.dom().contains(a1) {
                    resolve_fail(pc1, a1)
                } else {
                    ResolveOut { pc: pc1, res: Ok(OpcodeOperand::Address(word(m[a0], m[a1]))) }
                }
            }
        },
        AddressingMode::IndirectYIndex => {
            if !m.dom().contains(pc) {
                resolve_fail(pc, pc)
            } else {
                let pc1 = pc.wrapping_add(1);
                let a0 = m[pc] as u16;
                let a1 = m[pc].wrapping_add(1) as u16;
                if !m.dom().contains(a0) {
                    resolve_fail(pc1, a0)
                } else if !m.dom().contains(a1) {
                    resolve_fail(pc1, a1)
                } else {
                    let crossed = m[a0] as int + regs.y as int > 0xff;
                    let lo = m[a0].wrapping_add(regs.y);
                    let hi = m[a1].wrapping_add(if crossed { 1u8 } else { 0u8 });
                    ResolveOut {
                        pc: pc1,
                        res: Ok(OpcodeOperand::AddressWithOverflow(word(lo, hi), crossed)),
                    }
                }
            }
        },
        AddressingMode::Relative => {
            if m.dom().contains(pc) {
                let pc1 = pc.wrapping_add(1);
                let target = pc1.wrapping_add_signed(m[pc] as i8 as i16);
                ResolveOut { pc: pc1, res: Ok(OpcodeOperand::Address(target)) }
            } else {
                resolve_fail(pc, pc)
            }
        },
        AddressingMode::Zeropage => {
            if m.dom().contains(pc) {
                ResolveOut {
                    pc: pc.wrapping_add(1),
                    res: Ok(OpcodeOperand::Address(m[pc] as u16)),
                }
            } else {
                resolve_fail(pc, pc)
            }
        },
        AddressingMode::ZeropageXIndex => {
            if m.dom().contains(pc) {
                ResolveOut {
                    pc: pc.wrapping_add(1),
                    res: Ok(OpcodeOperand::Address(m[pc].wrapping_add(regs.x) as u16)),
                }
            } else {
                resolve_fail(pc, pc)
            }
        },
        AddressingMode::ZeropageYIndex => {
            if m.dom().contains(pc) {
                ResolveOut {
                    pc: pc.wrapping_add(1),
                    res: Ok(OpcodeOperand::Address(m[pc].wrapping_add(regs.y) as u16)),
                }
            } else {
                resolve_fail(pc, pc)
            }
        },
    }
}

/// Absolute addressing indexed by `index`: two little-endian bytes at the
/// program counter, the low byte indexed with carry into the high byte, and
/// the carry reported as a page crossing.
pub open spec fn resolve_absolute_indexed(index: u8, pc: u16, m: Map<u16, u8>) -> ResolveOut {
    if !m.dom().contains(pc) {
        resolve_fail(pc, pc)
    } else {
        let pc1 = pc.wrapping_add(1);
        if !m.dom().contains(pc1) {
            resolve_fail(pc1, pc1)
        } else {
            let crossed = m[pc] as int + index as int > 0xff;
            let lo = m[pc].wrapping_add(index);
            let hi = m[pc1].wrapping_add(if crossed { 1u8 } else { 0u8 });
            ResolveOut {
                pc: pc1.wrapping_add(1),
                res: Ok(OpcodeOperand::AddressWithOverflow(word(lo, hi), crossed)),
            }
        }
    }
}

/// The meaning of fetching an operand's value: resolution, then — where the
/// operand is an address — one more read, with a page crossing worth one
/// extra cycle. A mode that yields no operand at all is a dispatch mismatch.
pub open spec fn fetch_spec(mode: AddressingMode, regs: Registers, m: Map<u16, u8>) -> FetchOut {
    let r = resolve_spec(mode, regs, m);
    match r.res {
        Err(e) => FetchOut { pc: r.pc, res: Err(e) },
        Ok(op) => match op {
            OpcodeOperand::Byte(b) => FetchOut { pc: r.pc, res: Ok((b, 0u32)) },
            OpcodeOperand::Address(w) => {
                if m.dom().contains(w) {
                    FetchOut { pc: r.pc, res: Ok((m[w], 0u32)) }
                } else {
                    FetchOut { pc: r.pc, res: Err(read_fail_error(w)) }
                }
            },
            OpcodeOperand::AddressWithOverflow(w, crossed) => {
                if m.dom().contains(w) {
                    FetchOut { pc: r.pc, res: Ok((m[w], if crossed { 1u32 } else { 0u32 })) }
                } else {
                    FetchOut { pc: r.pc, res: Err(read_fail_error(w)) }
                }
            },
            OpcodeOperand::NoOperand => FetchOut {
                pc: r.pc,
                res: Err(CpuError::InvalidAddressingMode(mode)),
            },
        },
    }
}

/// The shape an addressing mode's operand can take: only the implied mode
/// yields no operand, only the accumulator and immediate modes yield a bare
/// byte, and the relative, absolute and indirect families yield addresses.
pub proof fn lemma_resolve_operand_shape(mode: AddressingMode, regs: Registers, m: Map<u16, u8>)
    ensures
        (match resolve_spec(mode, regs, m).res {
            Ok(op) => {
                &&& (op is NoOperand <==> mode is Implied)
                &&& (op is Byte ==> mode is Accumulator || mode is Immediate)
                &&& ((mode is Relative || mode is Absolute || mode is Indirect
                    || mode is Zeropage) ==> op is Address)
            },
            Err(e) => e matches CpuError::InvalidBusOperation(_),
        }),
{
}

/// An operand fetch reports a dispatch mismatch only for the implied mode;
/// every other failure of it is a bus failure.
pub proof fn lemma_fetch_mismatch_only_when_implied(
    mode: AddressingMode,
    regs: Registers,
    m: Map<u16, u8>,
)
    requires
        !(mode is Implied),
    ensures
        !(fetch_spec(mode, regs, m).res matches Err(CpuError::InvalidAddressingMode(_))),
{
    lemma_resolve_operand_shape(mode, regs, m);
}

/// An operand fetch reports at most one extra cycle: the page-crossing
/// penalty.
pub proof fn lemma_fetch_extra_bound(mode: AddressingMode, regs: Registers, m: Map<u16, u8>)
    ensures
        (match fetch_spec(mode, regs, m).res {
            Ok(va) => va.1 <= 1,
            Err(_) => true,
        }),
{
}

/// Splitting a word into its bytes and reassembling them gives the word
/// back.
pub proof fn lemma_word_round_trip(w: u16)
    by (bit_vector)
    ensures
        word(lo8(w), hi8(w)) == w,
{
}

/// The outcome of writing `value` at the effective address `w`: the bus with
/// the byte stored, or the write's error with the bus untouched.
pub open spec fn store_write(regs: Registers, m: Map<u16, u8>, wr: Set<u16>, w: u16, value: u8) -> Outcome {
    if m.dom().contains(w) && wr.contains(w) {
        Outcome { regs, mem: m.insert(w, value), res: Ok(0u32) }
    } else {
        Outcome { regs, mem: m, res: Err(write_fail_error(w, m, wr)) }
    }
}

/// The meaning of a store instruction: the operand must resolve to an
/// effective address, and the register's value is written there; no flags
/// change. A value-shaped operand is a dispatch mismatch.
pub open spec fn store_spec(
    mode: AddressingMode,
    regs: Registers,
    m: Map<u16, u8>,
    wr: Set<u16>,
    value: u8,
) -> Outcome {
    let r = resolve_spec(mode, regs, m);
    let regs2 = Registers { pc: r.pc, ..regs };
    match r.res {
        Err(e) => Outcome { regs: regs2, mem: m, res: Err(e) },
        Ok(op) => match op {
            OpcodeOperand::Address(w) => store_write(regs2, m, wr, w, value),
            OpcodeOperand::AddressWithOverflow(w, _) => store_write(regs2, m, wr, w, value),
            _ => Outcome { regs: regs2, mem: m, res: Err(CpuError::InvalidAddressingMode(mode)) },
        },
    }
}

/// The vector address an interrupt kind fetches its handler's address from.
pub open spec fn interrupt_vector(kind: InterruptKind) -> u16 {
    match kind {
        InterruptKind::Nmi => 0xfffa,
        InterruptKind::Irq => 0xfffe,
        InterruptKind::Brk => 0xfffe,
    }
}

/// The status byte an interrupt entry pushes: the Break bit is forced set
/// for the software interrupt and cleared for the hardware ones, and Unused
/// is always set.
pub open spec fn interrupt_status_byte(sr: u8, kind: InterruptKind) -> u8 {
    (match kind {
        InterruptKind::Brk => sr | FLAG_BREAK,
        _ => sr & !FLAG_BREAK,
    }) | FLAG_UNUSED
}

/// The meaning of an interrupt entry: the return address is pushed high
/// byte then low byte, then the status byte image, the handler's address is
/// fetched from the kind's vector, and NoInterrupts is set. The stack
/// pointer moves down for each push even when the push is refused, and a
/// failing access stops the sequence there, leaving what was already
/// pushed.
pub open spec fn interrupt_spec(
    regs: Registers,
    m: Map<u16, u8>,
    wr: Set<u16>,
    return_address: u16,
    kind: InterruptKind,
) -> Outcome {
    let hi_slot = stack_addr(regs.sp);
    let sp1 = regs.sp.wrapping_sub(1);
    if !push_ok(regs.sp, m, wr) {
        Outcome {
            regs: Registers { sp: sp1, ..regs },
            mem: m,
            res: Err(write_fail_error(hi_slot, m, wr)),
        }
    } else {
        let m1 = m.insert(hi_slot, hi8(return_address));
        let lo_slot = stack_addr(sp1);
        let sp2 = sp1.wrapping_sub(1);
        if !push_ok(sp1, m1, wr) {
            Outcome {
                regs: Registers { sp: sp2, ..regs },
                mem: m1,
                res: Err(write_fail_error(lo_slot, m1, wr)),
            }
        } else {
            let m2 = m1.insert(lo_slot, lo8(return_address));
            let status_slot = stack_addr(sp2);
            let sp3 = sp2.wrapping_sub(1);
            if !push_ok(sp2, m2, wr) {
                Outcome {
                    regs: Registers { sp: sp3, ..regs },
                    mem: m2,
                    res: Err(write_fail_error(status_slot, m2, wr)),
                }
            } else {
                let m3 = m2.insert(status_slot, interrupt_status_byte(regs.sr, kind));
                let vector = interrupt_vector(kind);
                if !m3.dom().contains(vector) {
                    Outcome {
                        regs: Registers { sp: sp3, ..regs },
                        mem: m3,
                        res: Err(read_fail_error(vector)),
                    }
                } else if !m3.dom().contains((vector + 1) as u16) {
                    Outcome {
                        regs: Registers { sp: sp3, ..regs },
                        mem: m3,
                        res: Err(read_fail_error((vector + 1) as u16)),
                    }
                } else {
                    Outcome {
                        regs: Registers {
                            pc: word(m3[vector], m3[(vector + 1) as u16]),
                            sp: sp3,
                            sr: with_flag(regs.sr, FLAG_NO_INTERRUPTS, true),
                            ..regs
                        },
                        mem: m3,
                        res: Ok(7u32),
                    }
                }
            }
        }
    }
}

/// Zero and Negative are derived from the produced result alone, whatever
/// instruction produced it: after `with_zn(sr, v)`, Zero holds exactly of
/// `v == 0`, Negative holds exactly of a set bit 7, and each of the six
/// other flags keeps its prior value.
pub proof fn lemma_flag_derivation(sr: u8, v: u8)
    ensures
        flag_on(with_zn(sr, v), FLAG_ZERO) <==> v == 0,
        flag_on(with_zn(sr, v), FLAG_NEGATIVE) <==> bit7(v),
        flag_on(with_zn(sr, v), FLAG_CARRY) == flag_on(sr, FLAG_CARRY),
        flag_on(with_zn(sr, v), FLAG_OVERFLOW) == flag_on(sr, FLAG_OVERFLOW),
        flag_on(with_zn(sr, v), FLAG_UNUSED) == flag_on(sr, FLAG_UNUSED),
        flag_on(with_zn(sr, v), FLAG_BREAK) == flag_on(sr, FLAG_BREAK),
        flag_on(with_zn(sr, v), FLAG_DECIMAL) == flag_on(sr, FLAG_DECIMAL),
        flag_on(with_zn(sr, v), FLAG_NO_INTERRUPTS) == flag_on(sr, FLAG_NO_INTERRUPTS),
{
    assert({
        let s1 = if v == 0 {
            sr | 0x02u8
        } else {
            sr & !0x02u8
        };
        let s2 = if v & 0x80u8 != 0 {
            s1 | 0x80u8
        } else {
            s1 & !0x80u8
        };
        &&& ((s2 & 0x02u8 != 0) <==> v == 0)
        &&& ((s2 & 0x80u8 != 0) <==> v & 0x80u8 != 0)
        &&& ((s2 & 0x01u8 != 0) == (sr & 0x01u8 != 0))
        &&& ((s2 & 0x40u8 != 0) == (sr & 0x40u8 != 0))
        &&& ((s2 & 0x20u8 != 0) == (sr & 0x20u8 != 0))
        &&& ((s2 & 0x10u8 != 0) == (sr & 0x10u8 != 0))
        &&& ((s2 & 0x08u8 != 0) == (sr & 0x08u8 != 0))
        &&& ((s2 & 0x04u8 != 0) == (sr & 0x04u8 != 0))
    }) by (bit_vector);
}

} // verus!
