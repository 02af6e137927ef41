pub mod arithmetic;
pub mod branch;
pub mod comparison;
pub mod dec_and_inc;
pub mod decode;
pub mod flag;
pub mod interrupt;
pub mod jump;
pub mod logical;
pub mod other;
pub mod shift_and_rotate;
pub mod stack;
pub mod transfer;
pub mod model;

use vstd::prelude::*;

use crate::error::BusError;
use crate::error::CpuError;
use crate::mos6502::decode::Cycles;
use crate::mos6502::decode::Instruction;
use crate::mos6502::model::Registers;

verus! {

/// Bit mask of the Negative flag (bit 7 of the status register).
pub const FLAG_NEGATIVE: u8 = 0x80;

/// Bit mask of the Overflow flag (bit 6).
pub const FLAG_OVERFLOW: u8 = 0x40;

/// Bit mask of the Unused flag (bit 5); conventionally always set.
pub const FLAG_UNUSED: u8 = 0x20;

/// Bit mask of the Break flag (bit 4); meaningful only in the status byte an
/// interrupt pushes to the stack.
pub const FLAG_BREAK: u8 = 0x10;

/// Bit mask of the Decimal flag (bit 3); decimal arithmetic is not modelled.
pub const FLAG_DECIMAL: u8 = 0x08;

/// Bit mask of the NoInterrupts flag (bit 2); masks IRQ entry.
pub const FLAG_NO_INTERRUPTS: u8 = 0x04;

/// Bit mask of the Zero flag (bit 1).
pub const FLAG_ZERO: u8 = 0x02;

/// Bit mask of the Carry flag (bit 0).
pub const FLAG_CARRY: u8 = 0x01;

/// The base address of the fixed 256-byte stack page.
pub const STACK_BASE: u16 = 0x0100;

/// A set of processor status flags, stored as the status register's byte.
#[derive(Clone, Copy, Debug, PartialEq, Eq, Structural)]
pub struct CpuFlags {
    /// The raw status byte; each named flag is one bit of it.
    pub bits: u8,
}

impl CpuFlags {
    /// A flag set holding exactly the bits of `bits`.
    pub fn from_bits(bits: u8) -> (f: CpuFlags)
        ensures
            f.bits == bits,
    {
        CpuFlags { bits }
    }

    /// The raw status byte.
    pub fn bits(&self) -> (b: u8)
        ensures
            b == self.bits,
    {
        self.bits
    }

    /// The Negative flag alone.
    pub fn negative() -> (f: CpuFlags)
        ensures
            f.bits == FLAG_NEGATIVE,
    {
        CpuFlags { bits: FLAG_NEGATIVE }
    }

    /// The Overflow flag alone.
    pub fn overflow() -> (f: CpuFlags)
        ensures
            f.bits == FLAG_OVERFLOW,
    {
        CpuFlags { bits: FLAG_OVERFLOW }
    }

    /// The Unused flag alone.
    pub fn unused() -> (f: CpuFlags)
        ensures
            f.bits == FLAG_UNUSED,
    {
        CpuFlags { bits: FLAG_UNUSED }
    }

    /// The Break flag alone.
    pub fn break_bit() -> (f: CpuFlags)
        ensures
            f.bits == FLAG_BREAK,
    {
        CpuFlags { bits: FLAG_BREAK }
    }

    /// The Decimal flag alone.
    pub fn decimal() -> (f: CpuFlags)
        ensures
            f.bits == FLAG_DECIMAL,
    {
        CpuFlags { bits: FLAG_DECIMAL }
    }

    /// The NoInterrupts flag alone.
    pub fn no_interrupts() -> (f: CpuFlags)
        ensures
            f.bits == FLAG_NO_INTERRUPTS,
    {
        CpuFlags { bits: FLAG_NO_INTERRUPTS }
    }

    /// The Zero flag alone.
    pub fn zero() -> (f: CpuFlags)
        ensures
            f.bits == FLAG_ZERO,
    {
        CpuFlags { bits: FLAG_ZERO }
    }

    /// The Carry flag alone.
    pub fn carry() -> (f: CpuFlags)
        ensures
            f.bits == FLAG_CARRY,
    {
        CpuFlags { bits: FLAG_CARRY }
    }
}

/// The thirteen ways an instruction names its operand.
#[derive(Clone, Copy, Debug, PartialEq, Eq, Structural)]
pub enum AddressingMode {
    /// The operand is the accumulator itself.
    Accumulator,
    /// Two bytes give the operand address, little-endian.
    Absolute,
    /// Absolute, then indexed by X; reports page crossing.
    AbsoluteXIndex,
    /// Absolute, then indexed by Y; reports page crossing.
    AbsoluteYIndex,
    /// One byte is the operand value itself.
    Immediate,
    /// No operand bytes.
    Implied,
    /// Two bytes point at the location the operand address is read from.
    Indirect,
    /// One zero-page byte, pre-indexed by X, is dereferenced.
    XIndexIndirect,
    /// One zero-page byte is dereferenced, then indexed by Y; reports page
    /// crossing.
    IndirectYIndex,
    /// One signed byte offsets the program counter, giving a branch target.
    Relative,
    /// One byte is an address in the zero page.
    Zeropage,
    /// Zero-page, indexed by X with 8-bit wrap.
    ZeropageXIndex,
    /// Zero-page, indexed by Y with 8-bit wrap.
    ZeropageYIndex,
}

/// Byte read and write access over the 16-bit address space, supplied by the
/// host. An implementation answers for whatever addresses it maps; the core
/// never retries a failed access.
pub trait Bus: Sized {
    /// The mapped address space: every address a read answers for, with the
    /// byte stored there.
    spec fn mem(&self) -> Map<u16, u8>;

    /// The addresses writes are accepted at; a subset of the mapped space.
    spec fn writable(&self) -> Set<u16>;

    /// Read the byte at `address`, failing outside the mapped space.
    fn read(&mut self, address: u16) -> (r: Result<u8, BusError>)
        ensures
            final(self).mem() == old(self).mem(),
            final(self).writable() == old(self).writable(),
            r is Ok <==> old(self).mem().dom().contains(address),
            r matches Ok(v) ==> v == old(self).mem()[address],
            r matches Err(e) ==> e == BusError::InvalidRead(address),
    ;

    /// Write `value` at `address`, failing outside the mapped space or at a
    /// read-only address.
    fn write(&mut self, address: u16, value: u8) -> (r: Result<(), BusError>)
        ensures
            final(self).writable() == old(self).writable(),
            r is Ok <==> old(self).mem().dom().contains(address)
                && old(self).writable().contains(address),
            r is Ok ==> final(self).mem() == old(self).mem().insert(address, value),
            r is Err ==> final(self).mem() == old(self).mem(),
            r matches Err(e) ==> e == (if !old(self).mem().dom().contains(address) {
                BusError::InvalidWrite(address)
            } else {
                BusError::ReadOnlyAddress(address)
            }),
    ;
}

/// The operand an addressing mode resolved to: an immediate byte, an
/// effective address, an effective address that reports whether computing it
/// crossed a page, or nothing at all.
#[derive(Clone, Copy, Debug, PartialEq, Eq, Structural)]
pub enum OpcodeOperand {
    /// An immediate operand byte, or the accumulator's value.
    Byte(u8),
    /// The effective address the instruction acts on.
    Address(u16),
    /// An effective address, with whether indexing crossed a page boundary.
    AddressWithOverflow(u16, bool),
    /// No operand: the implied addressing mode.
    NoOperand,
}

/// Which vector an interrupt entry takes and how the pushed status byte
/// carries the Break bit.
#[derive(Clone, Copy, Debug, PartialEq, Eq, Structural)]
pub enum InterruptKind {
    /// Non-maskable hardware interrupt.
    Nmi,
    /// Maskable hardware interrupt.
    Irq,
    /// Software interrupt.
    Brk,
}

/// The MOS 6502 processor core: the register file and the elapsed-cycle
/// count. The memory it acts on is handed to every step through a [`Bus`].
pub struct MOS6502 {
    accumulator: u8,
    x_register: u8,
    y_register: u8,
    stack_pointer: u8,
    status_register: CpuFlags,
    program_counter: u16,
    cycles: u128,
}

/// The effect of one dispatched flag instruction: one named flag forced on
/// or off for the table's fixed two cycles.
pub open spec fn flag_outcome(regs: Registers, m: Map<u16, u8>, mask: u8, value: bool) -> model::Outcome {
    model::Outcome {
        regs: Registers { sr: model::with_flag(regs.sr, mask, value), ..regs },
        mem: m,
        res: Ok(2u32),
    }
}

/// The effect of one dispatched instruction on the register file and the
/// bus: the per-instruction meanings, selected by the decoded instruction.
pub open spec fn instr_spec(
    inst: Instruction,
    mode: AddressingMode,
    regs: Registers,
    m: Map<u16, u8>,
    wr: Set<u16>,
) -> model::Outcome {
    match inst {
        Instruction::Adc => arithmetic::adc_spec(mode, regs, m),
        Instruction::And => logical::and_spec(mode, regs, m),
        Instruction::Asl => shift_and_rotate::shift_spec(shift_and_rotate::ShiftOp::Asl, mode, regs, m, wr),
        Instruction::Bcc => branch::branch_spec(mode, regs, m, !model::flag_on(regs.sr, FLAG_CARRY)),
        Instruction::Bcs => branch::branch_spec(mode, regs, m, model::flag_on(regs.sr, FLAG_CARRY)),
        Instruction::Beq => branch::branch_spec(mode, regs, m, model::flag_on(regs.sr, FLAG_ZERO)),
        Instruction::Bit => other::bit_spec(mode, regs, m),
        Instruction::Bmi => branch::branch_spec(mode, regs, m, model::flag_on(regs.sr, FLAG_NEGATIVE)),
        Instruction::Bne => branch::branch_spec(mode, regs, m, !model::flag_on(regs.sr, FLAG_ZERO)),
        Instruction::Bpl => branch::branch_spec(mode, regs, m, !model::flag_on(regs.sr, FLAG_NEGATIVE)),
        Instruction::Brk => model::interrupt_spec(regs, m, wr, regs.pc.wrapping_add(1), InterruptKind::Brk),
        Instruction::Bvc => branch::branch_spec(mode, regs, m, !model::flag_on(regs.sr, FLAG_OVERFLOW)),
        Instruction::Bvs => branch::branch_spec(mode, regs, m, model::flag_on(regs.sr, FLAG_OVERFLOW)),
        Instruction::Clc => flag_outcome(regs, m, FLAG_CARRY, false),
        Instruction::Cld => flag_outcome(regs, m, FLAG_DECIMAL, false),
        Instruction::Cli => flag_outcome(regs, m, FLAG_NO_INTERRUPTS, false),
        Instruction::Clv => flag_outcome(regs, m, FLAG_OVERFLOW, false),
        Instruction::Cmp => comparison::compare_spec(mode, regs, m, regs.a),
        Instruction::Cpx => comparison::compare_spec(mode, regs, m, regs.x),
        Instruction::Cpy => comparison::compare_spec(mode, regs, m, regs.y),
        Instruction::Dec => dec_and_inc::step_memory_spec(mode, regs, m, wr, 0xffu8),
        Instruction::Dex => model::Outcome { regs: Registers { x: regs.x.wrapping_sub(1), sr: model::with_zn(regs.sr, regs.x.wrapping_sub(1)), ..regs }, mem: m, res: Ok(2u32) },
        Instruction::Dey => model::Outcome { regs: Registers { y: regs.y.wrapping_sub(1), sr: model::with_zn(regs.sr, regs.y.wrapping_sub(1)), ..regs }, mem: m, res: Ok(2u32) },
        Instruction::Eor => logical::eor_spec(mode, regs, m),
        Instruction::Inc => dec_and_inc::step_memory_spec(mode, regs, m, wr, 1u8),
        Instruction::Inx => model::Outcome { regs: Registers { x: regs.x.wrapping_add(1), sr: model::with_zn(regs.sr, regs.x.wrapping_add(1)), ..regs }, mem: m, res: Ok(2u32) },
        Instruction::Iny => model::Outcome { regs: Registers { y: regs.y.wrapping_add(1), sr: model::with_zn(regs.sr, regs.y.wrapping_add(1)), ..regs }, mem: m, res: Ok(2u32) },
        Instruction::Jmp => jump::jmp_spec(mode, regs, m),
        Instruction::Jsr => jump::jsr_spec(mode, regs, m, wr),
        Instruction::Lda => transfer::lda_spec(mode, regs, m),
        Instruction::Ldx => transfer::ldx_spec(mode, regs, m),
        Instruction::Ldy => transfer::ldy_spec(mode, regs, m),
        Instruction::Lsr => shift_and_rotate::shift_spec(shift_and_rotate::ShiftOp::Lsr, mode, regs, m, wr),
        Instruction::Nop => model::Outcome { regs, mem: m, res: Ok(2u32) },
        Instruction::Ora => logical::ora_spec(mode, regs, m),
        Instruction::Pha => stack::push_spec(regs, m, wr, regs.a, 3u32),
        Instruction::Php => stack::push_spec(regs, m, wr, (regs.sr | FLAG_BREAK | FLAG_UNUSED) as u8, 3u32),
        Instruction::Pla => stack::pla_spec(regs, m),
        Instruction::Plp => stack::plp_spec(regs, m),
        Instruction::Rol => shift_and_rotate::shift_spec(shift_and_rotate::ShiftOp::Rol, mode, regs, m, wr),
        Instruction::Ror => shift_and_rotate::shift_spec(shift_and_rotate::ShiftOp::Ror, mode, regs, m, wr),
        Instruction::Rti => interrupt::rti_spec(regs, m),
        Instruction::Rts => jump::rts_spec(regs, m),
        Instruction::Sbc => arithmetic::sbc_spec(mode, regs, m),
        Instruction::Sec => flag_outcome(regs, m, FLAG_CARRY, true),
        Instruction::Sed => flag_outcome(regs, m, FLAG_DECIMAL, true),
        Instruction::Sei => flag_outcome(regs, m, FLAG_NO_INTERRUPTS, true),
        Instruction::Sta => model::store_spec(mode, regs, m, wr, regs.a),
        Instruction::Stx => model::store_spec(mode, regs, m, wr, regs.x),
        Instruction::Sty => model::store_spec(mode, regs, m, wr, regs.y),
        Instruction::Tax => model::Outcome { regs: Registers { x: regs.a, sr: model::with_zn(regs.sr, regs.a), ..regs }, mem: m, res: Ok(2u32) },
        Instruction::Tay => model::Outcome { regs: Registers { y: regs.a, sr: model::with_zn(regs.sr, regs.a), ..regs }, mem: m, res: Ok(2u32) },
        Instruction::Tsx => model::Outcome { regs: Registers { x: regs.sp, sr: model::with_zn(regs.sr, regs.sp), ..regs }, mem: m, res: Ok(2u32) },
        Instruction::Txa => model::Outcome { regs: Registers { a: regs.x, sr: model::with_zn(regs.sr, regs.x), ..regs }, mem: m, res: Ok(2u32) },
        Instruction::Txs => model::Outcome { regs: Registers { sp: regs.x, ..regs }, mem: m, res: Ok(2u32) },
        Instruction::Tya => model::Outcome { regs: Registers { a: regs.y, sr: model::with_zn(regs.sr, regs.y), ..regs }, mem: m, res: Ok(2u32) },
        Instruction::NotImplemented => model::Outcome { regs, mem: m, res: Err(CpuError::OpcodeNotImplemented) },
    }
}

/// The total cycle cost of an instruction: a fixed entry's cost outright, a
/// variable entry's base plus the handler's extra cycles.
pub open spec fn total_cycles(cycles: Cycles, extra: u32) -> u32 {
    match cycles {
        Cycles::Fixed(n) => n,
        Cycles::Variable(n) => n.wrapping_add(extra),
    }
}

/// The meaning of one step: the opcode byte is fetched at the program
/// counter, the program counter moves past it, the dispatch table's entry
/// executes, and the cycle cost is the entry's base plus the handler's
/// extra cycles.
pub open spec fn step_spec(regs: Registers, m: Map<u16, u8>, wr: Set<u16>) -> model::Outcome {
    if !m.dom().contains(regs.pc) {
        model::Outcome { regs, mem: m, res: Err(model::read_fail_error(regs.pc)) }
    } else {
        let entry = decode::decode_spec(m[regs.pc]);
        let regs1 = Registers { pc: regs.pc.wrapping_add(1), ..regs };
        let out = instr_spec(entry.inst, entry.mode, regs1, m, wr);
        match out.res {
            Ok(extra) => model::Outcome {
                regs: out.regs,
                mem: out.mem,
                res: Ok(total_cycles(entry.cycles, extra)),
            },
            Err(_) => out,
        }
    }
}

/// Every assigned dispatch entry costs at least two and at most seven base
/// cycles; only the unassigned-opcode entries carry a zero cost.
#[verifier::rlimit(100)]
#[verifier::spinoff_prover]
pub proof fn lemma_decode_cycles_bound(opcode: u8)
    ensures
        ({
            let entry = decode::decode_spec(opcode);
            &&& (match entry.cycles {
                Cycles::Fixed(n) => n <= 7,
                Cycles::Variable(n) => n <= 6,
            })
            &&& (entry.inst == Instruction::NotImplemented || (match entry.cycles {
                Cycles::Fixed(n) => n >= 2,
                Cycles::Variable(n) => n >= 2,
            }))
        }),
{
}

/// A handler that succeeds reports at most seven extra cycles — the
/// page-crossing and branch penalties, and the fixed costs the table
/// ignores.
pub proof fn lemma_instr_extra_bound(
    inst: Instruction,
    mode: AddressingMode,
    regs: Registers,
    m: Map<u16, u8>,
    wr: Set<u16>,
)
    ensures
        (match instr_spec(inst, mode, regs, m, wr).res {
            Ok(extra) => extra <= 7,
            Err(_) => true,
        }),
{
    model::lemma_fetch_extra_bound(mode, regs, m);
}

/// A step that succeeds costs at least one and at most thirteen cycles: an
/// assigned entry's base of two to seven, plus at most seven handler
/// extras.
pub proof fn lemma_step_cycles_bound(regs: Registers, m: Map<u16, u8>, wr: Set<u16>)
    ensures
        (match step_spec(regs, m, wr).res {
            Ok(n) => 1 <= n <= 13,
            Err(_) => true,
        }),
{
    if m.dom().contains(regs.pc) {
        let entry = decode::decode_spec(m[regs.pc]);
        let regs1 = Registers { pc: regs.pc.wrapping_add(1), ..regs };
        lemma_decode_cycles_bound(m[regs.pc]);
        lemma_instr_extra_bound(entry.inst, entry.mode, regs1, m, wr);
    }
}

/// The operand shapes an instruction's handler can consume, as a condition
/// on the addressing mode it is dispatched with: loads, arithmetic, logic
/// and comparisons take any operand-bearing mode; stores and in-place
/// read-modify-write instructions need an effective address; branches need
/// the relative target; jumps and BIT need a plain address. Instructions
/// without operands accept anything.
pub open spec fn mode_accepted(inst: Instruction, mode: AddressingMode) -> bool {
    match inst {
        Instruction::Lda | Instruction::Ldx | Instruction::Ldy | Instruction::Adc
            | Instruction::Sbc | Instruction::And | Instruction::Eor | Instruction::Ora
            | Instruction::Cmp | Instruction::Cpx | Instruction::Cpy | Instruction::Asl
            | Instruction::Lsr | Instruction::Rol | Instruction::Ror => !(mode is Implied),
        Instruction::Sta | Instruction::Stx | Instruction::Sty | Instruction::Dec
            | Instruction::Inc => !(mode is Implied) && !(mode is Accumulator) && !(
        mode is Immediate),
        Instruction::Bcc | Instruction::Bcs | Instruction::Beq | Instruction::Bmi
            | Instruction::Bne | Instruction::Bpl | Instruction::Bvc | Instruction::Bvs => mode
            is Relative,
        Instruction::Jmp => mode is Absolute || mode is Indirect,
        Instruction::Jsr => mode is Absolute,
        Instruction::Bit => mode is Zeropage || mode is Absolute,
        _ => true,
    }
}

/// Every entry of the dispatch table pairs its instruction with an
/// addressing mode the instruction accepts.
#[verifier::rlimit(100)]
#[verifier::spinoff_prover]
pub proof fn lemma_table_modes_accepted(opcode: u8)
    ensures
        mode_accepted(decode::decode_spec(opcode).inst, decode::decode_spec(opcode).mode),
{
}

/// A handler dispatched with a mode its instruction accepts never reports
/// an addressing-mode mismatch: its failures are bus failures, or the
/// unassigned-opcode report.
#[verifier::rlimit(100)]
#[verifier::spinoff_prover]
pub proof fn lemma_accepted_mode_never_mismatches(
    inst: Instruction,
    mode: AddressingMode,
    regs: Registers,
    m: Map<u16, u8>,
    wr: Set<u16>,
)
    requires
        mode_accepted(inst, mode),
    ensures
        !(instr_spec(inst, mode, regs, m, wr).res matches Err(
            CpuError::InvalidAddressingMode(_),
        )),
{
    model::lemma_resolve_operand_shape(mode, regs, m);
    if !(mode is Implied) {
        model::lemma_fetch_mismatch_only_when_implied(mode, regs, m);
    }
}

/// Dispatch-table consistency: an addressing-mode mismatch would mark a
/// disagreement between the table and a handler, and the table holds none —
/// no step, whatever the machine state and the bus contents, can fail with
/// one.
pub proof fn lemma_step_never_reports_mode_mismatch(regs: Registers, m: Map<u16, u8>, wr: Set<u16>)
    ensures
        !(step_spec(regs, m, wr).res matches Err(CpuError::InvalidAddressingMode(_))),
{
    if m.dom().contains(regs.pc) {
        let entry = decode::decode_spec(m[regs.pc]);
        let regs1 = Registers { pc: regs.pc.wrapping_add(1), ..regs };
        lemma_table_modes_accepted(m[regs.pc]);
        lemma_accepted_mode_never_mismatches(entry.inst, entry.mode, regs1, m, wr);
    }
}

/// Reads a byte through the bus, lifting the bus failure into the
/// instruction-level error.
fn read_bus<T: Bus>(bus: &mut T, address: u16) -> (r: Result<u8, CpuError>)
    ensures
        final(bus).mem() == old(bus).mem(),
        final(bus).writable() == old(bus).writable(),
        r is Ok <==> old(bus).mem().dom().contains(address),
        r matches Ok(v) ==> v == old(bus).mem()[address],
        r matches Err(e) ==> e == CpuError::InvalidBusOperation(BusError::InvalidRead(address)),
{
    match bus.read(address) {
        Ok(v) => Ok(v),
        Err(e) => Err(CpuError::InvalidBusOperation(e)),
    }
}

/// Writes a byte through the bus, lifting the bus failure into the
/// instruction-level error.
fn write_bus<T: Bus>(bus: &mut T, address: u16, value: u8) -> (r: Result<(), CpuError>)
    ensures
        final(bus).writable() == old(bus).writable(),
        r is Ok <==> old(bus).mem().dom().contains(address)
            && old(bus).writable().contains(address),
        r is Ok ==> final(bus).mem() == old(bus).mem().insert(address, value),
        r is Err ==> final(bus).mem() == old(bus).mem(),
        r matches Err(e) ==> e == model::write_fail_error(
            address,
            old(bus).mem(),
            old(bus).writable(),
        ),
{
    match bus.write(address, value) {
        Ok(()) => Ok(()),
        Err(e) => Err(CpuError::InvalidBusOperation(e)),
    }
}

impl MOS6502 {
    /// The architectural state as a plain record, the form the contracts
    /// speak of.
    pub closed spec fn regs(&self) -> Registers {
        Registers {
            a: self.accumulator,
            x: self.x_register,
            y: self.y_register,
            sp: self.stack_pointer,
            sr: self.status_register.bits,
            pc: self.program_counter,
        }
    }

    /// The cycles elapsed over the processor's lifetime so far.
    pub closed spec fn spec_cycles(&self) -> u128 {
        self.cycles
    }

    /// A processor in its reset state: registers zeroed, the stack pointer
    /// at the top of the stack page, and the status byte holding only the
    /// conventional Unused and Break bits.
    pub fn new() -> (cpu: MOS6502)
        ensures
            cpu.regs() == (Registers { a: 0u8, x: 0u8, y: 0u8, sp: 0xffu8, sr: (FLAG_UNUSED
                | FLAG_BREAK) as u8, pc: 0u16 }),
            cpu.spec_cycles() == 0,
    {
        MOS6502 {
            accumulator: 0,
            x_register: 0,
            y_register: 0,
            program_counter: 0,
            stack_pointer: 0xff,
            status_register: CpuFlags { bits: FLAG_UNUSED | FLAG_BREAK },
            cycles: 0,
        }
    }

    /// The current program counter.
    pub fn program_counter(&self) -> (v: u16)
        ensures
            v == self.regs().pc,
    {
        self.program_counter
    }

    /// The current accumulator value.
    pub fn accumulator(&self) -> (v: u8)
        ensures
            v == self.regs().a,
    {
        self.accumulator
    }

    /// The current X register value.
    pub fn x_register(&self) -> (v: u8)
        ensures
            v == self.regs().x,
    {
        self.x_register
    }

    /// The current Y register value.
    pub fn y_register(&self) -> (v: u8)
        ensures
            v == self.regs().y,
    {
        self.y_register
    }

    /// The current stack pointer.
    pub fn stack_pointer(&self) -> (v: u8)
        ensures
            v == self.regs().sp,
    {
        self.stack_pointer
    }

    /// The cycles elapsed so far, summed over every successful step and
    /// interrupt entry.
    pub fn get_cycles(&self) -> (v: u128)
        ensures
            v == self.spec_cycles(),
    {
        self.cycles
    }

    /// Sets the program counter, as a host does to choose the entry point.
    pub fn set_program_counter(&mut self, value: u16)
        ensures
            final(self).regs() == (Registers { pc: value, ..old(self).regs() }),
            final(self).spec_cycles() == old(self).spec_cycles(),
    {
        self.program_counter = value;
    }

    /// Sets the program counter; the shorter name kept for hosts that used
    /// it.
    pub fn set_pc(&mut self, value: u16)
        ensures
            final(self).regs() == (Registers { pc: value, ..old(self).regs() }),
            final(self).spec_cycles() == old(self).spec_cycles(),
    {
        self.set_program_counter(value);
    }

    /// Whether any flag of `flag` is set in the status register.
    pub fn flag_check(&self, flag: CpuFlags) -> (r: bool)
        ensures
            r == (self.regs().sr & flag.bits != 0),
    {
        self.status_register.bits & flag.bits != 0
    }

    /// The raw status byte.
    fn status_byte(&self) -> (b: u8)
        ensures
            b == self.regs().sr,
    {
        self.status_register.bits
    }

    /// Replaces the raw status byte wholesale, as PLP and RTI do.
    fn set_status_byte(&mut self, b: u8)
        ensures
            final(self).regs() == (Registers { sr: b, ..old(self).regs() }),
            final(self).spec_cycles() == old(self).spec_cycles(),
    {
        self.status_register.bits = b;
    }

    /// Turns the given flag on or off.
    fn flag_set(&mut self, f: CpuFlags, value: bool)
        ensures
            final(self).regs() == (Registers {
                sr: model::with_flag(old(self).regs().sr, f.bits, value),
                ..old(self).regs()
            }),
            final(self).spec_cycles() == old(self).spec_cycles(),
    {
        if value {
            self.status_register.bits = self.status_register.bits | f.bits;
        } else {
            self.status_register.bits = self.status_register.bits & !f.bits;
        }
    }

    /// Derives Zero and Negative from the result byte `v`, leaving the other
    /// flags alone.
    fn set_zn(&mut self, v: u8)
        ensures
            final(self).regs() == (Registers {
                sr: model::with_zn(old(self).regs().sr, v),
                ..old(self).regs()
            }),
            final(self).spec_cycles() == old(self).spec_cycles(),
    {
        self.flag_set(CpuFlags { bits: FLAG_ZERO }, v == 0);
        self.flag_set(CpuFlags { bits: FLAG_NEGATIVE }, v & 0x80 != 0);
    }

    /// Advances the program counter by `n`, wrapping at the top of the
    /// address space.
    fn increment_program_counter(&mut self, n: u16)
        ensures
            final(self).regs() == (Registers {
                pc: old(self).regs().pc.wrapping_add(n),
                ..old(self).regs()
            }),
            final(self).spec_cycles() == old(self).spec_cycles(),
    {
        self.program_counter = self.program_counter.wrapping_add(n);
    }

    /// Writes `value` at the stack pointer's slot of the stack page, then
    /// moves the pointer down, wrapping within the page; the pointer moves
    /// even when the write is refused.
    fn push_to_stack<T: Bus>(&mut self, bus: &mut T, value: u8) -> (r: Result<(), BusError>)
        ensures
            final(self).regs() == (Registers {
                sp: old(self).regs().sp.wrapping_sub(1),
                ..old(self).regs()
            }),
            final(self).spec_cycles() == old(self).spec_cycles(),
            final(bus).writable() == old(bus).writable(),
            r is Ok <==> model::push_ok(old(self).regs().sp, old(bus).mem(), old(bus).writable()),
            r is Ok ==> final(bus).mem() == old(bus).mem().insert(
                model::stack_addr(old(self).regs().sp),
                value,
            ),
            r is Err ==> final(bus).mem() == old(bus).mem(),
            r matches Err(e) ==> CpuError::InvalidBusOperation(e) == model::write_fail_error(
                model::stack_addr(old(self).regs().sp),
                old(bus).mem(),
                old(bus).writable(),
            ),
    {
        let result = bus.write(STACK_BASE + self.stack_pointer as u16, value);
        self.stack_pointer = self.stack_pointer.wrapping_sub(1);
        result
    }

    /// Moves the stack pointer up, wrapping within the page, then reads the
    /// byte at its new slot; the pointer moves even when the read fails.
    fn pop_from_stack<T: Bus>(&mut self, bus: &mut T) -> (r: Result<u8, BusError>)
        ensures
            final(self).regs() == (Registers {
                sp: old(self).regs().sp.wrapping_add(1),
                ..old(self).regs()
            }),
            final(self).spec_cycles() == old(self).spec_cycles(),
            final(bus).mem() == old(bus).mem(),
            final(bus).writable() == old(bus).writable(),
            r is Ok <==> old(bus).mem().dom().contains(
                model::stack_addr(old(self).regs().sp.wrapping_add(1)),
            ),
            r matches Ok(v) ==> v == old(bus).mem()[model::stack_addr(
                old(self).regs().sp.wrapping_add(1),
            )],
            r matches Err(e) ==> e == BusError::InvalidRead(
                model::stack_addr(old(self).regs().sp.wrapping_add(1)),
            ),
    {
        self.stack_pointer = self.stack_pointer.wrapping_add(1);
        bus.read(STACK_BASE + self.stack_pointer as u16)
    }

    /// Adds `n` elapsed cycles to the lifetime count, wrapping.
    fn add_cycles(&mut self, n: u32)
        ensures
            final(self).regs() == old(self).regs(),
            final(self).spec_cycles() == old(self).spec_cycles().wrapping_add(n as u128),
    {
        self.cycles = self.cycles.wrapping_add(n as u128);
    }

    /// Sequences an interrupt entry: pushes the return address high byte
    /// then low byte, then the status image for `kind`, fetches the
    /// handler's address from the kind's vector, and sets NoInterrupts,
    /// per [`model::interrupt_spec`].
    fn perform_interrupt<T: Bus>(
        &mut self,
        return_address: u16,
        kind: InterruptKind,
        bus: &mut T,
    ) -> (r: Result<u32, CpuError>)
        ensures
            ({
                let out = model::interrupt_spec(
                    old(self).regs(),
                    old(bus).mem(),
                    old(bus).writable(),
                    return_address,
                    kind,
                );
                &&& final(self).regs() == out.regs
                &&& final(bus).mem() == out.mem
                &&& r == out.res
            }),
            final(self).spec_cycles() == old(self).spec_cycles(),
            final(bus).writable() == old(bus).writable(),
    {
        let return_address_hi = (return_address >> 8) as u8;
        let return_address_lo = (return_address & 0xff) as u8;

        match self.push_to_stack(bus, return_address_hi) {
            Ok(()) => (),
            Err(e) => {
                return Err(CpuError::InvalidBusOperation(e));
            },
        };
        match self.push_to_stack(bus, return_address_lo) {
            Ok(()) => (),
            Err(e) => {
                return Err(CpuError::InvalidBusOperation(e));
            },
        };

        let status_value = (match kind {
            InterruptKind::Brk => self.status_byte() | FLAG_BREAK,
            _ => self.status_byte() & !FLAG_BREAK,
        }) | FLAG_UNUSED;
        match self.push_to_stack(bus, status_value) {
            Ok(()) => (),
            Err(e) => {
                return Err(CpuError::InvalidBusOperation(e));
            },
        };

        let vector_address: u16 = match kind {
            InterruptKind::Nmi => 0xfffa,
            _ => 0xfffe,
        };
        let divert_address_lo = match read_bus(bus, vector_address) {
            Ok(v) => v,
            Err(e) => {
                return Err(e);
            },
        };
        let divert_address_hi = match read_bus(bus, vector_address + 1) {
            Ok(v) => v,
            Err(e) => {
                return Err(e);
            },
        };

        self.set_program_counter(((divert_address_hi as u16) << 8) | (divert_address_lo as u16));
        self.flag_set(CpuFlags { bits: FLAG_NO_INTERRUPTS }, true);
        Ok(7)
    }

    /// Enters the maskable hardware interrupt: with NoInterrupts set the
    /// request is ignored outright — every register, the program counter,
    /// the bus and the cycle count stay as they were and zero cycles are
    /// reported — and otherwise the full entry sequence runs on the current
    /// program counter.
    pub fn irq<T: Bus>(&mut self, bus: &mut T) -> (r: Result<u32, CpuError>)
        ensures
            model::flag_on(old(self).regs().sr, FLAG_NO_INTERRUPTS) ==> {
                &&& final(self).regs() == old(self).regs()
                &&& final(self).spec_cycles() == old(self).spec_cycles()
                &&& final(bus).mem() == old(bus).mem()
                &&& r == Ok::<u32, CpuError>(0u32)
            },
            !model::flag_on(old(self).regs().sr, FLAG_NO_INTERRUPTS) ==> ({
                let out = model::interrupt_spec(
                    old(self).regs(),
                    old(bus).mem(),
                    old(bus).writable(),
                    old(self).regs().pc,
                    InterruptKind::Irq,
                );
                &&& final(self).regs() == out.regs
                &&& final(bus).mem() == out.mem
                &&& r == out.res
                &&& final(self).spec_cycles() == (match out.res {
                    Ok(n) => old(self).spec_cycles().wrapping_add(n as u128),
                    Err(_) => old(self).spec_cycles(),
                })
            }),
            final(bus).writable() == old(bus).writable(),
    {
        if self.flag_check(CpuFlags { bits: FLAG_NO_INTERRUPTS }) {
            return Ok(0);
        }
        let return_address = self.program_counter();
        match self.perform_interrupt(return_address, InterruptKind::Irq, bus) {
            Ok(n) => {
                self.add_cycles(n);
                Ok(n)
            },
            Err(e) => Err(e),
        }
    }

    /// Enters the non-maskable hardware interrupt: the full entry sequence
    /// always runs on the current program counter, whatever NoInterrupts
    /// holds.
    pub fn nmi<T: Bus>(&mut self, bus: &mut T) -> (r: Result<u32, CpuError>)
        ensures
            ({
                let out = model::interrupt_spec(
                    old(self).regs(),
                    old(bus).mem(),
                    old(bus).writable(),
                    old(self).regs().pc,
                    InterruptKind::Nmi,
                );
                &&& final(self).regs() == out.regs
                &&& final(bus).mem() == out.mem
                &&& r == out.res
                &&& final(self).spec_cycles() == (match out.res {
                    Ok(n) => old(self).spec_cycles().wrapping_add(n as u128),
                    Err(_) => old(self).spec_cycles(),
                })
            }),
            final(bus).writable() == old(bus).writable(),
    {
        let return_address = self.program_counter();
        match self.perform_interrupt(return_address, InterruptKind::Nmi, bus) {
            Ok(n) => {
                self.add_cycles(n);
                Ok(n)
            },
            Err(e) => Err(e),
        }
    }

    /// Executes one instruction: fetches the opcode at the program counter,
    /// advances past it, dispatches through the table, and returns the
    /// elapsed cycles, which are also added to the lifetime count, per
    /// [`step_spec`]. A failing bus access surfaces as the step's error
    /// with the state left where the failure found it.
    pub fn step<T: Bus>(&mut self, bus: &mut T) -> (r: Result<u32, CpuError>)
        ensures
            ({
                let out = step_spec(old(self).regs(), old(bus).mem(), old(bus).writable());
                &&& final(self).regs() == out.regs
                &&& final(bus).mem() == out.mem
                &&& r == out.res
                &&& final(self).spec_cycles() == (match out.res {
                    Ok(n) => old(self).spec_cycles().wrapping_add(n as u128),
                    Err(_) => old(self).spec_cycles(),
                })
            }),
            final(bus).writable() == old(bus).writable(),
    {
        let opcode = match read_bus(bus, self.program_counter) {
            Ok(v) => v,
            Err(e) => {
                return Err(e);
            },
        };
        self.increment_program_counter(1);
        let entry = decode::decode(opcode);
        match self.dispatch(bus, entry.inst, entry.mode) {
            Ok(extra) => {
                let total = match entry.cycles {
                    Cycles::Fixed(n) => n,
                    Cycles::Variable(n) => n.wrapping_add(extra),
                };
                self.add_cycles(total);
                Ok(total)
            },
            Err(e) => Err(e),
        }
    }

    /// Runs the handler the dispatch table bound the opcode to, with the
    /// entry's addressing mode, per [`instr_spec`].
    fn dispatch<T: Bus>(&mut self, bus: &mut T, inst: Instruction, mode: AddressingMode) -> (r:
        Result<u32, CpuError>)
        ensures
            ({
                let out = instr_spec(inst, mode, old(self).regs(), old(bus).mem(), old(bus).writable());
                &&& final(self).regs() == out.regs
                &&& final(bus).mem() == out.mem
                &&& r == out.res
            }),
            final(self).spec_cycles() == old(self).spec_cycles(),
            final(bus).writable() == old(bus).writable(),
    {
        match inst {
            Instruction::Adc | Instruction::And | Instruction::Asl | Instruction::Bcc | Instruction::Bcs | Instruction::Beq | Instruction::Bit | Instruction::Bmi | Instruction::Bne | Instruction::Bpl | Instruction::Brk | Instruction::Bvc | Instruction::Bvs | Instruction::Clc | Instruction::Cld => self.dispatch_arithmetic_and_branches(bus, inst, mode),
            Instruction::Cli | Instruction::Clv | Instruction::Cmp | Instruction::Cpx | Instruction::Cpy | Instruction::Dec | Instruction::Dex | Instruction::Dey | Instruction::Eor | Instruction::Inc | Instruction::Inx | Instruction::Iny | Instruction::Jmp | Instruction::Jsr | Instruction::Lda => self.dispatch_flags_and_memory(bus, inst, mode),
            Instruction::Ldx | Instruction::Ldy | Instruction::Lsr | Instruction::Nop | Instruction::Ora | Instruction::Pha | Instruction::Php | Instruction::Pla | Instruction::Plp | Instruction::Rol | Instruction::Ror | Instruction::Rti | Instruction::Rts => self.dispatch_jumps_and_stack(bus, inst, mode),
            Instruction::Sbc | Instruction::Sec | Instruction::Sed | Instruction::Sei | Instruction::Sta | Instruction::Stx | Instruction::Sty | Instruction::Tax | Instruction::Tay | Instruction::Tsx | Instruction::Txa | Instruction::Txs | Instruction::Tya | Instruction::NotImplemented => self.dispatch_transfers_and_rest(bus, inst, mode),
        }
    }

    /// One quarter of the dispatch table's handler selection.
    #[verifier::rlimit(100)]
    #[verifier::spinoff_prover]
    fn dispatch_arithmetic_and_branches<T: Bus>(&mut self, bus: &mut T, inst: Instruction, mode: AddressingMode) -> (r:
        Result<u32, CpuError>)
        requires
            inst is Adc
                || inst is And
                || inst is Asl
                || inst is Bcc
                || inst is Bcs
                || inst is Beq
                || inst is Bit
                || inst is Bmi
                || inst is Bne
                || inst is Bpl
                || inst is Brk
                || inst is Bvc
                || inst is Bvs
                || inst is Clc
                || inst is Cld,
        ensures
            ({
                let out = instr_spec(inst, mode, old(self).regs(), old(bus).mem(), old(bus).writable());
                &&& final(self).regs() == out.regs
                &&& final(bus).mem() == out.mem
                &&& r == out.res
            }),
            final(self).spec_cycles() == old(self).spec_cycles(),
            final(bus).writable() == old(bus).writable(),
    {
        match inst {
            Instruction::Adc => self.adc(bus, mode),
            Instruction::And => self.and(bus, mode),
            Instruction::Asl => self.asl(bus, mode),
            Instruction::Bcc => self.bcc(bus, mode),
            Instruction::Bcs => self.bcs(bus, mode),
            Instruction::Beq => self.beq(bus, mode),
            Instruction::Bit => self.bit(bus, mode),
            Instruction::Bmi => self.bmi(bus, mode),
            Instruction::Bne => self.bne(bus, mode),
            Instruction::Bpl => self.bpl(bus, mode),
            Instruction::Brk => self.brk(bus, mode),
            Instruction::Bvc => self.bvc(bus, mode),
            Instruction::Bvs => self.bvs(bus, mode),
            Instruction::Clc => self.clc(bus, mode),
            Instruction::Cld => self.cld(bus, mode),
            _ => self.not_implemented(bus, mode),
        }
    }
    /// One quarter of the dispatch table's handler selection.
    #[verifier::rlimit(100)]
    #[verifier::spinoff_prover]
    fn dispatch_flags_and_memory<T: Bus>(&mut self, bus: &mut T, inst: Instruction, mode: AddressingMode) -> (r:
        Result<u32, CpuError>)
        requires
            inst is Cli
                || inst is Clv
                || inst is Cmp
                || inst is Cpx
                || inst is Cpy
                || inst is Dec
                || inst is Dex
                || inst is Dey
                || inst is Eor
                || inst is Inc
                || inst is Inx
                || inst is Iny
                || inst is Jmp
                || inst is Jsr
                || inst is Lda,
        ensures
            ({
                let out = instr_spec(inst, mode, old(self).regs(), old(bus).mem(), old(bus).writable());
                &&& final(self).regs() == out.regs
                &&& final(bus).mem() == out.mem
                &&& r == out.res
            }),
            final(self).spec_cycles() == old(self).spec_cycles(),
            final(bus).writable() == old(bus).writable(),
    {
        match inst {
            Instruction::Cli => self.cli(bus, mode),
            Instruction::Clv => self.clv(bus, mode),
            Instruction::Cmp => self.cmp(bus, mode),
            Instruction::Cpx => self.cpx(bus, mode),
            Instruction::Cpy => self.cpy(bus, mode),
            Instruction::Dec => self.dec(bus, mode),
            Instruction::Dex => self.dex(bus, mode),
            Instruction::Dey => self.dey(bus, mode),
            Instruction::Eor => self.eor(bus, mode),
            Instruction::Inc => self.inc(bus, mode),
            Instruction::Inx => self.inx(bus, mode),
            Instruction::Iny => self.iny(bus, mode),
            Instruction::Jmp => self.jmp(bus, mode),
            Instruction::Jsr => self.jsr(bus, mode),
            Instruction::Lda => self.lda(bus, mode),
            _ => self.not_implemented(bus, mode),
        }
    }
    /// One quarter of the dispatch table's handler selection.
    #[verifier::rlimit(100)]
    #[verifier::spinoff_prover]
    fn dispatch_jumps_and_stack<T: Bus>(&mut self, bus: &mut T, inst: Instruction, mode: AddressingMode) -> (r:
        Result<u32, CpuError>)
        requires
            inst is Ldx
                || inst is Ldy
                || inst is Lsr
                || inst is Nop
                || inst is Ora
                || inst is Pha
                || inst is Php
                || inst is Pla
                || inst is Plp
                || inst is Rol
                || inst is Ror
                || inst is Rti
                || inst is Rts,
        ensures
            ({
                let out = instr_spec(inst, mode, old(self).regs(), old(bus).mem(), old(bus).writable());
                &&& final(self).regs() == out.regs
                &&& final(bus).mem() == out.mem
                &&& r == out.res
            }),
            final(self).spec_cycles() == old(self).spec_cycles(),
            final(bus).writable() == old(bus).writable(),
    {
        match inst {
            Instruction::Ldx => self.ldx(bus, mode),
            Instruction::Ldy => self.ldy(bus, mode),
            Instruction::Lsr => self.lsr(bus, mode),
            Instruction::Nop => self.nop(bus, mode),
            Instruction::Ora => self.ora(bus, mode),
            Instruction::Pha => self.pha(bus, mode),
            Instruction::Php => self.php(bus, mode),
            Instruction::Pla => self.pla(bus, mode),
            Instruction::Plp => self.plp(bus, mode),
            Instruction::Rol => self.rol(bus, mode),
            Instruction::Ror => self.ror(bus, mode),
            Instruction::Rti => self.rti(bus, mode),
            Instruction::Rts => self.rts(bus, mode),
            _ => self.not_implemented(bus, mode),
        }
    }
    /// One quarter of the dispatch table's handler selection.
    #[verifier::rlimit(100)]
    #[verifier::spinoff_prover]
    fn dispatch_transfers_and_rest<T: Bus>(&mut self, bus: &mut T, inst: Instruction, mode: AddressingMode) -> (r:
        Result<u32, CpuError>)
        requires
            inst is Sbc
                || inst is Sec
                || inst is Sed
                || inst is Sei
                || inst is Sta
                || inst is Stx
                || inst is Sty
                || inst is Tax
                || inst is Tay
                || inst is Tsx
                || inst is Txa
                || inst is Txs
                || inst is Tya
                || inst is NotImplemented,
        ensures
            ({
                let out = instr_spec(inst, mode, old(self).regs(), old(bus).mem(), old(bus).writable());
                &&& final(self).regs() == out.regs
                &&& final(bus).mem() == out.mem
                &&& r == out.res
            }),
            final(self).spec_cycles() == old(self).spec_cycles(),
            final(bus).writable() == old(bus).writable(),
    {
        match inst {
            Instruction::Sbc => self.sbc(bus, mode),
            Instruction::Sec => self.sec(bus, mode),
            Instruction::Sed => self.sed(bus, mode),
            Instruction::Sei => self.sei(bus, mode),
            Instruction::Sta => self.sta(bus, mode),
            Instruction::Stx => self.stx(bus, mode),
            Instruction::Sty => self.sty(bus, mode),
            Instruction::Tax => self.tax(bus, mode),
            Instruction::Tay => self.tay(bus, mode),
            Instruction::Tsx => self.tsx(bus, mode),
            Instruction::Txa => self.txa(bus, mode),
            Instruction::Txs => self.txs(bus, mode),
            Instruction::Tya => self.tya(bus, mode),
            Instruction::NotImplemented => self.not_implemented(bus, mode),
            _ => self.not_implemented(bus, mode),
        }
    }

    /// Steps instructions until at least `cycles` cycles have elapsed over
    /// the processor's lifetime, or a step fails. The target must leave
    /// room for one instruction's cost below the counter's maximum, so that
    /// the count cannot wrap past it.
    pub fn run_for_cycles<T: Bus>(&mut self, bus: &mut T, cycles: u128) -> (r: Result<
        (),
        CpuError,
    >)
        requires
            cycles <= u128::MAX - 16,
        ensures
            r is Ok ==> final(self).spec_cycles() >= cycles,
            old(self).spec_cycles() >= cycles ==> {
                &&& r == Ok::<(), CpuError>(())
                &&& final(self).regs() == old(self).regs()
                &&& final(self).spec_cycles() == old(self).spec_cycles()
                &&& final(bus).mem() == old(bus).mem()
            },
            final(bus).writable() == old(bus).writable(),
    {
        while self.get_cycles() < cycles
            invariant
                bus.writable() == old(bus).writable(),
                cycles <= u128::MAX - 16,
                old(self).spec_cycles() >= cycles ==> {
                    &&& self.regs() == old(self).regs()
                    &&& self.spec_cycles() == old(self).spec_cycles()
                    &&& bus.mem() == old(bus).mem()
                },
            decreases (if self.spec_cycles() >= cycles {
                0int
            } else {
                cycles - self.spec_cycles()
            }),
        {
            proof {
                lemma_step_cycles_bound(self.regs(), bus.mem(), bus.writable());
            }
            match self.step(bus) {
                Ok(_) => (),
                Err(e) => {
                    return Err(e);
                },
            }
        }
        Ok(())
    }

    /// The handler bound to every opcode byte with no assigned instruction:
    /// it changes nothing and reports the opcode as unimplemented.
    pub fn not_implemented<T: Bus>(&mut self, _bus: &mut T, _address_mode: AddressingMode) -> (r:
        Result<u32, CpuError>)
        ensures
            final(self).regs() == old(self).regs(),
            r == Err::<u32, CpuError>(CpuError::OpcodeNotImplemented),
            final(self).spec_cycles() == old(self).spec_cycles(),
            final(_bus).mem() == old(_bus).mem(),
            final(_bus).writable() == old(_bus).writable(),
    {
        Err(CpuError::OpcodeNotImplemented)
    }

    /// Resolves absolute addressing indexed by `index`: two little-endian
    /// operand bytes, the low one indexed with carry into the high one, the
    /// carry reported as a page crossing.
    fn absolute_indexed<T: Bus>(&mut self, bus: &mut T, index: u8) -> (r: Result<
        OpcodeOperand,
        CpuError,
    >)
        ensures
            ({
                let out = model::resolve_absolute_indexed(
                    index,
                    old(self).regs().pc,
                    old(bus).mem(),
                );
                &&& final(self).regs() == (Registers { pc: out.pc, ..old(self).regs() })
                &&& r == out.res
            }),
            final(self).spec_cycles() == old(self).spec_cycles(),
            final(bus).mem() == old(bus).mem(),
            final(bus).writable() == old(bus).writable(),
    {
        let low_byte = match read_bus(bus, self.program_counter) {
            Ok(v) => v,
            Err(e) => {
                return Err(e);
            },
        };
        self.increment_program_counter(1);
        let high_byte = match read_bus(bus, self.program_counter) {
            Ok(v) => v,
            Err(e) => {
                return Err(e);
            },
        };
        self.increment_program_counter(1);

        let crossed = (low_byte as u16) + (index as u16) > 0xff;
        let low_indexed = low_byte.wrapping_add(index);
        let high_indexed = high_byte.wrapping_add(if crossed { 1u8 } else { 0u8 });
        let address = ((high_indexed as u16) << 8) | (low_indexed as u16);
        Ok(OpcodeOperand::AddressWithOverflow(address, crossed))
    }

    /// Given an addressing mode, consumes the operand bytes at the program
    /// counter and produces the operand, per [`model::resolve_spec`]. A read
    /// that misses the mapped space surfaces as the step's error, with the
    /// program counter left where the failure found it.
    pub fn resolve_operand<T: Bus>(&mut self, bus: &mut T, address_mode: AddressingMode) -> (r:
        Result<OpcodeOperand, CpuError>)
        ensures
            ({
                let out = model::resolve_spec(address_mode, old(self).regs(), old(bus).mem());
                &&& final(self).regs() == (Registers { pc: out.pc, ..old(self).regs() })
                &&& r == out.res
            }),
            final(self).spec_cycles() == old(self).spec_cycles(),
            final(bus).mem() == old(bus).mem(),
            final(bus).writable() == old(bus).writable(),
    {
        match address_mode {
            AddressingMode::Accumulator => Ok(OpcodeOperand::Byte(self.accumulator)),
            AddressingMode::Implied => Ok(OpcodeOperand::NoOperand),
            AddressingMode::Immediate => {
                let byte = match read_bus(bus, self.program_counter) {
                    Ok(v) => v,
                    Err(e) => {
                        return Err(e);
                    },
                };
                self.increment_program_counter(1);
                Ok(OpcodeOperand::Byte(byte))
            },
            AddressingMode::Absolute => {
                let low_byte = match read_bus(bus, self.program_counter) {
                    Ok(v) => v,
                    Err(e) => {
                        return Err(e);
                    },
                };
                self.increment_program_counter(1);
                let high_byte = match read_bus(bus, self.program_counter) {
                    Ok(v) => v,
                    Err(e) => {
                        return Err(e);
                    },
                };
                self.increment_program_counter(1);
                Ok(OpcodeOperand::Address(((high_byte as u16) << 8) | (low_byte as u16)))
            },
            AddressingMode::AbsoluteXIndex => {
                let index = self.x_register;
                self.absolute_indexed(bus, index)
            },
            AddressingMode::AbsoluteYIndex => {
                let index = self.y_register;
                self.absolute_indexed(bus, index)
            },
            AddressingMode::Indirect => {
                let low_byte = match read_bus(bus, self.program_counter) {
                    Ok(v) => v,
                    Err(e) => {
                        return Err(e);
                    },
                };
                self.increment_program_counter(1);
                let high_byte = match read_bus(bus, self.program_counter) {
                    Ok(v) => v,
                    Err(e) => {
                        return Err(e);
                    },
                };
                self.increment_program_counter(1);

                let pointer = ((high_byte as u16) << 8) | (low_byte as u16);
                let low_target = match read_bus(bus, pointer) {
                    Ok(v) => v,
                    Err(e) => {
                        return Err(e);
                    },
                };
                let high_target = match read_bus(bus, pointer.wrapping_add(1)) {
                    Ok(v) => v,
                    Err(e) => {
                        return Err(e);
                    },
                };
                Ok(OpcodeOperand::Address(((high_target as u16) << 8) | (low_target as u16)))
            },
            AddressingMode::XIndexIndirect => {
                let zeropage_address = match read_bus(bus, self.program_counter) {
                    Ok(v) => v,
                    Err(e) => {
                        return Err(e);
                    },
                };
                self.increment_program_counter(1);

                let indexed = zeropage_address.wrapping_add(self.x_register);
                let low_byte = match read_bus(bus, indexed as u16) {
                    Ok(v) => v,
                    Err(e) => {
                        return Err(e);
                    },
                };
                let high_byte = match read_bus(bus, indexed.wrapping_add(1) as u16) {
                    Ok(v) => v,
                    Err(e) => {
                        return Err(e);
                    },
                };
                Ok(OpcodeOperand::Address(((high_byte as u16) << 8) | (low_byte as u16)))
            },
            AddressingMode::IndirectYIndex => {
                let zeropage_address = match read_bus(bus, self.program_counter) {
                    Ok(v) => v,
                    Err(e) => {
                        return Err(e);
                    },
                };
                self.increment_program_counter(1);

                let low_byte = match read_bus(bus, zeropage_address as u16) {
                    Ok(v) => v,
                    Err(e) => {
                        return Err(e);
                    },
                };
                let high_byte = match read_bus(bus, zeropage_address.wrapping_add(1) as u16) {
                    Ok(v) => v,
                    Err(e) => {
                        return Err(e);
                    },
                };

                let crossed = (low_byte as u16) + (self.y_register as u16) > 0xff;
                let low_indexed = low_byte.wrapping_add(self.y_register);
                let high_indexed = high_byte.wrapping_add(if crossed { 1u8 } else { 0u8 });
                let address = ((high_indexed as u16) << 8) | (low_indexed as u16);
                Ok(OpcodeOperand::AddressWithOverflow(address, crossed))
            },
            AddressingMode::Relative => {
                let offset = match read_bus(bus, self.program_counter) {
                    Ok(v) => v,
                    Err(e) => {
                        return Err(e);
                    },
                };
                self.increment_program_counter(1);

                let target = self.program_counter.wrapping_add_signed(offset as i8 as i16);
                Ok(OpcodeOperand::Address(target))
            },
            AddressingMode::Zeropage => {
                let zeropage_address = match read_bus(bus, self.program_counter) {
                    Ok(v) => v,
                    Err(e) => {
                        return Err(e);
                    },
                };
                self.increment_program_counter(1);
                Ok(OpcodeOperand::Address(zeropage_address as u16))
            },
            AddressingMode::ZeropageXIndex => {
                let offset = self.x_register;
                let zeropage_address = match read_bus(bus, self.program_counter) {
                    Ok(v) => v,
                    Err(e) => {
                        return Err(e);
                    },
                };
                self.increment_program_counter(1);
                Ok(OpcodeOperand::Address(zeropage_address.wrapping_add(offset) as u16))
            },
            AddressingMode::ZeropageYIndex => {
                let offset = self.y_register;
                let zeropage_address = match read_bus(bus, self.program_counter) {
                    Ok(v) => v,
                    Err(e) => {
                        return Err(e);
                    },
                };
                self.increment_program_counter(1);
                Ok(OpcodeOperand::Address(zeropage_address.wrapping_add(offset) as u16))
            },
        }
    }

    /// Sets the accumulator and derives Zero and Negative from the value.
    fn set_accumulator_value(&mut self, value: u8)
        ensures
            final(self).regs() == (Registers {
                a: value,
                sr: model::with_zn(old(self).regs().sr, value),
                ..old(self).regs()
            }),
            final(self).spec_cycles() == old(self).spec_cycles(),
    {
        self.accumulator = value;
        self.set_zn(value);
    }

    /// Sets the X register and derives Zero and Negative from the value.
    fn set_x_value(&mut self, value: u8)
        ensures
            final(self).regs() == (Registers {
                x: value,
                sr: model::with_zn(old(self).regs().sr, value),
                ..old(self).regs()
            }),
            final(self).spec_cycles() == old(self).spec_cycles(),
    {
        self.x_register = value;
        self.set_zn(value);
    }

    /// Sets the Y register and derives Zero and Negative from the value.
    fn set_y_value(&mut self, value: u8)
        ensures
            final(self).regs() == (Registers {
                y: value,
                sr: model::with_zn(old(self).regs().sr, value),
                ..old(self).regs()
            }),
            final(self).spec_cycles() == old(self).spec_cycles(),
    {
        self.y_register = value;
        self.set_zn(value);
    }

    /// Sets the stack pointer; no flags change.
    fn set_stack_pointer_value(&mut self, value: u8)
        ensures
            final(self).regs() == (Registers { sp: value, ..old(self).regs() }),
            final(self).spec_cycles() == old(self).spec_cycles(),
    {
        self.stack_pointer = value;
    }

    /// Resolves the operand to an effective address and writes `value`
    /// there, per [`model::store_spec`]; a value-shaped operand is a
    /// dispatch mismatch.
    fn store_value<T: Bus>(&mut self, bus: &mut T, address_mode: AddressingMode, value: u8) -> (r:
        Result<u32, CpuError>)
        ensures
            ({
                let out = model::store_spec(
                    address_mode,
                    old(self).regs(),
                    old(bus).mem(),
                    old(bus).writable(),
                    value,
                );
                &&& final(self).regs() == out.regs
                &&& final(bus).mem() == out.mem
                &&& r == out.res
            }),
            final(self).spec_cycles() == old(self).spec_cycles(),
            final(bus).writable() == old(bus).writable(),
    {
        let address = match self.resolve_operand(bus, address_mode) {
            Ok(OpcodeOperand::Address(w)) => w,
            Ok(OpcodeOperand::AddressWithOverflow(w, _)) => w,
            Ok(_) => {
                return Err(CpuError::InvalidAddressingMode(address_mode));
            },
            Err(e) => {
                return Err(e);
            },
        };
        match write_bus(bus, address, value) {
            Ok(()) => Ok(0),
            Err(e) => Err(e),
        }
    }

    /// Resolves the operand and reads its value: an immediate byte is the
    /// value itself, an effective address is dereferenced, and a crossed
    /// page is reported as one extra cycle, per [`model::fetch_spec`].
    fn fetch_operand_value<T: Bus>(&mut self, bus: &mut T, address_mode: AddressingMode) -> (r:
        Result<(u8, u32), CpuError>)
        ensures
            ({
                let out = model::fetch_spec(address_mode, old(self).regs(), old(bus).mem());
                &&& final(self).regs() == (Registers { pc: out.pc, ..old(self).regs() })
                &&& r == out.res
            }),
            final(self).spec_cycles() == old(self).spec_cycles(),
            final(bus).mem() == old(bus).mem(),
            final(bus).writable() == old(bus).writable(),
    {
        match self.resolve_operand(bus, address_mode) {
            Err(e) => Err(e),
            Ok(OpcodeOperand::Byte(b)) => Ok((b, 0)),
            Ok(OpcodeOperand::Address(address)) => match read_bus(bus, address) {
                Ok(v) => Ok((v, 0)),
                Err(e) => Err(e),
            },
            Ok(OpcodeOperand::AddressWithOverflow(address, crossed)) => match read_bus(
                bus,
                address,
            ) {
                Ok(v) => Ok((v, if crossed { 1u32 } else { 0u32 })),
                Err(e) => Err(e),
            },
            Ok(OpcodeOperand::NoOperand) => Err(CpuError::InvalidAddressingMode(address_mode)),
        }
    }
}

impl Default for MOS6502 {
    /// The reset state, the same one [`MOS6502::new`] builds.
    fn default() -> (cpu: MOS6502)
        ensures
            cpu.regs() == (Registers { a: 0u8, x: 0u8, y: 0u8, sp: 0xffu8, sr: (FLAG_UNUSED
                | FLAG_BREAK) as u8, pc: 0u16 }),
            cpu.spec_cycles() == 0,
    {
        MOS6502::new()
    }
}

} // verus!
