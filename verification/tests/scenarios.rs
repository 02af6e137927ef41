use mos6502::memory::Ram;
use mos6502::mos6502::decode::decode;
use mos6502::mos6502::decode::Cycles;
use mos6502::mos6502::decode::Instruction;
use mos6502::mos6502::AddressingMode;
use mos6502::mos6502::Bus;
use mos6502::mos6502::CpuFlags;
use mos6502::mos6502::MOS6502;

fn fresh_ram() -> Ram {
    Ram::new(0x10000)
}

fn install(ram: &mut Ram, start: u16, bytes: &[u8]) {
    for (i, b) in bytes.iter().enumerate() {
        ram.write(start.wrapping_add(i as u16), *b).expect("program install failed");
    }
}

#[test]
fn test_ldx_immediate_at_top_of_memory() {
    // LDX #$EE at 0xFFFC: one step loads X, costs 2 cycles, and leaves the
    // program counter at 0xFFFE.
    let mut ram = fresh_ram();
    let mut cpu = MOS6502::new();
    install(&mut ram, 0xfffc, &[0xa2, 0xee]);
    cpu.set_program_counter(0xfffc);
    let elapsed = cpu.step(&mut ram).unwrap();
    assert_eq!(cpu.x_register(), 0xee);
    assert_eq!(elapsed, 2);
    assert_eq!(cpu.get_cycles(), 2);
    assert_eq!(cpu.program_counter(), 0xfffe);
}

#[test]
fn test_ldx_then_lda_zeropage_x_costs_six_cycles() {
    // LDX #$02; LDA $A1,X at 0xFFFC with 0xEE stored at 0x00A3: two steps
    // leave the accumulator holding 0xEE for 6 cycles in all.
    let mut ram = fresh_ram();
    let mut cpu = MOS6502::new();
    install(&mut ram, 0xfffc, &[0xa2, 0x02, 0xb5, 0xa1]);
    ram.write(0x00a1 + 0x02, 0xee).unwrap();
    cpu.set_program_counter(0xfffc);
    let first = cpu.step(&mut ram).unwrap();
    let second = cpu.step(&mut ram).unwrap();
    assert_eq!(cpu.accumulator(), 0xee);
    assert_eq!(cpu.x_register(), 0x02);
    assert_eq!(first + second, 6);
    assert_eq!(cpu.get_cycles(), 6);
}

#[test]
fn test_branch_cycle_costs() {
    // Not taken: the table's fixed 2 cycles.
    let mut ram = fresh_ram();
    let mut cpu = MOS6502::new();
    install(&mut ram, 0x0200, &[0xf0, 0x05]);
    cpu.set_program_counter(0x0200);
    assert_eq!(cpu.step(&mut ram).unwrap(), 2);
    assert_eq!(cpu.program_counter(), 0x0202);

    // Taken within the same page: 3 cycles.
    let mut cpu = MOS6502::new();
    install(&mut ram, 0x0210, &[0xa9, 0x00, 0xf0, 0x05]);
    cpu.set_program_counter(0x0210);
    cpu.step(&mut ram).unwrap();
    assert_eq!(cpu.step(&mut ram).unwrap(), 3);
    assert_eq!(cpu.program_counter(), 0x0219);

    // Taken across a page boundary: 4 cycles.
    let mut cpu = MOS6502::new();
    install(&mut ram, 0x02f0, &[0xa9, 0x00, 0xf0, 0x20]);
    cpu.set_program_counter(0x02f0);
    cpu.step(&mut ram).unwrap();
    assert_eq!(cpu.step(&mut ram).unwrap(), 4);
    assert_eq!(cpu.program_counter(), 0x0314);
}

#[test]
fn test_jsr_rts_round_trip() {
    let mut ram = fresh_ram();
    let mut cpu = MOS6502::new();
    // JSR $1234 at 0x0200; RTS at 0x1234.
    install(&mut ram, 0x0200, &[0x20, 0x34, 0x12]);
    install(&mut ram, 0x1234, &[0x60]);
    cpu.set_program_counter(0x0200);
    let sp_before = cpu.stack_pointer();

    assert_eq!(cpu.step(&mut ram).unwrap(), 6);
    assert_eq!(cpu.program_counter(), 0x1234);
    assert_eq!(cpu.stack_pointer(), sp_before.wrapping_sub(2));
    // The pushed return address is the JSR's own last byte, 0x0202.
    assert_eq!(ram.read(0x01ff).unwrap(), 0x02);
    assert_eq!(ram.read(0x01fe).unwrap(), 0x02);

    assert_eq!(cpu.step(&mut ram).unwrap(), 6);
    assert_eq!(cpu.program_counter(), 0x0203);
    assert_eq!(cpu.stack_pointer(), sp_before);
}

#[test]
fn test_jmp_absolute_and_indirect() {
    let mut ram = fresh_ram();
    let mut cpu = MOS6502::new();
    install(&mut ram, 0x0200, &[0x4c, 0x00, 0x30]);
    cpu.set_program_counter(0x0200);
    assert_eq!(cpu.step(&mut ram).unwrap(), 3);
    assert_eq!(cpu.program_counter(), 0x3000);

    // JMP ($3100) with the pointer naming 0x4020.
    install(&mut ram, 0x3000, &[0x6c, 0x00, 0x31]);
    install(&mut ram, 0x3100, &[0x20, 0x40]);
    assert_eq!(cpu.step(&mut ram).unwrap(), 5);
    assert_eq!(cpu.program_counter(), 0x4020);
}

#[test]
fn test_stack_push_pop_round_trip() {
    let mut ram = fresh_ram();
    let mut cpu = MOS6502::new();
    // LDA #$7F; PHA; LDA #$00; PLA restores 0x7F and the stack pointer.
    install(&mut ram, 0x0200, &[0xa9, 0x7f, 0x48, 0xa9, 0x00, 0x68]);
    cpu.set_program_counter(0x0200);
    let sp_before = cpu.stack_pointer();
    cpu.step(&mut ram).unwrap();
    cpu.step(&mut ram).unwrap();
    assert_eq!(cpu.stack_pointer(), sp_before.wrapping_sub(1));
    cpu.step(&mut ram).unwrap();
    assert_eq!(cpu.accumulator(), 0x00);
    cpu.step(&mut ram).unwrap();
    assert_eq!(cpu.accumulator(), 0x7f);
    assert_eq!(cpu.stack_pointer(), sp_before);
}

#[test]
fn test_stack_pointer_wraps_after_256_pushes() {
    let mut ram = fresh_ram();
    let mut cpu = MOS6502::new();
    install(&mut ram, 0x0200, &[0x48]);
    let sp_before = cpu.stack_pointer();
    for _ in 0..256 {
        cpu.set_program_counter(0x0200);
        cpu.step(&mut ram).unwrap();
    }
    assert_eq!(cpu.stack_pointer(), sp_before);
}

#[test]
fn test_php_plp_force_break_and_unused() {
    let mut ram = fresh_ram();
    let mut cpu = MOS6502::new();
    // SEC; PHP pushes the status with Break and Unused forced set.
    install(&mut ram, 0x0200, &[0x38, 0x08]);
    cpu.set_program_counter(0x0200);
    cpu.step(&mut ram).unwrap();
    cpu.step(&mut ram).unwrap();
    assert_eq!(ram.read(0x01ff).unwrap(), 0x31);

    // Writing a cleared status image and pulling it back still shows Break
    // and Unused set.
    let mut cpu = MOS6502::new();
    // LDA #$00; PHA; PLP
    install(&mut ram, 0x0210, &[0xa9, 0x00, 0x48, 0x28]);
    cpu.set_program_counter(0x0210);
    for _ in 0..3 {
        cpu.step(&mut ram).unwrap();
    }
    assert!(cpu.flag_check(CpuFlags::break_bit()));
    assert!(cpu.flag_check(CpuFlags::unused()));
    assert!(!cpu.flag_check(CpuFlags::carry()));
    assert!(!cpu.flag_check(CpuFlags::zero()));
}

#[test]
fn test_irq_is_masked_by_no_interrupts() {
    let mut ram = fresh_ram();
    let mut cpu = MOS6502::new();
    install(&mut ram, 0x0200, &[0x78]);
    cpu.set_program_counter(0x0200);
    cpu.step(&mut ram).unwrap();

    let pc = cpu.program_counter();
    let sp = cpu.stack_pointer();
    let a = cpu.accumulator();
    let x = cpu.x_register();
    let y = cpu.y_register();
    let cycles = cpu.get_cycles();

    assert_eq!(cpu.irq(&mut ram), Ok(0));
    assert_eq!(cpu.program_counter(), pc);
    assert_eq!(cpu.stack_pointer(), sp);
    assert_eq!(cpu.accumulator(), a);
    assert_eq!(cpu.x_register(), x);
    assert_eq!(cpu.y_register(), y);
    assert_eq!(cpu.get_cycles(), cycles);
}

#[test]
fn test_irq_enters_through_its_vector_when_unmasked() {
    let mut ram = fresh_ram();
    let mut cpu = MOS6502::new();
    install(&mut ram, 0xfffe, &[0x00, 0x80]);
    cpu.set_program_counter(0x0300);
    let sp_before = cpu.stack_pointer();
    assert_eq!(cpu.irq(&mut ram), Ok(7));
    assert_eq!(cpu.program_counter(), 0x8000);
    assert_eq!(cpu.stack_pointer(), sp_before.wrapping_sub(3));
    assert!(cpu.flag_check(CpuFlags::no_interrupts()));
    // The pushed return address is the interrupted program counter itself,
    // and the pushed status image has Break cleared.
    assert_eq!(ram.read(0x01ff).unwrap(), 0x03);
    assert_eq!(ram.read(0x01fe).unwrap(), 0x00);
    assert_eq!(ram.read(0x01fd).unwrap(), 0x20);
}

#[test]
fn test_nmi_ignores_the_mask() {
    let mut ram = fresh_ram();
    let mut cpu = MOS6502::new();
    // SEI, then NMI still runs its full entry sequence through 0xFFFA.
    install(&mut ram, 0x0200, &[0x78]);
    install(&mut ram, 0xfffa, &[0x00, 0x90]);
    cpu.set_program_counter(0x0200);
    cpu.step(&mut ram).unwrap();
    let sp_before = cpu.stack_pointer();
    assert_eq!(cpu.nmi(&mut ram), Ok(7));
    assert_eq!(cpu.program_counter(), 0x9000);
    assert_eq!(cpu.stack_pointer(), sp_before.wrapping_sub(3));
}

#[test]
fn test_brk_and_rti() {
    let mut ram = fresh_ram();
    let mut cpu = MOS6502::new();
    // BRK at 0x0200, handler at 0x8000 holding RTI.
    install(&mut ram, 0x0200, &[0x00]);
    install(&mut ram, 0xfffe, &[0x00, 0x80]);
    install(&mut ram, 0x8000, &[0x40]);
    cpu.set_program_counter(0x0200);
    let sp_before = cpu.stack_pointer();

    assert_eq!(cpu.step(&mut ram).unwrap(), 7);
    assert_eq!(cpu.program_counter(), 0x8000);
    assert_eq!(cpu.stack_pointer(), sp_before.wrapping_sub(3));
    assert!(cpu.flag_check(CpuFlags::no_interrupts()));
    // The pushed status image of a software interrupt carries Break set.
    assert_eq!(ram.read(0x01fd).unwrap(), 0x30);

    // RTI restores the return address exactly: the byte after BRK's padding.
    assert_eq!(cpu.step(&mut ram).unwrap(), 6);
    assert_eq!(cpu.program_counter(), 0x0202);
    assert_eq!(cpu.stack_pointer(), sp_before);
}

#[test]
fn test_absolute_indexed_page_cross_costs_extra_cycle() {
    let mut ram = fresh_ram();
    let mut cpu = MOS6502::new();
    ram.write(0x1300, 0x5a).unwrap();
    // LDX #$01; LDA $12FF,X crosses into page 0x13.
    install(&mut ram, 0x0200, &[0xa2, 0x01, 0xbd, 0xff, 0x12]);
    cpu.set_program_counter(0x0200);
    cpu.step(&mut ram).unwrap();
    assert_eq!(cpu.step(&mut ram).unwrap(), 5);
    assert_eq!(cpu.accumulator(), 0x5a);

    // Without the crossing the same instruction costs its base 4 cycles.
    let mut cpu = MOS6502::new();
    ram.write(0x1250, 0xa5).unwrap();
    install(&mut ram, 0x0210, &[0xa2, 0x01, 0xbd, 0x4f, 0x12]);
    cpu.set_program_counter(0x0210);
    cpu.step(&mut ram).unwrap();
    assert_eq!(cpu.step(&mut ram).unwrap(), 4);
    assert_eq!(cpu.accumulator(), 0xa5);
}

#[test]
fn test_indexed_indirect_addressing() {
    let mut ram = fresh_ram();
    let mut cpu = MOS6502::new();
    // LDX #$04; LDA ($40,X): the pointer sits at 0x44/0x45.
    ram.write(0x0044, 0x00).unwrap();
    ram.write(0x0045, 0x21).unwrap();
    ram.write(0x2100, 0x99).unwrap();
    install(&mut ram, 0x0200, &[0xa2, 0x04, 0xa1, 0x40]);
    cpu.set_program_counter(0x0200);
    cpu.step(&mut ram).unwrap();
    assert_eq!(cpu.step(&mut ram).unwrap(), 6);
    assert_eq!(cpu.accumulator(), 0x99);
}

#[test]
fn test_indirect_indexed_addressing_with_page_cross() {
    let mut ram = fresh_ram();
    let mut cpu = MOS6502::new();
    // LDY #$01; LDA ($40),Y with the pointer naming 0x21FF: indexing by Y
    // crosses into page 0x22 for one extra cycle.
    ram.write(0x0040, 0xff).unwrap();
    ram.write(0x0041, 0x21).unwrap();
    ram.write(0x2200, 0x77).unwrap();
    install(&mut ram, 0x0200, &[0xa0, 0x01, 0xb1, 0x40]);
    cpu.set_program_counter(0x0200);
    cpu.step(&mut ram).unwrap();
    assert_eq!(cpu.step(&mut ram).unwrap(), 6);
    assert_eq!(cpu.accumulator(), 0x77);
}

#[test]
fn test_decode_binds_opcodes_to_their_entries() {
    let lda_imm = decode(0xa9);
    assert_eq!(lda_imm.inst, Instruction::Lda);
    assert_eq!(lda_imm.mode, AddressingMode::Immediate);
    assert_eq!(lda_imm.cycles, Cycles::Fixed(2));

    let beq = decode(0xf0);
    assert_eq!(beq.inst, Instruction::Beq);
    assert_eq!(beq.mode, AddressingMode::Relative);
    assert_eq!(beq.cycles, Cycles::Variable(2));

    let unassigned = decode(0x02);
    assert_eq!(unassigned.inst, Instruction::NotImplemented);
    assert_eq!(unassigned.cycles, Cycles::Fixed(0));
}

#[test]
fn test_nop_costs_two_cycles_and_changes_nothing() {
    let mut ram = fresh_ram();
    let mut cpu = MOS6502::new();
    install(&mut ram, 0x0200, &[0xea]);
    cpu.set_program_counter(0x0200);
    let a = cpu.accumulator();
    assert_eq!(cpu.step(&mut ram).unwrap(), 2);
    assert_eq!(cpu.accumulator(), a);
    assert_eq!(cpu.program_counter(), 0x0201);
}

#[test]
fn test_set_pc_matches_set_program_counter() {
    let mut cpu = MOS6502::new();
    cpu.set_pc(0x1234);
    assert_eq!(cpu.program_counter(), 0x1234);
    cpu.set_program_counter(0x4321);
    assert_eq!(cpu.program_counter(), 0x4321);
}

#[test]
fn test_flag_bits_accessors() {
    assert_eq!(CpuFlags::carry().bits(), 0x01);
    assert_eq!(CpuFlags::zero().bits(), 0x02);
    assert_eq!(CpuFlags::no_interrupts().bits(), 0x04);
    assert_eq!(CpuFlags::decimal().bits(), 0x08);
    assert_eq!(CpuFlags::break_bit().bits(), 0x10);
    assert_eq!(CpuFlags::unused().bits(), 0x20);
    assert_eq!(CpuFlags::overflow().bits(), 0x40);
    assert_eq!(CpuFlags::negative().bits(), 0x80);
    assert_eq!(CpuFlags::from_bits(0x81).bits(), 0x81);
}

#[test]
fn test_default_is_reset_state() {
    let cpu = MOS6502::default();
    assert_eq!(cpu.accumulator(), 0);
    assert_eq!(cpu.x_register(), 0);
    assert_eq!(cpu.y_register(), 0);
    assert_eq!(cpu.stack_pointer(), 0xff);
    assert_eq!(cpu.program_counter(), 0);
    assert_eq!(cpu.get_cycles(), 0);
    assert!(cpu.flag_check(CpuFlags::unused()));
    assert!(cpu.flag_check(CpuFlags::break_bit()));
    assert!(!cpu.flag_check(CpuFlags::carry()));
}

#[test]
fn test_run_for_cycles_with_target_already_met() {
    let mut ram = fresh_ram();
    let mut cpu = MOS6502::new();
    install(&mut ram, 0x0200, &[0xea, 0xea]);
    cpu.set_program_counter(0x0200);
    cpu.run_for_cycles(&mut ram, 2).unwrap();
    assert_eq!(cpu.get_cycles(), 2);
    let pc = cpu.program_counter();
    // The target is already met: nothing further executes.
    cpu.run_for_cycles(&mut ram, 2).unwrap();
    assert_eq!(cpu.get_cycles(), 2);
    assert_eq!(cpu.program_counter(), pc);
}

#[test]
fn test_zeropage_indexing_wraps_within_the_page() {
    let mut ram = fresh_ram();
    let mut cpu = MOS6502::new();
    // LDX #$20; LDA $F0,X: 0xF0 + 0x20 wraps to 0x10 inside the zero page.
    ram.write(0x0010, 0x42).unwrap();
    install(&mut ram, 0x0200, &[0xa2, 0x20, 0xb5, 0xf0]);
    cpu.set_program_counter(0x0200);
    cpu.step(&mut ram).unwrap();
    cpu.step(&mut ram).unwrap();
    assert_eq!(cpu.accumulator(), 0x42);

    // LDX #$FF; LDA ($05,X): the pre-indexed pointer slot wraps to 0x04.
    let mut cpu = MOS6502::new();
    ram.write(0x0004, 0x00).unwrap();
    ram.write(0x0005, 0x25).unwrap();
    ram.write(0x2500, 0x24).unwrap();
    install(&mut ram, 0x0210, &[0xa2, 0xff, 0xa1, 0x05]);
    cpu.set_program_counter(0x0210);
    cpu.step(&mut ram).unwrap();
    cpu.step(&mut ram).unwrap();
    assert_eq!(cpu.accumulator(), 0x24);
}

#[test]
fn test_branch_backwards() {
    let mut ram = fresh_ram();
    let mut cpu = MOS6502::new();
    // BNE -4 from 0x0210: the offset byte 0xFC moves the program counter
    // back to 0x020E.
    install(&mut ram, 0x0210, &[0xd0, 0xfc]);
    cpu.set_program_counter(0x0210);
    assert_eq!(cpu.step(&mut ram).unwrap(), 3);
    assert_eq!(cpu.program_counter(), 0x020e);
}

#[test]
fn test_program_counter_wraps_at_top_of_memory() {
    let mut ram = fresh_ram();
    let mut cpu = MOS6502::new();
    // LDA immediate with the opcode at 0xFFFF: the operand byte comes from
    // 0x0000 and the program counter wraps to 0x0001.
    ram.write(0xffff, 0xa9).unwrap();
    ram.write(0x0000, 0x5c).unwrap();
    cpu.set_program_counter(0xffff);
    cpu.step(&mut ram).unwrap();
    assert_eq!(cpu.accumulator(), 0x5c);
    assert_eq!(cpu.program_counter(), 0x0001);
}
