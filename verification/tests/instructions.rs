use mos6502::error::BusError;
use mos6502::error::CpuError;
use mos6502::memory::Ram;
use mos6502::mos6502::AddressingMode;
use mos6502::mos6502::Bus;
use mos6502::mos6502::CpuFlags;
use mos6502::mos6502::MOS6502;

fn full_ram() -> Ram {
    Ram::new(0x10000)
}

fn load(ram: &mut Ram, start: u16, bytes: &[u8]) {
    for (i, b) in bytes.iter().enumerate() {
        ram.write(start.wrapping_add(i as u16), *b).expect("program load failed");
    }
}

#[test]
fn test_lda_zeropage_x_index() {
    let program_start: u16 = 0xfffc;
    let acc_value: u8 = 0xee;
    let zp_addr: u8 = 0xa1;
    let offset: u8 = 0x02;
    let cycles_to_run: u128 = 4;

    let mut ram = full_ram();
    let mut cpu = MOS6502::new();

    ram.write(program_start, 0xa2).unwrap();
    ram.write(program_start + 1, offset).unwrap();

    ram.write(zp_addr as u16 + offset as u16, acc_value).unwrap();

    ram.write(program_start + 2, 0xb5).unwrap();
    ram.write(program_start + 3, zp_addr).unwrap();

    cpu.set_program_counter(program_start);
    cpu.run_for_cycles(&mut ram, cycles_to_run).unwrap();
    // LDX immediate costs 2 cycles and LDA zero-page,X costs 4, so reaching a
    // target of 4 cycles takes both instructions and 6 cycles in all.
    assert_eq!(cpu.get_cycles(), 6);
    assert_eq!(cpu.x_register(), offset);
    assert_eq!(cpu.accumulator(), acc_value);
}

#[test]
fn test_load_sets_zero_and_negative() {
    let mut ram = full_ram();
    let mut cpu = MOS6502::new();
    load(&mut ram, 0x0200, &[0xa9, 0x00, 0xa9, 0x80, 0xa9, 0x01]);
    cpu.set_program_counter(0x0200);

    cpu.step(&mut ram).unwrap();
    assert!(cpu.flag_check(CpuFlags::zero()));
    assert!(!cpu.flag_check(CpuFlags::negative()));

    cpu.step(&mut ram).unwrap();
    assert!(!cpu.flag_check(CpuFlags::zero()));
    assert!(cpu.flag_check(CpuFlags::negative()));

    cpu.step(&mut ram).unwrap();
    assert!(!cpu.flag_check(CpuFlags::zero()));
    assert!(!cpu.flag_check(CpuFlags::negative()));
}

#[test]
fn test_adc_wraps_and_sets_carry_and_zero() {
    let mut ram = full_ram();
    let mut cpu = MOS6502::new();
    // LDA #$FF; CLC; ADC #$01
    load(&mut ram, 0x0200, &[0xa9, 0xff, 0x18, 0x69, 0x01]);
    cpu.set_program_counter(0x0200);
    cpu.step(&mut ram).unwrap();
    cpu.step(&mut ram).unwrap();
    cpu.step(&mut ram).unwrap();
    assert_eq!(cpu.accumulator(), 0x00);
    assert!(cpu.flag_check(CpuFlags::carry()));
    assert!(cpu.flag_check(CpuFlags::zero()));
    assert!(!cpu.flag_check(CpuFlags::overflow()));
    assert!(!cpu.flag_check(CpuFlags::negative()));
}

#[test]
fn test_adc_signed_overflow() {
    let mut ram = full_ram();
    let mut cpu = MOS6502::new();
    // LDA #$50; CLC; ADC #$50 -> 0xA0, signed overflow, negative
    load(&mut ram, 0x0200, &[0xa9, 0x50, 0x18, 0x69, 0x50]);
    cpu.set_program_counter(0x0200);
    for _ in 0..3 {
        cpu.step(&mut ram).unwrap();
    }
    assert_eq!(cpu.accumulator(), 0xa0);
    assert!(cpu.flag_check(CpuFlags::overflow()));
    assert!(cpu.flag_check(CpuFlags::negative()));
    assert!(!cpu.flag_check(CpuFlags::carry()));
}

#[test]
fn test_sbc_subtracts_with_borrow_semantics() {
    let mut ram = full_ram();
    let mut cpu = MOS6502::new();
    // LDA #$50; SEC; SBC #$10 -> 0x40, carry still set (no borrow)
    load(&mut ram, 0x0200, &[0xa9, 0x50, 0x38, 0xe9, 0x10]);
    cpu.set_program_counter(0x0200);
    for _ in 0..3 {
        cpu.step(&mut ram).unwrap();
    }
    assert_eq!(cpu.accumulator(), 0x40);
    assert!(cpu.flag_check(CpuFlags::carry()));
    assert!(!cpu.flag_check(CpuFlags::overflow()));
}

#[test]
fn test_sbc_matches_adc_of_complement() {
    // SBC of v behaves bit for bit as ADC of !v, flags included.
    let operand: u8 = 0x10;
    let complement: u8 = !operand;

    let mut ram1 = full_ram();
    let mut cpu1 = MOS6502::new();
    load(&mut ram1, 0x0200, &[0xa9, 0x50, 0x38, 0xe9, operand]);
    cpu1.set_program_counter(0x0200);
    for _ in 0..3 {
        cpu1.step(&mut ram1).unwrap();
    }

    let mut ram2 = full_ram();
    let mut cpu2 = MOS6502::new();
    load(&mut ram2, 0x0200, &[0xa9, 0x50, 0x38, 0x69, complement]);
    cpu2.set_program_counter(0x0200);
    for _ in 0..3 {
        cpu2.step(&mut ram2).unwrap();
    }

    assert_eq!(cpu1.accumulator(), cpu2.accumulator());
    for mask in [0x01u8, 0x02, 0x40, 0x80] {
        assert_eq!(
            cpu1.flag_check(CpuFlags::from_bits(mask)),
            cpu2.flag_check(CpuFlags::from_bits(mask))
        );
    }
}

#[test]
fn test_compare_equal_sets_zero_and_carry() {
    let mut ram = full_ram();
    let mut cpu = MOS6502::new();
    // LDA #$10; CMP #$10; CMP #$20; CMP #$01
    load(&mut ram, 0x0200, &[0xa9, 0x10, 0xc9, 0x10, 0xc9, 0x20, 0xc9, 0x01]);
    cpu.set_program_counter(0x0200);
    cpu.step(&mut ram).unwrap();

    cpu.step(&mut ram).unwrap();
    assert!(cpu.flag_check(CpuFlags::zero()));
    assert!(cpu.flag_check(CpuFlags::carry()));

    cpu.step(&mut ram).unwrap();
    assert!(!cpu.flag_check(CpuFlags::zero()));
    assert!(!cpu.flag_check(CpuFlags::carry()));
    assert!(cpu.flag_check(CpuFlags::negative()));

    cpu.step(&mut ram).unwrap();
    assert!(!cpu.flag_check(CpuFlags::zero()));
    assert!(cpu.flag_check(CpuFlags::carry()));
}

#[test]
fn test_bit_copies_operand_bits() {
    let mut ram = full_ram();
    let mut cpu = MOS6502::new();
    ram.write(0x0040, 0xc0).unwrap();
    // LDA #$00; BIT $40
    load(&mut ram, 0x0200, &[0xa9, 0x00, 0x24, 0x40]);
    cpu.set_program_counter(0x0200);
    cpu.step(&mut ram).unwrap();
    cpu.step(&mut ram).unwrap();
    assert!(cpu.flag_check(CpuFlags::negative()));
    assert!(cpu.flag_check(CpuFlags::overflow()));
    assert!(cpu.flag_check(CpuFlags::zero()));
    assert_eq!(cpu.accumulator(), 0x00);
}

#[test]
fn test_shifts_and_rotates() {
    let mut ram = full_ram();
    let mut cpu = MOS6502::new();
    // LDA #$81; ASL A -> 0x02 with carry out of bit 7
    load(&mut ram, 0x0200, &[0xa9, 0x81, 0x0a]);
    cpu.set_program_counter(0x0200);
    cpu.step(&mut ram).unwrap();
    cpu.step(&mut ram).unwrap();
    assert_eq!(cpu.accumulator(), 0x02);
    assert!(cpu.flag_check(CpuFlags::carry()));
    assert!(!cpu.flag_check(CpuFlags::negative()));

    // LDA #$01; LSR A -> 0x00, carry out of bit 0, zero, never negative
    load(&mut ram, 0x0210, &[0xa9, 0x01, 0x4a]);
    cpu.set_program_counter(0x0210);
    cpu.step(&mut ram).unwrap();
    cpu.step(&mut ram).unwrap();
    assert_eq!(cpu.accumulator(), 0x00);
    assert!(cpu.flag_check(CpuFlags::carry()));
    assert!(cpu.flag_check(CpuFlags::zero()));
    assert!(!cpu.flag_check(CpuFlags::negative()));

    // SEC; LDA #$01; ROR A -> carry enters at bit 7, bit 0 leaves into carry
    load(&mut ram, 0x0220, &[0x38, 0xa9, 0x01, 0x6a]);
    cpu.set_program_counter(0x0220);
    for _ in 0..3 {
        cpu.step(&mut ram).unwrap();
    }
    assert_eq!(cpu.accumulator(), 0x80);
    assert!(cpu.flag_check(CpuFlags::carry()));
    assert!(cpu.flag_check(CpuFlags::negative()));

    // CLC; LDA #$80; ROL A -> 0x00 with carry out
    load(&mut ram, 0x0230, &[0x18, 0xa9, 0x80, 0x2a]);
    cpu.set_program_counter(0x0230);
    for _ in 0..3 {
        cpu.step(&mut ram).unwrap();
    }
    assert_eq!(cpu.accumulator(), 0x00);
    assert!(cpu.flag_check(CpuFlags::carry()));
    assert!(cpu.flag_check(CpuFlags::zero()));
}

#[test]
fn test_shift_memory_in_place() {
    let mut ram = full_ram();
    let mut cpu = MOS6502::new();
    ram.write(0x0040, 0x40).unwrap();
    // ASL $40 -> memory byte doubled in place
    load(&mut ram, 0x0200, &[0x06, 0x40]);
    cpu.set_program_counter(0x0200);
    cpu.step(&mut ram).unwrap();
    assert_eq!(ram.read(0x0040).unwrap(), 0x80);
    assert!(cpu.flag_check(CpuFlags::negative()));
}

#[test]
fn test_inc_dec_wrap() {
    let mut ram = full_ram();
    let mut cpu = MOS6502::new();
    ram.write(0x0040, 0xff).unwrap();
    // INC $40 wraps to zero; DEC $40 wraps back to 0xFF
    load(&mut ram, 0x0200, &[0xe6, 0x40, 0xc6, 0x40]);
    cpu.set_program_counter(0x0200);
    cpu.step(&mut ram).unwrap();
    assert_eq!(ram.read(0x0040).unwrap(), 0x00);
    assert!(cpu.flag_check(CpuFlags::zero()));
    cpu.step(&mut ram).unwrap();
    assert_eq!(ram.read(0x0040).unwrap(), 0xff);
    assert!(cpu.flag_check(CpuFlags::negative()));
}

#[test]
fn test_register_steps_and_transfers() {
    let mut ram = full_ram();
    let mut cpu = MOS6502::new();
    // LDX #$FF; INX; LDY #$00; DEY; TXA; TAY; TSX
    load(&mut ram, 0x0200, &[0xa2, 0xff, 0xe8, 0xa0, 0x00, 0x88, 0x8a, 0xa8, 0xba]);
    cpu.set_program_counter(0x0200);
    cpu.step(&mut ram).unwrap();
    cpu.step(&mut ram).unwrap();
    assert_eq!(cpu.x_register(), 0x00);
    assert!(cpu.flag_check(CpuFlags::zero()));
    cpu.step(&mut ram).unwrap();
    cpu.step(&mut ram).unwrap();
    assert_eq!(cpu.y_register(), 0xff);
    assert!(cpu.flag_check(CpuFlags::negative()));
    cpu.step(&mut ram).unwrap();
    assert_eq!(cpu.accumulator(), 0x00);
    cpu.step(&mut ram).unwrap();
    assert_eq!(cpu.y_register(), 0x00);
    cpu.step(&mut ram).unwrap();
    assert_eq!(cpu.x_register(), 0xff);
}

#[test]
fn test_txs_sets_no_flags() {
    let mut ram = full_ram();
    let mut cpu = MOS6502::new();
    // LDX #$00 sets Zero; TXS must leave the flags alone
    load(&mut ram, 0x0200, &[0xa2, 0x00, 0x9a]);
    cpu.set_program_counter(0x0200);
    cpu.step(&mut ram).unwrap();
    assert!(cpu.flag_check(CpuFlags::zero()));
    cpu.step(&mut ram).unwrap();
    assert_eq!(cpu.stack_pointer(), 0x00);
    assert!(cpu.flag_check(CpuFlags::zero()));
}

#[test]
fn test_logical_instructions() {
    let mut ram = full_ram();
    let mut cpu = MOS6502::new();
    // LDA #$F0; AND #$3C -> 0x30; ORA #$01 -> 0x31; EOR #$31 -> 0x00
    load(&mut ram, 0x0200, &[0xa9, 0xf0, 0x29, 0x3c, 0x09, 0x01, 0x49, 0x31]);
    cpu.set_program_counter(0x0200);
    cpu.step(&mut ram).unwrap();
    cpu.step(&mut ram).unwrap();
    assert_eq!(cpu.accumulator(), 0x30);
    cpu.step(&mut ram).unwrap();
    assert_eq!(cpu.accumulator(), 0x31);
    cpu.step(&mut ram).unwrap();
    assert_eq!(cpu.accumulator(), 0x00);
    assert!(cpu.flag_check(CpuFlags::zero()));
}

#[test]
fn test_store_writes_register_to_memory() {
    let mut ram = full_ram();
    let mut cpu = MOS6502::new();
    // LDA #$AB; STA $40; LDX #$CD; STX $41; LDY #$EF; STY $42
    load(
        &mut ram,
        0x0200,
        &[0xa9, 0xab, 0x85, 0x40, 0xa2, 0xcd, 0x86, 0x41, 0xa0, 0xef, 0x84, 0x42],
    );
    cpu.set_program_counter(0x0200);
    for _ in 0..6 {
        cpu.step(&mut ram).unwrap();
    }
    assert_eq!(ram.read(0x0040).unwrap(), 0xab);
    assert_eq!(ram.read(0x0041).unwrap(), 0xcd);
    assert_eq!(ram.read(0x0042).unwrap(), 0xef);
}

#[test]
fn test_unassigned_opcode_reports_not_implemented() {
    let mut ram = full_ram();
    let mut cpu = MOS6502::new();
    load(&mut ram, 0x0200, &[0x02]);
    cpu.set_program_counter(0x0200);
    assert_eq!(cpu.step(&mut ram), Err(CpuError::OpcodeNotImplemented));
}

#[test]
fn test_fetch_outside_memory_is_invalid_read() {
    let mut ram = Ram::new(0x0200);
    let mut cpu = MOS6502::new();
    cpu.set_program_counter(0x0500);
    assert_eq!(
        cpu.step(&mut ram),
        Err(CpuError::InvalidBusOperation(BusError::InvalidRead(0x0500)))
    );
}

#[test]
fn test_store_outside_memory_is_invalid_write() {
    let mut ram = Ram::new(0x0200);
    let mut cpu = MOS6502::new();
    // STA $0500 with only 0x0200 bytes mapped
    load(&mut ram, 0x0100, &[0x8d, 0x00, 0x05]);
    cpu.set_program_counter(0x0100);
    assert_eq!(
        cpu.step(&mut ram),
        Err(CpuError::InvalidBusOperation(BusError::InvalidWrite(0x0500)))
    );
}

#[test]
fn test_handler_rejects_operand_shape_it_cannot_use() {
    let mut ram = full_ram();
    let mut cpu = MOS6502::new();
    assert_eq!(
        cpu.lda(&mut ram, AddressingMode::Implied),
        Err(CpuError::InvalidAddressingMode(AddressingMode::Implied))
    );
    assert_eq!(
        cpu.sta(&mut ram, AddressingMode::Immediate),
        Err(CpuError::InvalidAddressingMode(AddressingMode::Immediate))
    );
}
