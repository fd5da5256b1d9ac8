use mos6502::cpu::{EmuError, Memory, CPU};
use mos6502::flags::Flag;

#[test]
fn test_0xa9_lda_immediate_load_data() {
    let mut cpu: CPU = CPU::new();
    let program = vec![0xA9, 0x05, 0x00];

    cpu.load_and_run(program).unwrap();

    assert!(cpu.status & 0b0000_0010 == 0b00);
    assert!(cpu.status & 0b1000_0000 == 0);
}

#[test]
fn test_0xa9_lda_zero_flag() {
    let mut cpu: CPU = CPU::new();
    let program = vec![0xA9, 0x00, 0x00];

    cpu.load_and_run(program).unwrap();

    assert!(cpu.status & 0b0000_0010 == 0b10);
}

#[test]
fn test_0xaa_tax_move_a_to_x() {
    let mut cpu: CPU = CPU::new();
    let program = vec![0xAA, 0x00];

    cpu.load(program).unwrap();
    cpu.reset_interrupt();
    cpu.register_a = 10;
    cpu.run().unwrap();

    assert_eq!(cpu.register_x, 10)
}

#[test]
fn test_5_ops_working_together() {
    let mut cpu: CPU = CPU::new();

    let program = vec![0xA9, 0xC0, 0xAA, 0xE8, 0x00];

    cpu.load_and_run(program).unwrap();

    assert_eq!(cpu.register_x, 0xC1)
}

#[test]
fn test_int_overflow() {
    let mut cpu: CPU = CPU::new();
    let program = vec![0xE8, 0xE8, 0x00];

    cpu.load(program).unwrap();
    cpu.reset_interrupt();
    cpu.register_x = 0xff;
    cpu.run().unwrap();

    assert_eq!(cpu.register_x, 1)
}

#[test]
fn test_match_bit_and() {
    let a = 32 & 1;
    let b = 16 & 3;
    let c = 183 & 32;

    let a_match = match a {
        1 => true,
        _ => false,
    };

    let a_if;
    if a == 1 {
        a_if = true;
    } else {
        a_if = false;
    }

    let b_match = match b {
        1 => true,
        _ => false,
    };

    let b_if;
    if b == 1 {
        b_if = true;
    } else {
        b_if = false;
    }

    let c_match = match c {
        1 => true,
        _ => false,
    };

    let c_if;
    if c == 1 {
        c_if = true;
    } else {
        c_if = false;
    }

    assert_eq!(a_match, a_if);
    assert_eq!(b_match, b_if);
    assert_eq!(c_match, c_if);
}

#[test]
fn lda_immediate_value_lands_in_accumulator() {
    let mut cpu = CPU::new();
    cpu.load_and_run(vec![0xA9, 0x05, 0x00]).unwrap();
    assert_eq!(cpu.register_a, 5);
    assert!(cpu.status & 0b0000_0010 == 0);
    assert!(cpu.status & 0b1000_0000 == 0);
}

#[test]
fn adc_signed_overflow_sets_overflow_flag() {
    // 0x50 + 0x50 with Carry clear: result 0xA0, Overflow set, Carry clear.
    let mut cpu = CPU::new();
    cpu.load_and_run(vec![0xA9, 0x50, 0x69, 0x50, 0x00]).unwrap();
    assert_eq!(cpu.register_a, 0xA0);
    assert!(cpu.status & 0x40 != 0);
    assert!(cpu.status & 0x01 == 0);
}

#[test]
fn adc_carry_out_and_zero() {
    // 0xFF + 0x01: result 0x00, Carry set, Zero set.
    let mut cpu = CPU::new();
    cpu.load_and_run(vec![0xA9, 0xFF, 0x69, 0x01, 0x00]).unwrap();
    assert_eq!(cpu.register_a, 0x00);
    assert!(cpu.status & 0x01 != 0);
    assert!(cpu.status & 0x02 != 0);
}

#[test]
fn sbc_subtracts_with_borrow() {
    // SEC; LDA #0x15; SBC #0x08 leaves 0x0D with Carry still set.
    let mut cpu = CPU::new();
    cpu.load_and_run(vec![0x38, 0xA9, 0x15, 0xE9, 0x08, 0x00]).unwrap();
    assert_eq!(cpu.register_a, 0x0D);
    assert!(cpu.status & 0x01 != 0);
}

#[test]
fn jmp_indirect_page_boundary_bug() {
    // JMP ($30FF) with 0x80 at $30FF, 0x40 at $3000 and 0x50 at $3100 must
    // transfer control to $4080 (high byte from the start of the same page),
    // not $5080.
    let mut cpu = CPU::new();
    cpu.load(vec![0x6C, 0xFF, 0x30]).unwrap();
    cpu.reset_interrupt();
    cpu.mem_write(0x30FF, 0x80);
    cpu.mem_write(0x3000, 0x40);
    cpu.mem_write(0x3100, 0x50);
    cpu.run().unwrap();
    // The byte at $4080 is 0 (BRK), so the counter halts just past it.
    assert_eq!(cpu.counter, 0x4081);
}

#[test]
fn stack_u16_round_trip() {
    let mut cpu = CPU::new();
    for &value in [0x0000u16, 0x0001, 0x00FF, 0x0100, 0xBEEF, 0xFFFF].iter() {
        let sp_before = cpu.stack_pointer;
        cpu.stack_push_u16(value);
        assert_eq!(cpu.stack_pointer, sp_before.wrapping_sub(2));
        assert_eq!(cpu.stack_pull_u16(), value);
        assert_eq!(cpu.stack_pointer, sp_before);
    }
}

#[test]
fn stack_u8_round_trip_wraps_pointer() {
    let mut cpu = CPU::new();
    cpu.stack_pointer = 0x00;
    cpu.stack_push(0x7A);
    assert_eq!(cpu.stack_pointer, 0xFF);
    assert_eq!(cpu.stack_pull(), 0x7A);
    assert_eq!(cpu.stack_pointer, 0x00);
}

#[test]
fn jsr_rts_round_trip() {
    // JSR $8005; INX; BRK; with RTS at $8005.  The subroutine returns to the
    // instruction after the JSR, so INX runs and BRK halts at $8004.
    let mut cpu = CPU::new();
    cpu.load_and_run(vec![0x20, 0x05, 0x80, 0xE8, 0x00, 0x60]).unwrap();
    assert_eq!(cpu.register_x, 1);
    assert_eq!(cpu.counter, 0x8005);
    assert_eq!(cpu.stack_pointer, 0xFD);
}

#[test]
fn illegal_opcode_is_reported() {
    let mut cpu = CPU::new();
    let result = cpu.load_and_run(vec![0x02]);
    assert_eq!(
        result,
        Err(EmuError::IllegalOpcode { opcode: 0x02, address: 0x8000 })
    );
}

#[test]
fn oversized_program_is_rejected() {
    let mut cpu = CPU::new();
    assert_eq!(cpu.load(vec![0xEA; 0x8001]), Err(EmuError::ProgramTooLarge));
    // The rejected image must leave memory untouched.
    assert_eq!(cpu.mem_read(0x8000), 0);
}

#[test]
fn full_window_program_is_accepted() {
    let mut cpu = CPU::new();
    cpu.load(vec![0xEA; 0x8000]).unwrap();
    assert_eq!(cpu.mem_read(0x8000), 0xEA);
    assert_eq!(cpu.mem_read(0xFFFB), 0xEA);
    // The reset vector is written after the copy.
    assert_eq!(cpu.mem_read_u16(0xFFFC), 0x8000);
}

#[test]
fn asl_accumulator_shifts_into_carry() {
    let mut cpu = CPU::new();
    cpu.load_and_run(vec![0xA9, 0x81, 0x0A, 0x00]).unwrap();
    assert_eq!(cpu.register_a, 0x02);
    assert!(cpu.status & 0x01 != 0);
}

#[test]
fn lsr_memory_shifts_in_place() {
    let mut cpu = CPU::new();
    cpu.load(vec![0x46, 0x10, 0x00]).unwrap();
    cpu.reset_interrupt();
    cpu.mem_write(0x10, 0x05);
    cpu.run().unwrap();
    assert_eq!(cpu.mem_read(0x10), 0x02);
    assert!(cpu.status & 0x01 != 0);
}

#[test]
fn ror_accumulator_rotates_carry_into_bit7() {
    // SEC; LDA #0x02; ROR A: result 0x81, Carry clear, Negative set.
    let mut cpu = CPU::new();
    cpu.load_and_run(vec![0x38, 0xA9, 0x02, 0x6A, 0x00]).unwrap();
    assert_eq!(cpu.register_a, 0x81);
    assert!(cpu.status & 0x01 == 0);
    assert!(cpu.status & 0x80 != 0);
}

#[test]
fn rol_memory_rotates_carry_into_bit0() {
    // SEC then ROL $10 where $10 holds 0x80: result 0x01, Carry set.
    let mut cpu = CPU::new();
    cpu.load(vec![0x38, 0x26, 0x10, 0x00]).unwrap();
    cpu.reset_interrupt();
    cpu.mem_write(0x10, 0x80);
    cpu.run().unwrap();
    assert_eq!(cpu.mem_read(0x10), 0x01);
    assert!(cpu.status & 0x01 != 0);
}

#[test]
fn cmp_equal_sets_zero_and_carry() {
    let mut cpu = CPU::new();
    cpu.load_and_run(vec![0xA9, 0x10, 0xC9, 0x10, 0x00]).unwrap();
    assert!(cpu.status & 0x02 != 0);
    assert!(cpu.status & 0x01 != 0);
}

#[test]
fn bne_taken_skips_over_brk() {
    // LDA #1 clears Zero; BNE +1 hops over the BRK at $8004 onto INX.
    let mut cpu = CPU::new();
    cpu.load_and_run(vec![0xA9, 0x01, 0xD0, 0x01, 0x00, 0xE8, 0x00]).unwrap();
    assert_eq!(cpu.register_x, 1);
}

#[test]
fn beq_not_taken_falls_through() {
    // LDA #1 clears Zero; BEQ is not taken, so the BRK right after it halts
    // the run before the INX.
    let mut cpu = CPU::new();
    cpu.load_and_run(vec![0xA9, 0x01, 0xF0, 0x01, 0x00, 0xE8, 0x00]).unwrap();
    assert_eq!(cpu.register_x, 0);
    assert_eq!(cpu.counter, 0x8005);
}

#[test]
fn branch_backward_offset_is_signed() {
    // INX; CPX #3; BNE -5 loops back to the start until X reaches 3.
    let mut cpu = CPU::new();
    cpu.load_and_run(vec![0xE8, 0xE0, 0x03, 0xD0, 0xFB, 0x00]).unwrap();
    assert_eq!(cpu.register_x, 3);
}

#[test]
fn pha_pla_round_trip() {
    let mut cpu = CPU::new();
    cpu.load_and_run(vec![0xA9, 0x42, 0x48, 0xA9, 0x00, 0x68, 0x00]).unwrap();
    assert_eq!(cpu.register_a, 0x42);
}

#[test]
fn php_forces_break_bits_and_plp_clears_them() {
    // PHP; PLA: the pushed status byte has both break-command bits set on
    // top of the reset status 0x24.
    let mut cpu = CPU::new();
    cpu.load_and_run(vec![0x08, 0x68, 0x00]).unwrap();
    assert_eq!(cpu.register_a, 0x24 | 0x30);

    // LDA #0xFF; PHA; PLP: the pulled status drops the break-command bits.
    let mut cpu = CPU::new();
    cpu.load_and_run(vec![0xA9, 0xFF, 0x48, 0x28, 0x00]).unwrap();
    assert_eq!(cpu.status, 0xFF & !0x30);
}

#[test]
fn sta_then_lda_zero_page() {
    let mut cpu = CPU::new();
    cpu.load_and_run(vec![0xA9, 0x07, 0x85, 0x10, 0xA9, 0x00, 0xA5, 0x10, 0x00]).unwrap();
    assert_eq!(cpu.register_a, 7);
    assert_eq!(cpu.mem_read(0x10), 7);
}

#[test]
fn inc_memory_wraps_to_zero() {
    let mut cpu = CPU::new();
    cpu.load(vec![0xE6, 0x10, 0x00]).unwrap();
    cpu.reset_interrupt();
    cpu.mem_write(0x10, 0xFF);
    cpu.run().unwrap();
    assert_eq!(cpu.mem_read(0x10), 0);
    assert!(cpu.status & 0x02 != 0);
}

#[test]
fn bit_copies_operand_bits_to_flags() {
    // LDA #0x0F; BIT $10 where $10 holds 0xC0: A & M == 0 sets Zero, and
    // bits 7/6 of the operand land in Negative/Overflow.
    let mut cpu = CPU::new();
    cpu.load(vec![0xA9, 0x0F, 0x24, 0x10, 0x00]).unwrap();
    cpu.reset_interrupt();
    cpu.mem_write(0x10, 0xC0);
    cpu.run().unwrap();
    assert!(cpu.status & 0x02 != 0);
    assert!(cpu.status & 0x80 != 0);
    assert!(cpu.status & 0x40 != 0);
}

#[test]
fn update_flag_rules() {
    let mut cpu = CPU::new();
    cpu.update_flag(Flag::Zero, 0);
    assert!(cpu.status & 0x02 != 0);
    cpu.update_flag(Flag::Zero, 5);
    assert!(cpu.status & 0x02 == 0);
    cpu.update_flag(Flag::Negative, 0x80);
    assert!(cpu.status & 0x80 != 0);
    cpu.update_flag(Flag::Negative, 0x7F);
    assert!(cpu.status & 0x80 == 0);
}

#[test]
fn flag_masks_match_hardware_layout() {
    assert_eq!(Flag::Carry.mask(), 0x01);
    assert_eq!(Flag::Zero.mask(), 0x02);
    assert_eq!(Flag::InterruptDisable.mask(), 0x04);
    assert_eq!(Flag::DecimalMode.mask(), 0x08);
    assert_eq!(Flag::BreakCommand.mask(), 0x10);
    assert_eq!(Flag::BreakCommand2.mask(), 0x20);
    assert_eq!(Flag::Overflow.mask(), 0x40);
    assert_eq!(Flag::Negative.mask(), 0x80);
}
