use mos6502::cpu::{Memory, Register, CPU};
use mos6502::flags::Flag;
use mos6502::opcodes::{decode, AddressingMode, Operation};

#[test]
fn decode_known_rows() {
    let lda = decode(0xA9).unwrap();
    assert_eq!(lda.operation, Operation::LDA);
    assert_eq!(lda.mode, AddressingMode::IMMEDIATE);
    assert_eq!(lda.length, 2);
    assert_eq!(lda.cycles, 2);

    let jmp = decode(0x6C).unwrap();
    assert_eq!(jmp.operation, Operation::JMP);
    assert_eq!(jmp.mode, AddressingMode::NONE_ADDRESSING);
    assert_eq!(jmp.length, 3);

    let stx = decode(0x96).unwrap();
    assert_eq!(stx.operation, Operation::STX);
    assert_eq!(stx.mode, AddressingMode::ZERO_PAGE_Y);

    let brk = decode(0x00).unwrap();
    assert_eq!(brk.operation, Operation::BRK);
    assert_eq!(brk.length, 1);
    assert_eq!(brk.cycles, 7);
}

#[test]
fn decode_rejects_unofficial_bytes() {
    assert!(decode(0x02).is_none());
    assert!(decode(0xFF).is_none());
    assert!(decode(0x80).is_none());
}

#[test]
fn operand_addr_immediate_and_zero_page() {
    let mut cpu = CPU::new();
    cpu.counter = 0x8001;
    cpu.mem_write(0x8001, 0x42);
    assert_eq!(cpu.get_operand_addr(AddressingMode::IMMEDIATE), 0x8001);
    assert_eq!(cpu.get_operand_addr(AddressingMode::ZERO_PAGE), 0x0042);
}

#[test]
fn operand_addr_zero_page_indexed_wraps() {
    let mut cpu = CPU::new();
    cpu.counter = 0x8001;
    cpu.mem_write(0x8001, 0xFF);
    cpu.register_x = 0x02;
    cpu.register_y = 0x03;
    // An 8-bit pointer that overflows stays within page 0.
    assert_eq!(cpu.get_operand_addr(AddressingMode::ZERO_PAGE_X), 0x0001);
    assert_eq!(cpu.get_operand_addr(AddressingMode::ZERO_PAGE_Y), 0x0002);
}

#[test]
fn operand_addr_absolute_indexed() {
    let mut cpu = CPU::new();
    cpu.counter = 0x8001;
    cpu.mem_write(0x8001, 0x34);
    cpu.mem_write(0x8002, 0x12);
    cpu.register_x = 0x10;
    cpu.register_y = 0x20;
    assert_eq!(cpu.get_operand_addr(AddressingMode::ABSOLUTE), 0x1234);
    assert_eq!(cpu.get_operand_addr(AddressingMode::ABSOLUTE_X), 0x1244);
    assert_eq!(cpu.get_operand_addr(AddressingMode::ABSOLUTE_Y), 0x1254);
}

#[test]
fn operand_addr_absolute_indexed_wraps_16_bit() {
    let mut cpu = CPU::new();
    cpu.counter = 0x8001;
    cpu.mem_write(0x8001, 0xFF);
    cpu.mem_write(0x8002, 0xFF);
    cpu.register_x = 0x02;
    assert_eq!(cpu.get_operand_addr(AddressingMode::ABSOLUTE_X), 0x0001);
}

#[test]
fn operand_addr_indirect_x() {
    let mut cpu = CPU::new();
    cpu.counter = 0x8001;
    cpu.mem_write(0x8001, 0xFE);
    cpu.register_x = 0x03;
    // Pointer 0xFE + 0x03 wraps to 0x01 within page 0.
    cpu.mem_write(0x0001, 0xCD);
    cpu.mem_write(0x0002, 0xAB);
    assert_eq!(cpu.get_operand_addr(AddressingMode::INDIRECT_X), 0xABCD);
}

#[test]
fn operand_addr_indirect_y_high_byte_wraps_in_page_zero() {
    let mut cpu = CPU::new();
    cpu.counter = 0x8001;
    cpu.mem_write(0x8001, 0xFF);
    // The 16-bit pointer is read from 0x00FF and 0x0000, not 0x0100.
    cpu.mem_write(0x00FF, 0x10);
    cpu.mem_write(0x0000, 0x20);
    cpu.mem_write(0x0100, 0x99);
    cpu.register_y = 0x05;
    assert_eq!(cpu.get_operand_addr(AddressingMode::INDIRECT_Y), 0x2015);
}

#[test]
fn reset_restores_registers_and_vector() {
    let mut cpu = CPU::new();
    cpu.load(vec![0xEA, 0x00]).unwrap();
    cpu.register_a = 9;
    cpu.register_x = 9;
    cpu.register_y = 9;
    cpu.status = 0xFF;
    cpu.stack_pointer = 0x10;
    cpu.reset_interrupt();
    assert_eq!(cpu.register_a, 0);
    assert_eq!(cpu.register_x, 0);
    assert_eq!(cpu.register_y, 0);
    assert_eq!(cpu.status, 0b0010_0100);
    assert_eq!(cpu.stack_pointer, 0xFD);
    assert_eq!(cpu.counter, 0x8000);
}

#[test]
fn step_reports_each_outcome() {
    let mut cpu = CPU::new();
    cpu.load(vec![0xE8, 0x00]).unwrap();
    cpu.reset_interrupt();
    // INX executes and the run goes on.
    assert_eq!(cpu.step(), Ok(true));
    assert_eq!(cpu.register_x, 1);
    // BRK halts.
    assert_eq!(cpu.step(), Ok(false));
    assert_eq!(cpu.counter, 0x8002);
}

#[test]
fn memory_u16_helpers_are_little_endian() {
    let mut cpu = CPU::new();
    cpu.mem_write_u16(0x0200, 0xBEEF);
    assert_eq!(cpu.mem_read(0x0200), 0xEF);
    assert_eq!(cpu.mem_read(0x0201), 0xBE);
    assert_eq!(cpu.mem_read_u16(0x0200), 0xBEEF);
}

#[test]
fn transfers_update_flags_but_txs_does_not() {
    // LDA #0x80; TAY: Y holds 0x80 and Negative is set.
    let mut cpu = CPU::new();
    cpu.load_and_run(vec![0xA9, 0x80, 0xA8, 0x00]).unwrap();
    assert_eq!(cpu.register_y, 0x80);
    assert!(cpu.status & 0x80 != 0);

    // LDX #0; TXS: the stack pointer takes 0 but Zero keeps its old value
    // from the LDX, since TXS updates no flags.
    let mut cpu = CPU::new();
    cpu.load_and_run(vec![0xA2, 0x00, 0x9A, 0x00]).unwrap();
    assert_eq!(cpu.stack_pointer, 0);
    assert!(cpu.status & 0x02 != 0);

    // TSX copies the stack pointer into X and updates flags.
    let mut cpu = CPU::new();
    cpu.load_and_run(vec![0xBA, 0x00]).unwrap();
    assert_eq!(cpu.register_x, 0xFD);
    assert!(cpu.status & 0x80 != 0);
}

#[test]
fn dex_dey_wrap_and_set_flags() {
    let mut cpu = CPU::new();
    cpu.load_and_run(vec![0xCA, 0x88, 0x00]).unwrap();
    assert_eq!(cpu.register_x, 0xFF);
    assert_eq!(cpu.register_y, 0xFF);
    assert!(cpu.status & 0x80 != 0);
}

#[test]
fn logic_ops_combine_with_accumulator() {
    // LDA #0b1100; AND #0b1010 -> 0b1000.
    let mut cpu = CPU::new();
    cpu.load_and_run(vec![0xA9, 0x0C, 0x29, 0x0A, 0x00]).unwrap();
    assert_eq!(cpu.register_a, 0x08);

    // LDA #0b1100; ORA #0b1010 -> 0b1110.
    let mut cpu = CPU::new();
    cpu.load_and_run(vec![0xA9, 0x0C, 0x09, 0x0A, 0x00]).unwrap();
    assert_eq!(cpu.register_a, 0x0E);

    // LDA #0b1100; EOR #0b1010 -> 0b0110.
    let mut cpu = CPU::new();
    cpu.load_and_run(vec![0xA9, 0x0C, 0x49, 0x0A, 0x00]).unwrap();
    assert_eq!(cpu.register_a, 0x06);
}

#[test]
fn cpx_cpy_compare_index_registers() {
    // LDX #5; CPX #6: Carry clear (6 > 5), Negative set on 5 - 6 = 0xFF.
    let mut cpu = CPU::new();
    cpu.load_and_run(vec![0xA2, 0x05, 0xE0, 0x06, 0x00]).unwrap();
    assert!(cpu.status & 0x01 == 0);
    assert!(cpu.status & 0x80 != 0);

    // LDY #6; CPY #5: Carry set, Zero clear.
    let mut cpu = CPU::new();
    cpu.load_and_run(vec![0xA0, 0x06, 0xC0, 0x05, 0x00]).unwrap();
    assert!(cpu.status & 0x01 != 0);
    assert!(cpu.status & 0x02 == 0);
}

#[test]
fn dec_memory_in_place() {
    let mut cpu = CPU::new();
    cpu.load(vec![0xC6, 0x10, 0x00]).unwrap();
    cpu.reset_interrupt();
    cpu.mem_write(0x10, 0x01);
    cpu.run().unwrap();
    assert_eq!(cpu.mem_read(0x10), 0x00);
    assert!(cpu.status & 0x02 != 0);
}

#[test]
fn flag_instructions_set_and_clear_bits() {
    let mut cpu = CPU::new();
    cpu.load_and_run(vec![0x38, 0xF8, 0x78, 0x00]).unwrap();
    assert!(cpu.status & 0x01 != 0);
    assert!(cpu.status & 0x08 != 0);
    assert!(cpu.status & 0x04 != 0);

    let mut cpu = CPU::new();
    cpu.load_and_run(vec![0x38, 0x18, 0xD8, 0x58, 0x00]).unwrap();
    assert!(cpu.status & 0x01 == 0);
    assert!(cpu.status & 0x08 == 0);
    assert!(cpu.status & 0x04 == 0);
}

#[test]
fn rti_restores_status_and_counter() {
    // Push a return address of 0x8006 and a status byte of 0xFF by hand,
    // then RTI: the status drops the break-command bits and control moves to
    // the pushed address, where a BRK halts.
    let mut cpu = CPU::new();
    cpu.load(vec![0x40, 0x00, 0x00, 0x00, 0x00, 0x00, 0xE8, 0x00]).unwrap();
    cpu.reset_interrupt();
    cpu.stack_push_u16(0x8006);
    cpu.stack_push(0xFF);
    cpu.run().unwrap();
    assert_eq!(cpu.status & 0x30, 0);
    assert_eq!(cpu.register_x, 1);
}

#[test]
fn load_snake_places_fixture_at_0600() {
    let mut cpu = CPU::new();
    cpu.load_snake();
    assert_eq!(cpu.mem_read(0x0600), 0x20);
    assert_eq!(cpu.mem_read(0x0600 + 308), 0x60);
    assert_eq!(cpu.mem_read_u16(0xFFFC), 0x0600);
    cpu.reset_interrupt();
    assert_eq!(cpu.counter, 0x0600);
}

#[test]
fn load_into_reads_operand_for_each_register() {
    let mut cpu = CPU::new();
    cpu.counter = 0x8000;
    cpu.mem_write(0x8000, 0x2A);
    cpu.load_into(AddressingMode::IMMEDIATE, Register::A);
    cpu.load_into(AddressingMode::IMMEDIATE, Register::X);
    cpu.load_into(AddressingMode::IMMEDIATE, Register::Y);
    assert_eq!(cpu.register_a, 0x2A);
    assert_eq!(cpu.register_x, 0x2A);
    assert_eq!(cpu.register_y, 0x2A);
}

#[test]
fn register_a_add_matches_adc_rules() {
    let mut cpu = CPU::new();
    cpu.register_a = 0x50;
    cpu.register_a_add(0x50);
    assert_eq!(cpu.register_a, 0xA0);
    assert!(cpu.get_flag(Flag::Overflow));
    assert!(!cpu.get_flag(Flag::Carry));

    let mut cpu = CPU::new();
    cpu.register_a = 0xFF;
    cpu.register_a_add(0x01);
    assert_eq!(cpu.register_a, 0x00);
    assert!(cpu.get_flag(Flag::Carry));
    assert!(cpu.get_flag(Flag::Zero));
}

#[test]
fn flag_setters_toggle_single_bits() {
    let mut cpu = CPU::new();
    cpu.status = 0;
    cpu.set_flag(Flag::Carry);
    assert_eq!(cpu.status, 0x01);
    cpu.set_flag_to(Flag::Overflow, true);
    assert_eq!(cpu.status, 0x41);
    cpu.clear_flag(Flag::Carry);
    assert_eq!(cpu.status, 0x40);
    cpu.set_flag_to(Flag::Overflow, false);
    assert_eq!(cpu.status, 0x00);
    assert!(!cpu.get_flag(Flag::Overflow));
}

#[test]
fn ldx_ldy_and_stores() {
    let mut cpu = CPU::new();
    cpu.load_and_run(vec![0xA2, 0x11, 0xA0, 0x22, 0x86, 0x40, 0x84, 0x41, 0x00]).unwrap();
    assert_eq!(cpu.register_x, 0x11);
    assert_eq!(cpu.register_y, 0x22);
    assert_eq!(cpu.mem_read(0x40), 0x11);
    assert_eq!(cpu.mem_read(0x41), 0x22);
}
