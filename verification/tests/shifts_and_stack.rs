//! Shifts, rotates, subtraction with borrow, and the stack instructions.

use wasm_nes_emulator::cpu::CPU;
use wasm_nes_emulator::status::{CARRY, NEGATIVE, OVERFLOW, ZERO};

#[test]
fn lsr_moves_bit_0_to_carry() {
    let mut cpu = CPU::new();
    // LDA #$03; LSR A; LSR A; LSR A
    cpu.load(vec![0xa9, 0x03, 0x4a, 0x4a, 0x4a]);
    cpu.reset();
    cpu.next().unwrap();
    cpu.status = NEGATIVE;
    assert_eq!(cpu.next(), Ok(false));
    assert_eq!(cpu.register_a, 0x01);
    assert_eq!(cpu.status, CARRY);
    assert_eq!(cpu.next(), Ok(false));
    assert_eq!(cpu.register_a, 0x00);
    assert_eq!(cpu.status, CARRY | ZERO);
    assert_eq!(cpu.next(), Ok(false));
    assert_eq!(cpu.register_a, 0x00);
    assert_eq!(cpu.status, ZERO);
}

#[test]
fn rol_shifts_the_old_carry_into_bit_0() {
    let mut cpu = CPU::new();
    // LDA #$80; ROL A; ROL A
    cpu.load(vec![0xa9, 0x80, 0x2a, 0x2a]);
    cpu.reset();
    cpu.next().unwrap();
    cpu.status = CARRY;
    assert_eq!(cpu.next(), Ok(false));
    assert_eq!(cpu.register_a, 0x01);
    assert_eq!(cpu.status, CARRY);
    assert_eq!(cpu.next(), Ok(false));
    assert_eq!(cpu.register_a, 0x03);
    assert_eq!(cpu.status, 0x00);
}

#[test]
fn rol_without_carry_is_a_shift() {
    let mut cpu = CPU::new();
    // LDA #$41; ROL A
    cpu.load(vec![0xa9, 0x41, 0x2a]);
    cpu.reset();
    cpu.next().unwrap();
    assert_eq!(cpu.next(), Ok(false));
    assert_eq!(cpu.register_a, 0x82);
    assert_eq!(cpu.status, NEGATIVE);
}

#[test]
fn ror_shifts_the_old_carry_into_bit_7() {
    let mut cpu = CPU::new();
    // LDA #$01; ROR A; ROR A
    cpu.load(vec![0xa9, 0x01, 0x6a, 0x6a]);
    cpu.reset();
    cpu.next().unwrap();
    cpu.status = CARRY;
    assert_eq!(cpu.next(), Ok(false));
    assert_eq!(cpu.register_a, 0x80);
    assert_eq!(cpu.status, CARRY | NEGATIVE);
    assert_eq!(cpu.next(), Ok(false));
    assert_eq!(cpu.register_a, 0xc0);
    assert_eq!(cpu.status, NEGATIVE);
}

#[test]
fn ror_without_carry_is_a_shift() {
    let mut cpu = CPU::new();
    // LDA #$02; ROR A; ROR A
    cpu.load(vec![0xa9, 0x02, 0x6a, 0x6a]);
    cpu.reset();
    cpu.next().unwrap();
    assert_eq!(cpu.next(), Ok(false));
    assert_eq!(cpu.register_a, 0x01);
    assert_eq!(cpu.status, 0x00);
    assert_eq!(cpu.next(), Ok(false));
    assert_eq!(cpu.register_a, 0x00);
    assert_eq!(cpu.status, CARRY | ZERO);
}

#[test]
fn shifts_work_on_memory() {
    let mut cpu = CPU::new();
    cpu.mem_write(0x0010, 0x81);
    cpu.mem_write(0x0011, 0x81);
    cpu.mem_write(0x0012, 0x81);
    cpu.mem_write(0x0013, 0x81);
    // ASL $10; ROL $11; LSR $12; ROR $13
    cpu.load(vec![0x06, 0x10, 0x26, 0x11, 0x46, 0x12, 0x66, 0x13]);
    cpu.reset();
    cpu.register_a = 0x55;

    assert_eq!(cpu.next(), Ok(false));
    assert_eq!(cpu.mem_read(0x0010), 0x02);
    assert_eq!(cpu.status, CARRY);

    assert_eq!(cpu.next(), Ok(false));
    assert_eq!(cpu.mem_read(0x0011), 0x03);
    assert_eq!(cpu.status, CARRY);

    assert_eq!(cpu.next(), Ok(false));
    assert_eq!(cpu.mem_read(0x0012), 0x40);
    assert_eq!(cpu.status, CARRY);

    assert_eq!(cpu.next(), Ok(false));
    assert_eq!(cpu.mem_read(0x0013), 0xc0);
    assert_eq!(cpu.status, CARRY | NEGATIVE);

    assert_eq!(cpu.register_a, 0x55);
    assert_eq!(cpu.program_counter, 0x0608);
}

#[test]
fn asl_on_memory_sets_zero() {
    let mut cpu = CPU::new();
    cpu.mem_write(0x0010, 0x80);
    // LDA #$01; ASL $10
    cpu.load(vec![0xa9, 0x01, 0x06, 0x10]);
    cpu.reset();
    cpu.next().unwrap();
    assert_eq!(cpu.next(), Ok(false));
    assert_eq!(cpu.mem_read(0x0010), 0x00);
    assert_eq!(cpu.register_a, 0x01);
    assert_eq!(cpu.status, CARRY | ZERO);
}

#[test]
fn asl_absolute_indexed() {
    let mut cpu = CPU::new();
    cpu.mem_write(0x1236, 0x21);
    // LDX #$02; ASL $1234,X
    cpu.load(vec![0xa2, 0x02, 0x1e, 0x34, 0x12]);
    cpu.reset();
    cpu.next().unwrap();
    assert_eq!(cpu.next(), Ok(false));
    assert_eq!(cpu.mem_read(0x1236), 0x42);
    assert_eq!(cpu.status, 0x00);
    assert_eq!(cpu.program_counter, 0x0605);
}

#[test]
fn sbc_with_carry_set_subtracts_exactly() {
    let mut cpu = CPU::new();
    // SEC; LDA #$05; SBC #$03
    cpu.load(vec![0x38, 0xa9, 0x05, 0xe9, 0x03]);
    cpu.reset();
    cpu.next().unwrap();
    cpu.next().unwrap();
    assert_eq!(cpu.next(), Ok(false));
    assert_eq!(cpu.register_a, 0x02);
    assert_eq!(cpu.status, CARRY);
}

#[test]
fn sbc_with_carry_clear_borrows_one_more() {
    let mut cpu = CPU::new();
    // LDA #$05; SBC #$03
    cpu.load(vec![0xa9, 0x05, 0xe9, 0x03]);
    cpu.reset();
    cpu.next().unwrap();
    assert_eq!(cpu.next(), Ok(false));
    assert_eq!(cpu.register_a, 0x01);
    assert_eq!(cpu.status, CARRY);
}

#[test]
fn sbc_below_zero_clears_carry() {
    let mut cpu = CPU::new();
    // SEC; LDA #$00; SBC #$01
    cpu.load(vec![0x38, 0xa9, 0x00, 0xe9, 0x01]);
    cpu.reset();
    cpu.next().unwrap();
    cpu.next().unwrap();
    assert_eq!(cpu.next(), Ok(false));
    assert_eq!(cpu.register_a, 0xff);
    assert_eq!(cpu.status, NEGATIVE);
}

#[test]
fn sbc_signed_overflow() {
    let mut cpu = CPU::new();
    // SEC; LDA #$80; SBC #$01
    cpu.load(vec![0x38, 0xa9, 0x80, 0xe9, 0x01]);
    cpu.reset();
    cpu.next().unwrap();
    cpu.next().unwrap();
    assert_eq!(cpu.next(), Ok(false));
    assert_eq!(cpu.register_a, 0x7f);
    assert_eq!(cpu.status, CARRY | OVERFLOW);
}

#[test]
fn sbc_to_zero() {
    let mut cpu = CPU::new();
    // SEC; LDA #$42; SBC #$42
    cpu.load(vec![0x38, 0xa9, 0x42, 0xe9, 0x42]);
    cpu.reset();
    cpu.next().unwrap();
    cpu.next().unwrap();
    assert_eq!(cpu.next(), Ok(false));
    assert_eq!(cpu.register_a, 0x00);
    assert_eq!(cpu.status, CARRY | ZERO);
}

#[test]
fn adc_adds_the_carry() {
    let mut cpu = CPU::new();
    // SEC; LDA #$10; ADC #$20
    cpu.load(vec![0x38, 0xa9, 0x10, 0x69, 0x20]);
    cpu.reset();
    cpu.next().unwrap();
    cpu.next().unwrap();
    assert_eq!(cpu.next(), Ok(false));
    assert_eq!(cpu.register_a, 0x31);
    assert_eq!(cpu.status, 0x00);
}

#[test]
fn add_to_reg_a_on_its_own() {
    let mut cpu = CPU::new();
    cpu.register_a = 0xf0;
    cpu.status = CARRY;
    cpu.add_to_reg_a(0x0f);
    assert_eq!(cpu.register_a, 0x00);
    assert_eq!(cpu.status, CARRY | ZERO);
    cpu.add_to_reg_a(0x7f);
    assert_eq!(cpu.register_a, 0x80);
    assert_eq!(cpu.status, OVERFLOW | NEGATIVE);
}

#[test]
fn push_moves_the_stack_pointer_down_and_wraps() {
    let mut cpu = CPU::new();
    cpu.stack_ptr = 0x01;
    cpu.push_stack(0xaa);
    assert_eq!(cpu.stack_ptr, 0x00);
    assert_eq!(cpu.mem_read(0x0100), 0xaa);
    cpu.push_stack(0xbb);
    assert_eq!(cpu.stack_ptr, 0xff);
    assert_eq!(cpu.mem_read(0x01ff), 0xbb);
    assert_eq!(cpu.mem_read(0x00ff), 0x00);
    assert_eq!(cpu.mem_read(0x0200), 0x00);
    assert!(!cpu.update);
}

#[test]
fn pull_moves_the_stack_pointer_up_and_wraps() {
    let mut cpu = CPU::new();
    cpu.mem_write(0x01ff, 0x11);
    cpu.mem_write(0x0100, 0x22);
    cpu.stack_ptr = 0xff;
    assert_eq!(cpu.pull_stack(), 0x11);
    assert_eq!(cpu.stack_ptr, 0x00);
    assert_eq!(cpu.pull_stack(), 0x22);
    assert_eq!(cpu.stack_ptr, 0x01);
    assert_eq!(cpu.mem_read(0x01ff), 0x11);
}

#[test]
fn a_push_is_pulled_back() {
    let mut cpu = CPU::new();
    cpu.stack_ptr = 0x80;
    cpu.push_stack(0x12);
    cpu.push_stack(0x34);
    assert_eq!(cpu.pull_stack(), 0x34);
    assert_eq!(cpu.pull_stack(), 0x12);
    assert_eq!(cpu.stack_ptr, 0x80);
}

#[test]
fn pla_sets_zero_and_negative() {
    let mut cpu = CPU::new();
    cpu.mem_write(0x0180, 0x00);
    cpu.mem_write(0x0181, 0x90);
    // PLA; PLA
    cpu.load(vec![0x68, 0x68]);
    cpu.reset();
    cpu.stack_ptr = 0x80;
    cpu.register_a = 0x55;
    assert_eq!(cpu.next(), Ok(false));
    assert_eq!(cpu.register_a, 0x00);
    assert_eq!(cpu.status, ZERO);
    assert_eq!(cpu.next(), Ok(false));
    assert_eq!(cpu.register_a, 0x90);
    assert_eq!(cpu.status, NEGATIVE);
    assert_eq!(cpu.stack_ptr, 0x82);
}

#[test]
fn php_and_plp_move_the_status_as_it_is() {
    let mut cpu = CPU::new();
    // PHP; CLC; PLP
    cpu.load(vec![0x08, 0x18, 0x28]);
    cpu.reset();
    cpu.stack_ptr = 0x10;
    cpu.status = 0b0001_0001;
    assert_eq!(cpu.next(), Ok(false));
    assert_eq!(cpu.mem_read(0x010f), 0b0001_0001);
    assert_eq!(cpu.stack_ptr, 0x0f);
    assert_eq!(cpu.next(), Ok(false));
    assert_eq!(cpu.status, 0b0001_0000);
    assert_eq!(cpu.next(), Ok(false));
    assert_eq!(cpu.status, 0b0001_0001);
    assert_eq!(cpu.stack_ptr, 0x10);
}

#[test]
fn rti_restores_status_and_program_counter() {
    let mut cpu = CPU::new();
    cpu.mem_write(0x01fc, 0xff);
    cpu.mem_write(0x01fd, 0x34);
    cpu.mem_write(0x01fe, 0x12);
    // RTI
    cpu.load(vec![0x40]);
    cpu.reset();
    cpu.stack_ptr = 0xfc;
    assert_eq!(cpu.next(), Ok(false));
    assert_eq!(cpu.status, 0b1110_1111);
    assert_eq!(cpu.program_counter, 0x1234);
    assert_eq!(cpu.stack_ptr, 0xff);
}

#[test]
fn rti_sets_the_unused_bit_and_adds_nothing_to_the_address() {
    let mut cpu = CPU::new();
    cpu.mem_write(0x0110, 0x00);
    cpu.mem_write(0x0111, 0x00);
    cpu.mem_write(0x0112, 0x90);
    // RTI
    cpu.load(vec![0x40]);
    cpu.reset();
    cpu.stack_ptr = 0x10;
    assert_eq!(cpu.next(), Ok(false));
    assert_eq!(cpu.status, 0b0010_0000);
    assert_eq!(cpu.program_counter, 0x9000);
    assert_eq!(cpu.stack_ptr, 0x13);
}

#[test]
fn txs_keeps_the_flags_and_tsx_sets_them() {
    let mut cpu = CPU::new();
    // LDX #$80; LDA #$01; TXS; LDX #$00; TSX
    cpu.load(vec![0xa2, 0x80, 0xa9, 0x01, 0x9a, 0xa2, 0x00, 0xba]);
    cpu.reset();
    cpu.next().unwrap();
    cpu.next().unwrap();
    assert_eq!(cpu.status, 0x00);
    assert_eq!(cpu.next(), Ok(false));
    assert_eq!(cpu.stack_ptr, 0x80);
    assert_eq!(cpu.status, 0x00);
    cpu.next().unwrap();
    assert_eq!(cpu.status, ZERO);
    assert_eq!(cpu.next(), Ok(false));
    assert_eq!(cpu.register_x, 0x80);
    assert_eq!(cpu.status, NEGATIVE);
}

#[test]
fn inc_and_dec_set_zero_and_negative() {
    let mut cpu = CPU::new();
    cpu.mem_write(0x0010, 0xff);
    // INC $10; DEC $10; DEC $10
    cpu.load(vec![0xe6, 0x10, 0xc6, 0x10, 0xc6, 0x10]);
    cpu.reset();
    cpu.status = CARRY;
    assert_eq!(cpu.next(), Ok(false));
    assert_eq!(cpu.mem_read(0x0010), 0x00);
    assert_eq!(cpu.status, CARRY | ZERO);
    assert_eq!(cpu.next(), Ok(false));
    assert_eq!(cpu.mem_read(0x0010), 0xff);
    assert_eq!(cpu.status, CARRY | NEGATIVE);
    assert_eq!(cpu.next(), Ok(false));
    assert_eq!(cpu.mem_read(0x0010), 0xfe);
    assert_eq!(cpu.status, CARRY | NEGATIVE);
}

#[test]
fn bit_leaves_a_alone() {
    let mut cpu = CPU::new();
    cpu.mem_write(0x1234, 0x40);
    // LDA #$0f; BIT $1234
    cpu.load(vec![0xa9, 0x0f, 0x2c, 0x34, 0x12]);
    cpu.reset();
    cpu.next().unwrap();
    cpu.status = CARRY | NEGATIVE;
    assert_eq!(cpu.next(), Ok(false));
    assert_eq!(cpu.register_a, 0x0f);
    assert_eq!(cpu.status, CARRY | ZERO | OVERFLOW);
    assert_eq!(cpu.program_counter, 0x0605);
}
