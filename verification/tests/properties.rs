//! The laws of the instruction set, on chosen values.

use wasm_nes_emulator::cpu::CPU;
use wasm_nes_emulator::status::{CARRY, NEGATIVE, OVERFLOW, ZERO};

#[test]
fn lda_immediate_sets_a_zero_and_negative() {
    let values: [u8; 5] = [0x00, 0x01, 0x7f, 0x80, 0xff];
    for value in values {
        let mut cpu = CPU::new();
        cpu.load(vec![0xa9, value]);
        cpu.reset();
        cpu.register_a = 0x33;
        assert_eq!(cpu.next(), Ok(false));
        assert_eq!(cpu.register_a, value);
        assert_eq!(cpu.status & ZERO != 0, value == 0);
        assert_eq!(cpu.status & NEGATIVE != 0, value & 0x80 != 0);
        assert_eq!(cpu.program_counter, 0x0602);
    }
}

#[test]
fn ldx_immediate_sets_x_zero_and_negative() {
    let values: [u8; 5] = [0x00, 0x01, 0x7f, 0x80, 0xff];
    for value in values {
        let mut cpu = CPU::new();
        cpu.load(vec![0xa2, value]);
        cpu.reset();
        cpu.register_x = 0x33;
        assert_eq!(cpu.next(), Ok(false));
        assert_eq!(cpu.register_x, value);
        assert_eq!(cpu.register_a, 0x00);
        assert_eq!(cpu.status & ZERO != 0, value == 0);
        assert_eq!(cpu.status & NEGATIVE != 0, value & 0x80 != 0);
    }
}

#[test]
fn ldy_immediate_sets_y_zero_and_negative() {
    let values: [u8; 5] = [0x00, 0x01, 0x7f, 0x80, 0xff];
    for value in values {
        let mut cpu = CPU::new();
        cpu.load(vec![0xa0, value]);
        cpu.reset();
        cpu.register_y = 0x33;
        assert_eq!(cpu.next(), Ok(false));
        assert_eq!(cpu.register_y, value);
        assert_eq!(cpu.register_a, 0x00);
        assert_eq!(cpu.status & ZERO != 0, value == 0);
        assert_eq!(cpu.status & NEGATIVE != 0, value & 0x80 != 0);
    }
}

#[test]
fn load_keeps_carry_and_overflow() {
    let mut cpu = CPU::new();
    cpu.load(vec![0xa9, 0x80]);
    cpu.reset();
    cpu.status = CARRY | OVERFLOW | ZERO;
    assert_eq!(cpu.next(), Ok(false));
    assert_eq!(cpu.status, CARRY | OVERFLOW | NEGATIVE);
}

#[test]
fn sta_then_lda_gives_a_back() {
    let addresses: [u8; 4] = [0x00, 0x10, 0x80, 0xff];
    let values: [u8; 4] = [0x00, 0x55, 0x80, 0xff];
    for zp in addresses {
        for value in values {
            let mut cpu = CPU::new();
            cpu.load(vec![0x85, zp, 0xa5, zp]);
            cpu.reset();
            cpu.register_a = value;
            assert_eq!(cpu.next(), Ok(false));
            assert_eq!(cpu.mem_read(u16::from(zp)), value);
            assert_eq!(cpu.next(), Ok(false));
            assert_eq!(cpu.register_a, value);
            assert_eq!(cpu.program_counter, 0x0604);
        }
    }
}

#[test]
fn sta_then_lda_survives_a_change_of_a() {
    let mut cpu = CPU::new();
    // STA $42; LDA #$00; LDA $42; BRK
    assert_eq!(cpu.load_and_run(vec![0x85, 0x42, 0xa9, 0x00, 0xa5, 0x42, 0x00]), Ok(true));
    assert_eq!(cpu.register_a, 0x00);

    let mut cpu = CPU::new();
    // LDA #$c3; STA $42; LDA #$00; LDA $42; BRK
    let program: Vec<u8> = vec![0xa9, 0xc3, 0x85, 0x42, 0xa9, 0x00, 0xa5, 0x42, 0x00];
    assert_eq!(cpu.load_and_run(program), Ok(true));
    assert_eq!(cpu.register_a, 0xc3);
    assert_eq!(cpu.mem_read(0x0042), 0xc3);
}

#[test]
fn adc_carry_chain() {
    let mut cpu = CPU::new();
    // LDA #$01; ADC #$ff; ADC #$00
    cpu.load(vec![0xa9, 0x01, 0x69, 0xff, 0x69, 0x00]);
    cpu.reset();
    assert_eq!(cpu.next(), Ok(false));
    assert_eq!(cpu.status & CARRY, 0);

    assert_eq!(cpu.next(), Ok(false));
    assert_eq!(cpu.register_a, 0x00);
    assert_eq!(cpu.status, CARRY | ZERO);

    assert_eq!(cpu.next(), Ok(false));
    assert_eq!(cpu.register_a, 0x01);
    assert_eq!(cpu.status, 0x00);
}

#[test]
fn adc_signed_overflow() {
    let mut cpu = CPU::new();
    // LDA #$7f; ADC #$01
    cpu.load(vec![0xa9, 0x7f, 0x69, 0x01]);
    cpu.reset();
    assert_eq!(cpu.next(), Ok(false));
    assert_eq!(cpu.next(), Ok(false));
    assert_eq!(cpu.register_a, 0x80);
    assert_eq!(cpu.status & OVERFLOW, OVERFLOW);
    assert_eq!(cpu.status & NEGATIVE, NEGATIVE);
    assert_eq!(cpu.status & CARRY, 0);
    assert_eq!(cpu.status, OVERFLOW | NEGATIVE);
}

#[test]
fn adc_two_negatives_overflow_and_carry() {
    let mut cpu = CPU::new();
    // LDA #$80; ADC #$80
    cpu.load(vec![0xa9, 0x80, 0x69, 0x80]);
    cpu.reset();
    assert_eq!(cpu.next(), Ok(false));
    assert_eq!(cpu.next(), Ok(false));
    assert_eq!(cpu.register_a, 0x00);
    assert_eq!(cpu.status, CARRY | ZERO | OVERFLOW);
}

#[test]
fn compare_equal_sets_carry_and_zero_and_clears_negative() {
    let mut cpu = CPU::new();
    // LDA #$05; CMP #$05
    cpu.load(vec![0xa9, 0x05, 0xc9, 0x05]);
    cpu.reset();
    assert_eq!(cpu.next(), Ok(false));
    assert_eq!(cpu.next(), Ok(false));
    assert_eq!(cpu.register_a, 0x05);
    assert_eq!(cpu.status & CARRY, CARRY);
    assert_eq!(cpu.status & ZERO, ZERO);
    assert_eq!(cpu.status & NEGATIVE, 0);
    assert_eq!(cpu.status, CARRY | ZERO);
}

#[test]
fn compare_smaller_clears_carry_and_zero_and_sets_negative() {
    let mut cpu = CPU::new();
    // LDA #$03; CMP #$05
    cpu.load(vec![0xa9, 0x03, 0xc9, 0x05]);
    cpu.reset();
    assert_eq!(cpu.next(), Ok(false));
    assert_eq!(cpu.next(), Ok(false));
    assert_eq!(cpu.register_a, 0x03);
    assert_eq!(cpu.status, NEGATIVE);
}

#[test]
fn compare_larger_sets_carry_alone() {
    let mut cpu = CPU::new();
    // LDA #$05; CMP #$03
    cpu.load(vec![0xa9, 0x05, 0xc9, 0x03]);
    cpu.reset();
    assert_eq!(cpu.next(), Ok(false));
    assert_eq!(cpu.next(), Ok(false));
    assert_eq!(cpu.status, CARRY);
}

#[test]
fn compare_negative_is_bit_7_of_the_difference() {
    let mut cpu = CPU::new();
    // LDX #$05; CPX #$85: the difference is $80
    cpu.load(vec![0xa2, 0x05, 0xe0, 0x85]);
    cpu.reset();
    assert_eq!(cpu.next(), Ok(false));
    assert_eq!(cpu.next(), Ok(false));
    assert_eq!(cpu.status, NEGATIVE);

    let mut cpu = CPU::new();
    // LDY #$90; CPY #$10: the difference is $80
    cpu.load(vec![0xa0, 0x90, 0xc0, 0x10]);
    cpu.reset();
    assert_eq!(cpu.next(), Ok(false));
    assert_eq!(cpu.next(), Ok(false));
    assert_eq!(cpu.status, CARRY | NEGATIVE);

    let mut cpu = CPU::new();
    // LDA #$90; CMP #$90: equal values in the upper half
    cpu.load(vec![0xa9, 0x90, 0xc9, 0x90]);
    cpu.reset();
    assert_eq!(cpu.next(), Ok(false));
    assert_eq!(cpu.next(), Ok(false));
    assert_eq!(cpu.status, CARRY | ZERO);

    let mut cpu = CPU::new();
    // LDA #$ff; CMP #$01: the difference is $fe
    cpu.load(vec![0xa9, 0xff, 0xc9, 0x01]);
    cpu.reset();
    assert_eq!(cpu.next(), Ok(false));
    assert_eq!(cpu.next(), Ok(false));
    assert_eq!(cpu.status, CARRY | NEGATIVE);
}

#[test]
fn compare_changes_no_register_and_no_other_flag() {
    let mut cpu = CPU::new();
    cpu.mem_write(0x0010, 0x40);
    // CMP $10
    cpu.load(vec![0xc5, 0x10]);
    cpu.reset();
    cpu.register_a = 0x30;
    cpu.register_x = 0x11;
    cpu.register_y = 0x22;
    cpu.stack_ptr = 0x33;
    cpu.status = 0b0111_1111;
    assert_eq!(cpu.next(), Ok(false));
    assert_eq!(cpu.status, 0b1111_1100);
    assert_eq!(cpu.register_a, 0x30);
    assert_eq!(cpu.register_x, 0x11);
    assert_eq!(cpu.register_y, 0x22);
    assert_eq!(cpu.stack_ptr, 0x33);
    assert_eq!(cpu.mem_read(0x0010), 0x40);
    assert_eq!(cpu.program_counter, 0x0602);
}

#[test]
fn bne_with_zero_clear_skips_by_the_offset() {
    let mut cpu = CPU::new();
    // BNE +2; LDA #$01; BRK
    cpu.load(vec![0xd0, 0x02, 0xa9, 0x01, 0x00]);
    cpu.reset();
    assert_eq!(cpu.next(), Ok(false));
    assert_eq!(cpu.program_counter, 0x0604);
    assert_eq!(cpu.next(), Ok(true));
    assert_eq!(cpu.register_a, 0x00);
}

#[test]
fn bne_with_zero_set_falls_through() {
    let mut cpu = CPU::new();
    // BNE +2; LDA #$01; BRK
    cpu.load(vec![0xd0, 0x02, 0xa9, 0x01, 0x00]);
    cpu.reset();
    cpu.status = ZERO;
    assert_eq!(cpu.next(), Ok(false));
    assert_eq!(cpu.program_counter, 0x0602);
    assert_eq!(cpu.next(), Ok(false));
    assert_eq!(cpu.register_a, 0x01);
}

#[test]
fn branch_backwards() {
    let mut cpu = CPU::new();
    // NOP; BNE -3
    cpu.load(vec![0xea, 0xd0, 0xfd]);
    cpu.reset();
    assert_eq!(cpu.next(), Ok(false));
    assert_eq!(cpu.next(), Ok(false));
    assert_eq!(cpu.program_counter, 0x0600);
}

#[test]
fn branch_onto_its_own_offset_byte_falls_through() {
    let mut cpu = CPU::new();
    // BNE -1
    cpu.load(vec![0xd0, 0xff]);
    cpu.reset();
    assert_eq!(cpu.next(), Ok(false));
    assert_eq!(cpu.program_counter, 0x0602);
}

#[test]
fn branch_changes_nothing_but_the_program_counter() {
    let mut cpu = CPU::new();
    // BCS +$10
    cpu.load(vec![0xb0, 0x10]);
    cpu.reset();
    cpu.register_a = 0x11;
    cpu.register_x = 0x22;
    cpu.register_y = 0x33;
    cpu.stack_ptr = 0x44;
    cpu.status = CARRY | NEGATIVE;
    assert_eq!(cpu.next(), Ok(false));
    assert_eq!(cpu.program_counter, 0x0612);
    assert_eq!(cpu.register_a, 0x11);
    assert_eq!(cpu.register_x, 0x22);
    assert_eq!(cpu.register_y, 0x33);
    assert_eq!(cpu.stack_ptr, 0x44);
    assert_eq!(cpu.status, CARRY | NEGATIVE);
}

#[test]
fn jsr_then_rts_comes_back_after_the_call() {
    let mut cpu = CPU::new();
    // JSR $0604; BRK; RTS
    cpu.load(vec![0x20, 0x04, 0x06, 0x00, 0x60]);
    cpu.reset();
    cpu.stack_ptr = 0x42;
    assert_eq!(cpu.next(), Ok(false));
    assert_eq!(cpu.program_counter, 0x0604);
    assert_eq!(cpu.stack_ptr, 0x40);
    assert_eq!(cpu.mem_read(0x0141), 0x06);
    assert_eq!(cpu.mem_read(0x0140), 0x02);

    assert_eq!(cpu.next(), Ok(false));
    assert_eq!(cpu.program_counter, 0x0603);
    assert_eq!(cpu.stack_ptr, 0x42);
}

#[test]
fn jsr_then_rts_with_a_wrapping_stack_pointer() {
    let mut cpu = CPU::new();
    // JSR $0604; BRK; RTS
    cpu.load(vec![0x20, 0x04, 0x06, 0x00, 0x60]);
    cpu.reset();
    cpu.stack_ptr = 0x01;
    assert_eq!(cpu.next(), Ok(false));
    assert_eq!(cpu.stack_ptr, 0xff);
    assert_eq!(cpu.mem_read(0x0100), 0x06);
    assert_eq!(cpu.mem_read(0x01ff), 0x02);

    assert_eq!(cpu.next(), Ok(false));
    assert_eq!(cpu.program_counter, 0x0603);
    assert_eq!(cpu.stack_ptr, 0x01);
}

#[test]
fn indirect_jump_takes_its_high_byte_from_the_same_page() {
    let mut cpu = CPU::new();
    cpu.mem_write(0x30ff, 0x40);
    cpu.mem_write(0x3000, 0x50);
    cpu.mem_write(0x3100, 0x60);
    // JMP ($30ff)
    cpu.load(vec![0x6c, 0xff, 0x30]);
    cpu.reset();
    assert_eq!(cpu.next(), Ok(false));
    assert_eq!(cpu.program_counter, 0x5040);
}

#[test]
fn indirect_jump_within_a_page() {
    let mut cpu = CPU::new();
    cpu.mem_write(0x3010, 0x34);
    cpu.mem_write(0x3011, 0x12);
    // JMP ($3010)
    cpu.load(vec![0x6c, 0x10, 0x30]);
    cpu.reset();
    assert_eq!(cpu.next(), Ok(false));
    assert_eq!(cpu.program_counter, 0x1234);
}

#[test]
fn load_transfer_increment_halt() {
    let mut cpu = CPU::new();
    // LDA #$c0; TAX; INX; BRK
    assert_eq!(cpu.load_and_run(vec![0xa9, 0xc0, 0xaa, 0xe8, 0x00]), Ok(true));
    assert_eq!(cpu.register_x, 0xc1);
    assert_eq!(cpu.register_a, 0xc0);
    assert_eq!(cpu.status, NEGATIVE);
    assert_eq!(cpu.stack_ptr, 0x00);
    assert_eq!(cpu.program_counter, 0x0605);
}

#[test]
fn store_clear_load_halt() {
    let mut cpu = CPU::new();
    // LDA #$05; STA $05; LDA #$00; LDA $05; BRK
    let program: Vec<u8> = vec![0xa9, 0x05, 0x85, 0x05, 0xa9, 0x00, 0xa5, 0x05, 0x00];
    assert_eq!(cpu.load_and_run(program), Ok(true));
    assert_eq!(cpu.register_a, 0x05);
    assert_eq!(cpu.mem_read(0x0005), 0x05);
    assert_eq!(cpu.status, 0x00);
    assert_eq!(cpu.program_counter, 0x0609);
}

#[test]
fn reset_twice_is_reset_once() {
    let mut cpu = CPU::new();
    cpu.load(vec![0xa9, 0x01, 0x00]);
    cpu.register_a = 0x11;
    cpu.register_x = 0x22;
    cpu.register_y = 0x33;
    cpu.status = 0xff;
    cpu.stack_ptr = 0x44;
    cpu.program_counter = 0x1234;

    cpu.reset();
    let once: (u8, u8, u8, u8, u8, u16) = (
        cpu.register_a,
        cpu.register_x,
        cpu.register_y,
        cpu.status,
        cpu.stack_ptr,
        cpu.program_counter,
    );
    assert_eq!(once, (0x00, 0x00, 0x00, 0x00, 0x00, 0x0600));

    cpu.reset();
    let twice: (u8, u8, u8, u8, u8, u16) = (
        cpu.register_a,
        cpu.register_x,
        cpu.register_y,
        cpu.status,
        cpu.stack_ptr,
        cpu.program_counter,
    );
    assert_eq!(twice, once);
}

#[test]
fn reset_after_a_run_starts_the_program_again() {
    let mut cpu = CPU::new();
    assert_eq!(cpu.load_and_run(vec![0xa9, 0xc0, 0xaa, 0xe8, 0x00]), Ok(true));
    cpu.reset();
    assert_eq!(cpu.register_x, 0x00);
    assert_eq!(cpu.program_counter, 0x0600);
    assert_eq!(cpu.run(), Ok(true));
    assert_eq!(cpu.register_x, 0xc1);
}
