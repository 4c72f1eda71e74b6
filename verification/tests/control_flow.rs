//! Branches, jumps, calls and returns.

use wasm_nes_emulator::cpu::CPU;

#[test]
fn bpl_true() {
    let mut cpu = CPU::new();
    cpu.load_and_run(vec![0xa9, 0x05, 0x10, 0x02, 0xa9, 0x00, 0x00]).unwrap();

    assert_eq!(cpu.register_a, 0x05);
}

#[test]
fn bpl_false() {
    let mut cpu = CPU::new();
    cpu.load_and_run(vec![0xa9, 0x85, 0x10, 0x02, 0xa9, 0x00, 0x00]).unwrap();

    assert_eq!(cpu.register_a, 0x00);
}

#[test]
fn bmi_true() {
    let mut cpu = CPU::new();

    cpu.load_and_run(vec![0xa9, 0x85, 0x30, 0x02, 0xa9, 0x00, 0x00]).unwrap();

    assert_eq!(cpu.register_a, 0x85);
}

#[test]
fn bmi_false() {
    let mut cpu = CPU::new();
    cpu.load_and_run(vec![0xa9, 0x05, 0x30, 0x02, 0xa9, 0x00, 0x00]).unwrap();

    assert_eq!(cpu.register_a, 0x00);
}

#[test]
fn bvc_true() {
    let mut cpu = CPU::new();

    cpu.load_and_run(vec![0xa9, 0x05, 0x69, 0x01, 0x50, 0x02, 0xa9, 0x00, 0x00]).unwrap();

    assert_eq!(cpu.register_a, 0x06); // the program has added 1
}

#[test]
fn bvc_false() {
    let mut cpu = CPU::new();
    cpu.load_and_run(vec![0xa9, 0x7f, 0x69, 0x01, 0x50, 0x02, 0xa9, 0x00, 0x00]).unwrap();

    assert_eq!(cpu.register_a, 0x00);
}

#[test]
fn bvs_true() {
    let mut cpu = CPU::new();
    cpu.load_and_run(vec![0xa9, 0x7f, 0x69, 0x01, 0x70, 0x02, 0xa9, 0x00, 0x00]).unwrap();

    assert_eq!(cpu.register_a, 0x80); // the program has added 1
}

#[test]
fn bvs_false() {
    let mut cpu = CPU::new();
    cpu.load_and_run(vec![0xa9, 0x05, 0x69, 0x01, 0x70, 0x02, 0xa9, 0x00, 0x00]).unwrap();

    assert_eq!(cpu.register_a, 0x00);
}

#[test]
fn bcc_true() {
    let mut cpu = CPU::new();
    cpu.load_and_run(vec![0xa9, 0xff, 0x69, 0x01, 0x90, 0x02, 0xa9, 0x00, 0x00]).unwrap();

    assert_eq!(cpu.register_a, 0x00);
}

#[test]
fn bcc_false() {
    let mut cpu = CPU::new();

    cpu.load_and_run(vec![0xa9, 0x0f, 0x69, 0x01, 0x90, 0x02, 0xa9, 0x00, 0x00]).unwrap();

    assert_eq!(cpu.register_a, 0x10); // the program has added 1
}

#[test]
fn bcs_true() {
    let mut cpu = CPU::new();
    cpu.load_and_run(vec![0xa9, 0xff, 0x69, 0x01, 0xB0, 0x02, 0xa9, 0x00, 0x00]).unwrap();

    assert_eq!(cpu.register_a, 0x00);
}

#[test]
fn bcs_false() {
    let mut cpu = CPU::new();

    cpu.load_and_run(vec![0xa9, 0x0f, 0x69, 0x01, 0xB0, 0x02, 0xa9, 0x00, 0x00]).unwrap();

    assert_eq!(cpu.register_a, 0x00);
}

#[test]
fn bne_true() {
    let mut cpu = CPU::new();
    cpu.load_and_run(vec![0xa9, 0x05, 0xD0, 0x02, 0xa9, 0x00, 0x00]).unwrap();

    assert_eq!(cpu.register_a, 0x05);
}

#[test]
fn bne_false() {
    let mut cpu = CPU::new();
    cpu.load_and_run(vec![0xD0, 0x02, 0xa9, 0x01, 0x00]).unwrap();

    assert_eq!(cpu.register_a, 0x00);
}

#[test]
fn beq_true() {
    let mut cpu = CPU::new();
    cpu.load_and_run(vec![0xF0, 0x02, 0xa9, 0x01, 0x00]).unwrap();

    assert_eq!(cpu.register_a, 0x01);
}

#[test]
fn beq_false() {
    let mut cpu = CPU::new();
    cpu.load_and_run(vec![0xa9, 0x05, 0xF0, 0x02, 0xa9, 0x00, 0x00]).unwrap();

    assert_eq!(cpu.register_a, 0x00);
}

#[test]
fn jmp_skip_some() {
    let mut cpu = CPU::with_origin(0x8000);

    cpu.load_and_run(vec![0x4c, 0x05, 0x80, 0xa9, 0x01, 0xa9, 0x02, 0x4c, 0x0c, 0x80, 0xa9, 0x00, 0x00]).unwrap();

    assert_eq!(cpu.register_a, 0x02);
}

#[test]
fn jsr() {
    let mut cpu = CPU::with_origin(0x8000);

    cpu.load(vec![0x20, 0x03, 0x80, 0x00]);
    cpu.reset();
    cpu.next().unwrap(); // JSR
    assert_eq!(cpu.mem_read(0x1ff), 0x80);
    assert_eq!(cpu.mem_read(0x1fe), 0x02);
    assert_eq!(cpu.program_counter, 0x8003);
}

#[test]
fn rts() {
    let mut cpu = CPU::with_origin(0x8000);

    cpu.load(vec![0x20, 0x05, 0x80, 0xa2, 0x05, 0xa9, 0x05, 0x60, 0x00]);
    cpu.reset();
    cpu.next().unwrap(); // JSR
    cpu.next().unwrap(); // LDA
    cpu.next().unwrap(); // RTS
    println!("pc: {}", cpu.mem_read(cpu.program_counter));
    assert_eq!(cpu.register_a, 0x05);
    assert_eq!(cpu.register_x == 0x05, false);
    assert_eq!(cpu.program_counter, 0x8003);
}
