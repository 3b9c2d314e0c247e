//! Bit-field extraction from instruction words.

use rusty_chip8::instructions::Instruction;
use rusty_chip8::instructions::Opcode;

#[test]
fn test_nnn() {
    let instruct = Instruction::new(&[0x12, 0x28]);

    assert_eq!(instruct.opcode, 0x1228);
    assert_eq!(instruct.nnn, 0x228);
}

#[test]
fn test_x() {
    let instruct = Instruction::new(&[0x43, 0xE0]);

    assert_eq!(instruct.opcode, 0x43E0);
    assert_eq!(instruct.x, 0x3);
}

#[test]
fn test_y() {
    let instruct = Instruction::new(&[0x51, 0x20]);

    assert_eq!(instruct.opcode, 0x5120);
    assert_eq!(instruct.y, 0x2);
}

#[test]
fn test_n() {
    let instruct = Instruction::new(&[0xD3, 0x42]);

    assert_eq!(instruct.opcode, 0xD342);
    assert_eq!(instruct.l_nibble, 0x2);
}

#[test]
fn test_f_nibble() {
    let instruct = Instruction::new(&[0xD3, 0x42]);

    assert_eq!(instruct.opcode, 0xD342);
    assert_eq!(instruct.f_nibble, 0xD);
}

#[test]
fn test_nn() {
    let instruct = Instruction::new(&[0x32, 0x54]);

    assert_eq!(instruct.opcode, 0x3254);
    assert_eq!(instruct.nn, 0x54);
}

#[test]
fn test_decode_jump_fields() {
    let instruct = Instruction::new(&[0x12, 0x28]);

    assert_eq!(instruct.f_nibble, 0x1);
    assert_eq!(instruct.nnn, 0x228);
    assert!(matches!(instruct.decode(), Opcode::Jump { nnn: 0x228 }));
}

#[test]
fn test_decode_draw_fields() {
    let instruct = Instruction::new(&[0xD3, 0x42]);

    assert_eq!(instruct.x, 0x3);
    assert_eq!(instruct.y, 0x4);
    assert_eq!(instruct.l_nibble, 0x2);
    assert!(matches!(instruct.decode(), Opcode::Draw { x: 0x3, y: 0x4, n: 0x2 }));
}

#[test]
fn test_decode_from_word() {
    let instruct = Instruction::from_word(0x8AB4);

    assert_eq!(instruct.opcode, 0x8AB4);
    assert_eq!(instruct.x, 0xA);
    assert_eq!(instruct.y, 0xB);
    assert!(matches!(instruct.decode(), Opcode::Add { x: 0xA, y: 0xB }));
}

#[test]
fn test_decode_illegal() {
    assert!(matches!(Instruction::from_word(0x0123).decode(), Opcode::Illegal));
    assert!(matches!(Instruction::from_word(0x5121).decode(), Opcode::Illegal));
    assert!(matches!(Instruction::from_word(0x8008).decode(), Opcode::Illegal));
    assert!(matches!(Instruction::from_word(0xE000).decode(), Opcode::Illegal));
    assert!(matches!(Instruction::from_word(0xF0FF).decode(), Opcode::Illegal));
}
