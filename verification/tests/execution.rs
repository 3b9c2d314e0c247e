//! Opcode execution against the machine state, screen and keypad.

use rusty_chip8::chip::Chip;
use rusty_chip8::display::FrameBuffer;
use rusty_chip8::instructions::Instruction;
use rusty_chip8::semantics::Fault;

fn no_keys() -> Vec<bool> {
    vec![false; 16]
}

fn run(chip: &mut Chip, fb: &mut FrameBuffer, bytes: &[u8]) {
    let keys = no_keys();
    chip.interpret(Instruction::new(bytes), fb, &keys).unwrap();
}

#[test]
fn test_jump() {
    let mut chip8 = Chip::new();
    let mut buffer = FrameBuffer::new();
    let keys = no_keys();
    chip8
        .interpret(Instruction::new(&[0x12, 0x28]), &mut buffer, &keys)
        .unwrap();

    assert_eq!(chip8.pc, 0x228);
}

#[test]
fn test_mvi_op6() {
    let mut chip8 = Chip::new();
    let mut buffer = FrameBuffer::new();
    let keys = no_keys();
    chip8
        .interpret(Instruction::new(&[0x60, 0x0C]), &mut buffer, &keys)
        .unwrap();

    assert_eq!(chip8.v[0], 0x0C);
}

#[test]
fn test_mvi_opa() {
    let mut chip8 = Chip::new();
    let mut buffer = FrameBuffer::new();
    let keys = no_keys();
    chip8
        .interpret(Instruction::new(&[0xA2, 0x2A]), &mut buffer, &keys)
        .unwrap();

    assert_eq!(chip8.i, 0x22A);
}

#[test]
fn test_adi_op7() {
    let mut chip8 = Chip::new();
    let mut buffer = FrameBuffer::new();
    let keys = no_keys();
    chip8
        .interpret(Instruction::new(&[0x70, 0x09]), &mut buffer, &keys)
        .unwrap();

    assert_eq!(chip8.v[0], 0x09);
}

#[test]
fn test_cls_clears_every_pixel() {
    let mut chip = Chip::new();
    let mut fb = FrameBuffer::new();
    fb.pixels[0] = true;
    fb.pixels[1000] = true;
    fb.pixels[2047] = true;
    run(&mut chip, &mut fb, &[0x00, 0xE0]);

    assert!(fb.pixels.iter().all(|p| !p));
    assert_eq!(chip.pc, 0x202);
}

#[test]
fn test_call_ret_round_trip() {
    let mut chip = Chip::new();
    let mut fb = FrameBuffer::new();
    assert_eq!(chip.pc, 0x200);
    run(&mut chip, &mut fb, &[0x23, 0x00]);
    assert_eq!(chip.pc, 0x300);
    assert_eq!(chip.sp, 1);
    run(&mut chip, &mut fb, &[0x00, 0xEE]);
    assert_eq!(chip.pc, 0x202);
    assert_eq!(chip.sp, 0);
}

#[test]
fn test_adi_wraps_without_flag() {
    let mut chip = Chip::new();
    let mut fb = FrameBuffer::new();
    run(&mut chip, &mut fb, &[0x60, 0xFF]);
    run(&mut chip, &mut fb, &[0x70, 0x01]);

    assert_eq!(chip.v[0], 0x00);
    assert_eq!(chip.v[0xF], 0x00);
}

#[test]
fn test_add_carry_set() {
    let mut chip = Chip::new();
    let mut fb = FrameBuffer::new();
    run(&mut chip, &mut fb, &[0x60, 0xFF]);
    run(&mut chip, &mut fb, &[0x61, 0x01]);
    run(&mut chip, &mut fb, &[0x80, 0x14]);

    assert_eq!(chip.v[0], 0x00);
    assert_eq!(chip.v[0xF], 1);
}

#[test]
fn test_add_carry_clear() {
    let mut chip = Chip::new();
    let mut fb = FrameBuffer::new();
    run(&mut chip, &mut fb, &[0x60, 0x01]);
    run(&mut chip, &mut fb, &[0x61, 0x01]);
    run(&mut chip, &mut fb, &[0x80, 0x14]);

    assert_eq!(chip.v[0], 0x02);
    assert_eq!(chip.v[0xF], 0);
}

#[test]
fn test_sub_with_borrow() {
    let mut chip = Chip::new();
    let mut fb = FrameBuffer::new();
    run(&mut chip, &mut fb, &[0x60, 0x00]);
    run(&mut chip, &mut fb, &[0x61, 0x01]);
    run(&mut chip, &mut fb, &[0x80, 0x15]);

    assert_eq!(chip.v[0], 0xFF);
    assert_eq!(chip.v[0xF], 0);
}

#[test]
fn test_sub_without_borrow() {
    let mut chip = Chip::new();
    let mut fb = FrameBuffer::new();
    run(&mut chip, &mut fb, &[0x60, 0x05]);
    run(&mut chip, &mut fb, &[0x61, 0x03]);
    run(&mut chip, &mut fb, &[0x80, 0x15]);

    assert_eq!(chip.v[0], 0x02);
    assert_eq!(chip.v[0xF], 1);
}

#[test]
fn test_subn_reversed_operands() {
    let mut chip = Chip::new();
    let mut fb = FrameBuffer::new();
    run(&mut chip, &mut fb, &[0x60, 0x03]);
    run(&mut chip, &mut fb, &[0x61, 0x05]);
    run(&mut chip, &mut fb, &[0x80, 0x17]);

    assert_eq!(chip.v[0], 0x02);
    assert_eq!(chip.v[0xF], 1);
}

#[test]
fn test_logic_ops() {
    let mut chip = Chip::new();
    let mut fb = FrameBuffer::new();
    run(&mut chip, &mut fb, &[0x60, 0b1100]);
    run(&mut chip, &mut fb, &[0x61, 0b1010]);
    run(&mut chip, &mut fb, &[0x80, 0x11]);
    assert_eq!(chip.v[0], 0b1110);

    run(&mut chip, &mut fb, &[0x60, 0b1100]);
    run(&mut chip, &mut fb, &[0x80, 0x12]);
    assert_eq!(chip.v[0], 0b1000);

    run(&mut chip, &mut fb, &[0x60, 0b1100]);
    run(&mut chip, &mut fb, &[0x80, 0x13]);
    assert_eq!(chip.v[0], 0b0110);

    run(&mut chip, &mut fb, &[0x80, 0x10]);
    assert_eq!(chip.v[0], chip.v[1]);
}

#[test]
fn test_shift_modern_in_place() {
    let mut chip = Chip::new();
    let mut fb = FrameBuffer::new();
    run(&mut chip, &mut fb, &[0x60, 0x05]);
    run(&mut chip, &mut fb, &[0x61, 0xF0]);
    run(&mut chip, &mut fb, &[0x80, 0x16]);

    assert_eq!(chip.v[0], 0x02);
    assert_eq!(chip.v[0xF], 1);
}

#[test]
fn test_shift_legacy_copies_vy() {
    let mut chip = Chip::with_quirk(false);
    let mut fb = FrameBuffer::new();
    run(&mut chip, &mut fb, &[0x60, 0x05]);
    run(&mut chip, &mut fb, &[0x61, 0xF0]);
    run(&mut chip, &mut fb, &[0x80, 0x16]);

    assert_eq!(chip.v[0], 0x78);
    assert_eq!(chip.v[0xF], 0);
}

#[test]
fn test_shift_left_drops_high_bit() {
    let mut chip = Chip::new();
    let mut fb = FrameBuffer::new();
    run(&mut chip, &mut fb, &[0x60, 0x81]);
    run(&mut chip, &mut fb, &[0x80, 0x1E]);

    assert_eq!(chip.v[0], 0x02);
    assert_eq!(chip.v[0xF], 1);
}

#[test]
fn test_skip_opcodes_stride() {
    // 3xnn taken and not taken.
    let mut chip = Chip::new();
    let mut fb = FrameBuffer::new();
    run(&mut chip, &mut fb, &[0x60, 0x05]);
    let pc = chip.pc;
    run(&mut chip, &mut fb, &[0x30, 0x05]);
    assert_eq!(chip.pc, pc + 4);
    let pc = chip.pc;
    run(&mut chip, &mut fb, &[0x30, 0x06]);
    assert_eq!(chip.pc, pc + 2);

    // 4xnn taken and not taken.
    let pc = chip.pc;
    run(&mut chip, &mut fb, &[0x40, 0x06]);
    assert_eq!(chip.pc, pc + 4);
    let pc = chip.pc;
    run(&mut chip, &mut fb, &[0x40, 0x05]);
    assert_eq!(chip.pc, pc + 2);

    // 5xy0 taken and not taken, with V1 = 5 = V0, then V1 = 6.
    run(&mut chip, &mut fb, &[0x61, 0x05]);
    let pc = chip.pc;
    run(&mut chip, &mut fb, &[0x50, 0x10]);
    assert_eq!(chip.pc, pc + 4);
    run(&mut chip, &mut fb, &[0x61, 0x06]);
    let pc = chip.pc;
    run(&mut chip, &mut fb, &[0x50, 0x10]);
    assert_eq!(chip.pc, pc + 2);

    // 9xy0 taken and not taken.
    let pc = chip.pc;
    run(&mut chip, &mut fb, &[0x90, 0x10]);
    assert_eq!(chip.pc, pc + 4);
    run(&mut chip, &mut fb, &[0x61, 0x05]);
    let pc = chip.pc;
    run(&mut chip, &mut fb, &[0x90, 0x10]);
    assert_eq!(chip.pc, pc + 2);
}

#[test]
fn test_jump_v0_adds_register() {
    let mut chip = Chip::new();
    let mut fb = FrameBuffer::new();
    run(&mut chip, &mut fb, &[0x60, 0x10]);
    run(&mut chip, &mut fb, &[0xB3, 0x00]);

    assert_eq!(chip.pc, 0x310);
}

#[test]
fn test_rand_fully_masked() {
    let mut chip = Chip::new();
    let mut fb = FrameBuffer::new();
    run(&mut chip, &mut fb, &[0x60, 0xAA]);
    run(&mut chip, &mut fb, &[0xC0, 0x00]);

    // Whatever byte was drawn, the zero mask pins the result.
    assert_eq!(chip.v[0], 0x00);
}

#[test]
fn test_execute_rand_applies_mask() {
    let mut chip = Chip::new();
    let mut fb = FrameBuffer::new();
    let keys = no_keys();
    chip.execute(Instruction::new(&[0xC0, 0x0F]), &mut fb, &keys, 0xAB)
        .unwrap();

    assert_eq!(chip.v[0], 0x0B);
}

#[test]
fn test_draw_wraps_and_collides() {
    let mut chip = Chip::new();
    let mut fb = FrameBuffer::new();
    // An 8x1 solid sprite at (60, 0): columns 60..63 and 0..3 of row 0.
    chip.mem[0x700] = 0xFF;
    run(&mut chip, &mut fb, &[0xA7, 0x00]);
    run(&mut chip, &mut fb, &[0x60, 60]);
    run(&mut chip, &mut fb, &[0x61, 0x00]);
    run(&mut chip, &mut fb, &[0xD0, 0x11]);

    for x in 60..64 {
        assert!(fb.get(x, 0));
    }
    for x in 0..4 {
        assert!(fb.get(x, 0));
    }
    for x in 4..60 {
        assert!(!fb.get(x, 0));
    }
    assert_eq!(chip.v[0xF], 0);

    // The same draw again toggles every pixel off and collides.
    run(&mut chip, &mut fb, &[0xD0, 0x11]);
    assert!(fb.pixels.iter().all(|p| !p));
    assert_eq!(chip.v[0xF], 1);
}

#[test]
fn test_wait_key_spins_then_reads() {
    let mut chip = Chip::new();
    let mut fb = FrameBuffer::new();
    let keys = no_keys();
    let pc = chip.pc;
    chip.interpret(Instruction::new(&[0xF0, 0x0A]), &mut fb, &keys)
        .unwrap();
    assert_eq!(chip.pc, pc);
    chip.interpret(Instruction::new(&[0xF0, 0x0A]), &mut fb, &keys)
        .unwrap();
    assert_eq!(chip.pc, pc);

    let mut keys = no_keys();
    keys[0x7] = true;
    chip.interpret(Instruction::new(&[0xF0, 0x0A]), &mut fb, &keys)
        .unwrap();
    assert_eq!(chip.v[0], 0x7);
    assert_eq!(chip.pc, pc + 2);
}

#[test]
fn test_skipkey_down_and_up() {
    let mut chip = Chip::new();
    let mut fb = FrameBuffer::new();
    let mut keys = no_keys();
    keys[0x4] = true;
    chip.v[0] = 0x4;

    let pc = chip.pc;
    chip.interpret(Instruction::new(&[0xE0, 0x9E]), &mut fb, &keys)
        .unwrap();
    assert_eq!(chip.pc, pc + 4);

    let pc = chip.pc;
    chip.interpret(Instruction::new(&[0xE0, 0xA1]), &mut fb, &keys)
        .unwrap();
    assert_eq!(chip.pc, pc + 2);

    chip.v[0] = 0x5;
    let pc = chip.pc;
    chip.interpret(Instruction::new(&[0xE0, 0x9E]), &mut fb, &keys)
        .unwrap();
    assert_eq!(chip.pc, pc + 2);
}

#[test]
fn test_timers_never_go_below_zero() {
    let mut chip = Chip::new();
    let mut fb = FrameBuffer::new();
    // DT := 2, ST := 1, then step a no-effect move several times.
    // Each executed opcode ticks both timers once, floored at zero.
    run(&mut chip, &mut fb, &[0x60, 0x02]);
    run(&mut chip, &mut fb, &[0xF0, 0x15]);
    assert_eq!(chip.dt, 1);
    run(&mut chip, &mut fb, &[0x60, 0x01]);
    run(&mut chip, &mut fb, &[0xF0, 0x18]);
    assert_eq!(chip.dt, 0);
    assert_eq!(chip.st, 0);
    for _ in 0..5 {
        run(&mut chip, &mut fb, &[0x61, 0x00]);
    }
    assert_eq!(chip.dt, 0);
    assert_eq!(chip.st, 0);
}

#[test]
fn test_delay_timer_read_back() {
    let mut chip = Chip::new();
    let mut fb = FrameBuffer::new();
    run(&mut chip, &mut fb, &[0x60, 0x10]);
    run(&mut chip, &mut fb, &[0xF0, 0x15]);
    // DT was set to 0x10 and ticked once after the set.
    run(&mut chip, &mut fb, &[0xF1, 0x07]);
    assert_eq!(chip.v[1], 0x0F);
}

#[test]
fn test_illegal_opcode_reported_with_context() {
    let mut chip = Chip::new();
    let mut fb = FrameBuffer::new();
    let keys = no_keys();
    let pc = chip.pc;
    let dt_before = chip.dt;
    let r = chip.interpret(Instruction::new(&[0x01, 0x23]), &mut fb, &keys);

    assert_eq!(r, Err(Fault::IllegalOpcode { opcode: 0x0123, pc: 0x200 }));
    assert_eq!(chip.pc, pc);
    assert_eq!(chip.dt, dt_before);
}

#[test]
fn test_stack_underflow_on_empty_return() {
    let mut chip = Chip::new();
    let mut fb = FrameBuffer::new();
    let keys = no_keys();
    let r = chip.interpret(Instruction::new(&[0x00, 0xEE]), &mut fb, &keys);

    assert_eq!(r, Err(Fault::StackUnderflow));
    assert_eq!(chip.pc, 0x200);
}

#[test]
fn test_stack_overflow_past_capacity() {
    let mut chip = Chip::new();
    let mut fb = FrameBuffer::new();
    let keys = no_keys();
    for _ in 0..16 {
        chip.interpret(Instruction::new(&[0x22, 0x00]), &mut fb, &keys)
            .unwrap();
    }
    assert_eq!(chip.sp, 16);
    let r = chip.interpret(Instruction::new(&[0x22, 0x00]), &mut fb, &keys);

    assert_eq!(r, Err(Fault::StackOverflow));
    assert_eq!(chip.sp, 16);
}

#[test]
fn test_sprite_char_points_into_font() {
    let mut chip = Chip::new();
    let mut fb = FrameBuffer::new();
    run(&mut chip, &mut fb, &[0x60, 0x00]);
    run(&mut chip, &mut fb, &[0xF0, 0x29]);
    assert_eq!(chip.i, 0x50);
    assert_eq!(chip.mem[chip.i as usize], 0xF0);

    run(&mut chip, &mut fb, &[0x60, 0x0A]);
    run(&mut chip, &mut fb, &[0xF0, 0x29]);
    assert_eq!(chip.i, 0x50 + 5 * 0xA);
}

#[test]
fn test_bcd_digits() {
    let mut chip = Chip::new();
    let mut fb = FrameBuffer::new();
    run(&mut chip, &mut fb, &[0x60, 254]);
    run(&mut chip, &mut fb, &[0xA3, 0x00]);
    run(&mut chip, &mut fb, &[0xF0, 0x33]);

    assert_eq!(chip.mem[0x300], 2);
    assert_eq!(chip.mem[0x301], 5);
    assert_eq!(chip.mem[0x302], 4);
}

#[test]
fn test_store_and_load_registers() {
    let mut chip = Chip::new();
    let mut fb = FrameBuffer::new();
    run(&mut chip, &mut fb, &[0x60, 0x11]);
    run(&mut chip, &mut fb, &[0x61, 0x22]);
    run(&mut chip, &mut fb, &[0x62, 0x33]);
    run(&mut chip, &mut fb, &[0xA3, 0x00]);
    run(&mut chip, &mut fb, &[0xF2, 0x55]);

    assert_eq!(chip.mem[0x300], 0x11);
    assert_eq!(chip.mem[0x301], 0x22);
    assert_eq!(chip.mem[0x302], 0x33);

    run(&mut chip, &mut fb, &[0x60, 0x00]);
    run(&mut chip, &mut fb, &[0x61, 0x00]);
    run(&mut chip, &mut fb, &[0x62, 0x00]);
    run(&mut chip, &mut fb, &[0xF2, 0x65]);

    assert_eq!(chip.v[0], 0x11);
    assert_eq!(chip.v[1], 0x22);
    assert_eq!(chip.v[2], 0x33);
}

#[test]
fn test_add_idx_accumulates() {
    let mut chip = Chip::new();
    let mut fb = FrameBuffer::new();
    run(&mut chip, &mut fb, &[0xA1, 0x00]);
    run(&mut chip, &mut fb, &[0x60, 0x20]);
    run(&mut chip, &mut fb, &[0xF0, 0x1E]);

    assert_eq!(chip.i, 0x120);
}

#[test]
fn test_end_to_end_two_instruction_rom() {
    let mut chip = Chip::new();
    let mut fb = FrameBuffer::new();
    let keys = no_keys();
    let rom: Vec<u8> = vec![0x60, 0x05, 0x70, 0x03];
    chip.load(&rom).unwrap();

    for _ in 0..2 {
        let pc = chip.pc as usize;
        let ins = Instruction::new(&[chip.mem[pc], chip.mem[pc + 1]]);
        chip.interpret(ins, &mut fb, &keys).unwrap();
    }

    assert_eq!(chip.v[0], 0x08);
    assert_eq!(chip.pc, 0x204);
}
