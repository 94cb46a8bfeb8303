use chip8::Chip8;

#[test]
fn test_reset() {
    let chip8 = Chip8::new();
    assert_eq!(chip8.pc, 0x200);
    assert_eq!(chip8.reg_i, 0);
    assert_eq!(chip8.delay_timer, 0);
    assert_eq!(chip8.sound_timer, 0);
    assert_eq!(chip8.keypress, None);
}

#[test]
fn test_fetch() {
    let mut chip8 = Chip8::new();
    chip8.pc = 0x004;
    chip8.memory[chip8.pc] = 4;
    chip8.memory[chip8.pc + 1] = 5;
    assert_eq!(chip8.fetch().code, (4 << 8) | 5);
}

// A legacy machine-code call is skipped: execution goes on with the next word.
#[test]
fn test_op_0nnn() {
    let mut chip8 = Chip8::new();
    chip8.load_vec(vec![0x0208]);
    chip8.tick(None).unwrap();
    assert_eq!(chip8.pc, 0x202);
}

#[test]
fn test_op_00ee() {
    let mut chip8 = Chip8::new();
    chip8.load_vec(vec![0x00ee]);
    chip8.stack.push(0x206).unwrap();
    assert_eq!(chip8.pc, 0x200);
    chip8.tick(None).unwrap();
    assert_eq!(chip8.pc, 0x206);
}

#[test]
fn test_op_1nnn() {
    let mut chip8 = Chip8::new();
    chip8.load_vec(vec![0x1208]);
    assert_eq!(chip8.pc, 0x200);
    chip8.tick(None).unwrap();
    assert_eq!(chip8.pc, 0x208);
}

#[test]
fn test_op_2nnn() {
    let mut chip8 = Chip8::new();
    chip8.load_vec(vec![0x2208]);
    assert_eq!(chip8.pc, 0x200);
    chip8.tick(None).unwrap();
    assert_eq!(chip8.pc, 0x208);
    assert_eq!(chip8.stack.pop(), Ok(0x202))
}

#[test]
fn test_op_3xnn_skip() {
    let mut chip8 = Chip8::new();
    chip8.load_vec(vec![0x3AFF]);
    chip8.reg[0xA] = 0xFF;
    chip8.tick(None).unwrap();
    assert_eq!(chip8.pc, 0x204);
}

#[test]
fn test_op_3xnn_no_skip() {
    let mut chip8 = Chip8::new();
    chip8.load_vec(vec![0x3AFF]);
    chip8.reg[0xA] = 0xF0;
    chip8.tick(None).unwrap();
    assert_ne!(chip8.pc, 0x204);
}

#[test]
fn test_op_4xnn_skip() {
    let mut chip8 = Chip8::new();
    chip8.load_vec(vec![0x4AFF]);
    chip8.reg[0xA] = 0xF0;
    chip8.tick(None).unwrap();
    assert_eq!(chip8.pc, 0x204);
}

#[test]
fn test_op_4xnn_no_skip() {
    let mut chip8 = Chip8::new();
    chip8.load_vec(vec![0x4AFF]);
    chip8.reg[0xA] = 0xFF;
    chip8.tick(None).unwrap();
    assert_ne!(chip8.pc, 0x204);
}

#[test]
fn test_op_5xy0_skip() {
    let mut chip8 = Chip8::new();
    chip8.load_vec(vec![0x5AB0]);
    chip8.reg[0xA] = 0xF0;
    chip8.reg[0xB] = 0xF0;
    chip8.tick(None).unwrap();
    assert_eq!(chip8.pc, 0x204);
}

#[test]
fn test_op_5xy0_no_skip() {
    let mut chip8 = Chip8::new();
    chip8.load_vec(vec![0x5AB0]);
    chip8.reg[0xA] = 0x0F;
    chip8.reg[0xB] = 0xF0;
    chip8.tick(None).unwrap();
    assert_ne!(chip8.pc, 0x204);
}

#[test]
fn test_op_6xnn() {
    let mut chip8 = Chip8::new();
    chip8.load_vec(vec![0x6A45]);
    chip8.tick(None).unwrap();
    assert_eq!(chip8.reg[0xA], 0x45);
}

#[test]
fn test_op_7xnn_wrap() {
    let mut chip8 = Chip8::new();
    chip8.load_vec(vec![0x7A02]);
    chip8.reg[0xA] = 0xFF;
    chip8.tick(None).unwrap();
    assert_eq!(chip8.reg[0xA], 0x01);
    assert_ne!(chip8.reg[0xF], 1);
}

#[test]
fn test_op_7xnn_no_wrap() {
    let mut chip8 = Chip8::new();
    chip8.load_vec(vec![0x7A10]);
    chip8.reg[0xA] = 0x0F;
    chip8.tick(None).unwrap();
    assert_eq!(chip8.reg[0xA], 0x0F + 0x10);
}

#[test]
fn test_op_8xy0() {
    let mut chip8 = Chip8::new();
    chip8.load_vec(vec![0x8AB0]);
    chip8.reg[0xA] = 7;
    chip8.reg[0xB] = 10;
    chip8.tick(None).unwrap();
    assert_eq!(chip8.reg[0xA], 10);
}

#[test]
fn test_op_8xy2() {
    let mut chip8 = Chip8::new();
    chip8.load_vec(vec![0x8AB2]);
    chip8.reg[0xA] = 0b11111100;
    chip8.reg[0xB] = 0b00111111;
    chip8.tick(None).unwrap();
    assert_eq!(chip8.reg[0xA], 0b00111100);
    assert_eq!(chip8.reg[0xB], 0b00111111);
}

#[test]
fn test_op_8xy4_carry() {
    let mut chip8 = Chip8::new();
    chip8.load_vec(vec![0x8AB4]);
    chip8.reg[0xA] = 255;
    chip8.reg[0xB] = 7;
    chip8.tick(None).unwrap();
    assert_eq!(chip8.reg[0xA], 6);
    assert_eq!(chip8.reg[0xB], 7);
    assert_eq!(chip8.reg[0xF], 1)
}

#[test]
fn test_op_8xy4_no_carry() {
    let mut chip8 = Chip8::new();
    chip8.load_vec(vec![0x8AB4]);
    chip8.reg[0xA] = 2;
    chip8.reg[0xB] = 5;
    chip8.tick(None).unwrap();
    assert_eq!(chip8.reg[0xA], 7);
    assert_eq!(chip8.reg[0xB], 5);
    assert_eq!(chip8.reg[0xF], 0)
}

// VF is 1 where no borrow occurs and 0 where one does.
#[test]
fn test_op_8xy5_borrow() {
    let mut chip8 = Chip8::new();
    chip8.load_vec(vec![0x8AB5]);
    chip8.reg[0xA] = 0;
    chip8.reg[0xB] = 7;
    chip8.tick(None).unwrap();
    assert_eq!(chip8.reg[0xA], 249);
    assert_eq!(chip8.reg[0xB], 7);
    assert_eq!(chip8.reg[0xF], 0)
}

#[test]
fn test_op_8xy5_no_borrow() {
    let mut chip8 = Chip8::new();
    chip8.load_vec(vec![0x8AB5]);
    chip8.reg[0xA] = 7;
    chip8.reg[0xB] = 5;
    chip8.tick(None).unwrap();
    assert_eq!(chip8.reg[0xA], 2);
    assert_eq!(chip8.reg[0xB], 5);
    assert_eq!(chip8.reg[0xF], 1)
}

#[test]
fn test_op_annn() {
    let mut chip8 = Chip8::new();
    chip8.load_vec(vec![0xa123]);
    chip8.tick(None).unwrap();
    assert_eq!(chip8.reg_i, 0x123);
}

#[test]
fn test_op_dxyn() {
    let mut chip8 = Chip8::new();
    chip8.load_vec(vec![0xd003, 0xd003]);
    chip8.reg_i = 0;
    chip8.tick(None).unwrap();
    assert!(chip8.display[0]);
    assert_eq!(chip8.reg[0xF], 0);
    chip8.tick(None).unwrap();
    assert!(!chip8.display[0]);
    assert_eq!(chip8.reg[0xF], 1);
}

#[test]
fn test_op_fx07() {
    let mut chip8 = Chip8::new();
    chip8.load_vec(vec![0xF207]);
    chip8.tick(None).unwrap();
    assert_eq!(chip8.reg[2], chip8.delay_timer);
}

#[test]
fn test_op_fx15() {
    let mut chip8 = Chip8::new();
    chip8.load_vec(vec![0xFA15]);
    chip8.reg[0xA] = 57;
    chip8.tick(None).unwrap();
    assert_eq!(chip8.delay_timer, 57);
}

#[test]
fn test_op_fx18() {
    let mut chip8 = Chip8::new();
    chip8.load_vec(vec![0xFB18]);
    chip8.reg[0xB] = 53;
    chip8.tick(None).unwrap();
    assert_eq!(chip8.sound_timer, 53);
}

#[test]
fn test_op_fx29() {
    let mut chip8 = Chip8::new();
    chip8.load_vec(vec![0xFA29]);
    chip8.reg[0xA] = 0xE;
    chip8.tick(None).unwrap();
    assert_eq!(chip8.reg_i, 70);
}

#[test]
fn test_op_fx65() {
    let mut chip8 = Chip8::new();
    chip8.memory.fill(0xAA);
    chip8.load_vec(vec![0xF265]);
    chip8.tick(None).unwrap();
    assert_eq!(chip8.reg[0], 0xAA);
    assert_eq!(chip8.reg[1], 0xAA);
    assert_eq!(chip8.reg[2], 0xAA);
}
