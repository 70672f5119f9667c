use chip8::{decode, Computer, Fault, Instruction};

fn machine_with(program: &[u8]) -> Computer {
    let mut c = Computer::new();
    c.load(program);
    c
}

fn run(c: &mut Computer, word: u16) {
    assert_eq!(c.run_instruction(word, 0), Ok(()));
}

#[test]
fn fresh_machine_state() {
    let c = Computer::new();
    assert_eq!(c.pc(), 0x200);
    assert_eq!(c.i(), 0);
    assert_eq!(c.registers(), &[0u8; 16]);
    assert!(c.pixels().iter().all(|&r| r == 0));
    assert_eq!(c.memory().len(), 4096);
    assert_eq!(&c.memory()[0..5], &[0xF0, 0x90, 0x90, 0x90, 0xF0]);
    assert_eq!(&c.memory()[75..80], &[0xF0, 0x80, 0xF0, 0x80, 0x80]);
    assert!(c.memory()[80..].iter().all(|&b| b == 0));
    assert!(c.stack().is_empty());
}

#[test]
fn load_then_set_register_scenario() {
    let mut c = machine_with(&[0x60, 0x05]);
    assert_eq!(c.tick(), Ok(0x6005));
    assert_eq!(c.registers()[0], 5);
    assert_eq!(c.pc(), 0x202);
}

#[test]
fn return_with_empty_stack_faults() {
    let mut c = machine_with(&[0x00, 0xEE]);
    assert_eq!(c.tick(), Err(Fault::StackUnderflow));
    assert_eq!(c.pc(), 0x200);
}

#[test]
fn load_truncates_at_end_of_memory() {
    let data = vec![7u8; 4000];
    let c = machine_with(&data);
    assert!(c.memory()[0x200..].iter().all(|&b| b == 7));
    assert_eq!(c.memory()[0x1FF], 0);
}

#[test]
fn decode_words() {
    assert_eq!(decode(0x00E0), Instruction::ClearScreen);
    assert_eq!(decode(0x00EE), Instruction::Return);
    assert_eq!(decode(0x1ABC), Instruction::Jump { nnn: 0xABC });
    assert_eq!(decode(0x8AB4), Instruction::AddReg { x: 0xA, y: 0xB });
    assert_eq!(decode(0xD12F), Instruction::Draw { x: 1, y: 2, n: 0xF });
    assert_eq!(decode(0xF365), Instruction::LoadRegisters { x: 3 });
    assert_eq!(decode(0x5121), Instruction::Unknown { word: 0x5121 });
    assert_eq!(decode(0x0123), Instruction::Unknown { word: 0x0123 });
}

#[test]
fn unknown_word_advances() {
    let mut c = Computer::new();
    run(&mut c, 0xFFFF);
    assert_eq!(c.pc(), 0x202);
}

#[test]
fn add_registers_with_carry() {
    let mut c = Computer::new();
    run(&mut c, 0x60C8);
    run(&mut c, 0x6164);
    run(&mut c, 0x8014);
    assert_eq!(c.registers()[0], 44);
    assert_eq!(c.registers()[0xF], 1);
    run(&mut c, 0x6201);
    run(&mut c, 0x8024);
    assert_eq!(c.registers()[0], 45);
    assert_eq!(c.registers()[0xF], 0);
}

#[test]
fn set_then_read_every_register() {
    let mut c = Computer::new();
    for x in 0..16u16 {
        run(&mut c, 0x6000 | (x << 8) | (0x30 + x));
        assert_eq!(c.registers()[x as usize], 0x30 + x as u8);
    }
}

#[test]
fn add_immediate_wraps_without_flag() {
    let mut c = Computer::new();
    run(&mut c, 0x6FF0);
    run(&mut c, 0x7F20);
    assert_eq!(c.registers()[0xF], 0x10);
}

#[test]
fn clear_screen_zeroes_display() {
    let mut c = Computer::new();
    run(&mut c, 0xD005);
    assert!(c.pixels().iter().any(|&r| r != 0));
    run(&mut c, 0x00E0);
    assert!(c.pixels().iter().all(|&r| r == 0));
}

#[test]
fn draw_font_zero_at_origin() {
    let mut c = Computer::new();
    run(&mut c, 0xD005);
    assert_eq!(c.pixels()[0], 0xF0u64 << 56);
    assert_eq!(c.pixels()[1], 0x90u64 << 56);
    assert_eq!(c.pixels()[4], 0xF0u64 << 56);
    assert_eq!(c.pixels()[5], 0);
    assert_eq!(c.registers()[0xF], 0);
}

#[test]
fn draw_twice_restores_and_flags() {
    let mut c = Computer::new();
    run(&mut c, 0x600A);
    run(&mut c, 0x6103);
    run(&mut c, 0xA005);
    run(&mut c, 0xD015);
    let after_first: Vec<u64> = c.pixels().to_vec();
    assert!(after_first.iter().any(|&r| r != 0));
    run(&mut c, 0xD015);
    assert!(c.pixels().iter().all(|&r| r == 0));
    assert_eq!(c.registers()[0xF], 1);
}

#[test]
fn draw_clips_right_and_bottom() {
    let mut c = Computer::new();
    run(&mut c, 0x603C);
    run(&mut c, 0x611E);
    run(&mut c, 0xD015);
    assert_eq!(c.pixels()[30], 0x0F);
    assert_eq!(c.pixels()[31], 0x09);
    assert_eq!(c.pixels()[0], 0);
    run(&mut c, 0x6050);
    run(&mut c, 0x6100);
    run(&mut c, 0xD015);
    assert_eq!(c.pixels()[0], 0);
}

#[test]
fn call_then_return() {
    let mut c = Computer::new();
    run(&mut c, 0x2300);
    assert_eq!(c.pc(), 0x300);
    assert_eq!(c.stack(), &[0x202]);
    run(&mut c, 0x00EE);
    assert_eq!(c.pc(), 0x202);
    assert!(c.stack().is_empty());
}

#[test]
fn store_then_load_registers() {
    let mut c = Computer::new();
    for x in 0..4u16 {
        run(&mut c, 0x6000 | (x << 8) | (x + 9));
    }
    run(&mut c, 0xA400);
    run(&mut c, 0xF355);
    assert_eq!(&c.memory()[0x400..0x405], &[9, 10, 11, 12, 0]);
    for x in 0..4u16 {
        run(&mut c, 0x6000 | (x << 8));
    }
    run(&mut c, 0xF365);
    assert_eq!(&c.registers()[0..4], &[9, 10, 11, 12]);
}

#[test]
fn subtract_keeps_destination_when_greater() {
    let mut c = Computer::new();
    run(&mut c, 0x6009);
    run(&mut c, 0x6104);
    run(&mut c, 0x8015);
    assert_eq!(c.registers()[0], 9);
    assert_eq!(c.registers()[0xF], 1);
    run(&mut c, 0x8105);
    assert_eq!(c.registers()[1], 0xFB);
    assert_eq!(c.registers()[0xF], 0);
}

#[test]
fn reverse_subtract() {
    let mut c = Computer::new();
    run(&mut c, 0x6004);
    run(&mut c, 0x6109);
    run(&mut c, 0x8017);
    assert_eq!(c.registers()[0], 4);
    assert_eq!(c.registers()[0xF], 1);
    run(&mut c, 0x8107);
    assert_eq!(c.registers()[1], 0xFB);
    assert_eq!(c.registers()[0xF], 0);
}

#[test]
fn shifts_set_flag() {
    let mut c = Computer::new();
    run(&mut c, 0x6081);
    run(&mut c, 0x8006);
    assert_eq!(c.registers()[0], 0x40);
    assert_eq!(c.registers()[0xF], 1);
    run(&mut c, 0x6081);
    run(&mut c, 0x800E);
    assert_eq!(c.registers()[0], 0x02);
    assert_eq!(c.registers()[0xF], 1);
}

#[test]
fn bitwise_operations() {
    let mut c = Computer::new();
    run(&mut c, 0x60CC);
    run(&mut c, 0x61AA);
    run(&mut c, 0x8011);
    assert_eq!(c.registers()[0], 0xEE);
    run(&mut c, 0x8012);
    assert_eq!(c.registers()[0], 0xAA);
    run(&mut c, 0x8013);
    assert_eq!(c.registers()[0], 0);
    run(&mut c, 0x8010);
    assert_eq!(c.registers()[0], 0xAA);
}

#[test]
fn skips() {
    let mut c = Computer::new();
    run(&mut c, 0x6005);
    run(&mut c, 0x3005);
    assert_eq!(c.pc(), 0x206);
    run(&mut c, 0x4005);
    assert_eq!(c.pc(), 0x208);
    run(&mut c, 0x6105);
    run(&mut c, 0x5010);
    assert_eq!(c.pc(), 0x20E);
    run(&mut c, 0x9010);
    assert_eq!(c.pc(), 0x210);
}

#[test]
fn jumps() {
    let mut c = Computer::new();
    run(&mut c, 0x1456);
    assert_eq!(c.pc(), 0x456);
    run(&mut c, 0x6010);
    run(&mut c, 0xB300);
    assert_eq!(c.pc(), 0x310);
}

#[test]
fn keys_and_wait() {
    let mut c = Computer::new();
    run(&mut c, 0x6007);
    run(&mut c, 0xE09E);
    assert_eq!(c.pc(), 0x204);
    run(&mut c, 0xE0A1);
    assert_eq!(c.pc(), 0x208);
    run(&mut c, 0x61AA);
    run(&mut c, 0xF10A);
    assert_eq!(c.registers()[1], 0xAA);
    c.keypress(9);
    c.keypress(7);
    run(&mut c, 0xE09E);
    assert_eq!(c.pc(), 0x210);
    run(&mut c, 0xF10A);
    assert_eq!(c.registers()[1], 7);
}

#[test]
fn key_out_of_range_faults() {
    let mut c = Computer::new();
    run(&mut c, 0x6010);
    assert_eq!(c.run_instruction(0xE09E, 0), Err(Fault::KeyOutOfRange));
    assert_eq!(c.run_instruction(0xE0A1, 0), Err(Fault::KeyOutOfRange));
    assert_eq!(c.pc(), 0x202);
}

#[test]
fn timers_count_down_each_step() {
    let mut c = machine_with(&[0x60, 0x03, 0xF0, 0x15, 0xF0, 0x18, 0xF1, 0x07]);
    assert_eq!(c.tick(), Ok(0x6003));
    assert_eq!(c.tick(), Ok(0xF015));
    assert_eq!(c.delay_timer(), 3);
    assert_eq!(c.tick(), Ok(0xF018));
    assert_eq!(c.delay_timer(), 2);
    assert_eq!(c.sound_timer(), 3);
    assert_eq!(c.tick(), Ok(0xF107));
    assert_eq!(c.registers()[1], 1);
    assert_eq!(c.sound_timer(), 2);
}

#[test]
fn index_operations() {
    let mut c = Computer::new();
    run(&mut c, 0xA123);
    assert_eq!(c.i(), 0x123);
    run(&mut c, 0x6010);
    run(&mut c, 0xF01E);
    assert_eq!(c.i(), 0x133);
    run(&mut c, 0xFA29);
    assert_eq!(c.i(), 50);
}

#[test]
fn binary_coded_decimal() {
    let mut c = Computer::new();
    run(&mut c, 0x60FE);
    run(&mut c, 0xA300);
    run(&mut c, 0xF033);
    assert_eq!(&c.memory()[0x300..0x303], &[2, 5, 4]);
}

#[test]
fn memory_faults_leave_state() {
    let mut c = Computer::new();
    run(&mut c, 0xAFFE);
    assert_eq!(c.run_instruction(0xF033, 0), Err(Fault::MemoryOutOfRange));
    assert_eq!(c.run_instruction(0xF155, 0), Ok(()));
    assert_eq!(c.run_instruction(0xF255, 0), Err(Fault::MemoryOutOfRange));
    assert_eq!(c.run_instruction(0xF265, 0), Err(Fault::MemoryOutOfRange));
    assert_eq!(c.run_instruction(0xD003, 0), Err(Fault::MemoryOutOfRange));
    assert_eq!(c.pc(), 0x204);
}

#[test]
fn pc_out_of_range_faults() {
    let mut c = Computer::new();
    run(&mut c, 0x1FFF);
    assert_eq!(c.tick(), Err(Fault::PcOutOfRange));
    assert_eq!(c.run_instruction(0x6001, 0), Err(Fault::PcOutOfRange));
    assert_eq!(c.registers()[0], 0);
}

#[test]
fn random_is_masked() {
    let mut c = Computer::new();
    run(&mut c, 0x6AFF);
    assert_eq!(c.run_instruction(0xCA0F, 0xF3), Ok(()));
    assert_eq!(c.registers()[0xA], 0x03);
    let mut d = machine_with(&[0xC5, 0x00]);
    d.load(&[0xC5, 0x00]);
    assert_eq!(d.tick(), Ok(0xC500));
    assert_eq!(d.registers()[5], 0);
}

#[test]
fn tick_with_uses_given_byte() {
    let mut c = machine_with(&[0xC3, 0xF0]);
    assert_eq!(c.tick_with(0xAB), Ok(0xC3F0));
    assert_eq!(c.registers()[3], 0xA0);
}

#[test]
fn wait_for_key_can_block() {
    let mut c = Computer::new();
    assert!(!c.key_wait_blocks());
    c.set_key_wait_blocks(true);
    run(&mut c, 0xF20A);
    assert_eq!(c.pc(), 0x200);
    c.keypress(3);
    run(&mut c, 0xF20A);
    assert_eq!(c.pc(), 0x202);
    assert_eq!(c.registers()[2], 3);
}
