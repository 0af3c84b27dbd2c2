use nes_rust::cpu::execution::Halt;
use nes_rust::cpu::snake::{
    color, feed_random, press_key, read_screen_state, set_random, snake_program, Key, SNAKE_ORIGIN,
};
use nes_rust::cpu::CPU;
use nes_rust::MemAccess;

#[test]
fn program_bytes() {
    let program = snake_program();
    assert_eq!(program.len(), 309);
    assert_eq!(&program[..4], &[0x20, 0x06, 0x06, 0x20]);
    assert_eq!(&program[305..], &[0xca, 0xd0, 0xfb, 0x60]);
}

#[test]
fn colours() {
    assert_eq!(color(0), (0, 0, 0));
    assert_eq!(color(1), (255, 255, 255));
    assert_eq!(color(2), (128, 128, 128));
    assert_eq!(color(9), (128, 128, 128));
    assert_eq!(color(3), (255, 0, 0));
    assert_eq!(color(10), (255, 0, 0));
    assert_eq!(color(4), (0, 255, 0));
    assert_eq!(color(11), (0, 255, 0));
    assert_eq!(color(5), (0, 0, 255));
    assert_eq!(color(12), (0, 0, 255));
    assert_eq!(color(6), (255, 0, 255));
    assert_eq!(color(13), (255, 0, 255));
    assert_eq!(color(7), (255, 255, 0));
    assert_eq!(color(14), (255, 255, 0));
    assert_eq!(color(8), (0, 255, 255));
    assert_eq!(color(15), (0, 255, 255));
    assert_eq!(color(255), (0, 255, 255));
}

#[test]
fn keys() {
    let mut cpu = CPU::new();
    press_key(&mut cpu, Key::Up);
    assert_eq!(cpu.mem_read(0xFF), 0x77);
    press_key(&mut cpu, Key::Down);
    assert_eq!(cpu.mem_read(0xFF), 0x73);
    press_key(&mut cpu, Key::Left);
    assert_eq!(cpu.mem_read(0xFF), 0x61);
    press_key(&mut cpu, Key::Right);
    assert_eq!(cpu.mem_read(0xFF), 0x64);
}

#[test]
fn frame_follows_the_screen() {
    let mut cpu = CPU::new();
    let mut frame = [0u8; 3072];
    // A black screen on a black frame: nothing to do.
    assert!(!read_screen_state(&mut cpu, &mut frame));
    cpu.mem_write(0x0200, 1);
    cpu.mem_write(0x0201, 3);
    cpu.mem_write(0x05FF, 5);
    cpu.mem_write(0x0600, 1);
    cpu.mem_write(0x01FF, 1);
    assert!(read_screen_state(&mut cpu, &mut frame));
    assert_eq!(&frame[..9], &[255, 255, 255, 255, 0, 0, 0, 0, 0]);
    assert_eq!(&frame[3069..], &[0, 0, 255]);
    assert_eq!(frame.iter().filter(|b| **b != 0).count(), 5);
    assert!(!read_screen_state(&mut cpu, &mut frame));
    cpu.mem_write(0x0201, 0);
    assert!(read_screen_state(&mut cpu, &mut frame));
    assert_eq!(&frame[..9], &[255, 255, 255, 0, 0, 0, 0, 0, 0]);
}

#[test]
fn game_starts_drawing() {
    let mut cpu = CPU::new();
    cpu.load_at(snake_program(), SNAKE_ORIGIN);
    cpu.reset();
    cpu.mem_write(0xFE, 0x07);
    assert_eq!(cpu.program_counter, 0x0600);
    assert_eq!(cpu.run_for(2000), Halt::StepLimit);
    assert_eq!(cpu.fault(), None);
    let mut frame = [0u8; 3072];
    assert!(read_screen_state(&mut cpu, &mut frame));
}

#[test]
fn random_byte_is_between_one_and_fifteen() {
    let mut cpu = CPU::new();
    let mut rng = rand::thread_rng();
    let mut seen = [false; 16];
    for _ in 0..2000 {
        let value = feed_random(&mut cpu, &mut rng);
        assert!(1 <= value && value < 16);
        assert_eq!(cpu.mem_read(0xFE), value);
        seen[value as usize] = true;
    }
    assert!(!seen[0]);
    assert!(seen[1..].iter().filter(|s| **s).count() > 1);
    assert_eq!(cpu.fault(), None);
}

#[test]
fn random_byte_can_be_given() {
    let mut cpu = CPU::new();
    set_random(&mut cpu, 0xC3);
    assert_eq!(cpu.mem_read(0xFE), 0xC3);
    assert_eq!(cpu.mem_read(0xFF), 0x00);
}
