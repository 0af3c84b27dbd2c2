use nes_rust::cpu::addressing_modes::AddressingMode;
use nes_rust::cpu::CPU;
use nes_rust::MemAccess;

#[test]
fn dcp_test() {
    let mut cpu = CPU::new();
    cpu.register_a = 0x69;
    cpu.program_counter = 0x8000;
    cpu.mem_write(0x8000, 0xAB);
    cpu.mem_write(0xAB, 0x6A);
    cpu.decrement_compare_a(&AddressingMode::ZeroPage);
    assert_eq!(cpu.mem_read(0xAB), 0x69);
    assert_eq!(cpu.status.0, 0b0010_0111);
}

#[test]
fn isc_test() {
    let mut cpu = CPU::new();
    cpu.register_a = 0xFF;
    cpu.program_counter = 0x8000;
    cpu.mem_write(0x8000, 0xAB);
    cpu.mem_write(0xAB, 0xB);
    cpu.increment_subtract_carry(&AddressingMode::ZeroPage);
    assert_eq!(cpu.register_a, 0xF2);
    assert_eq!(cpu.mem_read(0xAB), 0xC);
    assert_eq!(cpu.status.0, 0b1010_0101);
}

#[test]
fn slo_test() {
    let mut cpu = CPU::new();
    cpu.register_a = 0x0F;
    cpu.program_counter = 0x8000;
    cpu.mem_write(0x8000, 0xAB);
    cpu.mem_write(0xAB, 0xF);
    cpu.shift_left_or_a(&AddressingMode::ZeroPage);
    assert_eq!(cpu.register_a, 0b0001_1111);
    assert_eq!(cpu.mem_read(0xAB), 0b0001_1110);
    assert_eq!(cpu.status.0, 0b0010_0100);
}

#[test]
fn sre_test() {
    let mut cpu = CPU::new();
    cpu.register_a = 0xF;
    cpu.program_counter = 0x8000;
    cpu.mem_write(0x8000, 0xAB);
    cpu.mem_write(0xAB, 0xF);
    cpu.shift_right_eor_a(&AddressingMode::ZeroPage);
    assert_eq!(cpu.register_a, 0b0000_1000);
    assert_eq!(cpu.mem_read(0xAB), 0b0000_0111);
    assert_eq!(cpu.status.0, 0b0010_0101);
}

#[test]
fn rla_test() {
    let mut cpu = CPU::new();
    cpu.register_a = 0xF;
    cpu.program_counter = 0x8000;
    cpu.mem_write(0x8000, 0xAB);
    cpu.mem_write(0xAB, 0xF);
    cpu.rotate_left_and_a(&AddressingMode::ZeroPage);
    assert_eq!(cpu.register_a, 0b0000_1110);
    assert_eq!(cpu.mem_read(0xAB), 0b0001_1110);
    assert_eq!(cpu.status.0, 0b0010_0100);
}

#[test]
fn rra_test() {
    let mut cpu = CPU::new();
    cpu.register_a = 0xB2;
    cpu.program_counter = 0x8000;
    cpu.status.0 = 0xE4;
    cpu.mem_write(0x8000, 0xAB);
    cpu.mem_write(0xAB, 0xA5);
    cpu.rotate_right_add_a(&AddressingMode::ZeroPage);
    assert_eq!(cpu.register_a, 0x5);
    assert_eq!(cpu.mem_read(0xAB), 82);
    assert_eq!(cpu.status.0, 0b0010_0101);
}
