use nes_rust::cpu::CPU;
use nes_rust::MemAccess;

#[test]
fn branch_if_carry_clear() {
    let mut cpu = CPU::new();
    cpu.program_counter = 0x8000;
    cpu.mem_write(0x8000, 0b1111_1101); // Subtracts 3 from program counter

    cpu.status.0 = 0b0000_0001; // Carry flat set, will not branch
    cpu.branch_if_carry_clear();
    assert_eq!(cpu.program_counter, 0x8000);

    cpu.status.0 = 0; // Cary flat not set, will branch
    cpu.branch_if_carry_clear();
    assert_eq!(cpu.program_counter, 0x7FFE);
}

#[test]
fn branch_if_carry_set() {
    let mut cpu = CPU::new();
    cpu.program_counter = 0x8000;
    cpu.mem_write(0x8000, 0b1111_1101); // Subtracts 3 from program counter

    cpu.status.0 = 0; // Carry flag not set, will not branch
    cpu.branch_if_carry_set();
    assert_eq!(cpu.program_counter, 0x8000);

    cpu.status.0 = 0b0000_0001; // Cary flag set, will branch
    cpu.branch_if_carry_set();
    assert_eq!(cpu.program_counter, 0x7FFE);
}

#[test]
fn branch_if_equal() {
    let mut cpu = CPU::new();
    cpu.program_counter = 0x8000;
    cpu.mem_write(0x8000, 0b1111_1101);

    cpu.status.0 = 0; // Zero flag not set, will not branch
    cpu.branch_if_equal();
    assert_eq!(cpu.program_counter, 0x8000);

    cpu.status.0 = 0b0000_0010; // Zero flag is set, will branch
    cpu.branch_if_equal();
    assert_eq!(cpu.program_counter, 0x7FFE);
}

#[test]
fn branch_if_not_equal() {
    let mut cpu = CPU::new();
    cpu.program_counter = 0x8000;
    cpu.mem_write(0x8000, 0b1111_1101); // Subtracts 3 from program counter

    cpu.status.0 = 0b0000_0010; // Zero flag is set, will not branch
    cpu.branch_if_not_equal();
    assert_eq!(cpu.program_counter, 0x8000);

    cpu.status.0 = 0;
    cpu.branch_if_not_equal();
    assert_eq!(cpu.program_counter, 0x7FFE);
}

#[test]
fn branch_if_minus() {
    let mut cpu = CPU::new();
    cpu.program_counter = 0x8000;
    cpu.mem_write(0x8000, 0b1111_1101);

    cpu.status.0 = 0; // Will not branch
    cpu.branch_if_minus();
    assert_eq!(cpu.program_counter, 0x8000);

    cpu.status.0 = 0b10000000;
    cpu.branch_if_minus();
    assert_eq!(cpu.program_counter, 0x7FFE);
}

#[test]
fn branch_if_positive() {
    let mut cpu = CPU::new();
    cpu.program_counter = 0x8000;
    cpu.mem_write(0x8000, 0b1111_1101);

    cpu.status.0 = 0b1000_0000; // Is negative, will not branch
    cpu.branch_if_positive();
    assert_eq!(cpu.program_counter, 0x8000);

    cpu.status.0 = 0;
    cpu.branch_if_positive();
    assert_eq!(cpu.program_counter, 0x7FFE);
}

#[test]
fn branch_if_overflow_clear() {
    let mut cpu = CPU::new();
    cpu.program_counter = 0x8000;
    cpu.mem_write(0x8000, 0b1111_1101);

    cpu.status.0 = 0b0100_0000; // Overflow is set, will not branch
    cpu.branch_if_overflow_clear();
    assert_eq!(cpu.program_counter, 0x8000);

    cpu.status.0 = 0;
    cpu.branch_if_overflow_clear();
    assert_eq!(cpu.program_counter, 0x7FFE);
}

#[test]
fn branch_if_overflow_set() {
    let mut cpu = CPU::new();
    cpu.program_counter = 0x8000;
    cpu.mem_write(0x8000, 0b1111_1101);

    cpu.status.0 = 0; // Overflow not set, will not branch
    cpu.branch_if_overflow_set();
    assert_eq!(cpu.program_counter, 0x8000);

    cpu.status.0 = 0b0100_0000;
    cpu.branch_if_overflow_set();
    assert_eq!(cpu.program_counter, 0x7FFE);
}

// Jump test covered in the the main mod file instead
// Jump_subroutine test covered in the main mod file instead
