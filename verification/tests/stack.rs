use nes_rust::cpu::CPU;
use nes_rust::MemAccess;

#[test]
fn push_pop_upper_limit() {
    let mut cpu = CPU::new();
    cpu.stack_pointer = 0x0;
    cpu.push_stack(0xAB);
    assert_eq!(cpu.mem_read(0x100), 0xAB);
    assert_eq!(cpu.stack_pointer, 0xFF);

    assert_eq!(cpu.pop_stack(), 0xAB);
    assert_eq!(cpu.stack_pointer, 0x0);
}

#[test]
fn push_pop_u16() {
    let mut cpu = CPU::new();
    cpu.stack_pointer = 0x0;
    cpu.push_stack_u16(0xABCD);
    assert_eq!(cpu.stack_pointer, 0xFE);
    assert_eq!(cpu.mem_read(0x1FF), 0xCD);
    assert_eq!(cpu.mem_read(0x100), 0xAB);

    assert_eq!(cpu.pop_stack_u16(), 0xABCD);
    assert_eq!(cpu.stack_pointer, 0x0);
}

// push processor status to be done in mod.rs
