use nes_rust::cpu::CPU;
use nes_rust::MemAccess;

#[test]
fn simple_program() {
    let test_program: Vec<u8> = vec!(0xa9, 0x15, 0xaa, 0xe8, 0x00);
    let mut cpu = CPU::new();
    cpu.load_and_run(test_program);
    assert_eq!(cpu.register_a, 0x15);
    assert_eq!(cpu.register_x, 0x16);
    assert_eq!(cpu.status.0, 0b0010_0100);
    assert_eq!(cpu.program_counter, 0x8005);
}

#[test]
fn sta_stx_sty_instruction() {
    let mut cpu = CPU::new();
    cpu.load_and_run(vec!(0xA9, 0x25, 0xA2, 0x35, 0xA0, 0x45, 0x85, 0x15, 0x86, 0x25, 0x84, 0x35, 0x00));

    assert_eq!(cpu.program_counter, 0x800D);
    assert_eq!(cpu.mem_read(0x15), 0x25);
    assert_eq!(cpu.mem_read(0x25), 0x35);
    assert_eq!(cpu.mem_read(0x35), 0x45);
}

#[test]
fn adc_instruction() {
    let mut cpu = CPU::new();
    cpu.mem_write(0x70, 33);
    cpu.load_and_run(vec!(0xA9, 120, 0x65, 0x70, 0x0));

    assert_eq!(cpu.program_counter, 0x8005);
    assert_eq!(cpu.register_a, 153);
    assert_eq!(cpu.status.0, 0b1110_0100);
}

#[test]
fn and_instruction() {
    let mut cpu = CPU::new();
    cpu.load_and_run(vec!(0xA9, 0b0001111, 0x29, 0b11111010, 0x00));

    assert_eq!(cpu.register_a, 0b00001010);
    assert_eq!(cpu.program_counter, 0x8005);
}

#[test]
fn asl_instruction() {
    let mut cpu = CPU::new();
    cpu.load_and_run(vec!(0xA9, 0b1011_0001, 0x0A, 0x00));

    assert_eq!(cpu.register_a, 0b0110_0010);
    assert_eq!(cpu.program_counter, 0x8004);
}

#[test]
fn bcc_instruction() {
    let mut cpu = CPU::new();
    cpu.load_and_run(vec!(0x90, 0b1111_1011, 0x00)); // subtracts 5 from PC to get back to BRK command before 0x8000

    assert_eq!(cpu.program_counter, 0x7FFE);
}

#[test]
fn bcs_instruction() {
    let mut cpu = CPU::new();
    cpu.load_and_run(vec!(0xA9, 0b10000000, 0x0A, 0xB0, 0b1111_1010, 0x00)); // subtracts 6 from PC to get back to BRK command at 0x8000

    assert_eq!(cpu.program_counter, 0x8000);
}

#[test]
fn beq_instruction() {
    let mut cpu = CPU::new();
    cpu.load_and_run(vec!(0xA9, 0x00, 0xF0, 0b1111_1011, 0x00));

    assert_eq!(cpu.program_counter, 0x8000);
}

#[test]
fn bit_instruction() {
    let mut cpu = CPU::new();
    cpu.mem_write(0xABAB, 0b1101_1010);
    cpu.load_and_run(vec!(0xA9, 0x0F, 0x2C, 0xAB, 0xAB, 0x00));

    assert_eq!(cpu.status.0, 0b1110_0100);
}

#[test]
fn bmi_instruction() {
    let mut cpu = CPU::new();
    cpu.load_and_run(vec!(0xA9, 0xCC, 0x30, 0b1111_1011, 0x00));

    assert_eq!(cpu.program_counter, 0x8000);
}

#[test]
fn bne_instruction() {
    let mut cpu = CPU::new();
    cpu.load_and_run(vec!(0xA9, 0x01, 0xD0, 0b1111_1011, 0x00));

    assert_eq!(cpu.program_counter, 0x8000);
}

#[test]
fn bpl_instruction() {
    let mut cpu = CPU::new();
    cpu.load_and_run(vec!(0xA9, 0x00, 0x10, 0b1111_1011, 0x00));

    assert_eq!(cpu.program_counter, 0x8000);
}

#[test]
fn bvc_instruction() {
    let mut cpu = CPU::new();
    cpu.mem_write(0xAB, 0b1011_0000);
    cpu.load_and_run(vec!(0xA9, 0x00, 0x24, 0xAB, 0x50, (7 as i8).wrapping_neg() as u8, 0x00));

    assert_eq!(cpu.program_counter, 0x8000);
}

#[test]
fn bvs_instruction() {
    let mut cpu = CPU::new();
    cpu.mem_write(0xAB, 0b1111_0000);
    cpu.load_and_run(vec!(0xA9, 0x00, 0x24, 0xAB, 0x70, (7 as i8).wrapping_neg() as u8, 0x00));

    assert_eq!(cpu.program_counter, 0x8000);
}

#[test]
fn clc_instruction() {
    let mut cpu = CPU::new();
    cpu.load_and_run(vec!(0xA9, 0b1011_0001, 0x0A, 0x18, 0x00));

    assert_eq!(cpu.status.0, 0b0010_0100);
    assert_eq!(cpu.program_counter, 0x8005);
}

#[test]
fn cld_instruction() {
    let mut cpu = CPU::new();
    cpu.status.0 = 0xFF;
    cpu.program_counter = 0x8000;
    cpu.load(vec!(0xD8, 0x00));
    cpu.run();

    assert_eq!(cpu.status.0, 0b1111_0111);
    assert_eq!(cpu.program_counter, 0x8002);
}

#[test]
fn cli_instruction() {
    let mut cpu = CPU::new();
    cpu.status.0 = 0xFF;
    cpu.program_counter = 0x8000;
    cpu.load(vec!(0x58, 0x00));
    cpu.run();

    assert_eq!(cpu.status.0, 0b1111_1011);
    assert_eq!(cpu.program_counter, 0x8002);
}

#[test]
fn clv_instruction() {
    let mut cpu = CPU::new();
    cpu.status.0 = 0xFF;
    cpu.program_counter = 0x8000;
    cpu.load(vec!(0xB8, 0x00));
    cpu.run();

    assert_eq!(cpu.status.0, 0b1011_1111);
    assert_eq!(cpu.program_counter, 0x8002);
}

#[test]
fn cmp_instruction() {
    let mut cpu = CPU::new();
    cpu.mem_write_u16(0x7000, 0x15);
    cpu.load_and_run(vec!(0xA9, 0xA0, 0xCD, 0x00, 0x70, 0x00));

    assert_eq!(cpu.program_counter, 0x8006);
    assert_eq!(cpu.status.0, 0b1010_0101);
}

#[test]
fn cpx_instruction() {
    let mut cpu = CPU::new();
    cpu.register_x = 0x15;
    cpu.program_counter = 0x8000;
    cpu.mem_write_u16(0x700, 0x15);
    cpu.load(vec!(0xEC, 0x0, 0x7, 0x00));
    cpu.run();

    assert_eq!(cpu.program_counter, 0x8004);
    assert_eq!(cpu.status.0, 0b0010_0111);
}

#[test]
fn cpy_instruction() {
    let mut cpu = CPU::new();
    cpu.register_y = 0xAB;
    cpu.program_counter = 0x8000;
    cpu.mem_write_u16(0x700, 0xA0);
    cpu.load(vec!(0xCC, 0x0, 0x7, 0x00));
    cpu.run();

    assert_eq!(cpu.program_counter, 0x8004);
    assert_eq!(cpu.status.0, 0b0010_0101);
}

#[test]
fn dec_instruction() {
    let mut cpu = CPU::new();
    cpu.mem_write(0x700, 155);
    cpu.load_and_run(vec!(0xCE, 0x0, 0x7, 0x00));

    assert_eq!(cpu.mem_read(0x700), 154);
    assert_eq!(cpu.status.0, 0b1010_0100);
    assert_eq!(cpu.program_counter, 0x8004);
}

#[test]
fn dex_instruction() {
    let mut cpu = CPU::new();
    cpu.load_and_run(vec!(0xCA, 0x00));
    assert_eq!(cpu.register_x, 0xFF);
    assert_eq!(cpu.status.0, 0b1010_0100);
    assert_eq!(cpu.program_counter, 0x8002);
}

#[test]
fn dey_instruction() {
    let mut cpu = CPU::new();
    cpu.register_y = 0x1;
    cpu.program_counter = 0x8000;
    cpu.load(vec!(0x88, 0x00));
    cpu.run();
    assert_eq!(cpu.register_y, 0);
    assert_eq!(cpu.status.0, 0b0010_0110);
    assert_eq!(cpu.program_counter, 0x8002);
}

#[test]
fn eor_instruction() {
    let mut cpu = CPU::new();
    cpu.load_and_run(vec!(0xA9, 0xFF, 0x49, 0b1010_1010, 0x00));
    assert_eq!(cpu.program_counter, 0x8005);
    assert_eq!(cpu.register_a, 0b0101_0101);
    assert_eq!(cpu.status.0, 0b0010_0100);
}

#[test]
fn inc_instruction() {
    let mut cpu = CPU::new();
    cpu.mem_write(0x700, 0xD2);
    cpu.load_and_run(vec!(0xEE, 0x0, 0x7, 0x00));
    assert_eq!(cpu.program_counter, 0x8004);
    assert_eq!(cpu.mem_read(0x700), 0xD3);
    assert_eq!(cpu.status.0, 0b1010_0100);
}

#[test]
fn iny_instruction() {
    let mut cpu = CPU::new();
    cpu.load_and_run(vec!(0xA0, 210, 0xC8, 0x00));
    assert_eq!(cpu.program_counter, 0x8004);
    assert_eq!(cpu.register_y, 211);
    assert_eq!(cpu.status.0, 0b1010_0100);
}

#[test]
fn ldx_instruction() {
    let mut cpu = CPU::new();
    cpu.load_and_run(vec!(0xA2, 0xFF, 0x00));
    assert_eq!(cpu.program_counter, 0x8003);
    assert_eq!(cpu.register_x, 0xFF);
    assert_eq!(cpu.status.0, 0b1010_0100);
}

#[test]
fn ldy_instruction() {
    let mut cpu = CPU::new();
    cpu.load_and_run(vec!(0xA0, 0x32, 0x00));
    assert_eq!(cpu.program_counter, 0x8003);
    assert_eq!(cpu.register_y, 0x32);
    assert_eq!(cpu.status.0, 0b0010_0100);
}

#[test]
fn jmp_instruction() {
    let mut cpu = CPU::new();
    cpu.mem_write_u16(0x700, 0xABCD);
    cpu.load_and_run(vec!(0x4C, 0x05, 0x80, 0x00, 0x00, 0x6C, 0x00, 0x7, 0x00));
    assert_eq!(cpu.program_counter, 0xABCE);
}

#[test]
fn jsr_rts_instructions() {
    let mut cpu = CPU::new();
    cpu.load_and_run(vec!(0x20, 0x06, 0x80, 0xA2, 0x69, 0x00, 0xA0, 0xDC, 0x60, 0x0));
    assert_eq!(cpu.program_counter, 0x8006);
    assert_eq!(cpu.register_x, 0x69);
    assert_eq!(cpu.register_y, 0xDC);
}

#[test]
fn lsr_instruction() {
    let mut cpu = CPU::new();
    cpu.load_and_run(vec!(0xA9, 0b0000_0001, 0x4A, 0x00));
    assert_eq!(cpu.program_counter, 0x8004);
    assert_eq!(cpu.register_a, 0);
    assert_eq!(cpu.status.0, 0b0010_0111);
}

#[test]
fn nop_instruction() {
    let mut cpu = CPU::new();
    cpu.load_and_run(vec!(0xEA, 0xEA, 0x00));
    assert_eq!(cpu.program_counter, 0x8003);
}

#[test]
fn ora_instruction() {
    let mut cpu = CPU::new();
    cpu.load_and_run(vec!(0xA9, 0b1000_0001, 0x09, 0b0001_1000, 0x00));
    assert_eq!(cpu.program_counter, 0x8005);
    assert_eq!(cpu.register_a, 0b1001_1001);
    assert_eq!(cpu.status.0, 0b1010_0100);
}

#[test]
fn pha_pla_instruction() {
    let mut cpu = CPU::new();
    cpu.load_and_run(vec!(0xA9, 0xF0, 0x48, 0x69, 0x5, 0x68, 0x00));
    assert_eq!(cpu.program_counter, 0x8007);
    assert_eq!(cpu.mem_read(0x1FD), 0xF0);
    assert_eq!(cpu.register_a, 0xF0);
    assert_eq!(cpu.stack_pointer, 0xFD);
}

#[test]
fn php_plp_instruction() {
    let mut cpu = CPU::new();
    cpu.load_and_run(vec!(0xA9, 0xFF, 0x08, 0x69, 0x10, 0x28, 0x0));
    assert_eq!(cpu.program_counter, 0x8007);
    assert_eq!(cpu.status.0, 0b1010_0100);
    assert_eq!(cpu.mem_read(0x1FD), 0b1010_0100);
}

#[test]
fn rol_ror_instruction() {
    let mut cpu = CPU::new();
    cpu.load_and_run(vec!(0xA9, 0b11000011, 0x2A, 0x2A, 0x6A, 00));
    assert_eq!(cpu.program_counter, 0x8006);
    assert_eq!(cpu.register_a, 0b1000_0110);
    assert_eq!(cpu.status.0, 0b1010_0101);
}

#[test]
fn rti_instruction() {
    let mut cpu = CPU::new();
    cpu.program_counter = 0x8000;
    cpu.push_stack_u16( 0x8050);
    cpu.push_stack( 0b1000_0010);
    cpu.load(vec!(0x40));
    cpu.run();
    assert_eq!(cpu.program_counter, 0x8051);
    assert_eq!(cpu.status.0, 0b1010_0010);
    assert_eq!(cpu.stack_pointer, 0xFD);
}

#[test]
fn sbc_instruction() {
    let mut cpu = CPU::new();
    cpu.load_and_run(vec!(0xA9, 0, 0xE9, 10, 0x0));
    assert_eq!(cpu.program_counter, 0x8005);
    assert_eq!(cpu.status.0, 0b1010_0100);
    assert_eq!(cpu.register_a, 245);
}

#[test]
fn sec_sed_sei_instructions() {
    let mut cpu = CPU::new();
    cpu.load_and_run(vec!(0x38, 0xF8, 0x78, 0x0));
    assert_eq!(cpu.program_counter, 0x8004);
    assert_eq!(cpu.status.0, 0b0010_1101);
}

#[test]
fn tax_tay_instructions() {
    let mut cpu = CPU::new();
    cpu.load_and_run(vec!(0xA9, 200, 0xAA, 0xA8, 0x0));
    assert_eq!(cpu.program_counter, 0x8005);
    assert_eq!(cpu.status.0, 0b1010_0100);
    assert_eq!(cpu.register_a, 200);
    assert_eq!(cpu.register_x, 200);
    assert_eq!(cpu.register_y, 200);
}

#[test]
fn tsx_txs_instructions() {
    let mut cpu = CPU::new();
    cpu.load_and_run(vec!(0xA2, 200, 0x9A, 0xE8, 0xBA, 0x0));
    assert_eq!(cpu.program_counter, 0x8006);
    assert_eq!(cpu.status.0, 0b1010_0100);
    assert_eq!(cpu.register_x, 200);
    assert_eq!(cpu.stack_pointer, 200);
}

#[test]
fn txa_instruction() {
    let mut cpu = CPU::new();
    cpu.load_and_run(vec!(0xA2, 0xFF, 0x8A, 0x00));
    assert_eq!(cpu.program_counter, 0x8004);
    assert_eq!(cpu.status.0, 0b1010_0100);
    assert_eq!(cpu.register_x, 0xFF);
    assert_eq!(cpu.register_a, 0xFF);
}

#[test]
fn tya_instruction() {
    let mut cpu = CPU::new();
    cpu.load_and_run(vec!(0xA0, 0xFF, 0x98, 0x00));
    assert_eq!(cpu.program_counter, 0x8004);
    assert_eq!(cpu.status.0, 0b1010_0100);
    assert_eq!(cpu.register_y, 0xFF);
    assert_eq!(cpu.register_a, 0xFF);
}

// ------------------------------------------------------------
// END OF INSTRUCTION TEST SECTION
// ------------------------------------------------------------

#[test]
fn read_and_write_little_endian_memory() {
    let mut cpu = CPU::new();
    // cpu.program_counter = 0x8000;

    cpu.mem_write_u16(0x8000, 0xABCD);
    assert_eq!(cpu.mem_read_u16(0x8000), 0xABCD);
}

#[test]
fn reset_cpu() {
    let mut cpu = CPU::new();
    cpu.register_a = 0x99;
    cpu.register_x = 0xAA;
    cpu.status.0 = 0xAB;
    cpu.mem_write_u16(0xFFFC, 0xABCD);

    cpu.reset();
    assert_eq!(cpu.register_a, 0);
    assert_eq!(cpu.register_x, 0);
    assert_eq!(cpu.status.0, 0b0010_0100);
    assert_eq!(cpu.program_counter, 0xABCD);
}
