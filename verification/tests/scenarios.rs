use nes_rust::bus::{Bus, Fault};
use nes_rust::cpu::addressing_modes::{AddressingMode, Target};
use nes_rust::cpu::execution::{Halt, RUN_LIMIT};
use nes_rust::cpu::opcodes::{decode, Mnemonic, OpCode};
use nes_rust::cpu::CPU;
use nes_rust::rom::Rom;
use nes_rust::MemAccess;
use nes_rust::Mirroring;

fn cartridge_with(prg: Vec<u8>, chr: Vec<u8>) -> Rom {
    Rom { prg_rom: prg, chr_rom: chr, mapper: 0, screen_mirroring: Mirroring::Horizontal }
}

#[test]
fn load_transfer_increment_program() {
    let mut cpu = CPU::new();
    cpu.load(vec!(0xA9, 0x05, 0xAA, 0xE8, 0x00));
    cpu.reset();
    assert_eq!(cpu.program_counter, 0x8000);
    let halt = cpu.run();
    assert_eq!(halt, Halt::Break);
    assert_eq!(cpu.register_a, 0x05);
    assert_eq!(cpu.register_x, 0x06);
    assert_eq!(cpu.status.0, 0x24);
    assert_eq!(cpu.program_counter, 0x8005);
}

#[test]
fn load_negative_sets_n_and_clears_z() {
    let mut cpu = CPU::new();
    cpu.load_and_run(vec!(0xA9, 0xC0, 0x00));
    assert_eq!(cpu.register_a, 0xC0);
    assert!(cpu.status.0 & 0x80 != 0);
    assert!(cpu.status.0 & 0x02 == 0);
}

#[test]
fn load_zero_sets_z() {
    let mut cpu = CPU::new();
    cpu.load_and_run(vec!(0xA9, 0x00, 0x00));
    assert!(cpu.status.0 & 0x02 != 0);
    assert!(cpu.status.0 & 0x80 == 0);
}

#[test]
fn set_flags_after_reset() {
    let mut cpu = CPU::new();
    cpu.load(vec!(0x38, 0xF8, 0x78, 0x00));
    cpu.reset();
    assert_eq!(cpu.status.0, 0x24);
    cpu.run();
    assert_eq!(cpu.status.0, 0x2D);
}

#[test]
fn indirect_jump_with_the_defect() {
    let mut cpu = CPU::new();
    cpu.indirect_bug_enabled = true;
    cpu.mem_write(0x11FF, 0xCD);
    cpu.mem_write(0x1100, 0xAB);
    cpu.mem_write(0x1200, 0x34);
    cpu.load(vec!(0x6C, 0xFF, 0x11));
    cpu.reset();
    assert_eq!(cpu.step(), None);
    assert_eq!(cpu.program_counter, 0xABCD);
}

#[test]
fn indirect_jump_without_the_defect() {
    let mut cpu = CPU::new();
    cpu.indirect_bug_enabled = false;
    cpu.mem_write(0x11FF, 0xCD);
    cpu.mem_write(0x1100, 0xAB);
    cpu.mem_write(0x1200, 0x34);
    cpu.load(vec!(0x6C, 0xFF, 0x11));
    cpu.reset();
    assert_eq!(cpu.step(), None);
    assert_eq!(cpu.program_counter, 0x34CD);
}

#[test]
fn defect_only_bites_at_the_end_of_a_page() {
    let mut cpu = CPU::new();
    cpu.indirect_bug_enabled = true;
    cpu.mem_write_u16(0x800, 0x01FE);
    cpu.mem_write(0x1FE, 0xCD);
    cpu.mem_write(0x1FF, 0xAB);
    cpu.mem_write(0x100, 0x77);
    cpu.program_counter = 0x800;
    assert_eq!(cpu.get_operand_address(&AddressingMode::Indirect), 0xABCD);
}

#[test]
fn word_round_trip_in_ram() {
    let mut cpu = CPU::new();
    for addr in [0x0000u16, 0x00FF, 0x07FF, 0x0800, 0x1234, 0x1FFE] {
        cpu.mem_write_u16(addr, 0xBEEF);
        assert_eq!(cpu.mem_read_u16(addr), 0xBEEF);
        assert_eq!(cpu.mem_read(addr), 0xEF);
        assert_eq!(cpu.mem_read(addr.wrapping_add(1)), 0xBE);
    }
    assert_eq!(cpu.fault(), None);
}

#[test]
fn push_pop_word_from_every_stack_pointer() {
    for sp in 0..=255u8 {
        let mut cpu = CPU::new();
        cpu.stack_pointer = sp;
        cpu.push_stack_u16(0x1234);
        assert_eq!(cpu.stack_pointer, sp.wrapping_sub(2));
        assert_eq!(cpu.pop_stack_u16(), 0x1234);
        assert_eq!(cpu.stack_pointer, sp);
    }
}

#[test]
fn stack_wraps_within_its_page() {
    let mut cpu = CPU::new();
    cpu.stack_pointer = 0x00;
    cpu.push_stack_u16(0xABCD);
    assert_eq!(cpu.mem_read(0x0100), 0xAB);
    assert_eq!(cpu.mem_read(0x01FF), 0xCD);
    assert_eq!(cpu.mem_read(0x0200), 0x00);
    assert_eq!(cpu.mem_read(0x00FF), 0x00);
}

#[test]
fn reset_twice_is_reset_once() {
    let mut cpu = CPU::new();
    cpu.mem_write_u16(0xFFFC, 0xC123);
    cpu.register_a = 1;
    cpu.register_y = 2;
    cpu.stack_pointer = 3;
    cpu.status.0 = 0xFF;
    cpu.reset();
    let once = (
        cpu.register_a,
        cpu.register_x,
        cpu.register_y,
        cpu.status.0,
        cpu.program_counter,
        cpu.stack_pointer,
    );
    cpu.reset();
    let twice = (
        cpu.register_a,
        cpu.register_x,
        cpu.register_y,
        cpu.status.0,
        cpu.program_counter,
        cpu.stack_pointer,
    );
    assert_eq!(once, (0, 0, 0, 0x24, 0xC123, 0xFD));
    assert_eq!(once, twice);
}

#[test]
fn ram_repeats_every_two_kilobytes() {
    let mut bus = Bus::empty();
    bus.mem_write(0x0123, 0x5A);
    assert_eq!(bus.mem_read(0x0123), 0x5A);
    assert_eq!(bus.mem_read(0x0923), 0x5A);
    assert_eq!(bus.mem_read(0x1123), 0x5A);
    assert_eq!(bus.mem_read(0x1923), 0x5A);
    bus.mem_write(0x1FFF, 0xA5);
    assert_eq!(bus.mem_read(0x07FF), 0xA5);
    assert_eq!(bus.cpu_vram[0x07FF], 0xA5);
}

#[test]
fn program_memory_of_sixteen_kilobytes_repeats() {
    let mut prg = vec![0u8; 0x4000];
    prg[0x0000] = 0x11;
    prg[0x3FFF] = 0x22;
    let mut bus = Bus::new(cartridge_with(prg, vec![0; 0x2000]));
    assert_eq!(bus.mem_read(0x8000), 0x11);
    assert_eq!(bus.mem_read(0xC000), 0x11);
    assert_eq!(bus.mem_read(0xBFFF), 0x22);
    assert_eq!(bus.mem_read(0xFFFF), 0x22);
    assert_eq!(bus.read_prg_rom(0xC000), 0x11);
}

#[test]
fn unmapped_addresses_read_zero_and_lose_writes() {
    let mut bus = Bus::empty();
    bus.mem_write(0x5000, 0x77);
    assert_eq!(bus.mem_read(0x5000), 0);
    assert_eq!(bus.mem_read(0x4000), 0);
    assert_eq!(bus.mem_read(0x7FFF), 0);
    assert_eq!(bus.mem_read(0x2002), 0);
    assert_eq!(bus.fault(), None);
}

#[test]
fn empty_program_memory_reads_zero() {
    let mut bus = Bus::new(cartridge_with(vec!(), vec!()));
    assert_eq!(bus.mem_read(0x8000), 0);
    assert_eq!(bus.mem_read(0xFFFF), 0);
    assert_eq!(bus.fault(), None);
}

#[test]
fn reading_a_write_only_register_is_a_fault() {
    for addr in [0x2000u16, 0x2001, 0x2003, 0x2005, 0x2006, 0x4014] {
        let mut bus = Bus::empty();
        assert_eq!(bus.mem_read(addr), 0);
        assert_eq!(bus.fault(), Some(Fault::IllegalRead(addr)));
    }
}

#[test]
fn a_fault_on_a_repeated_register_names_the_register() {
    let mut bus = Bus::empty();
    assert_eq!(bus.mem_read(0x3FF8), 0);
    assert_eq!(bus.fault(), Some(Fault::IllegalRead(0x2000)));
    let mut bus = Bus::empty();
    bus.mem_write(0x200A, 1);
    assert_eq!(bus.fault(), Some(Fault::IllegalWrite(0x2002)));
}

#[test]
fn writing_the_status_register_is_a_fault() {
    let mut bus = Bus::empty();
    bus.mem_write(0x2002, 1);
    assert_eq!(bus.fault(), Some(Fault::IllegalWrite(0x2002)));
}

#[test]
fn writing_a_cartridge_is_a_fault() {
    let mut bus = Bus::new(cartridge_with(vec![0; 0x4000], vec![0; 0x2000]));
    bus.mem_write(0x8000, 0x42);
    assert_eq!(bus.fault(), Some(Fault::IllegalWrite(0x8000)));
    assert_eq!(bus.mem_read(0x8000), 0);
}

#[test]
fn writing_the_blank_cartridge_is_allowed() {
    let mut bus = Bus::empty();
    bus.mem_write(0x8000, 0x42);
    bus.mem_write(0xFFFF, 0x43);
    assert_eq!(bus.fault(), None);
    assert_eq!(bus.mem_read(0x8000), 0x42);
    assert_eq!(bus.mem_read(0xFFFF), 0x43);
}

#[test]
fn a_loaded_cartridge_is_read_only() {
    let mut prg = vec![0u8; 0x8000];
    prg[0x7FFC] = 0x00;
    prg[0x7FFD] = 0x90;
    let mut cpu = CPU::new();
    cpu.load_rom(cartridge_with(prg, vec![0; 0x2000]));
    cpu.reset();
    assert_eq!(cpu.program_counter, 0x9000);
    cpu.mem_write(0x9000, 1);
    assert_eq!(cpu.fault(), Some(Fault::IllegalWrite(0x9000)));
}

#[test]
fn the_first_fault_is_kept() {
    let mut bus = Bus::empty();
    bus.mem_read(0x2005);
    bus.mem_write(0x2002, 0);
    bus.mem_read(0x4014);
    assert_eq!(bus.fault(), Some(Fault::IllegalRead(0x2005)));
}

#[test]
fn run_stops_at_a_fault() {
    let mut cpu = CPU::new();
    // LDA $2000 reads a write-only register.
    cpu.load(vec!(0xAD, 0x00, 0x20, 0xA2, 0x01, 0x00));
    cpu.reset();
    assert_eq!(cpu.run(), Halt::Fault(Fault::IllegalRead(0x2000)));
    assert_eq!(cpu.program_counter, 0x8003);
    assert_eq!(cpu.register_x, 0);
    assert_eq!(cpu.step(), Some(Halt::Fault(Fault::IllegalRead(0x2000))));
    assert_eq!(cpu.program_counter, 0x8003);
}

#[test]
fn run_stops_at_an_unknown_opcode() {
    let mut cpu = CPU::new();
    cpu.load(vec!(0xE8, 0x02, 0xE8));
    cpu.reset();
    assert_eq!(cpu.run(), Halt::UnknownOpcode(0x02));
    assert_eq!(cpu.register_x, 1);
    assert_eq!(cpu.program_counter, 0x8001);
    assert_eq!(cpu.step(), Some(Halt::UnknownOpcode(0x02)));
    assert_eq!(cpu.fault(), None);
}

#[test]
fn run_for_stops_at_its_limit() {
    let mut cpu = CPU::new();
    // INX; JMP $8000
    cpu.load(vec!(0xE8, 0x4C, 0x00, 0x80));
    cpu.reset();
    assert_eq!(cpu.run_for(10), Halt::StepLimit);
    assert_eq!(cpu.register_x, 5);
    assert_eq!(cpu.program_counter, 0x8000);
    assert_eq!(cpu.run_for(0), Halt::StepLimit);
    assert_eq!(cpu.register_x, 5);
    assert_eq!(RUN_LIMIT, u64::MAX);
}

#[test]
fn break_leaves_the_counter_behind_the_opcode() {
    let mut cpu = CPU::new();
    cpu.load(vec!(0x00));
    cpu.reset();
    assert_eq!(cpu.step(), Some(Halt::Break));
    assert_eq!(cpu.program_counter, 0x8001);
    assert_eq!(cpu.status.0, 0x24);
    assert_eq!(cpu.stack_pointer, 0xFD);
}

#[test]
fn program_counter_wraps_at_the_end_of_memory() {
    let mut cpu = CPU::new();
    cpu.mem_write(0xFFFF, 0xE8);
    cpu.program_counter = 0xFFFF;
    assert_eq!(cpu.step(), None);
    assert_eq!(cpu.program_counter, 0x0000);
    assert_eq!(cpu.register_x, 1);
}

#[test]
fn load_at_sets_the_reset_vector_and_wraps() {
    let mut cpu = CPU::new();
    cpu.load_at(vec!(0x11, 0x22, 0x33), 0xFFFF);
    assert_eq!(cpu.mem_read(0xFFFF), 0x11);
    assert_eq!(cpu.mem_read(0x0000), 0x22);
    assert_eq!(cpu.mem_read(0x0001), 0x33);
    assert_eq!(cpu.mem_read_u16(0xFFFC), 0xFFFF);
    let mut cpu = CPU::new();
    cpu.load_at(vec!(0xE8, 0x00), 0x0600);
    cpu.reset();
    assert_eq!(cpu.program_counter, 0x0600);
    assert_eq!(cpu.run(), Halt::Break);
    assert_eq!(cpu.register_x, 1);
}

#[test]
fn zero_page_indexing_wraps() {
    let mut cpu = CPU::new();
    cpu.program_counter = 0x800;
    cpu.mem_write(0x800, 0xF0);
    cpu.register_x = 0x20;
    cpu.register_y = 0x0F;
    assert_eq!(cpu.get_operand_address(&AddressingMode::ZeroPageX), 0x0010);
    assert_eq!(cpu.get_operand_address(&AddressingMode::ZeroPageY), 0x00FF);
}

#[test]
fn zero_page_pointer_wraps() {
    let mut cpu = CPU::new();
    cpu.program_counter = 0x8000;
    cpu.mem_write(0x8000, 0xF0);
    cpu.register_x = 0x0F;
    cpu.register_y = 0x0F;
    cpu.mem_write(0x00FF, 0x34);
    cpu.mem_write(0x0000, 0x12);
    cpu.mem_write(0x0100, 0x99);
    assert_eq!(cpu.get_operand_address(&AddressingMode::IndirectX), 0x1234);
    assert_eq!(cpu.get_operand_address(&AddressingMode::IndirectY), 0x1234);
}

#[test]
fn absolute_indexing_wraps() {
    let mut cpu = CPU::new();
    cpu.program_counter = 0x800;
    cpu.mem_write_u16(0x800, 0xFFFF);
    cpu.register_x = 2;
    cpu.register_y = 0;
    assert_eq!(cpu.get_operand_address(&AddressingMode::AbsoluteX), 0x0001);
    assert_eq!(cpu.get_operand_address(&AddressingMode::AbsoluteY), 0xFFFF);
}

#[test]
fn target_is_accumulator_or_memory() {
    let mut cpu = CPU::new();
    cpu.register_a = 0x42;
    assert_eq!(cpu.get_val_and_mem_ptr(&AddressingMode::Accumulator), (0x42, Target::Accumulator));
    cpu.program_counter = 0x800;
    cpu.mem_write(0x800, 0x10);
    cpu.mem_write(0x10, 0x99);
    let (value, target) = cpu.get_val_and_mem_ptr(&AddressingMode::ZeroPage);
    assert_eq!((value, target), (0x99, Target::Memory(0x10)));
    cpu.write_target(target, 0x55);
    assert_eq!(cpu.mem_read(0x10), 0x55);
    cpu.write_target(Target::Accumulator, 0x66);
    assert_eq!(cpu.register_a, 0x66);
}

#[test]
fn adc_carry_and_overflow() {
    // 0x50 + 0x50 = 0xA0: two positives give a negative.
    let mut cpu = CPU::new();
    cpu.register_a = 0x50;
    cpu.program_counter = 0x8000;
    cpu.mem_write(0x8000, 0x50);
    cpu.add_with_carry(&AddressingMode::Immediate);
    assert_eq!(cpu.register_a, 0xA0);
    assert_eq!(cpu.status.0, 0b1110_0100);
    // 0xD0 + 0x90 = 0x160: two negatives give a positive, and a carry.
    let mut cpu = CPU::new();
    cpu.register_a = 0xD0;
    cpu.program_counter = 0x8000;
    cpu.mem_write(0x8000, 0x90);
    cpu.add_with_carry(&AddressingMode::Immediate);
    assert_eq!(cpu.register_a, 0x60);
    assert_eq!(cpu.status.0, 0b0110_0101);
    // 0xFF + 0x00 + carry = 0x100.
    let mut cpu = CPU::new();
    cpu.register_a = 0xFF;
    cpu.status.set_carry_flag(true);
    cpu.program_counter = 0x8000;
    cpu.mem_write(0x8000, 0x00);
    cpu.add_with_carry(&AddressingMode::Immediate);
    assert_eq!(cpu.register_a, 0x00);
    assert_eq!(cpu.status.0, 0b0010_0111);
}

#[test]
fn adc_flags_for_every_pair() {
    for a in 0..=255u8 {
        for m in [0u8, 1, 0x7F, 0x80, 0xFF] {
            for c in [false, true] {
                let mut cpu = CPU::new();
                cpu.register_a = a;
                cpu.status.set_carry_flag(c);
                cpu.program_counter = 0x10;
                cpu.mem_write(0x10, m);
                cpu.add_with_carry(&AddressingMode::Immediate);
                let sum = a as u16 + m as u16 + c as u16;
                let r = cpu.register_a;
                assert_eq!(r, (sum & 0xFF) as u8);
                assert_eq!(cpu.status.is_carry_set(), sum > 0xFF);
                assert_eq!(cpu.status.is_overflow_set(), (a ^ r) & (m ^ r) & 0x80 != 0);
                assert_eq!(cpu.status.is_zero_set(), r == 0);
                assert_eq!(cpu.status.is_negative_set(), r >> 7 == 1);
            }
        }
    }
}

#[test]
fn sbc_with_and_without_borrow() {
    // With carry set there is no borrow: 0x50 - 0x30 = 0x20.
    let mut cpu = CPU::new();
    cpu.register_a = 0x50;
    cpu.status.set_carry_flag(true);
    cpu.program_counter = 0x8000;
    cpu.mem_write(0x8000, 0x30);
    cpu.subtract_with_carry(&AddressingMode::Immediate);
    assert_eq!(cpu.register_a, 0x20);
    assert_eq!(cpu.status.0, 0b0010_0101);
    // With carry clear one more is taken: 0x50 - 0x30 - 1 = 0x1F.
    let mut cpu = CPU::new();
    cpu.register_a = 0x50;
    cpu.program_counter = 0x8000;
    cpu.mem_write(0x8000, 0x30);
    cpu.subtract_with_carry(&AddressingMode::Immediate);
    assert_eq!(cpu.register_a, 0x1F);
    assert_eq!(cpu.status.0, 0b0010_0101);
    // 0x50 - 0xB0 = 0xA0 with a borrow and a wrong sign.
    let mut cpu = CPU::new();
    cpu.register_a = 0x50;
    cpu.status.set_carry_flag(true);
    cpu.program_counter = 0x8000;
    cpu.mem_write(0x8000, 0xB0);
    cpu.subtract_with_carry(&AddressingMode::Immediate);
    assert_eq!(cpu.register_a, 0xA0);
    assert_eq!(cpu.status.0, 0b1110_0100);
}

#[test]
fn decimal_flag_does_not_change_the_sum() {
    let mut cpu = CPU::new();
    cpu.set_decimal_flag();
    cpu.register_a = 0x09;
    cpu.program_counter = 0x8000;
    cpu.mem_write(0x8000, 0x01);
    cpu.add_with_carry(&AddressingMode::Immediate);
    assert_eq!(cpu.register_a, 0x0A);
    assert!(cpu.status.is_decimal_set());
}

#[test]
fn compare_sets_carry_when_register_is_not_smaller() {
    for reg in [0u8, 1, 0x7F, 0x80, 0xFF] {
        for m in [0u8, 1, 0x7F, 0x80, 0xFF] {
            let mut cpu = CPU::new();
            cpu.register_a = reg;
            cpu.program_counter = 0x10;
            cpu.mem_write(0x10, m);
            cpu.compare(&AddressingMode::Immediate);
            assert_eq!(cpu.status.is_carry_set(), reg >= m);
            assert_eq!(cpu.status.is_zero_set(), reg == m);
            assert_eq!(cpu.status.is_negative_set(), reg.wrapping_sub(m) >= 0x80);
            assert_eq!(cpu.register_a, reg);
        }
    }
}

#[test]
fn lax_loads_both_registers() {
    let mut cpu = CPU::new();
    cpu.mem_write(0x40, 0x8F);
    cpu.load(vec!(0xA7, 0x40, 0x00));
    cpu.reset();
    assert_eq!(cpu.run(), Halt::Break);
    assert_eq!(cpu.register_a, 0x8F);
    assert_eq!(cpu.register_x, 0x8F);
    assert_eq!(cpu.status.0, 0b1010_0100);
    assert_eq!(cpu.program_counter, 0x8003);
}

#[test]
fn ign_and_skb_only_move_on() {
    let mut cpu = CPU::new();
    cpu.load(vec!(0x0C, 0x34, 0x12, 0x80, 0xFF, 0x1A, 0x04, 0x10, 0x00));
    cpu.reset();
    assert_eq!(cpu.run(), Halt::Break);
    assert_eq!(cpu.program_counter, 0x8009);
    assert_eq!((cpu.register_a, cpu.register_x, cpu.register_y), (0, 0, 0));
    assert_eq!(cpu.status.0, 0x24);
    assert_eq!(cpu.stack_pointer, 0xFD);
}

#[test]
fn ign_reads_its_operand() {
    let mut cpu = CPU::new();
    // IGN $2000 reads a write-only register.
    cpu.load(vec!(0x0C, 0x00, 0x20, 0x00));
    cpu.reset();
    assert_eq!(cpu.run(), Halt::Fault(Fault::IllegalRead(0x2000)));
}

#[test]
fn unofficial_opcodes_run_from_the_table() {
    let mut cpu = CPU::new();
    cpu.mem_write(0x10, 0x81);
    // SLO $10; SAX $11; DCP $10; BRK
    cpu.load(vec!(0x07, 0x10, 0x87, 0x11, 0xC7, 0x10, 0x00));
    cpu.reset();
    cpu.register_a = 0x01;
    cpu.register_x = 0x03;
    assert_eq!(cpu.run(), Halt::Break);
    // SLO: memory 0x81 -> 0x02, carry set, A = 0x01 | 0x02 = 0x03.
    // SAX: 0x03 & 0x03 = 0x03 at $11.
    // DCP: memory 0x02 -> 0x01, compared with A = 0x03.
    assert_eq!(cpu.mem_read(0x10), 0x01);
    assert_eq!(cpu.mem_read(0x11), 0x03);
    assert_eq!(cpu.register_a, 0x03);
    assert_eq!(cpu.status.0, 0b0010_0101);
}

#[test]
fn php_pushes_the_status_without_break() {
    let mut cpu = CPU::new();
    cpu.status.0 = 0b1101_1111;
    cpu.push_processor_status();
    assert_eq!(cpu.mem_read(0x01FD), 0b1110_1111);
    assert_eq!(cpu.status.0, 0b1110_1111);
    assert_eq!(cpu.stack_pointer, 0xFC);
}

#[test]
fn plp_and_rti_force_break_clear_and_unused_set() {
    let mut cpu = CPU::new();
    cpu.push_stack(0b0001_0001);
    cpu.pull_processor_status();
    assert_eq!(cpu.status.0, 0b0010_0001);
    let mut cpu = CPU::new();
    cpu.push_stack_u16(0x1234);
    cpu.push_stack(0b1101_0000);
    cpu.return_from_interrupt();
    assert_eq!(cpu.status.0, 0b1110_0000);
    assert_eq!(cpu.program_counter, 0x1234);
}

#[test]
fn jsr_pushes_the_address_of_its_last_byte() {
    let mut cpu = CPU::new();
    cpu.load(vec!(0x20, 0x34, 0x12));
    cpu.reset();
    assert_eq!(cpu.step(), None);
    assert_eq!(cpu.program_counter, 0x1234);
    assert_eq!(cpu.stack_pointer, 0xFB);
    assert_eq!(cpu.mem_read(0x01FD), 0x80);
    assert_eq!(cpu.mem_read(0x01FC), 0x02);
}

#[test]
fn branch_forward_and_backward() {
    let mut cpu = CPU::new();
    cpu.program_counter = 0x8000;
    cpu.mem_write(0x8000, 0x7F);
    assert!(cpu.branch_if_carry_clear());
    assert_eq!(cpu.program_counter, 0x8080);
    cpu.mem_write(0x8080, 0x80);
    assert!(cpu.branch_if_carry_clear());
    assert_eq!(cpu.program_counter, 0x8001);
    cpu.program_counter = 0x0000;
    cpu.mem_write(0x0000, 0xF0);
    assert!(cpu.branch_if_carry_clear());
    assert_eq!(cpu.program_counter, 0xFFF1);
}

#[test]
fn branch_not_taken_steps_over_the_operand() {
    let mut cpu = CPU::new();
    // BCS +5 with carry clear; INX
    cpu.load(vec!(0xB0, 0x05, 0xE8, 0x00));
    cpu.reset();
    assert_eq!(cpu.step(), None);
    assert_eq!(cpu.program_counter, 0x8002);
    assert_eq!(cpu.run(), Halt::Break);
    assert_eq!(cpu.register_x, 1);
}

#[test]
fn table_rows() {
    assert_eq!(decode(0xA9), Some(OpCode::new(Mnemonic::Lda, 2, 2, AddressingMode::Immediate)));
    assert_eq!(decode(0x6C), Some(OpCode::new(Mnemonic::Jmp, 3, 5, AddressingMode::Indirect)));
    assert_eq!(decode(0x0A), Some(OpCode::new(Mnemonic::Asl, 1, 2, AddressingMode::Accumulator)));
    assert_eq!(decode(0x94), Some(OpCode::new(Mnemonic::Sty, 2, 4, AddressingMode::ZeroPageX)));
    assert_eq!(decode(0x00), Some(OpCode::new(Mnemonic::Brk, 1, 7, AddressingMode::Implied)));
    assert_eq!(decode(0xB3), Some(OpCode::new(Mnemonic::Lax, 2, 5, AddressingMode::IndirectY)));
    assert_eq!(decode(0x7B), Some(OpCode::new(Mnemonic::Rra, 3, 7, AddressingMode::AbsoluteY)));
    assert_eq!(decode(0x02), None);
    assert_eq!(decode(0xEB), None);
    assert_eq!(decode(0xFF), Some(OpCode::new(Mnemonic::Isc, 3, 7, AddressingMode::AbsoluteX)));
    assert_eq!((0..=255u8).filter(|b| decode(*b).is_some()).count(), 230);
    for byte in 0..=255u8 {
        if let Some(op) = decode(byte) {
            let expected = match op.addressing_mode {
                AddressingMode::Implied | AddressingMode::Accumulator => 1,
                AddressingMode::Absolute
                | AddressingMode::AbsoluteX
                | AddressingMode::AbsoluteY
                | AddressingMode::Indirect => 3,
                _ => 2,
            };
            assert_eq!(op.bytes, expected);
            assert_eq!(op.instruction.name().len(), 3);
        }
    }
    assert_eq!(Mnemonic::Adc.name(), "ADC");
    assert_eq!(Mnemonic::Tya.name(), "TYA");
}
