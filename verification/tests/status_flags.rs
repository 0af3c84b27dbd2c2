use nes_rust::cpu::status_flags::StatusFlag;

#[test]
fn is_carry_set_test() {
    let status = StatusFlag(0b0000_0001);
    assert!(status.is_carry_set());

    let status = StatusFlag(0b0000_0000);
    assert!(!status.is_carry_set());
}

#[test]
fn status_reads_as_its_byte() {
    let status = StatusFlag(0b1010_0101);
    assert_eq!(*status, 0b1010_0101);
    assert!(status.is_carry_set());
    assert!(!status.is_zero_set());
    assert!(status.is_interrupt_set());
    assert!(!status.is_decimal_set());
    assert!(!status.is_overflow_set());
    assert!(status.is_negative_set());
}

#[test]
fn each_setter_changes_its_own_bit() {
    let mut status = StatusFlag(0);
    status.set_carry_flag(true);
    assert_eq!(status.0, 0b0000_0001);
    status.set_zero_flag(0);
    assert_eq!(status.0, 0b0000_0011);
    status.set_interrupt_flag(true);
    assert_eq!(status.0, 0b0000_0111);
    status.set_decimal_flag(true);
    assert_eq!(status.0, 0b0000_1111);
    status.set_break_flag_1(true);
    assert_eq!(status.0, 0b0001_1111);
    status.set_break_flag_2(true);
    assert_eq!(status.0, 0b0011_1111);
    status.set_overflow_flag(0b0100_0000);
    assert_eq!(status.0, 0b0111_1111);
    status.set_negative_flag(0x80);
    assert_eq!(status.0, 0b1111_1111);
    status.set_carry_flag(false);
    assert_eq!(status.0, 0b1111_1110);
    status.set_zero_flag(7);
    assert_eq!(status.0, 0b1111_1100);
    status.set_interrupt_flag(false);
    assert_eq!(status.0, 0b1111_1000);
    status.set_decimal_flag(false);
    assert_eq!(status.0, 0b1111_0000);
    status.set_break_flag_1(false);
    assert_eq!(status.0, 0b1110_0000);
    status.set_break_flag_2(false);
    assert_eq!(status.0, 0b1100_0000);
    status.set_overflow_flag(0b1011_1111);
    assert_eq!(status.0, 0b1000_0000);
    status.set_negative_flag(0x7F);
    assert_eq!(status.0, 0b0000_0000);
    status.set_negative_and_zero_flag(0);
    assert_eq!(status.0, 0b0000_0010);
    status.set_negative_and_zero_flag(0x80);
    assert_eq!(status.0, 0b1000_0000);
}
