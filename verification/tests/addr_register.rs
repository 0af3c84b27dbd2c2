use nes_rust::ppu::addr_register::AddrRegister;

#[test]
fn update_mirrors_down() {
    let mut foo = AddrRegister::new();
    foo.update(0xFF);
    assert_eq!(foo.get(), 0x3F00);
}

#[test]
fn increment_overflows_and_mirrors_down() {
    let mut foo = AddrRegister::new();
    foo.set(0x4FFD);
    foo.increment(3);
    assert_eq!(foo.get(), 0x1000)
}
