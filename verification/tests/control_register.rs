use nes_rust::ppu::control_register::ControlRegister;

#[test]
fn getter_setter_tests() {
    let mut foo = ControlRegister::new();
    assert_eq!(foo.0, 0b0);

    assert_eq!(foo.is_name_table_1(), false);
    assert_eq!(foo.is_name_table_2(), false);
    assert_eq!(foo.is_vram_add_increment(), false);
    assert_eq!(foo.is_sprite_pattern_addr(), false);
    assert_eq!(foo.is_background_pattern_addr(), false);
    assert_eq!(foo.is_sprite_size(), false);
    assert_eq!(foo.is_master_slave_select(), false);
    assert_eq!(foo.is_generate_nmi(), false);

    foo.set_name_table_1(true);
    foo.set_name_table_2(true);
    foo.set_vram_add_increment(true);
    foo.set_sprite_pattern_addr(true);
    foo.set_background_pattern_addr(true);
    foo.set_sprite_size(true);
    foo.set_master_slave_select(true);
    foo.set_generate_nmi(true);

    assert_eq!(foo.0, 0xFF);
    assert_eq!(foo.is_name_table_1(), true);
    assert_eq!(foo.is_name_table_2(), true);
    assert_eq!(foo.is_vram_add_increment(), true);
    assert_eq!(foo.is_sprite_pattern_addr(), true);
    assert_eq!(foo.is_background_pattern_addr(), true);
    assert_eq!(foo.is_sprite_size(), true);
    assert_eq!(foo.is_master_slave_select(), true);
    assert_eq!(foo.is_generate_nmi(), true);

    foo.set_name_table_1(false);
    foo.set_name_table_2(false);
    foo.set_vram_add_increment(false);
    foo.set_sprite_pattern_addr(false);
    foo.set_background_pattern_addr(false);
    foo.set_sprite_size(false);
    foo.set_master_slave_select(false);
    foo.set_generate_nmi(false);

    assert_eq!(foo.0, 0x0);
}
