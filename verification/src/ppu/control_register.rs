//! The control register of the picture processor, written through `$2000`.

use crate::bits::{has_flag, lemma_with_flag, put_flag, test_flag, with_flag};
use vstd::prelude::*;

verus! {

/// Bit 0: low bit of the base nametable.
pub const NAME_TABLE_1: u8 = 0b0000_0001;

/// Bit 1: high bit of the base nametable.
pub const NAME_TABLE_2: u8 = 0b0000_0010;

/// Bit 2: how far the address latch moves on an access to the data port.
pub const VRAM_ADD_INCREMENT: u8 = 0b0000_0100;

/// Bit 3: pattern table of 8x8 sprites.
pub const SPRITE_PATTERN_ADDR: u8 = 0b0000_1000;

/// Bit 4: pattern table of the background.
pub const BACKGROUND_PATTERN_ADDR: u8 = 0b0001_0000;

/// Bit 5: sprite size, 8x8 or 8x16.
pub const SPRITE_SIZE: u8 = 0b0010_0000;

/// Bit 6: master/slave select.
pub const MASTER_SLAVE_SELECT: u8 = 0b0100_0000;

/// Bit 7: raise a non-maskable interrupt at vertical blanking.
pub const GENERATE_NMI: u8 = 0b1000_0000;

/// The step of the address latch under the control byte `control`: one cell
/// across when bit 2 is clear, one row of 32 cells down when it is set.
pub open spec fn vram_increment(control: u8) -> u8 {
    if has_flag(control, VRAM_ADD_INCREMENT) {
        32
    } else {
        1
    }
}

/// The control byte, one named bit per setting.
pub struct ControlRegister(pub u8);

impl ControlRegister {
    /// A register with every bit clear.
    pub fn new() -> (r: Self)
        ensures
            r.0 == 0,
    {
        ControlRegister(0b0)
    }

    /// Sets the low nametable bit to `val`.
    pub fn set_name_table_1(&mut self, val: bool)
        ensures
            final(self).0 == with_flag(old(self).0, NAME_TABLE_1, val),
            has_flag(final(self).0, NAME_TABLE_1) == val,
    {
        proof {
            lemma_with_flag(self.0, NAME_TABLE_1, NAME_TABLE_1, val);
        }
        self.0 = put_flag(self.0, NAME_TABLE_1, val);
    }

    /// The low nametable bit.
    pub fn is_name_table_1(&self) -> (set: bool)
        ensures
            set == has_flag(self.0, NAME_TABLE_1),
    {
        test_flag(self.0, NAME_TABLE_1)
    }

    /// Sets the high nametable bit to `val`.
    pub fn set_name_table_2(&mut self, val: bool)
        ensures
            final(self).0 == with_flag(old(self).0, NAME_TABLE_2, val),
            has_flag(final(self).0, NAME_TABLE_2) == val,
    {
        proof {
            lemma_with_flag(self.0, NAME_TABLE_2, NAME_TABLE_2, val);
        }
        self.0 = put_flag(self.0, NAME_TABLE_2, val);
    }

    /// The high nametable bit.
    pub fn is_name_table_2(&self) -> (set: bool)
        ensures
            set == has_flag(self.0, NAME_TABLE_2),
    {
        test_flag(self.0, NAME_TABLE_2)
    }

    /// Sets the latch-increment bit to `val`.
    pub fn set_vram_add_increment(&mut self, val: bool)
        ensures
            final(self).0 == with_flag(old(self).0, VRAM_ADD_INCREMENT, val),
            has_flag(final(self).0, VRAM_ADD_INCREMENT) == val,
    {
        proof {
            lemma_with_flag(self.0, VRAM_ADD_INCREMENT, VRAM_ADD_INCREMENT, val);
        }
        self.0 = put_flag(self.0, VRAM_ADD_INCREMENT, val);
    }

    /// The latch-increment bit.
    pub fn is_vram_add_increment(&self) -> (set: bool)
        ensures
            set == has_flag(self.0, VRAM_ADD_INCREMENT),
    {
        test_flag(self.0, VRAM_ADD_INCREMENT)
    }

    /// Sets the sprite pattern table bit to `val`.
    pub fn set_sprite_pattern_addr(&mut self, val: bool)
        ensures
            final(self).0 == with_flag(old(self).0, SPRITE_PATTERN_ADDR, val),
            has_flag(final(self).0, SPRITE_PATTERN_ADDR) == val,
    {
        proof {
            lemma_with_flag(self.0, SPRITE_PATTERN_ADDR, SPRITE_PATTERN_ADDR, val);
        }
        self.0 = put_flag(self.0, SPRITE_PATTERN_ADDR, val);
    }

    /// The sprite pattern table bit.
    pub fn is_sprite_pattern_addr(&self) -> (set: bool)
        ensures
            set == has_flag(self.0, SPRITE_PATTERN_ADDR),
    {
        test_flag(self.0, SPRITE_PATTERN_ADDR)
    }

    /// Sets the background pattern table bit to `val`.
    pub fn set_background_pattern_addr(&mut self, val: bool)
        ensures
            final(self).0 == with_flag(old(self).0, BACKGROUND_PATTERN_ADDR, val),
            has_flag(final(self).0, BACKGROUND_PATTERN_ADDR) == val,
    {
        proof {
            lemma_with_flag(self.0, BACKGROUND_PATTERN_ADDR, BACKGROUND_PATTERN_ADDR, val);
        }
        self.0 = put_flag(self.0, BACKGROUND_PATTERN_ADDR, val);
    }

    /// The background pattern table bit.
    pub fn is_background_pattern_addr(&self) -> (set: bool)
        ensures
            set == has_flag(self.0, BACKGROUND_PATTERN_ADDR),
    {
        test_flag(self.0, BACKGROUND_PATTERN_ADDR)
    }

    /// Sets the sprite size bit to `val`.
    pub fn set_sprite_size(&mut self, val: bool)
        ensures
            final(self).0 == with_flag(old(self).0, SPRITE_SIZE, val),
            has_flag(final(self).0, SPRITE_SIZE) == val,
    {
        proof {
            lemma_with_flag(self.0, SPRITE_SIZE, SPRITE_SIZE, val);
        }
        self.0 = put_flag(self.0, SPRITE_SIZE, val);
    }

    /// The sprite size bit.
    pub fn is_sprite_size(&self) -> (set: bool)
        ensures
            set == has_flag(self.0, SPRITE_SIZE),
    {
        test_flag(self.0, SPRITE_SIZE)
    }

    /// Sets the master/slave bit to `val`.
    pub fn set_master_slave_select(&mut self, val: bool)
        ensures
            final(self).0 == with_flag(old(self).0, MASTER_SLAVE_SELECT, val),
            has_flag(final(self).0, MASTER_SLAVE_SELECT) == val,
    {
        proof {
            lemma_with_flag(self.0, MASTER_SLAVE_SELECT, MASTER_SLAVE_SELECT, val);
        }
        self.0 = put_flag(self.0, MASTER_SLAVE_SELECT, val);
    }

    /// The master/slave bit.
    pub fn is_master_slave_select(&self) -> (set: bool)
        ensures
            set == has_flag(self.0, MASTER_SLAVE_SELECT),
    {
        test_flag(self.0, MASTER_SLAVE_SELECT)
    }

    /// Sets the interrupt-enable bit to `val`.
    pub fn set_generate_nmi(&mut self, val: bool)
        ensures
            final(self).0 == with_flag(old(self).0, GENERATE_NMI, val),
            has_flag(final(self).0, GENERATE_NMI) == val,
    {
        proof {
            lemma_with_flag(self.0, GENERATE_NMI, GENERATE_NMI, val);
        }
        self.0 = put_flag(self.0, GENERATE_NMI, val);
    }

    /// The interrupt-enable bit.
    pub fn is_generate_nmi(&self) -> (set: bool)
        ensures
            set == has_flag(self.0, GENERATE_NMI),
    {
        test_flag(self.0, GENERATE_NMI)
    }

    /// Replaces the whole byte, as a write to `$2000` does.
    pub fn update(&mut self, value: u8)
        ensures
            final(self).0 == value,
    {
        self.0 = value;
    }

    /// How far the address latch moves on an access to the data port.
    pub fn get_vram_increment_size(&self) -> (step: u8)
        ensures
            step == vram_increment(self.0),
    {
        if self.is_vram_add_increment() {
            32
        } else {
            1
        }
    }
}

} // verus!
