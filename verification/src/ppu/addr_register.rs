//! The address latch of the picture processor, written through `$2006`.

use crate::bits::{high, high_byte, low, low_byte, make_word, word};
use vstd::arithmetic::div_mod::lemma_fundamental_div_mod_converse;
use vstd::prelude::*;

verus! {

/// The size of the picture processor's address space: addresses have 14 bits.
pub const PPU_ADDRESS_SPACE: u16 = 0x4000;

/// What the latch holds: a 14-bit address, and which half the next write
/// replaces.
pub struct AddrLatch {
    pub address: u16,
    pub high_next: bool,
}

/// The latch after the byte `data` is written to it: the byte replaces the
/// half that was due, the result is cut to 14 bits, and the other half is
/// due next.
pub open spec fn latch_write(l: AddrLatch, data: u8) -> AddrLatch {
    let raw = if l.high_next {
        word(low(l.address), data)
    } else {
        word(data, high(l.address))
    };
    AddrLatch { address: raw % PPU_ADDRESS_SPACE, high_next: !l.high_next }
}

/// The latch after it moved forward by `inc`, wrapping at 14 bits.
pub open spec fn latch_advance(l: AddrLatch, inc: u8) -> AddrLatch {
    AddrLatch { address: ((l.address + inc) % (PPU_ADDRESS_SPACE as int)) as u16, ..l }
}

/// The two-byte address latch. Its value never leaves the 14-bit range.
pub struct AddrRegister {
    value: (u8, u8),
    hi_ptr: bool,
}

impl View for AddrRegister {
    type V = AddrLatch;

    closed spec fn view(&self) -> AddrLatch {
        AddrLatch { address: word(self.value.1, self.value.0), high_next: self.hi_ptr }
    }
}

impl AddrRegister {
    #[verifier::type_invariant]
    spec fn in_range(self) -> bool {
        self.value.0 < 0x40
    }

    /// A latch at address zero that expects the high byte first.
    pub fn new() -> (r: Self)
        ensures
            r@ == (AddrLatch { address: 0, high_next: true }),
    {
        AddrRegister { value: (0, 0), hi_ptr: true }
    }

    /// Replaces the address by `data` cut to 14 bits.
    pub fn set(&mut self, data: u16)
        ensures
            final(self)@ == (AddrLatch { address: data % PPU_ADDRESS_SPACE, ..old(self)@ }),
    {
        let cut = data % PPU_ADDRESS_SPACE;
        self.value = (high_byte(cut), low_byte(cut));
    }

    /// Takes one byte written to `$2006`.
    pub fn update(&mut self, data: u8)
        ensures
            final(self)@ == latch_write(old(self)@, data),
            final(self)@.address < PPU_ADDRESS_SPACE,
    {
        let raw = if self.hi_ptr {
            make_word(self.value.1, data)
        } else {
            make_word(data, self.value.0)
        };
        self.set(raw);
        self.hi_ptr = !self.hi_ptr;
    }

    /// Moves the address forward by `inc`.
    pub fn increment(&mut self, inc: u8)
        ensures
            final(self)@ == latch_advance(old(self)@, inc),
            final(self)@.address < PPU_ADDRESS_SPACE,
    {
        proof {
            use_type_invariant(&*self);
        }
        let next = self.get() + inc as u16;
        self.set(next);
    }

    /// The address the latch holds.
    pub fn get(&self) -> (address: u16)
        ensures
            address == self@.address,
            address < PPU_ADDRESS_SPACE,
    {
        proof {
            use_type_invariant(self);
        }
        make_word(self.value.1, self.value.0)
    }
}

/// Two writes set the latch: when the high byte is due, writing `hi` and
/// then `lo` leaves the latch at the address made of the two, cut to 14
/// bits, with the high byte due again.
pub proof fn lemma_two_writes_set_the_latch(l: AddrLatch, hi: u8, lo: u8)
    requires
        l.high_next,
    ensures
        latch_write(latch_write(l, hi), lo) == (AddrLatch {
            address: word(lo, hi) % PPU_ADDRESS_SPACE,
            high_next: true,
        }),
{
    let kept = l.address as int % 256;
    let first = hi as int * 256 + kept;
    let cut = hi as int % 64 * 256;
    lemma_fundamental_div_mod_converse(first, 0x4000, hi as int / 64, cut + kept);
    lemma_fundamental_div_mod_converse(cut + kept, 256, hi as int % 64, kept);
    lemma_fundamental_div_mod_converse(
        hi as int * 256 + lo as int,
        0x4000,
        hi as int / 64,
        cut + lo as int,
    );
    lemma_fundamental_div_mod_converse(cut + lo as int, 0x4000, 0, cut + lo as int);
}

} // verus!
