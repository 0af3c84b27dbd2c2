//! The snake game: a small program for the processor, with the memory cells
//! through which it talks to whoever runs it.
//!
//! The program expects to stand at `$0600`. It reads a random byte from
//! `$FE` and the last key pressed from `$FF`, and draws on a screen of 32 by
//! 32 pixels, one byte per pixel, at `$0200-$05FF`.

use crate::MemAccess;
use crate::bus::{bus_write, lemma_ram_read, RAM_SIZE};
use rand::Rng;
use rand::rngs::ThreadRng;
use super::{Machine, CPU};
use vstd::prelude::*;

verus! {

/// Where the program expects to stand.
pub const SNAKE_ORIGIN: u16 = 0x0600;

/// The cell from which the game takes a random byte.
pub const RANDOM_CELL: u16 = 0x00FE;

/// The cell from which the game takes the last key pressed.
pub const KEY_CELL: u16 = 0x00FF;

/// The first cell of the screen.
pub const SCREEN_START: u16 = 0x0200;

/// Pixels on the screen.
pub const SCREEN_PIXELS: usize = 1024;

/// Bytes in a frame: red, green and blue for every pixel.
pub const FRAME_BYTES: usize = 3072;

/// The machine code of the game.
pub const SNAKE_PROGRAM: [u8; 309] = [
    0x20, 0x06, 0x06, 0x20, 0x38, 0x06, 0x20, 0x0d, 0x06, 0x20, 0x2a, 0x06, 0x60, 0xa9, 0x02, 0x85,
    0x02, 0xa9, 0x04, 0x85, 0x03, 0xa9, 0x11, 0x85, 0x10, 0xa9, 0x10, 0x85, 0x12, 0xa9, 0x0f, 0x85,
    0x14, 0xa9, 0x04, 0x85, 0x11, 0x85, 0x13, 0x85, 0x15, 0x60, 0xa5, 0xfe, 0x85, 0x00, 0xa5, 0xfe,
    0x29, 0x03, 0x18, 0x69, 0x02, 0x85, 0x01, 0x60, 0x20, 0x4d, 0x06, 0x20, 0x8d, 0x06, 0x20, 0xc3,
    0x06, 0x20, 0x19, 0x07, 0x20, 0x20, 0x07, 0x20, 0x2d, 0x07, 0x4c, 0x38, 0x06, 0xa5, 0xff, 0xc9,
    0x77, 0xf0, 0x0d, 0xc9, 0x64, 0xf0, 0x14, 0xc9, 0x73, 0xf0, 0x1b, 0xc9, 0x61, 0xf0, 0x22, 0x60,
    0xa9, 0x04, 0x24, 0x02, 0xd0, 0x26, 0xa9, 0x01, 0x85, 0x02, 0x60, 0xa9, 0x08, 0x24, 0x02, 0xd0,
    0x1b, 0xa9, 0x02, 0x85, 0x02, 0x60, 0xa9, 0x01, 0x24, 0x02, 0xd0, 0x10, 0xa9, 0x04, 0x85, 0x02,
    0x60, 0xa9, 0x02, 0x24, 0x02, 0xd0, 0x05, 0xa9, 0x08, 0x85, 0x02, 0x60, 0x60, 0x20, 0x94, 0x06,
    0x20, 0xa8, 0x06, 0x60, 0xa5, 0x00, 0xc5, 0x10, 0xd0, 0x0d, 0xa5, 0x01, 0xc5, 0x11, 0xd0, 0x07,
    0xe6, 0x03, 0xe6, 0x03, 0x20, 0x2a, 0x06, 0x60, 0xa2, 0x02, 0xb5, 0x10, 0xc5, 0x10, 0xd0, 0x06,
    0xb5, 0x11, 0xc5, 0x11, 0xf0, 0x09, 0xe8, 0xe8, 0xe4, 0x03, 0xf0, 0x06, 0x4c, 0xaa, 0x06, 0x4c,
    0x35, 0x07, 0x60, 0xa6, 0x03, 0xca, 0x8a, 0xb5, 0x10, 0x95, 0x12, 0xca, 0x10, 0xf9, 0xa5, 0x02,
    0x4a, 0xb0, 0x09, 0x4a, 0xb0, 0x19, 0x4a, 0xb0, 0x1f, 0x4a, 0xb0, 0x2f, 0xa5, 0x10, 0x38, 0xe9,
    0x20, 0x85, 0x10, 0x90, 0x01, 0x60, 0xc6, 0x11, 0xa9, 0x01, 0xc5, 0x11, 0xf0, 0x28, 0x60, 0xe6,
    0x10, 0xa9, 0x1f, 0x24, 0x10, 0xf0, 0x1f, 0x60, 0xa5, 0x10, 0x18, 0x69, 0x20, 0x85, 0x10, 0xb0,
    0x01, 0x60, 0xe6, 0x11, 0xa9, 0x06, 0xc5, 0x11, 0xf0, 0x0c, 0x60, 0xc6, 0x10, 0xa5, 0x10, 0x29,
    0x1f, 0xc9, 0x1f, 0xf0, 0x01, 0x60, 0x4c, 0x35, 0x07, 0xa0, 0x00, 0xa5, 0xfe, 0x91, 0x00, 0x60,
    0xa6, 0x03, 0xa9, 0x00, 0x81, 0x10, 0xa2, 0x00, 0xa9, 0x01, 0x81, 0x10, 0x60, 0xa2, 0x00, 0xea,
    0xea, 0xca, 0xd0, 0xfb, 0x60,
];

/// The machine code of the game.
pub fn snake_program() -> (program: Vec<u8>)
    ensures
        program@ == SNAKE_PROGRAM@,
{
    let mut program: Vec<u8> = Vec::with_capacity(309);
    let mut i: usize = 0;
    while i < 309
        invariant
            i <= 309,
            program@ == SNAKE_PROGRAM@.subrange(0, i as int),
        decreases 309 - i,
    {
        program.push(SNAKE_PROGRAM[i]);
        i += 1;
        assert(program@ =~= SNAKE_PROGRAM@.subrange(0, i as int));
    }
    assert(program@ =~= SNAKE_PROGRAM@);
    program
}

/// The four keys that steer the snake.
#[derive(Clone, Copy, Debug, PartialEq, Eq, Structural)]
pub enum Key {
    Up,
    Down,
    Left,
    Right,
}

/// The byte that stands for `key`: the letter `w`, `s`, `a` or `d`.
pub open spec fn key_code(key: Key) -> u8 {
    match key {
        Key::Up => 0x77,
        Key::Down => 0x73,
        Key::Left => 0x61,
        Key::Right => 0x64,
    }
}

/// The colour that the game means by `byte`, as red, green and blue: black,
/// white, and then twice the row of grey, red, green, blue, magenta and
/// yellow; cyan for the rest. These are the colours that SDL has under these
/// names.
pub open spec fn palette(byte: u8) -> (u8, u8, u8) {
    if byte == 0 {
        (0, 0, 0)
    } else if byte == 1 {
        (255, 255, 255)
    } else if byte == 2 || byte == 9 {
        (128, 128, 128)
    } else if byte == 3 || byte == 10 {
        (255, 0, 0)
    } else if byte == 4 || byte == 11 {
        (0, 255, 0)
    } else if byte == 5 || byte == 12 {
        (0, 0, 255)
    } else if byte == 6 || byte == 13 {
        (255, 0, 255)
    } else if byte == 7 || byte == 14 {
        (255, 255, 0)
    } else {
        (0, 255, 255)
    }
}

/// One byte of the frame for the screen in `ram`: byte `i` is a channel of
/// pixel `i / 3`, red first, then green, then blue.
pub open spec fn frame_byte(ram: Seq<u8>, i: int) -> u8 {
    let colour = palette(ram[SCREEN_START + i / 3]);
    if i % 3 == 0 {
        colour.0
    } else if i % 3 == 1 {
        colour.1
    } else {
        colour.2
    }
}

/// The frame for the screen in `ram`.
pub open spec fn frame_of(ram: Seq<u8>) -> Seq<u8> {
    Seq::new(FRAME_BYTES as nat, |i: int| frame_byte(ram, i))
}

/// The colour that the game means by `byte`, as red, green and blue.
pub fn color(byte: u8) -> (rgb: (u8, u8, u8))
    ensures
        rgb == palette(byte),
{
    match byte {
        0 => (0, 0, 0),
        1 => (255, 255, 255),
        2 | 9 => (128, 128, 128),
        3 | 10 => (255, 0, 0),
        4 | 11 => (0, 255, 0),
        5 | 12 => (0, 0, 255),
        6 | 13 => (255, 0, 255),
        7 | 14 => (255, 255, 0),
        _ => (0, 255, 255),
    }
}

/// Tells the game that `key` was pressed.
pub fn press_key(cpu: &mut CPU, key: Key)
    ensures
        final(cpu)@ == (Machine {
            bus: bus_write(old(cpu)@.bus, KEY_CELL, key_code(key)),
            ..old(cpu)@
        }),
{
    let code = match key {
        Key::Up => 0x77,
        Key::Down => 0x73,
        Key::Left => 0x61,
        Key::Right => 0x64,
    };
    cpu.mem_write(KEY_CELL, code);
}

/// `rand::rngs::ThreadRng`, the random number generator of the current
/// thread. Nothing is known of what it holds.
#[verifier::external_type_specification]
#[verifier::external_body]
pub struct ExThreadRng(rand::rngs::ThreadRng);

/// `Rng::gen_range` of rand, for bytes: the generator hands out some byte
/// from `low` up to, but not including, `high`. Which one is not known, and
/// two calls need not agree. Without `low < high` the call panics.
#[verifier::external_body]
fn gen_range(rng: &mut ThreadRng, low: u8, high: u8) -> (value: u8)
    requires
        low < high,
    ensures
        low <= value < high,
{
    rng.gen_range(low, high)
}

/// Gives the game `value` as its next random byte.
pub fn set_random(cpu: &mut CPU, value: u8)
    ensures
        final(cpu)@ == (Machine {
            bus: bus_write(old(cpu)@.bus, RANDOM_CELL, value),
            ..old(cpu)@
        }),
{
    cpu.mem_write(RANDOM_CELL, value);
}

/// Draws a byte from 1 to 15 and gives it to the game as its next random
/// byte. Returns the byte drawn.
pub fn feed_random(cpu: &mut CPU, rng: &mut ThreadRng) -> (value: u8)
    ensures
        1 <= value < 16,
        final(cpu)@ == (Machine {
            bus: bus_write(old(cpu)@.bus, RANDOM_CELL, value),
            ..old(cpu)@
        }),
{
    let value = gen_range(rng, 1, 16);
    set_random(cpu, value);
    value
}

/// Brings `frame` up to date with the screen. Returns whether anything in
/// the frame changed. The processor is left as it was.
pub fn read_screen_state(cpu: &mut CPU, frame: &mut [u8; 3072]) -> (update: bool)
    ensures
        final(cpu)@ == old(cpu)@,
        final(frame)@ == frame_of(old(cpu)@.bus.ram),
        update == (final(frame)@ != old(frame)@),
{
    let mut frame_idx: usize = 0;
    let mut update = false;
    let mut i: usize = 0;
    proof {
        cpu.bus.lemma_well_formed();
    }
    while i < SCREEN_PIXELS
        invariant
            i <= SCREEN_PIXELS,
            frame_idx == 3 * i,
            cpu@ == old(cpu)@,
            cpu@.bus.ram.len() == RAM_SIZE,
            forall|k: int| 0 <= k < frame_idx ==> frame@[k] == frame_byte(cpu@.bus.ram, k),
            forall|k: int| frame_idx <= k < FRAME_BYTES ==> frame@[k] == old(frame)@[k],
            update == exists|k: int| 0 <= k < frame_idx && frame@[k] != old(frame)@[k],
        decreases SCREEN_PIXELS - i,
    {
        let addr = SCREEN_START + i as u16;
        proof {
            lemma_ram_read(cpu@.bus, addr);
        }
        let color_idx = cpu.mem_read(addr);
        let (b1, b2, b3) = color(color_idx);
        let ghost before = frame@;
        if frame[frame_idx] != b1 || frame[frame_idx + 1] != b2 || frame[frame_idx + 2] != b3 {
            frame[frame_idx] = b1;
            frame[frame_idx + 1] = b2;
            frame[frame_idx + 2] = b3;
            update = true;
        }
        proof {
            let ram = cpu@.bus.ram;
            assert(frame@[frame_idx as int] == frame_byte(ram, frame_idx as int));
            assert(frame@[frame_idx + 1] == frame_byte(ram, frame_idx + 1));
            assert(frame@[frame_idx + 2] == frame_byte(ram, frame_idx + 2));
            if frame@ != before {
                assert(frame@[frame_idx as int] != old(frame)@[frame_idx as int] || frame@[frame_idx
                    + 1] != old(frame)@[frame_idx + 1] || frame@[frame_idx + 2] != old(
                    frame,
                )@[frame_idx + 2]);
            }
        }
        frame_idx += 3;
        i += 1;
    }
    assert(frame@ =~= frame_of(cpu@.bus.ram));
    proof {
        if update {
            let k = choose|k: int| 0 <= k < frame_idx && frame@[k] != old(frame)@[k];
            assert(frame@[k] != old(frame)@[k]);
        } else {
            assert(frame@ =~= old(frame)@);
        }
    }
    update
}

} // verus!
