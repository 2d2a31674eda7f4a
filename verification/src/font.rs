//! The built-in glyphs.

use vstd::prelude::*;

verus! {

/// Size in bytes of the low-resolution glyph set.
pub const FONTSET_SIZE: usize = 80;

/// Size in bytes of the high-resolution glyph set.
pub const HIRES_FONTSET_SIZE: usize = 100;

/// Address of the low-resolution glyph set.
pub const FONTSET_ADDR: usize = 0;

/// Address of the high-resolution glyph set.
pub const HIRES_FONTSET_ADDR: usize = 0x100;

/// The sixteen hexadecimal digits, five bytes each.
pub const FONTSET: [u8; FONTSET_SIZE] = [
    0xF0, 0x90, 0x90, 0x90, 0xF0,
    0x20, 0x60, 0x20, 0x20, 0x70,
    0xF0, 0x10, 0xF0, 0x80, 0xF0,
    0xF0, 0x10, 0xF0, 0x10, 0xF0,
    0x90, 0x90, 0xF0, 0x10, 0x10,
    0xF0, 0x80, 0xF0, 0x10, 0xF0,
    0xF0, 0x80, 0xF0, 0x90, 0xF0,
    0xF0, 0x10, 0x20, 0x40, 0x40,
    0xF0, 0x90, 0xF0, 0x90, 0xF0,
    0xF0, 0x90, 0xF0, 0x10, 0xF0,
    0xF0, 0x90, 0xF0, 0x90, 0x90,
    0xE0, 0x90, 0xE0, 0x90, 0xE0,
    0xF0, 0x80, 0x80, 0x80, 0xF0,
    0xE0, 0x90, 0x90, 0x90, 0xE0,
    0xF0, 0x80, 0xF0, 0x80, 0xF0,
    0xF0, 0x80, 0xF0, 0x80, 0x80,
];

/// The ten decimal digits in high resolution, ten bytes each.
pub const HIRES_FONTSET: [u8; HIRES_FONTSET_SIZE] = [
    0x3C, 0x7E, 0xE7, 0xC3, 0xC3, 0xC3, 0xC3, 0xE7, 0x7E, 0x3C,
    0x18, 0x38, 0x58, 0x18, 0x18, 0x18, 0x18, 0x18, 0x18, 0x3C,
    0x3E, 0x7F, 0xC3, 0x06, 0x0C, 0x18, 0x30, 0x60, 0xFF, 0xFF,
    0x3C, 0x7E, 0xC3, 0x03, 0x0E, 0x0E, 0x03, 0xC3, 0x7E, 0x3C,
    0x06, 0x0E, 0x1E, 0x36, 0x66, 0xC6, 0xFF, 0xFF, 0x06, 0x06,
    0xFF, 0xFF, 0xC0, 0xC0, 0xFC, 0xFE, 0x03, 0xC3, 0x7E, 0x3C,
    0x3E, 0x7C, 0xC0, 0xC0, 0xFC, 0xFE, 0xC3, 0xC3, 0x7E, 0x3C,
    0xFF, 0xFF, 0x03, 0x06, 0x0C, 0x18, 0x30, 0x60, 0x60, 0x60,
    0x3C, 0x7E, 0xC3, 0xC3, 0x7E, 0x7E, 0xC3, 0xC3, 0x7E, 0x3C,
    0x3C, 0x7E, 0xC3, 0xC3, 0x7F, 0x3F, 0x03, 0x03, 0x3E, 0x7C,
];

/// Memory as a machine starts with it: the two glyph sets at their
/// addresses and zero everywhere else.
pub open spec fn initial_memory() -> Seq<u8> {
    Seq::new(
        4096,
        |a: int|
            if FONTSET_ADDR <= a < FONTSET_ADDR + FONTSET_SIZE {
                FONTSET@[a - FONTSET_ADDR]
            } else if HIRES_FONTSET_ADDR <= a < HIRES_FONTSET_ADDR + HIRES_FONTSET_SIZE {
                HIRES_FONTSET@[a - HIRES_FONTSET_ADDR]
            } else {
                0u8
            },
    )
}

} // verus!
