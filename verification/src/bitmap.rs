//! A minimal 8x8 bitmap font for the boot console. Each glyph is eight rows
//! of eight pixels; in every row bit 7 is the leftmost pixel.

use vstd::prelude::*;

verus! {

/// Width of every glyph in font pixels.
pub const FONT_WIDTH: usize = 8;

/// Height of every glyph in font pixels.
pub const FONT_HEIGHT: usize = 8;

/// Row `r` of the glyph for `c` (bit 7 leftmost). The blank is all zeroes;
/// characters outside the font render as a filled block.
pub open spec fn glyph_row(c: char, r: int) -> u8 {
    if c == ' ' || c == '\n' {
        0
    } else if c == '0' {
        if r == 0 {
            0x3C
        } else if r == 1 {
            0x66
        } else if r == 2 {
            0x6E
        } else if r == 3 {
            0x76
        } else if r == 4 {
            0x66
        } else if r == 5 {
            0x66
        } else if r == 6 {
            0x3C
        } else {
            0x00
        }
    } else if c == '1' {
        if r == 0 {
            0x18
        } else if r == 1 {
            0x38
        } else if r == 2 {
            0x18
        } else if r == 3 {
            0x18
        } else if r == 4 {
            0x18
        } else if r == 5 {
            0x18
        } else if r == 6 {
            0x7E
        } else {
            0x00
        }
    } else {
        if r == 7 {
            0x00
        } else {
            0x7E
        }
    }
}

/// The glyph bitmap for `c`, row by row.
pub fn to_bitmap(c: char) -> (r: [u8; 8])
    ensures
        forall|i: int| 0 <= i < 8 ==> r@[i] == glyph_row(c, i),
{
    if c == ' ' || c == '\n' {
        [0x00, 0x00, 0x00, 0x00, 0x00, 0x00, 0x00, 0x00]
    } else if c == '0' {
        [0x3C, 0x66, 0x6E, 0x76, 0x66, 0x66, 0x3C, 0x00]
    } else if c == '1' {
        [0x18, 0x38, 0x18, 0x18, 0x18, 0x18, 0x7E, 0x00]
    } else {
        [0x7E, 0x7E, 0x7E, 0x7E, 0x7E, 0x7E, 0x7E, 0x00]
    }
}

} // verus!
