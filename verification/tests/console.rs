//! The grid-to-pixel console renderer.

use bringup::bitmap::to_bitmap;
use bringup::draw::FrameBufferManager;
use bringup::draw::BG_COLOR;
use bringup::draw::CELL_PIXELS;
use bringup::draw::FG_COLOR;
use bringup::interrupts::InterruptIndex;

fn small_console() -> FrameBufferManager {
    // 2 x 2 character cells of 64 x 64 pixels; pitch equals the width.
    FrameBufferManager::new(128, 128, 32, 512, 0, 8, 16)
}

#[test]
fn new_console_measures_grid_from_geometry() {
    let fb = small_console();
    assert_eq!(fb.horiz_chars, 2);
    assert_eq!(fb.chars.len(), 4);
    assert_eq!(fb.bytes_per_pixel, 4);
    assert_eq!(fb.stride, 512);
    assert_eq!(fb.idx, 0);
    assert!(fb.chars.iter().all(|&c| c == ' '));
    assert_eq!(fb.red_mask_shift, 0);
    assert_eq!(fb.green_mask_shift, 8);
    assert_eq!(fb.blue_mask_shift, 16);
}

#[test]
fn put_writes_into_the_last_grid_row() {
    let mut fb = small_console();
    fb.put('0');
    assert_eq!(fb.chars, vec![' ', ' ', '0', ' ']);
    assert_eq!(fb.idx, 1);
    fb.put('1');
    assert_eq!(fb.chars, vec![' ', ' ', '0', '1']);
    assert_eq!(fb.idx, 2);
}

#[test]
fn newline_scrolls_the_grid_up() {
    let mut fb = small_console();
    fb.put('0');
    fb.put('\n');
    assert_eq!(fb.chars, vec!['0', ' ', ' ', ' ']);
    assert_eq!(fb.idx, 0);
}

#[test]
fn full_input_row_wraps_to_a_fresh_line() {
    let mut fb = small_console();
    fb.put('0');
    fb.put('1');
    assert_eq!(fb.idx, 2);
    fb.put('0');
    // The grid scrolled and the new character starts the fresh last row.
    assert_eq!(fb.chars, vec!['0', '1', '0', ' ']);
    assert_eq!(fb.idx, 1);
}

#[test]
fn putchar_renders_scaled_glyph_pixels() {
    let mut fb = small_console();
    fb.putchar('0', 0, 0, FG_COLOR, BG_COLOR);
    let rp = fb.stride / 4;
    // Glyph row 0 of '0' is 0x3C: bits 7..6 clear, 5..2 set, 1..0 clear.
    // Each glyph bit covers an 8 x 8 pixel square.
    assert_eq!(fb.fb[0], BG_COLOR); // bit 7
    assert_eq!(fb.fb[15], BG_COLOR); // bit 6
    assert_eq!(fb.fb[16], FG_COLOR); // bit 5
    assert_eq!(fb.fb[47], FG_COLOR); // bit 2
    assert_eq!(fb.fb[48], BG_COLOR); // bit 1
    assert_eq!(fb.fb[63], BG_COLOR); // bit 0
    // The scaled row repeats for eight pixel rows.
    assert_eq!(fb.fb[7 * rp + 16], FG_COLOR);
    // Glyph row 7 of '0' is empty.
    assert_eq!(fb.fb[(CELL_PIXELS - 1) * rp + 16], BG_COLOR);
    // Pixels outside the cell are untouched.
    assert_eq!(fb.fb[CELL_PIXELS], 0);
}

#[test]
fn put_paints_the_character_cell_it_fills() {
    let mut fb = small_console();
    fb.put('1');
    let rp = fb.stride / 4;
    // The character lands at grid cell (0, 1): pixel rows start at 64.
    // Glyph row 0 of '1' is 0x18: bits 4 and 3 set.
    let row = CELL_PIXELS * rp;
    assert_eq!(fb.fb[row + 23], BG_COLOR); // bit 5
    assert_eq!(fb.fb[row + 24], FG_COLOR); // bit 4
    assert_eq!(fb.fb[row + 39], FG_COLOR); // bit 3
    assert_eq!(fb.fb[row + 40], BG_COLOR); // bit 2
}

#[test]
fn font_rows_match_bitmap() {
    let g = to_bitmap('0');
    assert_eq!(g, [0x3C, 0x66, 0x6E, 0x76, 0x66, 0x66, 0x3C, 0x00]);
    let blank = to_bitmap(' ');
    assert_eq!(blank, [0; 8]);
    let fallback = to_bitmap('@');
    assert_eq!(fallback[0], 0x7E);
}

#[test]
fn interrupt_index_vectors() {
    assert_eq!(InterruptIndex::Timer.as_u8(), 32);
    assert_eq!(InterruptIndex::ScratchTimer.as_u8(), 33);
}
