//! The boot console: a character grid rendered into a linear pixel
//! framebuffer. The grid scrolls upward one row at a time; each character
//! cell is an 8x8 font glyph scaled up by a fixed factor.

use vstd::prelude::*;

use crate::bitmap::glyph_row;
use crate::bitmap::to_bitmap;
use crate::bitmap::FONT_WIDTH;

verus! {

/// Fixed up-scaling factor of the font.
pub const SCALE_FACTOR: usize = 8;

/// Width and height of one character cell in framebuffer pixels.
pub const CELL_PIXELS: usize = FONT_WIDTH * SCALE_FACTOR;

/// Foreground colour of console text.
pub const FG_COLOR: u32 = 0xA8A8A8;

/// Background colour of the console.
pub const BG_COLOR: u32 = 0;

/// The pixel at row `y`, column `x` of a framebuffer with `rp` pixels per
/// row.
pub open spec fn pixel_at(fb: Seq<u32>, rp: int, y: int, x: int) -> u32 {
    fb[y * rp + x]
}

/// The colour pixel (`dy`, `dx`) of the scaled glyph for `c` takes: each
/// glyph bit covers a `SCALE_FACTOR`-sized square, bit 7 of a glyph row
/// being leftmost.
pub open spec fn glyph_pixel(c: char, dy: int, dx: int, fg: u32, bg: u32) -> u32 {
    if glyph_row(c, dy / (SCALE_FACTOR as int)) & (1u8 << ((FONT_WIDTH - 1 - dx / (
    SCALE_FACTOR as int)) as u8)) != 0 {
        fg
    } else {
        bg
    }
}

/// True when the character cell (`cx`, `cy`) of the framebuffer shows the
/// scaled glyph of `c` in the given colours.
pub open spec fn cell_shows(fb: Seq<u32>, rp: int, cx: int, cy: int, c: char, fg: u32, bg: u32) -> bool {
    forall|y: int, x: int|
        cy * CELL_PIXELS <= y < cy * CELL_PIXELS + CELL_PIXELS && cx * CELL_PIXELS <= x < cx
            * CELL_PIXELS + CELL_PIXELS ==> #[trigger] pixel_at(fb, rp, y, x) == glyph_pixel(
            c,
            y - cy * CELL_PIXELS,
            x - cx * CELL_PIXELS,
            fg,
            bg,
        )
}

/// Row-major pixel indices are unique: distinct (row, column) pairs within
/// a row's width address distinct flat indices.
proof fn lemma_pixel_unique(y1: int, x1: int, y2: int, x2: int, rp: int)
    by (nonlinear_arith)
    requires
        0 <= x1 < rp,
        0 <= x2 < rp,
        y1 * rp + x1 == y2 * rp + x2,
    ensures
        y1 == y2,
        x1 == x2,
{
}

/// A pixel inside the framebuffer's row/column bounds has a flat index
/// inside the buffer.
proof fn lemma_pixel_index(y: int, x: int, rows: int, rp: int)
    by (nonlinear_arith)
    requires
        0 <= y < rows,
        0 <= x < rp,
    ensures
        0 <= y * rp + x < rows * rp,
{
}

/// Grid-to-pixel console renderer over an owned linear pixel buffer.
#[derive(Debug)]
pub struct FrameBufferManager {
    /// The pixel buffer, row-major, one dword per pixel.
    pub fb: Vec<u32>,
    /// The character grid, row-major; the last row is the input row.
    pub chars: Vec<char>,
    /// Number of character columns.
    pub horiz_chars: usize,
    /// Bytes per pixel; always 4.
    pub bytes_per_pixel: usize,
    /// Bytes per framebuffer row.
    pub stride: usize,
    /// Up-scaling factor of the font; always `SCALE_FACTOR`.
    pub scale_factor: usize,
    /// Input position in the last grid row.
    pub idx: usize,
    /// Shift of the red mask in RGB.
    pub red_mask_shift: u8,
    /// Shift of the green mask in RGB.
    pub green_mask_shift: u8,
    /// Shift of the blue mask in RGB.
    pub blue_mask_shift: u8,
}

impl FrameBufferManager {
    /// Pixels per framebuffer row.
    pub open spec fn row_pixels(&self) -> int {
        self.stride as int / 4
    }

    /// Pixel rows in the framebuffer.
    pub open spec fn fb_rows(&self) -> int {
        self.fb@.len() as int / self.row_pixels()
    }

    /// Number of character rows in the grid.
    pub open spec fn vert_chars(&self) -> int {
        self.chars@.len() as int / self.horiz_chars as int
    }

    /// The input position in the last grid row.
    pub open spec fn spec_idx(&self) -> int {
        self.idx as int
    }

    /// The pixel buffer contents.
    pub open spec fn spec_fb(&self) -> Seq<u32> {
        self.fb@
    }

    /// Structural well-formedness: the grid is non-empty and rectangular,
    /// and the pixel buffer is large enough for the scaled grid.
    pub open spec fn wf(&self) -> bool {
        &&& self.bytes_per_pixel == 4
        &&& self.scale_factor == SCALE_FACTOR
        &&& self.stride % 4 == 0
        &&& self.stride >= 4
        &&& self.horiz_chars >= 1
        &&& self.vert_chars() >= 1
        &&& self.chars@.len() == self.horiz_chars * self.vert_chars()
        &&& self.idx <= self.horiz_chars
        &&& CELL_PIXELS * self.horiz_chars <= self.row_pixels()
        &&& self.fb@.len() == self.fb_rows() * self.row_pixels()
        &&& CELL_PIXELS * self.vert_chars() <= self.fb_rows()
    }

    /// True when grid cell (`cx`, `cy`) is rendered with the character the
    /// grid holds there, in the console colours.
    pub open spec fn cell_ok(&self, cx: int, cy: int) -> bool {
        cell_shows(
            self.fb@,
            self.row_pixels(),
            cx,
            cy,
            self.chars@[cy * self.horiz_chars + cx],
            FG_COLOR,
            BG_COLOR,
        )
    }

    /// True when every grid cell is rendered as the grid prescribes.
    pub open spec fn screen_matches(&self) -> bool {
        forall|cx: int, cy: int|
            0 <= cx < self.horiz_chars && 0 <= cy < self.vert_chars() ==> #[trigger] self.cell_ok(
                cx,
                cy,
            )
    }

    /// True when the display geometry of `b` equals that of `a` (everything
    /// but the pixel buffer, the grid and the input position).
    pub open spec fn same_layout(a: &Self, b: &Self) -> bool {
        &&& b.horiz_chars == a.horiz_chars
        &&& b.bytes_per_pixel == a.bytes_per_pixel
        &&& b.stride == a.stride
        &&& b.scale_factor == a.scale_factor
        &&& b.red_mask_shift == a.red_mask_shift
        &&& b.green_mask_shift == a.green_mask_shift
        &&& b.blue_mask_shift == a.blue_mask_shift
        &&& b.fb@.len() == a.fb@.len()
    }

    /// Build the console over a blank framebuffer with the given display
    /// geometry (sizes in pixels, pitch in bytes, 32 bits per pixel). The
    /// grid gets as many whole scaled cells as fit; the buffer starts
    /// all-background, which renders the all-blank grid.
    pub fn new(
        width: usize,
        height: usize,
        bpp: usize,
        pitch: usize,
        red_mask_shift: u8,
        green_mask_shift: u8,
        blue_mask_shift: u8,
    ) -> (r: Self)
        requires
            bpp == 32,
            pitch % 4 == 0,
            width >= CELL_PIXELS,
            height >= CELL_PIXELS,
            width <= pitch / 4,
            height * (pitch as int / 4) <= usize::MAX,
        ensures
            r.wf(),
            r.screen_matches(),
            r.horiz_chars == width / CELL_PIXELS,
            r.vert_chars() == height / CELL_PIXELS,
            r.stride == pitch,
            r.bytes_per_pixel == 4,
            r.spec_idx() == 0,
            r.chars@.len() == (width / CELL_PIXELS) * (height / CELL_PIXELS),
            forall|i: int| 0 <= i < r.chars@.len() ==> r.chars@[i] == ' ',
            r.red_mask_shift == red_mask_shift,
            r.green_mask_shift == green_mask_shift,
            r.blue_mask_shift == blue_mask_shift,
    {
        let horiz_chars: usize = width / CELL_PIXELS;
        let vert_chars: usize = height / CELL_PIXELS;
        let row_pixels: usize = pitch / 4;
        proof {
            assert(horiz_chars * vert_chars <= width * height) by (nonlinear_arith)
                requires
                    horiz_chars <= width,
                    vert_chars <= height,
                    0 <= horiz_chars,
                    0 <= vert_chars,
                    0 <= width,
                    0 <= height,
            ;
            assert(width * height <= height * (pitch as int / 4)) by (nonlinear_arith)
                requires
                    width <= pitch as int / 4,
                    0 <= width,
                    0 <= height,
            ;
        }
        let ncells: usize = horiz_chars * vert_chars;
        let mut chars: Vec<char> = Vec::new();
        let mut i: usize = 0;
        while i < ncells
            invariant
                i <= ncells,
                chars@.len() == i,
                forall|j: int| 0 <= j < i ==> chars@[j] == ' ',
            decreases ncells - i,
        {
            chars.push(' ');
            i = i + 1;
        }
        let npixels: usize = height * row_pixels;
        let mut fb: Vec<u32> = Vec::new();
        let mut k: usize = 0;
        while k < npixels
            invariant
                k <= npixels,
                fb@.len() == k,
                forall|j: int| 0 <= j < k ==> fb@[j] == 0u32,
            decreases npixels - k,
        {
            fb.push(0);
            k = k + 1;
        }
        let r = FrameBufferManager {
            fb,
            chars,
            horiz_chars,
            bytes_per_pixel: 4,
            stride: pitch,
            scale_factor: SCALE_FACTOR,
            idx: 0,
            red_mask_shift,
            green_mask_shift,
            blue_mask_shift,
        };
        proof {
            assert(r.fb@.len() == height * row_pixels);
            assert((height * row_pixels) as int / row_pixels as int == height) by (nonlinear_arith)
                requires
                    row_pixels >= 1,
                    height >= 0,
            ;
            assert(r.fb_rows() == height);
            assert(CELL_PIXELS * horiz_chars <= width) by (nonlinear_arith)
                requires
                    horiz_chars == width as int / (CELL_PIXELS as int),
                    width >= 0,
            ;
            assert(CELL_PIXELS * vert_chars <= height) by (nonlinear_arith)
                requires
                    vert_chars == height as int / (CELL_PIXELS as int),
                    height >= 0,
            ;
            assert(r.chars@.len() == horiz_chars * vert_chars);
            assert(r.vert_chars() == vert_chars) by (nonlinear_arith)
                requires
                    r.chars@.len() == horiz_chars * vert_chars,
                    r.horiz_chars == horiz_chars,
                    horiz_chars >= 1,
                    vert_chars >= 0,
                    r.vert_chars() == r.chars@.len() as int / r.horiz_chars as int,
            ;
            assert(forall|m: u8| (0u8 & m) == 0) by (bit_vector);
            assert forall|cx: int, cy: int|
                0 <= cx < r.horiz_chars && 0 <= cy < r.vert_chars() implies #[trigger] r.cell_ok(
                cx,
                cy,
            ) by {
                lemma_pixel_index(cy, cx, r.vert_chars(), r.horiz_chars as int);
                assert(r.chars@[cy * r.horiz_chars + cx] == ' ');
                assert forall|y: int, x: int|
                    cy * CELL_PIXELS <= y < cy * CELL_PIXELS + CELL_PIXELS && cx * CELL_PIXELS <= x
                        < cx * CELL_PIXELS + CELL_PIXELS implies #[trigger] pixel_at(
                    r.fb@,
                    r.row_pixels(),
                    y,
                    x,
                ) == glyph_pixel(' ', y - cy * CELL_PIXELS, x - cx * CELL_PIXELS, FG_COLOR, BG_COLOR) by {
                    assert(y < r.fb_rows() && x < r.row_pixels()) by (nonlinear_arith)
                        requires
                            y < (cy + 1) * (CELL_PIXELS as int),
                            x < (cx + 1) * (CELL_PIXELS as int),
                            cy + 1 <= r.vert_chars(),
                            cx + 1 <= r.horiz_chars,
                            CELL_PIXELS * r.vert_chars() <= r.fb_rows(),
                            CELL_PIXELS * r.horiz_chars <= r.row_pixels(),
                    ;
                    lemma_pixel_index(y, x, r.fb_rows(), r.row_pixels());
                    assert(r.fb@[y * r.row_pixels() + x] == 0u32);
                    assert(glyph_row(' ', (y - cy * CELL_PIXELS) / (SCALE_FACTOR as int)) == 0);
                }
            }
        }
        r
    }

    /// Render the scaled glyph of `c` into grid cell (`cx`, `cy`) with the
    /// given colours; every pixel outside that cell is untouched.
    pub fn putchar(&mut self, c: char, cx: usize, cy: usize, fg: u32, bg: u32)
        requires
            old(self).wf(),
            cx < old(self).horiz_chars,
            cy < old(self).vert_chars(),
        ensures
            final(self).wf(),
            Self::same_layout(old(self), final(self)),
            final(self).chars@ == old(self).chars@,
            final(self).spec_idx() == old(self).spec_idx(),
            cell_shows(final(self).fb@, final(self).row_pixels(), cx as int, cy as int, c, fg, bg),
            forall|y: int, x: int|
                0 <= y < old(self).fb_rows() && 0 <= x < old(self).row_pixels() && !(cy * CELL_PIXELS
                    <= y < cy * CELL_PIXELS + CELL_PIXELS && cx * CELL_PIXELS <= x < cx
                    * CELL_PIXELS + CELL_PIXELS) ==> #[trigger] pixel_at(
                    final(self).fb@,
                    final(self).row_pixels(),
                    y,
                    x,
                ) == pixel_at(old(self).fb@, old(self).row_pixels(), y, x),
    {
        let ghost fb0 = self.fb@;
        let ghost rp = self.row_pixels();
        let ghost rows = self.fb_rows();
        let glyph = to_bitmap(c);
        let fb_len: usize = self.fb.len();
        let row_pixels: usize = self.stride / 4;
        proof {
            assert(row_pixels >= 1) by (nonlinear_arith)
                requires
                    row_pixels == self.stride as int / 4,
                    self.stride >= 4,
            ;
        }
        let fb_row_count: usize = fb_len / row_pixels;
        proof {
            assert(fb_row_count == rows);
            assert((cy + 1) * (CELL_PIXELS as int) <= (CELL_PIXELS as int) * self.vert_chars()
                && (cx + 1) * (CELL_PIXELS as int) <= (CELL_PIXELS as int) * self.horiz_chars)
                by (nonlinear_arith)
                requires
                    cy + 1 <= self.vert_chars(),
                    cx + 1 <= self.horiz_chars,
                    CELL_PIXELS > 0,
            ;
        }
        let y_base: usize = cy * CELL_PIXELS;
        let x_base: usize = cx * CELL_PIXELS;
        let mut dy: usize = 0;
        while dy < CELL_PIXELS
            invariant
                dy <= CELL_PIXELS,
                self.wf(),
                Self::same_layout(old(self), self),
                self.chars@ == old(self).chars@,
                self.idx == old(self).idx,
                rp == self.row_pixels(),
                rows == self.fb_rows(),
                fb0.len() == self.fb@.len(),
                y_base == cy * CELL_PIXELS,
                x_base == cx * CELL_PIXELS,
                row_pixels == rp,
                cx < old(self).horiz_chars,
                cy < old(self).vert_chars(),
                y_base + CELL_PIXELS <= rows,
                x_base + CELL_PIXELS <= rp,
                rows <= usize::MAX,
                self.fb@.len() <= usize::MAX,
                forall|i: int| 0 <= i < 8 ==> glyph@[i] == glyph_row(c, i),
                forall|y2: int, x2: int|
                    y_base <= y2 < y_base + dy && x_base <= x2 < x_base + CELL_PIXELS ==> (
                    #[trigger] pixel_at(self.fb@, rp, y2, x2)) == glyph_pixel(
                        c,
                        y2 - y_base,
                        x2 - x_base,
                        fg,
                        bg,
                    ),
                forall|y2: int, x2: int|
                    0 <= y2 < rows && 0 <= x2 < rp && !(y_base <= y2 < y_base + dy && x_base <= x2
                        < x_base + CELL_PIXELS) ==> (#[trigger] pixel_at(self.fb@, rp, y2, x2))
                        == pixel_at(fb0, rp, y2, x2),
            decreases CELL_PIXELS - dy,
        {
            let row: u8 = glyph[dy / SCALE_FACTOR];
            let y: usize = y_base + dy;
            proof {
                assert(y * rp + (x_base + CELL_PIXELS) <= rows * rp) by (nonlinear_arith)
                    requires
                        0 <= y,
                        y + 1 <= rows,
                        0 <= x_base + CELL_PIXELS <= rp,
                ;
                assert(self.fb@.len() == rows * rp);
            }
            let row_base: usize = y * row_pixels;
            let mut dx: usize = 0;
            while dx < CELL_PIXELS
                invariant
                    dx <= CELL_PIXELS,
                    dy < CELL_PIXELS,
                    self.wf(),
                    Self::same_layout(old(self), self),
                    self.chars@ == old(self).chars@,
                    self.idx == old(self).idx,
                    rp == self.row_pixels(),
                    rows == self.fb_rows(),
                    fb0.len() == self.fb@.len(),
                    y_base == cy * CELL_PIXELS,
                    x_base == cx * CELL_PIXELS,
                    row_pixels == rp,
                    y == y_base + dy,
                    row_base == y * rp,
                    y < rows,
                    y_base + CELL_PIXELS <= rows,
                    x_base + CELL_PIXELS <= rp,
                    rows <= usize::MAX,
                    self.fb@.len() <= usize::MAX,
                    row_base + x_base + CELL_PIXELS <= self.fb@.len(),
                    row == glyph_row(c, dy as int / (SCALE_FACTOR as int)),
                    forall|i: int| 0 <= i < 8 ==> glyph@[i] == glyph_row(c, i),
                    forall|y2: int, x2: int|
                        y_base <= y2 < y_base + dy && x_base <= x2 < x_base + CELL_PIXELS ==> (
                        #[trigger] pixel_at(self.fb@, rp, y2, x2)) == glyph_pixel(
                            c,
                            y2 - y_base,
                            x2 - x_base,
                            fg,
                            bg,
                        ),
                    forall|x2: int|
                        x_base <= x2 < x_base + dx ==> (#[trigger] pixel_at(
                            self.fb@,
                            rp,
                            y as int,
                            x2,
                        )) == glyph_pixel(c, dy as int, x2 - x_base, fg, bg),
                    forall|y2: int, x2: int|
                        0 <= y2 < rows && 0 <= x2 < rp && !(y_base <= y2 < y_base + dy && x_base
                            <= x2 < x_base + CELL_PIXELS) && !(y2 == y && x_base <= x2 < x_base
                            + dx) ==> (#[trigger] pixel_at(self.fb@, rp, y2, x2)) == pixel_at(
                            fb0,
                            rp,
                            y2,
                            x2,
                        ),
                decreases CELL_PIXELS - dx,
            {
                let bit: u8 = (FONT_WIDTH - 1 - dx / SCALE_FACTOR) as u8;
                let value: u32 = if row & (1u8 << bit) != 0 {
                    fg
                } else {
                    bg
                };
                let x: usize = x_base + dx;
                let ghost prev = self.fb@;
                self.fb.set(row_base + x, value);
                proof {
                    assert(value == glyph_pixel(c, dy as int, dx as int, fg, bg));
                    assert(self.fb@ == prev.update(row_base + x, value));
                    assert(pixel_at(self.fb@, rp, y as int, x as int) == value);
                    assert forall|y2: int, x2: int|
                        0 <= y2 < rows && 0 <= x2 < rp && !(y2 == y && x2 == x) implies (
                    #[trigger] pixel_at(self.fb@, rp, y2, x2)) == pixel_at(prev, rp, y2, x2) by {
                        lemma_pixel_index(y2, x2, rows, rp);
                        if y2 * rp + x2 == y * rp + x {
                            lemma_pixel_unique(y2, x2, y as int, x as int, rp);
                        }
                    }
                }
                dx = dx + 1;
            }
            proof {
                assert forall|y2: int, x2: int|
                    y_base <= y2 < y_base + dy + 1 && x_base <= x2 < x_base + CELL_PIXELS implies (
                #[trigger] pixel_at(self.fb@, rp, y2, x2)) == glyph_pixel(
                    c,
                    y2 - y_base,
                    x2 - x_base,
                    fg,
                    bg,
                ) by {
                    if y2 == y_base + dy {
                        assert(pixel_at(self.fb@, rp, y2, x2) == glyph_pixel(
                            c,
                            dy as int,
                            x2 - x_base,
                            fg,
                            bg,
                        ));
                    }
                }
            }
            dy = dy + 1;
        }
    }

    /// Scroll the grid up by one character row, clearing the freed last row.
    fn newline(&mut self)
        requires
            old(self).wf(),
        ensures
            final(self).wf(),
            Self::same_layout(old(self), final(self)),
            final(self).fb@ == old(self).fb@,
            final(self).spec_idx() == old(self).spec_idx(),
            final(self).chars@ == scrolled(old(self).chars@, old(self).horiz_chars as int),
    {
        let h: usize = self.horiz_chars;
        let len: usize = self.chars.len();
        proof {
            assert(h * 1 <= h * self.vert_chars()) by (nonlinear_arith)
                requires
                    1 <= self.vert_chars(),
                    h >= 0,
            ;
        }
        let shifted: usize = len - h;
        let mut i: usize = 0;
        while i < shifted
            invariant
                i <= shifted,
                shifted == len - h,
                h <= len,
                old(self).wf(),
                h == self.horiz_chars,
                Self::same_layout(old(self), self),
                self.fb@ == old(self).fb@,
                self.idx == old(self).idx,
                self.chars@.len() == len,
                old(self).chars@.len() == len,
                forall|j: int| 0 <= j < i ==> self.chars@[j] == old(self).chars@[j + h],
                forall|j: int| i <= j < len ==> self.chars@[j] == old(self).chars@[j],
            decreases shifted - i,
        {
            let c = self.chars[i + h];
            self.chars.set(i, c);
            i = i + 1;
        }
        let mut j: usize = shifted;
        while j < len
            invariant
                shifted <= j <= len,
                shifted == len - h,
                h <= len,
                old(self).wf(),
                h == self.horiz_chars,
                Self::same_layout(old(self), self),
                self.fb@ == old(self).fb@,
                self.idx == old(self).idx,
                self.chars@.len() == len,
                old(self).chars@.len() == len,
                forall|k: int| 0 <= k < shifted ==> self.chars@[k] == old(self).chars@[k + h],
                forall|k: int| shifted <= k < j ==> self.chars@[k] == ' ',
            decreases len - j,
        {
            self.chars.set(j, ' ');
            j = j + 1;
        }
        proof {
            assert(self.chars@ =~= scrolled(old(self).chars@, h as int));
        }
    }

    /// Repaint the whole grid from its characters.
    fn redraw(&mut self)
        requires
            old(self).wf(),
        ensures
            final(self).wf(),
            Self::same_layout(old(self), final(self)),
            final(self).chars@ == old(self).chars@,
            final(self).spec_idx() == old(self).spec_idx(),
            final(self).screen_matches(),
    {
        let h: usize = self.horiz_chars;
        let total: usize = self.chars.len();
        let ghost vert = self.vert_chars();
        let mut x: usize = 0;
        let mut y: usize = 0;
        let mut k: usize = 0;
        while k < total
            invariant
                self.wf(),
                Self::same_layout(old(self), self),
                self.chars@ == old(self).chars@,
                self.idx == old(self).idx,
                h == self.horiz_chars,
                total == self.chars@.len(),
                vert == self.vert_chars(),
                k <= total,
                x < h,
                k == y * h + x,
                y <= vert,
                forall|cx2: int, cy2: int|
                    0 <= cx2 < h && 0 <= cy2 < vert && cy2 * h + cx2 < k ==> #[trigger] self.cell_ok(
                        cx2,
                        cy2,
                    ),
            decreases total - k,
        {
            proof {
                assert(y < vert) by (nonlinear_arith)
                    requires
                        k == y * h + x,
                        k < total,
                        total == h * vert,
                        0 <= x < h,
                        0 <= y,
                        h >= 1,
                ;
            }
            let c = self.chars[k];
            let ghost before = *self;
            self.putchar(c, x, y, FG_COLOR, BG_COLOR);
            proof {
                assert forall|cx2: int, cy2: int|
                    0 <= cx2 < h && 0 <= cy2 < vert && cy2 * h + cx2 < k + 1 implies (
                #[trigger] self.cell_ok(cx2, cy2)) by {
                    if cy2 * h + cx2 == k {
                        lemma_pixel_unique(cy2, cx2, y as int, x as int, h as int);
                        assert(cx2 == x && cy2 == y);
                        assert(cell_shows(
                            self.fb@,
                            self.row_pixels(),
                            cx2,
                            cy2,
                            self.chars@[cy2 * h + cx2],
                            FG_COLOR,
                            BG_COLOR,
                        ));
                    } else {
                        if cy2 * h + cx2 > k {
                            lemma_pixel_index(cy2, cx2, vert, h as int);
                            assert(false);
                        }
                        assert(before.cell_ok(cx2, cy2));
                        if cx2 == x && cy2 == y {
                            assert(false);
                        }
                        lemma_cell_preserved(
                            before.fb@,
                            self.fb@,
                            self.row_pixels(),
                            self.fb_rows(),
                            cx2,
                            cy2,
                            x as int,
                            y as int,
                            self.chars@[cy2 * h + cx2],
                            FG_COLOR,
                            BG_COLOR,
                            h as int,
                            vert,
                        );
                    }
                }
            }
            proof {
                assert((y as int + 1) * (h as int) == y as int * (h as int) + h)
                    by (nonlinear_arith);
            }
            k = k + 1;
            if x + 1 == h {
                x = 0;
                y = y + 1;
            } else {
                x = x + 1;
            }
        }
        proof {
            assert forall|cx2: int, cy2: int|
                0 <= cx2 < self.horiz_chars && 0 <= cy2 < self.vert_chars() implies (
            #[trigger] self.cell_ok(cx2, cy2)) by {
                lemma_pixel_index(cy2, cx2, vert, h as int);
            }
        }
    }

    /// Append one character to the input row. A newline scrolls the grid; a
    /// full input row wraps first; otherwise the character lands at the
    /// input position of the last grid row and is drawn there.
    pub fn put(&mut self, c: char)
        requires
            old(self).wf(),
            old(self).screen_matches(),
        ensures
            final(self).wf(),
            final(self).screen_matches(),
            Self::same_layout(old(self), final(self)),
            c == '\n' ==> final(self).chars@ == scrolled(
                old(self).chars@,
                old(self).horiz_chars as int,
            ) && final(self).spec_idx() == 0,
            c != '\n' && old(self).spec_idx() == old(self).horiz_chars ==> final(self).chars@
                == scrolled(old(self).chars@, old(self).horiz_chars as int).update(
                old(self).chars@.len() - old(self).horiz_chars,
                c,
            ) && final(self).spec_idx() == 1,
            c != '\n' && old(self).spec_idx() < old(self).horiz_chars ==> final(self).chars@ == old(
                self,
            ).chars@.update(
                old(self).chars@.len() - old(self).horiz_chars + old(self).spec_idx(),
                c,
            ) && final(self).spec_idx() == old(self).spec_idx() + 1,
    {
        proof {
            assert(self.horiz_chars * 1 <= self.horiz_chars * self.vert_chars())
                by (nonlinear_arith)
                requires
                    1 <= self.vert_chars(),
                    self.horiz_chars >= 0,
            ;
        }
        if c == '\n' {
            self.idx = 0;
            self.newline();
            self.redraw();
            return ;
        }
        let last_line: usize = self.chars.len() - self.horiz_chars;
        if self.idx == self.horiz_chars {
            self.newline();
            self.chars.set(last_line, c);
            self.idx = 1;
            self.redraw();
        } else {
            let offset: usize = last_line + self.idx;
            self.chars.set(offset, c);
            let cx: usize = self.idx;
            let cy: usize = self.chars.len() / self.horiz_chars - 1;
            self.idx = cx + 1;
            let ghost before = *self;
            proof {
                assert(self.vert_chars() == old(self).vert_chars());
                assert((self.vert_chars() - 1) * self.horiz_chars == self.vert_chars()
                    * self.horiz_chars - self.horiz_chars) by (nonlinear_arith);
                assert(self.chars@.len() == self.horiz_chars * self.vert_chars());
            }
            self.putchar(c, cx, cy, FG_COLOR, BG_COLOR);
            proof {
                let h = self.horiz_chars as int;
                let vert = self.vert_chars();
                let clen = self.chars@.len() as int;
                assert(offset == (vert - 1) * h + cx) by (nonlinear_arith)
                    requires
                        offset == clen - h + cx,
                        clen == h * vert,
                        vert >= 1,
                ;
                assert forall|cx2: int, cy2: int|
                    0 <= cx2 < h && 0 <= cy2 < vert implies (#[trigger] self.cell_ok(cx2, cy2)) by {
                    lemma_pixel_index(cy2, cx2, vert, h);
                    if cx2 == cx && cy2 == vert - 1 {
                        assert(cy2 * h + cx2 == offset) by (nonlinear_arith)
                            requires
                                cy2 == vert - 1,
                                cx2 == cx,
                                offset == (vert - 1) * h + cx,
                        ;
                        assert(self.chars@[cy2 * h + cx2] == c);
                        assert(cell_shows(
                            self.fb@,
                            self.row_pixels(),
                            cx2,
                            cy2,
                            c,
                            FG_COLOR,
                            BG_COLOR,
                        ));
                    } else {
                        if cy2 * h + cx2 == offset {
                            lemma_pixel_unique(cy2, cx2, vert - 1, cx as int, h);
                            assert(false);
                        }
                        assert(self.chars@[cy2 * h + cx2] == old(self).chars@[cy2 * h + cx2]);
                        assert(old(self).cell_ok(cx2, cy2));
                        assert(cell_shows(
                            before.fb@,
                            before.row_pixels(),
                            cx2,
                            cy2,
                            self.chars@[cy2 * h + cx2],
                            FG_COLOR,
                            BG_COLOR,
                        ));
                        lemma_cell_preserved(
                            before.fb@,
                            self.fb@,
                            self.row_pixels(),
                            self.fb_rows(),
                            cx2,
                            cy2,
                            cx as int,
                            cy as int,
                            self.chars@[cy2 * h + cx2],
                            FG_COLOR,
                            BG_COLOR,
                            h,
                            vert,
                        );
                    }
                }
            }
        }
    }
}

/// The grid after scrolling up one character row of width `horiz`: the
/// first row is dropped and a blank row is appended.
pub open spec fn scrolled(s: Seq<char>, horiz: int) -> Seq<char> {
    s.skip(horiz) + Seq::new(horiz as nat, |i: int| ' ')
}

/// A rendered cell stays rendered when only the pixels of a different cell
/// were touched.
proof fn lemma_cell_preserved(
    fb1: Seq<u32>,
    fb2: Seq<u32>,
    rp: int,
    rows: int,
    cx1: int,
    cy1: int,
    cx2: int,
    cy2: int,
    c: char,
    fg: u32,
    bg: u32,
    horiz: int,
    vert: int,
)
    requires
        cell_shows(fb1, rp, cx1, cy1, c, fg, bg),
        0 <= cx1 < horiz,
        0 <= cy1 < vert,
        0 <= cx2 < horiz,
        0 <= cy2 < vert,
        !(cx1 == cx2 && cy1 == cy2),
        CELL_PIXELS * horiz <= rp,
        CELL_PIXELS * vert <= rows,
        forall|y: int, x: int|
            0 <= y < rows && 0 <= x < rp && !(cy2 * CELL_PIXELS <= y < cy2 * CELL_PIXELS
                + CELL_PIXELS && cx2 * CELL_PIXELS <= x < cx2 * CELL_PIXELS + CELL_PIXELS) ==> (
            #[trigger] pixel_at(fb2, rp, y, x)) == pixel_at(fb1, rp, y, x),
    ensures
        cell_shows(fb2, rp, cx1, cy1, c, fg, bg),
{
    assert forall|y: int, x: int|
        cy1 * CELL_PIXELS <= y < cy1 * CELL_PIXELS + CELL_PIXELS && cx1 * CELL_PIXELS <= x < cx1
            * CELL_PIXELS + CELL_PIXELS implies #[trigger] pixel_at(fb2, rp, y, x) == glyph_pixel(
        c,
        y - cy1 * CELL_PIXELS,
        x - cx1 * CELL_PIXELS,
        fg,
        bg,
    ) by {
        assert(y < rows && x < rp) by (nonlinear_arith)
            requires
                y < cy1 * (CELL_PIXELS as int) + CELL_PIXELS,
                x < cx1 * (CELL_PIXELS as int) + CELL_PIXELS,
                cy1 + 1 <= vert,
                cx1 + 1 <= horiz,
                (CELL_PIXELS as int) * vert <= rows,
                (CELL_PIXELS as int) * horiz <= rp,
                CELL_PIXELS > 0,
        ;
        assert(!(cy2 * CELL_PIXELS <= y < cy2 * CELL_PIXELS + CELL_PIXELS && cx2 * CELL_PIXELS <= x
            < cx2 * CELL_PIXELS + CELL_PIXELS)) by (nonlinear_arith)
            requires
                cy1 * (CELL_PIXELS as int) <= y < cy1 * (CELL_PIXELS as int) + CELL_PIXELS,
                cx1 * (CELL_PIXELS as int) <= x < cx1 * (CELL_PIXELS as int) + CELL_PIXELS,
                !(cx1 == cx2 && cy1 == cy2),
                CELL_PIXELS > 0,
        ;
        assert(pixel_at(fb2, rp, y, x) == pixel_at(fb1, rp, y, x));
    }
}

} // verus!
