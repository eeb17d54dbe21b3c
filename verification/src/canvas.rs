//! The text buffer: two rows of eight cells, each holding the pixels it
//! shows, turned into the two memory images of the display.

use crate::bitmap::{glyph_rows, mask_rows, Bitmap};
use crate::cache::{cgram_glyphs, pass_address, pass_cache, CgRam, GlyphCache};
use vstd::prelude::*;

verus! {

/// The display memory image: one address per cell, the upper row first.
pub type DdRam = [u8; 16];

/// How to treat the column of inactive pixels that separates two characters
/// of the display.
#[derive(Clone, Copy, Debug, PartialEq, Eq)]
pub enum Gap {
    /// Scroll as if the column were not there: a row is five pixels wide.
    Skip,
    /// Scroll through the column: a row has a sixth pixel, hidden behind it.
    Hide,
}

impl Default for Gap {
    fn default() -> (gap: Self)
        ensures
            gap == Gap::Skip,
    {
        Gap::Skip
    }
}

/// Number of pixels that a row holds under `gap`, the hidden one included.
pub open spec fn row_width(gap: Gap) -> u8 {
    match gap {
        Gap::Skip => 5,
        Gap::Hide => 6,
    }
}

/// The bits of a row that hold a pixel under `gap`.
pub open spec fn row_mask(gap: Gap) -> u8 {
    match gap {
        Gap::Skip => 0b011111,
        Gap::Hide => 0b111111,
    }
}

/// A row after one shift to the left: its own pixels moved by one and cut to
/// the width of a row, and in its lowest bits whatever `next`, the same row of
/// the cell to its right, pushed out beyond that width.
pub open spec fn shifted_row(row: u8, next: u8, gap: Gap) -> u8 {
    ((row << 1) & row_mask(gap)) | ((next << 1) >> row_width(gap))
}

/// All sixteen cells after one shift to the left. The cell to the right of
/// the last one is the first.
pub open spec fn shifted_cells(cells: Seq<Seq<u8>>, gap: Gap) -> Seq<Seq<u8>> {
    Seq::new(
        16,
        |x: int| Seq::new(8, |y: int| shifted_row(cells[x][y], cells[(x + 1) % 16][y], gap)),
    )
}

/// The gap that an operation works with: the one given for this call, else
/// the one of the canvas.
pub open spec fn effective_gap(custom: Option<Gap>, own: Gap) -> Gap {
    match custom {
        Some(gap) => gap,
        None => own,
    }
}

/// The cells after the first `n` characters of `text` were written under
/// `gap`: before each character the content is shifted if the gap is
/// [`Gap::Skip`], then the character's glyph replaces the cell whose index is
/// the character's position in the text modulo sixteen.
pub open spec fn written_cells(cells: Seq<Seq<u8>>, gap: Gap, text: Seq<char>, n: int) -> Seq<
    Seq<u8>,
>
    decreases n,
{
    if n <= 0 {
        cells
    } else {
        let before = written_cells(cells, gap, text, n - 1);
        let opened = match gap {
            Gap::Skip => shifted_cells(before, Gap::Skip),
            Gap::Hide => before,
        };
        opened.update((n - 1) % 16, glyph_rows(text[n - 1]))
    }
}

/// The glyph that each cell shows: its rows without the hidden pixel.
pub open spec fn visible_glyphs(cells: Seq<Seq<u8>>) -> Seq<Seq<u8>> {
    Seq::new(16, |i: int| mask_rows(cells[i]))
}

/// Sixteen cells of eight rows each.
pub open spec fn is_grid(cells: Seq<Seq<u8>>) -> bool {
    &&& cells.len() == 16
    &&& forall|x: int| 0 <= x < 16 ==> (#[trigger] cells[x]).len() == 8
}

/// What a canvas is: its sixteen cells of eight rows each, and its gap.
pub struct CanvasView {
    pub cells: Seq<Seq<u8>>,
    pub gap: Gap,
}

/// The text buffer of the display.
pub struct Canvas {
    data: [[u8; 8]; 16],
    gap: Gap,
}

impl View for Canvas {
    type V = CanvasView;

    closed spec fn view(&self) -> CanvasView {
        CanvasView { cells: Seq::new(16, |x: int| self.data[x]@), gap: self.gap }
    }
}

/// The value of byte `(c, r)` while the carries are worked in, just before
/// it is the turn of byte `(x, y)`; `cells` are the cells before the shift.
spec fn carried_upto(cells: Seq<Seq<u8>>, gap: Gap, c: int, r: int, x: int, y: int) -> u8 {
    let moved = cells[c][r] << 1;
    let carry = (cells[(c + 1) % 16][r] << 1) >> row_width(gap);
    let from = (c + 1) % 16;
    let cut = c < x || (c == x && r < y);
    let fed = from < x || (from == x && r < y);
    if cut {
        if fed {
            (moved & row_mask(gap)) | carry
        } else {
            moved & row_mask(gap)
        }
    } else {
        if fed {
            moved | carry
        } else {
            moved
        }
    }
}

proof fn lemma_carry_five(moved: u8, next: u8)
    by (bit_vector)
    ensures
        (moved | (next >> 5u8)) >> 5u8 == moved >> 5u8,
        (moved | (next >> 5u8)) & 0b011111u8 == (moved & 0b011111u8) | (next >> 5u8),
        (1u8 << 5u8) - 1 == 0b011111u8,
{
}

proof fn lemma_carry_six(moved: u8, next: u8)
    by (bit_vector)
    ensures
        (moved | (next >> 6u8)) >> 6u8 == moved >> 6u8,
        (moved | (next >> 6u8)) & 0b111111u8 == (moved & 0b111111u8) | (next >> 6u8),
        (1u8 << 6u8) - 1 == 0b111111u8,
{
}

proof fn lemma_carry(moved: u8, next: u8, gap: Gap)
    ensures
        (moved | (next >> row_width(gap))) >> row_width(gap) == moved >> row_width(gap),
        (moved | (next >> row_width(gap))) & row_mask(gap) == (moved & row_mask(gap)) | (next
            >> row_width(gap)),
        (1u8 << row_width(gap)) - 1 == row_mask(gap),
{
    lemma_carry_five(moved, next);
    lemma_carry_six(moved, next);
}

impl Default for Canvas {
    fn default() -> (canvas: Self)
        ensures
            canvas@.gap == Gap::Skip,
            canvas@.cells == Seq::new(16, |x: int| Seq::new(8, |y: int| 0u8)),
            is_grid(canvas@.cells),
    {
        let canvas = Canvas { data: [[0u8; 8]; 16], gap: Gap::Skip };
        proof {
            assert forall|x: int| 0 <= x < 16 implies #[trigger] canvas@.cells[x] == Seq::new(
                8,
                |y: int| 0u8,
            ) by {
                assert(canvas@.cells[x] =~= Seq::new(8, |y: int| 0u8));
            }
            assert(canvas@.cells =~= Seq::new(16, |x: int| Seq::new(8, |y: int| 0u8)));
        }
        canvas
    }
}

impl Canvas {
    /// An empty canvas that scrolls under `gap`.
    pub fn new(gap: Gap) -> (canvas: Self)
        ensures
            canvas@.gap == gap,
            canvas@.cells == Seq::new(16, |x: int| Seq::new(8, |y: int| 0u8)),
            is_grid(canvas@.cells),
    {
        let blank = Canvas::default();
        Canvas { data: blank.data, gap }
    }

    /// Builds both memory images from the content. The cells are resolved
    /// from the first to the last against a cache that starts empty.
    pub fn render(&self) -> (images: (DdRam, CgRam))
        ensures
            forall|i: int|
                0 <= i < 16 ==> #[trigger] images.0[i] == pass_address(
                    visible_glyphs(self@.cells),
                    i,
                ),
            cgram_glyphs(images.1) == pass_cache(visible_glyphs(self@.cells), 16),
            is_grid(self@.cells),
    {
        let mut cache = GlyphCache::new();
        let mut ddram: DdRam = [0u8; 16];
        let ghost glyphs = visible_glyphs(self@.cells);
        for i in 0..16usize
            invariant
                glyphs == visible_glyphs(self@.cells),
                cache@ == pass_cache(glyphs, i as int),
                forall|j: int| 0 <= j < i ==> #[trigger] ddram[j] == pass_address(glyphs, j),
        {
            ddram[i] = cache.resolve(Bitmap::new(self.data[i]));
        }
        (ddram, cache.into_cgram())
    }

    /// Writes `text` from the first cell on; a text longer than the canvas
    /// goes on at the first cell again.
    pub fn write(&mut self, text: &str, custom_gap: Option<Gap>)
        ensures
            final(self)@.cells == written_cells(
                old(self)@.cells,
                effective_gap(custom_gap, old(self)@.gap),
                text@,
                text@.len() as int,
            ),
            final(self)@.gap == old(self)@.gap,
            is_grid(final(self)@.cells),
    {
        let gap = match custom_gap {
            Some(gap) => gap,
            None => self.gap,
        };
        let mut cell: usize = 0;
        for ch in it: text.chars()
            invariant
                self.gap == old(self).gap,
                it.seq() == text@,
                cell == it.index() % 16,
                self@.cells == written_cells(old(self)@.cells, gap, text@, it.index() as int),
        {
            match gap {
                Gap::Skip => {
                    self.shift_left(Some(Gap::Skip));
                },
                Gap::Hide => {},
            }
            let ghost opened = self@.cells;
            self.data[cell] = Bitmap::render(ch).raw();
            proof {
                assert(self@.cells =~= opened.update(cell as int, glyph_rows(ch)));
            }
            cell = if cell == 15 {
                0
            } else {
                cell + 1
            };
        }
    }

    /// Shifts the content one pixel to the left. What leaves a cell on its left
    /// enters the cell before it on the right; what leaves the first cell
    /// enters the last.
    pub fn shift_left(&mut self, custom_gap: Option<Gap>)
        ensures
            final(self)@.cells == shifted_cells(
                old(self)@.cells,
                effective_gap(custom_gap, old(self)@.gap),
            ),
            final(self)@.gap == old(self)@.gap,
            is_grid(final(self)@.cells),
    {
        let gap = match custom_gap {
            Some(gap) => gap,
            None => self.gap,
        };
        let shift: u8 = match gap {
            Gap::Skip => 5,
            Gap::Hide => 6,
        };
        proof {
            lemma_carry(0, 0, gap);
        }
        let mask: u8 = (1u8 << shift) - 1;
        let ghost cells = self@.cells;

        for x in 0..16usize
            invariant
                self.gap == old(self).gap,
                cells == old(self)@.cells,
                forall|c: int, r: int|
                    0 <= c < 16 && 0 <= r < 8 ==> #[trigger] self.data[c][r] == (if c < x {
                        cells[c][r] << 1
                    } else {
                        cells[c][r]
                    }),
        {
            for y in 0..8usize
                invariant
                    x < 16,
                    self.gap == old(self).gap,
                    cells == old(self)@.cells,
                    forall|c: int, r: int|
                        0 <= c < 16 && 0 <= r < 8 ==> #[trigger] self.data[c][r] == (if c < x || (c
                            == x && r < y) {
                            cells[c][r] << 1
                        } else {
                            cells[c][r]
                        }),
            {
                self.data[x][y] <<= 1;
            }
        }

        for x in 0..16usize
            invariant
                self.gap == old(self).gap,
                shift == row_width(gap),
                mask == row_mask(gap),
                forall|c: int, r: int|
                    0 <= c < 16 && 0 <= r < 8 ==> #[trigger] self.data[c][r] == carried_upto(
                        cells,
                        gap,
                        c,
                        r,
                        x as int,
                        0,
                    ),
        {
            for y in 0..8usize
                invariant
                    x < 16,
                    self.gap == old(self).gap,
                    shift == row_width(gap),
                    mask == row_mask(gap),
                    forall|c: int, r: int|
                        0 <= c < 16 && 0 <= r < 8 ==> #[trigger] self.data[c][r] == carried_upto(
                            cells,
                            gap,
                            c,
                            r,
                            x as int,
                            y as int,
                        ),
            {
                let prev: usize = if x == 0 {
                    15
                } else {
                    x - 1
                };
                let ghost before = self.data;
                let carry: u8 = self.data[x][y] >> shift;
                proof {
                    let moved = cells[x as int][y as int] << 1;
                    let fed = cells[(x as int + 1) % 16][y as int] << 1;
                    lemma_carry(moved, fed, gap);
                    assert(before[x as int][y as int] == carried_upto(
                        cells,
                        gap,
                        x as int,
                        y as int,
                        x as int,
                        y as int,
                    ));
                    assert(carry == moved >> shift);
                }
                self.data[prev][y] |= carry;
                self.data[x][y] &= mask;
                proof {
                    assert forall|c: int, r: int| 0 <= c < 16 && 0 <= r < 8 implies #[trigger] self.data[c][r]
                        == carried_upto(cells, gap, c, r, x as int, y as int + 1) by {
                        assert(before[c][r] == carried_upto(cells, gap, c, r, x as int, y as int));
                        let moved = cells[c][r] << 1;
                        let fed = cells[(c + 1) % 16][r] << 1;
                        lemma_carry(moved, fed, gap);
                    }
                }
            }
            proof {
                assert forall|c: int, r: int| 0 <= c < 16 && 0 <= r < 8 implies carried_upto(
                    cells,
                    gap,
                    c,
                    r,
                    x as int,
                    8,
                ) == carried_upto(cells, gap, c, r, x as int + 1, 0) by {}
            }
        }
        proof {
            assert forall|c: int| 0 <= c < 16 implies #[trigger] self@.cells[c] == shifted_cells(
                cells,
                gap,
            )[c] by {
                assert(self@.cells[c] =~= shifted_cells(cells, gap)[c]);
            }
            assert(self@.cells =~= shifted_cells(cells, gap));
        }
    }
}

} // verus!
