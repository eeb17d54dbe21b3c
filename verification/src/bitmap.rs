//! Glyph bitmaps: five pixels wide, eight rows tall, one byte per row.

use vstd::prelude::*;

verus! {

/// Whether the pixel in `column` of a row is lit. Column 0 is the rightmost
/// pixel, column 4 the leftmost visible one.
pub open spec fn pixel(row: u8, column: u8) -> bool {
    (row >> column) & 1u8 == 1u8
}

/// 1 where the two rows differ in `column`, 0 where they agree.
pub open spec fn pixel_difference(a: u8, b: u8, column: u8) -> nat {
    if pixel(a, column) != pixel(b, column) {
        1
    } else {
        0
    }
}

/// Number of pixels in which two rows differ within their `columns`
/// rightmost columns.
pub open spec fn line_distance_upto(a: u8, b: u8, columns: u8) -> nat
    decreases columns,
{
    if columns == 0 {
        0
    } else {
        let last = (columns - 1) as u8;
        line_distance_upto(a, b, last) + pixel_difference(a, b, last)
    }
}

/// Number of visible pixels in which two rows differ.
pub open spec fn line_distance(a: u8, b: u8) -> nat {
    line_distance_upto(a, b, 5)
}

/// Number of visible pixels in which the first `rows` rows of two glyphs differ.
pub open spec fn distance_upto(a: Seq<u8>, b: Seq<u8>, rows: int) -> nat
    decreases rows,
{
    if rows <= 0 {
        0
    } else {
        distance_upto(a, b, rows - 1) + line_distance(a[rows - 1], b[rows - 1])
    }
}

/// Number of pixels, out of forty, in which two glyphs differ.
pub open spec fn glyph_distance(a: Seq<u8>, b: Seq<u8>) -> nat {
    distance_upto(a, b, 8)
}

/// Eight rows, each confined to its five visible pixels.
pub open spec fn is_glyph(rows: Seq<u8>) -> bool {
    &&& rows.len() == 8
    &&& forall|i: int| 0 <= i < 8 ==> #[trigger] rows[i] < 32
}

/// The rows with everything but their five visible pixels cleared.
pub open spec fn mask_rows(rows: Seq<u8>) -> Seq<u8> {
    Seq::new(8, |i: int| rows[i] & 0b11111u8)
}

/// The glyph with no pixel lit.
pub open spec fn blank_rows() -> Seq<u8> {
    Seq::new(8, |i: int| 0u8)
}

/// The characters that have a predefined shape, with their rows from top to
/// bottom.
pub const FONT: [(char, [u8; 8]); 96] = [
    (' ', [0b00000, 0b00000, 0b00000, 0b00000, 0b00000, 0b00000, 0b00000, 0b00000]),
    ('!', [0b00100, 0b00100, 0b00100, 0b00100, 0b00000, 0b00000, 0b00100, 0b00000]),
    ('"', [0b01010, 0b01010, 0b01010, 0b00000, 0b00000, 0b00000, 0b00000, 0b00000]),
    ('#', [0b01010, 0b01010, 0b11111, 0b01010, 0b11111, 0b01010, 0b01010, 0b00000]),
    ('$', [0b00100, 0b01111, 0b10100, 0b01110, 0b00101, 0b11110, 0b00100, 0b00000]),
    ('%', [0b11000, 0b11001, 0b00010, 0b00100, 0b01000, 0b10011, 0b00011, 0b00000]),
    ('&', [0b01100, 0b10010, 0b10100, 0b01000, 0b10101, 0b10010, 0b01101, 0b00000]),
    ('\'', [0b01100, 0b00100, 0b01000, 0b00000, 0b00000, 0b00000, 0b00000, 0b00000]),
    ('(', [0b00010, 0b00100, 0b01000, 0b01000, 0b01000, 0b00100, 0b00010, 0b00000]),
    (')', [0b01000, 0b00100, 0b00010, 0b00010, 0b00010, 0b00100, 0b01000, 0b00000]),
    ('*', [0b00000, 0b00100, 0b10101, 0b01110, 0b10101, 0b00100, 0b00000, 0b00000]),
    ('+', [0b00000, 0b00100, 0b00100, 0b11111, 0b00100, 0b00100, 0b00000, 0b00000]),
    (',', [0b00000, 0b00000, 0b00000, 0b00000, 0b01100, 0b00100, 0b01000, 0b00000]),
    ('-', [0b00000, 0b00000, 0b00000, 0b11111, 0b00000, 0b00000, 0b00000, 0b00000]),
    ('.', [0b00000, 0b00000, 0b00000, 0b00000, 0b00000, 0b01100, 0b01100, 0b00000]),
    ('/', [0b00000, 0b00001, 0b00010, 0b00100, 0b01000, 0b10000, 0b00000, 0b00000]),
    ('0', [0b01110, 0b10001, 0b10011, 0b10101, 0b11001, 0b10001, 0b01110, 0b00000]),
    ('1', [0b00100, 0b01100, 0b00100, 0b00100, 0b00100, 0b00100, 0b01110, 0b00000]),
    ('2', [0b01110, 0b10001, 0b00001, 0b00010, 0b00100, 0b01000, 0b11111, 0b00000]),
    ('3', [0b11111, 0b00010, 0b00100, 0b00010, 0b00001, 0b10001, 0b01110, 0b00000]),
    ('4', [0b00010, 0b00110, 0b01010, 0b10010, 0b11111, 0b00010, 0b00010, 0b00000]),
    ('5', [0b11111, 0b10000, 0b11110, 0b00001, 0b00001, 0b10001, 0b01110, 0b00000]),
    ('6', [0b00110, 0b01000, 0b10000, 0b11110, 0b10001, 0b10001, 0b01110, 0b00000]),
    ('7', [0b11111, 0b00001, 0b00010, 0b00100, 0b01000, 0b01000, 0b01000, 0b00000]),
    ('8', [0b01110, 0b10001, 0b10001, 0b01110, 0b10001, 0b10001, 0b01110, 0b00000]),
    ('9', [0b01110, 0b10001, 0b10001, 0b01111, 0b00001, 0b00010, 0b01100, 0b00000]),
    (':', [0b00000, 0b01100, 0b01100, 0b00000, 0b01100, 0b01100, 0b00000, 0b00000]),
    (';', [0b00000, 0b01100, 0b01100, 0b00000, 0b01100, 0b00100, 0b01000, 0b00000]),
    ('<', [0b00010, 0b00100, 0b01000, 0b10000, 0b01000, 0b00100, 0b00010, 0b00000]),
    ('=', [0b00000, 0b00000, 0b11111, 0b00000, 0b11111, 0b00000, 0b00000, 0b00000]),
    ('>', [0b01000, 0b00100, 0b00010, 0b00001, 0b00010, 0b00100, 0b01000, 0b00000]),
    ('?', [0b01110, 0b10001, 0b00001, 0b00010, 0b00100, 0b00000, 0b00100, 0b00000]),
    ('@', [0b01110, 0b10001, 0b00001, 0b01101, 0b10101, 0b10101, 0b01110, 0b00000]),
    ('A', [0b01110, 0b10001, 0b10001, 0b10001, 0b11111, 0b10001, 0b10001, 0b00000]),
    ('B', [0b11110, 0b10001, 0b10001, 0b11110, 0b10001, 0b10001, 0b11110, 0b00000]),
    ('C', [0b01110, 0b10001, 0b10000, 0b10000, 0b10000, 0b10001, 0b01110, 0b00000]),
    ('D', [0b11100, 0b10010, 0b10001, 0b10001, 0b10001, 0b10010, 0b11100, 0b00000]),
    ('E', [0b11111, 0b10000, 0b10000, 0b11110, 0b10000, 0b10000, 0b11111, 0b00000]),
    ('F', [0b11111, 0b10000, 0b10000, 0b11110, 0b10000, 0b10000, 0b10000, 0b00000]),
    ('G', [0b01110, 0b10001, 0b10000, 0b10111, 0b10001, 0b10001, 0b01111, 0b00000]),
    ('H', [0b10001, 0b10001, 0b10001, 0b11111, 0b10001, 0b10001, 0b10001, 0b00000]),
    ('I', [0b01110, 0b00100, 0b00100, 0b00100, 0b00100, 0b00100, 0b01110, 0b00000]),
    ('J', [0b00111, 0b00010, 0b00010, 0b00010, 0b00010, 0b10010, 0b01100, 0b00000]),
    ('K', [0b10001, 0b10010, 0b10100, 0b11000, 0b10100, 0b10010, 0b10001, 0b00000]),
    ('L', [0b10000, 0b10000, 0b10000, 0b10000, 0b10000, 0b10000, 0b11111, 0b00000]),
    ('M', [0b10001, 0b11011, 0b10101, 0b10101, 0b10001, 0b10001, 0b10001, 0b00000]),
    ('N', [0b10001, 0b10001, 0b11001, 0b10101, 0b10011, 0b10001, 0b10001, 0b00000]),
    ('O', [0b01110, 0b10001, 0b10001, 0b10001, 0b10001, 0b10001, 0b01110, 0b00000]),
    ('P', [0b11110, 0b10001, 0b10001, 0b11110, 0b10000, 0b10000, 0b10000, 0b00000]),
    ('Q', [0b01110, 0b10001, 0b10001, 0b10001, 0b10101, 0b10010, 0b01101, 0b00000]),
    ('R', [0b11110, 0b10001, 0b10001, 0b11110, 0b10100, 0b10010, 0b10001, 0b00000]),
    ('S', [0b01111, 0b10000, 0b10000, 0b01110, 0b00001, 0b00001, 0b11110, 0b00000]),
    ('T', [0b11111, 0b00100, 0b00100, 0b00100, 0b00100, 0b00100, 0b00100, 0b00000]),
    ('U', [0b10001, 0b10001, 0b10001, 0b10001, 0b10001, 0b10001, 0b01110, 0b00000]),
    ('V', [0b10001, 0b10001, 0b10001, 0b10001, 0b10001, 0b01010, 0b00100, 0b00000]),
    ('W', [0b10001, 0b10001, 0b10001, 0b10101, 0b10101, 0b10101, 0b01010, 0b00000]),
    ('X', [0b10001, 0b10001, 0b01010, 0b00100, 0b01010, 0b10001, 0b10001, 0b00000]),
    ('Y', [0b10001, 0b10001, 0b10001, 0b01010, 0b00100, 0b00100, 0b00100, 0b00000]),
    ('Z', [0b11111, 0b00001, 0b00010, 0b00100, 0b01000, 0b10000, 0b11111, 0b00000]),
    ('[', [0b01110, 0b01000, 0b01000, 0b01000, 0b01000, 0b01000, 0b01110, 0b00000]),
    ('\u{a5}', [0b10001, 0b01010, 0b11111, 0b00100, 0b11111, 0b00100, 0b00100, 0b00000]),
    (']', [0b01110, 0b00010, 0b00010, 0b00010, 0b00010, 0b00010, 0b01110, 0b00000]),
    ('^', [0b00100, 0b01010, 0b10001, 0b00000, 0b00000, 0b00000, 0b00000, 0b00000]),
    ('_', [0b00000, 0b00000, 0b00000, 0b00000, 0b00000, 0b00000, 0b11111, 0b00000]),
    ('`', [0b01000, 0b00100, 0b00010, 0b00000, 0b00000, 0b00000, 0b00000, 0b00000]),
    ('a', [0b00000, 0b00000, 0b01110, 0b00001, 0b01111, 0b10001, 0b01111, 0b00000]),
    ('b', [0b10000, 0b10000, 0b10110, 0b11001, 0b10001, 0b10001, 0b11110, 0b00000]),
    ('c', [0b00000, 0b00000, 0b01110, 0b10000, 0b10000, 0b10001, 0b01110, 0b00000]),
    ('d', [0b00001, 0b00001, 0b01101, 0b10011, 0b10001, 0b10001, 0b01111, 0b00000]),
    ('e', [0b00000, 0b00000, 0b01110, 0b10001, 0b11111, 0b10000, 0b01110, 0b00000]),
    ('f', [0b00110, 0b01001, 0b01000, 0b11100, 0b01000, 0b01000, 0b01000, 0b00000]),
    ('g', [0b00000, 0b01111, 0b10001, 0b10001, 0b01111, 0b00001, 0b01110, 0b00000]),
    ('h', [0b10000, 0b10000, 0b10110, 0b11001, 0b10001, 0b10001, 0b10001, 0b00000]),
    ('i', [0b00100, 0b00000, 0b01100, 0b00100, 0b00100, 0b00100, 0b01110, 0b00000]),
    ('j', [0b00010, 0b00000, 0b00110, 0b00010, 0b00010, 0b10010, 0b01100, 0b00000]),
    ('k', [0b10000, 0b10000, 0b10010, 0b10100, 0b11000, 0b10100, 0b10010, 0b00000]),
    ('l', [0b01100, 0b00100, 0b00100, 0b00100, 0b00100, 0b00100, 0b01110, 0b00000]),
    ('m', [0b00000, 0b00000, 0b11010, 0b10101, 0b10101, 0b10001, 0b10001, 0b00000]),
    ('n', [0b00000, 0b00000, 0b10110, 0b11001, 0b10001, 0b10001, 0b10001, 0b00000]),
    ('o', [0b00000, 0b00000, 0b01110, 0b10001, 0b10001, 0b10001, 0b01110, 0b00000]),
    ('p', [0b00000, 0b00000, 0b11110, 0b10001, 0b11110, 0b10000, 0b10000, 0b00000]),
    ('q', [0b00000, 0b00000, 0b01101, 0b10011, 0b01111, 0b00001, 0b00001, 0b00000]),
    ('r', [0b00000, 0b00000, 0b10110, 0b11001, 0b10000, 0b10000, 0b10000, 0b00000]),
    ('s', [0b00000, 0b00000, 0b01110, 0b10000, 0b01110, 0b00001, 0b11110, 0b00000]),
    ('t', [0b01000, 0b01000, 0b11100, 0b01000, 0b01000, 0b01001, 0b00110, 0b00000]),
    ('u', [0b00000, 0b00000, 0b10001, 0b10001, 0b10001, 0b10011, 0b01101, 0b00000]),
    ('v', [0b00000, 0b00000, 0b10001, 0b10001, 0b10001, 0b01010, 0b00100, 0b00000]),
    ('w', [0b00000, 0b00000, 0b10001, 0b10001, 0b10101, 0b10101, 0b01010, 0b00000]),
    ('x', [0b00000, 0b00000, 0b10001, 0b01010, 0b00100, 0b01010, 0b10001, 0b00000]),
    ('y', [0b00000, 0b00000, 0b10001, 0b10001, 0b01111, 0b00001, 0b01110, 0b00000]),
    ('z', [0b00000, 0b00000, 0b11111, 0b00010, 0b00100, 0b01000, 0b11111, 0b00000]),
    ('{', [0b00010, 0b00100, 0b00100, 0b01000, 0b00100, 0b00100, 0b00010, 0b00000]),
    ('|', [0b00100, 0b00100, 0b00100, 0b00100, 0b00100, 0b00100, 0b00100, 0b00000]),
    ('}', [0b01000, 0b00100, 0b00100, 0b00010, 0b00100, 0b00100, 0b01000, 0b00000]),
    ('\u{2192}', [0b00000, 0b00100, 0b00010, 0b11111, 0b00010, 0b00100, 0b00000, 0b00000]),
    ('\u{2190}', [0b00000, 0b00100, 0b01000, 0b11111, 0b01000, 0b00100, 0b00000, 0b00000]),
];

/// The characters of [`FONT`], in table order.
pub open spec fn font_chars() -> Seq<char> {
    Seq::new(96, |i: int| FONT[i].0)
}

/// The shape of a character: its rows in [`FONT`], or the blank glyph for a
/// character the table does not hold.
pub open spec fn glyph_rows(ch: char) -> Seq<u8> {
    match font_chars().index_of_first(ch) {
        Some(i) => mask_rows(FONT[i].1@),
        None => blank_rows(),
    }
}

proof fn lemma_differing_bit(a: u8, b: u8, column: u8)
    by (bit_vector)
    requires
        column < 8,
    ensures
        ((a ^ b) >> column) & 1u8 == (if ((a >> column) & 1u8 == 1u8) != ((b >> column) & 1u8
            == 1u8) {
            1u8
        } else {
            0u8
        }),
{
}

proof fn lemma_masked_row(raw: u8)
    by (bit_vector)
    ensures
        raw & 0b11111u8 < 32,
        raw < 32 ==> raw & 0b11111u8 == raw,
{
}

/// Masking leaves a glyph as it is.
pub proof fn lemma_mask_rows_of_glyph(rows: Seq<u8>)
    requires
        is_glyph(rows),
    ensures
        mask_rows(rows) == rows,
{
    assert forall|i: int| 0 <= i < 8 implies #[trigger] mask_rows(rows)[i] == rows[i] by {
        lemma_masked_row(rows[i]);
    }
    assert(mask_rows(rows) =~= rows);
}

/// Masked rows always form a glyph.
pub proof fn lemma_mask_rows_is_glyph(rows: Seq<u8>)
    ensures
        is_glyph(mask_rows(rows)),
{
    assert forall|i: int| 0 <= i < 8 implies #[trigger] mask_rows(rows)[i] < 32 by {
        lemma_masked_row(rows[i]);
    }
}

/// Whether two glyphs given as bytes agree in every row.
pub fn same_rows(a: &[u8; 8], b: &[u8; 8]) -> (same: bool)
    ensures
        same == (a@ == b@),
{
    let mut i: usize = 0;
    while i < 8
        invariant
            i <= 8,
            forall|j: int| 0 <= j < i ==> a[j] == b[j],
        decreases 8 - i,
    {
        if a[i] != b[i] {
            return false;
        }
        i += 1;
    }
    assert(a@ =~= b@);
    true
}

/// One row of a glyph. Only the five least significant bits are used.
#[derive(Clone, Copy, Debug, PartialEq, Eq)]
pub struct Bitline(u8);

impl Bitline {
    #[verifier::type_invariant]
    spec fn confined(self) -> bool {
        self.0 < 32
    }

    /// The pixels of the row, bit 4 being the leftmost.
    pub closed spec fn view(&self) -> u8 {
        self.0
    }

    /// Keeps the five least significant bits of `raw`.
    pub fn new(raw: u8) -> (line: Self)
        ensures
            line@ == raw & 0b11111u8,
            line@ < 32,
    {
        proof {
            lemma_masked_row(raw);
        }
        Bitline(raw & 0b11111)
    }

    /// Counts the pixels in which the two rows differ.
    pub fn distance(self, other: Self) -> (d: u32)
        ensures
            d == line_distance(self@, other@),
            d <= 5,
    {
        let mut d: u32 = 0;
        let mut column: u8 = 0;
        while column < 5
            invariant
                column <= 5,
                d <= column,
                d == line_distance_upto(self@, other@, column),
            decreases 5 - column,
        {
            proof {
                lemma_differing_bit(self.0, other.0, column);
            }
            if ((self.0 ^ other.0) >> column) & 1 == 1 {
                d += 1;
            }
            column += 1;
        }
        d
    }
}

impl Default for Bitline {
    fn default() -> (line: Self)
        ensures
            line@ == 0,
    {
        Bitline(0)
    }
}

/// A five by eight black-and-white image.
#[derive(Clone, Copy, Debug, PartialEq, Eq)]
pub struct Bitmap([Bitline; 8]);

impl View for Bitmap {
    type V = Seq<u8>;

    /// The rows from top to bottom.
    closed spec fn view(&self) -> Seq<u8> {
        Seq::new(8, |i: int| self.0[i].0)
    }
}

impl Bitmap {
    /// Builds a glyph from eight rows, keeping the five least significant
    /// bits of each.
    pub fn new(bitmap: [u8; 8]) -> (glyph: Self)
        ensures
            glyph@ == mask_rows(bitmap@),
            is_glyph(glyph@),
    {
        let mut lines: [Bitline; 8] = [Bitline(0); 8];
        for i in 0..8usize
            invariant
                forall|j: int| 0 <= j < i ==> (#[trigger] lines[j]).0 == bitmap[j] & 0b11111u8,
        {
            lines[i] = Bitline::new(bitmap[i]);
        }
        let glyph = Bitmap(lines);
        proof {
            assert(glyph@ =~= mask_rows(bitmap@));
            lemma_mask_rows_is_glyph(bitmap@);
        }
        glyph
    }

    /// The shape of `ch`, or the blank glyph where the character has none.
    pub fn render(ch: char) -> (glyph: Self)
        ensures
            glyph@ == glyph_rows(ch),
            is_glyph(glyph@),
    {
        let mut i: usize = 0;
        while i < 96
            invariant
                i <= 96,
                forall|j: int| 0 <= j < i ==> #[trigger] font_chars()[j] != ch,
            decreases 96 - i,
        {
            if FONT[i].0 == ch {
                proof {
                    font_chars().index_of_first_ensures(ch);
                    assert(font_chars()[i as int] == ch);
                }
                return Bitmap::new(FONT[i].1);
            }
            i += 1;
        }
        let blank: [u8; 8] = [0u8; 8];
        proof {
            font_chars().index_of_first_ensures(ch);
            lemma_masked_row(0u8);
            assert(mask_rows(blank@) =~= blank_rows());
        }
        Bitmap::new(blank)
    }

    /// The rows as bytes, from top to bottom.
    pub fn raw(self) -> (rows: [u8; 8])
        ensures
            rows@ == self@,
            is_glyph(rows@),
    {
        let mut rows: [u8; 8] = [0u8; 8];
        for i in 0..8usize
            invariant
                forall|j: int| 0 <= j < i ==> #[trigger] rows[j] == self.0[j].0 && rows[j] < 32,
        {
            let line = self.0[i];
            proof {
                use_type_invariant(&line);
            }
            rows[i] = line.0;
        }
        proof {
            assert(rows@ =~= self@);
        }
        rows
    }

    /// Counts the pixels in which the two glyphs differ.
    pub fn distance(self, other: Self) -> (d: u32)
        ensures
            d == glyph_distance(self@, other@),
            d <= 40,
    {
        let mut d: u32 = 0;
        for i in 0..8usize
            invariant
                d == distance_upto(self@, other@, i as int),
                d <= 5 * i,
        {
            d += self.0[i].distance(other.0[i]);
        }
        d
    }
}

impl Default for Bitmap {
    fn default() -> (glyph: Self)
        ensures
            glyph@ == blank_rows(),
    {
        let glyph = Bitmap([Bitline(0); 8]);
        proof {
            assert(glyph@ =~= blank_rows());
        }
        glyph
    }
}

} // verus!
