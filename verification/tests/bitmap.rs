use st7066u::bitmap::{same_rows, Bitline, Bitmap, FONT};

const A: [u8; 8] = [0b01110, 0b10001, 0b10001, 0b10001, 0b11111, 0b10001, 0b10001, 0b00000];
const B: [u8; 8] = [0b11110, 0b10001, 0b10001, 0b11110, 0b10001, 0b10001, 0b11110, 0b00000];

#[test]
fn bitline_keeps_five_bits() {
    assert_eq!(Bitline::new(0b1110_0101), Bitline::new(0b0000_0101));
    assert_ne!(Bitline::new(0b0001_0101), Bitline::new(0b0000_0101));
    assert_eq!(Bitline::default(), Bitline::new(0));
}

#[test]
fn bitline_distance_counts_differing_pixels() {
    assert_eq!(Bitline::new(0b00000).distance(Bitline::new(0b00000)), 0);
    assert_eq!(Bitline::new(0b11111).distance(Bitline::new(0b00000)), 5);
    assert_eq!(Bitline::new(0b10101).distance(Bitline::new(0b01010)), 5);
    assert_eq!(Bitline::new(0b10001).distance(Bitline::new(0b10011)), 1);
    assert_eq!(Bitline::new(0b01110).distance(Bitline::new(0b11110)), 1);
    // bits above the fifth do not count
    assert_eq!(Bitline::new(0b1110_0000).distance(Bitline::new(0)), 0);
}

#[test]
fn bitmap_new_masks_every_row() {
    let glyph = Bitmap::new([0xff, 0x20, 0x3f, 0x1f, 0x00, 0x80, 0x41, 0x0a]);
    assert_eq!(glyph.raw(), [0x1f, 0x00, 0x1f, 0x1f, 0x00, 0x00, 0x01, 0x0a]);
}

#[test]
fn bitmap_raw_gives_the_rows_back() {
    assert_eq!(Bitmap::new(A).raw(), A);
    assert_eq!(Bitmap::default().raw(), [0u8; 8]);
}

#[test]
fn render_gives_the_shape_of_the_table() {
    assert_eq!(Bitmap::render('A').raw(), A);
    assert_eq!(Bitmap::render('B').raw(), B);
    assert_eq!(
        Bitmap::render('!').raw(),
        [0b00100, 0b00100, 0b00100, 0b00100, 0b00000, 0b00000, 0b00100, 0b00000]
    );
    assert_eq!(
        Bitmap::render('\u{2192}').raw(),
        [0b00000, 0b00100, 0b00010, 0b11111, 0b00010, 0b00100, 0b00000, 0b00000]
    );
    assert_eq!(
        Bitmap::render('\u{a5}').raw(),
        [0b10001, 0b01010, 0b11111, 0b00100, 0b11111, 0b00100, 0b00100, 0b00000]
    );
    assert_eq!(Bitmap::render(' ').raw(), [0u8; 8]);
}

#[test]
fn render_gives_blank_for_an_unknown_character() {
    assert_eq!(Bitmap::render('\u{e9}'), Bitmap::default());
    assert_eq!(Bitmap::render('~').raw(), [0u8; 8]);
    assert_eq!(Bitmap::render('\\').raw(), [0u8; 8]);
    assert_eq!(Bitmap::render('\n').raw(), [0u8; 8]);
}

#[test]
fn render_covers_the_whole_table() {
    assert_eq!(FONT.len(), 96);
    for (ch, rows) in FONT {
        assert_eq!(Bitmap::render(ch).raw(), rows);
        for row in rows {
            assert!(row < 32);
        }
    }
}

#[test]
fn bitmap_distance_counts_differing_pixels() {
    let a = Bitmap::render('A');
    let b = Bitmap::render('B');
    assert_eq!(a.distance(a), 0);
    // rows: 1 + 0 + 0 + 4 + 3 + 0 + 4 + 0
    assert_eq!(a.distance(b), 12);
    assert_eq!(b.distance(a), 12);
    assert_eq!(Bitmap::new([0x1f; 8]).distance(Bitmap::default()), 40);
    assert_eq!(Bitmap::new([0xe0; 8]).distance(Bitmap::default()), 0);
}

#[test]
fn same_rows_compares_every_row() {
    assert!(same_rows(&A, &A));
    assert!(!same_rows(&A, &B));
    let mut last = A;
    last[7] = 1;
    assert!(!same_rows(&A, &last));
}
