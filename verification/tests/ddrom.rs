use st7066u::bitmap::{Bitmap, FONT};
use st7066u::ddrom::{all, search, ROM};

#[test]
fn search_finds_the_glyphs_of_the_table() {
    assert_eq!(search(Bitmap::render('A')), Some(0x41));
    assert_eq!(search(Bitmap::render('B')), Some(0x42));
    assert_eq!(search(Bitmap::render('H')), Some(0x48));
    assert_eq!(search(Bitmap::render('!')), Some(0x21));
    assert_eq!(search(Bitmap::render('z')), Some(0x7a));
    assert_eq!(search(Bitmap::render('\u{a5}')), Some(0x5c));
    assert_eq!(search(Bitmap::render('\u{2192}')), Some(0x7e));
    assert_eq!(search(Bitmap::render('\u{2190}')), Some(0x7f));
    assert_eq!(search(Bitmap::new([0x1f; 8])), Some(0xff));
}

#[test]
fn search_finds_the_blank_glyph() {
    assert_eq!(search(Bitmap::default()), Some(0x83));
    assert_eq!(search(Bitmap::render(' ')), Some(0x83));
}

#[test]
fn search_wants_every_bit_to_match() {
    // 'A' with one more pixel
    let almost = [0b01110, 0b10001, 0b10001, 0b10001, 0b11111, 0b10001, 0b10001, 0b00001];
    assert_eq!(search(Bitmap::new(almost)), None);
    // 'A' one pixel to the left
    let shifted = [0b11100, 0b00010, 0b00010, 0b00010, 0b11110, 0b00010, 0b00010, 0b00000];
    assert_eq!(search(Bitmap::new(shifted)), None);
    assert_eq!(search(Bitmap::new([1, 2, 3, 4, 5, 6, 7, 8])), None);
}

#[test]
fn search_finds_every_entry_at_its_address() {
    assert_eq!(ROM.len(), 189);
    for (rows, address) in ROM {
        assert_eq!(search(Bitmap::new(rows)), Some(address));
    }
}

#[test]
fn every_character_of_the_font_is_in_the_rom() {
    for (ch, rows) in FONT {
        assert!(search(Bitmap::render(ch)).is_some(), "{ch:?} {rows:?}");
    }
}

#[test]
fn no_address_of_the_rom_is_a_slot_or_the_space() {
    for (_, address) in ROM {
        assert!(address > 0x20);
    }
}

#[test]
fn all_lists_the_table() {
    let entries = all();
    assert_eq!(entries.len(), 189);
    assert_eq!(entries[0], (Bitmap::default(), 0x83));
    assert_eq!(entries[188], (Bitmap::new([0x1f; 8]), 0xff));
    for (i, (glyph, address)) in entries.iter().enumerate() {
        assert_eq!(glyph.raw(), ROM[i].0);
        assert_eq!(*address, ROM[i].1);
    }
}
