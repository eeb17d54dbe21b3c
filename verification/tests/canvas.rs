use st7066u::canvas::{Canvas, Gap};
use st7066u::diff::{DiffUpdater, Operation};
use st7066u::cmd::Command;

const BLANK_GLYPH: u8 = 0x83;

#[test]
fn fresh_canvas_renders_blank() {
    let canvas = Canvas::default();
    let (ddram, cgram) = canvas.render();
    assert_eq!(ddram, [BLANK_GLYPH; 16]);
    assert!(cgram.is_empty());
    assert_eq!(Gap::default(), Gap::Skip);
}

#[test]
fn write_without_gap_places_the_characters() {
    let mut canvas = Canvas::default();
    canvas.write("Hello World!", Some(Gap::Hide));
    let (ddram, cgram) = canvas.render();
    assert_eq!(
        ddram,
        [
            0x48, 0x65, 0x6c, 0x6c, 0x6f, 0x83, 0x57, 0x6f, 0x72, 0x6c, 0x64, 0x21, 0x83, 0x83,
            0x83, 0x83
        ]
    );
    assert!(cgram.is_empty());
}

#[test]
fn write_wraps_around() {
    let mut canvas = Canvas::default();
    canvas.write("0123456789abcdefXY", Some(Gap::Hide));
    let (ddram, cgram) = canvas.render();
    assert_eq!(
        ddram,
        [
            0x58, 0x59, 0x32, 0x33, 0x34, 0x35, 0x36, 0x37, 0x38, 0x39, 0x61, 0x62, 0x63, 0x64,
            0x65, 0x66
        ]
    );
    assert!(cgram.is_empty());
}

#[test]
fn write_of_nothing_changes_nothing() {
    let mut canvas = Canvas::default();
    canvas.write("AB", Some(Gap::Hide));
    canvas.write("", None);
    canvas.write("", Some(Gap::Skip));
    let (ddram, _) = canvas.render();
    assert_eq!(ddram[0], 0x41);
    assert_eq!(ddram[1], 0x42);
}

#[test]
fn write_puts_blank_for_an_unknown_character() {
    let mut canvas = Canvas::default();
    canvas.write("A\u{e9}B", Some(Gap::Hide));
    let (ddram, _) = canvas.render();
    assert_eq!(&ddram[..3], &[0x41, 0x83, 0x42]);
}

#[test]
fn shift_left_skip_of_ab() {
    let mut canvas = Canvas::default();
    canvas.write("AB", Some(Gap::Hide));
    canvas.shift_left(None);
    let (ddram, cgram) = canvas.render();
    // cell 0: 'A' one pixel to the left, with the leftmost column of 'B'
    // coming in on the right
    let first = [0b11101, 0b00011, 0b00011, 0b00011, 0b11111, 0b00011, 0b00011, 0b00000];
    // cell 1: 'B' one pixel to the left, nothing coming in
    let second = [0b11100, 0b00010, 0b00010, 0b11100, 0b00010, 0b00010, 0b11100, 0b00000];
    // cell 15: the leftmost column of 'A' on the right
    let last = [0b00000, 0b00001, 0b00001, 0b00001, 0b00001, 0b00001, 0b00001, 0b00000];
    assert_eq!(
        ddram,
        [0, 1, 0x83, 0x83, 0x83, 0x83, 0x83, 0x83, 0x83, 0x83, 0x83, 0x83, 0x83, 0x83, 0x83, 2]
    );
    assert_eq!(cgram.len(), 3);
    assert_eq!(cgram[0], first);
    assert_eq!(cgram[1], second);
    assert_eq!(cgram[2], last);
}

#[test]
fn shift_left_hide_keeps_the_sixth_pixel() {
    let mut canvas = Canvas::default();
    canvas.write("AB", Some(Gap::Hide));
    canvas.shift_left(Some(Gap::Hide));
    let (ddram, cgram) = canvas.render();
    // the leftmost column of each glyph is hidden in its own cell
    let first = [0b11100, 0b00010, 0b00010, 0b00010, 0b11110, 0b00010, 0b00010, 0b00000];
    let second = [0b11100, 0b00010, 0b00010, 0b11100, 0b00010, 0b00010, 0b11100, 0b00000];
    assert_eq!(ddram[0], 0);
    assert_eq!(ddram[1], 1);
    assert_eq!(&ddram[2..], &[0x83; 14]);
    assert_eq!(cgram.len(), 2);
    assert_eq!(cgram[0], first);
    assert_eq!(cgram[1], second);
    // with the next shift the hidden column enters the cell before: cell 0
    // gets that of 'B', the last cell that of 'A'
    canvas.shift_left(Some(Gap::Hide));
    let (ddram, cgram) = canvas.render();
    let first = [0b11001, 0b00101, 0b00101, 0b00101, 0b11101, 0b00101, 0b00101, 0b00000];
    let second = [0b11000, 0b00100, 0b00100, 0b11000, 0b00100, 0b00100, 0b11000, 0b00000];
    let last = [0b00000, 0b00001, 0b00001, 0b00001, 0b00001, 0b00001, 0b00001, 0b00000];
    assert_eq!(ddram[0], 0);
    assert_eq!(ddram[1], 1);
    assert_eq!(ddram[15], 2);
    assert_eq!(cgram[0], first);
    assert_eq!(cgram[1], second);
    assert_eq!(cgram[2], last);
}

#[test]
fn shift_left_goes_round() {
    let mut skip = Canvas::default();
    skip.write("Hello World!", Some(Gap::Hide));
    let before = skip.render();
    for _ in 0..80 {
        skip.shift_left(Some(Gap::Skip));
    }
    assert_eq!(skip.render(), before);

    let mut hide = Canvas::default();
    hide.write("Hello World!", Some(Gap::Hide));
    for _ in 0..96 {
        hide.shift_left(Some(Gap::Hide));
    }
    assert_eq!(hide.render(), before);
}

#[test]
fn the_gap_of_the_canvas_is_skip() {
    let mut own = Canvas::default();
    own.write("AB", Some(Gap::Hide));
    own.shift_left(None);
    let mut given = Canvas::default();
    given.write("AB", Some(Gap::Hide));
    given.shift_left(Some(Gap::Skip));
    assert_eq!(own.render(), given.render());
}

#[test]
fn write_with_skip_shifts_before_each_character() {
    let mut canvas = Canvas::default();
    canvas.write("AB", None);
    let mut by_hand = Canvas::default();
    by_hand.shift_left(Some(Gap::Skip));
    by_hand.write("A", Some(Gap::Hide));
    by_hand.shift_left(Some(Gap::Skip));
    // the second character goes to the second cell
    let (ddram, cgram) = canvas.render();
    assert_eq!(ddram[1], 0x42);
    assert_eq!(ddram[0], 0);
    assert_eq!(ddram[15], 1);
    assert_eq!(
        cgram[0],
        [0b11100, 0b00010, 0b00010, 0b00010, 0b11110, 0b00010, 0b00010, 0b00000]
    );
    let (expected, _) = by_hand.render();
    assert_eq!(ddram[0], expected[0]);
    assert_eq!(ddram[15], expected[15]);
}

#[test]
fn more_than_eight_custom_glyphs_fall_back_to_the_space() {
    let mut canvas = Canvas::default();
    canvas.write("ABCDEFGHIJKLMNOP", Some(Gap::Hide));
    canvas.shift_left(Some(Gap::Skip));
    let (ddram, cgram) = canvas.render();
    assert_eq!(cgram.len(), 8);
    assert_eq!(&ddram[..8], &[0, 1, 2, 3, 4, 5, 6, 7]);
    assert_eq!(&ddram[8..], &[0x20; 8]);
}

#[test]
fn hello_world_starts_both_rows_at_their_address() {
    let mut canvas = Canvas::default();
    canvas.write("Hello World!", None);
    let (ddram, cgram) = canvas.render();
    let mut held = ddram;
    for cell in held.iter_mut() {
        *cell ^= 0xff;
    }
    let mut held_cgram = [0u8; 64];
    for (i, glyph) in cgram.iter().enumerate() {
        held_cgram[8 * i..8 * i + 8].copy_from_slice(glyph);
    }
    let mut updater = DiffUpdater::new(held, held_cgram);
    let operations = updater.update(&ddram, &cgram);
    assert_eq!(operations.len(), 18);
    assert_eq!(operations[0], Operation::Exec(Command::DdRamAddress(0x00)));
    assert_eq!(operations[1], Operation::Write(ddram[0]));
    assert_eq!(operations[8], Operation::Write(ddram[7]));
    assert_eq!(operations[9], Operation::Exec(Command::DdRamAddress(0x40)));
    assert_eq!(operations[10], Operation::Write(ddram[8]));
    assert_eq!(operations[17], Operation::Write(ddram[15]));
}
