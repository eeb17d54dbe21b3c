use st7066u::cache::{CgRam, GlyphCache};
use st7066u::bitmap::Bitmap;
use st7066u::cmd::Command;
use st7066u::diff::{ddram_address, DiffUpdater, Operation};

fn cgram_of(glyphs: &[[u8; 8]]) -> CgRam {
    let mut cgram = CgRam::new();
    for glyph in glyphs {
        assert!(cgram.push(*glyph).is_ok());
    }
    cgram
}

fn set_cgram(address: u8) -> Operation {
    Operation::Exec(Command::CgRamAddress(address))
}

fn set_ddram(address: u8) -> Operation {
    Operation::Exec(Command::DdRamAddress(address))
}

#[test]
fn address_of_every_cell() {
    let expected = [
        0x00, 0x01, 0x02, 0x03, 0x04, 0x05, 0x06, 0x07, 0x40, 0x41, 0x42, 0x43, 0x44, 0x45, 0x46,
        0x47,
    ];
    for cell in 0..16 {
        assert_eq!(ddram_address(cell), expected[cell]);
        let by_rule = if cell < 8 { cell } else { cell - 8 + 0x40 };
        assert_eq!(ddram_address(cell) as usize, by_rule);
    }
}

#[test]
fn identical_images_need_nothing() {
    let ddram = [0x41; 16];
    let glyphs = [[1, 2, 3, 4, 5, 6, 7, 8], [9, 10, 11, 12, 13, 14, 15, 16]];
    let mut held = [0u8; 64];
    held[..8].copy_from_slice(&glyphs[0]);
    held[8..16].copy_from_slice(&glyphs[1]);
    held[16] = 0xaa;
    let mut updater = DiffUpdater::new(ddram, held);
    assert_eq!(updater.update(&ddram, &cgram_of(&glyphs)), vec![]);
    assert_eq!(updater.update(&ddram, &cgram_of(&glyphs)), vec![]);
}

#[test]
fn update_is_remembered() {
    let mut updater = DiffUpdater::new([0; 16], [0; 64]);
    let ddram = [7; 16];
    let cgram = cgram_of(&[[1; 8]]);
    assert_eq!(updater.update(&ddram, &cgram).len(), 9 + 18);
    assert_eq!(updater.update(&ddram, &cgram), vec![]);
    // the slots behind the new image are remembered as they were
    let longer = cgram_of(&[[1; 8], [0; 8]]);
    assert_eq!(updater.update(&ddram, &longer), vec![]);
}

#[test]
fn single_cell_costs_an_address_and_a_write() {
    for cell in 0..16usize {
        let mut updater = DiffUpdater::new([0x20; 16], [0; 64]);
        let mut ddram = [0x20; 16];
        ddram[cell] = 0x41;
        let expected = vec![set_ddram(ddram_address(cell)), Operation::Write(0x41)];
        assert_eq!(updater.update(&ddram, &CgRam::new()), expected);
    }
}

#[test]
fn single_glyph_byte_costs_an_address_and_a_write() {
    let glyphs = [[0u8; 8], [0u8; 8], [0u8; 8]];
    for at in 0..24usize {
        let mut changed = glyphs;
        changed[at / 8][at % 8] = 0x15;
        let mut updater = DiffUpdater::new([0; 16], [0; 64]);
        let expected = vec![set_cgram(at as u8), Operation::Write(0x15)];
        assert_eq!(updater.update(&[0; 16], &cgram_of(&changed)), expected);
    }
}

#[test]
fn first_write_always_sets_the_address() {
    // three slots, and the first byte that differs is byte 3
    let mut glyphs = [[0u8; 8]; 3];
    glyphs[0][3] = 1;
    let mut updater = DiffUpdater::new([0; 16], [0; 64]);
    assert_eq!(
        updater.update(&[0; 16], &cgram_of(&glyphs)),
        vec![set_cgram(3), Operation::Write(1)]
    );
    // glyph memory ends at address 15, display memory begins at cell 0
    let mut updater = DiffUpdater::new([0; 16], [0; 64]);
    let mut glyphs = [[0u8; 8]; 2];
    glyphs[1][7] = 9;
    let mut ddram = [0u8; 16];
    ddram[0] = 5;
    assert_eq!(
        updater.update(&ddram, &cgram_of(&glyphs)),
        vec![set_cgram(15), Operation::Write(9), set_ddram(0), Operation::Write(5)]
    );
}

#[test]
fn run_of_bytes_costs_one_address() {
    let mut updater = DiffUpdater::new([0; 16], [0; 64]);
    let mut ddram = [0u8; 16];
    ddram[2] = 1;
    ddram[3] = 2;
    ddram[4] = 3;
    ddram[6] = 4;
    assert_eq!(
        updater.update(&ddram, &CgRam::new()),
        vec![
            set_ddram(2),
            Operation::Write(1),
            Operation::Write(2),
            Operation::Write(3),
            set_ddram(6),
            Operation::Write(4),
        ]
    );
}

#[test]
fn run_does_not_cross_the_rows() {
    let mut updater = DiffUpdater::new([0; 16], [0; 64]);
    let mut ddram = [0u8; 16];
    ddram[6] = 1;
    ddram[7] = 2;
    ddram[8] = 3;
    ddram[9] = 4;
    assert_eq!(
        updater.update(&ddram, &CgRam::new()),
        vec![
            set_ddram(0x06),
            Operation::Write(1),
            Operation::Write(2),
            set_ddram(0x40),
            Operation::Write(3),
            Operation::Write(4),
        ]
    );
}

#[test]
fn run_crosses_the_slots() {
    let mut updater = DiffUpdater::new([0; 16], [0; 64]);
    let mut glyphs = [[0u8; 8]; 2];
    glyphs[0][7] = 1;
    glyphs[1][0] = 2;
    assert_eq!(
        updater.update(&[0; 16], &cgram_of(&glyphs)),
        vec![set_cgram(7), Operation::Write(1), Operation::Write(2)]
    );
}

#[test]
fn glyph_memory_comes_first() {
    let mut updater = DiffUpdater::new([0; 16], [0; 64]);
    let mut cache = GlyphCache::new();
    let glyph = Bitmap::new([1, 0, 0, 0, 0, 0, 0, 0b10101]);
    let address = cache.resolve(glyph);
    assert_eq!(address, 0);
    let mut ddram = [0u8; 16];
    ddram[15] = 0x41;
    assert_eq!(
        updater.update(&ddram, &cache.into_cgram()),
        vec![
            set_cgram(0),
            Operation::Write(1),
            set_cgram(7),
            Operation::Write(0b10101),
            set_ddram(0x47),
            Operation::Write(0x41),
        ]
    );
}

#[test]
fn only_the_slots_of_the_new_image_are_compared() {
    let mut updater = DiffUpdater::new([0; 16], [0xff; 64]);
    assert_eq!(updater.update(&[0; 16], &CgRam::new()), vec![]);
    let operations = updater.update(&[0; 16], &cgram_of(&[[0xff; 8], [0; 8]]));
    assert_eq!(operations.len(), 9);
    assert_eq!(operations[0], set_cgram(8));
    for operation in &operations[1..] {
        assert_eq!(*operation, Operation::Write(0));
    }
}
