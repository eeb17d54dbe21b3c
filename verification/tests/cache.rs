use st7066u::bitmap::Bitmap;
use st7066u::cache::{GlyphCache, BLANK};

fn custom(n: u8) -> Bitmap {
    // no glyph of the read-only memory has its lowest row lit like this
    Bitmap::new([n, 0, 0, 0, 0, 0, 0, 0b10101])
}

#[test]
fn new_cache_is_empty() {
    let cache = GlyphCache::new();
    assert_eq!(cache.len(), 0);
    assert!(cache.into_cgram().is_empty());
}

#[test]
fn rom_glyph_resolves_to_its_address_and_takes_no_slot() {
    let mut cache = GlyphCache::new();
    assert_eq!(cache.resolve(Bitmap::render('A')), 0x41);
    assert_eq!(cache.resolve(Bitmap::render(' ')), 0x83);
    assert_eq!(cache.len(), 0);
    for n in 0..8 {
        cache.resolve(custom(n));
    }
    assert_eq!(cache.len(), 8);
    assert_eq!(cache.resolve(Bitmap::render('A')), 0x41);
    assert_eq!(cache.resolve(Bitmap::render('z')), 0x7a);
    assert_eq!(cache.len(), 8);
}

#[test]
fn custom_glyphs_get_the_slots_in_order() {
    let mut cache = GlyphCache::new();
    assert_eq!(cache.resolve(custom(7)), 0);
    assert_eq!(cache.resolve(custom(3)), 1);
    assert_eq!(cache.resolve(custom(5)), 2);
    assert_eq!(cache.len(), 3);
    let cgram = cache.into_cgram();
    assert_eq!(cgram.len(), 3);
    assert_eq!(cgram[0], custom(7).raw());
    assert_eq!(cgram[1], custom(3).raw());
    assert_eq!(cgram[2], custom(5).raw());
}

#[test]
fn repeated_glyph_gets_the_same_slot() {
    let mut cache = GlyphCache::new();
    assert_eq!(cache.resolve(custom(1)), 0);
    assert_eq!(cache.resolve(custom(2)), 1);
    assert_eq!(cache.resolve(custom(1)), 0);
    assert_eq!(cache.resolve(Bitmap::render('x')), 0x78);
    assert_eq!(cache.resolve(custom(2)), 1);
    assert_eq!(cache.len(), 2);
}

#[test]
fn distinct_glyphs_get_distinct_slots() {
    let mut cache = GlyphCache::new();
    let mut seen = Vec::new();
    for n in 0..8 {
        let address = cache.resolve(custom(n));
        assert!(!seen.contains(&address));
        seen.push(address);
    }
    assert_eq!(seen, vec![0, 1, 2, 3, 4, 5, 6, 7]);
}

#[test]
fn glyphs_beyond_the_eighth_are_blank() {
    let mut cache = GlyphCache::new();
    for n in 0..8 {
        assert_eq!(cache.resolve(custom(n)), n);
    }
    assert_eq!(cache.resolve(custom(8)), BLANK);
    assert_eq!(cache.resolve(custom(9)), BLANK);
    assert_eq!(cache.resolve(custom(8)), BLANK);
    assert_eq!(BLANK, 0x20);
    // those that found room are still found
    assert_eq!(cache.resolve(custom(4)), 4);
    assert_eq!(cache.len(), 8);
    let cgram = cache.into_cgram();
    assert_eq!(cgram.len(), 8);
    for n in 0..8u8 {
        assert_eq!(cgram[n as usize], custom(n).raw());
    }
}

#[test]
fn cache_holds_masked_rows() {
    let mut cache = GlyphCache::new();
    assert_eq!(cache.resolve(Bitmap::new([0xe1, 0, 0, 0, 0, 0, 0, 0xff])), 0);
    assert_eq!(cache.resolve(Bitmap::new([0x01, 0, 0, 0, 0, 0, 0, 0x1f])), 0);
    assert_eq!(cache.into_cgram()[0], [0x01, 0, 0, 0, 0, 0, 0, 0x1f]);
}
