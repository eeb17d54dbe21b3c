//! The cache of custom glyphs: the shapes that a render pass writes into the
//! controller's eight slots of glyph memory.

use crate::bitmap::{is_glyph, same_rows, Bitmap};
use crate::ddrom::{rom_address, search};
use vstd::prelude::*;

verus! {

/// What a cell shows when its glyph has no address and no slot is left:
/// 0x20, the code of the space character.
pub const BLANK: u8 = 0x20;

/// `heapless::Vec`, a vector of fixed capacity. What one holds is not seen
/// from here; the contracts speak of it through [`cgram_glyphs`].
#[verifier::external_type_specification]
#[verifier::external_body]
#[verifier::reject_recursive_types(T)]
pub struct ExHeaplessVec<T, const N: usize>(heapless::Vec<T, N>);

/// The glyph memory image: the custom glyphs in slot order, eight at most.
pub type CgRam = heapless::Vec<[u8; 8], 8>;

/// The glyphs that a glyph memory image holds, in slot order, each as its
/// rows from top to bottom. What is known of it is what [`cgram_new`],
/// [`cgram_push`] and [`cgram_slots`] say.
pub uninterp spec fn cgram_glyphs(cgram: heapless::Vec<[u8; 8], 8>) -> Seq<Seq<u8>>;

/// `heapless::Vec::new`: the vector it returns holds nothing.
#[verifier::external_body]
fn cgram_new() -> (cgram: CgRam)
    ensures
        cgram_glyphs(cgram) == Seq::<Seq<u8>>::empty(),
{
    heapless::Vec::new()
}

/// `heapless::Vec::push`: while fewer than eight glyphs are held the glyph is
/// appended behind them; from then on it is handed back and the vector stays
/// as it was. It never panics.
#[verifier::external_body]
fn cgram_push(cgram: &mut CgRam, glyph: [u8; 8]) -> (pushed: Result<(), [u8; 8]>)
    ensures
        pushed is Ok <==> cgram_glyphs(*old(cgram)).len() < 8,
        pushed is Ok ==> cgram_glyphs(*final(cgram)) == cgram_glyphs(*old(cgram)).push(glyph@),
        pushed matches Err(rejected) ==> rejected == glyph && cgram_glyphs(*final(cgram))
            == cgram_glyphs(*old(cgram)),
    no_unwind
{
    cgram.push(glyph)
}

/// `heapless::Vec::as_slice`: the slice holds the glyphs of the vector, in
/// slot order. A vector made for eight glyphs never holds more.
#[verifier::external_body]
pub(crate) fn cgram_slots(cgram: &CgRam) -> (slots: &[[u8; 8]])
    ensures
        slots@.len() == cgram_glyphs(*cgram).len(),
        slots@.len() <= 8,
        forall|i: int| 0 <= i < slots@.len() ==> (#[trigger] slots@[i])@ == cgram_glyphs(*cgram)[i],
{
    cgram.as_slice()
}

/// What a cache may hold: at most eight glyphs, none of them twice and none
/// that the read-only memory has.
pub open spec fn is_cache(cache: Seq<Seq<u8>>) -> bool {
    &&& cache.len() <= 8
    &&& cache.no_duplicates()
    &&& forall|i: int|
        0 <= i < cache.len() ==> is_glyph(#[trigger] cache[i]) && rom_address(cache[i]) is None
}

/// The address that resolving `glyph` against `cache` gives: that of the
/// read-only memory; else the slot that holds the glyph; else the next free
/// slot; else [`BLANK`].
pub open spec fn resolve_address(cache: Seq<Seq<u8>>, glyph: Seq<u8>) -> u8 {
    match rom_address(glyph) {
        Some(address) => address,
        None => match cache.index_of_first(glyph) {
            Some(slot) => slot as u8,
            None => if cache.len() < 8 {
                cache.len() as u8
            } else {
                BLANK
            },
        },
    }
}

/// The cache after resolving `glyph` against it: one glyph longer where the
/// glyph took the next free slot, unchanged otherwise.
pub open spec fn resolve_cache(cache: Seq<Seq<u8>>, glyph: Seq<u8>) -> Seq<Seq<u8>> {
    if rom_address(glyph) is None && !cache.contains(glyph) && cache.len() < 8 {
        cache.push(glyph)
    } else {
        cache
    }
}

/// The cache of a render pass after its first `n` glyphs were resolved in
/// order, starting from an empty cache.
pub open spec fn pass_cache(glyphs: Seq<Seq<u8>>, n: int) -> Seq<Seq<u8>>
    decreases n,
{
    if n <= 0 {
        Seq::empty()
    } else {
        resolve_cache(pass_cache(glyphs, n - 1), glyphs[n - 1])
    }
}

/// The address that the glyph at `index` gets in a render pass.
pub open spec fn pass_address(glyphs: Seq<Seq<u8>>, index: int) -> u8 {
    resolve_address(pass_cache(glyphs, index), glyphs[index])
}

/// The address that a glyph shows under once the pass is over and the cache
/// is `cache`: that of the read-only memory, else its slot, else [`BLANK`].
pub open spec fn settled_address(cache: Seq<Seq<u8>>, glyph: Seq<u8>) -> u8 {
    match rom_address(glyph) {
        Some(address) => address,
        None => match cache.index_of_first(glyph) {
            Some(slot) => slot as u8,
            None => BLANK,
        },
    }
}

/// The custom glyphs of one render pass, each in the slot it was given.
pub struct GlyphCache {
    slots: CgRam,
}

impl View for GlyphCache {
    type V = Seq<Seq<u8>>;

    /// The glyphs held, in slot order.
    closed spec fn view(&self) -> Seq<Seq<u8>> {
        cgram_glyphs(self.slots)
    }
}

impl GlyphCache {
    #[verifier::type_invariant]
    spec fn valid(self) -> bool {
        is_cache(cgram_glyphs(self.slots))
    }

    /// A cache with every slot free.
    pub fn new() -> (cache: Self)
        ensures
            cache@ == Seq::<Seq<u8>>::empty(),
    {
        GlyphCache { slots: cgram_new() }
    }

    /// Number of slots taken.
    pub fn len(&self) -> (n: usize)
        ensures
            n == self@.len(),
            n <= 8,
            is_cache(self@),
    {
        proof {
            use_type_invariant(self);
        }
        cgram_slots(&self.slots).len()
    }

    /// Gives the address under which a cell shows `glyph`, taking a free slot
    /// for a custom glyph that the cache does not hold yet.
    pub fn resolve(&mut self, glyph: Bitmap) -> (address: u8)
        ensures
            address == resolve_address(old(self)@, glyph@),
            final(self)@ == resolve_cache(old(self)@, glyph@),
            is_cache(final(self)@),
    {
        proof {
            use_type_invariant(&*self);
            self@.index_of_first_ensures(glyph@);
        }
        match search(glyph) {
            Some(address) => {
                return address;
            },
            None => {},
        }
        let raw = glyph.raw();
        let slots = cgram_slots(&self.slots);
        let mut slot: usize = 0;
        while slot < slots.len()
            invariant
                *self == *old(self),
                is_cache(self@),
                rom_address(glyph@) is None,
                slot <= slots@.len() == self@.len(),
                raw@ == glyph@,
                forall|i: int| 0 <= i < slots@.len() ==> (#[trigger] slots@[i])@ == self@[i],
                forall|i: int| 0 <= i < slot ==> #[trigger] self@[i] != glyph@,
            decreases slots@.len() - slot,
        {
            if same_rows(&slots[slot], &raw) {
                proof {
                    self@.index_of_first_ensures(glyph@);
                    assert(self@[slot as int] == glyph@);
                }
                return slot as u8;
            }
            slot += 1;
        }
        match cgram_push(&mut self.slots, raw) {
            Ok(()) => {
                proof {
                    lemma_push_keeps_cache(old(self)@, glyph@);
                }
                slot as u8
            },
            Err(_) => BLANK,
        }
    }

    /// The glyph memory image: the glyphs held, in slot order.
    pub fn into_cgram(self) -> (cgram: CgRam)
        ensures
            cgram_glyphs(cgram) == self@,
            is_cache(self@),
    {
        proof {
            use_type_invariant(&self);
        }
        self.slots
    }
}

/// A custom glyph that the cache does not hold may take its next free slot.
proof fn lemma_push_keeps_cache(cache: Seq<Seq<u8>>, glyph: Seq<u8>)
    requires
        is_cache(cache),
        is_glyph(glyph),
        rom_address(glyph) is None,
        !cache.contains(glyph),
        cache.len() < 8,
    ensures
        is_cache(cache.push(glyph)),
{
    let longer = cache.push(glyph);
    assert forall|i: int, j: int| 0 <= i < longer.len() && 0 <= j < longer.len() && i != j implies longer[i] != longer[j] by {
        if i < cache.len() {
            assert(cache.contains(cache[i]));
        }
        if j < cache.len() {
            assert(cache.contains(cache[j]));
        }
    }
}


proof fn lemma_first_index(s: Seq<Seq<u8>>, glyph: Seq<u8>, index: int)
    requires
        0 <= index < s.len(),
        s[index] == glyph,
        forall|j: int| 0 <= j < index ==> s[j] != glyph,
    ensures
        s.index_of_first(glyph) == Some(index),
{
    s.index_of_first_ensures(glyph);
}

/// Every glyph of `glyphs` before `n` is a glyph.
pub open spec fn all_glyphs(glyphs: Seq<Seq<u8>>, n: int) -> bool {
    &&& 0 <= n <= glyphs.len()
    &&& forall|i: int| 0 <= i < n ==> is_glyph(#[trigger] glyphs[i])
}

/// A glyph that the read-only memory has resolves to its address there,
/// whatever the cache holds, and takes no slot.
pub proof fn lemma_rom_glyph_takes_no_slot(cache: Seq<Seq<u8>>, glyph: Seq<u8>)
    requires
        rom_address(glyph) is Some,
    ensures
        resolve_address(cache, glyph) == rom_address(glyph)->0,
        resolve_cache(cache, glyph) == cache,
{
}

/// Resolving keeps a cache a cache.
pub proof fn lemma_resolve_keeps_cache(cache: Seq<Seq<u8>>, glyph: Seq<u8>)
    requires
        is_cache(cache),
        is_glyph(glyph),
    ensures
        is_cache(resolve_cache(cache, glyph)),
{
    if rom_address(glyph) is None && !cache.contains(glyph) && cache.len() < 8 {
        lemma_push_keeps_cache(cache, glyph);
    }
}

/// At every point of a render pass the cache holds at most eight glyphs, none
/// twice and none of the read-only memory.
pub proof fn lemma_pass_cache_is_cache(glyphs: Seq<Seq<u8>>, n: int)
    requires
        all_glyphs(glyphs, n),
    ensures
        is_cache(pass_cache(glyphs, n)),
    decreases n,
{
    if n > 0 {
        lemma_pass_cache_is_cache(glyphs, n - 1);
        lemma_resolve_keeps_cache(pass_cache(glyphs, n - 1), glyphs[n - 1]);
    }
}

/// A slot, once given, keeps its glyph for the rest of the pass, and a full
/// cache stays as it is.
pub proof fn lemma_pass_cache_grows(glyphs: Seq<Seq<u8>>, i: int, n: int)
    requires
        0 <= i <= n,
    ensures
        pass_cache(glyphs, i).len() <= pass_cache(glyphs, n).len(),
        forall|k: int|
            0 <= k < pass_cache(glyphs, i).len() ==> #[trigger] pass_cache(glyphs, n)[k]
                == pass_cache(glyphs, i)[k],
        pass_cache(glyphs, i).len() >= 8 ==> pass_cache(glyphs, n) == pass_cache(glyphs, i),
    decreases n - i,
{
    if i < n {
        lemma_pass_cache_grows(glyphs, i, n - 1);
    }
}

/// The address that a glyph got during the pass is the one it shows under
/// when the pass is over: later glyphs neither move it nor take its slot.
pub proof fn lemma_pass_address_settled(glyphs: Seq<Seq<u8>>, n: int, i: int)
    requires
        all_glyphs(glyphs, n),
        0 <= i < n,
    ensures
        pass_address(glyphs, i) == settled_address(pass_cache(glyphs, n), glyphs[i]),
{
    let glyph = glyphs[i];
    let before = pass_cache(glyphs, i);
    let after = pass_cache(glyphs, i + 1);
    let end = pass_cache(glyphs, n);
    lemma_pass_cache_is_cache(glyphs, i);
    lemma_pass_cache_grows(glyphs, i, n);
    lemma_pass_cache_grows(glyphs, i + 1, n);
    before.index_of_first_ensures(glyph);
    end.index_of_first_ensures(glyph);
    if rom_address(glyph) is None {
        match before.index_of_first(glyph) {
            Some(slot) => {
                assert forall|j: int| 0 <= j < slot implies end[j] != glyph by {
                    assert(end[j] == before[j]);
                }
                lemma_first_index(end, glyph, slot);
            },
            None => {
                if before.len() < 8 {
                    let slot = before.len() as int;
                    assert(after == before.push(glyph));
                    assert(end[slot] == after[slot]);
                    assert forall|j: int| 0 <= j < slot implies end[j] != glyph by {
                        assert(end[j] == before[j]);
                        assert(before.contains(before[j]));
                    }
                    lemma_first_index(end, glyph, slot);
                } else {
                    assert(end == before);
                }
            },
        }
    }
}

/// Within one pass a glyph that is asked for again gets the address it got
/// before.
pub proof fn lemma_same_glyph_same_address(glyphs: Seq<Seq<u8>>, i: int, j: int)
    requires
        all_glyphs(glyphs, glyphs.len() as int),
        0 <= i < glyphs.len(),
        0 <= j < glyphs.len(),
        glyphs[i] == glyphs[j],
    ensures
        pass_address(glyphs, i) == pass_address(glyphs, j),
{
    lemma_pass_address_settled(glyphs, glyphs.len() as int, i);
    lemma_pass_address_settled(glyphs, glyphs.len() as int, j);
}

/// Within one pass two custom glyphs that found room in the cache share an
/// address only if they are the same glyph.
pub proof fn lemma_distinct_glyphs_distinct_addresses(glyphs: Seq<Seq<u8>>, i: int, j: int)
    requires
        all_glyphs(glyphs, glyphs.len() as int),
        0 <= i < glyphs.len(),
        0 <= j < glyphs.len(),
        rom_address(glyphs[i]) is None,
        rom_address(glyphs[j]) is None,
        pass_cache(glyphs, glyphs.len() as int).contains(glyphs[i]),
        pass_cache(glyphs, glyphs.len() as int).contains(glyphs[j]),
        glyphs[i] != glyphs[j],
    ensures
        pass_address(glyphs, i) != pass_address(glyphs, j),
        pass_address(glyphs, i) < 8,
        pass_address(glyphs, j) < 8,
{
    let end = pass_cache(glyphs, glyphs.len() as int);
    lemma_pass_address_settled(glyphs, glyphs.len() as int, i);
    lemma_pass_address_settled(glyphs, glyphs.len() as int, j);
    lemma_pass_cache_is_cache(glyphs, glyphs.len() as int);
    end.index_of_first_ensures(glyphs[i]);
    end.index_of_first_ensures(glyphs[j]);
}

/// While a pass asks only for custom glyphs that all differ, the cache holds
/// the first eight of them in the order they came.
pub proof fn lemma_distinct_pass_cache(glyphs: Seq<Seq<u8>>, n: int)
    requires
        0 <= n <= glyphs.len(),
        glyphs.no_duplicates(),
        forall|k: int| 0 <= k < glyphs.len() ==> rom_address(#[trigger] glyphs[k]) is None,
    ensures
        pass_cache(glyphs, n) == glyphs.take(if n < 8 { n } else { 8 }),
    decreases n,
{
    if n > 0 {
        lemma_distinct_pass_cache(glyphs, n - 1);
        let before = pass_cache(glyphs, n - 1);
        let glyph = glyphs[n - 1];
        assert(!before.contains(glyph)) by {
            if before.contains(glyph) {
                let k = choose|k: int| 0 <= k < before.len() && before[k] == glyph;
                assert(glyphs[k] == glyphs[n - 1]);
            }
        }
        assert(pass_cache(glyphs, n) =~= glyphs.take(if n < 8 { n } else { 8 }));
    }
}

/// When a pass asks for more than eight custom glyphs that all differ, the
/// first eight get the slots in order and every one after them shows as
/// [`BLANK`].
pub proof fn lemma_glyphs_beyond_the_eighth_are_blank(glyphs: Seq<Seq<u8>>, i: int)
    requires
        0 <= i < glyphs.len(),
        glyphs.no_duplicates(),
        forall|k: int| 0 <= k < glyphs.len() ==> rom_address(#[trigger] glyphs[k]) is None,
    ensures
        pass_address(glyphs, i) == (if i < 8 { i as u8 } else { BLANK }),
{
    lemma_distinct_pass_cache(glyphs, i);
    let before = pass_cache(glyphs, i);
    let glyph = glyphs[i];
    before.index_of_first_ensures(glyph);
    if before.contains(glyph) {
        let k = choose|k: int| 0 <= k < before.len() && before[k] == glyph;
        assert(glyphs[k] == glyphs[i]);
    }
}

} // verus!
