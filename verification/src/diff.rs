//! The incremental writer: from the images that the controller holds and
//! the images it should hold, the shortest run of writes that turns one into
//! the other.

use crate::cache::{cgram_glyphs, cgram_slots, CgRam};
use crate::canvas::DdRam;
use crate::cmd::Command;
use vstd::prelude::*;

verus! {

/// One of the two memories of the controller that are written through the
/// address counter.
#[derive(Clone, Copy, Debug, PartialEq, Eq)]
pub enum Memory {
    /// The glyph memory: eight slots of eight rows, at addresses 0 to 63.
    Glyph,
    /// The display memory: sixteen cells, the upper row at addresses 0 to 7,
    /// the lower row at 0x40 to 0x47.
    Display,
}

/// One step of an update.
#[derive(Clone, Copy, Debug, PartialEq, Eq)]
pub enum Operation {
    /// Execute an instruction; an update only ever sets an address.
    Exec(Command),
    /// Write a byte where the address counter stands, which then moves on
    /// by one.
    Write(u8),
}

/// The address of a cell in the display memory.
pub open spec fn cell_address(cell: int) -> int {
    if cell < 8 {
        cell
    } else {
        cell - 8 + 0x40
    }
}

/// The address in `memory` of the byte at `index` of its image.
pub open spec fn address_in(memory: Memory, index: int) -> int {
    match memory {
        Memory::Glyph => index,
        Memory::Display => cell_address(index),
    }
}

/// The instruction that points the address counter at `address` of `memory`.
pub open spec fn set_address(memory: Memory, address: u8) -> Operation {
    match memory {
        Memory::Glyph => Operation::Exec(Command::CgRamAddress(address)),
        Memory::Display => Operation::Exec(Command::DdRamAddress(address)),
    }
}

/// Whether the write of byte `index` has to set the address first: unless the
/// byte just before it is written too and ends right in front of it.
pub open spec fn needs_address(memory: Memory, held: Seq<u8>, wanted: Seq<u8>, index: int) -> bool {
    !(index > 0 && held[index - 1] != wanted[index - 1] && address_in(memory, index - 1) + 1
        == address_in(memory, index))
}

/// What an update does for byte `index`: nothing where the controller holds
/// the byte already; else the write, behind an address where one is needed.
pub open spec fn byte_operations(
    memory: Memory,
    held: Seq<u8>,
    wanted: Seq<u8>,
    index: int,
) -> Seq<Operation> {
    if held[index] == wanted[index] {
        Seq::empty()
    } else if needs_address(memory, held, wanted, index) {
        seq![set_address(memory, address_in(memory, index) as u8), Operation::Write(wanted[index])]
    } else {
        seq![Operation::Write(wanted[index])]
    }
}

/// What an update does for the first `n` bytes of an image, in rising order.
pub open spec fn memory_operations(
    memory: Memory,
    held: Seq<u8>,
    wanted: Seq<u8>,
    n: int,
) -> Seq<Operation>
    decreases n,
{
    if n <= 0 {
        Seq::empty()
    } else {
        memory_operations(memory, held, wanted, n - 1) + byte_operations(
            memory,
            held,
            wanted,
            n - 1,
        )
    }
}

/// The bytes of a glyph memory image: the rows of its glyphs, slot after
/// slot.
pub open spec fn glyph_bytes(glyphs: Seq<Seq<u8>>) -> Seq<u8> {
    Seq::new(8 * glyphs.len(), |i: int| glyphs[i / 8][i % 8])
}

/// The whole update: the glyph memory first, over as many bytes as the new
/// image has, then all sixteen cells of the display memory.
pub open spec fn update_operations(
    held_cgram: Seq<u8>,
    held_ddram: Seq<u8>,
    cgram: Seq<u8>,
    ddram: Seq<u8>,
) -> Seq<Operation> {
    memory_operations(Memory::Glyph, held_cgram, cgram, cgram.len() as int) + memory_operations(
        Memory::Display,
        held_ddram,
        ddram,
        16,
    )
}

/// An image laid over another: its own bytes as far as it goes, behind them
/// those of the other.
pub open spec fn overlaid(held: Seq<u8>, image: Seq<u8>) -> Seq<u8> {
    Seq::new(held.len(), |i: int| if i < image.len() { image[i] } else { held[i] })
}

/// The address in the display memory of the cell with this index.
pub fn ddram_address(cell: usize) -> (address: u8)
    requires
        cell < 16,
    ensures
        address == cell_address(cell as int),
        address == (if cell < 8 { cell as int } else { cell - 8 + 0x40 }),
{
    if cell >= 8 {
        (cell - 8 + 0x40) as u8
    } else {
        cell as u8
    }
}

fn address_of(memory: Memory, index: usize) -> (address: u8)
    requires
        index < 64,
        memory is Display ==> index < 16,
    ensures
        address == address_in(memory, index as int),
{
    match memory {
        Memory::Glyph => index as u8,
        Memory::Display => ddram_address(index),
    }
}

fn address_command(memory: Memory, address: u8) -> (operation: Operation)
    ensures
        operation == set_address(memory, address),
{
    match memory {
        Memory::Glyph => Operation::Exec(Command::CgRamAddress(address)),
        Memory::Display => Operation::Exec(Command::DdRamAddress(address)),
    }
}

/// Appends to `operations` what brings the first bytes of `memory` from
/// `held` to `wanted`, over the length of `wanted`.
fn diff_memory(memory: Memory, held: &[u8], wanted: &[u8], operations: &mut Vec<Operation>)
    requires
        wanted@.len() <= held@.len(),
        wanted@.len() <= 64,
        memory is Display ==> wanted@.len() <= 16,
    ensures
        final(operations)@ == old(operations)@ + memory_operations(
            memory,
            held@,
            wanted@,
            wanted@.len() as int,
        ),
{
    // Where the address counter stands after the last write, once there was one.
    let mut at: Option<u8> = None;
    let ghost mut last: int = -1;
    let mut index: usize = 0;
    while index < wanted.len()
        invariant
            index <= wanted@.len() <= held@.len(),
            wanted@.len() <= 64,
            memory is Display ==> wanted@.len() <= 16,
            operations@ == old(operations)@ + memory_operations(
                memory,
                held@,
                wanted@,
                index as int,
            ),
            -1 <= last < index,
            forall|i: int| last < i < index ==> held@[i] == wanted@[i],
            last < 0 ==> at is None,
            last >= 0 ==> held@[last] != wanted@[last] && at == Some(
                (address_in(memory, last) + 1) as u8,
            ),
        decreases wanted@.len() - index,
    {
        let ghost before = operations@;
        if held[index] != wanted[index] {
            let address = address_of(memory, index);
            let placed = match at {
                Some(next) => next == address,
                None => false,
            };
            proof {
                assert(placed == !needs_address(memory, held@, wanted@, index as int));
            }
            if !placed {
                operations.push(address_command(memory, address));
            }
            operations.push(Operation::Write(wanted[index]));
            at = Some(address + 1);
            proof {
                last = index as int;
                assert(operations@ =~= before + byte_operations(
                    memory,
                    held@,
                    wanted@,
                    index as int,
                ));
            }
        } else {
            proof {
                assert(operations@ =~= before + byte_operations(
                    memory,
                    held@,
                    wanted@,
                    index as int,
                ));
            }
        }
        proof {
            assert(memory_operations(memory, held@, wanted@, index as int + 1) == memory_operations(
                memory,
                held@,
                wanted@,
                index as int,
            ) + byte_operations(memory, held@, wanted@, index as int));
        }
        index += 1;
    }
}

/// What the images of a [`DiffUpdater`] are: the bytes that the controller
/// holds in its two memories.
pub struct Images {
    /// All 64 bytes of the glyph memory.
    pub cgram: Seq<u8>,
    /// The sixteen cells of the display memory.
    pub ddram: Seq<u8>,
}

/// Remembers what the controller holds, and works out what to write for
/// it to hold something else.
pub struct DiffUpdater {
    cgram: [u8; 64],
    ddram: [u8; 16],
}

impl View for DiffUpdater {
    type V = Images;

    closed spec fn view(&self) -> Images {
        Images { cgram: self.cgram@, ddram: self.ddram@ }
    }
}

impl DiffUpdater {
    /// Starts from what the controller holds now.
    pub fn new(ddram: DdRam, cgram: [u8; 64]) -> (updater: Self)
        ensures
            updater@.cgram == cgram@,
            updater@.ddram == ddram@,
    {
        DiffUpdater { cgram, ddram }
    }

    /// The steps that bring the controller to the new images, and with them
    /// the images become what the updater remembers. The glyph memory comes
    /// first, then the display memory; each is walked by rising index, bytes
    /// that stay are skipped, and an address is set only where a write does
    /// not follow right behind the one before it.
    pub fn update(&mut self, ddram: &DdRam, cgram: &CgRam) -> (operations: Vec<Operation>)
        ensures
            operations@ == update_operations(
                old(self)@.cgram,
                old(self)@.ddram,
                glyph_bytes(cgram_glyphs(*cgram)),
                ddram@,
            ),
            final(self)@.cgram == overlaid(old(self)@.cgram, glyph_bytes(cgram_glyphs(*cgram))),
            final(self)@.ddram == ddram@,
            final(self)@.cgram.len() == 64,
            final(self)@.ddram.len() == 16,
            glyph_bytes(cgram_glyphs(*cgram)).len() <= 64,
    {
        let slots = cgram_slots(cgram);
        let mut operations: Vec<Operation> = Vec::new();
        let ghost glyphs = cgram_glyphs(*cgram);
        let mut wanted: Vec<u8> = Vec::new();
        for slot in 0..slots.len()
            invariant
                slots@.len() == glyphs.len() <= 8,
                forall|i: int| 0 <= i < slots@.len() ==> (#[trigger] slots@[i])@ == glyphs[i],
                wanted@.len() == 8 * slot,
                forall|i: int| 0 <= i < 8 * slot ==> #[trigger] wanted@[i] == glyphs[i / 8][i % 8],
        {
            for row in 0..8usize
                invariant
                    slot < slots@.len() == glyphs.len() <= 8,
                    slots@[slot as int]@ == glyphs[slot as int],
                    wanted@.len() == 8 * slot + row,
                    forall|i: int|
                        0 <= i < 8 * slot + row ==> #[trigger] wanted@[i] == glyphs[i / 8][i % 8],
            {
                wanted.push(slots[slot][row]);
            }
        }
        assert(wanted@ =~= glyph_bytes(glyphs));
        diff_memory(Memory::Glyph, self.cgram.as_slice(), wanted.as_slice(), &mut operations);
        diff_memory(Memory::Display, self.ddram.as_slice(), ddram.as_slice(), &mut operations);
        for index in 0..wanted.len()
            invariant
                wanted@.len() <= 64,
                forall|i: int|
                    0 <= i < 64 ==> #[trigger] self.cgram[i] == (if i < index {
                        wanted@[i]
                    } else {
                        old(self).cgram[i]
                    }),
        {
            self.cgram[index] = wanted[index];
        }
        self.ddram = *ddram;
        proof {
            assert(self@.cgram =~= overlaid(old(self)@.cgram, wanted@));
        }
        operations
    }
}


/// Bytes that the controller holds already cost nothing.
pub proof fn lemma_unchanged_memory_needs_nothing(
    memory: Memory,
    held: Seq<u8>,
    wanted: Seq<u8>,
    n: int,
)
    requires
        forall|i: int| 0 <= i < n ==> held[i] == wanted[i],
    ensures
        memory_operations(memory, held, wanted, n) == Seq::<Operation>::empty(),
    decreases n,
{
    if n > 0 {
        lemma_unchanged_memory_needs_nothing(memory, held, wanted, n - 1);
        assert(Seq::<Operation>::empty() + Seq::<Operation>::empty() =~= Seq::<Operation>::empty());
    }
}

/// An update to the images that the controller holds already is empty.
pub proof fn lemma_identical_images_need_nothing(
    held_cgram: Seq<u8>,
    held_ddram: Seq<u8>,
    cgram: Seq<u8>,
    ddram: Seq<u8>,
)
    requires
        cgram.len() <= held_cgram.len(),
        forall|i: int| 0 <= i < cgram.len() ==> held_cgram[i] == cgram[i],
        forall|i: int| 0 <= i < 16 ==> held_ddram[i] == ddram[i],
    ensures
        update_operations(held_cgram, held_ddram, cgram, ddram) == Seq::<Operation>::empty(),
{
    lemma_unchanged_memory_needs_nothing(Memory::Glyph, held_cgram, cgram, cgram.len() as int);
    lemma_unchanged_memory_needs_nothing(Memory::Display, held_ddram, ddram, 16);
    assert(Seq::<Operation>::empty() + Seq::<Operation>::empty() =~= Seq::<Operation>::empty());
}

/// Where a memory differs from what the controller holds in the one byte
/// `at` only, the update of that memory is one address and one write.
pub proof fn lemma_single_byte_costs_two(
    memory: Memory,
    held: Seq<u8>,
    wanted: Seq<u8>,
    n: int,
    at: int,
)
    requires
        0 <= at < n,
        held[at] != wanted[at],
        forall|i: int| 0 <= i < n && i != at ==> held[i] == wanted[i],
    ensures
        memory_operations(memory, held, wanted, n) == seq![
            set_address(memory, address_in(memory, at) as u8),
            Operation::Write(wanted[at]),
        ],
    decreases n,
{
    let two = seq![
        set_address(memory, address_in(memory, at) as u8),
        Operation::Write(wanted[at]),
    ];
    if n - 1 == at {
        lemma_unchanged_memory_needs_nothing(memory, held, wanted, n - 1);
        assert(Seq::<Operation>::empty() + two =~= two);
    } else {
        lemma_single_byte_costs_two(memory, held, wanted, n - 1, at);
        assert(two + Seq::<Operation>::empty() =~= two);
    }
}

/// Where the new images differ from what the controller holds in one cell
/// only, the whole update is the address of that cell and one write.
pub proof fn lemma_single_cell_costs_two(
    held_cgram: Seq<u8>,
    held_ddram: Seq<u8>,
    cgram: Seq<u8>,
    ddram: Seq<u8>,
    cell: int,
)
    requires
        cgram.len() <= held_cgram.len(),
        forall|i: int| 0 <= i < cgram.len() ==> held_cgram[i] == cgram[i],
        0 <= cell < 16,
        held_ddram[cell] != ddram[cell],
        forall|i: int| 0 <= i < 16 && i != cell ==> held_ddram[i] == ddram[i],
    ensures
        update_operations(held_cgram, held_ddram, cgram, ddram) == seq![
            Operation::Exec(Command::DdRamAddress(cell_address(cell) as u8)),
            Operation::Write(ddram[cell]),
        ],
{
    lemma_unchanged_memory_needs_nothing(Memory::Glyph, held_cgram, cgram, cgram.len() as int);
    lemma_single_byte_costs_two(Memory::Display, held_ddram, ddram, 16, cell);
    let two = memory_operations(Memory::Display, held_ddram, ddram, 16);
    assert(Seq::<Operation>::empty() + two =~= two);
}

/// Where the new images differ from what the controller holds in one byte
/// of the glyph memory only, the whole update is the address of that byte
/// and one write.
pub proof fn lemma_single_glyph_byte_costs_two(
    held_cgram: Seq<u8>,
    held_ddram: Seq<u8>,
    cgram: Seq<u8>,
    ddram: Seq<u8>,
    at: int,
)
    requires
        cgram.len() <= held_cgram.len(),
        0 <= at < cgram.len(),
        held_cgram[at] != cgram[at],
        forall|i: int| 0 <= i < cgram.len() && i != at ==> held_cgram[i] == cgram[i],
        forall|i: int| 0 <= i < 16 ==> held_ddram[i] == ddram[i],
    ensures
        update_operations(held_cgram, held_ddram, cgram, ddram) == seq![
            Operation::Exec(Command::CgRamAddress(at as u8)),
            Operation::Write(cgram[at]),
        ],
{
    lemma_single_byte_costs_two(Memory::Glyph, held_cgram, cgram, cgram.len() as int, at);
    lemma_unchanged_memory_needs_nothing(Memory::Display, held_ddram, ddram, 16);
    let two = memory_operations(Memory::Glyph, held_cgram, cgram, cgram.len() as int);
    assert(two + Seq::<Operation>::empty() =~= two);
}

/// The part of the controller that an update works on: its two memories and
/// the address counter, which a write moves on by one.
pub struct Controller {
    /// The 64 bytes of the glyph memory.
    pub cgram: Seq<u8>,
    /// The 128 addresses of the display memory.
    pub ddram: Seq<u8>,
    /// The memory that the address counter points into.
    pub target: Memory,
    /// The address counter.
    pub counter: int,
}

/// The byte that the controller holds at `address` of `memory`.
pub open spec fn stored(controller: Controller, memory: Memory, address: int) -> u8 {
    match memory {
        Memory::Glyph => controller.cgram[address],
        Memory::Display => controller.ddram[address],
    }
}

/// The controller after one step of an update.
pub open spec fn applied(controller: Controller, operation: Operation) -> Controller {
    match operation {
        Operation::Exec(Command::CgRamAddress(address)) => Controller {
            target: Memory::Glyph,
            counter: address as int,
            ..controller
        },
        Operation::Exec(Command::DdRamAddress(address)) => Controller {
            target: Memory::Display,
            counter: address as int,
            ..controller
        },
        Operation::Exec(_) => controller,
        Operation::Write(value) => match controller.target {
            Memory::Glyph => Controller {
                cgram: controller.cgram.update(controller.counter, value),
                counter: controller.counter + 1,
                ..controller
            },
            Memory::Display => Controller {
                ddram: controller.ddram.update(controller.counter, value),
                counter: controller.counter + 1,
                ..controller
            },
        },
    }
}

/// The controller after the steps of an update, in order.
pub open spec fn run(controller: Controller, operations: Seq<Operation>) -> Controller
    decreases operations.len(),
{
    if operations.len() == 0 {
        controller
    } else {
        applied(run(controller, operations.drop_last()), operations.last())
    }
}

/// Whether the controller holds the first `n` bytes of `image` in `memory`.
pub open spec fn holds(controller: Controller, memory: Memory, image: Seq<u8>, n: int) -> bool {
    forall|i: int| 0 <= i < n ==> stored(controller, memory, address_in(memory, i)) == #[trigger] image[i]
}

/// Whether `address` of `memory` is that of one of the first `n` bytes of
/// an image.
pub open spec fn is_image_address(memory: Memory, n: int, address: int) -> bool {
    exists|i: int| 0 <= i < n && #[trigger] address_in(memory, i) == address
}

/// Whether `address` is one of `memory`.
pub open spec fn is_address(controller: Controller, memory: Memory, address: int) -> bool {
    match memory {
        Memory::Glyph => 0 <= address < controller.cgram.len(),
        Memory::Display => 0 <= address < controller.ddram.len(),
    }
}

/// Whether two controllers hold the same everywhere but in the first `n`
/// bytes of the image of `memory`.
pub open spec fn same_elsewhere(before: Controller, after: Controller, memory: Memory, n: int) -> bool {
    &&& after.cgram.len() == before.cgram.len()
    &&& after.ddram.len() == before.ddram.len()
    &&& forall|other: Memory, address: int|
        is_address(before, other, address) && (other != memory || !is_image_address(
            memory,
            n,
            address,
        )) ==> #[trigger] stored(after, other, address) == stored(before, other, address)
}

proof fn lemma_run_append(controller: Controller, first: Seq<Operation>, second: Seq<Operation>)
    ensures
        run(controller, first + second) == run(run(controller, first), second),
    decreases second.len(),
{
    if second.len() == 0 {
        assert(first + second =~= first);
    } else {
        lemma_run_append(controller, first, second.drop_last());
        assert((first + second).drop_last() =~= first + second.drop_last());
        assert((first + second).last() == second.last());
    }
}

proof fn lemma_run_one(controller: Controller, operation: Operation)
    ensures
        run(controller, seq![operation]) == applied(controller, operation),
{
    assert(seq![operation].drop_last() =~= Seq::<Operation>::empty());
    assert(run(controller, Seq::<Operation>::empty()) == controller);
}

proof fn lemma_run_two(controller: Controller, first: Operation, second: Operation)
    ensures
        run(controller, seq![first, second]) == applied(applied(controller, first), second),
{
    assert(seq![first, second].drop_last() =~= seq![first]);
    lemma_run_one(controller, first);
}

/// Whether a memory of the controller has room for the first `n` bytes of
/// an image.
pub open spec fn has_room(controller: Controller, memory: Memory, n: int) -> bool {
    match memory {
        Memory::Glyph => 0 <= n <= 64 && controller.cgram.len() == 64,
        Memory::Display => 0 <= n <= 16 && controller.ddram.len() == 128,
    }
}

/// The update of one memory brings its first `n` bytes from what the
/// controller held to what is wanted and leaves every other byte alone.
pub proof fn lemma_memory_converges(
    memory: Memory,
    controller: Controller,
    held: Seq<u8>,
    wanted: Seq<u8>,
    n: int,
)
    requires
        has_room(controller, memory, n),
        holds(controller, memory, held, n),
    ensures
        holds(run(controller, memory_operations(memory, held, wanted, n)), memory, wanted, n),
        same_elsewhere(
            controller,
            run(controller, memory_operations(memory, held, wanted, n)),
            memory,
            n,
        ),
        n > 0 && held[n - 1] != wanted[n - 1] ==> {
            let after = run(controller, memory_operations(memory, held, wanted, n));
            after.target == memory && after.counter == address_in(memory, n - 1) + 1
        },
    decreases n,
{
    if n > 0 {
        let index = n - 1;
        let address = address_in(memory, index);
        let sofar = memory_operations(memory, held, wanted, index);
        let middle = run(controller, sofar);
        let last = byte_operations(memory, held, wanted, index);
        let after = run(controller, memory_operations(memory, held, wanted, n));
        lemma_memory_converges(memory, controller, held, wanted, index);
        lemma_run_append(controller, sofar, last);
        assert(after == run(middle, last));
        assert(!is_image_address(memory, index, address)) by {
            if is_image_address(memory, index, address) {
                let i = choose|i: int| 0 <= i < index && #[trigger] address_in(memory, i) == address;
                assert(false);
            }
        }
        assert(stored(middle, memory, address) == held[index]) by {
            assert(stored(controller, memory, address) == held[index]);
        }
        assert(is_image_address(memory, n, address)) by {
            assert(address_in(memory, index) == address);
        }
        assert forall|i: int| 0 <= i < index implies is_image_address(
            memory,
            n,
            #[trigger] address_in(memory, i),
        ) by {}
        if held[index] == wanted[index] {
            assert(last =~= Seq::<Operation>::empty());
            assert(after == middle);
        } else {
            let write = Operation::Write(wanted[index]);
            let point = applied(middle, set_address(memory, address as u8));
            if needs_address(memory, held, wanted, index) {
                lemma_run_two(middle, set_address(memory, address as u8), write);
                assert(after == applied(point, write));
            } else {
                lemma_run_one(middle, write);
                assert(middle.target == memory && middle.counter == address);
                assert(after == applied(middle, write));
            }
            assert(stored(after, memory, address) == wanted[index]);
            assert forall|other: Memory, place: int|
                is_address(controller, other, place) && (other != memory || place
                    != address) implies #[trigger] stored(after, other, place) == stored(
                middle,
                other,
                place,
            ) by {}
        }
        assert forall|i: int| 0 <= i < n implies stored(after, memory, address_in(memory, i))
            == #[trigger] wanted[i] by {
            if i < index {
                assert(address_in(memory, i) != address);
                assert(stored(middle, memory, address_in(memory, i)) == wanted[i]);
            }
        }
        assert forall|other: Memory, place: int|
            is_address(controller, other, place) && (other != memory || !is_image_address(
                memory,
                n,
                place,
            )) implies #[trigger] stored(after, other, place) == stored(controller, other, place) by {
            if other == memory {
                assert(place != address);
                if is_image_address(memory, index, place) {
                    let i = choose|i: int| 0 <= i < index && #[trigger] address_in(memory, i) == place;
                    assert(is_image_address(memory, n, address_in(memory, i)));
                }
            }
            assert(stored(after, other, place) == stored(middle, other, place));
        }
    } else {
        assert(run(controller, memory_operations(memory, held, wanted, n)) == controller);
    }
}

/// An update does what it is for. A controller that holds the remembered
/// images holds the new ones once the steps of the update have run: the
/// glyph memory over the length of its new image, and all sixteen cells.
/// Every other byte of its memories is as it was.
pub proof fn lemma_update_converges(
    controller: Controller,
    held_cgram: Seq<u8>,
    held_ddram: Seq<u8>,
    cgram: Seq<u8>,
    ddram: Seq<u8>,
)
    requires
        controller.cgram.len() == 64,
        controller.ddram.len() == 128,
        cgram.len() <= 64,
        holds(controller, Memory::Glyph, held_cgram, cgram.len() as int),
        holds(controller, Memory::Display, held_ddram, 16),
    ensures
        ({
            let after = run(controller, update_operations(held_cgram, held_ddram, cgram, ddram));
            &&& holds(after, Memory::Glyph, cgram, cgram.len() as int)
            &&& holds(after, Memory::Display, ddram, 16)
            &&& forall|address: int|
                cgram.len() <= address < 64 ==> #[trigger] after.cgram[address]
                    == controller.cgram[address]
            &&& forall|address: int|
                0 <= address < 128 && !is_image_address(Memory::Display, 16, address)
                    ==> #[trigger] after.ddram[address] == controller.ddram[address]
        }),
{
    let glyphs = memory_operations(Memory::Glyph, held_cgram, cgram, cgram.len() as int);
    let cells = memory_operations(Memory::Display, held_ddram, ddram, 16);
    let middle = run(controller, glyphs);
    let after = run(controller, glyphs + cells);
    lemma_memory_converges(Memory::Glyph, controller, held_cgram, cgram, cgram.len() as int);
    lemma_run_append(controller, glyphs, cells);
    assert(holds(middle, Memory::Display, held_ddram, 16)) by {
        assert forall|i: int| 0 <= i < 16 implies stored(
            middle,
            Memory::Display,
            address_in(Memory::Display, i),
        ) == #[trigger] held_ddram[i] by {
            assert(stored(middle, Memory::Display, address_in(Memory::Display, i)) == stored(
                controller,
                Memory::Display,
                address_in(Memory::Display, i),
            ));
        }
    }
    lemma_memory_converges(Memory::Display, middle, held_ddram, ddram, 16);
    assert forall|i: int| 0 <= i < cgram.len() implies stored(
        after,
        Memory::Glyph,
        address_in(Memory::Glyph, i),
    ) == #[trigger] cgram[i] by {
        assert(stored(after, Memory::Glyph, address_in(Memory::Glyph, i)) == stored(
            middle,
            Memory::Glyph,
            address_in(Memory::Glyph, i),
        ));
    }
    assert forall|address: int| cgram.len() <= address < 64 implies #[trigger] after.cgram[address]
        == controller.cgram[address] by {
        assert(stored(after, Memory::Glyph, address) == stored(middle, Memory::Glyph, address));
        assert(!is_image_address(Memory::Glyph, cgram.len() as int, address));
        assert(stored(middle, Memory::Glyph, address) == stored(controller, Memory::Glyph, address));
    }
    assert forall|address: int|
        0 <= address < 128 && !is_image_address(
            Memory::Display,
            16,
            address,
        ) implies #[trigger] after.ddram[address] == controller.ddram[address] by {
        assert(stored(after, Memory::Display, address) == stored(middle, Memory::Display, address));
        assert(stored(middle, Memory::Display, address) == stored(
            controller,
            Memory::Display,
            address,
        ));
    }
}

} // verus!
