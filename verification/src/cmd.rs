//! The instructions of the controller and their encoding on the wire.

use vstd::prelude::*;

verus! {

/// Number of lines of the display.
#[derive(Clone, Copy, Debug, PartialEq, Eq)]
pub enum Lines {
    One,
    Two,
}

/// Font size used by the controller.
#[derive(Clone, Copy, Debug, PartialEq, Eq)]
pub enum Font {
    Size5x11,
    Size5x8,
}

/// Direction of a move of the cursor or of the display.
#[derive(Clone, Copy, Debug, PartialEq, Eq)]
pub enum Direction {
    Left,
    Right,
}

/// Shift direction and target.
#[derive(Clone, Copy, Debug, PartialEq, Eq)]
pub enum Shift {
    /// Shift the entire display in the given [`Direction`].
    Display(Direction),
    /// Shift the cursor position in the given [`Direction`].
    Cursor(Direction),
}

/// An instruction of the controller.
#[allow(inconsistent_fields)]
#[derive(Clone, Copy, Debug, PartialEq, Eq)]
pub enum Command {
    /// Clear the display: fills the display memory with spaces and resets
    /// the shift and the cursor position.
    Clear(),
    /// Reset the shift and the cursor position, leaving the display memory
    /// as it is.
    ReturnHome(),
    /// Set what happens after a read or a write.
    EntryMode {
        /// Where the address counter moves.
        cursor: Direction,
        /// Whether a write to the display memory shifts the display too.
        display: bool,
    },
    /// Enable or disable some components of the display.
    Onoff {
        /// The whole display; switching it off keeps the display memory.
        display: bool,
        /// The cursor under the current address.
        cursor: bool,
        /// The blinking of the current character.
        blink: bool,
    },
    /// Shift the display or the cursor.
    Shift(Shift),
    /// Set the functioning mode of the display.
    FunctionSet {
        lines: Lines,
        font: Font,
    },
    /// Set the address in the glyph memory of the following reads and writes.
    CgRamAddress(u8),
    /// Set the address in the display memory of the following reads and
    /// writes.
    DdRamAddress(u8),
}

/// 1 for a flag that is set, 0 for one that is not.
pub open spec fn flag(set: bool) -> nat {
    if set {
        1
    } else {
        0
    }
}

/// The byte that stands for a command on the bus: the bit that names the
/// instruction, and below it the instruction's fields, as the data sheet
/// lays them out.
pub open spec fn encoding(command: Command) -> u8 {
    match command {
        Command::Clear() => 0x01,
        Command::ReturnHome() => 0x02,
        Command::EntryMode { cursor, display } => (0x04 + 2 * flag(cursor is Right) + flag(
            display,
        )) as u8,
        Command::Onoff { display, cursor, blink } => (0x08 + 4 * flag(display) + 2 * flag(cursor)
            + flag(blink)) as u8,
        Command::Shift(Shift::Display(direction)) => (0x18 + 4 * flag(direction is Right)) as u8,
        Command::Shift(Shift::Cursor(direction)) => (0x10 + 4 * flag(direction is Right)) as u8,
        Command::FunctionSet { lines, font } => (0x30 + 8 * flag(lines is Two) + 4 * flag(
            font is Size5x11,
        )) as u8,
        Command::CgRamAddress(address) => 0x40 | address,
        Command::DdRamAddress(address) => 0x80 | address,
    }
}

/// Time units that the controller needs after a command before it takes the
/// next one.
pub open spec fn settle_time(command: Command) -> u32 {
    match command {
        Command::Clear() => 1600,
        Command::ReturnHome() => 1600,
        _ => 40,
    }
}

proof fn lemma_onoff_bits(display: u8, cursor: u8, blink: u8)
    by (bit_vector)
    requires
        display <= 1,
        cursor <= 1,
        blink <= 1,
    ensures
        0b00001000u8 | display << 2u8 | cursor << 1u8 | blink == 8u8 + 4u8 * display + 2u8 * cursor
            + blink,
        0b00000100u8 | blink == 4u8 + blink,
        0b00000110u8 | blink == 6u8 + blink,
{
}

fn bit(set: bool) -> (b: u8)
    ensures
        b == flag(set),
{
    if set {
        1
    } else {
        0
    }
}

impl Command {
    /// The byte that stands for the command on the bus.
    pub fn bits(self) -> (byte: u8)
        ensures
            byte == encoding(self),
    {
        match self {
            Command::Clear() => 0b00000001,
            Command::ReturnHome() => 0b00000010,
            Command::EntryMode { cursor: Direction::Left, display } => {
                proof {
                    lemma_onoff_bits(0, 0, flag(display) as u8);
                }
                0b00000100 | bit(display)
            },
            Command::EntryMode { cursor: Direction::Right, display } => {
                proof {
                    lemma_onoff_bits(0, 0, flag(display) as u8);
                }
                0b00000110 | bit(display)
            },
            Command::Onoff { display, cursor, blink } => {
                proof {
                    lemma_onoff_bits(flag(display) as u8, flag(cursor) as u8, flag(blink) as u8);
                }
                0b00001000 | bit(display) << 2 | bit(cursor) << 1 | bit(blink)
            },
            Command::Shift(Shift::Display(Direction::Right)) => 0b00011100,
            Command::Shift(Shift::Display(Direction::Left)) => 0b00011000,
            Command::Shift(Shift::Cursor(Direction::Right)) => 0b00010100,
            Command::Shift(Shift::Cursor(Direction::Left)) => 0b00010000,
            Command::FunctionSet { lines: Lines::One, font: Font::Size5x8 } => 0b00110000,
            Command::FunctionSet { lines: Lines::Two, font: Font::Size5x8 } => 0b00111000,
            Command::FunctionSet { lines: Lines::One, font: Font::Size5x11 } => 0b00110100,
            Command::FunctionSet { lines: Lines::Two, font: Font::Size5x11 } => 0b00111100,
            Command::CgRamAddress(address) => 0b01000000 | address,
            Command::DdRamAddress(address) => 0b10000000 | address,
        }
    }

    /// Time units to wait after the command: 1600 after the two that reset
    /// the display, 40 after every other.
    pub fn settle(self) -> (time: u32)
        ensures
            time == settle_time(self),
    {
        match self {
            Command::Clear() => 1600,
            Command::ReturnHome() => 1600,
            Command::EntryMode { .. } => 40,
            Command::Onoff { .. } => 40,
            Command::Shift(_) => 40,
            Command::FunctionSet { .. } => 40,
            Command::CgRamAddress(_) => 40,
            Command::DdRamAddress(_) => 40,
        }
    }
}

} // verus!
