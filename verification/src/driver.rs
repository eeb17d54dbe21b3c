//! The protocol of the controller: which lines to set, in which order and
//! for how long, to execute an instruction or to move a byte. The driver
//! names the signals; it does not hold the lines.

use crate::cmd::{encoding, settle_time, Command, Direction, Font, Lines, Shift};
use crate::diff::Operation;
use crate::transfer::{run_error, value_at, Step, Transfer, TransferView};
use vstd::prelude::*;

verus! {

/// What can be asked of the controller's lines.
#[derive(Clone, Copy, Debug, PartialEq, Eq)]
pub enum Signal {
    /// Set the register select line: high for the data register, low for
    /// the instruction register.
    RegisterSelect(bool),
    /// Set the read/write line: high to read, low to write.
    ReadWrite(bool),
    /// Set the enable line. The controller acts on a pulse of it.
    Enable(bool),
    /// Put a byte on the data bus.
    Write(u8),
    /// Take the byte that the data bus shows; the outcome holds it.
    Read,
    /// Wait for a number of time units.
    Delay(u32),
}

/// One entry of the record of an exchange.
pub type ExchangeStep<E> = Step<Signal, u8, E>;

/// A run of signals to the controller.
pub type Exchange<E> = Transfer<Signal, u8, E>;

/// Time units that the controller needs after a byte was written.
pub const WRITE_SETTLE: u32 = 37;

/// Time units that the controller needs after a byte was read.
pub const READ_SETTLE: u32 = 37;

/// Time units that the controller needs after its address counter was read.
pub const COUNTER_SETTLE: u32 = 1;

/// The signals that bring the enable line to rest before anything else
/// happens.
pub open spec fn setup_signals() -> Seq<Signal> {
    seq![Signal::Enable(false)]
}

/// The signals that execute `command`: instruction register, write, the
/// encoded command on the bus, a pulse of the enable line, then the time
/// that the command needs.
pub open spec fn exec_signals(command: Command) -> Seq<Signal> {
    seq![
        Signal::RegisterSelect(false),
        Signal::ReadWrite(false),
        Signal::Write(encoding(command)),
        Signal::Enable(true),
        Signal::Enable(false),
        Signal::Delay(settle_time(command)),
    ]
}

/// The signals that write `value` where the address counter stands: data
/// register, write, the byte on the bus, a pulse of the enable line, then
/// 37 time units.
pub open spec fn write_signals(value: u8) -> Seq<Signal> {
    seq![
        Signal::RegisterSelect(true),
        Signal::ReadWrite(false),
        Signal::Write(value),
        Signal::Enable(true),
        Signal::Enable(false),
        Signal::Delay(WRITE_SETTLE),
    ]
}

/// The signals that read the address counter: instruction register, read, a
/// zero on the bus, the enable line high, the byte taken, the enable line
/// low, then 1 time unit.
pub open spec fn counter_signals() -> Seq<Signal> {
    seq![
        Signal::RegisterSelect(false),
        Signal::ReadWrite(true),
        Signal::Write(0),
        Signal::Enable(true),
        Signal::Read,
        Signal::Enable(false),
        Signal::Delay(COUNTER_SETTLE),
    ]
}

/// The signals that read the byte where the address counter stands: data
/// register, read, the enable line high, the byte taken, the enable line
/// low, then 37 time units.
pub open spec fn read_signals() -> Seq<Signal> {
    seq![
        Signal::RegisterSelect(true),
        Signal::ReadWrite(true),
        Signal::Enable(true),
        Signal::Read,
        Signal::Enable(false),
        Signal::Delay(READ_SETTLE),
    ]
}

/// The signals of one step of an update.
pub open spec fn operation_signals(operation: Operation) -> Seq<Signal> {
    match operation {
        Operation::Exec(command) => exec_signals(command),
        Operation::Write(value) => write_signals(value),
    }
}

/// An exchange that has not begun: its signals, and the index of its read
/// (-1 where it has none). A failed read does not stop the exchange: the
/// enable line is lowered all the same, and the error is reported at the
/// end.
pub open spec fn fresh<E>(exchange: TransferView<Signal, u8, E>, signals: Seq<Signal>, read: int) -> bool {
    &&& exchange.signals == signals
    &&& exchange.tolerated == read
    &&& exchange.steps == Seq::<ExchangeStep<E>>::empty()
    &&& !exchange.pending
}

/// What an exchange that has a read gives: its error if it has one, else
/// the byte that was read (0 where none was).
pub open spec fn received_result<E>(steps: Seq<ExchangeStep<E>>, read: int) -> Result<u8, E> {
    match run_error(steps, read) {
        Some(error) => Err(error),
        None => Ok(
            match value_at(steps, read) {
                Some(value) => value,
                None => 0,
            },
        ),
    }
}

/// The busy flag: the most significant bit of what a read of the address
/// counter gives.
pub open spec fn busy_flag(counter: u8) -> bool {
    counter & 0b1000_0000u8 != 0
}

/// The driver of the controller.
#[derive(Clone, Copy, Debug, Default)]
pub struct Driver;

impl Driver {
    /// Starts the exchange that prepares the lines: the enable line is set
    /// low, the other lines stay as they are.
    pub fn setup<E>() -> (exchange: Exchange<E>)
        ensures
            fresh(exchange@, setup_signals(), -1),
    {
        let mut signals: Vec<Signal> = Vec::new();
        signals.push(Signal::Enable(false));
        proof {
            assert(signals@ =~= setup_signals());
        }
        Transfer::new(signals, None)
    }

    /// Starts the exchange that executes `command`.
    pub fn exec<E>(command: Command) -> (exchange: Exchange<E>)
        ensures
            fresh(exchange@, exec_signals(command), -1),
    {
        let mut signals: Vec<Signal> = Vec::new();
        signals.push(Signal::RegisterSelect(false));
        signals.push(Signal::ReadWrite(false));
        signals.push(Signal::Write(command.bits()));
        signals.push(Signal::Enable(true));
        signals.push(Signal::Enable(false));
        signals.push(Signal::Delay(command.settle()));
        proof {
            assert(signals@ =~= exec_signals(command));
        }
        Transfer::new(signals, None)
    }

    /// Starts the exchange that writes `value` to the glyph memory or to the
    /// display memory, whichever the last address was set in.
    pub fn write<E>(value: u8) -> (exchange: Exchange<E>)
        ensures
            fresh(exchange@, write_signals(value), -1),
    {
        let mut signals: Vec<Signal> = Vec::new();
        signals.push(Signal::RegisterSelect(true));
        signals.push(Signal::ReadWrite(false));
        signals.push(Signal::Write(value));
        signals.push(Signal::Enable(true));
        signals.push(Signal::Enable(false));
        signals.push(Signal::Delay(WRITE_SETTLE));
        proof {
            assert(signals@ =~= write_signals(value));
        }
        Transfer::new(signals, None)
    }

    /// Starts the exchange that reads the address counter. The most
    /// significant bit of the byte is the busy flag.
    pub fn read_address_counter<E>() -> (exchange: Exchange<E>)
        ensures
            fresh(exchange@, counter_signals(), 4),
    {
        let mut signals: Vec<Signal> = Vec::new();
        signals.push(Signal::RegisterSelect(false));
        signals.push(Signal::ReadWrite(true));
        signals.push(Signal::Write(0));
        signals.push(Signal::Enable(true));
        signals.push(Signal::Read);
        signals.push(Signal::Enable(false));
        signals.push(Signal::Delay(COUNTER_SETTLE));
        proof {
            assert(signals@ =~= counter_signals());
        }
        Transfer::new(signals, Some(4))
    }

    /// Starts the exchange that reads a byte from the glyph memory or from
    /// the display memory, whichever the last address was set in.
    pub fn read<E>() -> (exchange: Exchange<E>)
        ensures
            fresh(exchange@, read_signals(), 3),
    {
        let mut signals: Vec<Signal> = Vec::new();
        signals.push(Signal::RegisterSelect(true));
        signals.push(Signal::ReadWrite(true));
        signals.push(Signal::Enable(true));
        signals.push(Signal::Read);
        signals.push(Signal::Enable(false));
        signals.push(Signal::Delay(READ_SETTLE));
        proof {
            assert(signals@ =~= read_signals());
        }
        Transfer::new(signals, Some(3))
    }

    /// Starts the exchange of one step of an update.
    pub fn perform<E>(operation: Operation) -> (exchange: Exchange<E>)
        ensures
            fresh(exchange@, operation_signals(operation), -1),
    {
        match operation {
            Operation::Exec(command) => Driver::exec(command),
            Operation::Write(value) => Driver::write(value),
        }
    }

    /// Ends an exchange that read a byte, and gives the byte, or the error
    /// of the exchange if it had one.
    pub fn received<E>(exchange: Exchange<E>) -> (result: Result<u8, E>)
        ensures
            result == received_result(exchange@.steps, exchange@.tolerated),
    {
        let value = match exchange.tolerated() {
            Some(read) => match exchange.value(read) {
                Some(value) => value,
                None => 0,
            },
            None => 0,
        };
        match exchange.finish() {
            Ok(()) => Ok(value),
            Err(error) => Err(error),
        }
    }

    /// Whether the controller was still busy with what it was asked last
    /// when its address counter was read as `counter`.
    pub fn is_busy(counter: u8) -> (busy: bool)
        ensures
            busy == busy_flag(counter),
    {
        counter & 0b1000_0000 != 0
    }

    /// Starts the exchange that clears the display.
    pub fn clear<E>() -> (exchange: Exchange<E>)
        ensures
            fresh(exchange@, exec_signals(Command::Clear()), -1),
    {
        Driver::exec(Command::Clear())
    }

    /// Starts the exchange that resets the shift and the cursor.
    pub fn return_home<E>() -> (exchange: Exchange<E>)
        ensures
            fresh(exchange@, exec_signals(Command::ReturnHome()), -1),
    {
        Driver::exec(Command::ReturnHome())
    }

    /// Starts the exchange that sets what happens after a read or a write.
    pub fn entry_mode_set<E>(cursor: Direction, display: bool) -> (exchange: Exchange<E>)
        ensures
            fresh(exchange@, exec_signals(Command::EntryMode { cursor, display }), -1),
    {
        Driver::exec(Command::EntryMode { cursor, display })
    }

    /// Starts the exchange that switches display, cursor and blinking on or
    /// off.
    pub fn onoff<E>(display: bool, cursor: bool, blink: bool) -> (exchange: Exchange<E>)
        ensures
            fresh(exchange@, exec_signals(Command::Onoff { display, cursor, blink }), -1),
    {
        Driver::exec(Command::Onoff { display, cursor, blink })
    }

    /// Starts the exchange that shifts the display or the cursor.
    pub fn shift<E>(shift: Shift) -> (exchange: Exchange<E>)
        ensures
            fresh(exchange@, exec_signals(Command::Shift(shift)), -1),
    {
        Driver::exec(Command::Shift(shift))
    }

    /// Starts the exchange that sets the functioning mode of the display.
    pub fn function_set<E>(lines: Lines, font: Font) -> (exchange: Exchange<E>)
        ensures
            fresh(exchange@, exec_signals(Command::FunctionSet { lines, font }), -1),
    {
        Driver::exec(Command::FunctionSet { lines, font })
    }

    /// Starts the exchange that points the address counter into the glyph
    /// memory.
    pub fn set_cgram_address<E>(address: u8) -> (exchange: Exchange<E>)
        ensures
            fresh(exchange@, exec_signals(Command::CgRamAddress(address)), -1),
    {
        Driver::exec(Command::CgRamAddress(address))
    }

    /// Starts the exchange that points the address counter into the display
    /// memory.
    pub fn set_ddram_address<E>(address: u8) -> (exchange: Exchange<E>)
        ensures
            fresh(exchange@, exec_signals(Command::DdRamAddress(address)), -1),
    {
        Driver::exec(Command::DdRamAddress(address))
    }
}

} // verus!
