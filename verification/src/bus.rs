//! The data bus: eight lines that together either drive a byte or sense
//! one, never both. The bus decides what is asked of the lines; it does
//! not hold them.

use crate::transfer::{run_error, verdict, Outcome, Step, Transfer};
use vstd::prelude::*;

verus! {

/// The direction that the eight lines are set up for.
#[derive(Clone, Copy, Debug, PartialEq, Eq)]
pub enum Mode {
    /// Not known: nothing was set up yet, or setting up failed.
    Uninitialized,
    /// All eight lines emit.
    DrivingOutput,
    /// All eight lines sense.
    SensingInput,
}

/// What can be asked of the data lines.
#[allow(inconsistent_fields)]
#[derive(Clone, Copy, Debug, PartialEq, Eq)]
pub enum LineSignal {
    /// Set all eight lines up to emit.
    Emit,
    /// Set all eight lines up to sense.
    Listen,
    /// Put a level on one line. The lines are numbered from the least
    /// significant bit.
    Drive { line: u8, high: bool },
    /// Sample the level of one line; the outcome holds whether it is high.
    Sense { line: u8 },
}

/// One entry of the record of the data lines.
pub type LineStep<E> = Step<LineSignal, bool, E>;

/// A run of signals on the data lines.
pub type LineTransfer<E> = Transfer<LineSignal, bool, E>;

/// Whether bit `line` of `value` is set.
pub open spec fn bit(value: u8, line: u8) -> bool {
    value & (1u8 << line) != 0
}

/// The signal that sets the lines up for `to`, where they are not set up
/// for it yet.
pub open spec fn switch_signals(from: Mode, to: Mode) -> Seq<LineSignal> {
    if from == to {
        Seq::empty()
    } else if to is DrivingOutput {
        seq![LineSignal::Emit]
    } else {
        seq![LineSignal::Listen]
    }
}

/// The signals that put `value` on the lines, from line 0 to line 7.
pub open spec fn drive_signals(value: u8) -> Seq<LineSignal> {
    Seq::new(8, |line: int| LineSignal::Drive { line: line as u8, high: bit(value, line as u8) })
}

/// The signals that sample the lines, from line 0 to line 7.
pub open spec fn sense_signals() -> Seq<LineSignal> {
    Seq::new(8, |line: int| LineSignal::Sense { line: line as u8 })
}

/// What a write asks of the lines: to emit, unless they do, then the eight
/// levels of the byte.
pub open spec fn write_signals(mode: Mode, value: u8) -> Seq<LineSignal> {
    switch_signals(mode, Mode::DrivingOutput) + drive_signals(value)
}

/// What a read asks of the lines: to sense, unless they do, then the eight
/// samples.
pub open spec fn read_signals(mode: Mode) -> Seq<LineSignal> {
    switch_signals(mode, Mode::SensingInput) + sense_signals()
}

/// The mode that a run leaves the lines in: the direction of its last
/// request to switch if that went through, unknown if it failed, and `mode`
/// where it made no such request.
pub open spec fn mode_after<E>(mode: Mode, steps: Seq<LineStep<E>>, n: int) -> Mode
    decreases n,
{
    if n <= 0 {
        mode
    } else {
        let step = steps[n - 1];
        match step.signal {
            LineSignal::Emit => if step.outcome is Failed {
                Mode::Uninitialized
            } else {
                Mode::DrivingOutput
            },
            LineSignal::Listen => if step.outcome is Failed {
                Mode::Uninitialized
            } else {
                Mode::SensingInput
            },
            _ => mode_after(mode, steps, n - 1),
        }
    }
}

/// The byte that the first `n` steps of a run sampled: bit `line` is set
/// where a sample of that line came back high.
pub open spec fn sensed_byte<E>(steps: Seq<LineStep<E>>, n: int) -> u8
    decreases n,
{
    if n <= 0 {
        0
    } else {
        let below = sensed_byte(steps, n - 1);
        let step = steps[n - 1];
        match step.signal {
            LineSignal::Sense { line } => if line < 8 && step.outcome == Outcome::<bool, E>::Got(
                true,
            ) {
                below | (1u8 << line)
            } else {
                below
            },
            _ => below,
        }
    }
}

/// What a read gives: the error of the run, else the byte it sampled.
pub open spec fn read_result<E>(steps: Seq<LineStep<E>>) -> Result<u8, E> {
    match run_error(steps, -1) {
        Some(error) => Err(error),
        None => Ok(sensed_byte(steps, steps.len() as int)),
    }
}

/// The direction of the data lines, switched only when an operation needs
/// the other one.
#[derive(Debug)]
pub struct Bus {
    mode: Mode,
}

impl View for Bus {
    type V = Mode;

    closed spec fn view(&self) -> Mode {
        self.mode
    }
}

fn switch(from: Mode, to: Mode, signals: &mut Vec<LineSignal>)
    requires
        to is DrivingOutput || to is SensingInput,
    ensures
        final(signals)@ == old(signals)@ + switch_signals(from, to),
{
    let same = match (from, to) {
        (Mode::DrivingOutput, Mode::DrivingOutput) => true,
        (Mode::SensingInput, Mode::SensingInput) => true,
        _ => false,
    };
    if !same {
        match to {
            Mode::DrivingOutput => signals.push(LineSignal::Emit),
            _ => signals.push(LineSignal::Listen),
        }
    }
    proof {
        assert(signals@ =~= old(signals)@ + switch_signals(from, to));
    }
}

impl Bus {
    /// A bus over lines of which nothing is known.
    pub fn new() -> (bus: Self)
        ensures
            bus@ == Mode::Uninitialized,
    {
        Bus { mode: Mode::Uninitialized }
    }

    /// The direction that the lines are set up for.
    pub fn mode(&self) -> (mode: Mode)
        ensures
            mode == self@,
    {
        self.mode
    }

    /// Starts setting the lines up to sense. Nothing is asked of lines that
    /// sense already.
    pub fn make_input<E>(&self) -> (transfer: LineTransfer<E>)
        ensures
            transfer@.signals == switch_signals(self@, Mode::SensingInput),
            transfer@.tolerated == -1,
            transfer@.steps == Seq::<LineStep<E>>::empty(),
            !transfer@.pending,
    {
        let mut signals: Vec<LineSignal> = Vec::new();
        switch(self.mode, Mode::SensingInput, &mut signals);
        Transfer::new(signals, None)
    }

    /// Starts setting the lines up to emit. Nothing is asked of lines that
    /// emit already.
    pub fn make_output<E>(&self) -> (transfer: LineTransfer<E>)
        ensures
            transfer@.signals == switch_signals(self@, Mode::DrivingOutput),
            transfer@.tolerated == -1,
            transfer@.steps == Seq::<LineStep<E>>::empty(),
            !transfer@.pending,
    {
        let mut signals: Vec<LineSignal> = Vec::new();
        switch(self.mode, Mode::DrivingOutput, &mut signals);
        Transfer::new(signals, None)
    }

    /// Starts a write of `value`: the lines are set up to emit first, unless
    /// they emit already, then each line gets its bit.
    pub fn write<E>(&self, value: u8) -> (transfer: LineTransfer<E>)
        ensures
            transfer@.signals == write_signals(self@, value),
            transfer@.tolerated == -1,
            transfer@.steps == Seq::<LineStep<E>>::empty(),
            !transfer@.pending,
    {
        let mut signals: Vec<LineSignal> = Vec::new();
        switch(self.mode, Mode::DrivingOutput, &mut signals);
        let ghost head = signals@;
        let mut line: u8 = 0;
        while line < 8
            invariant
                line <= 8,
                signals@ == head + drive_signals(value).take(line as int),
            decreases 8 - line,
        {
            let ghost before = signals@;
            signals.push(LineSignal::Drive { line, high: value & (1u8 << line) != 0 });
            proof {
                assert(signals@ =~= head + drive_signals(value).take(line as int + 1));
            }
            line += 1;
        }
        proof {
            assert(drive_signals(value).take(8) =~= drive_signals(value));
        }
        Transfer::new(signals, None)
    }

    /// Starts a read: the lines are set up to sense first, unless they sense
    /// already, then each line is sampled.
    pub fn read<E>(&self) -> (transfer: LineTransfer<E>)
        ensures
            transfer@.signals == read_signals(self@),
            transfer@.tolerated == -1,
            transfer@.steps == Seq::<LineStep<E>>::empty(),
            !transfer@.pending,
    {
        let mut signals: Vec<LineSignal> = Vec::new();
        switch(self.mode, Mode::SensingInput, &mut signals);
        let ghost head = signals@;
        let mut line: u8 = 0;
        while line < 8
            invariant
                line <= 8,
                signals@ == head + sense_signals().take(line as int),
            decreases 8 - line,
        {
            let ghost before = signals@;
            signals.push(LineSignal::Sense { line });
            proof {
                assert(signals@ =~= head + sense_signals().take(line as int + 1));
            }
            line += 1;
        }
        proof {
            assert(sense_signals().take(8) =~= sense_signals());
        }
        Transfer::new(signals, None)
    }

    fn settle<E>(&mut self, transfer: &LineTransfer<E>)
        ensures
            final(self)@ == mode_after(old(self)@, transfer@.steps, transfer@.steps.len() as int),
    {
        let sent = transfer.sent();
        let mut index: usize = 0;
        while index < sent
            invariant
                index <= sent == transfer@.steps.len(),
                self@ == mode_after(old(self)@, transfer@.steps, index as int),
            decreases sent - index,
        {
            match transfer.signal(index) {
                Some(LineSignal::Emit) => {
                    self.mode = if transfer.failed(index) {
                        Mode::Uninitialized
                    } else {
                        Mode::DrivingOutput
                    };
                },
                Some(LineSignal::Listen) => {
                    self.mode = if transfer.failed(index) {
                        Mode::Uninitialized
                    } else {
                        Mode::SensingInput
                    };
                },
                _ => {},
            }
            index += 1;
        }
    }

    /// Ends a read. The bus takes note of the direction that the transfer
    /// left the lines in, and gives the byte that the lines showed, or the
    /// error of the transfer if it had one.
    pub fn sensed<E>(&mut self, transfer: LineTransfer<E>) -> (result: Result<u8, E>)
        ensures
            final(self)@ == mode_after(old(self)@, transfer@.steps, transfer@.steps.len() as int),
            result == (match run_error(transfer@.steps, transfer@.tolerated) {
                Some(error) => Err(error),
                None => Ok(sensed_byte(transfer@.steps, transfer@.steps.len() as int)),
            }),
    {
        self.settle(&transfer);
        let sent = transfer.sent();
        let mut byte: u8 = 0;
        let mut index: usize = 0;
        while index < sent
            invariant
                index <= sent == transfer@.steps.len(),
                byte == sensed_byte(transfer@.steps, index as int),
            decreases sent - index,
        {
            match transfer.signal(index) {
                Some(LineSignal::Sense { line }) => {
                    let high = match transfer.value(index) {
                        Some(level) => level,
                        None => false,
                    };
                    if line < 8 && high {
                        byte = byte | (1u8 << line);
                    }
                },
                _ => {},
            }
            index += 1;
        }
        match transfer.finish() {
            Ok(()) => Ok(byte),
            Err(error) => Err(error),
        }
    }

    /// Ends a transfer that read nothing. The bus takes note of the
    /// direction that the transfer left the lines in, and hands on the
    /// error of the transfer if it had one.
    pub fn done<E>(&mut self, transfer: LineTransfer<E>) -> (result: Result<(), E>)
        ensures
            final(self)@ == mode_after(old(self)@, transfer@.steps, transfer@.steps.len() as int),
            result == verdict(run_error(transfer@.steps, transfer@.tolerated)),
    {
        self.settle(&transfer);
        transfer.finish()
    }
}


proof fn lemma_bit_set(byte: u8, line: u8, other: u8)
    by (bit_vector)
    requires
        line < 8,
        other < 8,
    ensures
        ((byte | (1u8 << line)) & (1u8 << other) != 0) == (other == line || byte & (1u8 << other)
            != 0),
        0u8 & (1u8 << other) == 0,
{
}

/// The first `n` steps of a read sampled the lines below `n - first`, where
/// `first` is the number of steps that the switch took.
proof fn lemma_sensed_upto<E>(mode: Mode, steps: Seq<LineStep<E>>, n: int, line: u8)
    requires
        steps.len() == read_signals(mode).len(),
        forall|i: int| 0 <= i < steps.len() ==> (#[trigger] steps[i]).signal == read_signals(mode)[i],
        0 <= n <= steps.len(),
        line < 8,
    ensures
        bit(sensed_byte(steps, n), line) == ({
            let first = switch_signals(mode, Mode::SensingInput).len() as int;
            first + line < n && steps[first + line].outcome == Outcome::<bool, E>::Got(true)
        }),
    decreases n,
{
    let first = switch_signals(mode, Mode::SensingInput).len() as int;
    if n <= 0 {
        lemma_bit_set(0, 0, line);
    } else {
        lemma_sensed_upto(mode, steps, n - 1, line);
        let step = steps[n - 1];
        assert(step.signal == read_signals(mode)[n - 1]);
        if n - 1 >= first {
            let sampled = (n - 1 - first) as u8;
            assert(step.signal == sense_signals()[n - 1 - first]);
            lemma_bit_set(sensed_byte(steps, n - 1), sampled, line);
        }
    }
}

/// A read that went through gives the byte that the lines showed: bit by
/// bit the levels that were sampled, line 0 in the least significant bit.
pub proof fn lemma_read_gives_levels<E>(mode: Mode, steps: Seq<LineStep<E>>, line: u8)
    requires
        crate::transfer::is_run(read_signals(mode), steps, -1),
        run_error(steps, -1) is None,
        line < 8,
    ensures
        read_result(steps) is Ok,
        bit(read_result(steps)->Ok_0, line) == (steps[switch_signals(
            mode,
            Mode::SensingInput,
        ).len() + line].outcome == Outcome::<bool, E>::Got(true)),
{
    crate::transfer::lemma_clean_run_is_complete(read_signals(mode), steps, -1);
    lemma_sensed_upto(mode, steps, steps.len() as int, line);
}

/// Whatever the bus did before, a write drives the lines only once they
/// emit and a read samples them only once they sense: the request to switch
/// comes first wherever the direction is another.
pub proof fn lemma_direction_comes_first(mode: Mode, value: u8)
    ensures
        mode != Mode::DrivingOutput ==> write_signals(mode, value)[0] == LineSignal::Emit
            && write_signals(mode, value).len() == 9,
        mode == Mode::DrivingOutput ==> write_signals(mode, value) == drive_signals(value),
        mode != Mode::SensingInput ==> read_signals(mode)[0] == LineSignal::Listen && read_signals(
            mode,
        ).len() == 9,
        mode == Mode::SensingInput ==> read_signals(mode) == sense_signals(),
{
    assert(switch_signals(mode, mode) + drive_signals(value) =~= drive_signals(value));
    assert(switch_signals(mode, mode) + sense_signals() =~= sense_signals());
}

} // verus!
