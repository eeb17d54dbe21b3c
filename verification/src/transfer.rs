//! A conversation with the hardware, one signal at a time. The library says
//! which signal is due; whoever holds the hardware sends it and reports how
//! it ended. Nothing in here touches a line.

use vstd::prelude::*;

verus! {

/// How one signal ended.
#[derive(Debug, PartialEq, Eq)]
pub enum Outcome<V, E> {
    /// It went through and gave nothing back.
    Done,
    /// It went through and gave a value back.
    Got(V),
    /// The hardware reported an error.
    Failed(E),
}

/// One signal with the way it ended.
#[derive(Debug, PartialEq, Eq)]
pub struct Step<S, V, E> {
    pub signal: S,
    pub outcome: Outcome<V, E>,
}

/// Whether the step at `index` ends a run: it failed, and it is not the one
/// step after whose failure the run goes on.
pub open spec fn halts<S, V, E>(steps: Seq<Step<S, V, E>>, index: int, tolerated: int) -> bool {
    steps[index].outcome is Failed && index != tolerated
}

/// Whether `steps` can be the beginning of a run of `signals`: step by step
/// the signals from the first on, and nothing after a step that ends the run.
pub open spec fn is_run_start<S, V, E>(
    signals: Seq<S>,
    steps: Seq<Step<S, V, E>>,
    tolerated: int,
) -> bool {
    &&& steps.len() <= signals.len()
    &&& forall|i: int| 0 <= i < steps.len() ==> (#[trigger] steps[i]).signal == signals[i]
    &&& forall|i: int| 0 <= i < steps.len() - 1 ==> !halts(steps, i, tolerated)
}

/// Whether a run that got as far as `steps` is over: every signal was sent,
/// or the last one sent ended the run.
pub open spec fn is_over<S, V, E>(signals: Seq<S>, steps: Seq<Step<S, V, E>>, tolerated: int) -> bool {
    steps.len() >= signals.len() || (steps.len() > 0 && halts(steps, steps.len() - 1, tolerated))
}

/// Whether `steps` is a whole run of `signals`: each signal sent once and in
/// order, up to the end or up to the first step that ends the run.
pub open spec fn is_run<S, V, E>(signals: Seq<S>, steps: Seq<Step<S, V, E>>, tolerated: int) -> bool {
    is_run_start(signals, steps, tolerated) && is_over(signals, steps, tolerated)
}

/// The error that a run reports, if it has one to report: that of the step
/// that ended it, else that of the step it went on after.
pub open spec fn run_error<S, V, E>(steps: Seq<Step<S, V, E>>, tolerated: int) -> Option<E> {
    if steps.len() > 0 && halts(steps, steps.len() - 1, tolerated) {
        Some(steps.last().outcome->Failed_0)
    } else if 0 <= tolerated < steps.len() && steps[tolerated].outcome is Failed {
        Some(steps[tolerated].outcome->Failed_0)
    } else {
        None
    }
}

/// The result of a run that gives nothing back.
pub open spec fn verdict<E>(error: Option<E>) -> Result<(), E> {
    match error {
        Some(error) => Err(error),
        None => Ok(()),
    }
}

/// The value that the step at `index` gave back, if it gave one.
pub open spec fn value_at<S, V, E>(steps: Seq<Step<S, V, E>>, index: int) -> Option<V> {
    if 0 <= index < steps.len() && steps[index].outcome is Got {
        Some(steps[index].outcome->Got_0)
    } else {
        None
    }
}

/// A run without an error sent every signal, and every signal went through.
pub proof fn lemma_clean_run_is_complete<S, V, E>(
    signals: Seq<S>,
    steps: Seq<Step<S, V, E>>,
    tolerated: int,
)
    requires
        is_run(signals, steps, tolerated),
        run_error(steps, tolerated) is None,
    ensures
        steps.len() == signals.len(),
        forall|i: int| 0 <= i < steps.len() ==> !((#[trigger] steps[i]).outcome is Failed),
{
    assert forall|i: int| 0 <= i < steps.len() implies !((#[trigger] steps[i]).outcome is Failed) by {
        if i < steps.len() - 1 {
            assert(!halts(steps, i, tolerated));
        }
    }
}

/// In a run, nothing is sent after a failure other than the tolerated one:
/// such a failure is the last step.
pub proof fn lemma_failure_ends_run<S, V, E>(
    signals: Seq<S>,
    steps: Seq<Step<S, V, E>>,
    tolerated: int,
    index: int,
)
    requires
        is_run_start(signals, steps, tolerated),
        0 <= index < steps.len(),
        steps[index].outcome is Failed,
        index != tolerated,
    ensures
        index == steps.len() - 1,
        run_error(steps, tolerated) == Some(steps[index].outcome->Failed_0),
{
    if index < steps.len() - 1 {
        assert(!halts(steps, index, tolerated));
    }
}

/// What a transfer is.
pub struct TransferView<S, V, E> {
    /// The signals to send, in order.
    pub signals: Seq<S>,
    /// The index of the one signal after whose failure the transfer goes on,
    /// or -1.
    pub tolerated: int,
    /// The signals sent so far, each with the way it ended.
    pub steps: Seq<Step<S, V, E>>,
    /// Whether a signal was handed out and its outcome is not in yet.
    pub pending: bool,
}

/// The signal that is due: the next one of the program, unless the transfer
/// is over.
pub open spec fn due<S, V, E>(transfer: TransferView<S, V, E>) -> Option<S> {
    if is_over(transfer.signals, transfer.steps, transfer.tolerated) {
        None
    } else {
        Some(transfer.signals[transfer.steps.len() as int])
    }
}

/// The transfer after it was asked for the signal that is due.
pub open spec fn asked<S, V, E>(transfer: TransferView<S, V, E>) -> TransferView<S, V, E> {
    TransferView { pending: due(transfer) is Some, ..transfer }
}

/// The transfer after `outcome` was reported: it is the outcome of the
/// signal that was handed out, and dropped where none was.
pub open spec fn answered<S, V, E>(
    transfer: TransferView<S, V, E>,
    outcome: Outcome<V, E>,
) -> TransferView<S, V, E> {
    if transfer.pending && transfer.steps.len() < transfer.signals.len() {
        TransferView {
            steps: transfer.steps.push(
                Step { signal: transfer.signals[transfer.steps.len() as int], outcome },
            ),
            pending: false,
            ..transfer
        }
    } else {
        TransferView { pending: false, ..transfer }
    }
}

/// What holds of a transfer from its making on: its steps are the beginning
/// of a run, and an outcome is awaited only while the run is not over.
pub open spec fn is_sound<S, V, E>(transfer: TransferView<S, V, E>) -> bool {
    &&& is_run_start(transfer.signals, transfer.steps, transfer.tolerated)
    &&& transfer.pending ==> !is_over(transfer.signals, transfer.steps, transfer.tolerated)
}

/// Asking for the signal that is due keeps a transfer sound, and a sound
/// transfer with no signal due holds a whole run.
pub proof fn lemma_asked_is_sound<S, V, E>(transfer: TransferView<S, V, E>)
    requires
        is_sound(transfer),
    ensures
        is_sound(asked(transfer)),
        due(transfer) is None ==> is_run(transfer.signals, transfer.steps, transfer.tolerated),
{
}

/// Reporting an outcome keeps a transfer sound: a signal is never sent
/// twice, and none is sent after the step that ends the run.
pub proof fn lemma_answered_is_sound<S, V, E>(transfer: TransferView<S, V, E>, outcome: Outcome<V, E>)
    requires
        is_sound(transfer),
    ensures
        is_sound(answered(transfer, outcome)),
{
    if transfer.pending {
        let after = answered(transfer, outcome);
        assert forall|i: int| 0 <= i < after.steps.len() - 1 implies !halts(
            after.steps,
            i,
            after.tolerated,
        ) by {
            if i < transfer.steps.len() - 1 {
                assert(!halts(transfer.steps, i, transfer.tolerated));
            }
        }
    }
}

/// A run in progress: a program of signals, and what came back so far.
pub struct Transfer<S, V, E> {
    signals: Vec<S>,
    tolerated: Option<usize>,
    steps: Vec<Step<S, V, E>>,
    pending: bool,
}

impl<S, V, E> View for Transfer<S, V, E> {
    type V = TransferView<S, V, E>;

    closed spec fn view(&self) -> TransferView<S, V, E> {
        TransferView {
            signals: self.signals@,
            tolerated: match self.tolerated {
                Some(index) => index as int,
                None => -1,
            },
            steps: self.steps@,
            pending: self.pending,
        }
    }
}

impl<S: Copy, V: Copy, E> Transfer<S, V, E> {
    /// A transfer that is to send `signals` in order and to stop at the
    /// first failure; only after a failure of the signal at `tolerated` it
    /// goes on.
    pub fn new(signals: Vec<S>, tolerated: Option<usize>) -> (transfer: Self)
        ensures
            transfer@.signals == signals@,
            transfer@.tolerated == (match tolerated {
                Some(index) => index as int,
                None => -1,
            }),
            transfer@.steps == Seq::<Step<S, V, E>>::empty(),
            !transfer@.pending,
            is_sound(transfer@),
    {
        Transfer { signals, tolerated, steps: Vec::new(), pending: false }
    }

    fn over(&self) -> (over: bool)
        ensures
            over == is_over(self@.signals, self@.steps, self@.tolerated),
    {
        let sent = self.steps.len();
        if sent >= self.signals.len() {
            return true;
        }
        if sent == 0 {
            return false;
        }
        let tolerated = match self.tolerated {
            Some(index) => index == sent - 1,
            None => false,
        };
        match &self.steps[sent - 1].outcome {
            Outcome::Failed(_) => !tolerated,
            _ => false,
        }
    }

    /// The signal to send now, or nothing when the transfer is over: every
    /// signal was sent, or one failed. Until its outcome is reported the
    /// same signal is due.
    pub fn next(&mut self) -> (signal: Option<S>)
        ensures
            signal == due(old(self)@),
            final(self)@ == asked(old(self)@),
    {
        if self.over() {
            self.pending = false;
            None
        } else {
            self.pending = true;
            Some(self.signals[self.steps.len()])
        }
    }

    /// Reports how the signal that was handed out last ended. Without such a
    /// signal the report is dropped.
    pub fn answer(&mut self, outcome: Outcome<V, E>)
        ensures
            final(self)@ == answered(old(self)@, outcome),
    {
        if self.pending && self.steps.len() < self.signals.len() {
            let signal = self.signals[self.steps.len()];
            self.steps.push(Step { signal, outcome });
        }
        self.pending = false;
    }

    /// The signal that was sent as the step at `index`.
    pub fn signal(&self, index: usize) -> (signal: Option<S>)
        ensures
            signal == (if index < self@.steps.len() {
                Some(self@.steps[index as int].signal)
            } else {
                None
            }),
    {
        if index < self.steps.len() {
            Some(self.steps[index].signal)
        } else {
            None
        }
    }

    /// The value that the step at `index` gave back, if there is such a step
    /// and it gave one.
    pub fn value(&self, index: usize) -> (value: Option<V>)
        ensures
            value == value_at(self@.steps, index as int),
    {
        if index < self.steps.len() {
            match &self.steps[index].outcome {
                Outcome::Got(value) => Some(*value),
                _ => None,
            }
        } else {
            None
        }
    }

    /// Whether there is a step at `index` and it failed.
    pub fn failed(&self, index: usize) -> (failed: bool)
        ensures
            failed == (index < self@.steps.len() && self@.steps[index as int].outcome is Failed),
    {
        if index < self.steps.len() {
            match &self.steps[index].outcome {
                Outcome::Failed(_) => true,
                _ => false,
            }
        } else {
            false
        }
    }

    /// The index of the signal after whose failure the transfer goes on.
    pub fn tolerated(&self) -> (index: Option<usize>)
        ensures
            self@.tolerated == (match index {
                Some(index) => index as int,
                None => -1,
            }),
    {
        self.tolerated
    }

    /// Number of signals that were sent and answered.
    pub fn sent(&self) -> (sent: usize)
        ensures
            sent == self@.steps.len(),
    {
        self.steps.len()
    }

    /// Ends the transfer and gives its result: the error of the last step
    /// where that step stopped the run, else the error that was tolerated,
    /// else success.
    pub fn finish(self) -> (result: Result<(), E>)
        ensures
            result == verdict(run_error(self@.steps, self@.tolerated)),
    {
        let ghost steps = self@.steps;
        let ghost tolerated = self@.tolerated;
        let mut rest = self.steps;
        let total = rest.len();
        if total == 0 {
            return Ok(());
        }
        let kept: usize = match self.tolerated {
            Some(index) => index,
            None => total,
        };
        match rest.pop() {
            Some(Step { signal: _, outcome: Outcome::Failed(error) }) => {
                return Err(error);
            },
            _ => {},
        }
        assert(!halts(steps, total - 1, tolerated));
        if kept >= total - 1 {
            return Ok(());
        }
        while rest.len() > kept + 1
            invariant
                kept + 1 <= rest@.len() < total == steps.len(),
                forall|i: int| 0 <= i < rest@.len() ==> #[trigger] rest@[i] == steps[i],
            decreases rest@.len(),
        {
            rest.pop();
        }
        match rest.pop() {
            Some(Step { signal: _, outcome: Outcome::Failed(error) }) => Err(error),
            _ => Ok(()),
        }
    }
}

} // verus!
