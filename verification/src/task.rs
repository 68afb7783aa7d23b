//! The decision core of a cancellable task supervisor.
//!
//! A supervisor runs a unit of work cooperatively and streams its lifecycle
//! to an observer as [`TaskEvent`]s.  The decisions the supervisor and its
//! unit make — what to emit when the unit starts already cancelled, what to
//! emit when the body returns or faults, what a cancellation does to the
//! unit handle, and where a well-behaved observer stops reading — are pure
//! functions of plain state and are verified here.  The scheduling itself
//! (coroutines, channels, the shared atomic flag) is outside work that a
//! host program performs around these decisions.

use vstd::prelude::*;

verus! {

/// One event of a running task's outcome/progress stream.
///
/// `Data` and `Progress` may repeat any number of times; exactly one of
/// `Done`, `Cancelled`, `Error` or `Panic` ends a run.
#[derive(Debug, Clone, PartialEq)]
pub enum TaskEvent<T, E> {
    /// A data item the task sent.
    Data(T),
    /// A progress update: step reached, total steps.
    Progress(u8, u32),
    /// The task body returned normally.
    Done,
    /// The task was stopped by request or by its owner's teardown.
    Cancelled,
    /// A domain-level failure the task body itself reported.
    Error(E),
    /// The task body faulted internally; the fault was contained.
    Panic(String),
}

impl<T, E> TaskEvent<T, E> {
    /// Whether this event ends a run.
    pub open spec fn is_terminal_spec(&self) -> bool {
        match *self {
            TaskEvent::Data(_) => false,
            TaskEvent::Progress(_, _) => false,
            TaskEvent::Done => true,
            TaskEvent::Cancelled => true,
            TaskEvent::Error(_) => true,
            TaskEvent::Panic(_) => true,
        }
    }

    /// Whether this event ends a run; an observer stops reading once it
    /// sees such an event.
    pub fn is_terminal(&self) -> (b: bool)
        ensures
            b == self.is_terminal_spec(),
    {
        match self {
            TaskEvent::Data(_) => false,
            TaskEvent::Progress(_, _) => false,
            TaskEvent::Done => true,
            TaskEvent::Cancelled => true,
            TaskEvent::Error(_) => true,
            TaskEvent::Panic(_) => true,
        }
    }
}

/// What the unit emits before its body would run: a lone `Cancelled` if the
/// cancellation flag was already set, nothing otherwise.
pub fn startup_event<T, E>(cancelled: bool) -> (e: Option<TaskEvent<T, E>>)
    ensures
        cancelled ==> e == Some(TaskEvent::<T, E>::Cancelled),
        !cancelled ==> e is None,
{
    if cancelled {
        Some(TaskEvent::Cancelled)
    } else {
        None
    }
}

/// What the unit emits after its body has finished: `Panic` with the fault's
/// description if the fault boundary caught one, `Done` otherwise.
pub fn completion_event<T, E>(panicked: bool, description: String) -> (e: TaskEvent<T, E>)
    ensures
        panicked ==> e == TaskEvent::<T, E>::Panic(description),
        !panicked ==> e == TaskEvent::<T, E>::Done,
{
    if panicked {
        TaskEvent::Panic(description)
    } else {
        TaskEvent::Done
    }
}

/// The full event sequence one run of the unit emits, given whether the
/// cancellation flag was set before the body started, the events the body
/// itself sent, and how the body ended.
pub open spec fn run_events<T, E>(
    cancelled_at_start: bool,
    body_events: Seq<TaskEvent<T, E>>,
    panicked: bool,
    description: String,
) -> Seq<TaskEvent<T, E>> {
    if cancelled_at_start {
        seq![TaskEvent::<T, E>::Cancelled]
    } else if panicked {
        body_events.push(TaskEvent::<T, E>::Panic(description))
    } else {
        body_events.push(TaskEvent::<T, E>::Done)
    }
}

/// What a well-behaved observer sees of an event stream: every event up to
/// and including the first terminal one, and nothing after it.
pub open spec fn observed<T, E>(events: Seq<TaskEvent<T, E>>) -> Seq<TaskEvent<T, E>>
    decreases events.len(),
{
    if events.len() == 0 {
        Seq::<TaskEvent<T, E>>::empty()
    } else if events[0].is_terminal_spec() {
        seq![events[0]]
    } else {
        seq![events[0]] + observed(events.subrange(1, events.len() as int))
    }
}

/// Read an event stream the way a well-behaved observer does: keep every
/// event up to and including the first terminal one, drop the rest.
#[verifier::loop_isolation(false)]
pub fn observe_events<T, E>(events: Vec<TaskEvent<T, E>>) -> (obs: Vec<TaskEvent<T, E>>)
    ensures
        obs@ == observed(events@),
{
    let ghost full = events@;
    let mut rest = events;
    let mut obs: Vec<TaskEvent<T, E>> = Vec::new();
    while rest.len() > 0
        invariant
            observed(full) == obs@ + observed(rest@),
        decreases rest.len(),
    {
        let ghost rest0 = rest@;
        let e = rest.remove(0);
        proof {
            assert(rest@ == rest0.subrange(1, rest0.len() as int));
        }
        if e.is_terminal() {
            obs.push(e);
            proof {
                assert(e == rest0[0]);
                assert(observed(rest0) == seq![rest0[0]]);
                assert(obs@ =~= observed(full));
            }
            return obs;
        }
        obs.push(e);
        proof {
            assert(e == rest0[0]);
            assert(observed(rest0) == seq![rest0[0]] + observed(rest@));
            assert(obs@ + observed(rest@) =~= observed(full));
        }
    }
    proof {
        assert(rest@ =~= Seq::<TaskEvent<T, E>>::empty());
        assert(obs@ =~= observed(full));
    }
    obs
}

/// The supervisor's own control state: the cancellation flag it shares with
/// the unit, and whether it still holds the unit's handle.
///
/// The handle is consumed by the first cancellation, which — if the handle
/// was still held — also forcibly terminates the unit.  Forced termination
/// is best effort and unsafe with respect to resources the unit holds at
/// that moment; the flag is the cooperative tier the unit polls at its own
/// suspension points.
#[derive(Debug, Clone, Copy, PartialEq, Eq, Structural)]
pub struct SupervisorState {
    /// Whether cancellation has been requested.
    pub cancelled: bool,
    /// Whether the unit's handle is still held.
    pub unit_held: bool,
}

/// The state transition of a cancellation request, and whether it must be
/// accompanied by a forced termination of the unit.
pub open spec fn cancel_spec(s: SupervisorState) -> (SupervisorState, bool) {
    (SupervisorState { cancelled: true, unit_held: false }, s.unit_held)
}

impl SupervisorState {
    /// The state right after a unit is spawned: not cancelled, handle held.
    pub fn new() -> (s: Self)
        ensures
            !s.cancelled,
            s.unit_held,
    {
        Self { cancelled: false, unit_held: true }
    }

    /// Request cancellation: set the flag, release the handle, and report
    /// whether the caller must forcibly terminate the unit (it must exactly
    /// when the handle was still held).  A second call is a no-op.
    pub fn cancel(&mut self) -> (force: bool)
        ensures
            (*final(self), force) == cancel_spec(*old(self)),
            final(self).cancelled,
            !final(self).unit_held,
            force == old(self).unit_held,
    {
        let force = self.unit_held;
        self.cancelled = true;
        self.unit_held = false;
        force
    }
}

/// Cancellation is idempotent: a second request finds the flag already set
/// and the handle already gone, changes nothing, and forces nothing.
pub proof fn lemma_cancel_idempotent(s: SupervisorState)
    ensures
        cancel_spec(cancel_spec(s).0).0 == cancel_spec(s).0,
        cancel_spec(cancel_spec(s).0).1 == false,
{
}

/// A unit whose cancellation flag was set before its body started emits
/// exactly one `Cancelled` event and nothing else — in particular no `Data`
/// and no `Progress`.
pub proof fn lemma_cancelled_before_start<T, E>(
    body_events: Seq<TaskEvent<T, E>>,
    panicked: bool,
    description: String,
)
    ensures
        run_events(true, body_events, panicked, description) == seq![
            TaskEvent::<T, E>::Cancelled,
        ],
        observed(run_events(true, body_events, panicked, description)) == seq![
            TaskEvent::<T, E>::Cancelled,
        ],
{
    let run = run_events(true, body_events, panicked, description);
    assert(observed(run) == seq![TaskEvent::<T, E>::Cancelled]);
}

/// In a stream that contains a terminal event, a well-behaved observer sees
/// at least one event, the last one it sees is terminal, no earlier one is,
/// and what it sees is a prefix of the stream: nothing is observed past the
/// first terminal event.
pub proof fn lemma_observed_single_terminal<T, E>(events: Seq<TaskEvent<T, E>>)
    requires
        exists|i: int| 0 <= i < events.len() && (#[trigger] events[i]).is_terminal_spec(),
    ensures
        1 <= observed(events).len() <= events.len(),
        observed(events)[observed(events).len() - 1].is_terminal_spec(),
        forall|k: int|
            0 <= k < observed(events).len() - 1 ==> !(#[trigger] observed(events)[k]).is_terminal_spec(),
        observed(events) == events.subrange(0, observed(events).len() as int),
    decreases events.len(),
{
    if events[0].is_terminal_spec() {
        assert(observed(events) == seq![events[0]]);
        assert(observed(events) =~= events.subrange(0, 1));
    } else {
        let rest = events.subrange(1, events.len() as int);
        let i: int = choose|i: int| 0 <= i < events.len() && (#[trigger] events[i]).is_terminal_spec();
        assert(i >= 1);
        assert(rest[i - 1].is_terminal_spec());
        lemma_observed_single_terminal(rest);
        assert(observed(events) == seq![events[0]] + observed(rest));
        assert(observed(events) =~= events.subrange(0, observed(events).len() as int));
    }
}

/// Anything enqueued after a stream that already holds a terminal event is
/// never observed: a late `send` succeeds as a no-op and its data is not
/// observably delivered anywhere.
pub proof fn lemma_late_events_not_observed<T, E>(
    events: Seq<TaskEvent<T, E>>,
    late: Seq<TaskEvent<T, E>>,
)
    requires
        exists|i: int| 0 <= i < events.len() && (#[trigger] events[i]).is_terminal_spec(),
    ensures
        observed(events + late) == observed(events),
    decreases events.len(),
{
    assert((events + late)[0] == events[0]);
    if events[0].is_terminal_spec() {
        assert(observed(events + late) == seq![events[0]]);
        assert(observed(events) == seq![events[0]]);
    } else {
        let rest = events.subrange(1, events.len() as int);
        let i: int = choose|i: int| 0 <= i < events.len() && (#[trigger] events[i]).is_terminal_spec();
        assert(i >= 1);
        assert(rest[i - 1].is_terminal_spec());
        assert((events + late).subrange(1, (events + late).len() as int) =~= rest + late);
        lemma_late_events_not_observed(rest, late);
        assert(observed(events + late) == seq![events[0]] + observed(rest + late));
        assert(observed(events) == seq![events[0]] + observed(rest));
    }
}

/// Every run emits exactly one terminal event as far as a well-behaved
/// observer is concerned: the observer sees a terminal event, sees it last,
/// and sees no `Data` or `Progress` after it.
pub proof fn lemma_run_single_terminal<T, E>(
    cancelled_at_start: bool,
    body_events: Seq<TaskEvent<T, E>>,
    panicked: bool,
    description: String,
)
    ensures
        ({
            let obs = observed(run_events(cancelled_at_start, body_events, panicked, description));
            &&& obs.len() >= 1
            &&& obs[obs.len() - 1].is_terminal_spec()
            &&& forall|k: int| 0 <= k < obs.len() - 1 ==> !(#[trigger] obs[k]).is_terminal_spec()
        }),
{
    let run = run_events(cancelled_at_start, body_events, panicked, description);
    assert(run[run.len() - 1].is_terminal_spec());
    lemma_observed_single_terminal(run);
}

} // verus!
