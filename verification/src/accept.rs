//! The decisions of the accept loop: what to do after each accept attempt.
//!
//! The loop itself waits on the socket, sets the socket options, sleeps and
//! spawns; after every attempt it reports an [`AcceptEvent`] and carries out
//! the [`AcceptAction`] it gets back. The lifecycle phase of the listener
//! decides with the event.

use crate::error::AcceptErrorKind;
use crate::outside::{error_kind, io_error_kind, set_nodelay, set_ttl};
use vstd::prelude::*;

verus! {

/// The pause, in milliseconds, after an accept failure that is not transient.
pub const ACCEPT_BACKOFF_MILLIS: u64 = 500;

/// Where a listener stands in its life.
#[derive(Clone, Copy, Debug, PartialEq, Eq, Structural)]
pub enum Phase {
    /// The TLS configuration has not been resolved yet.
    Configuring,
    /// The acceptor is there; the socket is not bound or no application is attached.
    Binding,
    /// The accept loop may run.
    Accepting,
    /// The stream of incoming connections has ended.
    Stopped,
    /// Startup failed, or the listener was used out of order. Nothing leads out of here.
    Fatal,
}

/// The options that are set on each accepted socket before it is served.
#[derive(Clone, Copy, Debug, PartialEq, Eq, Structural)]
pub struct SocketOptions {
    /// The no-delay flag to set, if any.
    pub nodelay: Option<bool>,
    /// The time-to-live to set, if any.
    pub ttl: Option<u32>,
}

/// What an accept attempt, or the work right after it, ended with.
#[derive(Clone, Copy, Debug, PartialEq, Eq, Structural)]
pub enum AcceptEvent {
    /// A connection was accepted, and the options of the listener were set
    /// on its socket.
    Incoming,
    /// The attempt failed with an error of this kind.
    Failed(AcceptErrorKind),
    /// A connection was accepted, and an option of the listener could not be
    /// set on its socket. This costs the one connection and nothing else.
    OptionsRejected,
    /// There will be no more connections.
    Closed,
}

/// What the accept loop does next.
#[derive(Clone, Copy, Debug, PartialEq, Eq, Structural)]
pub enum AcceptAction {
    /// Hand the accepted socket to a new handler task, and wait for the next
    /// connection without waiting for the task.
    Serve,
    /// Wait for the next connection at once.
    Retry,
    /// Report the error, pause for so many milliseconds, then wait for the
    /// next connection.
    Backoff { millis: u64 },
    /// Report the error, give the accepted connection up, and wait for the
    /// next connection at once.
    Discard,
    /// Leave the loop; the listener has stopped in good order.
    Finish,
    /// Leave the loop with an error; the listener has failed.
    Fail,
}

impl SocketOptions {
    /// Whether there is no option to set.
    pub open spec fn none(self) -> bool {
        self.nodelay is None && self.ttl is None
    }

    /// Sets the options on a socket: the no-delay flag, then the
    /// time-to-live, each where there is one. Stops at the first that cannot
    /// be set and returns its error. With no option to set it succeeds.
    pub fn apply(&self, stream: &async_std::net::TcpStream) -> (r: Result<(), std::io::Error>)
        ensures
            self.none() ==> r is Ok,
    {
        if let Some(nodelay) = self.nodelay {
            if let Err(e) = set_nodelay(stream, nodelay) {
                return Err(e);
            }
        }
        if let Some(ttl) = self.ttl {
            if let Err(e) = set_ttl(stream, ttl) {
                return Err(e);
            }
        }
        Ok(())
    }
}

impl Phase {
    /// Whether nothing leads out of this phase.
    pub open spec fn terminal(self) -> bool {
        self is Stopped || self is Fatal
    }

    /// How far along a phase is: configuring comes before binding, binding
    /// before accepting, and the two terminal phases come last.
    pub open spec fn rank(self) -> nat {
        match self {
            Phase::Configuring => 0,
            Phase::Binding => 1,
            Phase::Accepting => 2,
            Phase::Stopped => 3,
            Phase::Fatal => 3,
        }
    }

    /// Whether nothing leads out of this phase.
    pub fn is_terminal(self) -> (r: bool)
        ensures
            r == self.terminal(),
    {
        match self {
            Phase::Stopped => true,
            Phase::Fatal => true,
            _ => false,
        }
    }
}

impl AcceptEvent {
    /// The event for an accept attempt that ended with `e`.
    pub fn failed(e: &std::io::Error) -> (r: AcceptEvent)
        ensures
            r == AcceptEvent::Failed(io_error_kind(*e)),
    {
        AcceptEvent::Failed(error_kind(e))
    }
}

impl AcceptAction {
    /// Whether the loop goes on after this action.
    pub open spec fn continues(self) -> bool {
        self is Serve || self is Retry || self is Backoff || self is Discard
    }

    /// The milliseconds to pause before the next accept attempt.
    pub open spec fn delay(self) -> nat {
        match self {
            AcceptAction::Backoff { millis } => millis as nat,
            _ => 0,
        }
    }

    /// The milliseconds to pause before the next accept attempt.
    pub fn delay_millis(&self) -> (r: u64)
        ensures
            r == self.delay(),
    {
        match self {
            AcceptAction::Backoff { millis } => *millis,
            _ => 0,
        }
    }
}

/// The phase after an accept event, and what the loop does next.
///
/// While accepting: a connection is served, a transient failure is retried at
/// once, any other failure is retried after the fixed pause, and a connection
/// whose options cannot be set is given up; after each of these the listener
/// is still accepting. Only the end of the incoming stream leads on, and
/// stops the listener. A stopped listener stays stopped; in every other phase
/// an accept event is out of order and fails the listener.
pub open spec fn accept_step(phase: Phase, event: AcceptEvent) -> (
    Phase,
    AcceptAction,
) {
    match phase {
        Phase::Accepting => match event {
            AcceptEvent::Incoming => (Phase::Accepting, AcceptAction::Serve),
            AcceptEvent::Failed(kind) => if kind.transient() {
                (Phase::Accepting, AcceptAction::Retry)
            } else {
                (Phase::Accepting, AcceptAction::Backoff { millis: ACCEPT_BACKOFF_MILLIS })
            },
            AcceptEvent::OptionsRejected => (Phase::Accepting, AcceptAction::Discard),
            AcceptEvent::Closed => (Phase::Stopped, AcceptAction::Finish),
        },
        Phase::Stopped => (Phase::Stopped, AcceptAction::Finish),
        _ => (Phase::Fatal, AcceptAction::Fail),
    }
}

/// The event for a connection that was accepted: incoming where the options
/// of the listener were set on its socket, rejected where one was not.
pub open spec fn connection_event(options_set: bool) -> AcceptEvent {
    if options_set {
        AcceptEvent::Incoming
    } else {
        AcceptEvent::OptionsRejected
    }
}

/// The phase after a run of accept events.
pub open spec fn phase_after(phase: Phase, events: Seq<AcceptEvent>) -> Phase
    decreases events.len(),
{
    if events.len() == 0 {
        phase
    } else {
        accept_step(phase_after(phase, events.drop_last()), events.last()).0
    }
}

/// The actions that a run of accept events leads to, one for each event.
pub open spec fn actions_of(phase: Phase, events: Seq<AcceptEvent>) -> Seq<
    AcceptAction,
>
    decreases events.len(),
{
    if events.len() == 0 {
        Seq::empty()
    } else {
        actions_of(phase, events.drop_last()).push(
            accept_step(phase_after(phase, events.drop_last()), events.last()).1,
        )
    }
}

/// How many handler tasks a run of actions spawns.
pub open spec fn spawned(actions: Seq<AcceptAction>) -> nat
    decreases actions.len(),
{
    if actions.len() == 0 {
        0
    } else {
        spawned(actions.drop_last()) + if actions.last() is Serve {
            1nat
        } else {
            0nat
        }
    }
}

/// How many pauses a run of actions holds.
pub open spec fn pauses(actions: Seq<AcceptAction>) -> nat
    decreases actions.len(),
{
    if actions.len() == 0 {
        0
    } else {
        pauses(actions.drop_last()) + if actions.last() is Backoff {
            1nat
        } else {
            0nat
        }
    }
}

/// The milliseconds that a run of actions pauses for in all.
pub open spec fn paused_millis(actions: Seq<AcceptAction>) -> nat
    decreases actions.len(),
{
    if actions.len() == 0 {
        0
    } else {
        paused_millis(actions.drop_last()) + actions.last().delay()
    }
}

/// The events of a run of failed accept attempts, one for each error kind.
pub open spec fn failures(kinds: Seq<AcceptErrorKind>) -> Seq<AcceptEvent> {
    kinds.map_values(|kind: AcceptErrorKind| AcceptEvent::Failed(kind))
}

/// Whether every kind in the run is transient.
pub open spec fn all_transient(kinds: Seq<AcceptErrorKind>) -> bool {
    forall|i: int| 0 <= i < kinds.len() ==> (#[trigger] kinds[i]).transient()
}

/// How many kinds in the run are not transient.
pub open spec fn persistent_count(kinds: Seq<AcceptErrorKind>) -> nat
    decreases kinds.len(),
{
    if kinds.len() == 0 {
        0
    } else {
        persistent_count(kinds.drop_last()) + if kinds.last().transient() {
            0nat
        } else {
            1nat
        }
    }
}

/// Whether a run of events holds no end of the incoming stream.
pub open spec fn open_run(events: Seq<AcceptEvent>) -> bool {
    forall|i: int| 0 <= i < events.len() ==> !(#[trigger] events[i] is Closed)
}

/// How many events of a run are connections that arrived with their options
/// set.
pub open spec fn arrivals(events: Seq<AcceptEvent>) -> nat
    decreases events.len(),
{
    if events.len() == 0 {
        0
    } else {
        arrivals(events.drop_last()) + if events.last() is Incoming {
            1nat
        } else {
            0nat
        }
    }
}

/// How many events of a run are accept failures that are not transient.
pub open spec fn persistent_failures(events: Seq<AcceptEvent>) -> nat
    decreases events.len(),
{
    if events.len() == 0 {
        0
    } else {
        persistent_failures(events.drop_last()) + if events.last() matches AcceptEvent::Failed(kind)
            && !kind.transient() {
            1nat
        } else {
            0nat
        }
    }
}

/// A run of that many connections, each arrived with its options set.
pub open spec fn arrivals_only(n: nat) -> Seq<AcceptEvent> {
    Seq::new(n, |i: int| AcceptEvent::Incoming)
}

/// The phase and the action after one accept event.
pub fn step(phase: Phase, event: AcceptEvent) -> (r: (Phase, AcceptAction))
    ensures
        r == accept_step(phase, event),
{
    match phase {
        Phase::Accepting => match event {
            AcceptEvent::Incoming => (Phase::Accepting, AcceptAction::Serve),
            AcceptEvent::Failed(kind) => {
                if kind.is_transient() {
                    (Phase::Accepting, AcceptAction::Retry)
                } else {
                    (Phase::Accepting, AcceptAction::Backoff { millis: ACCEPT_BACKOFF_MILLIS })
                }
            },
            AcceptEvent::OptionsRejected => (Phase::Accepting, AcceptAction::Discard),
            AcceptEvent::Closed => (Phase::Stopped, AcceptAction::Finish),
        },
        Phase::Stopped => (Phase::Stopped, AcceptAction::Finish),
        _ => (Phase::Fatal, AcceptAction::Fail),
    }
}

/// Nothing but the end of the incoming stream ends the loop. After any run of
/// arrivals, failures and rejected options, in any order, an accepting
/// listener is still accepting, and each event was answered by itself: the
/// action for it is the one that an accepting listener gives for that event
/// alone, whatever came before. So every arrival is served, every transient
/// failure is retried at once, every other failure is paused for the fixed
/// pause, and a connection whose options were rejected is given up. As many
/// tasks are spawned as connections arrived, and the pauses are those of the
/// failures that are not transient.
pub proof fn lemma_open_run_keeps_accepting(events: Seq<AcceptEvent>)
    requires
        open_run(events),
    ensures
        phase_after(Phase::Accepting, events) == Phase::Accepting,
        actions_of(Phase::Accepting, events).len() == events.len(),
        forall|i: int|
            0 <= i < events.len() ==> (#[trigger] actions_of(Phase::Accepting, events)[i])
                == accept_step(Phase::Accepting, events[i]).1,
        forall|i: int|
            0 <= i < events.len() ==> (#[trigger] actions_of(Phase::Accepting, events)[i]).continues(),
        forall|i: int|
            0 <= i < events.len() && events[i] is Incoming ==> (#[trigger] actions_of(
                Phase::Accepting,
                events,
            )[i]) == AcceptAction::Serve,
        forall|i: int|
            0 <= i < events.len() && events[i] is OptionsRejected ==> (#[trigger] actions_of(
                Phase::Accepting,
                events,
            )[i]) == AcceptAction::Discard,
        forall|i: int|
            0 <= i < events.len() && events[i] is Failed ==> (#[trigger] actions_of(
                Phase::Accepting,
                events,
            )[i]) == if events[i]->Failed_0.transient() {
                AcceptAction::Retry
            } else {
                AcceptAction::Backoff { millis: 500 }
            },
        spawned(actions_of(Phase::Accepting, events)) == arrivals(events),
        pauses(actions_of(Phase::Accepting, events)) == persistent_failures(events),
        paused_millis(actions_of(Phase::Accepting, events)) == ACCEPT_BACKOFF_MILLIS
            * persistent_failures(events),
    decreases events.len(),
{
    if events.len() > 0 {
        let before = events.drop_last();
        lemma_open_run_keeps_accepting(before);
        lemma_counts_of_push(
            actions_of(Phase::Accepting, before),
            accept_step(Phase::Accepting, events.last()).1,
        );
        assert(ACCEPT_BACKOFF_MILLIS * (persistent_failures(before) + 1) == ACCEPT_BACKOFF_MILLIS
            * persistent_failures(before) + ACCEPT_BACKOFF_MILLIS) by (nonlinear_arith);
    }
}

/// Connections that arrive one after another are all served: that many
/// arrivals spawn that many handler tasks, none is paused for, and the
/// listener is accepting afterwards. No arrival waits for the handler of
/// another: what a handler meets is no event of the accept loop.
pub proof fn lemma_arrivals_are_all_served(n: nat)
    ensures
        phase_after(Phase::Accepting, arrivals_only(n)) == Phase::Accepting,
        actions_of(Phase::Accepting, arrivals_only(n)).len() == n,
        forall|i: int|
            0 <= i < n ==> (#[trigger] actions_of(Phase::Accepting, arrivals_only(n))[i])
                == AcceptAction::Serve,
        spawned(actions_of(Phase::Accepting, arrivals_only(n))) == n,
        pauses(actions_of(Phase::Accepting, arrivals_only(n))) == 0,
        paused_millis(actions_of(Phase::Accepting, arrivals_only(n))) == 0,
{
    let events = arrivals_only(n);
    lemma_open_run_keeps_accepting(events);
    lemma_arrivals_only_counts(n);
}

/// Failed accept attempts never end the loop: however many there are, and of
/// whatever kind, an accepting listener is still accepting after them. Only
/// the failures that are not transient are paused for, each for the fixed
/// pause, and no task is spawned.
pub proof fn lemma_failures_keep_accepting(kinds: Seq<AcceptErrorKind>)
    ensures
        phase_after(Phase::Accepting, failures(kinds)) == Phase::Accepting,
        actions_of(Phase::Accepting, failures(kinds)).len() == kinds.len(),
        spawned(actions_of(Phase::Accepting, failures(kinds))) == 0,
        pauses(actions_of(Phase::Accepting, failures(kinds))) == persistent_count(kinds),
        paused_millis(actions_of(Phase::Accepting, failures(kinds)))
            == ACCEPT_BACKOFF_MILLIS * persistent_count(kinds),
    decreases kinds.len(),
{
    let events = failures(kinds);
    if kinds.len() > 0 {
        lemma_failures_keep_accepting(kinds.drop_last());
        assert(events.drop_last() == failures(kinds.drop_last()));
        lemma_counts_of_push(
            actions_of(Phase::Accepting, events.drop_last()),
            accept_step(Phase::Accepting, events.last()).1,
        );
        assert(ACCEPT_BACKOFF_MILLIS * (persistent_count(kinds.drop_last()) + 1)
            == ACCEPT_BACKOFF_MILLIS * persistent_count(kinds.drop_last()) + ACCEPT_BACKOFF_MILLIS)
            by (nonlinear_arith);
    }
}

/// Any number of transient failures followed by one accepted connection
/// spawns exactly one handler task and pauses not once; the listener is
/// accepting afterwards.
pub proof fn lemma_transient_failures_then_success(kinds: Seq<AcceptErrorKind>)
    requires
        all_transient(kinds),
    ensures
        phase_after(Phase::Accepting, failures(kinds).push(AcceptEvent::Incoming))
            == Phase::Accepting,
        spawned(actions_of(Phase::Accepting, failures(kinds).push(AcceptEvent::Incoming)))
            == 1,
        pauses(actions_of(Phase::Accepting, failures(kinds).push(AcceptEvent::Incoming)))
            == 0,
        paused_millis(
            actions_of(Phase::Accepting, failures(kinds).push(AcceptEvent::Incoming)),
        ) == 0,
        actions_of(Phase::Accepting, failures(kinds).push(AcceptEvent::Incoming)).last()
            == AcceptAction::Serve,
{
    let events = failures(kinds).push(AcceptEvent::Incoming);
    lemma_failures_keep_accepting(kinds);
    lemma_transient_count(kinds);
    assert(events.drop_last() == failures(kinds));
    lemma_counts_of_push(
        actions_of(Phase::Accepting, failures(kinds)),
        AcceptAction::Serve,
    );
}

/// A failure that is not transient is answered with a pause of at least the
/// fixed delay, and the listener goes on accepting.
pub proof fn lemma_persistent_failure_backs_off(kind: AcceptErrorKind)
    requires
        !kind.transient(),
    ensures
        accept_step(Phase::Accepting, AcceptEvent::Failed(kind)).0 == Phase::Accepting,
        accept_step(Phase::Accepting, AcceptEvent::Failed(kind)).1.continues(),
        accept_step(Phase::Accepting, AcceptEvent::Failed(kind)).1.delay()
            >= ACCEPT_BACKOFF_MILLIS,
        ACCEPT_BACKOFF_MILLIS == 500,
{
}

/// Nothing leads out of a terminal phase: after any run of accept events a
/// stopped listener is stopped and a failed one is failed, and nothing is
/// ever served from there.
pub proof fn lemma_terminal_phase_is_absorbing(phase: Phase, events: Seq<AcceptEvent>)
    requires
        phase.terminal(),
    ensures
        phase_after(phase, events) == phase,
        spawned(actions_of(phase, events)) == 0,
    decreases events.len(),
{
    if events.len() > 0 {
        lemma_terminal_phase_is_absorbing(phase, events.drop_last());
        lemma_counts_of_push(
            actions_of(phase, events.drop_last()),
            accept_step(phase, events.last()).1,
        );
    }
}

/// Counting over a run of actions with one more action at its end.
proof fn lemma_counts_of_push(actions: Seq<AcceptAction>, action: AcceptAction)
    ensures
        spawned(actions.push(action)) == spawned(actions) + if action is Serve {
            1nat
        } else {
            0nat
        },
        pauses(actions.push(action)) == pauses(actions) + if action is Backoff {
            1nat
        } else {
            0nat
        },
        paused_millis(actions.push(action)) == paused_millis(actions) + action.delay(),
{
    assert(actions.push(action).drop_last() == actions);
}

proof fn lemma_arrivals_only_counts(n: nat)
    ensures
        arrivals(arrivals_only(n)) == n,
        persistent_failures(arrivals_only(n)) == 0,
    decreases n,
{
    if n > 0 {
        lemma_arrivals_only_counts((n - 1) as nat);
        assert(arrivals_only(n).drop_last() == arrivals_only((n - 1) as nat));
    }
}

proof fn lemma_transient_count(kinds: Seq<AcceptErrorKind>)
    requires
        all_transient(kinds),
    ensures
        persistent_count(kinds) == 0,
    decreases kinds.len(),
{
    if kinds.len() > 0 {
        lemma_transient_count(kinds.drop_last());
    }
}

} // verus!
