//! Process supervision: the race between a single-use shutdown trigger and
//! the child's natural exit, as a state machine.
//!
//! The supervisor spawns a child and then waits on two futures at once: the
//! shutdown channel and the child's exit. Exactly one of the two paths may
//! produce the final result. The waiting itself happens outside this module;
//! the machine here is fed each observed event in turn and answers with the
//! one action the supervisor must take next, so that the forced-kill path and
//! the natural-exit path are provably exclusive and the completion resolves
//! exactly once.
//!
//! The exit status is carried through as an opaque value of type `S`; the
//! machine never inspects it.

use vstd::prelude::*;

use crate::Error;

verus! {

/// Where the supervision of one child stands.
pub enum Phase<S> {
    /// Child running; racing the shutdown channel against natural exit.
    Racing,
    /// The shutdown trigger fired first; a forced kill must be issued.
    Killing,
    /// The kill succeeded; the child's post-kill exit status is awaited.
    Reaping,
    /// Supervision over: the one final result.
    Done(Result<S, Error>),
}

/// One observation made while supervising the child.
pub enum Event<S> {
    /// The shutdown trigger was fired (won the race against natural exit).
    ShutdownFired,
    /// The shutdown channel closed without ever being fired.
    ShutdownDropped,
    /// The child exited on its own with this status (won the race).
    Exited(S),
    /// Waiting on the child's exit failed while the race was still on.
    ExitErr,
    /// The forced kill was issued and succeeded.
    KillOk,
    /// The forced kill failed.
    KillErr,
    /// The post-kill wait yielded this exit status.
    Reaped(S),
    /// The post-kill wait failed.
    ReapErr,
}

/// What the supervisor must do next.
pub enum Action {
    /// Issue a forced kill to the child.
    Kill,
    /// Await the child's exit status.
    WaitChild,
    /// Supervision is over; resolve the completion handle.
    Finish,
}

/// Which events can be observed in a phase: the race delivers exactly one of
/// its outcomes, a kill report follows only an issued kill, and a
/// post-kill status follows only a successful kill. Nothing is observed once
/// supervision is done.
pub open spec fn phase_accepts<S>(p: Phase<S>, ev: Event<S>) -> bool {
    match p {
        Phase::Racing => ev is ShutdownFired || ev is ShutdownDropped || ev is Exited
            || ev is ExitErr,
        Phase::Killing => ev is KillOk || ev is KillErr,
        Phase::Reaping => ev is Reaped || ev is ReapErr,
        Phase::Done(_) => false,
    }
}

/// The transition itself: next phase and action for a phase and an event.
pub open spec fn step_spec<S>(p: Phase<S>, ev: Event<S>) -> (Phase<S>, Action) {
    match (p, ev) {
        (Phase::Racing, Event::ShutdownFired) => (Phase::Killing, Action::Kill),
        (Phase::Racing, Event::ShutdownDropped) => (
            Phase::Done(Err(Error::ShutdownChannelClosed)),
            Action::Finish,
        ),
        (Phase::Racing, Event::Exited(s)) => (Phase::Done(Ok(s)), Action::Finish),
        (Phase::Racing, Event::ExitErr) => (Phase::Done(Err(Error::WaitFailed)), Action::Finish),
        (Phase::Killing, Event::KillOk) => (Phase::Reaping, Action::WaitChild),
        (Phase::Killing, Event::KillErr) => (Phase::Done(Err(Error::KillFailed)), Action::Finish),
        (Phase::Reaping, Event::Reaped(s)) => (Phase::Done(Ok(s)), Action::Finish),
        (Phase::Reaping, Event::ReapErr) => (Phase::Done(Err(Error::WaitFailed)), Action::Finish),
        (p, _) => (p, Action::Finish),
    }
}

impl<S> Phase<S> {
    /// Feed one observed event to the machine; returns the next phase and the
    /// action the supervisor must take.
    pub fn step(self, ev: Event<S>) -> (r: (Phase<S>, Action))
        requires
            phase_accepts(self, ev),
        ensures
            r == step_spec(self, ev),
    {
        match (self, ev) {
            (Phase::Racing, Event::ShutdownFired) => (Phase::Killing, Action::Kill),
            (Phase::Racing, Event::ShutdownDropped) => (
                Phase::Done(Err(Error::ShutdownChannelClosed)),
                Action::Finish,
            ),
            (Phase::Racing, Event::Exited(s)) => (Phase::Done(Ok(s)), Action::Finish),
            (Phase::Racing, Event::ExitErr) => (
                Phase::Done(Err(Error::WaitFailed)),
                Action::Finish,
            ),
            (Phase::Killing, Event::KillOk) => (Phase::Reaping, Action::WaitChild),
            (Phase::Killing, Event::KillErr) => (
                Phase::Done(Err(Error::KillFailed)),
                Action::Finish,
            ),
            (Phase::Reaping, Event::Reaped(s)) => (Phase::Done(Ok(s)), Action::Finish),
            (Phase::Reaping, Event::ReapErr) => (
                Phase::Done(Err(Error::WaitFailed)),
                Action::Finish,
            ),
            (p, _) => (p, Action::Finish),
        }
    }
}

/// A whole supervision run: the phase after feeding the events in order,
/// starting from the racing phase.
pub open spec fn run<S>(events: Seq<Event<S>>) -> Phase<S>
    decreases events.len(),
{
    if events.len() == 0 {
        Phase::Racing
    } else {
        step_spec(run(events.drop_last()), events.last()).0
    }
}

/// A trace is valid when each event is one its phase accepts.
pub open spec fn valid_trace<S>(events: Seq<Event<S>>) -> bool
    decreases events.len(),
{
    if events.len() == 0 {
        true
    } else {
        valid_trace(events.drop_last()) && phase_accepts(
            run(events.drop_last()),
            events.last(),
        )
    }
}

/// The natural-exit path: a child exit observed in the race ends supervision
/// at once, with that very status and with no kill issued.
pub proof fn lemma_natural_exit<S>(events: Seq<Event<S>>, s: S)
    requires
        valid_trace(events),
        events =~= seq![Event::Exited(s)],
    ensures
        run(events) == Phase::<S>::Done(Ok(s)),
        step_spec(Phase::<S>::Racing, Event::Exited(s)).1 is Finish,
{
    assert(events.drop_last() =~= Seq::<Event<S>>::empty());
}

/// The forced-kill path: firing the shutdown trigger before natural exit
/// always kills the child, and the post-kill status is the final result.
pub proof fn lemma_forced_kill<S>(events: Seq<Event<S>>, s: S)
    requires
        valid_trace(events),
        events =~= seq![Event::<S>::ShutdownFired, Event::<S>::KillOk, Event::Reaped(s)],
    ensures
        run(events) == Phase::<S>::Done(Ok(s)),
        step_spec(Phase::<S>::Racing, Event::<S>::ShutdownFired).1 is Kill,
{
    reveal_with_fuel(run, 4);
    let e1 = events.drop_last();
    let e0 = e1.drop_last();
    assert(e1 =~= seq![Event::<S>::ShutdownFired, Event::<S>::KillOk]);
    assert(e0 =~= seq![Event::<S>::ShutdownFired]);
    assert(e0.drop_last() =~= Seq::<Event<S>>::empty());
    assert(run(e0) == Phase::<S>::Killing);
    assert(run(e1) == Phase::<S>::Reaping);
}

/// The race runs once: no valid trace returns to the racing phase.
pub proof fn lemma_race_runs_once<S>(events: Seq<Event<S>>)
    requires
        valid_trace(events),
        events.len() > 0,
    ensures
        !(run(events) is Racing),
{
    let prior = events.drop_last();
    assert(phase_accepts(run(prior), events.last()));
    assert(run(events) == step_spec(run(prior), events.last()).0);
}

/// Exactly one termination path. Any valid trace that ends supervision with
/// an exit status took one of exactly two shapes: the single natural-exit
/// event, or the shutdown-kill-reap sequence — never both paths.
pub proof fn lemma_exclusive_paths<S>(events: Seq<Event<S>>, s: S)
    requires
        valid_trace(events),
        run(events) == Phase::<S>::Done(Ok(s)),
    ensures
        events =~= seq![Event::Exited(s)] || events =~= seq![
            Event::<S>::ShutdownFired,
            Event::<S>::KillOk,
            Event::Reaped(s),
        ],
{
    reveal_with_fuel(run, 5);
    reveal_with_fuel(valid_trace, 5);
    if events.len() == 0 {
        assert(run(events) == Phase::<S>::Racing);
    }
    let last = events.last();
    let prior = events.drop_last();
    assert(phase_accepts(run(prior), last));
    assert(run(events) == step_spec(run(prior), last).0);
    // Only the racing phase (on natural exit) and the reaping phase (on the
    // post-kill status) step to a successful end.
    if run(prior) is Racing {
        if prior.len() > 0 {
            lemma_race_runs_once::<S>(prior);
        }
        assert(last == Event::Exited(s));
        assert(events =~= seq![Event::Exited(s)]);
    } else {
        assert(run(prior) is Reaping);
        assert(last == Event::Reaped(s));
        // Only a successful kill reaches the reaping phase, and only a fired
        // shutdown trigger reaches the killing phase.
        if prior.len() == 0 {
            assert(run(prior) == Phase::<S>::Racing);
        }
        let prior1 = prior.drop_last();
        assert(phase_accepts(run(prior1), prior.last()));
        assert(run(prior) == step_spec(run(prior1), prior.last()).0);
        assert(run(prior1) is Killing && prior.last() == Event::<S>::KillOk);
        if prior1.len() == 0 {
            assert(run(prior1) == Phase::<S>::Racing);
        }
        let prior2 = prior1.drop_last();
        assert(phase_accepts(run(prior2), prior1.last()));
        assert(run(prior1) == step_spec(run(prior2), prior1.last()).0);
        assert(run(prior2) is Racing && prior1.last() == Event::<S>::ShutdownFired);
        if prior2.len() > 0 {
            lemma_race_runs_once::<S>(prior2);
        }
        assert(events =~= seq![
            Event::<S>::ShutdownFired,
            Event::<S>::KillOk,
            Event::Reaped(s),
        ]);
    }
}

/// The completion resolves exactly once: a valid trace never steps out of the
/// done phase, because the done phase accepts no further event.
pub proof fn lemma_done_is_terminal<S>(events: Seq<Event<S>>)
    requires
        valid_trace(events),
        events.len() > 0,
    ensures
        !(run(events.drop_last()) is Done),
{
}

} // verus!
