//! The lifecycle protocol of one launch, and its two central guarantees:
//! the terminal notification is emitted exactly once per completed run and
//! never before the child process has actually exited.
//!
//! A run begins when a launch has recorded its spawned child.  From then on
//! three things can be observed: a cancel request (which may arrive at any
//! time and any number of times), the child's exit, and the emission of the
//! terminal notification.  The executable counterpart is `Watcher`: it is
//! created once per successful launch, `finish` demands the observed exit
//! status, and consuming the watcher forbids a second emission.  This
//! module states the same discipline over whole event histories and proves
//! it invariant.

use vstd::prelude::*;

verus! {

/// One observable step in the life of a launch.
#[derive(Clone, Copy, PartialEq, Eq, Structural, Debug)]
pub enum LifecycleEvent {
    /// A cancel took the registry slot and requested termination; safe at
    /// any time, including after exit or completion.
    CancelRequested,
    /// The child process terminated and the wait call observed it.
    ChildExited,
    /// The terminal notification was emitted.
    DoneEmitted,
}

/// Where a run stands: the child is running, it has exited but the
/// terminal notification is still owed, or the run is complete.
#[derive(Clone, Copy, PartialEq, Eq, Structural, Debug)]
pub enum Phase {
    Running,
    Exited,
    Finished,
}

/// The legal transitions: a cancel never changes the phase, the child
/// exits exactly once, and the terminal notification is emitted exactly
/// once, only after the exit.  Illegal steps have no successor phase.
pub open spec fn phase_after(p: Phase, e: LifecycleEvent) -> Option<Phase> {
    match (p, e) {
        (_, LifecycleEvent::CancelRequested) => Some(p),
        (Phase::Running, LifecycleEvent::ChildExited) => Some(Phase::Exited),
        (Phase::Exited, LifecycleEvent::DoneEmitted) => Some(Phase::Finished),
        _ => None,
    }
}

/// The phase reached by a history of events, starting from `Running`;
/// `None` when the history takes an illegal step.
pub open spec fn run_phase(events: Seq<LifecycleEvent>) -> Option<Phase>
    decreases events.len(),
{
    if events.len() == 0 {
        Some(Phase::Running)
    } else {
        match run_phase(events.drop_last()) {
            Some(p) => phase_after(p, events.last()),
            None => None,
        }
    }
}

/// How many terminal notifications a history contains.
pub open spec fn count_done(events: Seq<LifecycleEvent>) -> nat
    decreases events.len(),
{
    if events.len() == 0 {
        0
    } else {
        count_done(events.drop_last()) + if events.last() is DoneEmitted {
            1nat
        } else {
            0nat
        }
    }
}

/// A history contains the child's exit.
pub open spec fn has_exit(events: Seq<LifecycleEvent>) -> bool {
    exists|j: int| 0 <= j < events.len() && events[j] is ChildExited
}

/// Every prefix of a legal history is legal.
proof fn lemma_prefix_legal(events: Seq<LifecycleEvent>)
    requires
        events.len() > 0,
        run_phase(events) is Some,
    ensures
        run_phase(events.drop_last()) is Some,
{
}

/// Exactly one terminal notification per launch: a legal history emits it
/// at most once, and has emitted it exactly once precisely when the run
/// has finished.
pub proof fn lemma_done_exactly_once(events: Seq<LifecycleEvent>)
    requires
        run_phase(events) is Some,
    ensures
        count_done(events) <= 1,
        run_phase(events) == Some(Phase::Finished) <==> count_done(events) == 1,
    decreases events.len(),
{
    if events.len() > 0 {
        lemma_prefix_legal(events);
        lemma_done_exactly_once(events.drop_last());
    }
}

/// No false-positive completion: in a legal history the terminal
/// notification never precedes the child's exit — wherever it appears, an
/// exit appears strictly earlier — and a run past `Running` has exited.
pub proof fn lemma_done_after_exit(events: Seq<LifecycleEvent>)
    requires
        run_phase(events) is Some,
    ensures
        run_phase(events) == Some(Phase::Exited) || run_phase(events) == Some(Phase::Finished)
            ==> has_exit(events),
        forall|i: int|
            0 <= i < events.len() && events[i] is DoneEmitted ==> exists|j: int|
                0 <= j < i && events[j] is ChildExited,
    decreases events.len(),
{
    if events.len() > 0 {
        let prefix = events.drop_last();
        lemma_prefix_legal(events);
        lemma_done_after_exit(prefix);
        assert(forall|i: int| 0 <= i < prefix.len() ==> events[i] == prefix[i]);
        if has_exit(prefix) {
            let j = choose|j: int| 0 <= j < prefix.len() && prefix[j] is ChildExited;
            assert(events[j] is ChildExited);
        }
        assert forall|i: int|
            0 <= i < events.len() && events[i] is DoneEmitted implies exists|j: int|
            0 <= j < i && events[j] is ChildExited by {
            if i < prefix.len() {
                let j = choose|j: int| 0 <= j < i && prefix[j] is ChildExited;
                assert(events[j] is ChildExited);
            } else {
                assert(run_phase(prefix) == Some(Phase::Exited));
                let j = choose|j: int| 0 <= j < prefix.len() && prefix[j] is ChildExited;
                assert(events[j] is ChildExited);
            }
        }
    }
}

} // verus!
