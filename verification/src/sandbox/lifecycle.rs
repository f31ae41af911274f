//! What holds of every run in a sandbox, whatever is reported on its way.

use crate::sandbox::{Event, SandboxedChecker, Staging, StateView};
use vstd::prelude::*;

verus! {

/// Whether a run in `state` has an environment that it has not yet asked
/// to have destroyed.
pub open spec fn has_environment(state: StateView) -> bool {
    state is Created || state is Started || state is Attached
}

/// Whether a run in `state` is over.
pub open spec fn is_over(state: StateView) -> bool {
    state is Removed || state is Failed
}

/// The state that a run reaches from `state` when `events` are reported one
/// after the other.
pub open spec fn reached(
    checker: SandboxedChecker,
    staging: Staging,
    state: StateView,
    events: Seq<Event>,
) -> StateView
    decreases events.len(),
{
    if events.len() == 0 {
        state
    } else {
        reached(checker, staging, checker.next(staging, state, events[0]).0, events.drop_first())
    }
}

/// The number of times that an environment is asked to be destroyed while
/// `events` are reported one after the other, from `state` on.
pub open spec fn destroys(
    checker: SandboxedChecker,
    staging: Staging,
    state: StateView,
    events: Seq<Event>,
) -> nat
    decreases events.len(),
{
    if events.len() == 0 {
        0
    } else {
        let step = checker.next(staging, state, events[0]);
        let asked: nat = if step.1 is Destroy {
            1
        } else {
            0
        };
        asked + destroys(checker, staging, step.0, events.drop_first())
    }
}

/// The number of environments that come to be while `events` are reported
/// one after the other, from `state` on.
pub open spec fn creations(
    checker: SandboxedChecker,
    staging: Staging,
    state: StateView,
    events: Seq<Event>,
) -> nat
    decreases events.len(),
{
    if events.len() == 0 {
        0
    } else {
        let step = checker.next(staging, state, events[0]);
        let made: nat = if !has_environment(state) && has_environment(step.0) {
            1
        } else {
            0
        };
        made + creations(checker, staging, step.0, events.drop_first())
    }
}

/// The environments that a run in `state` still has to have destroyed.
pub open spec fn owed(state: StateView) -> nat {
    if has_environment(state) {
        1
    } else {
        0
    }
}

/// Whatever is reported, the environments destroyed and those still to be
/// destroyed add up to those there were at the outset and those that came
/// to be since.
pub proof fn lemma_destroys_balance(
    checker: SandboxedChecker,
    staging: Staging,
    state: StateView,
    events: Seq<Event>,
)
    ensures
        destroys(checker, staging, state, events) + owed(reached(checker, staging, state, events))
            == owed(state) + creations(checker, staging, state, events),
    decreases events.len(),
{
    if events.len() > 0 {
        lemma_destroys_balance(
            checker,
            staging,
            checker.next(staging, state, events[0]).0,
            events.drop_first(),
        );
    }
}

/// Once a run has an environment, none comes to be any more.
pub proof fn lemma_no_second_environment(
    checker: SandboxedChecker,
    staging: Staging,
    state: StateView,
    events: Seq<Event>,
)
    requires
        !(state is Creating || state is Pulling),
    ensures
        creations(checker, staging, state, events) == 0,
    decreases events.len(),
{
    if events.len() > 0 {
        lemma_no_second_environment(
            checker,
            staging,
            checker.next(staging, state, events[0]).0,
            events.drop_first(),
        );
    }
}

/// A run that has an environment and comes to its end has asked for the
/// environment to be destroyed exactly once on the way, whether the
/// staging, the start or the reading of the result failed or not.
pub proof fn lemma_destroyed_once(
    checker: SandboxedChecker,
    staging: Staging,
    state: StateView,
    events: Seq<Event>,
)
    requires
        has_environment(state),
        is_over(reached(checker, staging, state, events)),
    ensures
        destroys(checker, staging, state, events) == 1,
{
    lemma_destroys_balance(checker, staging, state, events);
    lemma_no_second_environment(checker, staging, state, events);
}

/// At no point of a run has more than one destruction been asked for, and
/// none as long as there was no environment.
pub proof fn lemma_destroyed_at_most_once(
    checker: SandboxedChecker,
    staging: Staging,
    state: StateView,
    events: Seq<Event>,
)
    ensures
        destroys(checker, staging, state, events) <= 1,
        destroys(checker, staging, state, events) <= owed(state) + creations(
            checker,
            staging,
            state,
            events,
        ),
        creations(checker, staging, state, events) <= 1,
        has_environment(state) ==> creations(checker, staging, state, events) == 0,
    decreases events.len(),
{
    lemma_destroys_balance(checker, staging, state, events);
    if events.len() > 0 {
        let after = checker.next(staging, state, events[0]).0;
        lemma_destroyed_at_most_once(checker, staging, after, events.drop_first());
        if !(state is Creating || state is Pulling) {
            lemma_no_second_environment(checker, staging, state, events);
        }
        if has_environment(after) {
            lemma_no_second_environment(checker, staging, after, events.drop_first());
        }
    }
}

/// A whole run that comes to its end has asked for a destruction once if
/// an environment was created on its way, and never if none was.
pub proof fn lemma_run_destroys_what_it_creates(
    checker: SandboxedChecker,
    staging: Staging,
    events: Seq<Event>,
)
    requires
        is_over(reached(checker, staging, checker.first().0, events)),
    ensures
        destroys(checker, staging, checker.first().0, events) == creations(
            checker,
            staging,
            checker.first().0,
            events,
        ),
        creations(checker, staging, checker.first().0, events) <= 1,
{
    lemma_destroys_balance(checker, staging, checker.first().0, events);
    lemma_destroyed_at_most_once(checker, staging, checker.first().0, events);
}

/// The steps that a run in `state` can still take at most.
pub open spec fn steps_left(staging: Staging, state: StateView) -> nat {
    match state {
        StateView::Creating { retried } => if retried {
            (staging.total() + 4) as nat
        } else {
            (staging.total() + 6) as nat
        },
        StateView::Pulling { .. } => (staging.total() + 5) as nat,
        StateView::Created { copied, .. } => if copied < staging.total() {
            (staging.total() - copied + 3) as nat
        } else {
            4
        },
        StateView::Started { .. } => 3,
        StateView::Attached { .. } => 2,
        StateView::Finished { .. } => 1,
        StateView::Removed => 0,
        StateView::Failed => 0,
    }
}

/// Every step of a run that is not over brings its end nearer: a run takes
/// no more steps than there are files to copy, and six more.
pub proof fn lemma_step_brings_end_nearer(
    checker: SandboxedChecker,
    staging: Staging,
    state: StateView,
    event: Event,
)
    requires
        !is_over(state),
        staging.total() <= usize::MAX,
    ensures
        steps_left(staging, checker.next(staging, state, event).0) < steps_left(staging, state),
        steps_left(staging, checker.first().0) == staging.total() + 6,
{
}

} // verus!
