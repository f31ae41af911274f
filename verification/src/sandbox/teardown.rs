//! The teardown of an environment: it is stopped if it still runs, killed
//! if it does not stop, and removed in any case.

use vstd::prelude::*;

verus! {

/// The seconds that an environment is given to stop by itself.
pub const GRACE_PERIOD: u64 = 5;

/// What the caller reports of the action it was asked for.
#[derive(Debug, Clone, PartialEq, Eq)]
pub enum TeardownEvent {
    /// The environment was looked at; `running` says whether it still runs.
    Inspected { running: bool },
    /// The environment could not be looked at.
    InspectFailed,
    /// The environment stopped.
    Stopped,
    /// The environment did not stop in time, or could not be asked to.
    StopFailed,
    /// The environment was killed.
    Killed,
    /// The environment could not be killed.
    KillFailed(String),
    /// The environment was removed.
    Removed,
    /// The environment could not be removed.
    RemoveFailed(String),
}

/// Where a teardown stands.
#[derive(Debug, Clone, PartialEq, Eq)]
pub enum TeardownState {
    /// The environment is being looked at.
    Inspecting,
    /// The environment was asked to stop.
    Stopping,
    /// The environment is being killed.
    Killing,
    /// The environment is being removed; `failure` is what went wrong
    /// before.
    Removing { failure: Option<String> },
    /// The teardown is over.
    Done,
}

/// A `TeardownState` with its texts as sequences of characters.
pub enum TeardownStateView {
    Inspecting,
    Stopping,
    Killing,
    Removing { failure: Option<Seq<char>> },
    Done,
}

impl View for TeardownState {
    type V = TeardownStateView;

    open spec fn view(&self) -> TeardownStateView {
        match self {
            TeardownState::Inspecting => TeardownStateView::Inspecting,
            TeardownState::Stopping => TeardownStateView::Stopping,
            TeardownState::Killing => TeardownStateView::Killing,
            TeardownState::Removing { failure } => TeardownStateView::Removing {
                failure: match failure {
                    Some(message) => Some(message@),
                    None => None,
                },
            },
            TeardownState::Done => TeardownStateView::Done,
        }
    }
}

/// What the caller is asked to do next.
#[derive(Debug, Clone, PartialEq, Eq)]
pub enum TeardownAction {
    /// Look at the environment.
    Inspect,
    /// Ask the environment to stop, and wait for so many seconds.
    Stop { grace: u64 },
    /// Kill the environment.
    Kill,
    /// Remove the environment, by force if `force`.
    Remove { force: bool },
    /// The teardown is over; `failure` is what went wrong, if anything
    /// did.
    Finish { failure: Option<String> },
    /// The teardown was over before.
    Nothing,
}

/// A `TeardownAction` with its texts as sequences of characters.
pub enum TeardownActionView {
    Inspect,
    Stop { grace: u64 },
    Kill,
    Remove { force: bool },
    Finish { failure: Option<Seq<char>> },
    Nothing,
}

impl View for TeardownAction {
    type V = TeardownActionView;

    open spec fn view(&self) -> TeardownActionView {
        match self {
            TeardownAction::Inspect => TeardownActionView::Inspect,
            TeardownAction::Stop { grace } => TeardownActionView::Stop { grace: *grace },
            TeardownAction::Kill => TeardownActionView::Kill,
            TeardownAction::Remove { force } => TeardownActionView::Remove { force: *force },
            TeardownAction::Finish { failure } => TeardownActionView::Finish {
                failure: match failure {
                    Some(message) => Some(message@),
                    None => None,
                },
            },
            TeardownAction::Nothing => TeardownActionView::Nothing,
        }
    }
}

/// What is said of the environment `id` that could not be torn down for the
/// reason `detail`.
pub open spec fn failure_of(id: Seq<char>, detail: Seq<char>) -> Seq<char> {
    "Container with id "@ + id + " is going to sh*t with "@ + detail + "."@
}

/// The removal, which every teardown comes to.
pub open spec fn removing(failure: Option<Seq<char>>) -> (TeardownStateView, TeardownActionView) {
    (TeardownStateView::Removing { failure }, TeardownActionView::Remove { force: true })
}

/// The end of a teardown in which `failure` went wrong, if anything did.
pub open spec fn done(failure: Option<Seq<char>>) -> (TeardownStateView, TeardownActionView) {
    (TeardownStateView::Done, TeardownActionView::Finish { failure })
}

/// The first step of a teardown: the environment is looked at.
pub open spec fn first() -> (TeardownStateView, TeardownActionView) {
    (TeardownStateView::Inspecting, TeardownActionView::Inspect)
}

/// The step that follows `state` in the teardown of the environment `id`
/// when `event` is reported.
///
/// An environment that still runs is asked to stop and given the grace
/// period; one that does not stop is killed. After that, and also where
/// the environment could not be looked at or does not run, it is removed by
/// force. The teardown ends in the first thing that went wrong with the
/// kill or the removal. An event that does not answer the action asked for
/// counts as a failure of that action.
pub open spec fn next(id: Seq<char>, state: TeardownStateView, event: TeardownEvent) -> (
    TeardownStateView,
    TeardownActionView,
) {
    match state {
        TeardownStateView::Inspecting => match event {
            TeardownEvent::Inspected { running } => if running {
                (TeardownStateView::Stopping, TeardownActionView::Stop { grace: GRACE_PERIOD })
            } else {
                removing(None)
            },
            _ => removing(None),
        },
        TeardownStateView::Stopping => match event {
            TeardownEvent::Stopped => removing(None),
            _ => (TeardownStateView::Killing, TeardownActionView::Kill),
        },
        TeardownStateView::Killing => match event {
            TeardownEvent::Killed => removing(None),
            TeardownEvent::KillFailed(detail) => removing(Some(failure_of(id, detail@))),
            _ => removing(Some(failure_of(id, crate::sandbox::out_of_turn()))),
        },
        TeardownStateView::Removing { failure } => match event {
            TeardownEvent::Removed => done(failure),
            TeardownEvent::RemoveFailed(detail) => done(
                match failure {
                    Some(message) => Some(message),
                    None => Some(failure_of(id, detail@)),
                },
            ),
            _ => done(
                match failure {
                    Some(message) => Some(message),
                    None => Some(failure_of(id, crate::sandbox::out_of_turn())),
                },
            ),
        },
        TeardownStateView::Done => (TeardownStateView::Done, TeardownActionView::Nothing),
    }
}

/// Begins a teardown.
pub fn start() -> (step: (TeardownState, TeardownAction))
    ensures
        (step.0@, step.1@) == first(),
{
    (TeardownState::Inspecting, TeardownAction::Inspect)
}

/// What is said of the environment `id` that could not be torn down for the
/// reason `detail`.
pub fn failure(id: &str, detail: &str) -> (message: String)
    ensures
        message@ == failure_of(id@, detail@),
{
    "Container with id ".to_string().concat(id).concat(" is going to sh*t with ").concat(
        detail,
    ).concat(".")
}

/// Asks for the removal.
fn remove(failure: Option<String>) -> (step: (TeardownState, TeardownAction))
    ensures
        (step.0@, step.1@) == removing(
            match failure {
                Some(message) => Some(message@),
                None => None,
            },
        ),
{
    (TeardownState::Removing { failure }, TeardownAction::Remove { force: true })
}

/// Ends the teardown.
fn finish(failure: Option<String>) -> (step: (TeardownState, TeardownAction))
    ensures
        (step.0@, step.1@) == done(
            match failure {
                Some(message) => Some(message@),
                None => None,
            },
        ),
{
    (TeardownState::Done, TeardownAction::Finish { failure })
}

/// Takes the step that follows `state` in the teardown of the environment
/// `id` when `event` is reported.
pub fn step(id: &str, state: TeardownState, event: TeardownEvent) -> (step: (
    TeardownState,
    TeardownAction,
))
    ensures
        (step.0@, step.1@) == next(id@, state@, event),
{
    match state {
        TeardownState::Inspecting => match event {
            TeardownEvent::Inspected { running } => {
                if running {
                    (TeardownState::Stopping, TeardownAction::Stop { grace: GRACE_PERIOD })
                } else {
                    remove(None)
                }
            },
            _ => remove(None),
        },
        TeardownState::Stopping => match event {
            TeardownEvent::Stopped => remove(None),
            _ => (TeardownState::Killing, TeardownAction::Kill),
        },
        TeardownState::Killing => match event {
            TeardownEvent::Killed => remove(None),
            TeardownEvent::KillFailed(detail) => remove(Some(failure(id, detail.as_str()))),
            _ => remove(Some(failure(id, "The sandbox answered out of turn."))),
        },
        TeardownState::Removing { failure: earlier } => match event {
            TeardownEvent::Removed => finish(earlier),
            TeardownEvent::RemoveFailed(detail) => match earlier {
                Some(message) => finish(Some(message)),
                None => finish(Some(failure(id, detail.as_str()))),
            },
            _ => match earlier {
                Some(message) => finish(Some(message)),
                None => finish(Some(failure(id, "The sandbox answered out of turn."))),
            },
        },
        TeardownState::Done => (TeardownState::Done, TeardownAction::Nothing),
    }
}

/// The number of removals asked for while `events` are reported one after
/// the other, from `state` on.
pub open spec fn removals(id: Seq<char>, state: TeardownStateView, events: Seq<TeardownEvent>) -> nat
    decreases events.len(),
{
    if events.len() == 0 {
        0
    } else {
        let step = next(id, state, events[0]);
        let asked: nat = if step.1 is Remove {
            1
        } else {
            0
        };
        asked + removals(id, step.0, events.drop_first())
    }
}

/// The state that is reached from `state` when `events` are reported one
/// after the other.
pub open spec fn reached(id: Seq<char>, state: TeardownStateView, events: Seq<TeardownEvent>) -> TeardownStateView
    decreases events.len(),
{
    if events.len() == 0 {
        state
    } else {
        reached(id, next(id, state, events[0]).0, events.drop_first())
    }
}

/// The removals that are still to be asked for in `state`.
pub open spec fn removals_owed(state: TeardownStateView) -> nat {
    match state {
        TeardownStateView::Inspecting => 1,
        TeardownStateView::Stopping => 1,
        TeardownStateView::Killing => 1,
        TeardownStateView::Removing { .. } => 0,
        TeardownStateView::Done => 0,
    }
}

/// Whatever is reported, the removals asked for and those still owed add up
/// to those owed at the outset.
pub proof fn lemma_removals_balance(id: Seq<char>, state: TeardownStateView, events: Seq<TeardownEvent>)
    ensures
        removals(id, state, events) + removals_owed(reached(id, state, events)) == removals_owed(
            state,
        ),
    decreases events.len(),
{
    if events.len() > 0 {
        lemma_removals_balance(id, next(id, state, events[0]).0, events.drop_first());
    }
}

/// A teardown that has come to its end, whatever was reported on the way,
/// has asked for the removal of the environment exactly once.
pub proof fn lemma_removed_once(id: Seq<char>, events: Seq<TeardownEvent>)
    requires
        reached(id, first().0, events) is Done,
    ensures
        removals(id, first().0, events) == 1,
{
    lemma_removals_balance(id, first().0, events);
}

} // verus!
