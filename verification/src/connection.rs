//! One iteration of the loop that keeps the presence in step with the calendar.
//!
//! An iteration looks at the event in progress, decides which status to push,
//! if any, and how long to wait. The caller pushes the status, reports
//! whether the service accepted it, and waits.

use crate::calendar::{Event, EventView};
use crate::config::{
    config_view, default_of, default_status, map_event_to_status, status_for, Config, ConfigView,
};
use crate::status::{Status, StatusView};
use crate::time::{
    idle_interval, idle_sleep, longest_wait, sleep_until, wait_until, Instant, SleepDuration,
};
use vstd::prelude::*;

verus! {

/// What the loop remembers from one iteration to the next: whether the status
/// that the service shows is the default one.
#[derive(Debug, Clone, Copy, PartialEq, Eq, Structural)]
pub struct ReconciliationState {
    pub last_status_was_default: bool,
}

impl ReconciliationState {
    /// The state at the start of a loop: nothing is known of the status shown.
    pub fn new() -> (state: Self)
        ensures
            !state.last_status_was_default,
    {
        ReconciliationState { last_status_was_default: false }
    }
}

/// What one iteration decides.
#[derive(Debug)]
pub struct Step {
    /// The status to push, if one is to be pushed.
    pub push: Option<Status>,
    /// The state to go on with once the service has accepted the push, or at
    /// once where nothing is pushed.
    pub next: ReconciliationState,
    /// How long to wait before the next iteration. `None`: there is no next one.
    pub wait: Option<SleepDuration>,
}

/// What a [`Step`] holds, with the status as plain texts.
pub struct StepView {
    pub push: Option<StatusView>,
    pub next: ReconciliationState,
    pub wait: Option<SleepDuration>,
}

impl View for Step {
    type V = StepView;

    open spec fn view(&self) -> StepView {
        StepView {
            push: match self.push {
                Some(status) => Some(status@),
                None => None,
            },
            next: self.next,
            wait: self.wait,
        }
    }
}

/// The wait after an iteration: `wait` in a loop that repeats, none in a
/// single run.
pub open spec fn wait_if(repeat: bool, wait: SleepDuration) -> Option<SleepDuration> {
    if repeat {
        Some(wait)
    } else {
        None
    }
}

/// What an iteration decides.
///
/// With an event in progress its status is pushed, whatever was pushed
/// before, the service then shows no default, and the wait lasts until the
/// event ends. With none in progress the default status is pushed unless the
/// service shows it already, and the wait is the idle interval.
pub open spec fn planned(
    repeat: bool,
    state: ReconciliationState,
    event: Option<EventView>,
    now: Instant,
    config: Option<ConfigView>,
) -> StepView {
    match event {
        Some(e) => StepView {
            push: Some(status_for(config, e.title)),
            next: ReconciliationState { last_status_was_default: false },
            wait: wait_if(repeat, wait_until(e.end, now)),
        },
        None => if state.last_status_was_default {
            StepView { push: None, next: state, wait: wait_if(repeat, idle_interval()) }
        } else {
            StepView {
                push: Some(default_of(config)),
                next: ReconciliationState { last_status_was_default: true },
                wait: wait_if(repeat, idle_interval()),
            }
        },
    }
}

/// The state after an iteration: that of the step where nothing was pushed or
/// the push was accepted, the old one where the push was rejected, so that the
/// next iteration tries again.
pub open spec fn settled(state: ReconciliationState, step: StepView, accepted: bool)
    -> ReconciliationState {
    if step.push is None || accepted {
        step.next
    } else {
        state
    }
}

/// The event behind an optional reference, with the title as plain text.
pub open spec fn event_view(event: Option<&Event>) -> Option<EventView> {
    match event {
        Some(e) => Some(e@),
        None => None,
    }
}

/// Decides one iteration: what to push and how long to wait.
///
/// `event` is the event in progress, `now` the current time, `config` the
/// configuration as it stands now, or `None` where it could not be had.
/// `repeat` says whether the loop goes on after this iteration.
pub fn event_to_discord_status(
    repeat: bool,
    state: &ReconciliationState,
    event: Option<&Event>,
    now: &Instant,
    config: Option<&Config>,
) -> (step: Step)
    ensures
        step@ == planned(repeat, *state, event_view(event), *now, config_view(config)),
{
    let (push, next, wait) = match event {
        Some(e) => (
            Some(map_event_to_status(config, e.title.as_str())),
            ReconciliationState { last_status_was_default: false },
            sleep_until(&e.end, now),
        ),
        None => if state.last_status_was_default {
            (None, *state, idle_sleep())
        } else {
            (
                Some(default_status(config)),
                ReconciliationState { last_status_was_default: true },
                idle_sleep(),
            )
        },
    };
    Step { push, next, wait: if repeat { Some(wait) } else { None } }
}

/// Takes note of how the push of a step ended. `accepted` says whether the
/// service took the status; it is not looked at where nothing was pushed.
pub fn settle(state: &mut ReconciliationState, step: &Step, accepted: bool)
    ensures
        *final(state) == settled(*old(state), step@, accepted),
{
    if step.push.is_none() || accepted {
        *state = step.next;
    }
}

/// With an event in progress whose end lies ahead, a loop that repeats waits
/// until the event ends, provided that a wait can hold the time until then.
pub proof fn lemma_waits_until_event_ends(
    state: ReconciliationState,
    event: EventView,
    now: Instant,
    config: Option<ConfigView>,
)
    requires
        now.before(event.end),
        event.end.since_epoch() - now.since_epoch() <= longest_wait(),
    ensures
        planned(true, state, Some(event), now, config).wait matches Some(wait) && wait.length()
            == event.end.since_epoch() - now.since_epoch(),
{
}

/// With an event that has ended already, a loop that repeats waits for the
/// idle interval.
pub proof fn lemma_waits_idle_after_event_end(
    state: ReconciliationState,
    event: EventView,
    now: Instant,
    config: Option<ConfigView>,
)
    requires
        !now.before(event.end),
    ensures
        planned(true, state, Some(event), now, config).wait == Some(idle_interval()),
{
}

/// Whatever an iteration meets, a loop that repeats waits for a time that is
/// not empty, and a single run does not wait.
pub proof fn lemma_wait_never_empty(
    repeat: bool,
    state: ReconciliationState,
    event: Option<EventView>,
    now: Instant,
    config: Option<ConfigView>,
)
    ensures
        match planned(repeat, state, event, now, config).wait {
            Some(wait) => repeat && wait.well_formed() && wait.length() > 0,
            None => !repeat,
        },
{
}

/// What one iteration of a loop meets: the event in progress, the time, the
/// configuration as it stands, and whether the service accepts a status
/// should one be pushed.
pub struct Tick {
    pub event: Option<EventView>,
    pub now: Instant,
    pub config: Option<ConfigView>,
    pub accepted: bool,
}

/// The state of a loop that started in `state` and has met `ticks`.
pub open spec fn state_after(state: ReconciliationState, ticks: Seq<Tick>) -> ReconciliationState
    decreases ticks.len(),
{
    if ticks.len() == 0 {
        state
    } else {
        let before = state_after(state, ticks.drop_last());
        let tick = ticks.last();
        settled(before, planned(true, before, tick.event, tick.now, tick.config), tick.accepted)
    }
}

/// What the iteration at position `i` of a loop decides.
pub open spec fn step_at(state: ReconciliationState, ticks: Seq<Tick>, i: int) -> StepView {
    planned(true, state_after(state, ticks.take(i)), ticks[i].event, ticks[i].now, ticks[i].config)
}

/// The iteration at position `i` pushes the default status.
pub open spec fn pushes_default_at(state: ReconciliationState, ticks: Seq<Tick>, i: int) -> bool {
    ticks[i].event is None && step_at(state, ticks, i).push is Some
}

/// How often the loop pushes the default status while it meets `ticks`.
pub open spec fn default_pushes(state: ReconciliationState, ticks: Seq<Tick>) -> nat
    decreases ticks.len(),
{
    if ticks.len() == 0 {
        0
    } else {
        let before = default_pushes(state, ticks.drop_last());
        if pushes_default_at(state, ticks, ticks.len() - 1) {
            before + 1
        } else {
            before
        }
    }
}

/// How often the service accepts the default status while the loop meets
/// `ticks`.
pub open spec fn accepted_default_pushes(state: ReconciliationState, ticks: Seq<Tick>) -> nat
    decreases ticks.len(),
{
    if ticks.len() == 0 {
        0
    } else {
        let before = accepted_default_pushes(state, ticks.drop_last());
        if pushes_default_at(state, ticks, ticks.len() - 1) && ticks.last().accepted {
            before + 1
        } else {
            before
        }
    }
}

/// No event is in progress at any of `ticks`.
pub open spec fn all_idle(ticks: Seq<Tick>) -> bool {
    forall|i: int| 0 <= i < ticks.len() ==> (#[trigger] ticks[i]).event is None
}

/// The service accepts whatever is pushed at any of `ticks`.
pub open spec fn all_accepted(ticks: Seq<Tick>) -> bool {
    forall|i: int| 0 <= i < ticks.len() ==> (#[trigger] ticks[i]).accepted
}

/// Each iteration pushes at most one status, and an iteration with an event
/// in progress always pushes one.
pub proof fn lemma_event_is_always_pushed(
    repeat: bool,
    state: ReconciliationState,
    event: EventView,
    now: Instant,
    config: Option<ConfigView>,
)
    ensures
        planned(repeat, state, Some(event), now, config).push == Some(
            status_for(config, event.title),
        ),
        !planned(repeat, state, Some(event), now, config).next.last_status_was_default,
{
}

/// No redundant default: over iterations without an event, with a service
/// that accepts what is pushed, the default status is pushed once at most:
/// once where the loop starts without the default shown and meets at least
/// one iteration, else never.
pub proof fn lemma_default_pushed_once(state: ReconciliationState, ticks: Seq<Tick>)
    requires
        all_idle(ticks),
        all_accepted(ticks),
    ensures
        default_pushes(state, ticks) <= 1,
        default_pushes(state, ticks) == if state.last_status_was_default || ticks.len() == 0 {
            0nat
        } else {
            1nat
        },
        state_after(state, ticks).last_status_was_default == (state.last_status_was_default
            || ticks.len() > 0),
    decreases ticks.len(),
{
    if ticks.len() > 0 {
        let earlier = ticks.drop_last();
        lemma_default_pushed_once(state, earlier);
        assert(ticks.take(ticks.len() - 1) =~= earlier);
        assert(ticks[ticks.len() - 1].event is None);
        assert(ticks[ticks.len() - 1].accepted);
    }
}

/// Over iterations without an event, the service accepts the default status
/// once at most, whether it rejects some pushes or not; and once it has
/// accepted it, the loop does not push.
pub proof fn lemma_default_accepted_once(state: ReconciliationState, ticks: Seq<Tick>)
    requires
        all_idle(ticks),
    ensures
        accepted_default_pushes(state, ticks) <= 1,
        accepted_default_pushes(state, ticks) == 1 ==> state_after(
            state,
            ticks,
        ).last_status_was_default,
        state.last_status_was_default ==> default_pushes(state, ticks) == 0 && state_after(
            state,
            ticks,
        ).last_status_was_default,
    decreases ticks.len(),
{
    if ticks.len() > 0 {
        let earlier = ticks.drop_last();
        lemma_default_accepted_once(state, earlier);
        assert(ticks.take(ticks.len() - 1) =~= earlier);
        assert(ticks[ticks.len() - 1].event is None);
    }
}

/// The default status is not accepted twice in a row: between two iterations
/// at which the service accepts the default status lies one at which it
/// accepts the status of an event.
pub proof fn lemma_no_default_twice_in_a_row(
    state: ReconciliationState,
    ticks: Seq<Tick>,
    i: int,
    j: int,
)
    requires
        0 <= i < j < ticks.len(),
        pushes_default_at(state, ticks, i),
        ticks[i].accepted,
        pushes_default_at(state, ticks, j),
    ensures
        exists|k: int| i < k < j && (#[trigger] ticks[k]).event is Some && ticks[k].accepted,
{
    if !exists|k: int| i < k < j && (#[trigger] ticks[k]).event is Some && ticks[k].accepted {
        lemma_default_stays_shown(state, ticks, i, j);
    }
}

/// Once the service has accepted the default status, the loop knows that it
/// is shown until the service accepts the status of an event.
proof fn lemma_default_stays_shown(state: ReconciliationState, ticks: Seq<Tick>, i: int, j: int)
    requires
        0 <= i < j <= ticks.len(),
        pushes_default_at(state, ticks, i),
        ticks[i].accepted,
        forall|k: int| i < k < j ==> !((#[trigger] ticks[k]).event is Some && ticks[k].accepted),
    ensures
        state_after(state, ticks.take(j)).last_status_was_default,
    decreases j - i,
{
    assert(ticks.take(j).drop_last() =~= ticks.take(j - 1));
    assert(ticks.take(j).last() == ticks[j - 1]);
    if j - 1 > i {
        lemma_default_stays_shown(state, ticks, i, j - 1);
        assert(!(ticks[j - 1].event is Some && ticks[j - 1].accepted));
    }
}

} // verus!
