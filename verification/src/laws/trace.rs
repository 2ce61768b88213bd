//! Whole runs of the coordinator, from the initial state.

use crate::driver::{StepView, WakeView};
use crate::event::{CommandView, EffectView};
use crate::model::{CoordinatorView, StageView, RELEASE_GRACE_NANOS};
use crate::time::Instant;
use vstd::prelude::*;

verus! {

/// One step of a run.
pub enum Event {
    /// The loop woke up.
    Wake(WakeView),
    /// The executor reported on a start.
    StartResult { binding_id: Seq<char>, started: bool },
}

/// The state after an event.
pub open spec fn after_event(s: CoordinatorView, event: Event) -> CoordinatorView {
    match event {
        Event::Wake(wake) => s.after_wake(wake),
        Event::StartResult { binding_id, started } => s.after_start_result(binding_id, started),
    }
}

/// The effect that an event asks for.
pub open spec fn event_effect(s: CoordinatorView, event: Event) -> Option<EffectView> {
    match event {
        Event::Wake(wake) => match s.wake_step(wake) {
            StepView::Run(effect) => Some(effect),
            _ => None,
        },
        Event::StartResult { .. } => None,
    }
}

/// Whether the clock can represent every deadline that an event sets.
pub open spec fn admissible(s: CoordinatorView, event: Event) -> bool {
    event matches Event::Wake(wake) ==> s.wake_admissible(wake)
}

/// The state after a run of events from the initial state.
pub open spec fn after_run(events: Seq<Event>) -> CoordinatorView
    decreases events.len(),
{
    if events.len() == 0 {
        CoordinatorView::initial()
    } else {
        after_event(after_run(events.drop_last()), events.last())
    }
}

/// Whether the clock can represent every deadline of a run.
pub open spec fn run_admissible(events: Seq<Event>) -> bool
    decreases events.len(),
{
    events.len() > 0 ==> {
        &&& run_admissible(events.drop_last())
        &&& admissible(after_run(events.drop_last()), events.last())
    }
}

/// The effects that a run asks for, in order.
pub open spec fn effects(events: Seq<Event>) -> Seq<EffectView>
    decreases events.len(),
{
    if events.len() == 0 {
        Seq::empty()
    } else {
        let before = effects(events.drop_last());
        match event_effect(after_run(events.drop_last()), events.last()) {
            Some(effect) => before.push(effect),
            None => before,
        }
    }
}

/// The last effect but for switches of the post-processing choice.
pub open spec fn last_lifecycle_effect(all: Seq<EffectView>) -> Option<EffectView>
    decreases all.len(),
{
    if all.len() == 0 {
        None
    } else if all.last() is PostProcessToggled {
        last_lifecycle_effect(all.drop_last())
    } else {
        Some(all.last())
    }
}

/// The number of starts among some effects.
pub open spec fn starts(all: Seq<EffectView>) -> nat
    decreases all.len(),
{
    if all.len() == 0 {
        0
    } else {
        starts(all.drop_last()) + if all.last() is Start {
            1nat
        } else {
            0
        }
    }
}

/// The number of stops among some effects.
pub open spec fn stops(all: Seq<EffectView>) -> nat
    decreases all.len(),
{
    if all.len() == 0 {
        0
    } else {
        stops(all.drop_last()) + if all.last() is Stop {
            1nat
        } else {
            0
        }
    }
}

/// Every step keeps the invariant.
pub proof fn law_every_step_keeps_the_invariant(s: CoordinatorView, event: Event)
    requires
        s.inv(),
        admissible(s, event),
    ensures
        after_event(s, event).inv(),
{
}

/// Every state that a run reaches satisfies the invariant.
pub proof fn law_every_reachable_state_satisfies_the_invariant(events: Seq<Event>)
    requires
        run_admissible(events),
    ensures
        after_run(events).inv(),
    decreases events.len(),
{
    if events.len() > 0 {
        law_every_reachable_state_satisfies_the_invariant(events.drop_last());
        law_every_step_keeps_the_invariant(after_run(events.drop_last()), events.last());
    }
}

/// While a run is in the recording stage, the last thing it asked for, but for switches,
/// was the start of the binding that records.
pub proof fn law_recording_was_asked_for(events: Seq<Event>)
    ensures
        after_run(events).stage matches StageView::Recording(id) ==> last_lifecycle_effect(
            effects(events),
        ) matches Some(EffectView::Start { binding_id, .. }) && binding_id == id,
    decreases events.len(),
{
    if events.len() > 0 {
        let prev = events.drop_last();
        law_recording_was_asked_for(prev);
        let s = after_run(prev);
        let event = events.last();
        if let Some(effect) = event_effect(s, event) {
            assert(effects(events) == effects(prev).push(effect));
            assert(effects(events).drop_last() =~= effects(prev));
        }
    }
}

/// Nothing is stopped that was not started: when a step of a run asks for a stop, the
/// last thing the run asked for before, but for switches, was a start of that binding.
pub proof fn law_every_stop_follows_its_start(events: Seq<Event>, event: Event)
    ensures
        event_effect(after_run(events), event) matches Some(
            EffectView::Stop { binding_id: stopped, .. },
        ) ==> last_lifecycle_effect(effects(events)) matches Some(
            EffectView::Start { binding_id, .. },
        ) && binding_id == stopped,
{
    law_recording_was_asked_for(events);
}

/// A run never asks for more stops than starts, and while it records there is one start
/// that has not been stopped.
pub proof fn law_no_more_stops_than_starts(events: Seq<Event>)
    ensures
        stops(effects(events)) <= starts(effects(events)),
        after_run(events).is_recording() ==> stops(effects(events)) < starts(effects(events)),
    decreases events.len(),
{
    if events.len() > 0 {
        let prev = events.drop_last();
        law_no_more_stops_than_starts(prev);
        if let Some(effect) = event_effect(after_run(prev), events.last()) {
            assert(effects(events) == effects(prev).push(effect));
            assert(effects(events).drop_last() =~= effects(prev));
        }
    }
}

/// Events are handled one at a time, in order: each one acts on the state that those
/// before it left, an input as of its own stamp, and adds at most one effect, its own, to
/// those asked for before.
pub proof fn law_events_are_handled_in_order(events: Seq<Event>, event: Event)
    ensures
        after_run(events.push(event)) == after_event(after_run(events), event),
        effects(events.push(event)) == (match event_effect(after_run(events), event) {
            Some(effect) => effects(events).push(effect),
            None => effects(events),
        }),
        event matches Event::Wake(WakeView::Command(CommandView::Input(input))) ==> {
            &&& after_run(events.push(event)) == after_run(events).after_input(
                input,
                input.received_at,
            )
            &&& event_effect(after_run(events), event) == after_run(events).input_effect(
                input,
                input.received_at,
            )
        },
{
    assert(events.push(event).drop_last() =~= events);
}

/// The loop waits without end exactly while no release is held back, and then the end of a
/// grace window, if it were to come, would change nothing.
pub proof fn law_no_deferred_release_no_timeout(s: CoordinatorView, now: Instant)
    ensures
        s.wait_at(now) is None <==> s.pending_release is None,
        s.wait_at(now) is None ==> {
            &&& s.after_wake(WakeView::GraceElapsed) == s
            &&& s.wake_step(WakeView::GraceElapsed) is Wait
        },
{
}

/// The end of a grace window resolves a release once: after it there is nothing to wait
/// for, and a second one would change nothing.
pub proof fn law_grace_resolves_a_release_once(s: CoordinatorView, now: Instant)
    ensures
        s.after_grace().wait_at(now) is None,
        s.after_grace().after_grace() == s.after_grace(),
        s.after_grace().grace_effect() is None,
{
}

/// A deferred release never waits longer than its grace window: at any time from its
/// key-up on, the wait that is left is at most the window, it is nothing once the window
/// has passed, and resolving the release leaves nothing to wait for.
pub proof fn law_deferred_release_waits_at_most_the_grace_window(s: CoordinatorView, now: Instant)
    requires
        s.inv(),
        s.pending_release matches Some(r) && r.released_at.nanos <= now.nanos,
    ensures
        ({
            let release = s.pending_release->0;
            let wait = s.wait_at(now)->0;
            &&& s.wait_at(now) is Some
            &&& wait.nanos <= RELEASE_GRACE_NANOS
            &&& now.nanos - release.released_at.nanos >= RELEASE_GRACE_NANOS ==> wait.nanos == 0
            &&& s.after_grace().pending_release is None
        }),
{
}

/// When every sender is gone the loop ends, and with it nothing changes any more.
pub proof fn law_losing_the_senders_changes_nothing(s: CoordinatorView)
    ensures
        s.after_wake(WakeView::Disconnected) == s,
        s.wake_step(WakeView::Disconnected) is Exit,
{
}

} // verus!
