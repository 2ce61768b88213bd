//! Key edges: auto-repeat, debounce, and what tells a hold from a tap.

use crate::event::{InputView, ShortcutActivation};
use crate::model::{CoordinatorView, ReleaseView, StageView, DEBOUNCE_NANOS};
use crate::time::{Duration, Instant};
use vstd::prelude::*;

verus! {

/// A key edge with the time it was observed.
pub struct Edge {
    pub input: InputView,
    pub at: Instant,
}

/// A key-up and the key-down that followed it.
pub struct Repeat {
    pub up: Edge,
    pub down: Edge,
}

impl Repeat {
    /// Whether this is what a held key of `binding_id` emits under auto-repeat: a
    /// release and a press of it, in modes in which releases count.
    pub open spec fn synthesized(self, binding_id: Seq<char>) -> bool {
        &&& !self.up.input.is_pressed
        &&& self.down.input.is_pressed
        &&& self.up.input.binding_id == binding_id
        &&& self.down.input.binding_id == binding_id
        &&& self.up.input.mode != ShortcutActivation::Toggle
        &&& self.down.input.mode != ShortcutActivation::Toggle
    }
}

/// The state after a burst of release/press pairs.
pub open spec fn after_burst(s: CoordinatorView, burst: Seq<Repeat>) -> CoordinatorView
    decreases burst.len(),
{
    if burst.len() == 0 {
        s
    } else {
        let pair = burst.first();
        let next = s.after_input(pair.up.input, pair.up.at).after_input(
            pair.down.input,
            pair.down.at,
        );
        after_burst(next, burst.drop_first())
    }
}

/// Whether no edge of a burst of release/press pairs asks for an effect.
pub open spec fn burst_is_silent(s: CoordinatorView, burst: Seq<Repeat>) -> bool
    decreases burst.len(),
{
    if burst.len() == 0 {
        true
    } else {
        let pair = burst.first();
        let mid = s.after_input(pair.up.input, pair.up.at);
        let next = mid.after_input(pair.down.input, pair.down.at);
        &&& s.input_effect(pair.up.input, pair.up.at) is None
        &&& mid.input_effect(pair.down.input, pair.down.at) is None
        &&& burst_is_silent(next, burst.drop_first())
    }
}

/// Auto-repeat: while a key is held, in a session that its release would end or while
/// remembered, any burst of release/press pairs asks for nothing and leaves the
/// coordinator exactly as it was, at whatever times the edges come.
pub proof fn law_autorepeat_burst_changes_nothing(
    s: CoordinatorView,
    binding_id: Seq<char>,
    burst: Seq<Repeat>,
)
    requires
        s.held_binding() == Some(binding_id),
        !s.locked(),
        s.pending_release is None,
        forall|i: int| 0 <= i < burst.len() ==> (#[trigger] burst[i]).synthesized(binding_id),
    ensures
        after_burst(s, burst) == s,
        burst_is_silent(s, burst),
    decreases burst.len(),
{
    if burst.len() > 0 {
        let pair = burst.first();
        assert(pair == burst[0]);
        let mid = s.after_input(pair.up.input, pair.up.at);
        assert(s.verdict(pair.up.input, pair.up.at) is DeferRelease);
        assert(mid.verdict(pair.down.input, pair.down.at) is CancelRelease);
        let next = mid.after_input(pair.down.input, pair.down.at);
        assert(next == s);
        assert forall|i: int| 0 <= i < burst.drop_first().len() implies (
        #[trigger] burst.drop_first()[i]).synthesized(binding_id) by {
            assert(burst.drop_first()[i] == burst[i + 1]);
        }
        law_autorepeat_burst_changes_nothing(s, binding_id, burst.drop_first());
    }
}

/// A release followed by the matching press restores the state, whatever it was.
pub proof fn law_press_takes_back_a_deferred_release(
    s: CoordinatorView,
    up: InputView,
    up_at: Instant,
    down: InputView,
    down_at: Instant,
)
    requires
        s.verdict(up, up_at) is DeferRelease,
        down.is_pressed,
        down.binding_id == up.binding_id,
        down.mode != ShortcutActivation::Toggle,
    ensures
        s.input_effect(up, up_at) is None,
        s.after_input(up, up_at).input_effect(down, down_at) is None,
        s.after_input(up, up_at).after_input(down, down_at) == s,
{
}

/// A release that ends the hold of the binding that records: deferred first, then
/// resolved when its grace window has passed. What counts is the time from the real
/// key-down to the real key-up. At least the threshold, and recording stops; less, and
/// it goes on, locked.
pub proof fn law_hold_is_measured_from_key_down_to_key_up(
    s: CoordinatorView,
    up: InputView,
    up_at: Instant,
)
    requires
        s.inv(),
        s.stage == StageView::Recording(up.binding_id),
        !s.locked(),
        s.pending_release is None,
        !up.is_pressed,
        up.mode != ShortcutActivation::Toggle,
    ensures
        s.input_effect(up, up_at) is None,
        s.after_input(up, up_at).stage == s.stage,
        ({
            let deferred = s.after_input(up, up_at);
            let held = crate::time::duration_between(s.hold->0.pressed_at, up_at);
            if held.nanos >= up.effective_hold_threshold().nanos {
                &&& deferred.grace_effect() == Some(
                    s.stop_effect(up.binding_id, up.hotkey_string),
                )
                &&& deferred.after_grace().stage is Processing
            } else {
                &&& deferred.grace_effect() is None
                &&& deferred.after_grace() == s.lock_hold()
                &&& deferred.after_grace().locked()
            }
        }),
{
}

/// A burst of release/press pairs and then the genuine release are one long hold: it
/// counts from the key-down that started the recording, whatever came in between, and
/// the recording stops or locks exactly once, at the end.
pub proof fn law_burst_and_release_are_one_hold(
    s: CoordinatorView,
    burst: Seq<Repeat>,
    up: InputView,
    up_at: Instant,
)
    requires
        s.inv(),
        s.stage == StageView::Recording(up.binding_id),
        !s.locked(),
        s.pending_release is None,
        forall|i: int| 0 <= i < burst.len() ==> (#[trigger] burst[i]).synthesized(up.binding_id),
        !up.is_pressed,
        up.mode != ShortcutActivation::Toggle,
    ensures
        burst_is_silent(s, burst),
        ({
            let released = after_burst(s, burst).after_input(up, up_at);
            let held = crate::time::duration_between(s.hold->0.pressed_at, up_at);
            &&& after_burst(s, burst).input_effect(up, up_at) is None
            &&& if held.nanos >= up.effective_hold_threshold().nanos {
                &&& released.grace_effect() == Some(
                    s.stop_effect(up.binding_id, up.hotkey_string),
                )
                &&& released.after_grace().stage is Processing
            } else {
                &&& released.grace_effect() is None
                &&& released.after_grace() == s.lock_hold()
            }
        }),
{
    law_autorepeat_burst_changes_nothing(s, up.binding_id, burst);
    law_hold_is_measured_from_key_down_to_key_up(s, up, up_at);
}

/// Push-to-talk: however short the press, its release stops the recording.
pub proof fn law_push_to_talk_release_always_stops(
    s: CoordinatorView,
    up: InputView,
    up_at: Instant,
)
    requires
        s.inv(),
        s.stage == StageView::Recording(up.binding_id),
        !s.locked(),
        s.pending_release is None,
        !up.is_pressed,
        up.mode == ShortcutActivation::PushToTalk,
    ensures
        s.after_input(up, up_at).grace_effect() == Some(
            s.stop_effect(up.binding_id, up.hotkey_string),
        ),
        s.after_input(up, up_at).after_grace().stage is Processing,
{
}

/// A lower threshold or a later key-up never turns a stop into a lock, and a threshold of
/// zero always stops, even where the key-up is stamped before the key-down.
pub proof fn law_longer_holds_still_stop(
    s: CoordinatorView,
    released_at: Instant,
    later: Instant,
    threshold: Duration,
    lower: Duration,
)
    requires
        released_at.nanos <= later.nanos,
        lower.nanos <= threshold.nanos,
    ensures
        s.held_for(released_at, threshold) ==> s.held_for(later, lower),
        s.held_for(released_at, Duration { nanos: 0 }),
{
}

/// The same of a release held back: where its grace window ends with a stop, a release of
/// that binding with a lower threshold or a later key-up ends with the same stop, in the
/// same state.
pub proof fn law_longer_deferred_holds_still_stop(
    s: CoordinatorView,
    shorter: ReleaseView,
    longer: ReleaseView,
)
    requires
        shorter.binding_id == longer.binding_id,
        shorter.hotkey_string == longer.hotkey_string,
        shorter.released_at.nanos <= longer.released_at.nanos,
        longer.hold_threshold.nanos <= shorter.hold_threshold.nanos,
    ensures
        ({
            let a = CoordinatorView { pending_release: Some(shorter), ..s };
            let b = CoordinatorView { pending_release: Some(longer), ..s };
            a.grace_effect() is Some ==> b.grace_effect() == a.grace_effect() && b.after_grace()
                == a.after_grace()
        }),
{
}

/// A release that finds another one already held back is resolved at once, by the same
/// rule; if it ends the recording, the other one is dropped with it.
pub proof fn law_second_release_is_resolved_at_once(
    s: CoordinatorView,
    up: InputView,
    up_at: Instant,
)
    requires
        s.inv(),
        s.stage == StageView::Recording(up.binding_id),
        !s.locked(),
        s.pending_release is Some,
        !up.is_pressed,
        up.mode != ShortcutActivation::Toggle,
    ensures
        ({
            let held = crate::time::duration_between(s.hold->0.pressed_at, up_at);
            if held.nanos >= up.effective_hold_threshold().nanos {
                &&& s.input_effect(up, up_at) == Some(
                    s.stop_effect(up.binding_id, up.hotkey_string),
                )
                &&& s.after_input(up, up_at).stage is Processing
                &&& s.after_input(up, up_at).pending_release is None
            } else {
                &&& s.input_effect(up, up_at) is None
                &&& s.after_input(up, up_at) == s.lock_hold()
            }
        }),
{
}

/// A locked session, or a locked press that waits for the drain, ignores releases: they
/// change nothing, in any mode, for any binding.
pub proof fn law_locked_ignores_releases(s: CoordinatorView, up: InputView, up_at: Instant)
    requires
        s.locked(),
        !up.is_pressed,
    ensures
        s.after_input(up, up_at) == s,
        s.input_effect(up, up_at) is None,
{
}

/// The end of a grace window leaves what is locked alone too: a release that was held
/// back before, for whatever binding, neither ends a locked session nor takes back a
/// locked press.
pub proof fn law_locked_outlives_every_grace_window(s: CoordinatorView)
    requires
        s.locked(),
    ensures
        s.grace_effect() is None,
        s.after_grace() == (CoordinatorView { pending_release: None, ..s }),
{
}

/// Toggle mode ignores releases: they change nothing, in any state.
pub proof fn law_toggle_ignores_releases(s: CoordinatorView, up: InputView, up_at: Instant)
    requires
        up.mode == ShortcutActivation::Toggle,
        !up.is_pressed,
    ensures
        s.after_input(up, up_at) == s,
        s.input_effect(up, up_at) is None,
{
}

/// A session that outlives its key ends on the next press of its binding, in any mode.
pub proof fn law_locked_session_stops_on_next_press(
    s: CoordinatorView,
    down: InputView,
    down_at: Instant,
)
    requires
        s.stage == StageView::Recording(down.binding_id),
        s.locked(),
        down.is_pressed,
        down.external || !s.within_debounce(down_at),
    ensures
        s.input_effect(down, down_at) == Some(s.stop_effect(down.binding_id, down.hotkey_string)),
        s.after_input(down, down_at).stage is Processing,
{
}

/// Whatever input ends a recording leaves no release held back: an old key-up cannot reach
/// what comes after.
pub proof fn law_stop_drops_the_deferred_release(
    s: CoordinatorView,
    input: InputView,
    now: Instant,
)
    requires
        s.input_effect(input, now) matches Some(e) && e is Stop,
    ensures
        s.after_input(input, now).pending_release is None,
        s.after_input(input, now).grace_effect() is None,
        s.after_input(input, now).after_grace() == s.after_input(input, now),
{
}

/// In toggle mode a press of the binding that records ends the session, even one that
/// began as a hold.
pub proof fn law_toggle_press_stops_any_session(
    s: CoordinatorView,
    down: InputView,
    down_at: Instant,
)
    requires
        s.stage == StageView::Recording(down.binding_id),
        down.mode == ShortcutActivation::Toggle,
        down.is_pressed,
        down.external || !s.within_debounce(down_at),
    ensures
        s.input_effect(down, down_at) == Some(s.stop_effect(down.binding_id, down.hotkey_string)),
        s.after_input(down, down_at).stage is Processing,
{
}

/// While the key is held, another press of it in a mode in which releases count does not
/// touch the recording: stopping it is the release's job.
pub proof fn law_press_while_held_is_ignored(
    s: CoordinatorView,
    down: InputView,
    down_at: Instant,
)
    requires
        s.stage == StageView::Recording(down.binding_id),
        !s.locked(),
        down.is_pressed,
        down.mode != ShortcutActivation::Toggle,
    ensures
        s.input_effect(down, down_at) is None,
        ({
            let after = s.after_input(down, down_at);
            after == CoordinatorView {
                last_press: after.last_press,
                pending_release: after.pending_release,
                ..s
            }
        }),
{
}

/// A tap locks the recording on: the release of a press shorter than the threshold asks
/// for nothing, every later release is ignored, and the next press stops the recording.
pub proof fn law_tap_locks_until_next_press(
    s: CoordinatorView,
    up: InputView,
    up_at: Instant,
    stray: InputView,
    stray_at: Instant,
    down: InputView,
    down_at: Instant,
)
    requires
        s.inv(),
        s.stage == StageView::Recording(up.binding_id),
        !s.locked(),
        s.pending_release is None,
        !up.is_pressed,
        up.mode != ShortcutActivation::Toggle,
        crate::time::duration_between(s.hold->0.pressed_at, up_at).nanos
            < up.effective_hold_threshold().nanos,
        !stray.is_pressed,
        down.is_pressed,
        down.binding_id == up.binding_id,
        down.external || !s.within_debounce(down_at),
    ensures
        ({
            let tapped = s.after_input(up, up_at).after_grace();
            &&& s.after_input(up, up_at).grace_effect() is None
            &&& tapped.stage == s.stage
            &&& tapped.locked()
            &&& tapped.after_input(stray, stray_at) == tapped
            &&& tapped.input_effect(stray, stray_at) is None
            &&& tapped.input_effect(down, down_at) == Some(
                s.stop_effect(down.binding_id, down.hotkey_string),
            )
        }),
{
}

/// A press of a physical key inside the debounce window is dropped: it changes nothing.
pub proof fn law_bounce_is_dropped(s: CoordinatorView, down: InputView, down_at: Instant)
    requires
        down.is_pressed,
        !down.external,
        s.within_debounce(down_at),
        !(s.ptt_action(down) is CancelRelease),
    ensures
        s.after_input(down, down_at) == s,
        s.input_effect(down, down_at) is None,
{
}

/// Once a press of a physical key has counted, any press of a physical key less than the
/// debounce window later asks for nothing.
pub proof fn law_press_closes_the_debounce_window(
    s: CoordinatorView,
    first: InputView,
    first_at: Instant,
    second: InputView,
    second_at: Instant,
)
    requires
        first.is_pressed,
        !first.external,
        s.last_press_after(first, first_at) == Some(first_at),
        second.is_pressed,
        !second.external,
        second_at.nanos - first_at.nanos < DEBOUNCE_NANOS,
    ensures
        s.after_input(first, first_at).input_effect(second, second_at) is None,
        s.after_input(first, first_at).after_input(second, second_at).stage == s.after_input(
            first,
            first_at,
        ).stage,
{
    let mid = s.after_input(first, first_at);
    assert(mid.last_press == Some(first_at));
    assert(mid.within_debounce(second_at));
}

/// External triggers are never debounced, and do not count for the window of the keys:
/// what one does is independent of when the last press was.
pub proof fn law_external_edges_are_never_debounced(
    s: CoordinatorView,
    input: InputView,
    now: Instant,
    other_last_press: Option<Instant>,
)
    requires
        input.external,
    ensures
        !(s.verdict(input, now) is Debounce),
        s.after_input(input, now).last_press == s.last_press,
        ({
            let t = CoordinatorView { last_press: other_last_press, ..s };
            &&& t.input_effect(input, now) == s.input_effect(input, now)
            &&& t.after_input(input, now) == (CoordinatorView {
                last_press: other_last_press,
                ..s.after_input(input, now)
            })
        }),
{
    let t = CoordinatorView { last_press: other_last_press, ..s };
    assert(t.ptt_action(input) == s.ptt_action(input));
    assert(t.verdict(input, now) == s.verdict(input, now));
}

} // verus!
