//! What an input does, told by its fields, the fields of the state, and the stamps. Each
//! law fixes the whole next state and the effect, and between them they cover every input
//! in every state.

use crate::event::{EffectView, InputView, ShortcutActivation};
use crate::model::{CoordinatorView, PressView, ReleaseView, StageView};
use crate::state::Hold;
use crate::time::{Duration, Instant};
use vstd::prelude::*;

verus! {

/// The recording runs on without its key, or the remembered press will.
pub open spec fn outlives_key(s: CoordinatorView) -> bool {
    (s.hold is Some && s.hold->0.locked) || (s.pending_press is Some && s.pending_press->0.locked)
}

/// Releases count: neither the input nor what is under way is of the toggle kind.
pub open spec fn releases_count(s: CoordinatorView, input: InputView) -> bool {
    input.mode != ShortcutActivation::Toggle && !outlives_key(s)
}

/// A release of the very key that `input` presses is held back, and releases count.
pub open spec fn repeats_key(s: CoordinatorView, input: InputView) -> bool {
    &&& input.is_pressed
    &&& releases_count(s, input)
    &&& s.pending_release is Some
    &&& s.pending_release->0.binding_id == input.binding_id
}

/// A physical key was pressed less than 30 ms before `now`, or not before it at all.
pub open spec fn pressed_just_now(s: CoordinatorView, now: Instant) -> bool {
    s.last_press is Some && now.nanos - s.last_press->0.nanos < 30_000_000
}

/// A press that is neither auto-repeat nor a bounce.
pub open spec fn fresh_press(s: CoordinatorView, input: InputView, now: Instant) -> bool {
    &&& input.is_pressed
    &&& !repeats_key(s, input)
    &&& input.external || !pressed_just_now(s, now)
}

/// When the last press of a physical key was, once `input` has been one or not.
pub open spec fn stamped(s: CoordinatorView, input: InputView, now: Instant) -> Option<Instant> {
    if input.external {
        s.last_press
    } else {
        Some(now)
    }
}

/// A key-up at `up` comes at least `threshold` after the key-down at `down`. No time at all
/// is long enough for a threshold of nothing.
pub open spec fn long_enough(down: Instant, up: Instant, threshold: Duration) -> bool {
    up.nanos - down.nanos >= threshold.nanos || threshold.nanos == 0
}

/// The threshold under which an input's release is a tap.
pub open spec fn tap_below(input: InputView) -> Duration {
    if input.mode == ShortcutActivation::HoldOrToggle {
        input.hold_threshold
    } else {
        Duration { nanos: 0 }
    }
}

/// `input`, observed at `now`, takes `s` to `after` and asks for `effect`.
pub open spec fn leads_to(
    s: CoordinatorView,
    input: InputView,
    now: Instant,
    after: CoordinatorView,
    effect: Option<EffectView>,
) -> bool {
    s.after_input(input, now) == after && s.input_effect(input, now) == effect
}

/// The busy state that a recording leaves behind.
pub open spec fn busy_after(s: CoordinatorView, last_press: Option<Instant>) -> CoordinatorView {
    CoordinatorView {
        stage: StageView::Processing,
        hold: None,
        last_press,
        pending_release: None,
        pending_press: s.pending_press,
        session_post_process: None,
        session_mode: None,
    }
}

/// The choice a stop carries: the session's, or the binding's own where there is none.
pub open spec fn choice_of(s: CoordinatorView, binding_id: Seq<char>) -> bool {
    if s.session_post_process is Some {
        s.session_post_process->0
    } else {
        binding_id == "transcribe_with_post_process"@
    }
}

/// Auto-repeat: a press of a key whose release is held back takes the release back and
/// does nothing else, however soon it comes.
pub proof fn law_repeat_takes_the_release_back(s: CoordinatorView, input: InputView, now: Instant)
    requires
        repeats_key(s, input),
    ensures
        leads_to(s, input, now, CoordinatorView { pending_release: None, ..s }, None),
{
}

/// A bounce does nothing.
pub proof fn law_bounce_does_nothing(s: CoordinatorView, input: InputView, now: Instant)
    requires
        input.is_pressed,
        !input.external,
        !repeats_key(s, input),
        pressed_just_now(s, now),
    ensures
        leads_to(s, input, now, s, None),
{
}

/// A press of a physical key at least 30 ms after the last one that counted, or with none
/// before it, is never dropped as a bounce, however long ago that one was: unless it takes
/// a release back, it counts as the last press from then on. Of a recording that outlives
/// its key it asks for the stop.
pub proof fn law_spaced_press_is_no_bounce(s: CoordinatorView, input: InputView, now: Instant)
    requires
        input.is_pressed,
        !input.external,
        s.last_press is Some ==> now.nanos - s.last_press->0.nanos >= 30_000_000,
    ensures
        !(s.verdict(input, now) is Debounce),
        !repeats_key(s, input) ==> s.after_input(input, now).last_press == Some(now),
        s.stage == StageView::Recording(input.binding_id) && (s.hold is Some && s.hold->0.locked)
            ==> {
            &&& s.input_effect(input, now) is Some
            &&& s.input_effect(input, now)->0 is Stop
            &&& s.after_input(input, now).stage is Processing
        },
        s.stage is Idle && s.pending_release is None ==> {
            &&& s.input_effect(input, now) is Some
            &&& s.input_effect(input, now)->0 is Start
        },
{
}

/// The release of a key that is down, the one that records or the one remembered, is held
/// back if none is yet: stamped now, due 50 ms later, with the threshold of the input in
/// hold-or-toggle mode and none in push-to-talk.
pub proof fn law_release_of_a_held_key_is_held_back(
    s: CoordinatorView,
    input: InputView,
    now: Instant,
)
    requires
        !input.is_pressed,
        releases_count(s, input),
        s.pending_release is None,
        s.stage == StageView::Recording(input.binding_id) || (s.stage is Processing
            && s.pending_press is Some && s.pending_press->0.binding_id == input.binding_id),
        now.nanos + 50_000_000 <= u128::MAX,
    ensures
        leads_to(
            s,
            input,
            now,
            CoordinatorView {
                pending_release: Some(
                    ReleaseView {
                        binding_id: input.binding_id,
                        hotkey_string: input.hotkey_string,
                        deadline: Instant { nanos: (now.nanos + 50_000_000) as u128 },
                        released_at: now,
                        hold_threshold: tap_below(input),
                    },
                ),
                ..s
            },
            None,
        ),
{
}

/// Any other release does nothing: one that does not count, one of a key that is not down,
/// and, while busy, one that finds another held back.
pub proof fn law_other_releases_do_nothing(s: CoordinatorView, input: InputView, now: Instant)
    requires
        !input.is_pressed,
        ({
            ||| !releases_count(s, input)
            ||| s.stage is Idle
            ||| s.stage is Recording && s.stage->Recording_0 != input.binding_id
            ||| s.stage is Processing && s.pending_press is None
            ||| s.stage is Processing && s.pending_press->0.binding_id != input.binding_id
            ||| s.stage is Processing && s.pending_release is Some
        }),
    ensures
        leads_to(s, input, now, s, None),
{
}

/// A release of the binding that records, while another is held back, is resolved at once:
/// long enough, it stops; else it locks. Without a record of the key-down it stops.
pub proof fn law_release_on_top_of_another_is_resolved(
    s: CoordinatorView,
    input: InputView,
    now: Instant,
)
    requires
        !input.is_pressed,
        releases_count(s, input),
        s.pending_release is Some,
        s.stage == StageView::Recording(input.binding_id),
    ensures
        s.hold is None || long_enough(s.hold->0.pressed_at, now, tap_below(input)) ==> leads_to(
            s,
            input,
            now,
            busy_after(s, s.last_press),
            Some(
                EffectView::Stop {
                    binding_id: input.binding_id,
                    hotkey_string: input.hotkey_string,
                    post_process: choice_of(s, input.binding_id),
                },
            ),
        ),
        s.hold is Some && !long_enough(s.hold->0.pressed_at, now, tap_below(input)) ==> leads_to(
            s,
            input,
            now,
            CoordinatorView {
                hold: Some(Hold { pressed_at: s.hold->0.pressed_at, locked: true }),
                ..s
            },
            None,
        ),
{
}

/// An idle coordinator starts on a fresh press: a session of that binding, from that
/// key-down, under that mode, locked exactly in toggle mode, with post-processing exactly
/// if the binding is the one named for it.
pub proof fn law_fresh_press_starts_when_idle(s: CoordinatorView, input: InputView, now: Instant)
    requires
        fresh_press(s, input, now),
        s.stage is Idle,
    ensures
        leads_to(
            s,
            input,
            now,
            CoordinatorView {
                stage: StageView::Recording(input.binding_id),
                hold: Some(
                    Hold { pressed_at: now, locked: input.mode == ShortcutActivation::Toggle },
                ),
                last_press: stamped(s, input, now),
                pending_release: s.pending_release,
                pending_press: s.pending_press,
                session_post_process: Some(input.binding_id == "transcribe_with_post_process"@),
                session_mode: Some(input.mode),
            },
            Some(
                EffectView::Start {
                    binding_id: input.binding_id,
                    hotkey_string: input.hotkey_string,
                },
            ),
        ),
{
}

/// A fresh press of the binding that records stops it if the recording outlives its key or
/// the press toggles. The stop carries the session's choice, and no session, no hold and no
/// release held back is left.
pub proof fn law_fresh_press_stops_its_recording(
    s: CoordinatorView,
    input: InputView,
    now: Instant,
)
    requires
        fresh_press(s, input, now),
        s.stage == StageView::Recording(input.binding_id),
        outlives_key(s) || input.mode == ShortcutActivation::Toggle,
    ensures
        leads_to(
            s,
            input,
            now,
            busy_after(s, stamped(s, input, now)),
            Some(
                EffectView::Stop {
                    binding_id: input.binding_id,
                    hotkey_string: input.hotkey_string,
                    post_process: choice_of(s, input.binding_id),
                },
            ),
        ),
{
}

/// A fresh press of the other transcribe binding flips the choice of a session that was
/// started in toggle mode or outlives its key, and nothing else.
pub proof fn law_fresh_press_of_the_other_binding_switches(
    s: CoordinatorView,
    input: InputView,
    now: Instant,
)
    requires
        fresh_press(s, input, now),
        s.stage is Recording,
        s.stage->Recording_0 != input.binding_id,
        input.binding_id == "transcribe"@ || input.binding_id == "transcribe_with_post_process"@,
        s.session_mode == Some(ShortcutActivation::Toggle) || outlives_key(s),
        s.session_post_process is Some,
    ensures
        leads_to(
            s,
            input,
            now,
            CoordinatorView {
                session_post_process: Some(!s.session_post_process->0),
                last_press: stamped(s, input, now),
                ..s
            },
            Some(EffectView::PostProcessToggled { enabled: !s.session_post_process->0 }),
        ),
{
}

/// Any other fresh press while recording does nothing but count as the last one: of the
/// key that is held, of a binding that does not transcribe, or of the other one where the
/// session does not take part.
pub proof fn law_other_presses_while_recording_do_nothing(
    s: CoordinatorView,
    input: InputView,
    now: Instant,
)
    requires
        fresh_press(s, input, now),
        s.stage is Recording,
        ({
            ||| s.stage->Recording_0 == input.binding_id && releases_count(s, input)
            ||| s.stage->Recording_0 != input.binding_id && input.binding_id != "transcribe"@
                && input.binding_id != "transcribe_with_post_process"@
            ||| s.stage->Recording_0 != input.binding_id && s.session_mode != Some(
                ShortcutActivation::Toggle,
            ) && !outlives_key(s)
            ||| s.stage->Recording_0 != input.binding_id && s.session_post_process is None
        }),
    ensures
        leads_to(
            s,
            input,
            now,
            CoordinatorView { last_press: stamped(s, input, now), ..s },
            None,
        ),
{
}

/// A busy pipeline with nothing remembered remembers a fresh press: its binding, its hotkey,
/// its key-down and its mode, locked exactly in toggle mode.
pub proof fn law_fresh_press_is_remembered_when_busy(
    s: CoordinatorView,
    input: InputView,
    now: Instant,
)
    requires
        fresh_press(s, input, now),
        s.stage is Processing,
        s.pending_press is None,
    ensures
        leads_to(
            s,
            input,
            now,
            CoordinatorView {
                pending_press: Some(
                    PressView {
                        binding_id: input.binding_id,
                        hotkey_string: input.hotkey_string,
                        pressed_at: now,
                        locked: input.mode == ShortcutActivation::Toggle,
                        mode: input.mode,
                    },
                ),
                last_press: stamped(s, input, now),
                ..s
            },
            None,
        ),
{
}

/// A fresh press of the remembered binding takes the remembered press back, with any release
/// held back for it, if that press is locked or this one toggles.
pub proof fn law_fresh_press_takes_the_remembered_one_back(
    s: CoordinatorView,
    input: InputView,
    now: Instant,
)
    requires
        fresh_press(s, input, now),
        s.stage is Processing,
        s.pending_press is Some,
        s.pending_press->0.binding_id == input.binding_id,
        s.pending_press->0.locked || input.mode == ShortcutActivation::Toggle,
    ensures
        leads_to(
            s,
            input,
            now,
            CoordinatorView {
                pending_press: None,
                pending_release: None,
                last_press: stamped(s, input, now),
                ..s
            },
            None,
        ),
{
}

/// Any other fresh press while a press is remembered does nothing but count as the last one:
/// of another binding, or of the remembered key while that is still held.
pub proof fn law_other_presses_while_busy_do_nothing(
    s: CoordinatorView,
    input: InputView,
    now: Instant,
)
    requires
        fresh_press(s, input, now),
        s.stage is Processing,
        s.pending_press is Some,
        s.pending_press->0.binding_id != input.binding_id || (!s.pending_press->0.locked
            && input.mode != ShortcutActivation::Toggle),
    ensures
        leads_to(
            s,
            input,
            now,
            CoordinatorView { last_press: stamped(s, input, now), ..s },
            None,
        ),
{
}

/// Inputs with the same fields in states with the same fields do the same, whenever the
/// sender's stamp is: of time, only `now` counts.
pub proof fn law_only_the_time_of_observation_counts(
    s: CoordinatorView,
    input: InputView,
    now: Instant,
    received_at: Instant,
)
    ensures
        ({
            let restamped = InputView { received_at, ..input };
            leads_to(s, restamped, now, s.after_input(input, now), s.input_effect(input, now))
        }),
{
    let restamped = InputView { received_at, ..input };
    assert(s.ptt_action(restamped) == s.ptt_action(input));
    assert(s.verdict(restamped, now) == s.verdict(input, now));
}

/// Moving every stamp by the same amount moves the stamps of the outcome by it and changes
/// nothing else: no point in time is special, only distances count.
pub proof fn law_only_distances_count(
    s: CoordinatorView,
    input: InputView,
    now: Instant,
    by: nat,
)
    requires
        now.nanos + by + 50_000_000 <= u128::MAX,
        s.last_press is Some ==> s.last_press->0.nanos + by <= u128::MAX,
        s.hold is Some ==> s.hold->0.pressed_at.nanos + by <= u128::MAX,
    ensures
        ({
            let later = Instant { nanos: (now.nanos + by) as u128 };
            let moved = CoordinatorView {
                last_press: match s.last_press {
                    Some(t) => Some(Instant { nanos: (t.nanos + by) as u128 }),
                    None => None,
                },
                hold: match s.hold {
                    Some(h) => Some(
                        Hold {
                            pressed_at: Instant { nanos: (h.pressed_at.nanos + by) as u128 },
                            locked: h.locked,
                        },
                    ),
                    None => None,
                },
                ..s
            };
            &&& moved.input_effect(input, later) == s.input_effect(input, now)
            &&& moved.after_input(input, later).stage == s.after_input(input, now).stage
            &&& moved.after_input(input, later).locked() == s.after_input(input, now).locked()
            &&& moved.after_input(input, later).session_post_process == s.after_input(
                input,
                now,
            ).session_post_process
        }),
{
    let later = Instant { nanos: (now.nanos + by) as u128 };
    let moved = CoordinatorView {
        last_press: match s.last_press {
            Some(t) => Some(Instant { nanos: (t.nanos + by) as u128 }),
            None => None,
        },
        hold: match s.hold {
            Some(h) => Some(
                Hold {
                    pressed_at: Instant { nanos: (h.pressed_at.nanos + by) as u128 },
                    locked: h.locked,
                },
            ),
            None => None,
        },
        ..s
    };
    assert(moved.locked() == s.locked());
    assert(moved.within_debounce(later) == s.within_debounce(now));
    assert(moved.held_for(later, input.effective_hold_threshold()) == s.held_for(
        now,
        input.effective_hold_threshold(),
    ));
    assert(moved.ptt_action(input) == s.ptt_action(input));
    assert(moved.verdict(input, later) == s.verdict(input, now));
}

/// No input in any state is left out: one of the laws above tells what it does. Where the
/// 50 ms of a release to be held back do not fit the clock, none is needed.
pub proof fn law_every_input_is_told(s: CoordinatorView, input: InputView, now: Instant)
    requires
        now.nanos + 50_000_000 <= u128::MAX,
    ensures
        ({
            let fresh = fresh_press(s, input, now);
            let own = s.stage == StageView::Recording(input.binding_id);
            let other = s.stage is Recording && s.stage->Recording_0 != input.binding_id;
            let names = input.binding_id == "transcribe"@ || input.binding_id
                == "transcribe_with_post_process"@;
            let takes_part = (s.session_mode == Some(ShortcutActivation::Toggle) || outlives_key(
                s,
            )) && s.session_post_process is Some;
            let waits = s.stage is Processing && s.pending_press is Some;
            let same = waits && s.pending_press->0.binding_id == input.binding_id;
            let ends = s.pending_press->0.locked || input.mode == ShortcutActivation::Toggle;
            let counts = releases_count(s, input);
            ||| repeats_key(s, input)
            ||| input.is_pressed && !input.external && !repeats_key(s, input) && pressed_just_now(
                s,
                now,
            )
            ||| fresh && s.stage is Idle
            ||| fresh && own && (outlives_key(s) || input.mode == ShortcutActivation::Toggle)
            ||| fresh && own && counts
            ||| fresh && other && names && takes_part
            ||| fresh && other && !(names && takes_part)
            ||| fresh && s.stage is Processing && s.pending_press is None
            ||| fresh && same && ends
            ||| fresh && waits && !(same && ends)
            ||| !input.is_pressed && counts && s.pending_release is None && (own || same)
            ||| !input.is_pressed && counts && s.pending_release is Some && own
            ||| !input.is_pressed && !counts
            ||| !input.is_pressed && counts && !own && !same
            ||| !input.is_pressed && counts && same && s.pending_release is Some
        }),
{
}

} // verus!
