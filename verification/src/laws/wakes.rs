//! What the loop does on a wake-up, told by the fields of the state and the stamps.

use crate::driver::{StepView, WakeView};
use crate::event::{CommandView, EffectView, InputView, ShortcutActivation};
use crate::laws::trace::Event;
use crate::model::{CoordinatorView, ReleaseView, StageView};
use crate::state::Hold;
use crate::time::{Duration, Instant};
use vstd::prelude::*;

verus! {

/// An input that wakes the loop acts as of its own stamp, and what it asks for is run.
pub proof fn law_input_wake_acts_as_of_its_stamp(s: CoordinatorView, input: InputView)
    ensures
        ({
            let wake = WakeView::Command(CommandView::Input(input));
            let effect = s.input_effect(input, input.received_at);
            &&& s.after_wake(wake) == s.after_input(input, input.received_at)
            &&& effect is Some ==> s.wake_step(wake) == StepView::Run(effect->0)
            &&& effect is None ==> s.wake_step(wake) == StepView::Wait
        }),
{
}

/// The pipeline drains with a press remembered: the loop runs a start with the binding and
/// the hotkey of that press, and that binding records, from the press's own key-down, with
/// its own lock and mode, and with the choice that its binding stands for. Nothing is
/// remembered any more; a release held back and the last press stay.
pub proof fn law_drain_wake_starts_the_remembered_press(s: CoordinatorView)
    requires
        s.pending_press is Some,
    ensures
        ({
            let wake = WakeView::Command(CommandView::ProcessingFinished);
            let press = s.pending_press->0;
            &&& s.wake_step(wake) == StepView::Run(
                EffectView::Start {
                    binding_id: press.binding_id,
                    hotkey_string: press.hotkey_string,
                },
            )
            &&& s.after_wake(wake) == (CoordinatorView {
                stage: StageView::Recording(press.binding_id),
                hold: Some(Hold { pressed_at: press.pressed_at, locked: press.locked }),
                last_press: s.last_press,
                pending_release: s.pending_release,
                pending_press: None,
                session_post_process: Some(
                    press.binding_id == "transcribe_with_post_process"@,
                ),
                session_mode: Some(press.mode),
            })
        }),
{
}

/// The pipeline drains with nothing remembered: the loop waits on, and the coordinator is
/// idle.
pub proof fn law_drain_wake_without_a_remembered_press(s: CoordinatorView)
    requires
        s.pending_press is None,
    ensures
        ({
            let wake = WakeView::Command(CommandView::ProcessingFinished);
            &&& s.wake_step(wake) == StepView::Wait
            &&& s.after_wake(wake) == (CoordinatorView {
                stage: StageView::Idle,
                hold: None,
                last_press: s.last_press,
                pending_release: s.pending_release,
                pending_press: None,
                session_post_process: None,
                session_mode: None,
            })
        }),
{
}

/// After a run that leaves a press remembered, the drain adds exactly the start of that
/// press to what the run has asked for, and its binding records.
pub proof fn law_run_with_a_remembered_press_starts_it_on_the_drain(events: Seq<Event>)
    requires
        crate::laws::trace::after_run(events).pending_press is Some,
    ensures
        ({
            let press = crate::laws::trace::after_run(events).pending_press->0;
            let drained = events.push(
                Event::Wake(WakeView::Command(CommandView::ProcessingFinished)),
            );
            &&& crate::laws::trace::effects(drained) == crate::laws::trace::effects(events).push(
                EffectView::Start {
                    binding_id: press.binding_id,
                    hotkey_string: press.hotkey_string,
                },
            )
            &&& crate::laws::trace::after_run(drained).stage == StageView::Recording(
                press.binding_id,
            )
            &&& crate::laws::trace::after_run(drained).hold == Some(
                Hold { pressed_at: press.pressed_at, locked: press.locked },
            )
        }),
{
    crate::laws::trace::law_events_are_handled_in_order(
        events,
        Event::Wake(WakeView::Command(CommandView::ProcessingFinished)),
    );
}

/// A press that comes while the pipeline is busy and nothing is remembered or held back,
/// 30 ms or more after the last one, starts on the drain, from its own stamp.
pub proof fn law_press_while_busy_starts_on_the_drain(s: CoordinatorView, input: InputView)
    requires
        s.stage is Processing,
        s.pending_press is None,
        s.pending_release is None,
        input.is_pressed,
        input.external || s.last_press is None || input.received_at.nanos
            - s.last_press->0.nanos >= 30_000_000,
    ensures
        ({
            let press = WakeView::Command(CommandView::Input(input));
            let drain = WakeView::Command(CommandView::ProcessingFinished);
            let waiting = s.after_wake(press);
            let recording = waiting.after_wake(drain);
            &&& s.wake_step(press) == StepView::Wait
            &&& waiting.wake_step(drain) == StepView::Run(
                EffectView::Start {
                    binding_id: input.binding_id,
                    hotkey_string: input.hotkey_string,
                },
            )
            &&& recording.stage == StageView::Recording(input.binding_id)
            &&& recording.hold == Some(
                Hold {
                    pressed_at: input.received_at,
                    locked: input.mode == ShortcutActivation::Toggle,
                },
            )
            &&& recording.session_mode == Some(input.mode)
        }),
{
}

/// A cancel wakes the loop: it runs nothing, and in every stage nothing is remembered or
/// held back any more. A busy pipeline stays busy with everything else as it was; a
/// recording is gone with its session; an idle coordinator stays idle.
pub proof fn law_cancel_wake_abandons_everything(s: CoordinatorView, recording_was_active: bool)
    ensures
        ({
            let wake = WakeView::Command(CommandView::Cancel { recording_was_active });
            let after = s.after_wake(wake);
            &&& s.wake_step(wake) == StepView::Wait
            &&& after.pending_press is None
            &&& after.pending_release is None
            &&& after.last_press == s.last_press
            &&& s.stage is Processing ==> after == CoordinatorView {
                pending_press: None,
                pending_release: None,
                ..s
            }
            &&& s.stage is Recording || (s.stage is Idle && recording_was_active) ==> {
                &&& after.stage is Idle
                &&& after.hold is None
                &&& after.session_post_process is None
                &&& after.session_mode is None
            }
            &&& s.stage is Idle && !recording_was_active ==> after == CoordinatorView {
                pending_press: None,
                pending_release: None,
                ..s
            }
        }),
{
}

/// After a cancel, in every stage, the drain runs nothing and leaves the coordinator idle,
/// and so does the end of any grace window in between: a cancelled press never starts.
pub proof fn law_drain_after_a_cancel_starts_nothing(
    s: CoordinatorView,
    recording_was_active: bool,
)
    ensures
        ({
            let cancel = WakeView::Command(CommandView::Cancel { recording_was_active });
            let drain = WakeView::Command(CommandView::ProcessingFinished);
            let cancelled = s.after_wake(cancel);
            let settled = cancelled.after_wake(WakeView::GraceElapsed);
            &&& s.wake_step(cancel) == StepView::Wait
            &&& cancelled.wake_step(drain) == StepView::Wait
            &&& cancelled.after_wake(drain).stage is Idle
            &&& cancelled.wake_step(WakeView::GraceElapsed) == StepView::Wait
            &&& settled == cancelled
            &&& settled.wake_step(drain) == StepView::Wait
            &&& settled.after_wake(drain).stage is Idle
        }),
{
}

/// After any run, a cancel and then a drain add nothing to what was asked for and leave the
/// coordinator idle.
pub proof fn law_run_cancelled_and_drained_asks_for_nothing(
    events: Seq<Event>,
    recording_was_active: bool,
)
    ensures
        ({
            let cancelled = events.push(
                Event::Wake(WakeView::Command(CommandView::Cancel { recording_was_active })),
            );
            let drained = cancelled.push(
                Event::Wake(WakeView::Command(CommandView::ProcessingFinished)),
            );
            &&& crate::laws::trace::effects(cancelled) == crate::laws::trace::effects(events)
            &&& crate::laws::trace::effects(drained) == crate::laws::trace::effects(events)
            &&& crate::laws::trace::after_run(drained).stage is Idle
            &&& crate::laws::trace::after_run(drained).pending_press is None
            &&& crate::laws::trace::after_run(drained).pending_release is None
        }),
{
    let cancel = Event::Wake(WakeView::Command(CommandView::Cancel { recording_was_active }));
    let cancelled = events.push(cancel);
    crate::laws::trace::law_events_are_handled_in_order(events, cancel);
    crate::laws::trace::law_events_are_handled_in_order(
        cancelled,
        Event::Wake(WakeView::Command(CommandView::ProcessingFinished)),
    );
}

/// How long the loop waits: without end if no release is held back, else until the deadline
/// of that release and not a nanosecond less or more, in every mode.
pub proof fn law_wait_ends_at_the_deadline(s: CoordinatorView, now: Instant)
    ensures
        s.pending_release is None ==> s.wait_at(now) is None,
        s.pending_release is Some ==> s.wait_at(now) is Some,
        s.pending_release is Some && now.nanos <= s.pending_release->0.deadline.nanos ==> now.nanos
            + s.wait_at(now)->0.nanos == s.pending_release->0.deadline.nanos,
        s.pending_release is Some && now.nanos >= s.pending_release->0.deadline.nanos
            ==> s.wait_at(now)->0.nanos == 0,
{
}

/// A key-up that the loop holds back is never resolved before its grace window has passed:
/// at any time from the key-up to the end of the window, that time and the wait add up to
/// the key-up and 50 ms, in every mode.
pub proof fn law_held_back_release_waits_out_its_window(
    s: CoordinatorView,
    up: InputView,
    now: Instant,
)
    requires
        !up.is_pressed,
        up.mode != ShortcutActivation::Toggle,
        s.stage == StageView::Recording(up.binding_id),
        s.hold is Some ==> !s.hold->0.locked,
        s.pending_press is None,
        s.pending_release is None,
        up.received_at.nanos + 50_000_000 <= u128::MAX,
        up.received_at.nanos <= now.nanos <= up.received_at.nanos + 50_000_000,
    ensures
        ({
            let after = s.after_wake(WakeView::Command(CommandView::Input(up)));
            &&& s.wake_step(WakeView::Command(CommandView::Input(up))) == StepView::Wait
            &&& after.stage == s.stage
            &&& after.wait_at(now) is Some
            &&& now.nanos + after.wait_at(now)->0.nanos == up.received_at.nanos + 50_000_000
        }),
{
}

/// In any state that a run reaches, a release held back waits out its window: from its
/// key-up to the end of the window, the time and the wait add up to the key-up and 50 ms.
pub proof fn law_run_waits_out_every_window(events: Seq<Event>, now: Instant)
    requires
        crate::laws::trace::run_admissible(events),
        crate::laws::trace::after_run(events).pending_release is Some,
    ensures
        ({
            let s = crate::laws::trace::after_run(events);
            let up = s.pending_release->0.released_at;
            &&& s.wait_at(now) is Some
            &&& now.nanos <= up.nanos + 50_000_000 ==> now.nanos + s.wait_at(now)->0.nanos
                == up.nanos + 50_000_000
            &&& now.nanos >= up.nanos + 50_000_000 ==> s.wait_at(now)->0.nanos == 0
        }),
{
    crate::laws::trace::law_every_reachable_state_satisfies_the_invariant(events);
}

/// The end of a grace window with no release held back, with what is locked, when idle, or
/// while another binding records: the loop runs nothing, and only the release is gone.
pub proof fn law_grace_wake_with_nothing_to_end(s: CoordinatorView)
    requires
        ({
            ||| s.pending_release is None
            ||| s.hold is Some && s.hold->0.locked
            ||| s.pending_press is Some && s.pending_press->0.locked
            ||| s.stage is Idle
            ||| s.stage is Recording && s.stage->Recording_0 != s.pending_release->0.binding_id
            ||| s.stage is Processing && s.pending_press is None
            ||| s.stage is Processing && s.pending_press->0.binding_id
                != s.pending_release->0.binding_id
        }),
    ensures
        s.wake_step(WakeView::GraceElapsed) == StepView::Wait,
        s.after_wake(WakeView::GraceElapsed) == (CoordinatorView { pending_release: None, ..s }),
{
}

/// The end of the grace window of the key whose recording does not outlive it: from its
/// key-down to its key-up at least the threshold of that release, and the loop runs the stop
/// with the session's choice; less, and the recording goes on, locked. Without a record of
/// the key-down it is the stop.
pub proof fn law_grace_wake_stops_or_locks_the_recording(s: CoordinatorView, release: ReleaseView)
    requires
        s.pending_release == Some(release),
        s.stage == StageView::Recording(release.binding_id),
        s.hold is Some ==> !s.hold->0.locked,
        s.pending_press is Some ==> !s.pending_press->0.locked,
    ensures
        ({
            let wake = WakeView::GraceElapsed;
            let long = s.hold is None || release.hold_threshold.nanos == 0
                || release.released_at.nanos - s.hold->0.pressed_at.nanos
                >= release.hold_threshold.nanos;
            &&& long ==> s.wake_step(wake) == StepView::Run(
                EffectView::Stop {
                    binding_id: release.binding_id,
                    hotkey_string: release.hotkey_string,
                    post_process: if s.session_post_process is Some {
                        s.session_post_process->0
                    } else {
                        release.binding_id == "transcribe_with_post_process"@
                    },
                },
            )
            &&& long ==> s.after_wake(wake) == (CoordinatorView {
                stage: StageView::Processing,
                hold: None,
                last_press: s.last_press,
                pending_release: None,
                pending_press: s.pending_press,
                session_post_process: None,
                session_mode: None,
            })
            &&& !long ==> s.wake_step(wake) == StepView::Wait
            &&& !long ==> s.after_wake(wake) == (CoordinatorView {
                pending_release: None,
                hold: Some(Hold { pressed_at: s.hold->0.pressed_at, locked: true }),
                ..s
            })
        }),
{
}

/// The end of the grace window of the remembered key: the loop runs nothing. From its
/// key-down to its key-up at least the threshold of that release, and there is nothing left
/// to start; less, and the press stays remembered, locked.
pub proof fn law_grace_wake_forgets_or_locks_the_remembered_press(
    s: CoordinatorView,
    release: ReleaseView,
)
    requires
        s.pending_release == Some(release),
        s.stage is Processing,
        s.hold is Some ==> !s.hold->0.locked,
        s.pending_press is Some,
        !s.pending_press->0.locked,
        s.pending_press->0.binding_id == release.binding_id,
    ensures
        ({
            let wake = WakeView::GraceElapsed;
            let press = s.pending_press->0;
            let long = release.hold_threshold.nanos == 0 || release.released_at.nanos
                - press.pressed_at.nanos >= release.hold_threshold.nanos;
            &&& s.wake_step(wake) == StepView::Wait
            &&& long ==> s.after_wake(wake) == (CoordinatorView {
                pending_release: None,
                pending_press: None,
                ..s
            })
            &&& !long ==> s.after_wake(wake) == (CoordinatorView {
                pending_release: None,
                pending_press: Some(crate::model::PressView { locked: true, ..press }),
                ..s
            })
        }),
{
}

/// Hold or tap, by the threshold that the user set: a hold-or-toggle key-up of a recording
/// that does not outlive its key, with no release held back, asks for nothing; when its
/// grace window ends, the recording stops if and only if the key was down for at least the
/// `hold_threshold` of that very input, and is locked if and only if not.
pub proof fn law_own_threshold_tells_hold_from_tap(
    s: CoordinatorView,
    up: InputView,
    pressed_at: Instant,
)
    requires
        s.stage == StageView::Recording(up.binding_id),
        s.hold == Some(Hold { pressed_at, locked: false }),
        s.pending_press is None,
        s.pending_release is None,
        !up.is_pressed,
        up.mode == ShortcutActivation::HoldOrToggle,
        pressed_at.nanos <= up.received_at.nanos,
    ensures
        ({
            let released = s.after_wake(WakeView::Command(CommandView::Input(up)));
            let settled = released.after_wake(WakeView::GraceElapsed);
            let is_hold = up.received_at.nanos - pressed_at.nanos >= up.hold_threshold.nanos;
            &&& s.wake_step(WakeView::Command(CommandView::Input(up))) == StepView::Wait
            &&& released.wake_step(WakeView::GraceElapsed) is Run <==> is_hold
            &&& settled.stage is Processing <==> is_hold
            &&& settled.stage == s.stage <==> !is_hold
            &&& settled.hold == Some(Hold { pressed_at, locked: true }) <==> !is_hold
        }),
{
}

/// The same while busy: a hold-or-toggle key-up of the remembered key leaves a locked start
/// for the drain if and only if the key was down for less than the `hold_threshold` of that
/// very input, and nothing otherwise.
pub proof fn law_own_threshold_tells_hold_from_tap_while_busy(s: CoordinatorView, up: InputView)
    requires
        s.stage is Processing,
        s.hold is None,
        s.pending_press is Some,
        !s.pending_press->0.locked,
        s.pending_press->0.binding_id == up.binding_id,
        s.pending_press->0.pressed_at.nanos <= up.received_at.nanos,
        s.pending_release is None,
        !up.is_pressed,
        up.mode == ShortcutActivation::HoldOrToggle,
    ensures
        ({
            let released = s.after_wake(WakeView::Command(CommandView::Input(up)));
            let settled = released.after_wake(WakeView::GraceElapsed);
            let drain = WakeView::Command(CommandView::ProcessingFinished);
            let is_tap = up.received_at.nanos - s.pending_press->0.pressed_at.nanos
                < up.hold_threshold.nanos;
            &&& settled.pending_press is Some <==> is_tap
            &&& settled.wake_step(drain) is Run <==> is_tap
            &&& is_tap ==> settled.after_wake(drain).hold == Some(
                Hold { pressed_at: s.pending_press->0.pressed_at, locked: true },
            )
        }),
{
}

/// Push-to-talk, whatever threshold the input carries: when the grace window of a key-up
/// ends, the recording stops, however short the press.
pub proof fn law_push_to_talk_has_no_threshold(s: CoordinatorView, up: InputView)
    requires
        s.stage == StageView::Recording(up.binding_id),
        s.hold is Some ==> !s.hold->0.locked,
        s.pending_press is None,
        s.pending_release is None,
        !up.is_pressed,
        up.mode == ShortcutActivation::PushToTalk,
    ensures
        ({
            let released = s.after_wake(WakeView::Command(CommandView::Input(up)));
            &&& released.wake_step(WakeView::GraceElapsed) is Run
            &&& released.after_wake(WakeView::GraceElapsed).stage is Processing
        }),
{
}

/// A press of the binding of a locked recording, from an external trigger or 30 ms or more
/// after the last press of a key, however long after, makes the loop run its stop, in every
/// mode, with the session's choice.
pub proof fn law_press_ends_a_locked_recording(
    s: CoordinatorView,
    down: InputView,
    pressed_at: Instant,
    choice: bool,
)
    requires
        s.stage == StageView::Recording(down.binding_id),
        s.hold == Some(Hold { pressed_at, locked: true }),
        s.session_post_process == Some(choice),
        down.is_pressed,
        down.external || s.last_press is None || down.received_at.nanos - s.last_press->0.nanos
            >= 30_000_000,
    ensures
        s.wake_step(WakeView::Command(CommandView::Input(down))) == StepView::Run(
            EffectView::Stop {
                binding_id: down.binding_id,
                hotkey_string: down.hotkey_string,
                post_process: choice,
            },
        ),
        s.after_wake(WakeView::Command(CommandView::Input(down))).stage is Processing,
{
}

/// The executor's report: a start that did not begin, for the binding that records, leaves
/// the coordinator idle without a session and everything else as it was; any other report
/// changes nothing.
pub proof fn law_start_result_by_fields(s: CoordinatorView, binding_id: Seq<char>, started: bool)
    ensures
        !started && s.stage == StageView::Recording(binding_id) ==> s.after_start_result(
            binding_id,
            started,
        ) == (CoordinatorView {
            stage: StageView::Idle,
            hold: None,
            last_press: s.last_press,
            pending_release: s.pending_release,
            pending_press: s.pending_press,
            session_post_process: None,
            session_mode: None,
        }),
        started || s.stage != StageView::Recording(binding_id) ==> s.after_start_result(
            binding_id,
            started,
        ) == s,
{
}

/// The loop can take any wake-up, unless it is a key-up stamped less than 50 ms before the
/// end of the clock.
pub proof fn law_every_wake_is_admissible_within_the_clock(s: CoordinatorView, wake: WakeView)
    requires
        wake matches WakeView::Command(CommandView::Input(input)) ==> input.is_pressed
            || input.received_at.nanos + 50_000_000 <= u128::MAX,
    ensures
        s.wake_admissible(wake),
        wake matches WakeView::Command(command) ==> s.command_admissible(command),
{
}

/// What a key-up below the threshold locks, a key-up at it stops, in one and the same state:
/// the two outcomes part exactly at the `hold_threshold` of the input.
pub proof fn law_outcomes_part_at_the_threshold(
    release: ReleaseView,
    pressed_at: Instant,
    s: CoordinatorView,
    threshold: Duration,
)
    requires
        s.stage == StageView::Recording(release.binding_id),
        s.hold == Some(Hold { pressed_at, locked: false }),
        s.pending_press is None,
        0 < threshold.nanos,
        pressed_at.nanos + threshold.nanos <= u128::MAX,
    ensures
        ({
            let at = CoordinatorView {
                pending_release: Some(
                    ReleaseView {
                        released_at: Instant { nanos: (pressed_at.nanos + threshold.nanos) as u128 },
                        hold_threshold: threshold,
                        ..release
                    },
                ),
                ..s
            };
            let below = CoordinatorView {
                pending_release: Some(
                    ReleaseView {
                        released_at: Instant {
                            nanos: (pressed_at.nanos + threshold.nanos - 1) as u128,
                        },
                        hold_threshold: threshold,
                        ..release
                    },
                ),
                ..s
            };
            &&& at.wake_step(WakeView::GraceElapsed) is Run
            &&& below.wake_step(WakeView::GraceElapsed) == StepView::Wait
            &&& below.after_wake(WakeView::GraceElapsed).hold == Some(
                Hold { pressed_at, locked: true },
            )
        }),
{
}

} // verus!
