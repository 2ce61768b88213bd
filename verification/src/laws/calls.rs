//! What a caller may rely on from a call, told by the values that go in and come out.

use crate::classify::{classify_busy_input, classify_ptt_event, BusyAction, PttAction, Remembered};
use crate::driver::{StartReport, Step, StepView, Wake, WakeView};
use crate::event::{Command, CommandView, Effect, InputEvent, ShortcutActivation};
use crate::model::{CoordinatorView, StageView};
use crate::state::{CoordinatorState, Hold, PendingPress};
use crate::time::{Duration, Instant};
use vstd::prelude::*;

verus! {

/// A keyboard edge carries what it was made from, the threshold among it, and is never
/// external.
pub proof fn law_keyboard_edge_carries_its_parts(
    binding_id: &str,
    hotkey_string: &str,
    is_pressed: bool,
    mode: ShortcutActivation,
    hold_threshold: Duration,
    received_at: Instant,
    input: InputEvent,
)
    requires
        call_ensures(
            InputEvent::keyboard,
            (binding_id, hotkey_string, is_pressed, mode, hold_threshold, received_at),
            input,
        ),
    ensures
        input.binding_id@ == binding_id@,
        input.hotkey_string@ == hotkey_string@,
        input.is_pressed == is_pressed,
        input.mode == mode,
        input.hold_threshold == hold_threshold,
        input.received_at == received_at,
        !input.external,
{
}

/// An external trigger is a toggle press, exempt from debounce, with the stamp it was given.
pub proof fn law_external_trigger_is_a_toggle_press(
    binding_id: &str,
    source: &str,
    received_at: Instant,
    input: InputEvent,
)
    requires
        call_ensures(InputEvent::external_trigger, (binding_id, source, received_at), input),
    ensures
        input.binding_id@ == binding_id@,
        input.hotkey_string@ == source@,
        input.is_pressed,
        input.mode == ShortcutActivation::Toggle,
        input.hold_threshold.nanos == 0,
        input.received_at == received_at,
        input.external,
{
}

/// The threshold of an input that a caller gets is the one the input carries in
/// hold-or-toggle mode, and nothing otherwise.
pub proof fn law_threshold_call(input: InputEvent, d: Duration)
    requires
        call_ensures(InputEvent::effective_hold_threshold, (&input,), d),
    ensures
        input.mode == ShortcutActivation::HoldOrToggle ==> d == input.hold_threshold,
        input.mode != ShortcutActivation::HoldOrToggle ==> d.nanos == 0,
{
}

/// Recording began exactly if an action ran and left a recorder active.
pub proof fn law_start_report_call(report: StartReport, began: bool)
    requires
        call_ensures(StartReport::began, (&report,), began),
    ensures
        began <==> report is Ran && report->recorder == Some(true),
{
}

/// Milliseconds come out as nanoseconds, and a span as the difference of its ends.
pub proof fn law_time_calls(millis: u64, span: Duration, a: Instant, b: Instant, between: Duration)
    requires
        call_ensures(Duration::from_millis, (millis,), span),
        call_ensures(Instant::saturating_duration_since, (&b, a), between),
    ensures
        span.nanos == millis * 1_000_000,
        a.nanos <= b.nanos ==> a.nanos + between.nanos == b.nanos,
        b.nanos <= a.nanos ==> between.nanos == 0,
{
}

/// Only the two bindings are transcribe bindings.
pub proof fn law_binding_call(id: &str, r: bool)
    requires
        call_ensures(crate::binding::is_transcribe_binding, (id,), r),
    ensures
        r <==> id@ == "transcribe"@ || id@ == "transcribe_with_post_process"@,
{
}

/// A new coordinator is idle and holds nothing.
pub proof fn law_new_call(state: CoordinatorState)
    requires
        call_ensures(CoordinatorState::new, (), state),
    ensures
        state.stage is Idle,
        state.hold is None,
        state.last_press is None,
        state.pending_release is None,
        state.pending_press is None,
        state.session_post_process is None,
        state.session_mode is None,
{
}

/// What a caller learns of a state: the deadline of its deferred release, whether it is
/// locked, and how long to wait.
pub proof fn law_state_calls(
    state: CoordinatorState,
    deadline: Option<Instant>,
    locked: bool,
    now: Instant,
    wait: Option<Duration>,
)
    requires
        call_ensures(CoordinatorState::grace_deadline, (&state,), deadline),
        call_ensures(CoordinatorState::is_locked, (&state,), locked),
        call_ensures(CoordinatorState::next_wait, (&state, now), wait),
    ensures
        state.pending_release is None ==> deadline is None && wait is None,
        state.pending_release matches Some(r) ==> {
            &&& deadline == Some(r.deadline)
            &&& wait is Some
            &&& now.nanos <= r.deadline.nanos ==> now.nanos + wait->0.nanos == r.deadline.nanos
            &&& now.nanos >= r.deadline.nanos ==> wait->0.nanos == 0
        },
        locked <==> (state.hold is Some && state.hold->0.locked) || (state.pending_press is Some
            && state.pending_press->0.locked),
{
}

/// A remembered press is held or locked by its field.
pub proof fn law_remembered_call(p: PendingPress, r: Remembered)
    requires
        call_ensures(PendingPress::remembered, (&p,), r),
    ensures
        r == Remembered::Locked <==> p.locked,
        r == Remembered::Held <==> !p.locked,
{
}

/// What the two classifiers answer, by the conditions on what they were asked.
pub proof fn law_classifier_calls(
    pending: Option<&str>,
    is_pressed: bool,
    hold_to_talk: bool,
    binding_id: &str,
    held: Option<&str>,
    action: PttAction,
    mode: ShortcutActivation,
    remembered: Option<Remembered>,
    busy: BusyAction,
)
    requires
        call_ensures(
            classify_ptt_event,
            (pending, is_pressed, hold_to_talk, binding_id, held),
            action,
        ),
        call_ensures(classify_busy_input, (is_pressed, mode, remembered), busy),
    ensures
        action == PttAction::CancelRelease <==> hold_to_talk && is_pressed && pending is Some
            && pending->0@ == binding_id@,
        action == PttAction::DeferRelease <==> hold_to_talk && !is_pressed && pending is None
            && held is Some && held->0@ == binding_id@,
        busy == BusyAction::Remember <==> is_pressed && remembered is None,
        busy == BusyAction::Forget <==> is_pressed && remembered is Some && (remembered == Some(
            Remembered::Locked,
        ) || mode == ShortcutActivation::Toggle),
{
}

/// Every handler does to the state what the loop's wake-up of its kind does, and answers
/// with what the loop would run.
pub proof fn law_handler_calls_agree_with_the_loop()
    ensures
        forall|m: &mut CoordinatorState, input: InputEvent, now: Instant, e: Option<Effect>|
            #[trigger] call_ensures(CoordinatorState::on_input, (m, input, now), e) ==> {
                &&& (*final(m))@ == (*m)@.after_input(input@, now)
                &&& e is None ==> (*m)@.input_effect(input@, now) is None
                &&& e is Some ==> (*m)@.input_effect(input@, now) == Some(e->0@)
            },
        forall|m: &mut CoordinatorState, e: Option<Effect>| #[trigger]
            call_ensures(CoordinatorState::on_grace_expired, (m,), e) ==> {
                &&& (*final(m))@ == (*m)@.after_wake(WakeView::GraceElapsed)
                &&& e is None ==> (*m)@.wake_step(WakeView::GraceElapsed) == StepView::Wait
                &&& e is Some ==> (*m)@.wake_step(WakeView::GraceElapsed) == StepView::Run(e->0@)
            },
        forall|m: &mut CoordinatorState, recording_was_active: bool| #[trigger]
            call_ensures(CoordinatorState::on_cancel, (m, recording_was_active), ())
                ==> (*final(m))@ == (*m)@.after_wake(
                WakeView::Command(CommandView::Cancel { recording_was_active }),
            ),
        forall|m: &mut CoordinatorState, e: Option<Effect>| #[trigger]
            call_ensures(CoordinatorState::on_processing_finished, (m,), e) ==> {
                let drain = WakeView::Command(CommandView::ProcessingFinished);
                &&& (*final(m))@ == (*m)@.after_wake(drain)
                &&& e is None ==> (*m)@.wake_step(drain) == StepView::Wait
                &&& e is Some ==> (*m)@.wake_step(drain) == StepView::Run(e->0@)
            },
        forall|m: &mut CoordinatorState, command: Command, e: Option<Effect>| #[trigger]
            call_ensures(CoordinatorState::on_command, (m, command), e) ==> {
                &&& (*final(m))@ == (*m)@.after_wake(WakeView::Command(command@))
                &&& e is None ==> (*m)@.wake_step(WakeView::Command(command@)) == StepView::Wait
                &&& e is Some ==> (*m)@.wake_step(WakeView::Command(command@)) == StepView::Run(
                    e->0@,
                )
            },
        forall|m: &mut CoordinatorState, wake: Wake, step: Step| #[trigger]
            call_ensures(CoordinatorState::on_wake, (m, wake), step) ==> {
                &&& (*final(m))@ == (*m)@.after_wake(wake@)
                &&& step@ == (*m)@.wake_step(wake@)
            },
{
}

/// Every handler can be called in every state, with every input, cancel, report and
/// wake-up, unless it is a key-up stamped less than 50 ms before the end of the clock.
pub proof fn law_handlers_can_be_called()
    ensures
        forall|m: &mut CoordinatorState, input: InputEvent, now: Instant|
            input.is_pressed || now.nanos + 50_000_000 <= u128::MAX ==> #[trigger] call_requires(
                CoordinatorState::on_input,
                (m, input, now),
            ),
        forall|m: &mut CoordinatorState, wake: Wake|
            (wake matches Wake::Command(Command::Input(input)) ==> input.is_pressed
                || input.received_at.nanos + 50_000_000 <= u128::MAX) ==> #[trigger] call_requires(
                CoordinatorState::on_wake,
                (m, wake),
            ),
        forall|m: &mut CoordinatorState, command: Command|
            (command matches Command::Input(input) ==> input.is_pressed || input.received_at.nanos
                + 50_000_000 <= u128::MAX) ==> #[trigger] call_requires(
                CoordinatorState::on_command,
                (m, command),
            ),
        forall|m: &mut CoordinatorState| #[trigger]
            call_requires(CoordinatorState::on_grace_expired, (m,)),
        forall|m: &mut CoordinatorState, active: bool| #[trigger]
            call_requires(CoordinatorState::on_cancel, (m, active)),
        forall|m: &mut CoordinatorState| #[trigger]
            call_requires(CoordinatorState::on_processing_finished, (m,)),
        forall|m: &mut CoordinatorState, binding_id: &str, started: bool| #[trigger]
            call_requires(CoordinatorState::on_start_result, (m, binding_id, started)),
        forall|m: &mut CoordinatorState, binding_id: &str, report: StartReport| #[trigger]
            call_requires(CoordinatorState::on_start_report, (m, binding_id, report)),
{
}

/// A report that recording did not begin, for the binding that records, leaves the
/// coordinator idle without a session; any other changes nothing. It began exactly if an
/// action ran and left a recorder active.
pub proof fn law_start_result_calls()
    ensures
        forall|m: &mut CoordinatorState, binding_id: &str, started: bool| #[trigger]
            call_ensures(CoordinatorState::on_start_result, (m, binding_id, started), ()) ==> {
                let hit = (*m)@.stage == StageView::Recording(binding_id@);
                &&& !started && hit ==> (*final(m))@.stage is Idle && (*final(m))@.hold is None
                &&& started || !hit ==> (*final(m))@ == (*m)@
            },
        forall|m: &mut CoordinatorState, binding_id: &str, report: StartReport| #[trigger]
            call_ensures(CoordinatorState::on_start_report, (m, binding_id, report), ()) ==> {
                let hit = (*m)@.stage == StageView::Recording(binding_id@);
                let began = report is Ran && report->recorder == Some(true);
                &&& !began && hit ==> (*final(m))@.stage is Idle && (*final(m))@.hold is None
                &&& began || !hit ==> (*final(m))@ == (*m)@
            },
{
}

/// Finishing a hold, by stamps: long enough, or without a record of the key-down, it ends
/// the recording with the session's choice; else it locks it and changes nothing more.
pub proof fn law_finish_hold_calls()
    ensures
        forall|
            m: &mut CoordinatorState,
            binding_id: String,
            hotkey_string: String,
            released_at: Instant,
            threshold: Duration,
            e: Option<Effect>,
        |
            #[trigger] call_ensures(
                CoordinatorState::finish_hold,
                (m, binding_id, hotkey_string, released_at, threshold),
                e,
            ) ==> {
                let before = (*m)@;
                let after = (*final(m))@;
                let long = before.hold is None || threshold.nanos == 0 || released_at.nanos
                    - before.hold->0.pressed_at.nanos >= threshold.nanos;
                &&& e is Some <==> long
                &&& long ==> {
                    &&& after.stage is Processing
                    &&& after.hold is None
                    &&& after.session_post_process is None
                    &&& after.session_mode is None
                    &&& after.pending_release is None
                    &&& after.pending_press == before.pending_press
                    &&& after.last_press == before.last_press
                    &&& e->0@ is Stop
                    &&& e->0@->Stop_binding_id == binding_id@
                    &&& e->0@->Stop_hotkey_string == hotkey_string@
                    &&& before.session_post_process is Some ==> e->0@->post_process
                        == before.session_post_process->0
                    &&& before.session_post_process is None ==> e->0@->post_process == (
                    binding_id@ == "transcribe_with_post_process"@)
                }
                &&& !long ==> after == CoordinatorView {
                    hold: Some(Hold { pressed_at: before.hold->0.pressed_at, locked: true }),
                    ..before
                }
            },
{
}

/// Flipping the choice: while recording with a choice it turns to the other one, which is
/// what the effect says, and nothing else changes; otherwise nothing happens.
pub proof fn law_toggle_choice_calls()
    ensures
        forall|m: &mut CoordinatorState, e: Option<Effect>| #[trigger]
            call_ensures(CoordinatorState::toggle_session_post_process, (m,), e) ==> {
                let before = (*m)@;
                let live = before.stage is Recording && before.session_post_process is Some;
                &&& live ==> {
                    &&& e == Some(
                        Effect::PostProcessToggled { enabled: !before.session_post_process->0 },
                    )
                    &&& (*final(m))@ == (CoordinatorView {
                        session_post_process: Some(!before.session_post_process->0),
                        ..before
                    })
                }
                &&& !live ==> e is None && (*final(m))@ == before
            },
{
}

/// What an input would do to the deferred release, by fields: a press of its key takes it
/// back and a release of a key that is down is held back, where releases count.
pub proof fn law_ptt_action_call(state: CoordinatorState, input: InputEvent, action: PttAction)
    requires
        call_ensures(CoordinatorState::ptt_action, (&state, &input), action),
    ensures
        ({
            let counts = input.mode != ShortcutActivation::Toggle && !(state.hold is Some
                && state.hold->0.locked) && !(state.pending_press is Some
                && state.pending_press->0.locked);
            let down = (state.stage is Recording && state.stage->Recording_0@
                == input.binding_id@) || (state.stage is Processing && state.pending_press is Some
                && state.pending_press->0.binding_id@ == input.binding_id@);
            &&& action == PttAction::CancelRelease <==> counts && input.is_pressed
                && state.pending_release is Some && state.pending_release->0.binding_id@
                == input.binding_id@
            &&& action == PttAction::DeferRelease <==> counts && !input.is_pressed
                && state.pending_release is None && down
        }),
{
}

} // verus!
