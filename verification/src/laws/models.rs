//! That the models say what the values hold, and what the small words of the contracts
//! come down to: integers, characters and fields.

use crate::classify::{BusyAction, PttAction, Remembered};
use crate::driver::{Step, StepView, Wake, WakeView};
use crate::event::{
    Command, CommandView, Effect, EffectView, InputEvent, InputView, ShortcutActivation,
};
use crate::model::{
    CoordinatorView, PressView, ReleaseView, StageView, DEBOUNCE_NANOS, RELEASE_GRACE_NANOS,
};
use crate::state::{CoordinatorState, PendingPress, PendingRelease, Stage};
use crate::time::{Duration, Instant, NANOS_PER_MILLI};
use vstd::prelude::*;

verus! {

/// The debounce window is 30 ms and the release grace 50 ms, in nanoseconds.
pub proof fn law_windows_in_nanoseconds()
    ensures
        NANOS_PER_MILLI == 1_000_000,
        DEBOUNCE_NANOS == 30_000_000,
        RELEASE_GRACE_NANOS == 50_000_000,
        crate::model::release_grace().nanos == 50_000_000,
{
}

/// The span between two points is their difference, and nothing where they are the other
/// way round. The point that lies a span later does so exactly, as far as the clock goes.
pub proof fn law_time_is_counted_in_integers(a: Instant, b: Instant, d: Duration)
    ensures
        a.nanos <= b.nanos ==> crate::time::duration_between(a, b).nanos == b.nanos - a.nanos,
        b.nanos <= a.nanos ==> crate::time::duration_between(a, b).nanos == 0,
        crate::time::representable(a, d) <==> a.nanos + d.nanos <= u128::MAX,
        a.nanos + d.nanos <= u128::MAX ==> crate::time::instant_after(a, d).nanos == a.nanos
            + d.nanos,
{
}

/// Going a span forward and measuring back gives the span.
pub proof fn law_a_span_forward_measures_back(t: Instant, d: Duration)
    requires
        t.nanos + d.nanos <= u128::MAX,
    ensures
        crate::time::duration_between(t, crate::time::instant_after(t, d)) == d,
{
}

/// Exactly two bindings transcribe, and only the second starts with post-processing on.
pub proof fn law_two_bindings_by_name(id: Seq<char>)
    ensures
        crate::binding::transcribe_binding(id) <==> id == "transcribe"@ || id
            == "transcribe_with_post_process"@,
        crate::binding::seeded_post_process(id) <==> id == "transcribe_with_post_process"@,
{
}

/// The threshold of an input is the one it carries in hold-or-toggle mode, and nothing in
/// the other two.
pub proof fn law_threshold_is_the_inputs_own(input: InputView)
    ensures
        input.mode == ShortcutActivation::HoldOrToggle ==> input.effective_hold_threshold()
            == input.hold_threshold,
        input.mode == ShortcutActivation::PushToTalk ==> input.effective_hold_threshold().nanos
            == 0,
        input.mode == ShortcutActivation::Toggle ==> input.effective_hold_threshold().nanos == 0,
{
}

/// What a state is locked by, whose key it takes to be down, and when a release counts.
pub proof fn law_locked_and_held_by_fields(s: CoordinatorView, mode: ShortcutActivation)
    ensures
        s.locked() <==> (s.hold is Some && s.hold->0.locked) || (s.pending_press is Some
            && s.pending_press->0.locked),
        s.hold_to_talk(mode) <==> mode != ShortcutActivation::Toggle && !(s.hold is Some
            && s.hold->0.locked) && !(s.pending_press is Some && s.pending_press->0.locked),
        s.stage is Idle ==> s.held_binding() is None,
        s.stage is Recording ==> s.held_binding() == Some(s.stage->Recording_0),
        s.stage is Processing && s.pending_press is None ==> s.held_binding() is None,
        s.stage is Processing && s.pending_press is Some ==> s.held_binding() == Some(
            s.pending_press->0.binding_id,
        ),
{
}

/// What a key edge does to the release held back, by its four conditions: only where
/// releases count; a press of the very key takes it back; a release of the key that is
/// down is held back if none is yet.
pub proof fn law_key_edges_by_conditions(
    pending: Option<Seq<char>>,
    is_pressed: bool,
    hold_to_talk: bool,
    binding_id: Seq<char>,
    held: Option<Seq<char>>,
)
    ensures
        ({
            let action = crate::classify::ptt_action(
                pending,
                is_pressed,
                hold_to_talk,
                binding_id,
                held,
            );
            &&& action == PttAction::CancelRelease <==> hold_to_talk && is_pressed && pending
                is Some && pending->0 == binding_id
            &&& action == PttAction::DeferRelease <==> hold_to_talk && !is_pressed && pending
                is None && held is Some && held->0 == binding_id
        }),
{
}

/// What a busy pipeline does with an input, by its three conditions: only presses count;
/// one is remembered exactly if none was; a second takes the first back exactly if that
/// was locked or the press toggles.
pub proof fn law_busy_inputs_by_conditions(
    is_pressed: bool,
    mode: ShortcutActivation,
    remembered: Option<Remembered>,
)
    ensures
        ({
            let action = crate::classify::busy_action(is_pressed, mode, remembered);
            &&& action == BusyAction::Remember <==> is_pressed && remembered is None
            &&& action == BusyAction::Forget <==> is_pressed && remembered is Some && (
            remembered == Some(Remembered::Locked) || mode == ShortcutActivation::Toggle)
        }),
{
}

/// A remembered press counts as locked exactly if it is.
pub proof fn law_remembered_kind_is_the_lock(p: PressView)
    ensures
        p.remembered() == Remembered::Locked <==> p.locked,
        p.remembered() == Remembered::Held <==> !p.locked,
{
}

/// Before anything has happened the coordinator is idle and holds nothing.
pub proof fn law_initial_state_holds_nothing()
    ensures
        ({
            let s = CoordinatorView::initial();
            &&& s.stage is Idle
            &&& s.hold is None
            &&& s.last_press is None
            &&& s.pending_release is None
            &&& s.pending_press is None
            &&& s.session_post_process is None
            &&& s.session_mode is None
        }),
{
}

/// The invariant, by fields.
pub proof fn law_invariant_by_fields(s: CoordinatorView)
    ensures
        s.inv() <==> {
            &&& (s.hold is Some) == (s.stage is Recording)
            &&& (s.session_post_process is Some) == (s.stage is Recording)
            &&& (s.session_mode is Some) == (s.stage is Recording)
            &&& s.pending_press is Some ==> s.stage is Processing
            &&& s.session_mode == Some(ShortcutActivation::Toggle) ==> s.hold is Some
                && s.hold->0.locked
            &&& s.pending_press is Some && s.pending_press->0.mode == ShortcutActivation::Toggle
                ==> s.pending_press->0.locked
            &&& s.pending_release is Some ==> s.pending_release->0.deadline.nanos
                == s.pending_release->0.released_at.nanos + 50_000_000
            &&& s.pending_release is Some && s.stage is Processing ==> s.pending_press is Some
                && s.pending_press->0.binding_id == s.pending_release->0.binding_id
                && !s.pending_press->0.locked
        },
{
}

/// The model of an input holds every field of it.
pub proof fn law_input_model_is_faithful(input: InputEvent)
    ensures
        input@.binding_id == input.binding_id@,
        input@.hotkey_string == input.hotkey_string@,
        input@.is_pressed == input.is_pressed,
        input@.mode == input.mode,
        input@.hold_threshold == input.hold_threshold,
        input@.external == input.external,
        input@.received_at == input.received_at,
{
}

/// The model of an effect holds every field of it, and an effect is there in the model
/// exactly if it is there.
pub proof fn law_effect_model_is_faithful(effect: Effect)
    ensures
        effect matches Effect::Start { binding_id, hotkey_string } ==> effect@
            == (EffectView::Start { binding_id: binding_id@, hotkey_string: hotkey_string@ }),
        effect matches Effect::Stop { binding_id, hotkey_string, post_process } ==> effect@
            == (EffectView::Stop {
            binding_id: binding_id@,
            hotkey_string: hotkey_string@,
            post_process,
        }),
        effect matches Effect::PostProcessToggled { enabled } ==> effect@
            == (EffectView::PostProcessToggled { enabled }),
        crate::event::effect_view(Some(effect)) == Some(effect@),
        crate::event::effect_view(None) is None,
{
}

/// The models of commands, wake-ups and steps hold what they carry.
pub proof fn law_loop_models_are_faithful(
    input: InputEvent,
    recording_was_active: bool,
    command: Command,
    effect: Effect,
)
    ensures
        Command::Input(input)@ == CommandView::Input(input@),
        (Command::Cancel { recording_was_active })@ == (CommandView::Cancel {
            recording_was_active,
        }),
        Command::ProcessingFinished@ == CommandView::ProcessingFinished,
        Wake::Command(command)@ == WakeView::Command(command@),
        Wake::GraceElapsed@ == WakeView::GraceElapsed,
        Wake::Disconnected@ == WakeView::Disconnected,
        Step::Wait@ == StepView::Wait,
        Step::Run(effect)@ == StepView::Run(effect@),
        Step::Exit@ == StepView::Exit,
{
}

/// The models of a deferred release and of a remembered press hold every field of them.
pub proof fn law_pending_models_are_faithful(r: PendingRelease, p: PendingPress)
    ensures
        r@ == (ReleaseView {
            binding_id: r.binding_id@,
            hotkey_string: r.hotkey_string@,
            deadline: r.deadline,
            released_at: r.released_at,
            hold_threshold: r.hold_threshold,
        }),
        p@ == (PressView {
            binding_id: p.binding_id@,
            hotkey_string: p.hotkey_string@,
            pressed_at: p.pressed_at,
            locked: p.locked,
            mode: p.mode,
        }),
{
}

/// The model of the coordinator holds every field of it.
pub proof fn law_state_model_is_faithful(state: CoordinatorState)
    ensures
        state.stage is Idle <==> state@.stage is Idle,
        state.stage is Processing <==> state@.stage is Processing,
        state.stage matches Stage::Recording(id) ==> state@.stage == StageView::Recording(id@),
        state@.hold == state.hold,
        state@.last_press == state.last_press,
        state.pending_release is None ==> state@.pending_release is None,
        state.pending_release matches Some(r) ==> state@.pending_release == Some(r@),
        state.pending_press is None ==> state@.pending_press is None,
        state.pending_press matches Some(p) ==> state@.pending_press == Some(p@),
        state@.session_post_process == state.session_post_process,
        state@.session_mode == state.session_mode,
{
}

} // verus!
