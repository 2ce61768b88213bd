//! How effects and stages go together, and what a cancel or a failed start leaves behind.

use crate::event::{EffectView, InputView, ShortcutActivation};
use crate::model::{CoordinatorView, StageView};
use crate::time::Instant;
use vstd::prelude::*;

verus! {

/// An input asks for a start only when idle, and then its binding records; it asks for a
/// stop only of the binding that records, and then the pipeline is busy; it flips the
/// post-processing choice only while recording, which goes on. Without an effect the
/// stage stays what it was.
pub proof fn law_input_effects_match_stages(s: CoordinatorView, input: InputView, now: Instant)
    ensures
        match s.input_effect(input, now) {
            Some(EffectView::Start { binding_id, hotkey_string }) => {
                &&& s.stage is Idle
                &&& input.is_pressed
                &&& binding_id == input.binding_id
                &&& hotkey_string == input.hotkey_string
                &&& s.after_input(input, now).stage == StageView::Recording(binding_id)
            },
            Some(EffectView::Stop { binding_id, hotkey_string, .. }) => {
                &&& s.stage == StageView::Recording(binding_id)
                &&& binding_id == input.binding_id
                &&& hotkey_string == input.hotkey_string
                &&& s.after_input(input, now).stage is Processing
            },
            Some(EffectView::PostProcessToggled { .. }) => {
                &&& s.is_recording()
                &&& input.is_pressed
                &&& s.after_input(input, now).stage == s.stage
            },
            None => s.after_input(input, now).stage == s.stage,
        },
{
}

/// The end of a grace window asks for nothing but a stop of the binding that records,
/// after which the pipeline is busy. Without an effect the stage stays what it was.
/// Either way no release is held back any more.
pub proof fn law_grace_effects_match_stages(s: CoordinatorView)
    ensures
        match s.grace_effect() {
            Some(effect) => {
                &&& effect matches EffectView::Stop { binding_id, .. }
                &&& s.stage == StageView::Recording(binding_id)
                &&& s.after_grace().stage is Processing
            },
            None => s.after_grace().stage == s.stage,
        },
        s.after_grace().pending_release is None,
{
}

/// A drain leaves nothing remembered: it starts the remembered press, which then
/// records, or leaves the coordinator idle.
pub proof fn law_drain_effects_match_stages(s: CoordinatorView)
    ensures
        match s.drain_effect() {
            Some(effect) => {
                &&& effect matches EffectView::Start { binding_id, .. }
                &&& s.after_drain().stage == StageView::Recording(binding_id)
            },
            None => s.after_drain().stage is Idle,
        },
        s.after_drain().pending_press is None,
{
}

/// Recording starts on key-down in every mode: an idle coordinator starts on any press
/// that is neither a bounce nor the second half of an auto-repeat pair.
pub proof fn law_press_starts_in_every_mode(s: CoordinatorView, input: InputView, now: Instant)
    requires
        s.stage is Idle,
        input.is_pressed,
        input.external || !s.within_debounce(now),
        !(s.ptt_action(input) is CancelRelease),
    ensures
        s.input_effect(input, now) == Some(
            EffectView::Start { binding_id: input.binding_id, hotkey_string: input.hotkey_string },
        ),
        s.after_input(input, now).stage == StageView::Recording(input.binding_id),
        s.after_input(input, now).session_mode == Some(input.mode),
        s.after_input(input, now).hold matches Some(h) && h.pressed_at == now && h.locked == (
        input.mode == ShortcutActivation::Toggle),
{
}

/// A start that did not begin recording leaves the coordinator as if the press had done
/// nothing but count for the debounce window.
pub proof fn law_failed_start_rolls_back(s: CoordinatorView, input: InputView, now: Instant)
    requires
        s.inv(),
        s.verdict(input, now) is Start,
    ensures
        s.after_input(input, now).after_start_result(input.binding_id, false) == (CoordinatorView {
            last_press: s.last_press_after(input, now),
            ..s
        }),
{
}

/// A start after a drain that did not begin recording leaves the coordinator as if
/// nothing had been remembered.
pub proof fn law_failed_drain_start_rolls_back(s: CoordinatorView, binding_id: Seq<char>)
    requires
        s.pending_press matches Some(p) && p.binding_id == binding_id,
    ensures
        s.after_drain().after_start_result(binding_id, false) == (CoordinatorView {
            pending_press: None,
            ..s
        }).after_drain(),
{
}

/// A report of success, or one for a binding that does not record, changes nothing.
pub proof fn law_other_start_results_change_nothing(
    s: CoordinatorView,
    binding_id: Seq<char>,
    started: bool,
)
    requires
        started || s.stage != StageView::Recording(binding_id),
    ensures
        s.after_start_result(binding_id, started) == s,
{
}

/// After a cancel nothing is held back, remembered or locked. A busy pipeline is left to
/// finish, and its drain starts nothing; anything else ends up idle.
pub proof fn law_cancel_leaves_nothing_to_start(s: CoordinatorView, recording_was_active: bool)
    requires
        s.inv(),
    ensures
        ({
            let after = s.after_cancel(recording_was_active);
            &&& after.pending_release is None
            &&& after.pending_press is None
            &&& !after.locked()
            &&& s.stage is Processing ==> after.stage is Processing
            &&& !(s.stage is Processing) ==> after.stage is Idle
            &&& after.drain_effect() is None
            &&& after.after_drain().stage is Idle
            &&& after.grace_effect() is None
        }),
{
}

/// Cancelling again changes nothing.
pub proof fn law_cancel_is_idempotent(s: CoordinatorView, first: bool, second: bool)
    requires
        s.inv(),
    ensures
        s.after_cancel(first).after_cancel(second) == s.after_cancel(first),
{
}

/// Once a recording is cancelled, the next press starts a fresh one instead of stopping
/// a dead one.
pub proof fn law_press_after_cancel_starts_afresh(
    s: CoordinatorView,
    recording_was_active: bool,
    input: InputView,
    now: Instant,
)
    requires
        s.inv(),
        !(s.stage is Processing),
        input.is_pressed,
        input.external || !s.within_debounce(now),
    ensures
        s.after_cancel(recording_was_active).input_effect(input, now) == Some(
            EffectView::Start { binding_id: input.binding_id, hotkey_string: input.hotkey_string },
        ),
{
}

} // verus!
