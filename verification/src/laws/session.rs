//! The session's post-processing choice: where it comes from, what may change it, and
//! where it ends up.

use crate::event::{EffectView, InputView, ShortcutActivation};
use crate::laws::hold::Edge;
use crate::model::{CoordinatorView, StageView};
use crate::time::Instant;
use vstd::prelude::*;

verus! {

/// A session takes its choice from the binding that starts it and from nothing before
/// it: no switch in an earlier session lives on.
pub proof fn law_choice_is_seeded_by_the_starting_binding(
    s: CoordinatorView,
    input: InputView,
    now: Instant,
)
    ensures
        s.verdict(input, now) is Start ==> {
            let after = s.after_input(input, now);
            &&& after.session_post_process == Some(
                crate::binding::seeded_post_process(input.binding_id),
            )
            &&& after.session_mode == Some(input.mode)
        },
        s.pending_press matches Some(p) ==> {
            let after = s.after_drain();
            &&& after.session_post_process == Some(crate::binding::seeded_post_process(p.binding_id))
            &&& after.session_mode == Some(p.mode)
        },
{
}

/// Plain `transcribe` starts raw; `transcribe_with_post_process` starts with
/// post-processing on; both are transcribe bindings.
pub proof fn law_the_two_bindings_seed_opposite_choices()
    ensures
        !crate::binding::seeded_post_process("transcribe"@),
        crate::binding::seeded_post_process("transcribe_with_post_process"@),
        crate::binding::transcribe_binding("transcribe"@),
        crate::binding::transcribe_binding("transcribe_with_post_process"@),
{
    reveal_strlit("transcribe");
    reveal_strlit("transcribe_with_post_process");
    assert("transcribe"@.len() != "transcribe_with_post_process"@.len());
}

/// The two transcribe bindings are each other's switch, and what decides is the session,
/// not the press: a press of the other one, unless it bounces, flips the choice exactly
/// when the session is locked, whatever mode the press reports and wherever it comes
/// from. Otherwise it has no effect and the choice stays.
pub proof fn law_session_alone_decides_the_switch(
    s: CoordinatorView,
    id: Seq<char>,
    input: InputView,
    now: Instant,
)
    requires
        s.inv(),
        s.stage == StageView::Recording(id),
        input.is_pressed,
        input.binding_id != id,
        crate::binding::transcribe_binding(input.binding_id),
        !(s.verdict(input, now) is Debounce),
    ensures
        s.locked() ==> {
            &&& s.input_effect(input, now) == Some(
                EffectView::PostProcessToggled { enabled: !s.session_post_process->0 },
            )
            &&& s.after_input(input, now).session_post_process == Some(
                !s.session_post_process->0,
            )
        },
        !s.locked() ==> {
            &&& s.input_effect(input, now) is None
            &&& s.after_input(input, now).session_post_process == s.session_post_process
        },
{
}

/// A switch flips the choice and nothing else, but for the time of the last press.
pub proof fn law_switch_flips_only_the_choice(s: CoordinatorView, input: InputView, now: Instant)
    requires
        s.verdict(input, now) is Switch,
    ensures
        s.session_post_process is Some,
        s.after_input(input, now) == (CoordinatorView {
            session_post_process: Some(!s.session_post_process->0),
            last_press: s.last_press_after(input, now),
            ..s
        }),
{
}

/// Flipping twice restores the state.
pub proof fn law_two_flips_restore(s: CoordinatorView)
    ensures
        s.flipped().flipped() == s,
{
}

/// Any number of switches: an odd number flips the choice, an even number restores it,
/// recording goes on, and the last flip is what a stop locks in.
pub proof fn law_last_switch_wins(s: CoordinatorView, id: Seq<char>, switches: Seq<Edge>)
    requires
        s.inv(),
        s.stage == StageView::Recording(id),
        s.locked(),
        forall|i: int|
            0 <= i < switches.len() ==> {
                let input = (#[trigger] switches[i]).input;
                &&& input.is_pressed
                &&& input.binding_id != id
                &&& crate::binding::transcribe_binding(input.binding_id)
            },
        crate::laws::busy::none_debounced(s, switches),
    ensures
        ({
            let after = crate::laws::busy::after_edges(s, switches);
            let odd = switches.len() % 2 == 1;
            let choice = s.session_post_process->0 != odd;
            &&& after == CoordinatorView {
                session_post_process: Some(choice),
                last_press: after.last_press,
                ..s
            }
            &&& forall|hotkey_string: Seq<char>|
                #![auto]
                after.stop_effect(id, hotkey_string) == (EffectView::Stop {
                    binding_id: id,
                    hotkey_string,
                    post_process: choice,
                })
        }),
    decreases switches.len(),
{
    if switches.len() > 0 {
        let first = switches.first();
        assert(first == switches[0]);
        let next = s.after_input(first.input, first.at);
        let rest = switches.drop_first();
        assert(s.verdict(first.input, first.at) is Switch);
        assert forall|i: int| 0 <= i < rest.len() implies {
            let input = (#[trigger] rest[i]).input;
            &&& input.is_pressed
            &&& input.binding_id != id
            &&& crate::binding::transcribe_binding(input.binding_id)
        } by {
            assert(rest[i] == switches[i + 1]);
        }
        law_last_switch_wins(next, id, rest);
    }
}

/// An input that leaves the recording running changes the choice only by a switch; the
/// session's mode it never changes.
pub proof fn law_only_a_switch_changes_the_choice(
    s: CoordinatorView,
    input: InputView,
    now: Instant,
)
    requires
        s.is_recording(),
        s.after_input(input, now).is_recording(),
    ensures
        s.after_input(input, now).session_mode == s.session_mode,
        s.verdict(input, now) is Switch || s.after_input(input, now).session_post_process
            == s.session_post_process,
{
}

/// What ends a recording carries the session's choice, whether it is an input or the end
/// of a grace window, and the session is gone with it.
pub proof fn law_stop_carries_the_choice(s: CoordinatorView, input: InputView, now: Instant)
    requires
        s.inv(),
    ensures
        s.input_effect(input, now) matches Some(EffectView::Stop { post_process, .. }) ==> {
            &&& s.session_post_process == Some(post_process)
            &&& s.after_input(input, now).session_post_process is None
            &&& s.after_input(input, now).session_mode is None
        },
        s.grace_effect() matches Some(EffectView::Stop { post_process, .. }) ==> {
            &&& s.session_post_process == Some(post_process)
            &&& s.after_grace().session_post_process is None
            &&& s.after_grace().session_mode is None
        },
{
}

/// Once recording has ended no press switches anything: a busy pipeline has no session,
/// and no input gives it one.
pub proof fn law_no_switch_once_recording_ended(s: CoordinatorView, input: InputView, now: Instant)
    requires
        s.inv(),
        s.stage is Processing,
    ensures
        !(s.input_effect(input, now) matches Some(e) && e is PostProcessToggled),
        s.after_input(input, now).session_post_process is None,
        s.after_input(input, now).session_mode is None,
{
}

/// A session that started under a hold mode and is still held keeps the choice that its
/// binding seeded, whatever is pressed.
pub proof fn law_held_session_never_switches(s: CoordinatorView, input: InputView, now: Instant)
    requires
        s.inv(),
        s.is_recording(),
        !s.locked(),
    ensures
        s.session_mode != Some(ShortcutActivation::Toggle),
        !(s.input_effect(input, now) matches Some(e) && e is PostProcessToggled),
        s.after_input(input, now).is_recording() ==> s.after_input(input, now).session_post_process
            == s.session_post_process,
{
}

} // verus!
