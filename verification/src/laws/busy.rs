//! The busy pipeline: presses that wait for the drain.

use crate::event::{EffectView, InputView, ShortcutActivation};
use crate::laws::hold::{Edge, Repeat};
use crate::model::{CoordinatorView, StageView};
use crate::time::Instant;
use vstd::prelude::*;

verus! {

/// The state after a run of edges.
pub open spec fn after_edges(s: CoordinatorView, edges: Seq<Edge>) -> CoordinatorView
    decreases edges.len(),
{
    if edges.len() == 0 {
        s
    } else {
        after_edges(s.after_input(edges.first().input, edges.first().at), edges.drop_first())
    }
}

/// Whether no edge of a run asks for an effect.
pub open spec fn edges_are_silent(s: CoordinatorView, edges: Seq<Edge>) -> bool
    decreases edges.len(),
{
    if edges.len() == 0 {
        true
    } else {
        let first = edges.first();
        &&& s.input_effect(first.input, first.at) is None
        &&& edges_are_silent(s.after_input(first.input, first.at), edges.drop_first())
    }
}

/// Whether no edge of a run is dropped as a bounce.
pub open spec fn none_debounced(s: CoordinatorView, edges: Seq<Edge>) -> bool
    decreases edges.len(),
{
    if edges.len() == 0 {
        true
    } else {
        let first = edges.first();
        &&& !(s.verdict(first.input, first.at) is Debounce)
        &&& none_debounced(s.after_input(first.input, first.at), edges.drop_first())
    }
}

/// A run of external edges is never dropped as bounces.
pub proof fn law_external_edges_all_count(s: CoordinatorView, edges: Seq<Edge>)
    requires
        forall|i: int| 0 <= i < edges.len() ==> (#[trigger] edges[i]).input.external,
    ensures
        none_debounced(s, edges),
    decreases edges.len(),
{
    if edges.len() > 0 {
        let first = edges.first();
        assert(first == edges[0]);
        assert forall|i: int| 0 <= i < edges.drop_first().len() implies (
        #[trigger] edges.drop_first()[i]).input.external by {
            assert(edges.drop_first()[i] == edges[i + 1]);
        }
        law_external_edges_all_count(s.after_input(first.input, first.at), edges.drop_first());
    }
}

/// Toggle parity: of a run of toggle presses of one binding while the pipeline is busy,
/// none of them a bounce, an odd number leaves exactly one start for the drain and an
/// even number leaves none. Nothing happens before the drain, and the start that is left
/// is locked.
pub proof fn law_busy_toggle_parity(s: CoordinatorView, binding_id: Seq<char>, presses: Seq<Edge>)
    requires
        s.stage is Processing,
        s.pending_press matches Some(p) ==> p.binding_id == binding_id && p.locked,
        forall|i: int|
            0 <= i < presses.len() ==> {
                let input = (#[trigger] presses[i]).input;
                &&& input.is_pressed
                &&& input.mode == ShortcutActivation::Toggle
                &&& input.binding_id == binding_id
            },
        none_debounced(s, presses),
    ensures
        edges_are_silent(s, presses),
        ({
            let after = after_edges(s, presses);
            let odd = presses.len() % 2 == 1;
            &&& after.stage is Processing
            &&& after.pending_press matches Some(p) ==> p.binding_id == binding_id && p.locked
            &&& after.pending_press is Some <==> (s.pending_press is Some) != odd
            &&& after.drain_effect() is Some <==> (s.pending_press is Some) != odd
            &&& after.drain_effect() matches Some(e) ==> e matches EffectView::Start {
                binding_id: b,
                ..
            } && b == binding_id
        }),
    decreases presses.len(),
{
    if presses.len() > 0 {
        let first = presses.first();
        assert(first == presses[0]);
        let next = s.after_input(first.input, first.at);
        let rest = presses.drop_first();
        assert forall|i: int| 0 <= i < rest.len() implies {
            let input = (#[trigger] rest[i]).input;
            &&& input.is_pressed
            &&& input.mode == ShortcutActivation::Toggle
            &&& input.binding_id == binding_id
        } by {
            assert(rest[i] == presses[i + 1]);
        }
        assert(next.stage is Processing);
        assert(next.pending_press is Some <==> s.pending_press is None);
        law_busy_toggle_parity(next, binding_id, rest);
    }
}

/// Two toggle presses inside one busy window net to nothing: the state is the one before
/// them, but for the time of the last press.
pub proof fn law_two_busy_toggle_presses_net_nothing(
    s: CoordinatorView,
    first: InputView,
    first_at: Instant,
    second: InputView,
    second_at: Instant,
)
    requires
        s.inv(),
        s.stage is Processing,
        s.pending_press is None,
        first.is_pressed,
        second.is_pressed,
        first.mode == ShortcutActivation::Toggle,
        second.mode == ShortcutActivation::Toggle,
        first.binding_id == second.binding_id,
        !(s.verdict(first, first_at) is Debounce),
        !(s.after_input(first, first_at).verdict(second, second_at) is Debounce),
    ensures
        ({
            let after = s.after_input(first, first_at).after_input(second, second_at);
            after == CoordinatorView { last_press: after.last_press, ..s }
        }),
{
}

/// While one binding is remembered, inputs for other bindings, however many, leave it in
/// its place, and the drain starts that binding with what was remembered of it.
pub proof fn law_remembered_binding_keeps_its_place(s: CoordinatorView, edges: Seq<Edge>)
    requires
        s.stage is Processing,
        s.pending_press is Some,
        forall|i: int|
            0 <= i < edges.len() ==> (#[trigger] edges[i]).input.binding_id
                != s.pending_press->0.binding_id,
    ensures
        edges_are_silent(s, edges),
        after_edges(s, edges).stage is Processing,
        after_edges(s, edges).pending_press == s.pending_press,
        after_edges(s, edges).drain_effect() == Some(
            EffectView::Start {
                binding_id: s.pending_press->0.binding_id,
                hotkey_string: s.pending_press->0.hotkey_string,
            },
        ),
    decreases edges.len(),
{
    if edges.len() > 0 {
        let first = edges.first();
        assert(first == edges[0]);
        let next = s.after_input(first.input, first.at);
        assert forall|i: int| 0 <= i < edges.drop_first().len() implies (
        #[trigger] edges.drop_first()[i]).input.binding_id != next.pending_press->0.binding_id by {
            assert(edges.drop_first()[i] == edges[i + 1]);
        }
        law_remembered_binding_keeps_its_place(next, edges.drop_first());
    }
}

/// A busy pipeline asks for nothing until it drains: neither an input nor the end of a
/// grace window has an effect or ends the busy stage.
pub proof fn law_busy_pipeline_is_silent(s: CoordinatorView, input: InputView, now: Instant)
    requires
        s.stage is Processing,
    ensures
        s.input_effect(input, now) is None,
        s.after_input(input, now).stage is Processing,
        s.grace_effect() is None,
        s.after_grace().stage is Processing,
{
}

/// A press remembered while busy starts on the drain, under its own mode, and its hold
/// counts from the real key-down.
pub proof fn law_busy_press_starts_after_drain(s: CoordinatorView, down: InputView, down_at: Instant)
    requires
        s.inv(),
        s.stage is Processing,
        s.pending_press is None,
        down.is_pressed,
        down.external || !s.within_debounce(down_at),
    ensures
        ({
            let waiting = s.after_input(down, down_at);
            let drained = waiting.after_drain();
            &&& s.input_effect(down, down_at) is None
            &&& waiting.drain_effect() == Some(
                EffectView::Start {
                    binding_id: down.binding_id,
                    hotkey_string: down.hotkey_string,
                },
            )
            &&& drained.stage == StageView::Recording(down.binding_id)
            &&& drained.session_mode == Some(down.mode)
            &&& drained.hold matches Some(h) && h.pressed_at == down_at && h.locked == (down.mode
                == ShortcutActivation::Toggle)
        }),
{
}

/// A press and its release while busy, resolved before the drain. A tap queues a locked
/// start; a completed hold has nothing left to start. In push-to-talk every press is a
/// completed hold.
pub proof fn law_busy_press_and_release(
    s: CoordinatorView,
    down: InputView,
    down_at: Instant,
    up: InputView,
    up_at: Instant,
)
    requires
        s.inv(),
        s.stage is Processing,
        s.pending_press is None,
        down.is_pressed,
        down.mode != ShortcutActivation::Toggle,
        down.external || !s.within_debounce(down_at),
        !up.is_pressed,
        up.mode != ShortcutActivation::Toggle,
        up.binding_id == down.binding_id,
    ensures
        ({
            let settled = s.after_input(down, down_at).after_input(up, up_at).after_grace();
            let held = crate::time::duration_between(down_at, up_at);
            if held.nanos < up.effective_hold_threshold().nanos {
                &&& settled.locked()
                &&& settled.drain_effect() == Some(
                    EffectView::Start {
                        binding_id: down.binding_id,
                        hotkey_string: down.hotkey_string,
                    },
                )
                &&& settled.after_drain().stage == StageView::Recording(down.binding_id)
                &&& settled.after_drain().locked()
            } else {
                &&& !settled.locked()
                &&& settled == CoordinatorView { last_press: settled.last_press, ..s }
                &&& settled.drain_effect() is None
                &&& settled.after_drain().stage is Idle
            }
        }),
        up.mode == ShortcutActivation::PushToTalk ==> s.after_input(down, down_at).after_input(
            up,
            up_at,
        ).after_grace().drain_effect() is None,
{
    let pressed = s.after_input(down, down_at);
    assert(s.verdict(down, down_at) is Remember);
    assert(pressed.verdict(up, up_at) is DeferRelease);
}

/// A release of the remembered key, while it is taken for a hold and in a mode in which
/// releases count, is always deferred, unless one of that same key already is. No release
/// of another key stands in its way.
pub proof fn law_release_of_the_remembered_key_is_deferred(
    s: CoordinatorView,
    up: InputView,
    up_at: Instant,
)
    requires
        s.inv(),
        s.stage is Processing,
        s.pending_press matches Some(p) && !p.locked && p.binding_id == up.binding_id,
        !up.is_pressed,
        up.mode != ShortcutActivation::Toggle,
    ensures
        s.pending_release is None ==> s.verdict(up, up_at) is DeferRelease,
        s.after_input(up, up_at).pending_release matches Some(r) && r.binding_id == up.binding_id,
{
}

/// A press on a queued tap takes it back, in any mode: two taps while busy net to
/// nothing, and so does whatever release comes after.
pub proof fn law_press_on_a_queued_tap_forgets_it(
    s: CoordinatorView,
    down: InputView,
    down_at: Instant,
    up: InputView,
    up_at: Instant,
)
    requires
        s.inv(),
        s.stage is Processing,
        s.pending_press matches Some(p) && p.locked && p.binding_id == down.binding_id,
        down.is_pressed,
        down.external || !s.within_debounce(down_at),
        !up.is_pressed,
    ensures
        ({
            let after = s.after_input(down, down_at);
            &&& after.pending_press is None
            &&& !after.locked()
            &&& after.drain_effect() is None
            &&& after.after_input(up, up_at) == after
            &&& after.input_effect(up, up_at) is None
        }),
{
}

/// A hold that straddles the drain counts from the real key-down, not from when
/// recording began: released after the drain, it stops if it lasted at least the
/// threshold overall, else it locks.
pub proof fn law_hold_straddling_the_drain(s: CoordinatorView, up: InputView, up_at: Instant)
    requires
        s.inv(),
        s.stage is Processing,
        s.pending_press matches Some(p) && !p.locked && p.binding_id == up.binding_id,
        s.pending_release is None,
        !up.is_pressed,
        up.mode != ShortcutActivation::Toggle,
    ensures
        ({
            let released = s.after_drain().after_input(up, up_at);
            let held = crate::time::duration_between(s.pending_press->0.pressed_at, up_at);
            &&& s.after_drain().input_effect(up, up_at) is None
            &&& if held.nanos >= up.effective_hold_threshold().nanos {
                &&& released.grace_effect() matches Some(e)
                &&& e is Stop
                &&& released.after_grace().stage is Processing
            } else {
                &&& released.grace_effect() is None
                &&& released.after_grace().stage == StageView::Recording(up.binding_id)
                &&& released.after_grace().locked()
            }
        }),
{
    let drained = s.after_drain();
    assert(drained.verdict(up, up_at) is DeferRelease);
}

/// Auto-repeat before and after the drain does not change that: recording starts
/// unlocked, and the hold counts from the first press.
pub proof fn law_burst_straddling_the_drain(
    s: CoordinatorView,
    before: Seq<Repeat>,
    after: Seq<Repeat>,
    up: InputView,
    up_at: Instant,
)
    requires
        s.inv(),
        s.stage is Processing,
        s.pending_press matches Some(p) && !p.locked && p.binding_id == up.binding_id,
        s.pending_release is None,
        forall|i: int| 0 <= i < before.len() ==> (#[trigger] before[i]).synthesized(up.binding_id),
        forall|i: int| 0 <= i < after.len() ==> (#[trigger] after[i]).synthesized(up.binding_id),
        !up.is_pressed,
        up.mode != ShortcutActivation::Toggle,
    ensures
        ({
            let drained = crate::laws::hold::after_burst(s, before).after_drain();
            let released = crate::laws::hold::after_burst(drained, after).after_input(up, up_at);
            let held = crate::time::duration_between(s.pending_press->0.pressed_at, up_at);
            &&& crate::laws::hold::burst_is_silent(s, before)
            &&& crate::laws::hold::burst_is_silent(drained, after)
            &&& !drained.locked()
            &&& if held.nanos >= up.effective_hold_threshold().nanos {
                &&& released.grace_effect() matches Some(e)
                &&& e is Stop
                &&& released.after_grace().stage is Processing
            } else {
                &&& released.grace_effect() is None
                &&& released.after_grace().locked()
            }
        }),
{
    crate::laws::hold::law_autorepeat_burst_changes_nothing(s, up.binding_id, before);
    let drained = s.after_drain();
    crate::laws::hold::law_autorepeat_burst_changes_nothing(drained, up.binding_id, after);
    law_hold_straddling_the_drain(s, up, up_at);
}

/// The pipeline drains inside the grace window of a release of the remembered key:
/// recording starts first, unlocked, and the release is then resolved against it, from
/// the real key-down to the real key-up. A tap comes out the same as if it had been
/// resolved before the drain.
pub proof fn law_drain_inside_the_grace_window(s: CoordinatorView)
    requires
        s.inv(),
        s.stage is Processing,
        s.pending_press matches Some(p) && !p.locked,
        s.pending_release matches Some(r) && r.binding_id == s.pending_press->0.binding_id,
    ensures
        ({
            let press = s.pending_press->0;
            let release = s.pending_release->0;
            let drained = s.after_drain();
            let held = crate::time::duration_between(press.pressed_at, release.released_at);
            &&& drained.stage == StageView::Recording(press.binding_id)
            &&& !drained.locked()
            &&& if held.nanos < release.hold_threshold.nanos {
                &&& drained.grace_effect() is None
                &&& drained.after_grace().locked()
                &&& drained.after_grace() == s.after_grace().after_drain()
            } else {
                &&& drained.grace_effect() matches Some(e)
                &&& e is Stop
                &&& drained.after_grace().stage is Processing
            }
        }),
{
}

} // verus!
