//! Toggle parity over whole runs: a trigger that flips state on every edge stays in step.

use crate::event::ShortcutActivation;
use crate::laws::hold::Edge;
use crate::model::{CoordinatorView, StageView};
use vstd::prelude::*;

verus! {

/// Whether the user's last word was to record: a recording runs, or a press waits for
/// the drain.
pub open spec fn engaged(s: CoordinatorView) -> bool {
    s.is_recording() || s.pending_press is Some
}

/// Whether no binding but `binding_id` records or is remembered.
pub open spec fn engaged_only_by(s: CoordinatorView, binding_id: Seq<char>) -> bool {
    &&& s.stage matches StageView::Recording(id) ==> id == binding_id
    &&& s.pending_press matches Some(p) ==> p.binding_id == binding_id
}

/// A step of a run that toggles drive.
pub enum ToggleStep {
    /// A toggle press.
    Press(Edge),
    /// A release, of whatever key and in whatever mode.
    Release(Edge),
    /// The grace window of a release held back ends.
    Grace,
    /// The pipeline drains.
    Drain,
}

pub open spec fn after_toggle_step(s: CoordinatorView, step: ToggleStep) -> CoordinatorView {
    match step {
        ToggleStep::Press(edge) => s.after_input(edge.input, edge.at),
        ToggleStep::Release(edge) => s.after_input(edge.input, edge.at),
        ToggleStep::Grace => s.after_grace(),
        ToggleStep::Drain => s.after_drain(),
    }
}

/// Whether a step can happen: presses are toggle presses of `binding_id` that are not
/// dropped as bounces, releases are releases, and only a busy pipeline drains.
pub open spec fn toggle_step_fits(
    s: CoordinatorView,
    binding_id: Seq<char>,
    step: ToggleStep,
) -> bool {
    match step {
        ToggleStep::Press(edge) => {
            &&& edge.input.is_pressed
            &&& edge.input.mode == ShortcutActivation::Toggle
            &&& edge.input.binding_id == binding_id
            &&& !(s.verdict(edge.input, edge.at) is Debounce)
        },
        ToggleStep::Release(edge) => !edge.input.is_pressed,
        ToggleStep::Grace => true,
        ToggleStep::Drain => s.stage is Processing,
    }
}

/// The state after a run of steps.
pub open spec fn after_toggle_run(s: CoordinatorView, steps: Seq<ToggleStep>) -> CoordinatorView
    decreases steps.len(),
{
    if steps.len() == 0 {
        s
    } else {
        after_toggle_step(after_toggle_run(s, steps.drop_last()), steps.last())
    }
}

/// Whether every step of a run can happen where it stands.
pub open spec fn toggle_run_fits(
    s: CoordinatorView,
    binding_id: Seq<char>,
    steps: Seq<ToggleStep>,
) -> bool
    decreases steps.len(),
{
    steps.len() > 0 ==> {
        &&& toggle_run_fits(s, binding_id, steps.drop_last())
        &&& toggle_step_fits(after_toggle_run(s, steps.drop_last()), binding_id, steps.last())
    }
}

/// The number of presses in a run.
pub open spec fn presses(steps: Seq<ToggleStep>) -> nat
    decreases steps.len(),
{
    if steps.len() == 0 {
        0
    } else {
        presses(steps.drop_last()) + if steps.last() is Press {
            1nat
        } else {
            0
        }
    }
}

/// Toggle parity: from a state in which whatever is engaged is locked, over any run of
/// toggle presses of one binding, releases, ends of grace windows and drains of the
/// pipeline, in whatever order, every press counts and nothing else does. After an even number the coordinator
/// is engaged exactly if it was before; after an odd number exactly if it was not. So no
/// press is lost to a busy pipeline, and none starts a recording that the next one does
/// not end.
pub proof fn law_every_toggle_press_counts(
    s: CoordinatorView,
    binding_id: Seq<char>,
    steps: Seq<ToggleStep>,
)
    requires
        s.inv(),
        engaged_only_by(s, binding_id),
        engaged(s) ==> s.locked(),
        toggle_run_fits(s, binding_id, steps),
    ensures
        ({
            let after = after_toggle_run(s, steps);
            &&& after.inv()
            &&& engaged_only_by(after, binding_id)
            &&& engaged(after) ==> after.locked()
            &&& engaged(after) <==> engaged(s) == (presses(steps) % 2 == 0)
        }),
    decreases steps.len(),
{
    if steps.len() > 0 {
        law_every_toggle_press_counts(s, binding_id, steps.drop_last());
        let before = after_toggle_run(s, steps.drop_last());
        match steps.last() {
            ToggleStep::Press(edge) => {
                assert(engaged(before.after_input(edge.input, edge.at)) == !engaged(before));
            },
            ToggleStep::Release(edge) => {
                assert(before.after_input(edge.input, edge.at) == before);
            },
            ToggleStep::Grace => {
                assert(engaged(before.after_grace()) == engaged(before));
            },
            ToggleStep::Drain => {
                assert(engaged(before.after_drain()) == engaged(before));
            },
        }
    }
}

} // verus!
