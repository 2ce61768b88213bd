//! Two classifiers that look at one input at a time: one sorts key edges by what they
//! do to a deferred release, the other sorts inputs that find the pipeline busy.

use crate::binding::same_text;
use crate::event::ShortcutActivation;
use vstd::prelude::*;

verus! {

/// What a key edge does to the deferred release.
#[derive(Debug, Clone, Copy, PartialEq, Eq, Structural)]
pub enum PttAction {
    /// Nothing: the edge is handled on its own.
    Passthrough,
    /// The edge is a key-up that may yet turn out to be auto-repeat: hold it back.
    DeferRelease,
    /// The edge is a key-down that shows the key-up held back was auto-repeat.
    CancelRelease,
}

/// The characters of an optional string slice.
pub open spec fn text(s: Option<&str>) -> Option<Seq<char>> {
    match s {
        Some(t) => Some(t@),
        None => None,
    }
}

/// The classification of a key edge, given the binding of the release held back, if
/// any, whether a release ends the session, and the binding whose key is believed down.
pub open spec fn ptt_action(
    pending_release_binding: Option<Seq<char>>,
    is_pressed: bool,
    hold_to_talk: bool,
    binding_id: Seq<char>,
    held_binding: Option<Seq<char>>,
) -> PttAction {
    if hold_to_talk && is_pressed && pending_release_binding == Some(binding_id) {
        PttAction::CancelRelease
    } else if hold_to_talk && !is_pressed && held_binding == Some(binding_id)
        && pending_release_binding is None {
        PttAction::DeferRelease
    } else {
        PttAction::Passthrough
    }
}

/// Whether an optional string slice is there and holds the characters of `t`.
fn is_text(s: Option<&str>, t: &str) -> (r: bool)
    ensures
        r == (text(s) == Some(t@)),
{
    match s {
        Some(u) => same_text(u, t),
        None => false,
    }
}

/// Decide whether a key-up should be deferred (so auto-repeat can cancel it)
/// or a key-down cancels a deferred release. `hold_to_talk` is whether a
/// release currently ends the session: true for push-to-talk and for an
/// unlocked hold-or-toggle session, false for toggle and a locked session.
/// `held_binding` is the binding whose key we believe is down: the one
/// recording, or the one remembered while the pipeline is busy.
pub fn classify_ptt_event(
    pending_release_binding: Option<&str>,
    is_pressed: bool,
    hold_to_talk: bool,
    binding_id: &str,
    held_binding: Option<&str>,
) -> (action: PttAction)
    ensures
        action == ptt_action(
            text(pending_release_binding),
            is_pressed,
            hold_to_talk,
            binding_id@,
            text(held_binding),
        ),
{
    if !hold_to_talk {
        return PttAction::Passthrough;
    }
    if is_pressed {
        if is_text(pending_release_binding, binding_id) {
            PttAction::CancelRelease
        } else {
            PttAction::Passthrough
        }
    } else if is_text(held_binding, binding_id) && pending_release_binding.is_none() {
        PttAction::DeferRelease
    } else {
        PttAction::Passthrough
    }
}

/// What kind of press is already waiting for the pipeline to drain.
#[derive(Debug, Clone, Copy, PartialEq, Eq, Structural)]
pub enum Remembered {
    /// The key is still down as far as we know.
    Held,
    /// A toggle press or a classified tap: it will start a locked session.
    Locked,
}

/// What to do with an input that arrives while the pipeline is busy.
#[derive(Debug, Clone, Copy, PartialEq, Eq, Structural)]
pub enum BusyAction {
    /// Ignore the input entirely.
    Ignore,
    /// Remember the press; start recording when the pipeline finishes.
    Remember,
    /// This press cancels the remembered one: two presses during one busy window
    /// net to nothing, exactly as a press stops a locked session once recording.
    Forget,
}

/// The classification of an input that finds the pipeline busy. Releases mean nothing
/// here. The first press is remembered. A second one takes back a locked press in any
/// mode, and in toggle mode a held one too; in the other modes a press of a key that is
/// already held is a repeat.
pub open spec fn busy_action(
    is_pressed: bool,
    mode: ShortcutActivation,
    remembered: Option<Remembered>,
) -> BusyAction {
    if !is_pressed {
        BusyAction::Ignore
    } else {
        match remembered {
            None => BusyAction::Remember,
            Some(Remembered::Locked) => BusyAction::Forget,
            Some(Remembered::Held) => if mode == ShortcutActivation::Toggle {
                BusyAction::Forget
            } else {
                BusyAction::Ignore
            },
        }
    }
}

/// Decide what an input does while the pipeline is busy. `remembered` is the press for
/// the same binding already waiting for the pipeline to drain, if any.
pub fn classify_busy_input(
    is_pressed: bool,
    mode: ShortcutActivation,
    remembered: Option<Remembered>,
) -> (action: BusyAction)
    ensures
        action == busy_action(is_pressed, mode, remembered),
{
    match (mode, is_pressed, remembered) {
        // Toggle: presses alternate remember/forget to preserve parity.
        (ShortcutActivation::Toggle, true, Some(_)) => BusyAction::Forget,
        (ShortcutActivation::Toggle, true, None) => BusyAction::Remember,
        // Toggle mode ignores releases.
        (ShortcutActivation::Toggle, false, _) => BusyAction::Ignore,
        // Hold modes: a press while busy means the user is holding the key, so
        // recording starts as soon as the pipeline drains. A press on a queued tap stops
        // it (parity); a press while the key is already down is a repeat.
        (
            ShortcutActivation::PushToTalk | ShortcutActivation::HoldOrToggle,
            true,
            None,
        ) => BusyAction::Remember,
        (
            ShortcutActivation::PushToTalk | ShortcutActivation::HoldOrToggle,
            true,
            Some(Remembered::Locked),
        ) => BusyAction::Forget,
        (
            ShortcutActivation::PushToTalk | ShortcutActivation::HoldOrToggle,
            true,
            Some(Remembered::Held),
        ) => BusyAction::Ignore,
        // The release of a held press is deferred before it gets here; any other
        // release (no press remembered, or already locked) is noise.
        (
            ShortcutActivation::PushToTalk | ShortcutActivation::HoldOrToggle,
            false,
            _,
        ) => BusyAction::Ignore,
    }
}

} // verus!
