//! The coordinator as a mathematical state machine: its states, its invariant, and the
//! function from a state and an event to the next state and the effect asked for.

use crate::classify::{BusyAction, PttAction, Remembered};
use crate::event::{EffectView, InputView, ShortcutActivation};
use crate::state::Hold;
use crate::time::{Duration, Instant};
use vstd::prelude::*;

verus! {

/// Two presses of physical keys closer together than this many nanoseconds count as
/// one (30 ms).
pub const DEBOUNCE_NANOS: u128 = 30_000_000;

/// A key-up is held back for this many nanoseconds, so that an auto-repeat key-down can
/// take it back (50 ms).
pub const RELEASE_GRACE_NANOS: u128 = 50_000_000;

/// [`RELEASE_GRACE_NANOS`] as a span.
pub open spec fn release_grace() -> Duration {
    Duration { nanos: RELEASE_GRACE_NANOS }
}

/// Where the pipeline stands.
pub enum StageView {
    Idle,
    /// Recording, for the binding named.
    Recording(Seq<char>),
    Processing,
}

/// A key-up held back.
pub struct ReleaseView {
    pub binding_id: Seq<char>,
    pub hotkey_string: Seq<char>,
    pub deadline: Instant,
    pub released_at: Instant,
    pub hold_threshold: Duration,
}

/// A press remembered while the pipeline is busy.
pub struct PressView {
    pub binding_id: Seq<char>,
    pub hotkey_string: Seq<char>,
    pub pressed_at: Instant,
    pub locked: bool,
    pub mode: ShortcutActivation,
}

impl PressView {
    pub open spec fn remembered(self) -> Remembered {
        if self.locked {
            Remembered::Locked
        } else {
            Remembered::Held
        }
    }
}

/// A state of the coordinator.
pub struct CoordinatorView {
    pub stage: StageView,
    pub hold: Option<Hold>,
    pub last_press: Option<Instant>,
    pub pending_release: Option<ReleaseView>,
    pub pending_press: Option<PressView>,
    pub session_post_process: Option<bool>,
    pub session_mode: Option<ShortcutActivation>,
}

/// What an input amounts to.
pub enum Verdict {
    /// A key-down that shows the release held back was auto-repeat.
    CancelRelease,
    /// A key-up that is held back.
    DeferRelease,
    /// A key-down too soon after the last one.
    Debounce,
    /// An input that means nothing here.
    Ignore,
    /// A press to start from once the pipeline drains.
    Remember,
    /// A press that takes back the remembered one.
    Forget,
    /// A press that starts a recording.
    Start,
    /// An input that ends the recording.
    Stop,
    /// A release that was a tap: the recording outlives the key.
    Lock,
    /// A press of the other binding, which flips the session's post-processing choice.
    Switch,
}

impl CoordinatorView {
    /// The state before anything has happened.
    pub open spec fn initial() -> CoordinatorView {
        CoordinatorView {
            stage: StageView::Idle,
            hold: None,
            last_press: None,
            pending_release: None,
            pending_press: None,
            session_post_process: None,
            session_mode: None,
        }
    }

    pub open spec fn is_recording(self) -> bool {
        self.stage is Recording
    }

    /// What every reachable state satisfies:
    /// * the bookkeeping of a session is there exactly while it records;
    /// * a press is remembered only while the pipeline is busy;
    /// * what a toggle press started, or will start, is locked;
    /// * the deadline of a release held back is the end of its grace window;
    /// * a release held back while the pipeline is busy is that of the remembered key,
    ///   which is still taken for a hold.
    pub open spec fn inv(self) -> bool {
        &&& self.hold is Some <==> self.is_recording()
        &&& self.session_post_process is Some <==> self.is_recording()
        &&& self.session_mode is Some <==> self.is_recording()
        &&& self.pending_press is Some ==> self.stage is Processing
        &&& self.session_mode == Some(ShortcutActivation::Toggle) ==> self.locked()
        &&& self.pending_press matches Some(p) ==> p.mode == ShortcutActivation::Toggle ==> p.locked
        &&& self.pending_release matches Some(r) ==> r.deadline.nanos == r.released_at.nanos
            + RELEASE_GRACE_NANOS
        &&& self.pending_release matches Some(r) ==> self.stage is Processing ==> {
            &&& self.pending_press matches Some(p)
            &&& p.binding_id == r.binding_id
            &&& !p.locked
        }
    }

    /// Whether the current session, or the one remembered, outlives the key: releases
    /// are ignored and the next press ends it.
    pub open spec fn locked(self) -> bool {
        ||| self.hold matches Some(h) && h.locked
        ||| self.pending_press matches Some(p) && p.locked
    }

    /// Whether a release that arrives under `mode` ends the session.
    pub open spec fn hold_to_talk(self, mode: ShortcutActivation) -> bool {
        mode != ShortcutActivation::Toggle && !self.locked()
    }

    /// The binding whose key is believed down: the one recording, or the one remembered
    /// while the pipeline is busy.
    pub open spec fn held_binding(self) -> Option<Seq<char>> {
        match self.stage {
            StageView::Idle => None,
            StageView::Recording(id) => Some(id),
            StageView::Processing => match self.pending_press {
                Some(p) => Some(p.binding_id),
                None => None,
            },
        }
    }

    pub open spec fn pending_release_binding(self) -> Option<Seq<char>> {
        match self.pending_release {
            Some(r) => Some(r.binding_id),
            None => None,
        }
    }

    /// What `input` does to the release held back.
    pub open spec fn ptt_action(self, input: InputView) -> PttAction {
        crate::classify::ptt_action(
            self.pending_release_binding(),
            input.is_pressed,
            self.hold_to_talk(input.mode),
            input.binding_id,
            self.held_binding(),
        )
    }

    /// Whether a press at `now` comes too soon after the last one of a physical key.
    pub open spec fn within_debounce(self, now: Instant) -> bool {
        self.last_press matches Some(t) && crate::time::duration_between(t, now).nanos
            < DEBOUNCE_NANOS
    }

    /// Whether the key that started the recording, going up at `released_at`, was down
    /// for at least `threshold`. Without a record of the key-down it counts as long.
    pub open spec fn held_for(self, released_at: Instant, threshold: Duration) -> bool {
        self.hold matches Some(h) ==> crate::time::duration_between(h.pressed_at, released_at).nanos
            >= threshold.nanos
    }

    /// Whether the session takes part in the mid-recording switch: it was started in
    /// toggle mode, or a tap locked it. The mode that counts is the session's own.
    pub open spec fn switchable(self) -> bool {
        self.session_mode == Some(ShortcutActivation::Toggle) || self.locked()
    }

    /// What an input amounts to while the pipeline is busy. The first binding to be
    /// remembered keeps its place: inputs for another are ignored.
    pub open spec fn busy_verdict(self, input: InputView) -> Verdict {
        let other_pending = self.pending_press matches Some(p) && p.binding_id != input.binding_id;
        let remembered = match self.pending_press {
            Some(p) => Some(p.remembered()),
            None => None,
        };
        if other_pending {
            Verdict::Ignore
        } else {
            match crate::classify::busy_action(input.is_pressed, input.mode, remembered) {
                BusyAction::Ignore => Verdict::Ignore,
                BusyAction::Remember => Verdict::Remember,
                BusyAction::Forget => Verdict::Forget,
            }
        }
    }

    /// What an input amounts to while `id` is recording. A press of `id` ends a locked
    /// session in any mode and every session in toggle mode. A press of the other
    /// transcribe binding flips the post-processing choice of a session that takes part.
    /// A release of `id` gets here only when another one is already held back; it is
    /// resolved at once.
    pub open spec fn recording_verdict(
        self,
        id: Seq<char>,
        input: InputView,
        now: Instant,
    ) -> Verdict {
        if input.is_pressed {
            if input.binding_id == id {
                if self.locked() || input.mode == ShortcutActivation::Toggle {
                    Verdict::Stop
                } else {
                    Verdict::Ignore
                }
            } else if crate::binding::transcribe_binding(input.binding_id) && self.switchable()
                && self.session_post_process is Some {
                Verdict::Switch
            } else {
                Verdict::Ignore
            }
        } else if input.binding_id == id && self.hold_to_talk(input.mode) {
            if self.held_for(now, input.effective_hold_threshold()) {
                Verdict::Stop
            } else {
                Verdict::Lock
            }
        } else {
            Verdict::Ignore
        }
    }

    /// What an input observed at `now` amounts to.
    pub open spec fn verdict(self, input: InputView, now: Instant) -> Verdict {
        match self.ptt_action(input) {
            PttAction::CancelRelease => Verdict::CancelRelease,
            PttAction::DeferRelease => Verdict::DeferRelease,
            PttAction::Passthrough => if input.is_pressed && !input.external
                && self.within_debounce(now) {
                Verdict::Debounce
            } else {
                match self.stage {
                    StageView::Idle => if input.is_pressed {
                        Verdict::Start
                    } else {
                        Verdict::Ignore
                    },
                    StageView::Recording(id) => self.recording_verdict(id, input, now),
                    StageView::Processing => self.busy_verdict(input),
                }
            },
        }
    }

    /// The state in which `binding_id` records, with a session of its own.
    pub open spec fn recording(
        self,
        binding_id: Seq<char>,
        pressed_at: Instant,
        locked: bool,
        mode: ShortcutActivation,
    ) -> CoordinatorView {
        CoordinatorView {
            stage: StageView::Recording(binding_id),
            hold: Some(Hold { pressed_at, locked }),
            session_post_process: Some(crate::binding::seeded_post_process(binding_id)),
            session_mode: Some(mode),
            ..self
        }
    }

    /// The state with the session gone and the stage replaced.
    pub open spec fn without_session(self, stage: StageView) -> CoordinatorView {
        CoordinatorView {
            stage,
            hold: None,
            session_post_process: None,
            session_mode: None,
            ..self
        }
    }

    /// The state in which the pipeline is busy with what was recorded. A release held back
    /// has nothing left to end, so it is gone with the session.
    pub open spec fn processing(self) -> CoordinatorView {
        CoordinatorView { pending_release: None, ..self }.without_session(StageView::Processing)
    }

    /// The effect that ends the recording, with the session's post-processing choice.
    pub open spec fn stop_effect(self, binding_id: Seq<char>, hotkey_string: Seq<char>) -> EffectView {
        EffectView::Stop {
            binding_id,
            hotkey_string,
            post_process: match self.session_post_process {
                Some(choice) => choice,
                None => crate::binding::seeded_post_process(binding_id),
            },
        }
    }

    /// The state in which the recording outlives the key.
    pub open spec fn lock_hold(self) -> CoordinatorView {
        CoordinatorView {
            hold: match self.hold {
                Some(h) => Some(Hold { locked: true, ..h }),
                None => None,
            },
            ..self
        }
    }

    /// The state with the session's post-processing choice flipped.
    pub open spec fn flipped(self) -> CoordinatorView {
        CoordinatorView {
            session_post_process: match self.session_post_process {
                Some(choice) => Some(!choice),
                None => None,
            },
            ..self
        }
    }

    /// The time of the last press after `input`: every press of a physical key counts
    /// but those that were absorbed.
    pub open spec fn last_press_after(self, input: InputView, now: Instant) -> Option<Instant> {
        if input.is_pressed && !input.external && !(self.verdict(input, now) is CancelRelease)
            && !(self.verdict(input, now) is Debounce) {
            Some(now)
        } else {
            self.last_press
        }
    }

    /// The state after an input observed at `now`. What ends a recording, or takes back a
    /// remembered press, also drops the release held back for it: the key-up has nothing
    /// left to end.
    pub open spec fn after_input(self, input: InputView, now: Instant) -> CoordinatorView {
        let base = CoordinatorView { last_press: self.last_press_after(input, now), ..self };
        match self.verdict(input, now) {
            Verdict::CancelRelease => CoordinatorView { pending_release: None, ..base },
            Verdict::DeferRelease => CoordinatorView {
                pending_release: Some(
                    ReleaseView {
                        binding_id: input.binding_id,
                        hotkey_string: input.hotkey_string,
                        deadline: crate::time::instant_after(now, release_grace()),
                        released_at: now,
                        hold_threshold: input.effective_hold_threshold(),
                    },
                ),
                ..base
            },
            Verdict::Debounce | Verdict::Ignore => base,
            Verdict::Remember => CoordinatorView {
                pending_press: Some(
                    PressView {
                        binding_id: input.binding_id,
                        hotkey_string: input.hotkey_string,
                        pressed_at: now,
                        locked: input.mode == ShortcutActivation::Toggle,
                        mode: input.mode,
                    },
                ),
                ..base
            },
            Verdict::Forget => CoordinatorView {
                pending_press: None,
                pending_release: None,
                ..base
            },
            Verdict::Start => base.recording(
                input.binding_id,
                now,
                input.mode == ShortcutActivation::Toggle,
                input.mode,
            ),
            Verdict::Stop => base.processing(),
            Verdict::Lock => base.lock_hold(),
            Verdict::Switch => base.flipped(),
        }
    }

    /// The effect that an input observed at `now` asks for.
    pub open spec fn input_effect(self, input: InputView, now: Instant) -> Option<EffectView> {
        match self.verdict(input, now) {
            Verdict::Start => Some(
                EffectView::Start {
                    binding_id: input.binding_id,
                    hotkey_string: input.hotkey_string,
                },
            ),
            Verdict::Stop => Some(self.stop_effect(input.binding_id, input.hotkey_string)),
            Verdict::Switch => match self.session_post_process {
                Some(choice) => Some(EffectView::PostProcessToggled { enabled: !choice }),
                None => None,
            },
            _ => None,
        }
    }

    /// Whether `release` ends the recording: it belongs to the binding that records, its
    /// key was down long enough, and the recording does not outlive the key.
    pub open spec fn release_stops(self, release: ReleaseView) -> bool {
        &&& !self.locked()
        &&& self.stage == StageView::Recording(release.binding_id)
        &&& self.held_for(release.released_at, release.hold_threshold)
    }

    /// The remembered press once `release` is known to be real. A tap will start a
    /// locked session; a completed hold has nothing left to start.
    pub open spec fn pending_press_after(self, release: ReleaseView) -> Option<PressView> {
        match self.pending_press {
            Some(p) => if p.binding_id != release.binding_id {
                Some(p)
            } else if crate::time::duration_between(p.pressed_at, release.released_at).nanos
                < release.hold_threshold.nanos {
                Some(PressView { locked: true, ..p })
            } else {
                None
            },
            None => None,
        }
    }

    /// The state after the grace window of the release held back has passed. What is
    /// locked outlives the key, so the release leaves it alone.
    pub open spec fn after_grace(self) -> CoordinatorView {
        let base = CoordinatorView { pending_release: None, ..self };
        match self.pending_release {
            Some(release) if !self.locked() => match self.stage {
                StageView::Idle => base,
                StageView::Recording(id) => if id != release.binding_id {
                    base
                } else if self.release_stops(release) {
                    base.processing()
                } else {
                    base.lock_hold()
                },
                StageView::Processing => CoordinatorView {
                    pending_press: self.pending_press_after(release),
                    ..base
                },
            },
            _ => base,
        }
    }

    /// The effect that the end of a grace window asks for.
    pub open spec fn grace_effect(self) -> Option<EffectView> {
        match self.pending_release {
            Some(release) => if self.release_stops(release) {
                Some(self.stop_effect(release.binding_id, release.hotkey_string))
            } else {
                None
            },
            None => None,
        }
    }

    /// The state after a cancel. A busy pipeline is left to finish, but nothing will
    /// start from a remembered press.
    pub open spec fn after_cancel(self, recording_was_active: bool) -> CoordinatorView {
        let base = CoordinatorView { pending_release: None, pending_press: None, ..self };
        match self.stage {
            StageView::Processing => base,
            StageView::Recording(_) => base.without_session(StageView::Idle),
            StageView::Idle => if recording_was_active {
                base.without_session(StageView::Idle)
            } else {
                base
            },
        }
    }

    /// The state after the pipeline has drained: the remembered press, if any, records.
    pub open spec fn after_drain(self) -> CoordinatorView {
        let base = CoordinatorView { pending_press: None, ..self }.without_session(StageView::Idle);
        match self.pending_press {
            Some(p) => base.recording(p.binding_id, p.pressed_at, p.locked, p.mode),
            None => base,
        }
    }

    /// The effect that the drain asks for.
    pub open spec fn drain_effect(self) -> Option<EffectView> {
        match self.pending_press {
            Some(p) => Some(
                EffectView::Start { binding_id: p.binding_id, hotkey_string: p.hotkey_string },
            ),
            None => None,
        }
    }

    /// The state after the executor has reported whether recording for `binding_id`
    /// actually began.
    pub open spec fn after_start_result(self, binding_id: Seq<char>, started: bool) -> CoordinatorView {
        if !started && self.stage == StageView::Recording(binding_id) {
            self.without_session(StageView::Idle)
        } else {
            self
        }
    }
}

} // verus!
