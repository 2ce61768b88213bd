//! The lifecycle state machine: it owns every transition decision (release grace,
//! hold-vs-tap classification, debounce, busy-pipeline remember/forget, cancel, drain)
//! and answers with [`Effect`]s instead of touching the application.

use crate::binding::{is_transcribe_binding, same_text};
use crate::classify::{classify_busy_input, classify_ptt_event, BusyAction, PttAction, Remembered};
use crate::event::{Effect, InputEvent, ShortcutActivation};
use crate::model::{
    CoordinatorView, PressView, ReleaseView, StageView, DEBOUNCE_NANOS, RELEASE_GRACE_NANOS,
};
use crate::time::{Duration, Instant};
use vstd::prelude::*;

verus! {

/// A key-up deferred by the release grace, so that an auto-repeat press can cancel it.
/// When the grace elapses the hold is resolved by [`CoordinatorState::finish_hold`]
/// (recording) or [`CoordinatorState::finish_pending_hold`] (press remembered while
/// busy), unless what it would end has been locked meanwhile.
pub struct PendingRelease {
    pub binding_id: String,
    pub hotkey_string: String,
    pub deadline: Instant,
    /// When the key actually went up. The hold duration is measured to this
    /// instant, not to the grace expiry.
    pub released_at: Instant,
    /// Holds at least this long stop recording; shorter ones lock it on.
    /// Push-to-talk passes zero so every release stops.
    pub hold_threshold: Duration,
}

impl View for PendingRelease {
    type V = ReleaseView;

    open spec fn view(&self) -> ReleaseView {
        ReleaseView {
            binding_id: self.binding_id@,
            hotkey_string: self.hotkey_string@,
            deadline: self.deadline,
            released_at: self.released_at,
            hold_threshold: self.hold_threshold,
        }
    }
}

/// A press that arrived while the pipeline was still busy with the previous
/// transcription. Toggle-style triggers flip state on every edge, so a dropped press
/// would leave the next edge starting a recording that nobody stops.
pub struct PendingPress {
    pub binding_id: String,
    pub hotkey_string: String,
    /// The real key-down time, so that a hold that straddles the drain is still
    /// measured from when the user pressed.
    pub pressed_at: Instant,
    /// The recording will start locked on when the pipeline drains: set from the start
    /// for toggle, and for hold-or-toggle once the key came back up within the
    /// threshold (a tap). An unlocked pending press is a key believed still held.
    pub locked: bool,
    /// Activation mode of the press, which becomes the mode of the session it starts.
    pub mode: ShortcutActivation,
}

impl View for PendingPress {
    type V = PressView;

    open spec fn view(&self) -> PressView {
        PressView {
            binding_id: self.binding_id@,
            hotkey_string: self.hotkey_string@,
            pressed_at: self.pressed_at,
            locked: self.locked,
            mode: self.mode,
        }
    }
}

impl PendingPress {
    /// What kind of press this is.
    pub fn remembered(&self) -> (r: Remembered)
        ensures
            r == self@.remembered(),
    {
        if self.locked {
            Remembered::Locked
        } else {
            Remembered::Held
        }
    }
}

/// Bookkeeping for the key press that started the current recording.
pub struct Hold {
    pub pressed_at: Instant,
    /// Recording outlives the key: the next press stops it, releases are ignored.
    /// Always set for toggle; set for hold-or-toggle once a release has been
    /// classified as a tap.
    pub locked: bool,
}

/// Pipeline lifecycle.
#[derive(Debug, PartialEq, Eq)]
pub enum Stage {
    Idle,
    /// Recording, for the binding named.
    Recording(String),
    Processing,
}

impl View for Stage {
    type V = StageView;

    open spec fn view(&self) -> StageView {
        match self {
            Stage::Idle => StageView::Idle,
            Stage::Recording(id) => StageView::Recording(id@),
            Stage::Processing => StageView::Processing,
        }
    }
}

/// The state of the coordinator.
///
/// All three activation modes run through one machine. A recording starts on key-down
/// in every mode; what differs is how it ends:
///
/// * push-to-talk: every release stops (hold threshold of zero)
/// * toggle: releases are ignored, the next press stops (locked from the start)
/// * hold-or-toggle: a release after a long hold stops; a release after a short tap
///   locks the session, and the next press stops
pub struct CoordinatorState {
    pub stage: Stage,
    pub hold: Option<Hold>,
    pub last_press: Option<Instant>,
    pub pending_release: Option<PendingRelease>,
    pub pending_press: Option<PendingPress>,
    /// The session's post-processing choice: seeded from the binding that started it,
    /// there while it records, gone once the choice is locked into the stop effect.
    pub session_post_process: Option<bool>,
    /// Activation mode the running session started under. It alone decides whether a
    /// mid-recording switch is allowed, so a changed setting cannot surprise a session.
    pub session_mode: Option<ShortcutActivation>,
}

impl View for CoordinatorState {
    type V = CoordinatorView;

    open spec fn view(&self) -> CoordinatorView {
        CoordinatorView {
            stage: self.stage@,
            hold: self.hold,
            last_press: self.last_press,
            pending_release: match self.pending_release {
                Some(r) => Some(r@),
                None => None,
            },
            pending_press: match self.pending_press {
                Some(p) => Some(p@),
                None => None,
            },
            session_post_process: self.session_post_process,
            session_mode: self.session_mode,
        }
    }
}

impl CoordinatorState {
    /// A coordinator to which nothing has happened.
    pub fn new() -> (state: CoordinatorState)
        ensures
            state@ == CoordinatorView::initial(),
            state@.inv(),
    {
        CoordinatorState {
            stage: Stage::Idle,
            hold: None,
            last_press: None,
            pending_release: None,
            pending_press: None,
            session_post_process: None,
            session_mode: None,
        }
    }

    /// Deadline of the deferred release, if any.
    pub fn grace_deadline(&self) -> (deadline: Option<Instant>)
        ensures
            deadline == (match self@.pending_release {
                Some(r) => Some(r.deadline),
                None => None,
            }),
    {
        match &self.pending_release {
            Some(p) => Some(p.deadline),
            None => None,
        }
    }

    /// Whether the current session (recording, or remembered for the drain)
    /// outlives the key, so releases are ignored and the next press ends it.
    pub fn is_locked(&self) -> (r: bool)
        ensures
            r == self@.locked(),
    {
        let hold_locked = match &self.hold {
            Some(h) => h.locked,
            None => false,
        };
        let press_locked = match &self.pending_press {
            Some(p) => p.locked,
            None => false,
        };
        hold_locked || press_locked
    }

    /// Whether `binding_id` is recording.
    fn is_recording_binding(&self, binding_id: &str) -> (r: bool)
        ensures
            r == (self@.stage == StageView::Recording(binding_id@)),
    {
        match &self.stage {
            Stage::Recording(id) => same_text(id.as_str(), binding_id),
            _ => false,
        }
    }

    /// The binding that starts a session seeds its post-processing choice:
    /// `transcribe_with_post_process` starts with post-processing on, plain
    /// `transcribe` starts raw. Mid-recording toggles only flip this copy.
    fn initial_post_process(binding_id: &str) -> (r: bool)
        ensures
            r == crate::binding::seeded_post_process(binding_id@),
    {
        same_text(binding_id, "transcribe_with_post_process")
    }

    /// Flip the per-session post-processing flag while recording. Recording continues;
    /// the returned effect is only feedback.
    pub fn toggle_session_post_process(&mut self) -> (effect: Option<Effect>)
        ensures
            old(self)@.is_recording() && old(self)@.session_post_process is Some ==> {
                &&& final(self)@ == old(self)@.flipped()
                &&& effect == Some(
                    Effect::PostProcessToggled { enabled: !old(self)@.session_post_process->0 },
                )
            },
            !(old(self)@.is_recording() && old(self)@.session_post_process is Some) ==> {
                &&& final(self)@ == old(self)@
                &&& effect is None
            },
            old(self)@.inv() ==> final(self)@.inv(),
    {
        let current = match self.session_post_process {
            Some(choice) => choice,
            None => return None,
        };
        if !matches!(self.stage, Stage::Recording(_)) {
            return None;
        }
        let enabled = !current;
        self.session_post_process = Some(enabled);
        Some(Effect::PostProcessToggled { enabled })
    }

    /// Optimistic transition to recording; rolled back via
    /// [`CoordinatorState::on_start_result`] if the effect fails to start
    /// recording for real.
    fn begin_recording(
        &mut self,
        binding_id: String,
        hotkey_string: String,
        pressed_at: Instant,
        locked: bool,
        mode: ShortcutActivation,
    ) -> (effect: Effect)
        ensures
            final(self)@ == old(self)@.recording(binding_id@, pressed_at, locked, mode),
            effect@ == (crate::event::EffectView::Start {
                binding_id: binding_id@,
                hotkey_string: hotkey_string@,
            }),
    {
        self.session_post_process = Some(Self::initial_post_process(binding_id.as_str()));
        self.session_mode = Some(mode);
        self.stage = Stage::Recording(binding_id.clone());
        self.hold = Some(Hold { pressed_at, locked });
        Effect::Start { binding_id, hotkey_string }
    }

    /// End the recording and lock the session's choice into the stop effect: from here
    /// on further toggles are ignored. A release deferred for the recording goes with it.
    fn begin_processing(&mut self, binding_id: String, hotkey_string: String) -> (effect: Effect)
        ensures
            final(self)@ == old(self)@.processing(),
            effect@ == old(self)@.stop_effect(binding_id@, hotkey_string@),
    {
        let post_process = match self.session_post_process.take() {
            Some(choice) => choice,
            None => Self::initial_post_process(binding_id.as_str()),
        };
        self.session_mode = None;
        self.stage = Stage::Processing;
        self.hold = None;
        // A release deferred for this recording has nothing left to end.
        self.pending_release = None;
        Effect::Stop { binding_id, hotkey_string, post_process }
    }

    /// The key that started the current recording has been released for real.
    /// A hold at least `threshold` long stops recording; anything shorter was a
    /// tap, which locks the session on until the next press.
    pub fn finish_hold(
        &mut self,
        binding_id: String,
        hotkey_string: String,
        released_at: Instant,
        threshold: Duration,
    ) -> (effect: Option<Effect>)
        ensures
            old(self)@.held_for(released_at, threshold) ==> {
                &&& final(self)@ == old(self)@.processing()
                &&& crate::event::effect_view(effect) == Some(
                    old(self)@.stop_effect(binding_id@, hotkey_string@),
                )
            },
            !old(self)@.held_for(released_at, threshold) ==> {
                &&& final(self)@ == old(self)@.lock_hold()
                &&& effect is None
            },
            old(self)@.inv() ==> final(self)@.inv(),
    {
        let long_enough = match &self.hold {
            Some(h) => released_at.saturating_duration_since(h.pressed_at).nanos >= threshold.nanos,
            // No hold bookkeeping means we cannot tell a tap from a hold;
            // stopping is the safe reading.
            None => true,
        };
        if long_enough {
            return Some(self.begin_processing(binding_id, hotkey_string));
        }
        if let Some(hold) = &mut self.hold {
            hold.locked = true;
        }
        None
    }

    /// A press remembered while the pipeline was busy has been released for
    /// real, still before the drain. A completed hold has nothing left to
    /// start; a tap queues a locked session so the drain starts it: the
    /// same hold-vs-tap rule as [`CoordinatorState::finish_hold`].
    fn finish_pending_hold(&mut self, release: &PendingRelease)
        ensures
            final(self)@ == (CoordinatorView {
                pending_press: old(self)@.pending_press_after(release@),
                ..old(self)@
            }),
    {
        if let Some(pending) = &mut self.pending_press {
            if pending.binding_id == release.binding_id {
                let held = release.released_at.saturating_duration_since(pending.pressed_at);
                if held.nanos < release.hold_threshold.nanos {
                    pending.locked = true;
                } else {
                    self.pending_press = None;
                }
            }
        }
    }

    /// What `input` does to the deferred release.
    pub fn ptt_action(&self, input: &InputEvent) -> (action: PttAction)
        ensures
            action == self@.ptt_action(input@),
    {
        let pending_release_binding = match &self.pending_release {
            Some(pending) => Some(pending.binding_id.as_str()),
            None => None,
        };
        let held_binding = match &self.stage {
            Stage::Recording(id) => Some(id.as_str()),
            Stage::Processing => match &self.pending_press {
                Some(p) => Some(p.binding_id.as_str()),
                None => None,
            },
            Stage::Idle => None,
        };
        let hold_to_talk = input.mode != ShortcutActivation::Toggle && !self.is_locked();
        classify_ptt_event(
            pending_release_binding,
            input.is_pressed,
            hold_to_talk,
            input.binding_id.as_str(),
            held_binding,
        )
    }

    /// A key or signal edge, observed at `now`.
    pub fn on_input(&mut self, input: InputEvent, now: Instant) -> (effect: Option<Effect>)
        requires
            old(self)@.verdict(input@, now) is DeferRelease ==> crate::time::representable(
                now,
                crate::model::release_grace(),
            ),
        ensures
            final(self)@ == old(self)@.after_input(input@, now),
            crate::event::effect_view(effect) == old(self)@.input_effect(input@, now),
            old(self)@.inv() ==> final(self)@.inv(),
    {
        let hold_to_talk = input.mode != ShortcutActivation::Toggle && !self.is_locked();
        match self.ptt_action(&input) {
            PttAction::CancelRelease => {
                self.pending_release = None;
                return None;
            },
            PttAction::DeferRelease => {
                self.pending_release = Some(
                    PendingRelease {
                        hold_threshold: input.effective_hold_threshold(),
                        binding_id: input.binding_id,
                        hotkey_string: input.hotkey_string,
                        deadline: now + Duration { nanos: RELEASE_GRACE_NANOS },
                        released_at: now,
                    },
                );
                return None;
            },
            PttAction::Passthrough => {},
        }

        // Debounce rapid-fire press events (key repeat / double-tap).
        // Releases in the hold modes are deferred above to absorb auto-repeat.
        // External triggers are exempt: each one is a deliberate edge, and
        // dropping it would upset toggle parity.
        if input.is_pressed && !input.external {
            if let Some(t) = self.last_press {
                if now.saturating_duration_since(t).nanos < DEBOUNCE_NANOS {
                    return None;
                }
            }
            self.last_press = Some(now);
        }

        // A busy pipeline can't accept lifecycle changes now: classify the
        // input against any already-remembered press instead of dropping it
        // silently.
        if let Stage::Processing = self.stage {
            // Only one press can be remembered. Once a binding has claimed it,
            // inputs for a different binding are ignored rather than silently
            // replacing the remembered press and breaking its parity.
            let remembered = match &self.pending_press {
                Some(pending) => {
                    if pending.binding_id != input.binding_id {
                        return None;
                    }
                    Some(pending.remembered())
                },
                None => None,
            };
            match classify_busy_input(input.is_pressed, input.mode, remembered) {
                BusyAction::Remember => {
                    self.pending_press = Some(
                        PendingPress {
                            // Toggle never ends on a release: locked from the start.
                            locked: input.mode == ShortcutActivation::Toggle,
                            binding_id: input.binding_id,
                            hotkey_string: input.hotkey_string,
                            pressed_at: now,
                            mode: input.mode,
                        },
                    );
                },
                BusyAction::Forget => {
                    self.pending_press = None;
                    // A release deferred for that press has nothing left to end.
                    self.pending_release = None;
                },
                BusyAction::Ignore => {},
            }
            return None;
        }

        if input.is_pressed {
            if let Stage::Idle = self.stage {
                // Toggle never ends on a release: locked from the start.
                let locked = input.mode == ShortcutActivation::Toggle;
                return Some(
                    self.begin_recording(
                        input.binding_id,
                        input.hotkey_string,
                        now,
                        locked,
                        input.mode,
                    ),
                );
            }
            if self.is_recording_binding(input.binding_id.as_str()) {
                // A locked session ends on the next press. In toggle mode
                // every press ends it, even if the recording began under a
                // hold mode: otherwise only a cancel could stop it.
                if self.is_locked() || input.mode == ShortcutActivation::Toggle {
                    return Some(self.begin_processing(input.binding_id, input.hotkey_string));
                }
                // The key is still held (its release will end this recording), so a
                // repeated press means nothing.
                return None;
            }
            // Mid-recording post-processing switch. The two transcribe bindings are each
            // other's toggle: the one that started the session stops it, the other one
            // flips the session's choice. Only toggle-based sessions take part, and what
            // counts is the mode the session started under.
            if is_transcribe_binding(input.binding_id.as_str()) {
                let toggle_based = matches!(self.session_mode, Some(ShortcutActivation::Toggle))
                    || self.is_locked();
                if toggle_based {
                    return self.toggle_session_post_process();
                }
            }
        } else if hold_to_talk && self.is_recording_binding(input.binding_id.as_str()) {
            // A release that was not deferred (one is already pending): resolve it
            // immediately rather than dropping it.
            let threshold = input.effective_hold_threshold();
            return self.finish_hold(input.binding_id, input.hotkey_string, now, threshold);
        }
        None
    }

    /// The release grace elapsed with no cancelling press: resolve the deferred release
    /// against whatever that binding's key was holding, the live recording or a press
    /// remembered while busy. What is locked outlives the key and is left alone.
    pub fn on_grace_expired(&mut self) -> (effect: Option<Effect>)
        ensures
            final(self)@ == old(self)@.after_grace(),
            crate::event::effect_view(effect) == old(self)@.grace_effect(),
            old(self)@.inv() ==> final(self)@.inv(),
    {
        let pending = match self.pending_release.take() {
            Some(pending) => pending,
            None => return None,
        };
        if self.is_locked() {
            return None;
        }
        if let Stage::Processing = self.stage {
            self.finish_pending_hold(&pending);
            None
        } else if self.is_recording_binding(pending.binding_id.as_str()) {
            self.finish_hold(
                pending.binding_id,
                pending.hotkey_string,
                pending.released_at,
                pending.hold_threshold,
            )
        } else {
            None
        }
    }

    /// The user cancelled.
    pub fn on_cancel(&mut self, recording_was_active: bool)
        ensures
            final(self)@ == old(self)@.after_cancel(recording_was_active),
            old(self)@.inv() ==> final(self)@.inv(),
    {
        self.pending_release = None;
        // An explicit cancel abandons any remembered start too: the user
        // asked for silence, not a deferred recording.
        self.pending_press = None;
        // Don't reset during processing: wait for the pipeline to finish.
        if !matches!(self.stage, Stage::Processing) && (recording_was_active || matches!(
            self.stage,
            Stage::Recording(_)
        )) {
            self.stage = Stage::Idle;
            self.hold = None;
            // A cancelled session never reaches processing: drop its choice.
            self.session_post_process = None;
            self.session_mode = None;
        }
    }

    /// The pipeline drained: the remembered press, if any, starts recording.
    pub fn on_processing_finished(&mut self) -> (effect: Option<Effect>)
        ensures
            final(self)@ == old(self)@.after_drain(),
            crate::event::effect_view(effect) == old(self)@.drain_effect(),
            old(self)@.inv() ==> final(self)@.inv(),
    {
        self.stage = Stage::Idle;
        self.hold = None;
        // The finished session's choice was locked into its stop effect; a
        // fresh session seeds its own choice on start.
        self.session_post_process = None;
        self.session_mode = None;
        match self.pending_press.take() {
            Some(pending) => Some(
                self.begin_recording(
                    pending.binding_id,
                    pending.hotkey_string,
                    pending.pressed_at,
                    pending.locked,
                    pending.mode,
                ),
            ),
            None => None,
        }
    }

    /// Reconcile the optimistic recording stage after the executor reports
    /// whether recording actually began (microphone access can be denied).
    pub fn on_start_result(&mut self, binding_id: &str, started: bool)
        ensures
            final(self)@ == old(self)@.after_start_result(binding_id@, started),
            old(self)@.inv() ==> final(self)@.inv(),
    {
        if !started && self.is_recording_binding(binding_id) {
            self.stage = Stage::Idle;
            self.hold = None;
            self.session_post_process = None;
            self.session_mode = None;
        }
    }
}

} // verus!
