//! What happens to the coordinator, and what it asks for in return.

use crate::time::{Duration, Instant};
use vstd::prelude::*;

verus! {

/// How a shortcut's key-down and key-up drive a recording. A recording starts on
/// key-down in every mode; the modes differ in how it ends.
#[derive(Debug, Clone, Copy, PartialEq, Eq, Structural)]
pub enum ShortcutActivation {
    /// Every release stops the recording.
    PushToTalk,
    /// Releases mean nothing; the next press stops the recording.
    Toggle,
    /// A release after a long hold stops the recording; a release after a short tap
    /// locks it on until the next press.
    HoldOrToggle,
}

/// A keyboard or signal edge for a transcribe binding.
pub struct InputEvent {
    pub binding_id: String,
    pub hotkey_string: String,
    pub is_pressed: bool,
    pub mode: ShortcutActivation,
    /// Hold-or-toggle: minimum press duration that counts as a hold.
    pub hold_threshold: Duration,
    /// Set for triggers that are not physical keys (signals, command-line flags). They
    /// fire on every edge by design and are never debounced: a dropped one would leave
    /// the next edge starting a recording that nobody stops.
    pub external: bool,
    /// When the sender observed the edge, however late it is handled. Hold durations
    /// are measured between these stamps.
    pub received_at: Instant,
}

/// The model of an [`InputEvent`].
pub struct InputView {
    pub binding_id: Seq<char>,
    pub hotkey_string: Seq<char>,
    pub is_pressed: bool,
    pub mode: ShortcutActivation,
    pub hold_threshold: Duration,
    pub external: bool,
    pub received_at: Instant,
}

impl View for InputEvent {
    type V = InputView;

    open spec fn view(&self) -> InputView {
        InputView {
            binding_id: self.binding_id@,
            hotkey_string: self.hotkey_string@,
            is_pressed: self.is_pressed,
            mode: self.mode,
            hold_threshold: self.hold_threshold,
            external: self.external,
            received_at: self.received_at,
        }
    }
}

impl InputView {
    /// The hold duration at or above which a release stops recording: the event's own
    /// for hold-or-toggle, zero for the modes without taps.
    pub open spec fn effective_hold_threshold(self) -> Duration {
        if self.mode == ShortcutActivation::HoldOrToggle {
            self.hold_threshold
        } else {
            Duration { nanos: 0 }
        }
    }
}

impl InputEvent {
    /// A key edge of a physical shortcut. `hold_threshold` only matters for
    /// [`ShortcutActivation::HoldOrToggle`].
    pub fn keyboard(
        binding_id: &str,
        hotkey_string: &str,
        is_pressed: bool,
        mode: ShortcutActivation,
        hold_threshold: Duration,
        received_at: Instant,
    ) -> (input: InputEvent)
        ensures
            input@ == (InputView {
                binding_id: binding_id@,
                hotkey_string: hotkey_string@,
                is_pressed,
                mode,
                hold_threshold,
                external: false,
                received_at,
            }),
    {
        InputEvent {
            binding_id: binding_id.to_owned(),
            hotkey_string: hotkey_string.to_owned(),
            is_pressed,
            mode,
            hold_threshold,
            external: false,
            received_at,
        }
    }

    /// An external trigger (a signal, a command-line flag): always a toggle press,
    /// always exempt from debounce.
    pub fn external_trigger(binding_id: &str, source: &str, received_at: Instant) -> (input:
        InputEvent)
        ensures
            input@ == (InputView {
                binding_id: binding_id@,
                hotkey_string: source@,
                is_pressed: true,
                mode: ShortcutActivation::Toggle,
                hold_threshold: Duration { nanos: 0 },
                external: true,
                received_at,
            }),
    {
        InputEvent {
            binding_id: binding_id.to_owned(),
            hotkey_string: source.to_owned(),
            is_pressed: true,
            mode: ShortcutActivation::Toggle,
            hold_threshold: Duration { nanos: 0 },
            external: true,
            received_at,
        }
    }

    /// The hold duration at or above which a release stops recording.
    pub fn effective_hold_threshold(&self) -> (d: Duration)
        ensures
            d == self@.effective_hold_threshold(),
    {
        match self.mode {
            ShortcutActivation::HoldOrToggle => self.hold_threshold,
            // Every release stops; toggle never defers releases at all.
            ShortcutActivation::PushToTalk | ShortcutActivation::Toggle => Duration { nanos: 0 },
        }
    }
}

/// A side effect that the coordinator decided on; the thread that runs it is the only
/// executor.
#[derive(Debug, PartialEq, Eq)]
pub enum Effect {
    Start { binding_id: String, hotkey_string: String },
    Stop {
        binding_id: String,
        hotkey_string: String,
        /// The session's post-processing choice, locked the moment recording ends.
        post_process: bool,
    },
    /// The session's post-processing choice flipped mid-recording. Recording continues;
    /// this is only feedback for the user.
    PostProcessToggled { enabled: bool },
}

/// The model of an [`Effect`].
pub enum EffectView {
    Start { binding_id: Seq<char>, hotkey_string: Seq<char> },
    Stop { binding_id: Seq<char>, hotkey_string: Seq<char>, post_process: bool },
    PostProcessToggled { enabled: bool },
}

impl View for Effect {
    type V = EffectView;

    open spec fn view(&self) -> EffectView {
        match self {
            Effect::Start { binding_id, hotkey_string } => EffectView::Start {
                binding_id: binding_id@,
                hotkey_string: hotkey_string@,
            },
            Effect::Stop { binding_id, hotkey_string, post_process } => EffectView::Stop {
                binding_id: binding_id@,
                hotkey_string: hotkey_string@,
                post_process: *post_process,
            },
            Effect::PostProcessToggled { enabled } => EffectView::PostProcessToggled {
                enabled: *enabled,
            },
        }
    }
}

/// The model of an optional effect.
pub open spec fn effect_view(effect: Option<Effect>) -> Option<EffectView> {
    match effect {
        Some(e) => Some(e@),
        None => None,
    }
}

/// Commands, handled one at a time in the order they were sent.
pub enum Command {
    Input(InputEvent),
    Cancel { recording_was_active: bool },
    ProcessingFinished,
}

/// The model of a [`Command`].
pub enum CommandView {
    Input(InputView),
    Cancel { recording_was_active: bool },
    ProcessingFinished,
}

impl View for Command {
    type V = CommandView;

    open spec fn view(&self) -> CommandView {
        match self {
            Command::Input(input) => CommandView::Input(input@),
            Command::Cancel { recording_was_active } => CommandView::Cancel {
                recording_was_active: *recording_was_active,
            },
            Command::ProcessingFinished => CommandView::ProcessingFinished,
        }
    }
}

} // verus!
