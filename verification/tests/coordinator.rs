use transcription_coordinator::classify::{
    classify_busy_input, classify_ptt_event, BusyAction, PttAction, Remembered,
};
use transcription_coordinator::event::{Effect, InputEvent, ShortcutActivation};
use transcription_coordinator::state::{CoordinatorState, Stage};
use transcription_coordinator::time::{Duration, Instant};

fn clock_reading() -> Instant {
    Instant {
        nanos: 7_000_000_000,
    }
}

#[test]
fn push_to_talk_release_while_recording_defers_release() {
    assert_eq!(
        classify_ptt_event(None, false, true, "transcribe", Some("transcribe")),
        PttAction::DeferRelease
    );
}

#[test]
fn push_to_talk_press_matching_pending_release_cancels_release() {
    assert_eq!(
        classify_ptt_event(
            Some("transcribe"),
            true,
            true,
            "transcribe",
            Some("transcribe")
        ),
        PttAction::CancelRelease
    );
}

#[test]
fn toggle_mode_press_and_release_pass_through() {
    assert_eq!(
        classify_ptt_event(
            Some("transcribe"),
            true,
            false,
            "transcribe",
            Some("transcribe")
        ),
        PttAction::Passthrough
    );
    assert_eq!(
        classify_ptt_event(None, false, false, "transcribe", Some("transcribe")),
        PttAction::Passthrough
    );
}

#[test]
fn press_for_different_binding_than_pending_release_passes_through() {
    assert_eq!(
        classify_ptt_event(
            Some("transcribe"),
            true,
            true,
            "transcribe_with_post_process",
            Some("transcribe")
        ),
        PttAction::Passthrough
    );
}

#[test]
fn press_matching_pending_release_cancels_without_recording_state() {
    assert_eq!(
        classify_ptt_event(Some("transcribe"), true, true, "transcribe", None),
        PttAction::CancelRelease
    );
}

// ---------------------------------------------------------------------
// Busy-pipeline input classification.
//
// Toggle-style triggers (SIGUSR2, CLI flags, pedals that signal on both
// edges) flip state on every edge. Dropping a press that arrives while
// the previous pipeline is still processing desyncs the parity: the next
// edge then starts a recording no one will stop, leaving the overlay
// waiting for input with the button long released.
// ---------------------------------------------------------------------

#[test]
fn toggle_press_during_processing_remembers_start() {
    assert_eq!(
        classify_busy_input(true, ShortcutActivation::Toggle, None),
        BusyAction::Remember
    );
}

#[test]
fn second_toggle_press_during_processing_forgets_press() {
    assert_eq!(
        classify_busy_input(true, ShortcutActivation::Toggle, Some(Remembered::Locked)),
        BusyAction::Forget
    );
}

#[test]
fn toggle_release_during_processing_is_ignored() {
    assert_eq!(
        classify_busy_input(false, ShortcutActivation::Toggle, None),
        BusyAction::Ignore
    );
    assert_eq!(
        classify_busy_input(false, ShortcutActivation::Toggle, Some(Remembered::Locked)),
        BusyAction::Ignore
    );
}

#[test]
fn hold_modes_classify_busy_inputs_by_pending_state() {
    let cases = [
        (true, None, BusyAction::Remember),
        (true, Some(Remembered::Held), BusyAction::Ignore),
        (true, Some(Remembered::Locked), BusyAction::Forget),
        (false, None, BusyAction::Ignore),
        (false, Some(Remembered::Held), BusyAction::Ignore),
        (false, Some(Remembered::Locked), BusyAction::Ignore),
    ];

    for mode in [
        ShortcutActivation::PushToTalk,
        ShortcutActivation::HoldOrToggle,
    ] {
        for (is_pressed, remembered, expected) in cases {
            assert_eq!(classify_busy_input(is_pressed, mode, remembered), expected);
        }
    }
}

/// Toggle parity across a busy window: an odd number of presses remembers
/// one start, each further press flips the remembered press off/on again.
#[test]
fn toggle_presses_alternate_remember_and_forget_while_busy() {
    let mut remembered = None;
    for expected in [
        BusyAction::Remember,
        BusyAction::Forget,
        BusyAction::Remember,
    ] {
        let action = classify_busy_input(true, ShortcutActivation::Toggle, remembered);
        assert_eq!(action, expected);
        remembered = (action == BusyAction::Remember).then_some(Remembered::Locked);
    }
    assert!(remembered.is_some());
}

// ---------------------------------------------------------------------
// Key auto-repeat.
//
// Under X11 key auto-repeat, holding a push-to-talk key does not emit one
// long press. It emits the initial press followed by a stream of
// synthesized release/press pairs, then a single genuine release on key-up.
// Each release is deferred for a short grace window and taken back when the
// matching auto-repeat press arrives.
//
// The harness below drives `CoordinatorState` through whole event sequences
// on a synthetic clock.
// ---------------------------------------------------------------------

const BINDING: &str = "transcribe";

#[derive(Clone, Copy)]
enum Ev {
    /// A key-down event (real initial press or a synthesized auto-repeat press).
    Press,
    /// A key-up event (synthesized auto-repeat release or the genuine key-up).
    Release,
    /// The `RELEASE_GRACE` window elapsed with no cancelling press arriving.
    Grace,
}

struct DriveResult {
    starts: u32,
    stops: u32,
    stage: Stage,
}

fn ptt_input(is_pressed: bool) -> InputEvent {
    InputEvent {
        binding_id: BINDING.to_string(),
        hotkey_string: BINDING.to_string(),
        is_pressed,
        mode: ShortcutActivation::PushToTalk,
        hold_threshold: ms(0),
        external: false,
        received_at: clock_reading(),
    }
}

/// Feeds an event sequence to a [`CoordinatorState`] the way the
/// coordinator thread would; effects are counted instead of executed.
fn drive(events: &[Ev]) -> DriveResult {
    let mut state = CoordinatorState::new();
    let mut clock = clock_reading();
    let mut starts = 0u32;
    let mut stops = 0u32;

    for ev in events {
        // Auto-repeat events arrive a few ms apart, well inside DEBOUNCE.
        clock = clock + Duration::from_millis(5);

        let effect = match ev {
            Ev::Grace => state.on_grace_expired(),
            Ev::Press | Ev::Release => {
                state.on_input(ptt_input(matches!(ev, Ev::Press)), clock)
            }
        };
        match effect {
            Some(Effect::Start { .. }) => starts += 1,
            Some(Effect::Stop { .. }) => stops += 1,
            Some(Effect::PostProcessToggled { .. }) => {}
            None => {}
        }
    }

    DriveResult {
        starts,
        stops,
        stage: state.stage,
    }
}

/// Initial press plus several synthesized release/press pairs, as X11 emits
/// while a push-to-talk key is held down.
fn autorepeat_burst() -> Vec<Ev> {
    let mut events = vec![Ev::Press];
    for _ in 0..6 {
        events.push(Ev::Release);
        events.push(Ev::Press);
    }
    events
}

/// A burst of X11 auto-repeat release/press pairs must not stop recording: the
/// releases are coalesced and recording stays active for the whole burst.
#[test]
fn x11_autorepeat_burst_does_not_toggle_recording() {
    let result = drive(&autorepeat_burst());
    assert_eq!(result.starts, 1, "recording should start exactly once");
    assert_eq!(
        result.stops, 0,
        "synthesized auto-repeat releases must not stop recording mid-burst"
    );
    assert_eq!(
        result.stage,
        Stage::Recording(BINDING.to_string()),
        "recording must remain active across the entire auto-repeat burst"
    );
}

/// Complements the burst test: once the key is genuinely released and the
/// grace window elapses with no re-press, recording stops exactly once. This
/// proves the debounce only coalesces synthesized releases and does not wedge
/// the coordinator or swallow the real key-up.
#[test]
fn genuine_release_after_grace_stops_recording_once() {
    let mut events = autorepeat_burst();
    events.push(Ev::Release); // genuine key-up
    events.push(Ev::Grace); // grace window elapses, no cancelling press
    let result = drive(&events);
    assert_eq!(result.starts, 1, "recording should start exactly once");
    assert_eq!(
        result.stops, 1,
        "a genuine release should stop recording exactly once"
    );
    assert_eq!(result.stage, Stage::Processing);
}

// ---------------------------------------------------------------------
// Sequence-level coverage of the busy-pipeline and cancel paths, driven
// through the machine.
// ---------------------------------------------------------------------

/// PTT press while the pipeline is busy is remembered and starts recording
/// once the pipeline drains.
#[test]
fn press_during_processing_starts_after_drain() {
    let mut state = CoordinatorState::new();
    let now = clock_reading();

    let effect = state.on_input(ptt_input(true), now);
    assert!(matches!(effect, Some(Effect::Start { .. })));

    let effect = state.on_input(ptt_input(false), now + Duration::from_millis(100));
    assert!(effect.is_none(), "release should be deferred, not fired");

    let effect = state.on_grace_expired();
    assert!(matches!(effect, Some(Effect::Stop { .. })));

    let effect = state.on_input(ptt_input(true), now + Duration::from_millis(200));
    assert!(effect.is_none(), "busy pipeline must remember, not start");

    let effect = state.on_processing_finished();
    assert!(
        matches!(effect, Some(Effect::Start { .. })),
        "remembered press should start once the pipeline drains"
    );
}

/// Two toggle presses inside one busy window net to no-op: nothing starts
/// when the pipeline drains (toggle parity).
#[test]
fn toggle_presses_during_processing_net_noop_after_drain() {
    let mut state = CoordinatorState::new();
    let now = clock_reading();

    let effect = state.on_input(ptt_input(true), now);
    assert!(matches!(effect, Some(Effect::Start { .. })));
    let effect = state.on_input(ptt_input(false), now + Duration::from_millis(100));
    assert!(effect.is_none());
    let effect = state.on_grace_expired();
    assert!(matches!(effect, Some(Effect::Stop { .. })));

    let toggle = |state: &mut CoordinatorState, at: Instant| {
        state.on_input(
            InputEvent {
                binding_id: BINDING.to_string(),
                hotkey_string: BINDING.to_string(),
                is_pressed: true,
                mode: ShortcutActivation::Toggle,
                hold_threshold: ms(0),
                external: true,
                received_at: at,
            },
            at,
        )
    };

    let effect = toggle(&mut state, now + Duration::from_millis(200));
    assert!(effect.is_none());
    let effect = toggle(&mut state, now + Duration::from_millis(300));
    assert!(effect.is_none());

    let effect = state.on_processing_finished();
    assert!(
        effect.is_none(),
        "even number of busy toggle presses must not start recording"
    );
    assert_eq!(state.stage, Stage::Idle);
}

/// Cancel while processing abandons a remembered press: the pipeline drains
/// to idle and nothing starts.
#[test]
fn cancel_during_processing_drops_remembered_press() {
    let mut state = CoordinatorState::new();
    let now = clock_reading();

    let effect = state.on_input(ptt_input(true), now);
    assert!(matches!(effect, Some(Effect::Start { .. })));
    let effect = state.on_input(ptt_input(false), now + Duration::from_millis(100));
    assert!(effect.is_none());
    let effect = state.on_grace_expired();
    assert!(matches!(effect, Some(Effect::Stop { .. })));

    let effect = state.on_input(ptt_input(true), now + Duration::from_millis(200));
    assert!(effect.is_none());

    state.on_cancel(false);
    assert_eq!(
        state.stage,
        Stage::Processing,
        "cancel must not reset mid-processing — the pipeline still finishes"
    );

    let effect = state.on_processing_finished();
    assert!(
        effect.is_none(),
        "cancelled session must not spawn a deferred recording"
    );
    assert_eq!(state.stage, Stage::Idle);
}

fn toggle_input(external: bool) -> InputEvent {
    toggle_input_for(BINDING, external)
}

fn toggle_input_for(binding_id: &str, external: bool) -> InputEvent {
    InputEvent {
        binding_id: binding_id.to_string(),
        hotkey_string: binding_id.to_string(),
        is_pressed: true,
        mode: ShortcutActivation::Toggle,
        hold_threshold: ms(0),
        external,
        received_at: clock_reading(),
    }
}

/// Start and stop one toggle recording so the machine sits in `Processing`.
fn drive_into_processing(state: &mut CoordinatorState, now: Instant) {
    let effect = state.on_input(toggle_input(true), now);
    assert!(matches!(effect, Some(Effect::Start { .. })));
    let effect = state.on_input(toggle_input(true), now + Duration::from_millis(100));
    assert!(matches!(effect, Some(Effect::Stop { .. })));
    assert_eq!(state.stage, Stage::Processing);
}

const OTHER_BINDING: &str = "transcribe_with_post_process";

/// Only one press can be pending. Once a binding has claimed it, a toggle
/// for a different binding is ignored (as it is while recording) instead of
/// replacing the remembered press, so the pending binding's parity holds:
/// two transcribe toggles still net to no-op.
#[test]
fn different_binding_does_not_replace_pending_press() {
    let mut state = CoordinatorState::new();
    let now = clock_reading();
    drive_into_processing(&mut state, now);

    let at = |ms| now + Duration::from_millis(ms);
    assert!(state.on_input(toggle_input(true), at(200)).is_none());
    assert!(state
        .on_input(toggle_input_for(OTHER_BINDING, true), at(300))
        .is_none());
    assert!(state.on_input(toggle_input(true), at(400)).is_none());

    let effect = state.on_processing_finished();
    assert!(
        effect.is_none(),
        "two transcribe toggles net to no-op; the ignored post-process toggle must not start"
    );
    assert_eq!(state.stage, Stage::Idle);
}

/// The binding that claimed the pending press is the one that starts on
/// drain, regardless of other bindings toggled in between.
#[test]
fn drain_starts_the_pending_binding_not_a_later_one() {
    let mut state = CoordinatorState::new();
    let now = clock_reading();
    drive_into_processing(&mut state, now);

    let at = |ms| now + Duration::from_millis(ms);
    assert!(state.on_input(toggle_input(true), at(200)).is_none());
    assert!(state
        .on_input(toggle_input_for(OTHER_BINDING, true), at(300))
        .is_none());

    match state.on_processing_finished() {
        Some(Effect::Start { binding_id, .. }) => assert_eq!(binding_id, BINDING),
        other => panic!("expected Start for '{BINDING}', got {other:?}"),
    }
}

/// External triggers fire on every edge by design (e.g. SIGUSR2 sent on
/// both key press and release). Two edges inside the debounce window must
/// both be honoured, or the parity desyncs and recording wedges on.
#[test]
fn external_edges_inside_debounce_window_are_not_dropped() {
    let mut state = CoordinatorState::new();
    let now = clock_reading();

    let effect = state.on_input(toggle_input(true), now);
    assert!(matches!(effect, Some(Effect::Start { .. })));

    let effect = state.on_input(toggle_input(true), now + Duration::from_millis(5));
    assert!(
        matches!(effect, Some(Effect::Stop { .. })),
        "second external edge inside DEBOUNCE must stop the recording"
    );
    assert_eq!(state.stage, Stage::Processing);
}

/// Physical keyboard presses keep the debounce: a repeat inside the window
/// is still dropped and recording stays active.
#[test]
fn keyboard_press_inside_debounce_window_is_still_dropped() {
    let mut state = CoordinatorState::new();
    let now = clock_reading();

    let effect = state.on_input(toggle_input(false), now);
    assert!(matches!(effect, Some(Effect::Start { .. })));

    let effect = state.on_input(toggle_input(false), now + Duration::from_millis(5));
    assert!(
        effect.is_none(),
        "keyboard repeat inside DEBOUNCE must be debounced"
    );
    assert_eq!(state.stage, Stage::Recording(BINDING.to_string()));
}

/// If the start effect fails to begin recording (e.g. microphone access
/// denied), the optimistic transition rolls back to idle.
#[test]
fn failed_start_rolls_back_to_idle() {
    let mut state = CoordinatorState::new();

    let effect = state.on_input(ptt_input(true), clock_reading());
    assert!(matches!(effect, Some(Effect::Start { .. })));

    state.on_start_result(BINDING, false);
    assert_eq!(state.stage, Stage::Idle);
}

// ---------------------------------------------------------------------
// Hold-or-toggle and the two simple modes,
// driven on a synthetic clock. Recording starts
// on key-down in every mode; the tests pin how each mode ends it.
// ---------------------------------------------------------------------

fn hold_threshold() -> Duration {
    ms(300)
}

fn input(mode: ShortcutActivation, is_pressed: bool) -> InputEvent {
    InputEvent {
        binding_id: BINDING.to_string(),
        hotkey_string: BINDING.to_string(),
        is_pressed,
        mode,
        hold_threshold: hold_threshold(),
        external: false,
        received_at: clock_reading(),
    }
}

fn ms(n: u64) -> Duration {
    Duration::from_millis(n)
}

/// Hold-or-toggle: a key held past the threshold is push-to-talk — the
/// (deferred) release stops recording.
#[test]
fn hold_or_toggle_long_hold_stops_on_release() {
    let mode = ShortcutActivation::HoldOrToggle;
    let mut state = CoordinatorState::new();
    let t0 = clock_reading();

    assert!(matches!(
        state.on_input(input(mode, true), t0),
        Some(Effect::Start { .. })
    ));
    assert!(state.on_input(input(mode, false), t0 + ms(800)).is_none());
    assert!(
        matches!(state.on_grace_expired(), Some(Effect::Stop { .. })),
        "an 800ms hold must stop when its release grace elapses"
    );
    assert_eq!(state.stage, Stage::Processing);
}

/// Hold-or-toggle: a tap keeps recording (locked on); the next press stops.
#[test]
fn hold_or_toggle_tap_locks_recording_until_next_press() {
    let mode = ShortcutActivation::HoldOrToggle;
    let mut state = CoordinatorState::new();
    let t0 = clock_reading();

    assert!(matches!(
        state.on_input(input(mode, true), t0),
        Some(Effect::Start { .. })
    ));
    assert!(state.on_input(input(mode, false), t0 + ms(120)).is_none());
    assert!(
        state.on_grace_expired().is_none(),
        "a 120ms tap must not stop recording"
    );
    assert_eq!(state.stage, Stage::Recording(BINDING.to_string()));
    assert!(state.is_locked());

    // Seconds later the user presses again to finish.
    assert!(matches!(
        state.on_input(input(mode, true), t0 + ms(5000)),
        Some(Effect::Stop { .. })
    ));
    assert_eq!(state.stage, Stage::Processing);
    // The release of that stopping press lands in the busy window and is
    // ignored, so nothing is remembered for the drain.
    assert!(state.on_input(input(mode, false), t0 + ms(5080)).is_none());
    assert!(state.on_processing_finished().is_none());
    assert_eq!(state.stage, Stage::Idle);
}

/// The first activation after startup keeps the executor busy while the
/// microphone initializes. A short tap whose release is queued behind that
/// must still classify as a tap: the hold is measured between the sender's
/// stamps, and this drives the machine with exactly those stamps.
#[test]
fn auto_mode_tap_survives_first_activation_start_latency() {
    let mode = ShortcutActivation::HoldOrToggle;
    let mut state = CoordinatorState::new();
    let t0 = clock_reading();

    let mut press = input(mode, true);
    press.received_at = t0;
    assert!(matches!(
        state.on_input(press, t0),
        Some(Effect::Start { .. })
    ));

    // The user taps: the key really goes up 150ms in, while the
    // coordinator is still blocked initializing the microphone. The
    // release carries the edge time, not the much later dequeue time.
    let mut release = input(mode, false);
    release.received_at = t0 + ms(150);
    assert!(state.on_input(release, t0 + ms(150)).is_none());
    assert!(
        state.on_grace_expired().is_none(),
        "a 150ms tap measured edge-to-edge must not stop the recording"
    );
    assert_eq!(state.stage, Stage::Recording(BINDING.to_string()));
    assert!(state.is_locked(), "the tap must lock the session on");

    // The next press — long after the drain of that empty start — is what
    // ends the session, per tap semantics.
    let mut stop_press = input(mode, true);
    stop_press.received_at = t0 + ms(5000);
    assert!(matches!(
        state.on_input(stop_press, t0 + ms(5000)),
        Some(Effect::Stop { .. })
    ));
}

/// Hold-or-toggle: a locked session ignores stray releases — only a press
/// ends it.
#[test]
fn hold_or_toggle_locked_session_ignores_release() {
    let mode = ShortcutActivation::HoldOrToggle;
    let mut state = CoordinatorState::new();
    let t0 = clock_reading();

    state.on_input(input(mode, true), t0);
    state.on_input(input(mode, false), t0 + ms(100));
    assert!(state.on_grace_expired().is_none());
    assert!(state.is_locked());

    assert!(state.on_input(input(mode, false), t0 + ms(900)).is_none());
    assert!(
        state.grace_deadline().is_none(),
        "no release may be deferred once locked"
    );
    assert_eq!(state.stage, Stage::Recording(BINDING.to_string()));
}

/// Hold-or-toggle: while the key is genuinely held, extra presses do not
/// stop the recording (that is the release's job).
#[test]
fn hold_or_toggle_press_while_held_is_ignored() {
    let mode = ShortcutActivation::HoldOrToggle;
    let mut state = CoordinatorState::new();
    let t0 = clock_reading();

    state.on_input(input(mode, true), t0);
    assert!(state.on_input(input(mode, true), t0 + ms(400)).is_none());
    assert_eq!(state.stage, Stage::Recording(BINDING.to_string()));
    assert!(!state.is_locked());
}

/// Hold-or-toggle under X11 auto-repeat: the synthesized release/press
/// pairs must not be misread as taps. The hold is measured from the
/// original key-down to the genuine key-up.
#[test]
fn hold_or_toggle_autorepeat_burst_is_one_long_hold() {
    let mode = ShortcutActivation::HoldOrToggle;
    let mut state = CoordinatorState::new();
    let t0 = clock_reading();
    let mut clock = t0;

    assert!(matches!(
        state.on_input(input(mode, true), clock),
        Some(Effect::Start { .. })
    ));
    // ~600ms of auto-repeat pairs a few ms apart.
    for _ in 0..60 {
        clock = clock + ms(5);
        assert!(state.on_input(input(mode, false), clock).is_none());
        clock = clock + ms(5);
        assert!(state.on_input(input(mode, true), clock).is_none());
        assert!(
            state.grace_deadline().is_none(),
            "auto-repeat press must cancel the deferred release"
        );
    }
    assert!(!state.is_locked(), "no tap may be classified mid-burst");

    clock = clock + ms(5);
    assert!(state.on_input(input(mode, false), clock).is_none());
    assert!(
        matches!(state.on_grace_expired(), Some(Effect::Stop { .. })),
        "the genuine release after a ~600ms hold must stop recording"
    );
}

/// Hold-or-toggle: a press remembered during the busy window is measured
/// from the real key-down, so a hold that straddles the drain still counts
/// as a hold when it is released shortly after recording actually starts.
#[test]
fn hold_or_toggle_remembered_press_measures_hold_from_real_key_down() {
    let mode = ShortcutActivation::HoldOrToggle;
    let mut state = CoordinatorState::new();
    let t0 = clock_reading();

    // Previous session: hold, release, stop → Processing.
    state.on_input(input(mode, true), t0);
    state.on_input(input(mode, false), t0 + ms(800));
    assert!(matches!(
        state.on_grace_expired(),
        Some(Effect::Stop { .. })
    ));

    // Pressed again while busy; still held when the pipeline drains 700ms later.
    assert!(state.on_input(input(mode, true), t0 + ms(1000)).is_none());
    assert!(matches!(
        state.on_processing_finished(),
        Some(Effect::Start { .. })
    ));
    // Released 100ms after recording began — but 800ms after key-down.
    assert!(state.on_input(input(mode, false), t0 + ms(1800)).is_none());
    assert!(
        matches!(state.on_grace_expired(), Some(Effect::Stop { .. })),
        "held 800ms overall: must stop, not lock"
    );
}

/// Toggle: releases never stop, the next press does. (Toggle is the
/// combined machine with the session locked from the start.)
#[test]
fn toggle_mode_ignores_release_and_stops_on_next_press() {
    let mode = ShortcutActivation::Toggle;
    let mut state = CoordinatorState::new();
    let t0 = clock_reading();

    assert!(matches!(
        state.on_input(input(mode, true), t0),
        Some(Effect::Start { .. })
    ));
    assert!(state.is_locked());
    assert!(state.on_input(input(mode, false), t0 + ms(100)).is_none());
    assert!(
        state.grace_deadline().is_none(),
        "toggle never defers releases"
    );
    assert!(state.on_input(input(mode, false), t0 + ms(3000)).is_none());
    assert!(matches!(
        state.on_input(input(mode, true), t0 + ms(4000)),
        Some(Effect::Stop { .. })
    ));
}

/// Push-to-talk: even a very short press stops on release — there is no
/// tap-to-lock in this mode (hold threshold of zero).
#[test]
fn push_to_talk_short_press_still_stops_on_release() {
    let mode = ShortcutActivation::PushToTalk;
    let mut state = CoordinatorState::new();
    let t0 = clock_reading();

    assert!(matches!(
        state.on_input(input(mode, true), t0),
        Some(Effect::Start { .. })
    ));
    assert!(state.on_input(input(mode, false), t0 + ms(40)).is_none());
    assert!(matches!(
        state.on_grace_expired(),
        Some(Effect::Stop { .. })
    ));
}

/// Cancel (Escape) during a locked hold-or-toggle session resets cleanly so
/// the next press starts a fresh recording rather than stopping a dead one.
#[test]
fn hold_or_toggle_cancel_clears_locked_session() {
    let mode = ShortcutActivation::HoldOrToggle;
    let mut state = CoordinatorState::new();
    let t0 = clock_reading();

    state.on_input(input(mode, true), t0);
    state.on_input(input(mode, false), t0 + ms(100));
    assert!(state.on_grace_expired().is_none());
    assert!(state.is_locked());

    state.on_cancel(true);
    assert_eq!(state.stage, Stage::Idle);
    assert!(!state.is_locked());
    assert!(matches!(
        state.on_input(input(mode, true), t0 + ms(2000)),
        Some(Effect::Start { .. })
    ));
}

/// Switching to toggle while an unlocked hold recording is running must not
/// strand it: in toggle mode a press always stops.
#[test]
fn toggle_press_stops_recording_started_as_hold() {
    let mut state = CoordinatorState::new();
    let t0 = clock_reading();

    state.on_input(input(ShortcutActivation::HoldOrToggle, true), t0);
    assert!(!state.is_locked());
    assert!(matches!(
        state.on_input(input(ShortcutActivation::Toggle, true), t0 + ms(2000)),
        Some(Effect::Stop { .. })
    ));
}

// Hold-vs-tap classification while the previous transcription is busy.
fn hold_or_toggle_into_processing(state: &mut CoordinatorState, t0: Instant) {
    let mode = ShortcutActivation::HoldOrToggle;
    assert!(matches!(
        state.on_input(input(mode, true), t0),
        Some(Effect::Start { .. })
    ));
    assert!(state.on_input(input(mode, false), t0 + ms(800)).is_none());
    assert!(matches!(
        state.on_grace_expired(),
        Some(Effect::Stop { .. })
    ));
    assert_eq!(state.stage, Stage::Processing);
}

#[test]
fn hold_or_toggle_tap_during_processing_queues_locked_start() {
    let mode = ShortcutActivation::HoldOrToggle;
    let mut state = CoordinatorState::new();
    let t0 = clock_reading();
    hold_or_toggle_into_processing(&mut state, t0);

    assert!(state.on_input(input(mode, true), t0 + ms(1000)).is_none());
    assert!(state.on_input(input(mode, false), t0 + ms(1100)).is_none());
    assert!(state.on_grace_expired().is_none());
    assert!(state.is_locked(), "a busy tap should queue a locked start");
    assert!(matches!(
        state.on_processing_finished(),
        Some(Effect::Start { .. })
    ));
    assert!(state.is_locked());
}

#[test]
fn hold_or_toggle_completed_hold_during_processing_nets_noop() {
    let mode = ShortcutActivation::HoldOrToggle;
    let mut state = CoordinatorState::new();
    let t0 = clock_reading();
    hold_or_toggle_into_processing(&mut state, t0);

    assert!(state.on_input(input(mode, true), t0 + ms(1000)).is_none());
    assert!(state.on_input(input(mode, false), t0 + ms(1600)).is_none());
    assert!(state.on_grace_expired().is_none());
    assert!(!state.is_locked());

    assert!(
        state.on_processing_finished().is_none(),
        "a 600ms hold that ended before the drain has nothing left to start"
    );
    assert_eq!(state.stage, Stage::Idle);
}

#[test]
fn hold_or_toggle_two_taps_during_processing_net_noop() {
    let mode = ShortcutActivation::HoldOrToggle;
    let mut state = CoordinatorState::new();
    let t0 = clock_reading();
    hold_or_toggle_into_processing(&mut state, t0);

    assert!(state.on_input(input(mode, true), t0 + ms(1000)).is_none());
    assert!(state.on_input(input(mode, false), t0 + ms(1100)).is_none());
    assert!(state.on_grace_expired().is_none());
    assert!(state.is_locked());

    assert!(state.on_input(input(mode, true), t0 + ms(1500)).is_none());
    assert!(
        !state.is_locked(),
        "the second tap's press forgets the queued tap"
    );
    assert!(state.on_input(input(mode, false), t0 + ms(1600)).is_none());
    assert!(state.grace_deadline().is_none());

    assert!(state.on_processing_finished().is_none());
    assert_eq!(state.stage, Stage::Idle);
}

#[test]
fn ptt_tap_inside_busy_window_nets_noop() {
    let mut state = CoordinatorState::new();
    let t0 = clock_reading();
    hold_or_toggle_into_processing(&mut state, t0);

    assert!(state.on_input(ptt_input(true), t0 + ms(1000)).is_none());
    assert!(state.on_input(ptt_input(false), t0 + ms(1040)).is_none());
    assert!(state.on_grace_expired().is_none());
    assert!(state.on_processing_finished().is_none());
}

/// The pipeline drains inside the 50ms grace of a busy tap: recording
/// starts first (unlocked, from the real key-down), and the grace then
/// resolves against the live recording, locking it as the tap it was.
#[test]
fn hold_or_toggle_drain_inside_busy_release_grace_still_classifies_tap() {
    let mode = ShortcutActivation::HoldOrToggle;
    let mut state = CoordinatorState::new();
    let t0 = clock_reading();
    hold_or_toggle_into_processing(&mut state, t0);

    assert!(state.on_input(input(mode, true), t0 + ms(1000)).is_none());
    assert!(state.on_input(input(mode, false), t0 + ms(1100)).is_none());
    assert!(matches!(
        state.on_processing_finished(),
        Some(Effect::Start { .. })
    ));
    assert!(!state.is_locked());

    assert!(state.on_grace_expired().is_none());
    assert!(state.is_locked(), "the deferred 100ms release is a tap");
}

/// X11 auto-repeat while busy, key still held at the drain: recording
/// starts measured from the first press, not from the last synthesized
/// press before the drain. Released 400ms after the real key-down but
/// only ~100ms after the drain — a hold, so it must stop rather than lock.
#[test]
fn hold_or_toggle_autorepeat_burst_straddling_drain_measures_from_first_press() {
    let mode = ShortcutActivation::HoldOrToggle;
    let mut state = CoordinatorState::new();
    let t0 = clock_reading();
    hold_or_toggle_into_processing(&mut state, t0);

    let mut clock = t0 + ms(1000);
    assert!(state.on_input(input(mode, true), clock).is_none());
    for _ in 0..30 {
        clock = clock + ms(5);
        assert!(state.on_input(input(mode, false), clock).is_none());
        clock = clock + ms(5);
        assert!(state.on_input(input(mode, true), clock).is_none());
        assert!(state.grace_deadline().is_none());
    }

    // Drain at ~t0 + 1300ms with the key still down.
    assert!(matches!(
        state.on_processing_finished(),
        Some(Effect::Start { .. })
    ));
    assert!(!state.is_locked());

    for _ in 0..10 {
        clock = clock + ms(5);
        assert!(state.on_input(input(mode, false), clock).is_none());
        clock = clock + ms(5);
        assert!(state.on_input(input(mode, true), clock).is_none());
    }
    assert_eq!(clock, t0 + ms(1400));
    assert!(state.on_input(input(mode, false), clock).is_none());
    assert!(
        matches!(state.on_grace_expired(), Some(Effect::Stop { .. })),
        "held 400ms since the real key-down: must stop, not lock"
    );
    assert_eq!(state.stage, Stage::Processing);
}

// ---------------------------------------------------------------------
// Mid-recording post-processing switch. Pressing the *other* transcribe binding while a
// toggle-based session is recording flips the per-session flag; the Stop
// effect locks the choice in without touching the persisted setting.
// ---------------------------------------------------------------------

const OTHER: &str = "transcribe_with_post_process";

fn xinput(binding: &str, mode: ShortcutActivation, is_pressed: bool) -> InputEvent {
    InputEvent {
        binding_id: binding.to_string(),
        hotkey_string: binding.to_string(),
        is_pressed,
        mode,
        hold_threshold: hold_threshold(),
        external: false,
        received_at: clock_reading(),
    }
}

fn stop_post_process(effect: &Option<Effect>) -> Option<bool> {
    match effect {
        Some(Effect::Stop { post_process, .. }) => Some(*post_process),
        _ => None,
    }
}

/// ON → OFF: a session started with post-processing can be switched to
/// raw mid-recording; the Stop effect carries the toggled choice.
#[test]
fn post_process_toggle_on_to_off_during_toggle_recording() {
    let mode = ShortcutActivation::Toggle;
    let mut state = CoordinatorState::new();
    let t0 = clock_reading();

    assert!(matches!(
        state.on_input(xinput(OTHER, mode, true), t0),
        Some(Effect::Start { .. })
    ));
    assert_eq!(state.session_post_process, Some(true));

    // The other binding flips the session to raw; recording continues.
    assert!(matches!(
        state.on_input(xinput(BINDING, mode, true), t0 + ms(200)),
        Some(Effect::PostProcessToggled { enabled: false })
    ));
    assert_eq!(state.session_post_process, Some(false));
    assert_eq!(state.stage, Stage::Recording(OTHER.to_string()));

    // Stopping locks the toggled choice into the Stop effect.
    let effect = state.on_input(xinput(OTHER, mode, true), t0 + ms(400));
    assert_eq!(stop_post_process(&effect), Some(false));
    assert_eq!(state.stage, Stage::Processing);
    assert_eq!(state.session_post_process, None);
}

/// OFF → ON: a raw session can be switched to post-processing mid-recording.
#[test]
fn post_process_toggle_off_to_on_during_toggle_recording() {
    let mode = ShortcutActivation::Toggle;
    let mut state = CoordinatorState::new();
    let t0 = clock_reading();

    assert!(matches!(
        state.on_input(xinput(BINDING, mode, true), t0),
        Some(Effect::Start { .. })
    ));
    assert_eq!(state.session_post_process, Some(false));

    assert!(matches!(
        state.on_input(xinput(OTHER, mode, true), t0 + ms(200)),
        Some(Effect::PostProcessToggled { enabled: true })
    ));

    let effect = state.on_input(xinput(BINDING, mode, true), t0 + ms(400));
    assert_eq!(stop_post_process(&effect), Some(true));
}

/// Several rapid toggles: the last flip before recording ends wins.
#[test]
fn post_process_multiple_toggles_last_flip_wins() {
    let mode = ShortcutActivation::Toggle;
    let mut state = CoordinatorState::new();
    let t0 = clock_reading();

    state.on_input(xinput(OTHER, mode, true), t0);
    assert_eq!(state.session_post_process, Some(true));

    // OFF → ON → OFF via the other binding (spaced past DEBOUNCE).
    assert!(matches!(
        state.on_input(xinput(BINDING, mode, true), t0 + ms(200)),
        Some(Effect::PostProcessToggled { enabled: false })
    ));
    assert!(matches!(
        state.on_input(xinput(BINDING, mode, true), t0 + ms(400)),
        Some(Effect::PostProcessToggled { enabled: true })
    ));
    assert!(matches!(
        state.on_input(xinput(BINDING, mode, true), t0 + ms(600)),
        Some(Effect::PostProcessToggled { enabled: false })
    ));

    let effect = state.on_input(xinput(OTHER, mode, true), t0 + ms(800));
    assert_eq!(stop_post_process(&effect), Some(false));
}

/// A toggle arriving after recording stopped must not change the finished
/// session: the choice was already locked into its Stop effect. (A press
/// during Processing may still queue a *new* session per the existing
/// busy-drain rules — that is out of scope here; what matters is no
/// PostProcessToggled effect and no session state.)
#[test]
fn post_process_toggle_after_stop_changes_nothing_for_that_session() {
    let mode = ShortcutActivation::Toggle;
    let mut state = CoordinatorState::new();
    let t0 = clock_reading();

    state.on_input(xinput(BINDING, mode, true), t0);
    let effect = state.on_input(xinput(BINDING, mode, true), t0 + ms(200));
    assert_eq!(stop_post_process(&effect), Some(false));
    assert_eq!(state.stage, Stage::Processing);

    let effect = state.on_input(xinput(OTHER, mode, true), t0 + ms(400));
    assert!(
        !matches!(effect, Some(Effect::PostProcessToggled { .. })),
        "no toggle may fire once recording ended"
    );
    assert_eq!(state.session_post_process, None);
}

/// Once post-processing has started (still `Processing` stage), further
/// toggle presses are ignored for that session.
#[test]
fn post_process_toggle_once_processing_started_is_ignored() {
    let mode = ShortcutActivation::Toggle;
    let mut state = CoordinatorState::new();
    let t0 = clock_reading();

    state.on_input(xinput(OTHER, mode, true), t0);
    let effect = state.on_input(xinput(OTHER, mode, true), t0 + ms(200));
    assert_eq!(stop_post_process(&effect), Some(true));

    for at in [400, 600, 800] {
        let effect = state.on_input(xinput(BINDING, mode, true), t0 + ms(at));
        assert!(
            !matches!(effect, Some(Effect::PostProcessToggled { .. })),
            "toggle during processing must be ignored"
        );
    }
    assert_eq!(state.session_post_process, None);
}

/// Hold / push-to-talk sessions never participate: the other binding is
/// ignored and the Stop effect keeps the seeded choice.
#[test]
fn post_process_toggle_ignored_in_hold_mode() {
    let mode = ShortcutActivation::PushToTalk;
    let mut state = CoordinatorState::new();
    let t0 = clock_reading();

    assert!(matches!(
        state.on_input(xinput(BINDING, mode, true), t0),
        Some(Effect::Start { .. })
    ));
    assert!(!state.is_locked());

    assert!(
        state
            .on_input(xinput(OTHER, mode, true), t0 + ms(200))
            .is_none(),
        "hold mode must ignore the other binding"
    );
    assert_eq!(state.session_post_process, Some(false));

    assert!(
        state
            .on_input(xinput(BINDING, mode, false), t0 + ms(300))
            .is_none(),
        "release should be deferred, not fired"
    );
    let effect = state.on_grace_expired();
    assert_eq!(stop_post_process(&effect), Some(false));
}

/// Hold-or-toggle tap (toggle-like: locked) participates; a genuine hold
/// (still held: unlocked) does not.
#[test]
fn post_process_toggle_works_for_auto_tap_but_not_for_auto_hold() {
    let mode = ShortcutActivation::HoldOrToggle;

    // Tap path: release classifies as a tap → locked → toggle allowed.
    let mut state = CoordinatorState::new();
    let t0 = clock_reading();
    state.on_input(xinput(BINDING, mode, true), t0);
    state.on_input(xinput(BINDING, mode, false), t0 + ms(100));
    assert!(state.on_grace_expired().is_none());
    assert!(state.is_locked());

    assert!(matches!(
        state.on_input(xinput(OTHER, mode, true), t0 + ms(500)),
        Some(Effect::PostProcessToggled { enabled: true })
    ));
    let effect = state.on_input(xinput(BINDING, mode, true), t0 + ms(900));
    assert_eq!(stop_post_process(&effect), Some(true));

    // Hold path: key still down → unlocked → toggle ignored.
    let mut state = CoordinatorState::new();
    state.on_input(xinput(BINDING, mode, true), t0);
    assert!(!state.is_locked());
    assert!(
        state
            .on_input(xinput(OTHER, mode, true), t0 + ms(200))
            .is_none(),
        "an unlocked (held) auto session must ignore the other binding"
    );
    assert_eq!(state.session_post_process, Some(false));
}

/// The toggle never persists: the next session seeds its choice from its
/// own starting binding again.
#[test]
fn post_process_toggle_does_not_change_next_session_default() {
    let mode = ShortcutActivation::Toggle;
    let mut state = CoordinatorState::new();
    let t0 = clock_reading();

    // Session 1 starts ON, toggles OFF, stops raw.
    state.on_input(xinput(OTHER, mode, true), t0);
    state.on_input(xinput(BINDING, mode, true), t0 + ms(200));
    let effect = state.on_input(xinput(OTHER, mode, true), t0 + ms(400));
    assert_eq!(stop_post_process(&effect), Some(false));

    // Session 2 starts ON again — the toggle did not persist.
    state.on_processing_finished();
    assert!(matches!(
        state.on_input(xinput(OTHER, mode, true), t0 + ms(1000)),
        Some(Effect::Start { .. })
    ));
    assert_eq!(state.session_post_process, Some(true));
}

/// The starting binding seeds the session: plain `transcribe` starts raw,
/// `transcribe_with_post_process` starts with post-processing on — along
/// with the session's own activation mode.
#[test]
fn post_process_session_seeds_from_starting_binding() {
    let mode = ShortcutActivation::Toggle;
    let t0 = clock_reading();

    let mut state = CoordinatorState::new();
    state.on_input(xinput(BINDING, mode, true), t0);
    assert_eq!(state.session_post_process, Some(false));
    assert_eq!(state.session_mode, Some(mode));

    let mut state = CoordinatorState::new();
    state.on_input(xinput(OTHER, mode, true), t0);
    assert_eq!(state.session_post_process, Some(true));
    assert_eq!(state.session_mode, Some(mode));
}

/// Mirror of the ON-start multi-toggle: a raw session flipped three times
/// (raw → processed → raw → processed) stops processed.
#[test]
fn post_process_raw_start_triple_toggle_ends_processed() {
    let mode = ShortcutActivation::Toggle;
    let mut state = CoordinatorState::new();
    let t0 = clock_reading();

    state.on_input(xinput(BINDING, mode, true), t0);
    assert_eq!(state.session_post_process, Some(false));

    assert!(matches!(
        state.on_input(xinput(OTHER, mode, true), t0 + ms(200)),
        Some(Effect::PostProcessToggled { enabled: true })
    ));
    assert!(matches!(
        state.on_input(xinput(OTHER, mode, true), t0 + ms(400)),
        Some(Effect::PostProcessToggled { enabled: false })
    ));
    assert!(matches!(
        state.on_input(xinput(OTHER, mode, true), t0 + ms(600)),
        Some(Effect::PostProcessToggled { enabled: true })
    ));

    let effect = state.on_input(xinput(BINDING, mode, true), t0 + ms(800));
    assert_eq!(stop_post_process(&effect), Some(true));
}

/// Eligibility comes from the running session's stored mode, not the
/// incoming press's: a push-to-talk session ignores the other binding even
/// when that press reports Toggle mode (settings changed mid-recording) or
/// arrives as an external CLI/signal edge (which always reports Toggle).
#[test]
fn post_process_toggle_uses_session_mode_not_incoming_mode() {
    let mut state = CoordinatorState::new();
    let t0 = clock_reading();

    assert!(matches!(
        state.on_input(xinput(BINDING, ShortcutActivation::PushToTalk, true), t0),
        Some(Effect::Start { .. })
    ));
    assert_eq!(state.session_mode, Some(ShortcutActivation::PushToTalk));

    // Toggle-reported keyboard press for the other binding: ignored.
    assert!(state
        .on_input(
            xinput(OTHER, ShortcutActivation::Toggle, true),
            t0 + ms(200)
        )
        .is_none());
    // External edge (CLI flag / signal) for the other binding: ignored too.
    assert!(state
        .on_input(toggle_input_for(OTHER, true), t0 + ms(400))
        .is_none());
    assert_eq!(state.session_post_process, Some(false));

    // The session still ends with its seeded choice.
    assert!(state
        .on_input(
            xinput(BINDING, ShortcutActivation::PushToTalk, false),
            t0 + ms(500)
        )
        .is_none());
    let effect = state.on_grace_expired();
    assert_eq!(stop_post_process(&effect), Some(false));
}

/// The coordinator owns no settings handle, so a toggle can only flip the
/// live session copy — never the persisted default. Behavioural proof in
/// the raw direction: session 1 toggles ON and stops processed, yet
/// session 2 starts raw again.
#[test]
fn post_process_toggle_leaves_next_session_default_untouched() {
    let mode = ShortcutActivation::Toggle;
    let mut state = CoordinatorState::new();
    let t0 = clock_reading();

    // Session 1 starts raw, toggles ON, stops processed.
    state.on_input(xinput(BINDING, mode, true), t0);
    state.on_input(xinput(OTHER, mode, true), t0 + ms(200));
    let effect = state.on_input(xinput(BINDING, mode, true), t0 + ms(400));
    assert_eq!(stop_post_process(&effect), Some(true));

    // Session 2 starts raw again — the toggle did not persist anywhere.
    state.on_processing_finished();
    assert!(matches!(
        state.on_input(xinput(BINDING, mode, true), t0 + ms(1000)),
        Some(Effect::Start { .. })
    ));
    assert_eq!(state.session_post_process, Some(false));
}

/// Full session lifecycle through the machine: start raw, switch ON
/// mid-recording, stop with the choice locked in, drain the pipeline, and
/// start the next session — which seeds its own choice again. This is the
/// machine-level span of the `Stop → action → output` route: the value the
/// executor hands to `stop_with_post_process` is exactly what the session
/// locked at stop time.
#[test]
fn post_process_full_session_lifecycle_toggle_stop_drain_reseed() {
    let mode = ShortcutActivation::Toggle;
    let mut state = CoordinatorState::new();
    let t0 = clock_reading();

    assert!(matches!(
        state.on_input(xinput(BINDING, mode, true), t0),
        Some(Effect::Start { .. })
    ));
    assert_eq!(state.session_post_process, Some(false));

    assert!(matches!(
        state.on_input(xinput(OTHER, mode, true), t0 + ms(200)),
        Some(Effect::PostProcessToggled { enabled: true })
    ));
    assert_eq!(state.stage, Stage::Recording(BINDING.to_string()));

    let effect = state.on_input(xinput(BINDING, mode, true), t0 + ms(400));
    assert_eq!(stop_post_process(&effect), Some(true));
    assert_eq!(state.stage, Stage::Processing);

    // Nothing pending: the drain returns to idle without side effects.
    assert!(state.on_processing_finished().is_none());
    assert_eq!(state.stage, Stage::Idle);

    assert!(matches!(
        state.on_input(xinput(BINDING, mode, true), t0 + ms(1000)),
        Some(Effect::Start { .. })
    ));
    assert_eq!(state.session_post_process, Some(false));
    assert_eq!(state.session_mode, Some(mode));
}
