//! The coordinator's loop, as decisions: how long to wait, what a wake-up does to the
//! state, and what the report of an executed start means. Whoever owns the channel and
//! the application performs the waiting and the effects in between.

use crate::event::{Command, CommandView, Effect, EffectView};
use crate::model::CoordinatorView;
use crate::state::CoordinatorState;
use crate::time::{Duration, Instant};
use vstd::prelude::*;

verus! {

/// What ended a wait for the next command.
pub enum Wake {
    /// A command arrived.
    Command(Command),
    /// The wait reached the deadline of the deferred release.
    GraceElapsed,
    /// Every sender is gone.
    Disconnected,
}

/// The model of a [`Wake`].
pub enum WakeView {
    Command(CommandView),
    GraceElapsed,
    Disconnected,
}

impl View for Wake {
    type V = WakeView;

    open spec fn view(&self) -> WakeView {
        match self {
            Wake::Command(command) => WakeView::Command(command@),
            Wake::GraceElapsed => WakeView::GraceElapsed,
            Wake::Disconnected => WakeView::Disconnected,
        }
    }
}

/// What to do after a wake-up.
pub enum Step {
    /// Wait again.
    Wait,
    /// Run the effect, then wait again.
    Run(Effect),
    /// Leave the loop.
    Exit,
}

/// The model of a [`Step`].
pub enum StepView {
    Wait,
    Run(EffectView),
    Exit,
}

impl View for Step {
    type V = StepView;

    open spec fn view(&self) -> StepView {
        match self {
            Step::Wait => StepView::Wait,
            Step::Run(effect) => StepView::Run(effect@),
            Step::Exit => StepView::Exit,
        }
    }
}

/// What came of executing a start effect.
#[derive(Debug, Clone, Copy, PartialEq, Eq, Structural)]
pub enum StartReport {
    /// No action is registered for the binding, so nothing was started.
    NoAction,
    /// The action ran. `recorder` is whether the recorder is active afterwards, if
    /// there is a recorder at all.
    Ran { recorder: Option<bool> },
}

impl StartReport {
    /// Whether recording actually began: an action ran and left the recorder active.
    pub fn began(&self) -> (r: bool)
        ensures
            r == (*self == StartReport::Ran { recorder: Some(true) }),
    {
        match self {
            StartReport::NoAction => false,
            StartReport::Ran { recorder } => match recorder {
                Some(active) => *active,
                None => false,
            },
        }
    }
}

impl CoordinatorView {
    /// How long to wait for the next command at `now`: without end unless a release is
    /// held back, else until its deadline.
    pub open spec fn wait_at(self, now: Instant) -> Option<Duration> {
        match self.pending_release {
            Some(r) => Some(crate::time::duration_between(now, r.deadline)),
            None => None,
        }
    }

    /// Whether the clock can represent every deadline that handling `command` sets.
    pub open spec fn command_admissible(self, command: CommandView) -> bool {
        command matches CommandView::Input(input) ==> self.verdict(
            input,
            input.received_at,
        ) is DeferRelease ==> crate::time::representable(
            input.received_at,
            crate::model::release_grace(),
        )
    }

    /// The state after a command. An input counts as of when it was observed, however
    /// late the command is handled.
    pub open spec fn after_command(self, command: CommandView) -> CoordinatorView {
        match command {
            CommandView::Input(input) => self.after_input(input, input.received_at),
            CommandView::Cancel { recording_was_active } => self.after_cancel(recording_was_active),
            CommandView::ProcessingFinished => self.after_drain(),
        }
    }

    /// The effect that a command asks for.
    pub open spec fn command_effect(self, command: CommandView) -> Option<EffectView> {
        match command {
            CommandView::Input(input) => self.input_effect(input, input.received_at),
            CommandView::Cancel { .. } => None,
            CommandView::ProcessingFinished => self.drain_effect(),
        }
    }

    /// Whether the clock can represent every deadline that a wake-up sets.
    pub open spec fn wake_admissible(self, wake: WakeView) -> bool {
        wake matches WakeView::Command(command) ==> self.command_admissible(command)
    }

    /// The state after a wake-up.
    pub open spec fn after_wake(self, wake: WakeView) -> CoordinatorView {
        match wake {
            WakeView::Command(command) => self.after_command(command),
            WakeView::GraceElapsed => self.after_grace(),
            WakeView::Disconnected => self,
        }
    }

    /// What to do after a wake-up.
    pub open spec fn wake_step(self, wake: WakeView) -> StepView {
        let effect = match wake {
            WakeView::Command(command) => self.command_effect(command),
            WakeView::GraceElapsed => self.grace_effect(),
            WakeView::Disconnected => None,
        };
        match effect {
            Some(e) => StepView::Run(e),
            None => if wake is Disconnected {
                StepView::Exit
            } else {
                StepView::Wait
            },
        }
    }
}

impl CoordinatorState {
    /// How long to wait for the next command at `now`: without end unless a release is
    /// deferred, else until its deadline.
    pub fn next_wait(&self, now: Instant) -> (wait: Option<Duration>)
        ensures
            wait == self@.wait_at(now),
    {
        match self.grace_deadline() {
            Some(deadline) => Some(deadline.saturating_duration_since(now)),
            None => None,
        }
    }

    /// Handle a command. Hold durations are measured between the sender's stamps, so
    /// time spent blocked in an earlier effect cannot turn a tap into a hold.
    pub fn on_command(&mut self, command: Command) -> (effect: Option<Effect>)
        requires
            old(self)@.command_admissible(command@),
        ensures
            final(self)@ == old(self)@.after_command(command@),
            crate::event::effect_view(effect) == old(self)@.command_effect(command@),
            old(self)@.inv() ==> final(self)@.inv(),
    {
        match command {
            Command::Input(input) => {
                let now = input.received_at;
                self.on_input(input, now)
            },
            Command::Cancel { recording_was_active } => {
                self.on_cancel(recording_was_active);
                None
            },
            Command::ProcessingFinished => self.on_processing_finished(),
        }
    }

    /// Handle a wake-up and say what to do next.
    pub fn on_wake(&mut self, wake: Wake) -> (step: Step)
        requires
            old(self)@.wake_admissible(wake@),
        ensures
            final(self)@ == old(self)@.after_wake(wake@),
            step@ == old(self)@.wake_step(wake@),
            old(self)@.inv() ==> final(self)@.inv(),
    {
        let effect = match wake {
            Wake::Command(command) => self.on_command(command),
            Wake::GraceElapsed => self.on_grace_expired(),
            Wake::Disconnected => return Step::Exit,
        };
        match effect {
            Some(e) => Step::Run(e),
            None => Step::Wait,
        }
    }

    /// Take note of what came of executing a start effect for `binding_id`.
    pub fn on_start_report(&mut self, binding_id: &str, report: StartReport)
        ensures
            final(self)@ == old(self)@.after_start_result(
                binding_id@,
                report == StartReport::Ran { recorder: Some(true) },
            ),
            old(self)@.inv() ==> final(self)@.inv(),
    {
        self.on_start_result(binding_id, report.began());
    }
}

} // verus!
