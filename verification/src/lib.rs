//! The decision core of a dictation coordinator: it turns shortcut edges, signals,
//! cancels and pipeline notifications into starting and stopping a recording.
//!
//! * [`state`] is the state machine and [`driver`] the loop around it; both only decide.
//!   Waiting, recording and transcribing are left to whoever calls them.
//! * [`event`] and [`time`] are what goes in and out; [`classify`] and [`binding`] are the
//!   small decisions that the machine is made of.
//! * [`model`] is the machine as mathematics. Every handler is proved to do what it says,
//!   and [`laws`] states what follows for whole sequences of events.

pub mod binding;
pub mod classify;
pub mod driver;
pub mod event;
pub mod laws;
pub mod model;
pub mod state;
pub mod time;

pub use crate::binding::is_transcribe_binding;
