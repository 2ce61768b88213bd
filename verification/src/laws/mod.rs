//! What holds of the coordinator as a whole, across calls and over every state.

pub mod busy;
pub mod calls;
pub mod hold;
pub mod input;
pub mod lifecycle;
pub mod models;
pub mod parity;
pub mod session;
pub mod trace;
pub mod wakes;
