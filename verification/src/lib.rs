//! Control logic of a push-button counter display.
//!
//! A periodic timer advances a counter, a small bank of output lines shows
//! the counter in binary, and one push-button pauses and resumes the
//! progression. The machine has two modes, [`State::Paused`] and
//! [`State::Running`]: it counts while running and is frozen while paused.
//! A press never resets the counter; a release resumes where the count
//! stopped. The rules are in [`transition`].
//!
//! The library holds no hardware. A caller samples the button and hands the
//! level in; the machine hands each line level to a callback that drives the
//! line. Every function here is verified against the contract in its header.

pub mod config;
pub mod console;
pub mod display;
pub mod error;
pub mod laws;
pub mod machine;
pub mod signal;
pub mod state;
pub mod transition;

pub use error::StateMachineError;
pub use machine::{MachineView, StateMachine};
pub use signal::SignalChannel;
pub use state::State;
