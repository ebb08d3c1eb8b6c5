//! Process run-time tracking engine.
//!
//! The engine measures how long a chosen operating-system process has spent
//! in the running state. It is a sequential state machine: the host hands it
//! commands, clock readings and probe results as plain values, and performs
//! the cancellations and spawns that the engine asks for.
//!
//! All instants and durations are `u64` nanoseconds on a monotonic clock whose
//! origin the host picks.
//!
//! - [`sample`]: probe readings and their classification.
//! - [`accumulator`]: the pure accumulation step.
//! - [`session`]: one tracking attempt and its inputs.
//! - [`publisher`]: the slot that the consumer reads.
//! - [`controller`]: sessions, samplers and their lifecycle.
//! - [`guarantees`]: what holds of the controller over every history.
//! - [`format`]: the clock text.
//! - [`picker`]: the process picker's name filter.

pub mod accumulator;
pub mod controller;
pub mod format;
pub mod guarantees;
pub mod picker;
pub mod publisher;
pub mod sample;
pub mod session;
