//! A verified sequencer for a washing machine's fixed control program.
//!
//! The machine drives four binary actuator outputs (motor power, rotation
//! direction, drain valve, inlet valve) and polls one binary input (the
//! water-level sensor). The whole program is a fixed, timed sequence of
//! pin-state changes; this crate models each phase as the exact sequence of
//! observable events (pin writes and delays) it performs, and proves that the
//! sequencer emits precisely those events.

pub mod event;
pub mod sequencer;
