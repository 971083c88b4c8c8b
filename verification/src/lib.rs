//! Control core of a button-operated, multi-mode output device.
//!
//! A single push-button selects among five operating levels
//! (Off/Low/Mid/High/Auto). The selected level is published through a
//! single-writer cell and rendered by independently polled output drivers.
//! This crate holds the pure control logic: debouncing decisions, gesture
//! classification, the mode state machine, the publication cell's model,
//! the per-mode rendering plans, and the dispatcher step that ties them
//! together. The hardware edges (pin waits, timers, output lines) live
//! outside and hand this crate plain values.

pub mod button;
pub mod dispatch;
pub mod gesture;
pub mod publish;
pub mod render;
pub mod state;
