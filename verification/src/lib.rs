//! Verified model of a microcontroller's GPIO bring-up sequence and the
//! steady-state LED toggle loop that consumes it.
//!
//! The hardware's memory-mapped registers are modeled as plain values in
//! [`device::Device`]; the bring-up sequencer in [`bringup`] performs one
//! register access per step and records a ghost trace of those accesses, over
//! which the ordering laws of the sequence are proved. The toggle loop's
//! timing is modeled against the simulated delay primitive in [`clock`].

pub mod blink;
pub mod bringup;
pub mod clock;
pub mod device;
pub mod startup;
