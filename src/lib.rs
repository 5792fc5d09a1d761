//! Core of a polyphonic FM synthesizer: voice allocation, envelope events,
//! the oscillator bank's topology and per-sample modulation routing, and the
//! slot bookkeeping of the topology editor.
//!
//! The arithmetic on samples is left to the numeric type that a caller
//! chooses through [`osc::Signal`]; the contracts state each phase and each
//! sample over the names that the trait gives to its operations.

pub mod com;
pub mod control;
pub mod envelope;
pub mod osc;
pub mod osc_array;
pub mod solar_system;
