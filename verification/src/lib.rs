//! Runtime core of a single-board controller: exclusive pin claims, a debounce
//! filter for polled digital inputs, and the reconnect state machine that
//! publishes the network connectivity state.
//!
//! Everything here is plain logic over plain values. The hardware, the clock,
//! the threads and the locks live with the caller, which feeds what it reads
//! into these functions and carries out what they decide.

pub mod error;
pub mod flash;
pub mod kernel;
pub mod networking;
pub mod physical;
pub mod pin_mgr;
pub mod settings;
pub mod station;
pub mod switch;
pub mod types;
