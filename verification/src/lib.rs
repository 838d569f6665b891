//! Core of a privilege-elevation suite: the pieces of `sudo`-style command
//! execution that are pure decision logic, stated and proved here.
//!
//! - [`time`]: monotonic timestamps and durations kept as normalized
//!   seconds/nanoseconds pairs.
//! - [`context`]: turning command-line options and system lookup answers
//!   into the immutable execution context a session runs under.
//! - [`signal`]: classification of signals caught by the supervisor while
//!   a command runs: forward, act locally, or ignore.
//! - [`terminal`]: the pseudo-terminal controller's state: saved original
//!   mode and window size, with guaranteed restoration.
//! - [`supervisor`]: the single-threaded event-loop state machine that
//!   owns the child's lifecycle and translates its end into an exit
//!   disposition.

pub mod context;
pub mod signal;
pub mod supervisor;
pub mod terminal;
pub mod time;
