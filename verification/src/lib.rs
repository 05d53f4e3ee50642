//! Test doubles for an HTTP client and for a process builder.
//!
//! Each double is a small state machine: it is loaded with the calls that
//! are expected of it, answers each call from what it was loaded with, and
//! can be asked afterwards whether exactly the expected calls were made.

pub mod reqwest;
pub mod std_process;
