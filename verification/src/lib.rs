//! Core of a keyboard-event capture layer: scan-code translation, the
//! listen/stop lifecycle of a system-wide key tap, and a bounded-retry
//! supervisor for tap creation.
//!
//! The operating-system calls themselves (installing the tap, parking a
//! run-loop, playing audio) live outside this library; everything here is
//! the decision logic those calls are driven by, stated and verified over
//! plain values.

pub mod errors;
pub mod keys;
pub mod monitor;
pub mod nsevent;
pub mod session;
pub mod supervisor;
