//! Stealth overlay control: the decisions that keep one desktop window visible
//! to its user while excluded from capture, and the lifecycle of the global
//! hotkey that toggles it.
//!
//! Every operating-system request is described by an [`os_call::OsCall`]; the
//! host performs it and reports back whether it succeeded. The library decides
//! which requests to make, in which order, which failures are fatal, and how
//! the tracked state follows.

pub mod os_call;
pub mod sequence;
pub mod applicator;
pub mod controller;
pub mod hotkey;
pub mod session;
