//! Fault signalling for a constrained embedded runtime.
//!
//! When an application panics or runs out of memory, the runtime still owes the
//! outside world a sign that something went wrong. This crate holds the part of
//! that which can be decided without touching the hardware:
//!
//! * [`channel`]: the command channel, generic over whatever can issue commands;
//! * [`leds`]: the LED driver's four operations on top of the channel;
//! * [`diagnostic`]: the two repeating light patterns, as schedules of actions;
//! * [`fault`]: the path that each fault entry point walks, from the fault to
//!   the pattern or to silence;
//! * [`entry`]: what a program's entry function may return.
//!
//! Nothing here allocates, sleeps or loops for ever: the runtime carries out
//! each request and reports back, and the state machines say what comes next.
pub mod channel;
pub mod diagnostic;
pub mod entry;
pub mod error;
pub mod fault;
pub mod leds;

pub use channel::{issue, issue_unit, CommandReturn, Syscalls};
pub use diagnostic::{Action, DiagnosticLoop, Pattern, PAUSE_MS};
pub use entry::{start, Termination};
pub use error::ErrorCode;
pub use fault::{Fault, FaultPath, Outcome, Request, PANIC_STATUS};
pub use leds::Leds;
