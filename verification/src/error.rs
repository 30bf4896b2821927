//! The kinds of failure that a command can come back with.
use vstd::prelude::*;

verus! {

/// Why a command failed, as the far side of the channel reports it.
///
/// The kinds are the kernel's. This crate never makes one up and never turns
/// one into another: whatever the channel reports reaches the caller as it is.
#[derive(Clone, Copy, Debug, PartialEq, Eq, Structural)]
pub enum ErrorCode {
    /// A failure with no closer description.
    Fail,
    /// The driver is busy with an earlier request.
    Busy,
    /// The requested state already holds.
    Already,
    /// The peripheral is switched off.
    Off,
    /// A reservation is needed before this call.
    Reserve,
    /// An argument is invalid, such as the index of a unit that does not exist.
    Invalid,
    /// A size given is too large or too small.
    Size,
    /// The operation was cancelled.
    Cancel,
    /// The kernel has no memory left for the request.
    NoMem,
    /// The driver does not know the command.
    NoSupport,
    /// There is no such driver.
    NoDevice,
    /// The peripheral is not physically installed.
    Uninstalled,
    /// The far end of a bus did not acknowledge.
    NoAck,
    /// What came back was not of the shape that the caller asked to read.
    BadRVal,
    /// A code without a name of its own, carried as it was reported.
    Other(u32),
}

} // verus!
