//! The command channel.
//!
//! A command has a fixed shape: the driver it goes to, the operation within
//! that driver, and two arguments. Whoever holds a capability, a type with
//! [`Syscalls`], may issue one. What comes back is the transport's own numeric
//! outcome, a [`CommandReturn`], which only the transport knows how to read.
//! The channel adds nothing to either: it hands the four numbers over as they
//! are, once, and returns the transport's reading of its own answer.
use vstd::prelude::*;
use crate::error::ErrorCode;

verus! {

/// The outcome of one command, in the transport's own encoding.
///
/// A command succeeds with a value, succeeds with none, or fails with a reason.
/// Which of these an outcome is read as depends on what the caller expects of
/// the operation, so there is one reading for each expectation.
pub trait CommandReturn: Sized {
    /// Reads the outcome of an operation that yields one value.
    fn to_result_u32(self) -> Result<u32, ErrorCode>;

    /// Reads the outcome of an operation that yields nothing but its success.
    fn to_result_unit(self) -> Result<(), ErrorCode>;
}

/// The capability to issue commands.
///
/// It is a type rather than a value: a capability has no state of its own, and
/// holding the type is holding the right.
pub trait Syscalls {
    /// What a command comes back with.
    type Return: CommandReturn;

    /// Issues one command and waits for its outcome.
    fn command(driver_id: u32, command_id: u32, arg0: u32, arg1: u32) -> Self::Return;
}

/// `result` is what the capability `S` can answer to the command
/// `(driver_id, command_id, arg0, arg1)` when the answer is read for a value:
/// some outcome of exactly that command has exactly this reading.
pub open spec fn answers_u32<S: Syscalls>(
    driver_id: u32,
    command_id: u32,
    arg0: u32,
    arg1: u32,
    result: Result<u32, ErrorCode>,
) -> bool {
    exists|raw: S::Return|
        #[trigger] call_ensures(S::command, (driver_id, command_id, arg0, arg1), raw)
            && call_ensures(<S::Return as CommandReturn>::to_result_u32, (raw,), result)
}

/// `result` is what the capability `S` can answer to the command
/// `(driver_id, command_id, arg0, arg1)` when the answer is read for success
/// alone.
pub open spec fn answers_unit<S: Syscalls>(
    driver_id: u32,
    command_id: u32,
    arg0: u32,
    arg1: u32,
    result: Result<(), ErrorCode>,
) -> bool {
    exists|raw: S::Return|
        #[trigger] call_ensures(S::command, (driver_id, command_id, arg0, arg1), raw)
            && call_ensures(<S::Return as CommandReturn>::to_result_unit, (raw,), result)
}

/// Issues a command whose success carries a value.
///
/// The four numbers reach the capability unchanged, and the result is the
/// transport's reading of what came back: a value that it reported, or the
/// failure that it reported.
pub fn issue<S: Syscalls>(driver_id: u32, command_id: u32, arg0: u32, arg1: u32) -> (result:
    Result<u32, ErrorCode>)
    ensures
        answers_u32::<S>(driver_id, command_id, arg0, arg1, result),
{
    S::command(driver_id, command_id, arg0, arg1).to_result_u32()
}

/// Issues a command whose success carries nothing.
///
/// The four numbers reach the capability unchanged, and the result is the
/// transport's reading of what came back: success, or the failure that it
/// reported.
pub fn issue_unit<S: Syscalls>(driver_id: u32, command_id: u32, arg0: u32, arg1: u32) -> (result:
    Result<(), ErrorCode>)
    ensures
        answers_unit::<S>(driver_id, command_id, arg0, arg1, result),
{
    S::command(driver_id, command_id, arg0, arg1).to_result_unit()
}

} // verus!
