//! The LED driver.
use vstd::prelude::*;
use crate::channel::{answers_u32, answers_unit, issue, issue_unit, CommandReturn, Syscalls};
use crate::error::ErrorCode;

verus! {

/// The driver that the kernel knows the LEDs by.
pub const DRIVER_ID: u32 = 2;

/// The command that asks how many LEDs there are.
pub const LEDS_COUNT: u32 = 0;

/// The command that turns one LED on.
pub const LED_ON: u32 = 1;

/// The command that turns one LED off.
pub const LED_OFF: u32 = 2;

/// The command that flips one LED.
pub const LED_TOGGLE: u32 = 3;

/// The LEDs driver, for the capability `S`.
///
/// Each operation is one command to the LED driver. None keeps state, and none
/// checks the index it is given: whether an LED exists is for the far side to
/// say, and what it says is returned.
pub struct Leds<S: Syscalls>(S);

impl<S: Syscalls> Leds<S> {
    /// Asks the LED driver how many LEDs it has.
    ///
    /// `Ok(n)` says that the driver is there and has `n` LEDs; zero is a
    /// possible answer. A failure says that the driver did not answer the
    /// question, which is the case when there is no such driver.
    pub fn count() -> (result: Result<u32, ErrorCode>)
        ensures
            answers_u32::<S>(DRIVER_ID, LEDS_COUNT, 0, 0, result),
    {
        issue::<S>(DRIVER_ID, LEDS_COUNT, 0, 0)
    }

    /// Turns the LED `led` on.
    pub fn on(led: u32) -> (result: Result<(), ErrorCode>)
        ensures
            answers_unit::<S>(DRIVER_ID, LED_ON, led, 0, result),
    {
        issue_unit::<S>(DRIVER_ID, LED_ON, led, 0)
    }

    /// Turns the LED `led` off.
    pub fn off(led: u32) -> (result: Result<(), ErrorCode>)
        ensures
            answers_unit::<S>(DRIVER_ID, LED_OFF, led, 0, result),
    {
        issue_unit::<S>(DRIVER_ID, LED_OFF, led, 0)
    }

    /// Flips the LED `led`.
    pub fn toggle(led: u32) -> (result: Result<(), ErrorCode>)
        ensures
            answers_unit::<S>(DRIVER_ID, LED_TOGGLE, led, 0, result),
    {
        issue_unit::<S>(DRIVER_ID, LED_TOGGLE, led, 0)
    }
}

/// What the far side refuses, the driver refuses.
///
/// The driver checks no index itself. If the far side fails the command
/// `command_id` for the LED `led`, as it does for an LED that does not exist,
/// then whatever the driver returns for that command and that LED is a failure:
/// a refusal never turns into success on the way.
pub proof fn lemma_refusal_is_returned<S: Syscalls>(
    command_id: u32,
    led: u32,
    result: Result<(), ErrorCode>,
)
    requires
        forall|raw: S::Return, reading: Result<(), ErrorCode>|
            #[trigger] call_ensures(S::command, (DRIVER_ID, command_id, led, 0u32), raw)
                && #[trigger] call_ensures(
                <S::Return as CommandReturn>::to_result_unit,
                (raw,),
                reading,
            ) ==> reading is Err,
        answers_unit::<S>(DRIVER_ID, command_id, led, 0, result),
    ensures
        result is Err,
{
}

} // verus!
