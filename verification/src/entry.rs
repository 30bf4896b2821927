//! Where a program begins.
use vstd::prelude::*;
use crate::error::ErrorCode;

verus! {

/// What the entry function of a program may return.
///
/// The runtime has nobody to report to, so the trait asks nothing of a type
/// but to be named here.
pub trait Termination {

}

impl Termination for () {

}

impl Termination for Result<(), ErrorCode> {

}

/// Runs the entry function of a program to its end and drops what it
/// returns.
pub fn start<T: Termination, F: FnOnce() -> T>(main: F)
    requires
        call_requires(main, ()),
    ensures
        exists|returned: T| call_ensures(main, (), returned),
{
    let _ = main();
}

} // verus!
