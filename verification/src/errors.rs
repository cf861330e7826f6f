//! The error type shared by program loading, decoding and execution.

use vstd::prelude::*;

verus! {

/// A fatal-to-the-cycle condition, carrying a human-readable description.
#[derive(Debug)]
pub struct Error(pub String);

/// Builds an `Err` result carrying `details` as its description.
pub fn err<T>(details: &str) -> (r: Result<T, Error>)
    ensures
        r is Err,
        r->Err_0.0@ == details@,
{
    Err(Error(details.to_owned()))
}

} // verus!
