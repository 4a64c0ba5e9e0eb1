//! Translation of engine result codes into `Result` values.
//!
//! The engine reports success as result code zero; any other code is a
//! failure. Downstream wrappers call `err_to_result` after every engine call.

use vstd::prelude::*;
use vstd::string::StringExecFns;

verus! {

/// An error reported by the engine as a nonzero result code.
#[derive(Copy, Clone, Debug)]
pub struct Error;

impl Error {
    /// The fixed description this error displays.
    pub fn message(&self) -> (s: String)
        ensures
            s@ == "error"@,
    {
        String::from_str("error")
    }
}

/// Turns an engine result code into a `Result`: zero is success, anything
/// else is an error.
pub fn err_to_result(code: u32) -> (r: Result<(), Error>)
    ensures
        r is Ok <==> code == 0,
{
    match code {
        0 => Ok(()),
        _ => Err(error_from_errcode(code)),
    }
}

/// Builds the error value for an engine result code.
pub fn error_from_errcode(_code: u32) -> (e: Error) {
    Error
}

} // verus!
