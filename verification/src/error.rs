//! Failures reported by the wrapper, and how an engine status becomes one.

use vstd::prelude::*;

verus! {

/// The status with which every engine primitive reports success.
pub const NO_ERROR: i32 = 0;

/// The status handed back to the engine when the render callback fails:
/// the engine's own "no connection" code, which it reads as "expect no
/// output this cycle".
pub const NO_CONNECTION: i32 = -10876;

/// What can go wrong.
#[derive(Debug, PartialEq, Eq)]
pub enum Error {
    /// The requested unit type names no concrete subtype.
    NoKnownSubtype,
    /// Discovery found no component that matches the description.
    NoMatchingDefaultAudioUnitFound,
    /// An engine primitive returned this non-zero status.
    NativeStatus(i32),
    /// The render callback reported a failure, with its description.
    CallbackFailed(String),
}

impl Error {
    /// The meaning of an engine status: zero is success, anything else is a
    /// failure that carries the raw code.
    pub open spec fn spec_from_os_status(status: i32) -> Result<(), Error> {
        if status == NO_ERROR {
            Ok(())
        } else {
            Err(Error::NativeStatus(status))
        }
    }

    /// Reads an engine status.
    pub fn from_os_status(status: i32) -> (result: Result<(), Error>)
        ensures
            result == Error::spec_from_os_status(status),
    {
        if status == NO_ERROR {
            Ok(())
        } else {
            Err(Error::NativeStatus(status))
        }
    }

    /// The status that reports this error to the engine: the raw code of a
    /// native failure, and "no connection" for everything the engine has no
    /// code for.
    pub open spec fn spec_to_os_status(self) -> i32 {
        match self {
            Error::NativeStatus(code) => code,
            _ => NO_CONNECTION,
        }
    }

    /// The status that reports this error to the engine.
    pub fn to_os_status(&self) -> (status: i32)
        ensures
            status == self.spec_to_os_status(),
    {
        match self {
            Error::NativeStatus(code) => *code,
            _ => NO_CONNECTION,
        }
    }
}

} // verus!
