//! The errors of the clipboard.

use vstd::prelude::*;

use crate::display;

verus! {

/// What went wrong in a clipboard operation.
#[derive(Debug, Clone, PartialEq, Eq)]
pub enum Error {
    ServiceStopped,
    HandoverError,
    Terminated,
    EventLoopError(String),
    EventLoopStopped,
    InvalidData(String),
    FailedToAcquireOwnership,
    SelectionTimeout,
    SelectionNoData,
    InvalidProperty,
    Timeout,
    SaveFailed,
    ConversionFailure,
    FailedToLock,
    NoManager,
    Utf8,
    Display(display::error::Error),
    RwLock(String),
    Other(String),
}

impl From<display::error::Error> for Error {
    fn from(error: display::error::Error) -> Error {
        Error::Display(error)
    }
}

impl vstd::std_specs::convert::FromSpecImpl<display::error::Error> for Error {
    open spec fn obeys_from_spec() -> bool {
        true
    }

    open spec fn from_spec(error: display::error::Error) -> Error {
        Error::Display(error)
    }
}

} // verus!
