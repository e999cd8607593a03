//! The errors of the protocol engine.

use vstd::prelude::*;

use crate::proto::ErrorCode;

verus! {

/// What went wrong on a connection or in a request.
#[derive(Debug, Clone, PartialEq, Eq)]
pub enum Error {
    InvalidOpcode,
    InvalidStatus,
    InvalidId,
    InvalidAtom,
    InvalidKeysym,
    InvalidDisplay,
    InvalidProtocol { protocol: String },
    InvalidReply,
    Authenthicate,
    RanOutOfXid,
    NoScreens,
    NoReply,
    FailedToLock,
    FailedToWait,
    Stream,
    Utf8,
    Terminated,
    SetupFailed { reason: String },
    Event {
        error: ErrorCode,
        major_opcode: u8,
        minor_opcode: u16,
        bad_value: u32,
        sequence: u16,
    },
    Other { error: String },
}

impl Error {
    /// A copy of this error.
    pub fn duplicate(&self) -> (r: Error)
        ensures
            r == *self,
    {
        match self {
            Error::InvalidOpcode => Error::InvalidOpcode,
            Error::InvalidStatus => Error::InvalidStatus,
            Error::InvalidId => Error::InvalidId,
            Error::InvalidAtom => Error::InvalidAtom,
            Error::InvalidKeysym => Error::InvalidKeysym,
            Error::InvalidDisplay => Error::InvalidDisplay,
            Error::InvalidProtocol { protocol } => Error::InvalidProtocol {
                protocol: protocol.clone(),
            },
            Error::InvalidReply => Error::InvalidReply,
            Error::Authenthicate => Error::Authenthicate,
            Error::RanOutOfXid => Error::RanOutOfXid,
            Error::NoScreens => Error::NoScreens,
            Error::NoReply => Error::NoReply,
            Error::FailedToLock => Error::FailedToLock,
            Error::FailedToWait => Error::FailedToWait,
            Error::Stream => Error::Stream,
            Error::Utf8 => Error::Utf8,
            Error::Terminated => Error::Terminated,
            Error::SetupFailed { reason } => Error::SetupFailed { reason: reason.clone() },
            Error::Event { error, major_opcode, minor_opcode, bad_value, sequence } => Error::Event {
                error: *error,
                major_opcode: *major_opcode,
                minor_opcode: *minor_opcode,
                bad_value: *bad_value,
                sequence: *sequence,
            },
            Error::Other { error } => Error::Other { error: error.clone() },
        }
    }
}

} // verus!
