//! What can be wrong with a record.

use vstd::prelude::*;
use crate::fd::FD;

verus! {

/// The part of a record that the bytes at hand are too few for.
#[derive(Debug, Copy, Clone, Eq, PartialEq, Hash, Structural)]
pub enum TooShortError {
    /// The field that holds the record's length.
    EventLenField,
    /// The whole record, as long as its length field says.
    FullEvent,
    /// The fixed part that every record starts with.
    BaseEvent,
    /// The record that identifies a file by its handle.
    FidEvent,
}

impl TooShortError {
    /// What the error says in words.
    pub fn description(&self) -> (text: &'static str)
        ensures
            text@ == match *self {
                TooShortError::EventLenField => "u32 fanotify_event_metadata::event_len field"@,
                TooShortError::FullEvent => "full event according to fanotify_event_metadata::event_len"@,
                TooShortError::BaseEvent => "fanotify_event_metadata struct"@,
                TooShortError::FidEvent => "fanotify_event_info_fid struct"@,
            },
    {
        match self {
            TooShortError::EventLenField => "u32 fanotify_event_metadata::event_len field",
            TooShortError::FullEvent => "full event according to fanotify_event_metadata::event_len",
            TooShortError::BaseEvent => "fanotify_event_metadata struct",
            TooShortError::FidEvent => "fanotify_event_info_fid struct",
        }
    }
}

/// Why a record gave no event.
#[derive(Debug, Copy, Clone, Eq, PartialEq, Hash, Structural)]
pub enum EventError {
    /// The group's queue overflowed and events were dropped.
    QueueOverflowed,
    /// The record is of a version that this crate does not understand.
    WrongVersion,
    /// `found` bytes are at hand where `what` needs `expected`.
    TooShort { what: TooShortError, found: usize, expected: usize },
    /// The queue overflowed though the group was opened without a limit on it.
    UnlimitedQueueButQueueStillOverflowed,
    /// The group reports file handles, but the record carries none.
    FidRequestedButNotReceived,
    /// The group reports no file handles, but the record carries one.
    FidNotRequestedButReceived,
    /// A request for a permission came without the descriptor that the
    /// answer has to name.
    FidReturnedForPermissionEvent,
    /// The record that identifies a file is of an unknown type.
    InvalidFidInfoType { info_type: u8 },
    /// The record's descriptor is a number that is no descriptor.
    InvalidFd { fd: FD },
}

} // verus!
