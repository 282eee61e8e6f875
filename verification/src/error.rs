//! The rejections that the service reports, and the faults of its storage.

use vstd::prelude::*;
use crate::text::{append_decimal, decimal};

verus! {

/// The largest number of bytes that the encoding of a stored record may take.
pub const MAX_RECORD_BYTES: usize = 1024;

/// Why the service turned a request down. The stored state is the same as
/// before the request.
#[derive(Debug, Clone, PartialEq, Eq)]
pub enum Error {
    /// No record is stored under the id.
    NotFound { msg: String },
    /// The donation would lift the raised amount above the goal.
    NotEnoughFunds { msg: String },
    /// The encoding of the record would take more than `MAX_RECORD_BYTES`.
    SizeExceeded { msg: String },
}

/// An [`Error`] with its message as a sequence of characters.
pub enum ErrorView {
    NotFound { msg: Seq<char> },
    NotEnoughFunds { msg: Seq<char> },
    SizeExceeded { msg: Seq<char> },
}

impl View for Error {
    type V = ErrorView;

    open spec fn view(&self) -> ErrorView {
        match self {
            Error::NotFound { msg } => ErrorView::NotFound { msg: msg@ },
            Error::NotEnoughFunds { msg } => ErrorView::NotEnoughFunds { msg: msg@ },
            Error::SizeExceeded { msg } => ErrorView::SizeExceeded { msg: msg@ },
        }
    }
}

/// Why the id allocator could not hand out an id. Neither fault changes the
/// counter.
#[derive(Debug, Clone, Copy, PartialEq, Eq)]
pub enum AllocatorFault {
    /// The counter stands at `u64::MAX`: no larger id exists.
    Exhausted,
    /// The stable cell did not take the new counter value.
    NotPersisted,
}

/// Why a service could not be set up over the stable regions.
#[derive(Debug, Clone, Copy, PartialEq, Eq)]
pub enum StorageFault {
    /// The stable cell of the counter could not be opened.
    CounterUnavailable,
    /// A record is stored under an id that the counter has not reached, so a
    /// later allocation would hand that id out again.
    CounterBehindRecords,
}

/// The message of the rejection for an unknown id.
pub open spec fn not_found_text(id: u64) -> Seq<char> {
    "Campaign with id="@ + decimal(id as nat) + " not found"@
}

/// The message of the rejection for a donation above the goal.
pub open spec fn over_goal_text() -> Seq<char> {
    "Donation exceeds the campaign goal"@
}

/// The message of the rejection for a record that is too long.
pub open spec fn size_exceeded_text() -> Seq<char> {
    "Campaign data exceeds the max size of "@ + decimal(MAX_RECORD_BYTES as nat)
}

/// The rejection for an unknown id.
pub open spec fn not_found(id: u64) -> ErrorView {
    ErrorView::NotFound { msg: not_found_text(id) }
}

/// The rejection for a donation above the goal.
pub open spec fn over_goal() -> ErrorView {
    ErrorView::NotEnoughFunds { msg: over_goal_text() }
}

/// The rejection for a record that is too long.
pub open spec fn size_exceeded() -> ErrorView {
    ErrorView::SizeExceeded { msg: size_exceeded_text() }
}

impl Error {
    /// The rejection for an unknown id, naming the id.
    pub fn not_found(id: u64) -> (error: Error)
        ensures
            error@ == not_found(id),
    {
        let mut msg = String::from_str("Campaign with id=");
        append_decimal(&mut msg, id);
        msg.append(" not found");
        Error::NotFound { msg }
    }

    /// The rejection for a donation above the goal.
    pub fn over_goal() -> (error: Error)
        ensures
            error@ == over_goal(),
    {
        Error::NotEnoughFunds { msg: String::from_str("Donation exceeds the campaign goal") }
    }

    /// The rejection for a record that is too long, naming the bound.
    pub fn size_exceeded() -> (error: Error)
        ensures
            error@ == size_exceeded(),
    {
        let mut msg = String::from_str("Campaign data exceeds the max size of ");
        append_decimal(&mut msg, MAX_RECORD_BYTES as u64);
        Error::SizeExceeded { msg }
    }

    /// The message of the rejection.
    pub fn message(&self) -> (msg: &String)
        ensures
            msg@ == (match self@ {
                ErrorView::NotFound { msg } => msg,
                ErrorView::NotEnoughFunds { msg } => msg,
                ErrorView::SizeExceeded { msg } => msg,
            }),
    {
        match self {
            Error::NotFound { msg } => msg,
            Error::NotEnoughFunds { msg } => msg,
            Error::SizeExceeded { msg } => msg,
        }
    }
}

} // verus!
