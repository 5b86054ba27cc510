//! The two ways in which a listing can fail.

use vstd::prelude::*;
use crate::record::RecordFault;

verus! {

/// Why no usable answer came back.
#[derive(Debug, PartialEq, Eq)]
pub enum RequestCause {
    /// The transport gave up before any answer arrived; `detail` is its message.
    Transport { detail: String },
    /// The server answered with a status outside 200..=299.
    Status { code: u16 },
}

/// Why the body of an answer is not the expected list of records.
#[derive(Debug, PartialEq, Eq)]
pub enum DecodeCause {
    /// The body could not be read as JSON text; `detail` is the reader's message.
    Syntax { detail: String },
    /// The body is JSON, but not an array.
    NotAnArray,
    /// The body is an array, and the item at `index` is the first that is not a record.
    Record { index: usize, fault: RecordFault },
}

/// The failure of a listing.
#[allow(inconsistent_fields)]
#[derive(Debug, PartialEq, Eq)]
pub enum EODHDError {
    /// The request did not complete, or the server refused it.
    RequestFailed { description: String, cause: RequestCause },
    /// An answer arrived, but its body does not have the expected shape.
    DecodeFailed { description: String, cause: DecodeCause },
}

/// The mathematical value of a [`RequestCause`].
pub enum RequestCauseView {
    Transport { detail: Seq<char> },
    Status { code: u16 },
}

/// The mathematical value of a [`DecodeCause`].
pub enum DecodeCauseView {
    Syntax { detail: Seq<char> },
    NotAnArray,
    Record { index: int, fault: RecordFault },
}

/// The mathematical value of an [`EODHDError`].
#[allow(inconsistent_fields)]
pub enum ErrorView {
    RequestFailed { description: Seq<char>, cause: RequestCauseView },
    DecodeFailed { description: Seq<char>, cause: DecodeCauseView },
}

impl View for RequestCause {
    type V = RequestCauseView;

    open spec fn view(&self) -> RequestCauseView {
        match self {
            RequestCause::Transport { detail } => RequestCauseView::Transport { detail: detail@ },
            RequestCause::Status { code } => RequestCauseView::Status { code: *code },
        }
    }
}

impl View for DecodeCause {
    type V = DecodeCauseView;

    open spec fn view(&self) -> DecodeCauseView {
        match self {
            DecodeCause::Syntax { detail } => DecodeCauseView::Syntax { detail: detail@ },
            DecodeCause::NotAnArray => DecodeCauseView::NotAnArray,
            DecodeCause::Record { index, fault } => DecodeCauseView::Record {
                index: *index as int,
                fault: *fault,
            },
        }
    }
}

impl View for EODHDError {
    type V = ErrorView;

    open spec fn view(&self) -> ErrorView {
        match self {
            EODHDError::RequestFailed { description, cause } => ErrorView::RequestFailed {
                description: description@,
                cause: cause@,
            },
            EODHDError::DecodeFailed { description, cause } => ErrorView::DecodeFailed {
                description: description@,
                cause: cause@,
            },
        }
    }
}

impl EODHDError {
    /// The short description that every failure carries.
    pub fn description(&self) -> (text: &str)
        ensures
            text@ == (match self@ {
                ErrorView::RequestFailed { description, .. } => description,
                ErrorView::DecodeFailed { description, .. } => description,
            }),
    {
        match self {
            EODHDError::RequestFailed { description, .. } => description.as_str(),
            EODHDError::DecodeFailed { description, .. } => description.as_str(),
        }
    }
}

} // verus!
