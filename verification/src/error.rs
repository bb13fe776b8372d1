//! Error model: every failure an operation can report, as a typed value.

use vstd::prelude::*;

use crate::strutil::dec_str;
use crate::strutil::u64_to_string;

verus! {

/// Errors that alias operations report. Each operation's contract says
/// exactly which of these it may return and on what outcome.
#[derive(Debug, Clone, PartialEq, Eq)]
pub enum Error {
    /// The transport layer failed (network, connection or timeout trouble),
    /// with the transport's own description.
    HttpError { message: String },
    /// A response body did not match the expected shape, with the decoder's
    /// own description.
    Serialization { message: String },
    /// The relay id was not present in any known sub-resource.
    RelayIdNotFound,
    /// The service rejected a deletion with a non-success HTTP status.
    EmailDeletionFailure { http_status: u16 },
    /// The service rejected an enable/disable update with a non-success
    /// HTTP status.
    EmailUpdateFailure { http_status: u16 },
}

/// The human-readable line that `Error::message` renders.
pub open spec fn spec_message(e: Error) -> Seq<char> {
    match e {
        Error::HttpError { message } => message@,
        Error::Serialization { message } => message@,
        Error::RelayIdNotFound => "Email Id not found"@,
        Error::EmailDeletionFailure { http_status } => "Deletion Failure. Status code: "@
            + dec_str(http_status as nat),
        Error::EmailUpdateFailure { http_status } => "Update Failure. Status code: "@
            + dec_str(http_status as nat),
    }
}

impl Error {
    /// A human-readable description of the error.
    pub fn message(&self) -> (r: String)
        ensures
            r@ == spec_message(*self),
    {
        match self {
            Error::HttpError { message } => message.clone(),
            Error::Serialization { message } => message.clone(),
            Error::RelayIdNotFound => String::from_str("Email Id not found"),
            Error::EmailDeletionFailure { http_status } => {
                let mut s = String::from_str("Deletion Failure. Status code: ");
                s.append(u64_to_string(*http_status as u64).as_str());
                s
            },
            Error::EmailUpdateFailure { http_status } => {
                let mut s = String::from_str("Update Failure. Status code: ");
                s.append(u64_to_string(*http_status as u64).as_str());
                s
            },
        }
    }
}

} // verus!
