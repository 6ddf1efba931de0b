//! The ways in which an operation can fail once its request has been built.
//! Every failure ends the operation: nothing is retried here.

use vstd::prelude::*;

verus! {

/// A failure of one operation.
#[derive(Debug, Clone, PartialEq, Eq)]
pub enum AzureError {
    /// The transport could not complete the exchange. The message is the
    /// transport's own, passed on as it came.
    Transport { message: String },
    /// The service answered with another status than the one the operation
    /// expects. The body of the answer is kept for diagnosis.
    UnexpectedStatus { expected: u16, received: u16, body: Vec<u8> },
    /// A header that the response must carry is missing.
    HeaderNotFound { header: String, field: String },
    /// A header is there, but its value cannot be read as the field's type.
    /// `raw` is the value as text, or `None` where it is not text at all.
    MalformedHeader { header: String, field: String, raw: Option<String> },
}

/// An `AzureError` as mathematical values.
pub enum Failure {
    Transport { message: Seq<char> },
    UnexpectedStatus { expected: u16, received: u16, body: Seq<u8> },
    HeaderNotFound { header: Seq<char>, field: Seq<char> },
    MalformedHeader { header: Seq<char>, field: Seq<char>, raw: Option<Seq<char>> },
}

impl View for AzureError {
    type V = Failure;

    open spec fn view(&self) -> Failure {
        match self {
            AzureError::Transport { message } => Failure::Transport { message: message@ },
            AzureError::UnexpectedStatus { expected, received, body } => Failure::UnexpectedStatus {
                expected: *expected,
                received: *received,
                body: body@,
            },
            AzureError::HeaderNotFound { header, field } => Failure::HeaderNotFound {
                header: header@,
                field: field@,
            },
            AzureError::MalformedHeader { header, field, raw } => Failure::MalformedHeader {
                header: header@,
                field: field@,
                raw: match raw {
                    Some(text) => Some(text@),
                    None => None,
                },
            },
        }
    }
}

} // verus!
