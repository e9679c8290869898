//! What can go wrong with a request or a notification before any work is
//! handed out.

use vstd::prelude::*;

verus! {

#[derive(Clone, Copy, PartialEq, Eq, Structural, Debug)]
pub enum SessionError {
    /// The request names a document that is not open.
    MissingDocument,
    /// A position or a range in the request does not lie in the document.
    MalformedRequest,
}

impl SessionError {
    /// A line of text that says what went wrong.
    pub fn describe(&self) -> (s: &'static str)
        ensures
            *self == SessionError::MissingDocument ==> s@ == "Missing document"@,
            *self == SessionError::MalformedRequest ==> s@ == "Position out of range"@,
    {
        match self {
            SessionError::MissingDocument => "Missing document",
            SessionError::MalformedRequest => "Position out of range",
        }
    }
}

} // verus!
