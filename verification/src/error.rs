//! The kinds of failure an operation can end in.

use vstd::prelude::*;

verus! {

/// Why an operation was rejected.
#[derive(Clone, Copy, Debug, PartialEq, Eq, Structural)]
pub enum ErrorKind {
    /// The session carries no usable identity.
    Unauthenticated,
    /// Login failed; unknown name and wrong password are not told apart.
    InvalidCredentials,
    /// Another account already has the requested name.
    DuplicateName,
    /// The event referred to does not exist.
    NotFound,
    /// The caller is authenticated but does not own the event.
    Forbidden,
    /// The request carries malformed input, such as an unparsable date.
    ValidationError,
    /// Storage or the session store failed.
    InternalError,
}

impl ErrorKind {
    /// The HTTP status of each kind: 400 for what the request got wrong, 401
    /// for what the caller may not do, 500 for what the collaborators failed at.
    pub open spec fn status(self) -> int {
        match self {
            ErrorKind::DuplicateName => 400,
            ErrorKind::NotFound => 400,
            ErrorKind::ValidationError => 400,
            ErrorKind::Unauthenticated => 401,
            ErrorKind::InvalidCredentials => 401,
            ErrorKind::Forbidden => 401,
            ErrorKind::InternalError => 500,
        }
    }

    /// The text shown to the caller: one fixed sentence per kind, so that no
    /// detail of the underlying failure can leak.
    pub open spec fn message_text(self) -> Seq<char> {
        match self {
            ErrorKind::DuplicateName => "Name is already exist"@,
            ErrorKind::NotFound => "No such event"@,
            ErrorKind::ValidationError => "Malformed request"@,
            ErrorKind::Unauthenticated => "Authentication required"@,
            ErrorKind::InvalidCredentials => "Authentication failed"@,
            ErrorKind::Forbidden => "Not the owner of this event"@,
            ErrorKind::InternalError => "Unintended Error"@,
        }
    }

    /// The HTTP status that answers a failure of this kind.
    pub fn status_code(self) -> (code: u16)
        ensures
            code == self.status(),
    {
        match self {
            ErrorKind::DuplicateName => 400,
            ErrorKind::NotFound => 400,
            ErrorKind::ValidationError => 400,
            ErrorKind::Unauthenticated => 401,
            ErrorKind::InvalidCredentials => 401,
            ErrorKind::Forbidden => 401,
            ErrorKind::InternalError => 500,
        }
    }

    /// The text shown to the caller for a failure of this kind.
    pub fn message(self) -> (text: &'static str)
        ensures
            text@ == self.message_text(),
    {
        match self {
            ErrorKind::DuplicateName => "Name is already exist",
            ErrorKind::NotFound => "No such event",
            ErrorKind::ValidationError => "Malformed request",
            ErrorKind::Unauthenticated => "Authentication required",
            ErrorKind::InvalidCredentials => "Authentication failed",
            ErrorKind::Forbidden => "Not the owner of this event",
            ErrorKind::InternalError => "Unintended Error",
        }
    }
}

} // verus!
