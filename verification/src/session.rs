//! The session authentication gate: the one place that says who a request
//! comes from.

use crate::error::ErrorKind;
use vstd::prelude::*;

verus! {

/// What reading the `user_id` attribute of a session's attribute bag gave.
#[derive(Clone, Copy, Debug, PartialEq, Eq, Structural)]
pub enum SessionRead {
    /// The attribute bag itself could not be read.
    Unreadable,
    /// The bag holds no `user_id`.
    Missing,
    /// The bag holds a `user_id` that is not an integer.
    Malformed,
    /// The bag holds this `user_id`.
    UserId(i32),
}

/// The identity that a session read establishes. An absent identity and one
/// of the wrong shape are the same thing: no identity.
pub open spec fn identity(read: SessionRead) -> Result<i32, ErrorKind> {
    match read {
        SessionRead::UserId(id) => Ok(id),
        _ => Err(ErrorKind::Unauthenticated),
    }
}

/// Says who the caller is, or that nobody is authenticated. Reads only its
/// argument and changes nothing.
pub fn identify(read: SessionRead) -> (who: Result<i32, ErrorKind>)
    ensures
        who == identity(read),
{
    match read {
        SessionRead::UserId(id) => Ok(id),
        _ => Err(ErrorKind::Unauthenticated),
    }
}

} // verus!
