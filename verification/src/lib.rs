//! Core of a multi-user record-keeping backend: the session gate that says
//! who a request comes from, the credential service, and the service for the
//! event records that each account owns. Storage and the session store are
//! collaborators outside this crate; every operation here is a function from
//! the request and the collaborators' replies so far to the next step.

pub mod date;
pub mod error;
pub mod events;
pub mod session;
pub mod store;
pub mod users;
