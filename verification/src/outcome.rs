//! The ways an operation can be refused, and the status each outcome has
//! for the caller.

use vstd::prelude::*;

verus! {

/// Status of a successful read.
pub const STATUS_OK: u16 = 200;

/// Status of a successful creation.
pub const STATUS_CREATED: u16 = 201;

/// Status of an accepted change.
pub const STATUS_ACCEPTED: u16 = 202;

/// Status of a request whose credential or body cannot be decoded.
pub const STATUS_BAD_REQUEST: u16 = 400;

/// Status of a request without a credential that is known.
pub const STATUS_UNAUTHORIZED: u16 = 401;

/// Status of a request whose credential is known and does not suffice.
pub const STATUS_FORBIDDEN: u16 = 403;

/// Status of a request for a task that is not there.
pub const STATUS_NOT_FOUND: u16 = 404;

/// Status of a change to a task that can only be read any more.
pub const STATUS_METHOD_NOT_ALLOWED: u16 = 405;

/// Why an operation was refused.
#[derive(Clone, Copy, Debug, PartialEq, Eq, Structural)]
pub enum Rejection {
    /// The credential is missing, or known for nothing.
    Unauthenticated,
    /// The credential or the body cannot be decoded.
    Malformed,
    /// The credential is known and does not suffice for the request.
    Forbidden,
    /// No task has the identifier.
    NotFound,
    /// The task is terminal: it can be read and no longer changed.
    ReadOnly,
    /// The capability presented does not cover the change asked for.
    InvalidTransition,
}

impl Rejection {
    /// The status that tells the caller of this refusal.
    pub open spec fn status(self) -> u16 {
        match self {
            Rejection::Unauthenticated => STATUS_UNAUTHORIZED,
            Rejection::Malformed => STATUS_BAD_REQUEST,
            Rejection::Forbidden => STATUS_FORBIDDEN,
            Rejection::NotFound => STATUS_NOT_FOUND,
            Rejection::ReadOnly => STATUS_METHOD_NOT_ALLOWED,
            Rejection::InvalidTransition => STATUS_UNAUTHORIZED,
        }
    }

    /// The status that tells the caller of this refusal.
    pub fn status_code(self) -> (code: u16)
        ensures
            code == self.status(),
    {
        match self {
            Rejection::Unauthenticated => STATUS_UNAUTHORIZED,
            Rejection::Malformed => STATUS_BAD_REQUEST,
            Rejection::Forbidden => STATUS_FORBIDDEN,
            Rejection::NotFound => STATUS_NOT_FOUND,
            Rejection::ReadOnly => STATUS_METHOD_NOT_ALLOWED,
            Rejection::InvalidTransition => STATUS_UNAUTHORIZED,
        }
    }

    /// Whether the refusal must tell the caller that reading the task is
    /// still allowed.
    pub fn allows_read(self) -> (r: bool)
        ensures
            r == (self == Rejection::ReadOnly),
    {
        match self {
            Rejection::ReadOnly => true,
            _ => false,
        }
    }
}

} // verus!
