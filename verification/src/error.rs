//! The errors the services report, each with the message shown to the user.
use vstd::prelude::*;

verus! {

/// A refused request and the reason given for it.
#[derive(Debug, Clone, PartialEq, Eq)]
pub enum ServiceError {
    /// The thing asked for does not exist.
    NotFound(String),
    /// The request is malformed or not allowed in the current state.
    BadRequest(String),
    /// The request clashes with something that already exists.
    Conflict(String),
    /// The account may not do this.
    Forbidden(String),
    /// Signing in is required.
    Unauthorized,
    /// Something failed inside the server.
    Internal(String),
}

impl ServiceError {
    /// Whether this is a `BadRequest` with exactly the message `m`.
    pub open spec fn is_bad_request(self, m: Seq<char>) -> bool {
        self matches ServiceError::BadRequest(s) && s@ == m
    }

    /// Whether this is a `NotFound` with exactly the message `m`.
    pub open spec fn is_not_found(self, m: Seq<char>) -> bool {
        self matches ServiceError::NotFound(s) && s@ == m
    }

    /// Whether this is a `Conflict` with exactly the message `m`.
    pub open spec fn is_conflict(self, m: Seq<char>) -> bool {
        self matches ServiceError::Conflict(s) && s@ == m
    }

    /// Whether this is a `Forbidden` with exactly the message `m`.
    pub open spec fn is_forbidden(self, m: Seq<char>) -> bool {
        self matches ServiceError::Forbidden(s) && s@ == m
    }

    /// The text shown for the error.
    pub fn message(&self) -> (m: String)
        ensures
            match self {
                ServiceError::NotFound(s) => m@ == s@,
                ServiceError::BadRequest(s) => m@ == s@,
                ServiceError::Conflict(s) => m@ == s@,
                ServiceError::Forbidden(s) => m@ == s@,
                ServiceError::Unauthorized => m@ == "Unauthorized"@,
                ServiceError::Internal(s) => m@ == s@,
            },
    {
        match self {
            ServiceError::NotFound(s) => s.clone(),
            ServiceError::BadRequest(s) => s.clone(),
            ServiceError::Conflict(s) => s.clone(),
            ServiceError::Forbidden(s) => s.clone(),
            ServiceError::Unauthorized => crate::text::owned("Unauthorized"),
            ServiceError::Internal(s) => s.clone(),
        }
    }
}

/// A `BadRequest` carrying the given message.
pub fn bad_request(m: &str) -> (e: ServiceError)
    ensures
        e.is_bad_request(m@),
{
    ServiceError::BadRequest(crate::text::owned(m))
}

/// A `NotFound` carrying the given message.
pub fn not_found(m: &str) -> (e: ServiceError)
    ensures
        e.is_not_found(m@),
{
    ServiceError::NotFound(crate::text::owned(m))
}

/// A `Conflict` carrying the given message.
pub fn conflict(m: &str) -> (e: ServiceError)
    ensures
        e.is_conflict(m@),
{
    ServiceError::Conflict(crate::text::owned(m))
}

/// A `Forbidden` carrying the given message.
pub fn forbidden(m: &str) -> (e: ServiceError)
    ensures
        e.is_forbidden(m@),
{
    ServiceError::Forbidden(crate::text::owned(m))
}

} // verus!
