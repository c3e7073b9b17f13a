//! Error taxonomy of the payment engine.
//!
//! `InvalidAddress`, `InvalidData` and `AssetNotSupported` describe malformed
//! or mismatched input and are never retried automatically. `Unauthorized`
//! covers bad or expired credentials. `Internal` marks transport failures that
//! are safe to retry, and `DatabaseError` marks store failures. `NotFound` is
//! the terminal error for a pending payment row that no longer exists, so a
//! queue consumer can stop redelivering the message.

use vstd::prelude::*;

verus! {

/// The error type shared by every fallible operation of the engine.
#[derive(Debug, Clone, PartialEq, Eq)]
pub enum StabuseError {
    /// A payer or merchant address is malformed for the target chain family.
    InvalidAddress(String),
    /// Submitted or on-chain data does not match the pending payment.
    InvalidData(String),
    /// The asset or chain is not configured.
    AssetNotSupported(String),
    /// The verification credential is missing, malformed or expired.
    Unauthorized(String),
    /// A transient failure; the whole operation may be retried.
    Internal(String),
    /// The payment store refused an operation.
    DatabaseError(String),
    /// The pending payment row does not exist; terminal for the caller.
    NotFound(String),
}

impl StabuseError {
    /// True for errors a queue consumer may retry through redelivery.
    pub fn is_retryable(&self) -> (r: bool)
        ensures
            r == (self is Internal || self is DatabaseError),
    {
        match self {
            StabuseError::Internal(_) => true,
            StabuseError::DatabaseError(_) => true,
            _ => false,
        }
    }

    /// The human-readable reason carried by the error.
    pub fn reason(&self) -> (r: &String)
        ensures
            r@ == self.reason_view(),
    {
        match self {
            StabuseError::InvalidAddress(m) => m,
            StabuseError::InvalidData(m) => m,
            StabuseError::AssetNotSupported(m) => m,
            StabuseError::Unauthorized(m) => m,
            StabuseError::Internal(m) => m,
            StabuseError::DatabaseError(m) => m,
            StabuseError::NotFound(m) => m,
        }
    }

    /// The HTTP status code an HTTP layer reports for this error: bad
    /// request for malformed or unsupported input, unauthorized for a bad
    /// credential, an internal server error for store failures, and not
    /// found for a missing row or a transient internal failure.
    pub fn http_status(&self) -> (r: u16)
        ensures
            r == match self {
                StabuseError::InvalidAddress(_) => 400u16,
                StabuseError::InvalidData(_) => 400u16,
                StabuseError::AssetNotSupported(_) => 400u16,
                StabuseError::Unauthorized(_) => 401u16,
                StabuseError::Internal(_) => 404u16,
                StabuseError::DatabaseError(_) => 500u16,
                StabuseError::NotFound(_) => 404u16,
            },
    {
        match self {
            StabuseError::InvalidAddress(_) => 400,
            StabuseError::InvalidData(_) => 400,
            StabuseError::AssetNotSupported(_) => 400,
            StabuseError::Unauthorized(_) => 401,
            StabuseError::Internal(_) => 404,
            StabuseError::DatabaseError(_) => 500,
            StabuseError::NotFound(_) => 404,
        }
    }

    /// The reason string of the error, as a sequence of characters.
    pub open spec fn reason_view(self) -> Seq<char> {
        match self {
            StabuseError::InvalidAddress(m) => m@,
            StabuseError::InvalidData(m) => m@,
            StabuseError::AssetNotSupported(m) => m@,
            StabuseError::Unauthorized(m) => m@,
            StabuseError::Internal(m) => m@,
            StabuseError::DatabaseError(m) => m@,
            StabuseError::NotFound(m) => m@,
        }
    }
}

} // verus!
