//! Verification credentials: short-lived claims scoped to one pending
//! payment, and the session claims of merchants and administrators. Issuing
//! fixes the expiry relative to the issue time; checking a credential is a
//! pure comparison against the clock. Signing and signature checking of the
//! encoded token happen outside the library.

use vstd::prelude::*;
use crate::errors::StabuseError;
use crate::types::AdminClaims;
use crate::types::Claims;
use crate::types::PaymentClaims;

verus! {

/// How long a payment verification credential stays valid: 30 minutes.
pub const PAYMENT_CREDENTIAL_TTL_SECONDS: i64 = 1800;

/// How long a merchant session credential stays valid: 24 hours.
pub const MERCHANT_TOKEN_TTL_SECONDS: i64 = 86400;

/// How long an administrator session credential stays valid: 2 hours.
pub const ADMIN_TOKEN_TTL_SECONDS: i64 = 7200;

/// Whether a credential with the given expiry is accepted at `now`.
pub open spec fn credential_valid_at(exp: i64, now: i64) -> bool {
    now <= exp
}

/// Issues the claims of a payment verification credential, bound to one
/// pending payment, its RPC endpoint and its network tag, expiring
/// `PAYMENT_CREDENTIAL_TTL_SECONDS` after `now`. Fails with `Internal` only
/// when the expiry does not fit the timestamp type.
pub fn generate_payment_claims(
    pending_payment_id: i32,
    rpc: &str,
    network: &str,
    now: i64,
) -> (r: Result<PaymentClaims, StabuseError>)
    ensures
        match r {
            Ok(c) => {
                &&& c.pending_payment_id == pending_payment_id
                &&& c.rpc@ == rpc@
                &&& c.network@ == network@
                &&& c.iat == now
                &&& c.exp == now + PAYMENT_CREDENTIAL_TTL_SECONDS
            },
            Err(e) => now + PAYMENT_CREDENTIAL_TTL_SECONDS > i64::MAX && e is Internal,
        },
{
    if now > i64::MAX - PAYMENT_CREDENTIAL_TTL_SECONDS {
        return Err(StabuseError::Internal(String::from_str("credential expiry overflow")));
    }
    Ok(PaymentClaims {
        pending_payment_id,
        network: String::from_str(network),
        rpc: String::from_str(rpc),
        exp: now + PAYMENT_CREDENTIAL_TTL_SECONDS,
        iat: now,
    })
}

/// Accepts a payment credential that has not expired at `now`; rejects an
/// expired one with `Unauthorized`.
pub fn validate_payment_claims(claims: &PaymentClaims, now: i64) -> (r: Result<(), StabuseError>)
    ensures
        r is Ok <==> credential_valid_at(claims.exp, now),
        r matches Err(e) ==> e is Unauthorized,
{
    if now <= claims.exp {
        Ok(())
    } else {
        Err(StabuseError::Unauthorized(String::from_str("credential expired")))
    }
}

/// Issues the claims of a merchant session credential, expiring
/// `MERCHANT_TOKEN_TTL_SECONDS` after `now`.
pub fn generate_merchant_claims(merchant_id: i32, username: &str, now: i64) -> (r: Result<
    Claims,
    StabuseError,
>)
    ensures
        match r {
            Ok(c) => {
                &&& c.sub == merchant_id
                &&& c.username@ == username@
                &&& c.iat == now
                &&& c.exp == now + MERCHANT_TOKEN_TTL_SECONDS
            },
            Err(e) => now + MERCHANT_TOKEN_TTL_SECONDS > i64::MAX && e is Internal,
        },
{
    if now > i64::MAX - MERCHANT_TOKEN_TTL_SECONDS {
        return Err(StabuseError::Internal(String::from_str("credential expiry overflow")));
    }
    Ok(Claims {
        sub: merchant_id,
        username: String::from_str(username),
        exp: now + MERCHANT_TOKEN_TTL_SECONDS,
        iat: now,
    })
}

/// Issues the claims of an administrator session credential, expiring
/// `ADMIN_TOKEN_TTL_SECONDS` after `now`.
pub fn generate_admin_claims(email: &str, username: &str, now: i64) -> (r: Result<
    AdminClaims,
    StabuseError,
>)
    ensures
        match r {
            Ok(c) => {
                &&& c.sub@ == email@
                &&& c.username@ == username@
                &&& c.iat == now
                &&& c.exp == now + ADMIN_TOKEN_TTL_SECONDS
            },
            Err(e) => now + ADMIN_TOKEN_TTL_SECONDS > i64::MAX && e is Internal,
        },
{
    if now > i64::MAX - ADMIN_TOKEN_TTL_SECONDS {
        return Err(StabuseError::Internal(String::from_str("credential expiry overflow")));
    }
    Ok(AdminClaims {
        sub: String::from_str(email),
        username: String::from_str(username),
        exp: now + ADMIN_TOKEN_TTL_SECONDS,
        iat: now,
    })
}

} // verus!
