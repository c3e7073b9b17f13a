//! Input validation: addresses, account names, passwords and asset maps.

use vstd::prelude::*;
use crate::errors::StabuseError;
use crate::foreign::is_alnum;
use crate::foreign::char_is_alphanumeric;

verus! {

/// The least accepted password length.
pub const MIN_PASSWORD_LENGTH: usize = 8;

/// The least accepted username length.
pub const MIN_USERNAME_LENGTH: usize = 3;

/// Whether a string has the shape of an EVM address: exactly 42 characters
/// beginning with `0x`.
pub open spec fn evm_address_ok(s: Seq<char>) -> bool {
    s.len() == 42 && s[0] == '0' && s[1] == 'x'
}

/// Checks the payer or merchant address format for the EVM chain family.
pub fn validate_address(address: &str) -> (r: Result<(), StabuseError>)
    ensures
        r is Ok <==> evm_address_ok(address@),
        r matches Err(e) ==> e is InvalidAddress,
{
    proof {
        reveal_strlit("0");
        reveal_strlit("x");
    }
    let n = address.unicode_len();
    if n != 42 {
        return Err(StabuseError::InvalidAddress(err_text(address)));
    }
    if address.get_char(0) != '0' || address.get_char(1) != 'x' {
        return Err(StabuseError::InvalidAddress(err_text(address)));
    }
    Ok(())
}

/// Builds the reason string for a malformed address.
fn err_text(address: &str) -> (r: String) {
    let mut s = String::from_str("Invalid address format for Network ");
    s.append(address);
    s
}

/// Whether a username is well formed: at least `MIN_USERNAME_LENGTH`
/// characters, each alphanumeric, an underscore or a hyphen.
pub open spec fn username_ok(s: Seq<char>) -> bool {
    s.len() >= MIN_USERNAME_LENGTH
        && forall|i: int| 0 <= i < s.len() ==> is_alnum(#[trigger] s[i]) || s[i] == '_' || s[i] == '-'
}

/// Checks a username for length and character set.
pub fn validate_username(username: &str) -> (r: Result<(), StabuseError>)
    ensures
        r is Ok <==> username_ok(username@),
        r matches Err(e) ==> e is InvalidData,
{
    proof {
        reveal_strlit("_");
        reveal_strlit("-");
    }
    let n = username.unicode_len();
    if n < MIN_USERNAME_LENGTH {
        return Err(StabuseError::InvalidData(String::from_str(
            "Username must be at least 3 characters long",
        )));
    }
    for i in 0..n
        invariant
            n == username@.len(),
            forall|k: int|
                0 <= k < i ==> is_alnum(#[trigger] username@[k]) || username@[k] == '_'
                    || username@[k] == '-',
    {
        let c = username.get_char(i);
        if !char_is_alphanumeric(c) && c != '_' && c != '-' {
            return Err(StabuseError::InvalidData(String::from_str(
                "Username can only contain alphanumeric characters, underscores, and hyphens",
            )));
        }
    }
    Ok(())
}

/// Whether a password is long enough.
pub open spec fn password_ok(s: Seq<char>) -> bool {
    s.len() >= MIN_PASSWORD_LENGTH
}

/// Checks a password for the least accepted length.
pub fn validate_password(password: &str) -> (r: Result<(), StabuseError>)
    ensures
        r is Ok <==> password_ok(password@),
        r matches Err(e) ==> e is InvalidData,
{
    let n = password.unicode_len();
    if n < MIN_PASSWORD_LENGTH {
        if n == 0 {
            return Err(StabuseError::InvalidData(String::from_str("Password cannot be empty")));
        }
        return Err(StabuseError::InvalidData(String::from_str(
            "Password must be at least 8 characters long",
        )));
    }
    Ok(())
}

/// Whether every entry of an asset map has a non-empty ticker and a
/// well-formed EVM contract address.
pub open spec fn assets_ok(assets: Seq<(String, String)>) -> bool {
    forall|i: int|
        0 <= i < assets.len() ==> (#[trigger] assets[i]).0@.len() > 0 && evm_address_ok(
            assets[i].1@,
        )
}

/// Checks an asset map: each ticker non-empty, each address well formed.
pub fn validate_assets(assets: &Vec<(String, String)>) -> (r: Result<(), StabuseError>)
    ensures
        r is Ok <==> assets_ok(assets@),
        r matches Err(e) ==> e is InvalidData,
{
    let n = assets.len();
    for i in 0..n
        invariant
            n == assets@.len(),
            forall|k: int|
                0 <= k < i ==> (#[trigger] assets@[k]).0@.len() > 0 && evm_address_ok(
                    assets@[k].1@,
                ),
    {
        let ticker_len = assets[i].0.as_str().unicode_len();
        if ticker_len == 0 {
            return Err(StabuseError::InvalidData(String::from_str("Ticker cannot be empty")));
        }
        match validate_address(assets[i].1.as_str()) {
            Ok(_) => {}
            Err(_) => {
                let mut m = String::from_str("Invalid address format for asset ");
                m.append(assets[i].0.as_str());
                return Err(StabuseError::InvalidData(m));
            }
        }
    }
    Ok(())
}

} // verus!
