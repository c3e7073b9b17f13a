//! Small helpers shared by the builder, the verifier and the pipeline:
//! ticker normalisation, the token decimals table, and the mapping from a
//! Solana RPC endpoint to its network identifier.

use vstd::prelude::*;
use crate::errors::StabuseError;
use crate::foreign::upper_of;
use crate::foreign::uppercase;
use crate::foreign::str_contains;
use crate::text::contains_substr;

verus! {

/// Maps every ticker of an asset map to upper case, keeping the addresses.
pub fn transform_assets_to_uppercase(assets: &Vec<(String, String)>) -> (r: Vec<(String, String)>)
    ensures
        r@.len() == assets@.len(),
        forall|i: int|
            0 <= i < assets@.len() ==> (#[trigger] r@[i]).0@ == upper_of(assets@[i].0@)
                && r@[i].1@ == assets@[i].1@,
{
    let mut out: Vec<(String, String)> = Vec::new();
    let n = assets.len();
    for i in 0..n
        invariant
            n == assets@.len(),
            out@.len() == i,
            forall|k: int|
                0 <= k < i ==> (#[trigger] out@[k]).0@ == upper_of(assets@[k].0@) && out@[k].1@
                    == assets@[k].1@,
    {
        let ticker = uppercase(assets[i].0.as_str());
        let address = assets[i].1.clone();
        out.push((ticker, address));
    }
    out
}

/// The decimal precision of a supported token, by upper-case ticker.
pub open spec fn token_decimals_of(s: Seq<char>) -> Option<u8> {
    if s == "USDC"@ {
        Some(6u8)
    } else if s == "DAI"@ {
        Some(18u8)
    } else if s == "USDT"@ {
        Some(6u8)
    } else if s == "BUSD"@ {
        Some(18u8)
    } else {
        None
    }
}

/// Looks up the decimal precision configured for an asset ticker.
pub fn get_token_decimals(asset: &str) -> (r: Result<u8, StabuseError>)
    ensures
        match r {
            Ok(d) => token_decimals_of(asset@) == Some(d),
            Err(e) => token_decimals_of(asset@) is None && e is InvalidData,
        },
{
    if crate::text::str_eq(asset, "USDC") {
        Ok(6)
    } else if crate::text::str_eq(asset, "DAI") {
        Ok(18)
    } else if crate::text::str_eq(asset, "USDT") {
        Ok(6)
    } else if crate::text::str_eq(asset, "BUSD") {
        Ok(18)
    } else {
        let mut m = String::from_str("Unsupported token: ");
        m.append(asset);
        Err(StabuseError::InvalidData(m))
    }
}

/// The Solana network identifier carried in an RPC endpoint address.
pub open spec fn solana_network_id_of(s: Seq<char>) -> Option<i64> {
    if contains_substr(s, "mainnet"@) {
        Some(101int as i64)
    } else if contains_substr(s, "devnet"@) {
        Some(102int as i64)
    } else if contains_substr(s, "testnet"@) {
        Some(103int as i64)
    } else {
        None
    }
}

/// Derives the chain identifier of a Solana RPC endpoint from its address:
/// 101 for mainnet, 102 for devnet, 103 for testnet.
pub fn get_solana_network_identifier(rpc_url: &str) -> (r: Result<i64, StabuseError>)
    ensures
        match r {
            Ok(id) => solana_network_id_of(rpc_url@) == Some(id),
            Err(e) => solana_network_id_of(rpc_url@) is None && e is InvalidData,
        },
{
    if str_contains(rpc_url, "mainnet") {
        Ok(101)
    } else if str_contains(rpc_url, "devnet") {
        Ok(102)
    } else if str_contains(rpc_url, "testnet") {
        Ok(103)
    } else {
        let mut m = String::from_str("RPC URL ");
        m.append(rpc_url);
        m.append(" not recognized");
        Err(StabuseError::InvalidData(m))
    }
}

} // verus!
