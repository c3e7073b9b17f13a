//! Trusted boundary of the library: every call into an outside crate, or into
//! a part of std that has no specification, goes through exactly one wrapper
//! here. Each wrapper's contract states what the outside source shows; the
//! verified modules rely on these contracts and on nothing else about the
//! outside code.

use vstd::prelude::*;
use crate::codec::le_val_of;
use crate::text::contains_substr;
use std::str::FromStr;
use spl_token::solana_program::pubkey::Pubkey;

verus! {

/// The Keccak-256 digest of a byte string; a function of the bytes alone.
pub uninterp spec fn keccak256_of(data: Seq<u8>) -> Seq<u8>;

/// Relies on alloy::primitives::keccak256: a 32-byte digest of the input,
/// depending on the input bytes alone.
#[verifier::external_body]
pub fn keccak256(data: &[u8]) -> (r: Vec<u8>)
    ensures
        r@ == keccak256_of(data@),
        r@.len() == 32,
{
    alloy::primitives::keccak256(data).to_vec()
}

/// The SHA-256 digest of a byte string; a function of the bytes alone.
pub uninterp spec fn sha256_of(data: Seq<u8>) -> Seq<u8>;

/// Relies on sha2::Sha256 (Digest::digest): a 32-byte digest of the input,
/// depending on the input bytes alone.
#[verifier::external_body]
pub fn sha256(data: &[u8]) -> (r: Vec<u8>)
    ensures
        r@ == sha256_of(data@),
        r@.len() == 32,
{
    <sha2::Sha256 as sha2::Digest>::digest(data).to_vec()
}

/// The Unicode lower-case form of a string; a function of its characters alone.
pub uninterp spec fn lower_of(s: Seq<char>) -> Seq<char>;

/// Relies on str::to_lowercase: the lower-case equivalent of the string,
/// depending on its characters alone; an empty string stays empty.
#[verifier::external_body]
pub fn lowercase(s: &str) -> (r: String)
    ensures
        r@ == lower_of(s@),
        s@.len() == 0 ==> r@.len() == 0,
{
    s.to_lowercase()
}

/// The Unicode upper-case form of a string; a function of its characters alone.
pub uninterp spec fn upper_of(s: Seq<char>) -> Seq<char>;

/// Relies on str::to_uppercase: the upper-case equivalent of the string,
/// depending on its characters alone; an empty string stays empty.
#[verifier::external_body]
pub fn uppercase(s: &str) -> (r: String)
    ensures
        r@ == upper_of(s@),
        s@.len() == 0 ==> r@.len() == 0,
{
    s.to_uppercase()
}

/// Relies on str::contains: true exactly when the pattern occurs as a
/// contiguous substring of the string.
#[verifier::external_body]
pub fn str_contains(s: &str, pat: &str) -> (r: bool)
    ensures
        r == contains_substr(s@, pat@),
{
    s.contains(pat)
}

/// Whether a character counts as alphanumeric under Unicode; a function of
/// the character alone.
pub uninterp spec fn is_alnum(c: char) -> bool;

/// Relies on char::is_alphanumeric: the Unicode alphanumeric test, a function
/// of the character alone.
#[verifier::external_body]
pub fn char_is_alphanumeric(c: char) -> (r: bool)
    ensures
        r == is_alnum(c),
{
    c.is_alphanumeric()
}

/// Relies on String::push: appends exactly the one character.
#[verifier::external_body]
pub fn string_push(s: &mut String, c: char)
    ensures
        final(s)@ == old(s)@ + seq![c],
{
    s.push(c);
}

/// Relies on chrono::Utc::now, DateTime::timestamp and DateTime::to_rfc3339:
/// the current wall-clock instant as Unix seconds and as an RFC 3339 string.
/// Nothing can be promised of the clock's reading.
#[verifier::external_body]
pub fn current_utc() -> (r: (i64, String)) {
    let now = chrono::Utc::now();
    (now.timestamp(), now.to_rfc3339())
}

/// The 32 raw bytes behind a base58 address string, if the string parses;
/// a function of the string alone.
pub uninterp spec fn pubkey_parse(s: Seq<char>) -> Option<Seq<u8>>;

/// Relies on solana Pubkey::from_str (through spl_token's re-export): decodes
/// a base58 string of at most 44 characters into exactly 32 bytes, and fails
/// on any other input.
#[verifier::external_body]
#[allow(deprecated)]
pub fn parse_pubkey(s: &str) -> (r: Option<Vec<u8>>)
    ensures
        match r {
            Some(b) => pubkey_parse(s@) == Some(b@) && b@.len() == 32,
            None => pubkey_parse(s@) is None,
        },
{
    match Pubkey::from_str(s) {
        Ok(k) => Some(k.to_bytes().to_vec()),
        Err(_) => None,
    }
}

/// The associated token account of a wallet and a mint; a function of the two
/// 32-byte addresses alone.
pub uninterp spec fn ata_of(owner: Seq<u8>, mint: Seq<u8>) -> Seq<u8>;

/// Relies on spl_associated_token_account::get_associated_token_address: the
/// program-derived associated token account for the wallet and mint, 32 bytes,
/// depending on the two addresses alone. The derivation aborts only if no
/// bump seed yields a valid address, which does not occur for real keys.
#[verifier::external_body]
#[allow(deprecated)]
pub fn derive_associated_token_address(owner: &[u8], mint: &[u8]) -> (r: Vec<u8>)
    requires
        owner@.len() == 32,
        mint@.len() == 32,
    ensures
        r@ == ata_of(owner@, mint@),
        r@.len() == 32,
{
    let o = Pubkey::try_from(owner).unwrap();
    let m = Pubkey::try_from(mint).unwrap();
    spl_associated_token_account::get_associated_token_address(&o, &m).to_bytes().to_vec()
}

/// The raw 32-byte address of the SPL token program,
/// base58 `TokenkegQfeZyiNwAJbNbGKPFXCWuBvf9Ss623VQ5DA`.
pub open spec fn spl_token_id_bytes() -> Seq<u8> {
    seq![
        6u8, 221u8, 246u8, 225u8, 215u8, 101u8, 161u8, 147u8,
        217u8, 203u8, 225u8, 70u8, 206u8, 235u8, 121u8, 172u8,
        28u8, 180u8, 133u8, 237u8, 95u8, 91u8, 55u8, 145u8,
        58u8, 140u8, 245u8, 133u8, 126u8, 255u8, 0u8, 169u8,
    ]
}

/// Relies on spl_token::id: the constant address of the SPL token program.
#[verifier::external_body]
#[allow(deprecated)]
pub fn spl_token_program_id() -> (r: Vec<u8>)
    ensures
        r@ == spl_token_id_bytes(),
{
    spl_token::id().to_bytes().to_vec()
}

/// Whether four bytes form a valid optional-key tag in an SPL mint account.
pub open spec fn coption_tag_ok(s: Seq<u8>) -> bool {
    s == seq![0u8, 0u8, 0u8, 0u8] || s == seq![1u8, 0u8, 0u8, 0u8]
}

/// Relies on spl_token::state::Mint::unpack: an 82-byte mint account parses
/// when both optional-authority tags are well formed and the initialized flag
/// is one; its decimals field is the byte at offset 44.
#[verifier::external_body]
#[allow(deprecated)]
pub fn unpack_mint_decimals(data: &[u8]) -> (r: Option<u8>)
    ensures
        match r {
            Some(d) => data@.len() == 82 && coption_tag_ok(data@.subrange(0, 4))
                && data@[45] == 1 && coption_tag_ok(data@.subrange(46, 50))
                && d == data@[44],
            None => !(data@.len() == 82 && coption_tag_ok(data@.subrange(0, 4))
                && data@[45] == 1 && coption_tag_ok(data@.subrange(46, 50))),
        },
{
    match <spl_token::state::Mint as spl_token::solana_program::program_pack::Pack>::unpack(data) {
        Ok(m) => Some(m.decimals),
        Err(_) => None,
    }
}

/// Relies on spl_token::instruction::TokenInstruction::unpack: instruction
/// data whose tag byte is 12 and which carries at least nine further bytes
/// decodes as a transfer-checked instruction, its amount the little-endian
/// value of bytes one to eight and its decimals the byte at offset nine;
/// every other input decodes as something else or fails.
#[verifier::external_body]
#[allow(deprecated)]
pub fn unpack_transfer_checked(data: &[u8]) -> (r: Option<(u64, u8)>)
    ensures
        match r {
            Some(p) => data@.len() >= 10 && data@[0] == 12
                && p.0 as nat == le_val_of(data@.subrange(1, 9)) && p.1 == data@[9],
            None => !(data@.len() >= 10 && data@[0] == 12),
        },
{
    match spl_token::instruction::TokenInstruction::unpack(data) {
        Ok(spl_token::instruction::TokenInstruction::TransferChecked { amount, decimals }) => {
            Some((amount, decimals))
        }
        _ => None,
    }
}

/// Relies on spl_token::instruction::transfer_checked, called with the SPL
/// token program id and no extra signers: the instruction targets the token
/// program; its accounts are the writable source, the read-only mint, the
/// writable destination and the read-only signing authority, in that order;
/// its data is the tag byte 12, the amount in eight little-endian bytes and
/// the decimals byte.
#[verifier::external_body]
#[allow(deprecated)]
pub fn build_transfer_checked(
    source: &[u8],
    mint: &[u8],
    destination: &[u8],
    authority: &[u8],
    amount: u64,
    decimals: u8,
) -> (r: (Vec<u8>, Vec<(Vec<u8>, bool, bool)>, Vec<u8>))
    requires
        source@.len() == 32,
        mint@.len() == 32,
        destination@.len() == 32,
        authority@.len() == 32,
    ensures
        r.0@ == spl_token_id_bytes(),
        r.1@.len() == 4,
        r.1@[0].0@ == source@ && r.1@[0].1 == false && r.1@[0].2 == true,
        r.1@[1].0@ == mint@ && r.1@[1].1 == false && r.1@[1].2 == false,
        r.1@[2].0@ == destination@ && r.1@[2].1 == false && r.1@[2].2 == true,
        r.1@[3].0@ == authority@ && r.1@[3].1 == true && r.1@[3].2 == false,
        r.2@ == seq![12u8] + crate::codec::le_bytes_of(amount as nat, 8) + seq![decimals],
{
    let token_id = spl_token::id();
    let s = Pubkey::try_from(source).unwrap();
    let m = Pubkey::try_from(mint).unwrap();
    let d = Pubkey::try_from(destination).unwrap();
    let a = Pubkey::try_from(authority).unwrap();
    let ix = spl_token::instruction::transfer_checked(
        &token_id, &s, &m, &d, &a, &[], amount, decimals,
    ).unwrap();
    let accounts = ix.accounts.iter()
        .map(|meta| (meta.pubkey.to_bytes().to_vec(), meta.is_signer, meta.is_writable))
        .collect();
    (ix.program_id.to_bytes().to_vec(), accounts, ix.data)
}

} // verus!
