//! The EVM verification path: ABI encoding of the ERC-20 `transfer` call,
//! the hexadecimal address and transaction-hash formats, and the
//! cross-checks of a submitted transaction against its pending payment —
//! call target, call data, execution status and the independent sum over
//! the receipt's `Transfer` event logs.

use vstd::prelude::*;
use vstd::arithmetic::power::pow;
use crate::codec::all_hex_chars;
use crate::codec::be_val_of;
use crate::codec::be_bytes_of;
use crate::codec::is_hex_char;
use crate::errors::StabuseError;
use crate::foreign::keccak256;
use crate::foreign::keccak256_of;

verus! {

/// How many blocks must lie on top of a transaction before it counts.
pub const REQUIRED_CONFIRMATIONS: u64 = 12;

/// One event log entry of a transaction receipt.
#[derive(Debug, Clone)]
pub struct EvmLogData {
    /// The 20-byte address of the emitting contract.
    pub address: Vec<u8>,
    /// The indexed topics, 32 bytes each on a real chain.
    pub topics: Vec<Vec<u8>>,
    /// The unindexed data words.
    pub data: Vec<u8>,
}

/// A fetched transaction: its call target and input data.
#[derive(Debug, Clone)]
pub struct EvmTxData {
    /// The called address; absent for a contract creation.
    pub to: Option<Vec<u8>>,
    pub input: Vec<u8>,
}

/// A fetched transaction receipt.
#[derive(Debug, Clone)]
pub struct EvmReceiptData {
    /// Whether execution succeeded.
    pub status: bool,
    /// The block that contains the transaction, once mined.
    pub block_number: Option<u64>,
    pub logs: Vec<EvmLogData>,
}

/// Everything the verifier reads from the chain about one transaction.
#[derive(Debug, Clone)]
pub struct EvmChainData {
    pub tx: EvmTxData,
    pub receipt: EvmReceiptData,
    pub current_block: u64,
}

/// The expected shape of a transfer the verifier matches against.
#[derive(Debug)]
pub struct TransactionValidationParams {
    /// The merchant's 20-byte receiving address.
    pub merchant_address: Vec<u8>,
    /// The token contract's 20-byte address.
    pub token_address: Vec<u8>,
    /// The payer's 20-byte address.
    pub user_address: Vec<u8>,
    /// The expected transferred amount in the token's smallest unit.
    pub amount: u128,
}

/// The amount scaled by the asset's decimal precision.
pub open spec fn scaled_amount_of(amount: u64, decimals: u8) -> nat {
    (amount as nat) * (pow(10, decimals as nat) as nat)
}

/// Scales an amount by `10^decimals`, reporting a value that does not fit.
pub fn scale_amount(amount: u64, decimals: u8) -> (r: Option<u128>)
    ensures
        match r {
            Some(v) => v as nat == scaled_amount_of(amount, decimals),
            None => scaled_amount_of(amount, decimals) > u128::MAX,
        },
{
    let mut p: u128 = 1;
    let mut i: u8 = 0;
    proof {
        vstd::arithmetic::power::lemma_pow0(10);
        vstd::arithmetic::power::lemma_pow_positive(10, decimals as nat);
    }
    while i < decimals
        invariant
            i <= decimals,
            p as nat == pow(10, i as nat),
        decreases decimals - i,
    {
        if p > u128::MAX / 10 {
            proof {
                assert(pow(10, (i + 1) as nat) == 10 * pow(10, i as nat)) by {
                    vstd::arithmetic::power::lemma_pow1(10);
                    vstd::arithmetic::power::lemma_pow_adds(10, 1, i as nat);
                }
                vstd::arithmetic::power::lemma_pow_increases(10, (i + 1) as nat, decimals as nat);
                crate::codec::lemma_div_bound_exceeds(p as int, u128::MAX as int, 10);
                vstd::arithmetic::mul::lemma_mul_is_commutative(p as int, 10);
                assert(pow(10, (i + 1) as nat) > u128::MAX);
                assert(amount == 0 ==> scaled_amount_of(amount, decimals) == 0);
            }
            if amount == 0 {
                return Some(0);
            }
            proof {
                vstd::arithmetic::mul::lemma_mul_inequality(
                    1,
                    amount as int,
                    pow(10, decimals as nat),
                );
            }
            return None;
        }
        proof {
            assert(pow(10, (i + 1) as nat) == 10 * pow(10, i as nat)) by {
                vstd::arithmetic::power::lemma_pow1(10);
                vstd::arithmetic::power::lemma_pow_adds(10, 1, i as nat);
            }
        }
        p = p * 10;
        i = i + 1;
    }
    if amount == 0 {
        return Some(0);
    }
    if p > u128::MAX / (amount as u128) {
        proof {
            crate::codec::lemma_div_bound_exceeds(p as int, u128::MAX as int, amount as int);
            vstd::arithmetic::mul::lemma_mul_is_commutative(p as int, amount as int);
        }
        return None;
    }
    proof {
        crate::codec::lemma_div_bound_fits(p as int, u128::MAX as int, amount as int);
        vstd::arithmetic::mul::lemma_mul_is_commutative(p as int, amount as int);
    }
    let v = (amount as u128) * p;
    Some(v)
}

/// A run of zero bytes.
pub open spec fn zero_bytes(n: nat) -> Seq<u8> {
    Seq::new(n, |i: int| 0u8)
}

/// The ABI call data of `transfer(to, value)`: the four selector bytes, the
/// recipient left-padded to 32 bytes, and the value as a 32-byte word.
pub open spec fn erc20_transfer_calldata_of(selector: Seq<u8>, to: Seq<u8>, value: nat) -> Seq<
    u8,
> {
    selector + zero_bytes(12) + to + be_bytes_of(value, 32)
}

/// The four-byte selector of the ERC-20 `transfer` function.
pub open spec fn transfer_selector_of() -> Seq<u8> {
    keccak256_of(vstd::utf8::encode_utf8("transfer(address,uint256)"@)).subrange(0, 4)
}

/// The topic that identifies an ERC-20 `Transfer` event.
pub open spec fn transfer_event_topic_of() -> Seq<u8> {
    keccak256_of(vstd::utf8::encode_utf8("Transfer(address,address,uint256)"@))
}

/// Computes the four-byte selector of the ERC-20 `transfer` function.
pub fn erc20_transfer_selector() -> (r: Vec<u8>)
    ensures
        r@ == transfer_selector_of(),
        r@.len() == 4,
{
    let digest = keccak256("transfer(address,uint256)".as_bytes());
    let mut out: Vec<u8> = Vec::new();
    out.push(digest[0]);
    out.push(digest[1]);
    out.push(digest[2]);
    out.push(digest[3]);
    proof {
        assert(out@ =~= digest@.subrange(0, 4));
    }
    out
}

/// Computes the topic of the ERC-20 `Transfer` event.
pub fn erc20_transfer_event_topic() -> (r: Vec<u8>)
    ensures
        r@ == transfer_event_topic_of(),
        r@.len() == 32,
{
    keccak256("Transfer(address,address,uint256)".as_bytes())
}

/// Appends all bytes of a slice to a vector.
fn append_bytes(out: &mut Vec<u8>, src: &[u8])
    ensures
        final(out)@ == old(out)@ + src@,
{
    let n = src.len();
    for i in 0..n
        invariant
            out@ == old(out)@ + src@.take(i as int),
    {
        out.push(src[i]);
        proof {
            assert(src@.take(i + 1) =~= src@.take(i as int).push(src@[i as int]));
        }
    }
    proof {
        assert(src@.take(n as int) =~= src@);
    }
}

/// Encodes the ERC-20 `transfer(to, value)` call data.
pub fn encode_erc20_transfer(selector: &[u8], to: &[u8], value: u128) -> (r: Vec<u8>)
    requires
        selector@.len() == 4,
        to@.len() == 20,
    ensures
        r@ == erc20_transfer_calldata_of(selector@, to@, value as nat),
{
    let mut out: Vec<u8> = Vec::new();
    append_bytes(&mut out, selector);
    let mut i: usize = 0;
    while i < 12
        invariant
            i <= 12,
            out@ == selector@ + zero_bytes(i as nat),
        decreases 12 - i,
    {
        out.push(0);
        proof {
            assert(zero_bytes((i + 1) as nat) =~= zero_bytes(i as nat).push(0u8));
        }
        i = i + 1;
    }
    append_bytes(&mut out, to);
    let word = crate::codec::u128_to_be_bytes(value, 32);
    append_bytes(&mut out, word.as_slice());
    proof {
        crate::codec::lemma_be_val_of_be_bytes(value as nat, 32);
        assert(out@ =~= erc20_transfer_calldata_of(selector@, to@, value as nat));
    }
    out
}

/// The numeric value of one hexadecimal digit character.
pub open spec fn hex_val_of(c: char) -> int {
    if '0' <= c && c <= '9' {
        c as int - '0' as int
    } else if 'a' <= c && c <= 'f' {
        c as int - 'a' as int + 10
    } else if 'A' <= c && c <= 'F' {
        c as int - 'A' as int + 10
    } else {
        0
    }
}

/// The bytes spelled by an even run of hexadecimal digit characters.
pub open spec fn hex_pairs_of(s: Seq<char>) -> Seq<u8> {
    Seq::new(s.len() / 2, |i: int| (16 * hex_val_of(s[2 * i]) + hex_val_of(s[2 * i + 1])) as u8)
}

/// The bytes behind a hexadecimal string, if it is even and well formed.
pub open spec fn hex_parse_of(s: Seq<char>) -> Option<Seq<u8>> {
    if s.len() % 2 == 0 && all_hex_chars(s) {
        Some(hex_pairs_of(s))
    } else {
        None
    }
}

/// The numeric value of one hexadecimal digit character.
fn hex_char_val(c: char) -> (r: u8)
    requires
        is_hex_char(c),
    ensures
        r as int == hex_val_of(c),
        r < 16,
{
    let v = c as u32;
    if c >= '0' && c <= '9' {
        (v - 48) as u8
    } else if c >= 'a' && c <= 'f' {
        (v - 97 + 10) as u8
    } else {
        (v - 65 + 10) as u8
    }
}

/// Decodes a hexadecimal string into its bytes; fails on an odd length or a
/// character that is no hexadecimal digit.
pub fn hex_str_to_bytes(s: &str) -> (r: Option<Vec<u8>>)
    ensures
        match r {
            Some(b) => hex_parse_of(s@) == Some(b@) && b@.len() * 2 == s@.len(),
            None => hex_parse_of(s@) is None,
        },
{
    let n = s.unicode_len();
    if n % 2 != 0 {
        return None;
    }
    if !crate::codec::check_all_hex(s) {
        return None;
    }
    let mut out: Vec<u8> = Vec::new();
    let half = n / 2;
    for i in 0..half
        invariant
            out@.len() == i,
            forall|k: int| 0 <= k < i ==> out@[k] == hex_pairs_of(s@)[k],
    {
        let hi = hex_char_val(s.get_char(2 * i));
        let lo = hex_char_val(s.get_char(2 * i + 1));
        out.push(16 * hi + lo);
    }
    proof {
        assert(out@ =~= hex_pairs_of(s@));
    }
    Some(out)
}

/// The 20 address bytes behind an EVM address string, if it is well formed.
pub open spec fn evm_addr_bytes_of(s: Seq<char>) -> Option<Seq<u8>> {
    if crate::validation::evm_address_ok(s) {
        hex_parse_of(s.skip(2))
    } else {
        None
    }
}

/// Parses a `0x`-prefixed, 40-digit EVM address into its 20 bytes.
pub fn parse_evm_address(s: &str) -> (r: Option<Vec<u8>>)
    ensures
        match r {
            Some(b) => evm_addr_bytes_of(s@) == Some(b@) && b@.len() == 20,
            None => evm_addr_bytes_of(s@) is None,
        },
{
    proof {
        reveal_strlit("0");
        reveal_strlit("x");
    }
    let n = s.unicode_len();
    if n != 42 {
        return None;
    }
    if s.get_char(0) != '0' || s.get_char(1) != 'x' {
        return None;
    }
    let digits = s.substring_char(2, 42);
    proof {
        assert(digits@ =~= s@.skip(2));
    }
    hex_str_to_bytes(digits)
}

/// Whether a string is a well-formed EVM transaction hash: 64 hexadecimal
/// digits after an optional `0x` prefix.
pub open spec fn evm_tx_hash_ok(s: Seq<char>) -> bool {
    hash_digits_of(s).len() == 64 && all_hex_chars(hash_digits_of(s))
}

/// The digit run of a transaction hash, the `0x` prefix stripped.
pub open spec fn hash_digits_of(s: Seq<char>) -> Seq<char> {
    if s.len() >= 2 && s[0] == '0' && s[1] == 'x' {
        s.skip(2)
    } else {
        s
    }
}

/// Checks the shape of a submitted transaction hash.
pub fn validate_evm_tx_hash(s: &str) -> (r: bool)
    ensures
        r == evm_tx_hash_ok(s@),
{
    proof {
        reveal_strlit("0");
        reveal_strlit("x");
    }
    let n = s.unicode_len();
    let digits = if n >= 2 && s.get_char(0) == '0' && s.get_char(1) == 'x' {
        let d = s.substring_char(2, n);
        proof {
            assert(d@ =~= s@.skip(2));
        }
        d
    } else {
        proof {
            assert(hash_digits_of(s@) == s@);
        }
        s
    };
    if digits.unicode_len() != 64 {
        return false;
    }
    crate::codec::check_all_hex(digits)
}

/// Whether a log entry is a `Transfer` event of the expected token contract
/// from the expected payer to the expected merchant, with a data word short
/// enough to read.
pub open spec fn log_matches(
    l: EvmLogData,
    token: Seq<u8>,
    sender: Seq<u8>,
    merchant: Seq<u8>,
) -> bool {
    &&& l.address@ == token
    &&& l.topics@.len() >= 3
    &&& l.topics@[0]@ == transfer_event_topic_of()
    &&& l.topics@[1]@.len() == 32
    &&& l.topics@[1]@.skip(12) == sender
    &&& l.topics@[2]@.len() == 32
    &&& l.topics@[2]@.skip(12) == merchant
    &&& l.data@.len() <= 32
}

/// The sum of the transferred values over all matching log entries.
pub open spec fn matching_logs_sum(
    s: Seq<EvmLogData>,
    token: Seq<u8>,
    sender: Seq<u8>,
    merchant: Seq<u8>,
) -> nat
    decreases s.len(),
{
    if s.len() == 0 {
        0
    } else {
        matching_logs_sum(s.drop_last(), token, sender, merchant) + if log_matches(
            s.last(),
            token,
            sender,
            merchant,
        ) {
            be_val_of(s.last().data@)
        } else {
            0
        }
    }
}

/// Reads a big-endian byte string as a `u128`, if the value fits.
pub fn be_bytes_to_u128(b: &[u8]) -> (r: Option<u128>)
    ensures
        match r {
            Some(v) => v as nat == be_val_of(b@),
            None => be_val_of(b@) > u128::MAX,
        },
{
    let n = b.len();
    let mut acc: u128 = 0;
    for i in 0..n
        invariant
            acc as nat == be_val_of(b@.take(i as int)),
    {
        proof {
            assert(b@.take(i + 1).drop_last() =~= b@.take(i as int));
            assert(b@.take(i + 1).last() == b@[i as int]);
        }
        if acc > (u128::MAX - (b[i] as u128)) / 256 {
            proof {
                crate::codec::lemma_div_bound_exceeds(
                    acc as int,
                    u128::MAX - (b[i as int] as u128),
                    256,
                );
                lemma_be_val_prefix_bound(b@, i + 1);
            }
            return None;
        }
        proof {
            crate::codec::lemma_div_bound_fits(
                acc as int,
                u128::MAX - (b[i as int] as u128),
                256,
            );
        }
        acc = acc * 256 + (b[i] as u128);
    }
    proof {
        assert(b@.take(n as int) =~= b@);
    }
    Some(acc)
}

/// The value of a byte string is at least the value of any prefix scaled by
/// the remaining width.
proof fn lemma_be_val_prefix_bound(s: Seq<u8>, i: int)
    requires
        0 <= i <= s.len(),
    ensures
        be_val_of(s) >= be_val_of(s.take(i)),
    decreases s.len() - i,
{
    if i < s.len() {
        lemma_be_val_prefix_bound(s, i + 1);
        assert(s.take(i + 1).drop_last() =~= s.take(i));
        assert(be_val_of(s.take(i + 1)) == be_val_of(s.take(i)) * 256 + s.take(i + 1).last());
        assert(be_val_of(s.take(i)) * 256 >= be_val_of(s.take(i))) by (nonlinear_arith)
            requires
                be_val_of(s.take(i)) >= 0,
        {}
    } else {
        assert(s.take(i) =~= s);
    }
}

/// The matching sum grows by the new entry's value or stays.
proof fn lemma_matching_sum_take(
    s: Seq<EvmLogData>,
    token: Seq<u8>,
    sender: Seq<u8>,
    merchant: Seq<u8>,
    i: int,
)
    requires
        0 <= i < s.len(),
    ensures
        matching_logs_sum(s.take(i + 1), token, sender, merchant) == matching_logs_sum(
            s.take(i),
            token,
            sender,
            merchant,
        ) + if log_matches(s[i], token, sender, merchant) {
            be_val_of(s[i].data@)
        } else {
            0
        },
{
    assert(s.take(i + 1).drop_last() =~= s.take(i));
    assert(s.take(i + 1).last() == s[i]);
}

/// Recomputes the transferred amount from the receipt's `Transfer` event
/// logs, filtered to the expected token contract, payer and merchant, and
/// accepts only when the sum equals the expected amount.
pub fn validate_transfer_event(
    receipt: &EvmReceiptData,
    params: &TransactionValidationParams,
) -> (r: Result<(), StabuseError>)
    ensures
        r is Ok <==> matching_logs_sum(
            receipt.logs@,
            params.token_address@,
            params.user_address@,
            params.merchant_address@,
        ) == params.amount,
        r matches Err(e) ==> e is InvalidData,
{
    let topic = erc20_transfer_event_topic();
    let n = receipt.logs.len();
    let mut acc: u128 = 0;
    let mut overflow = false;
    for i in 0..n
        invariant
            !overflow ==> acc as nat == matching_logs_sum(
                receipt.logs@.take(i as int),
                params.token_address@,
                params.user_address@,
                params.merchant_address@,
            ),
            overflow ==> matching_logs_sum(
                receipt.logs@.take(i as int),
                params.token_address@,
                params.user_address@,
                params.merchant_address@,
            ) > u128::MAX,
    {
        let l = &receipt.logs[i];
        let mut matches = crate::codec::bytes_eq(l.address.as_slice(), params.token_address.as_slice());
        if matches {
            matches = l.topics.len() >= 3;
        }
        if matches {
            matches = crate::codec::bytes_eq(l.topics[0].as_slice(), topic.as_slice());
        }
        if matches {
            matches = l.topics[1].len() == 32 && l.topics[2].len() == 32;
        }
        if matches {
            let from_tail = slice_skip12(l.topics[1].as_slice());
            matches = crate::codec::bytes_eq(from_tail, params.user_address.as_slice());
        }
        if matches {
            let to_tail = slice_skip12(l.topics[2].as_slice());
            matches = crate::codec::bytes_eq(to_tail, params.merchant_address.as_slice());
        }
        if matches {
            matches = l.data.len() <= 32;
        }
        proof {
            lemma_matching_sum_take(
                receipt.logs@,
                params.token_address@,
                params.user_address@,
                params.merchant_address@,
                i as int,
            );
        }
        if matches {
            proof {
                assert(log_matches(
                    receipt.logs@[i as int],
                    params.token_address@,
                    params.user_address@,
                    params.merchant_address@,
                ));
            }
            match be_bytes_to_u128(l.data.as_slice()) {
                Some(v) => {
                    if acc > u128::MAX - v {
                        overflow = true;
                    } else if !overflow {
                        acc = acc + v;
                    } else {
                        proof {
                            assert(matching_logs_sum(
                                receipt.logs@.take(i + 1),
                                params.token_address@,
                                params.user_address@,
                                params.merchant_address@,
                            ) > u128::MAX);
                        }
                    }
                },
                None => {
                    overflow = true;
                },
            }
        } else {
            proof {
                assert(!log_matches(
                    receipt.logs@[i as int],
                    params.token_address@,
                    params.user_address@,
                    params.merchant_address@,
                ));
            }
        }
    }
    proof {
        assert(receipt.logs@.take(n as int) =~= receipt.logs@);
    }
    if overflow {
        return Err(StabuseError::InvalidData(String::from_str(
            "Total transfer amount does not match expected amount",
        )));
    }
    if acc == params.amount {
        Ok(())
    } else {
        Err(StabuseError::InvalidData(String::from_str(
            "Total transfer amount does not match expected amount",
        )))
    }
}

/// The confirmation depth of a mined transaction: how many blocks the head
/// lies above it, never negative.
pub open spec fn confirmation_depth(current: u64, block: u64) -> u64 {
    if current >= block {
        (current - block) as u64
    } else {
        0u64
    }
}

/// Whether the fetched transaction and receipt show a successful ERC-20
/// transfer of exactly `scaled` units to the merchant: the call targets the
/// token contract, the call data is the expected `transfer` encoding, the
/// execution succeeded, and the `Transfer` event logs from the payer to the
/// merchant sum to the same amount.
pub open spec fn evm_transfer_matches(
    token: Seq<u8>,
    merchant: Seq<u8>,
    sender: Seq<u8>,
    scaled: nat,
    chain: EvmChainData,
) -> bool {
    &&& chain.tx.to is Some
    &&& chain.tx.to.unwrap()@ == token
    &&& chain.tx.input@ == erc20_transfer_calldata_of(transfer_selector_of(), merchant, scaled)
    &&& chain.receipt.status
    &&& matching_logs_sum(chain.receipt.logs@, token, sender, merchant) == scaled
}

/// Every check of the EVM verification path, short of the store itself:
/// the registry resolves the asset and the merchant, the hash and all
/// addresses are well formed, the transaction is mined deep enough, the
/// scaled amount fits, and the chain data matches the pending payment.
pub open spec fn evm_checks_pass(
    reg: crate::registry::ChainRegistry,
    p: crate::store::PendingPayment,
    chain_id: i64,
    tx_hash: Seq<char>,
    chain: EvmChainData,
) -> bool {
    let na = crate::registry::network_and_asset_of(reg, p.asset@, chain_id);
    let ms = crate::registry::merchant_address_of(reg.merchant_addresses@, p.merchant_id, chain_id);
    let d = crate::utils::token_decimals_of(p.asset@);
    &&& na is Some
    &&& evm_tx_hash_ok(tx_hash)
    &&& chain.receipt.block_number is Some
    &&& confirmation_depth(chain.current_block, chain.receipt.block_number.unwrap())
        >= REQUIRED_CONFIRMATIONS
    &&& d is Some
    &&& scaled_amount_of(p.amount, d.unwrap()) <= u128::MAX
    &&& ms is Some
    &&& evm_addr_bytes_of(na.unwrap().1) is Some
    &&& evm_addr_bytes_of(ms.unwrap()) is Some
    &&& evm_addr_bytes_of(p.sender@) is Some
    &&& evm_transfer_matches(
        evm_addr_bytes_of(na.unwrap().1).unwrap(),
        evm_addr_bytes_of(ms.unwrap()).unwrap(),
        evm_addr_bytes_of(p.sender@).unwrap(),
        scaled_amount_of(p.amount, d.unwrap()),
        chain,
    )
}

/// Verifies a submitted EVM transaction against the pending payment it
/// claims to settle, and on success performs the settlement: the pending
/// row is deleted and the settled row inserted in one step. Succeeds exactly
/// when the pending row exists, every chain-side check of
/// [`evm_checks_pass`] holds, the hash was never settled before and the
/// store can hand out another id. On failure the store is unchanged and the
/// error names the first check that failed, in the order the checks run.
pub fn verify_signed_transaction(
    store: &mut crate::store::PaymentStore,
    registry: &crate::registry::ChainRegistry,
    pending_payment_id: i32,
    chain_id: i64,
    tx_hash: &str,
    chain: &EvmChainData,
    settle_time: i64,
) -> (r: Result<(i32, String), StabuseError>)
    requires
        old(store).wf(),
    ensures
        final(store).wf(),
        (r is Ok <==> ({
            let pend = crate::store::pending_of(old(store).pending@, pending_payment_id);
            &&& pend is Some
            &&& evm_checks_pass(*registry, pend.unwrap(), chain_id, tx_hash@, *chain)
            &&& !crate::store::settled_has_hash(old(store).settled@, tx_hash@)
            &&& old(store).next_payment_id < i32::MAX
        })),
        r matches Ok(ok) ==> ({
            let p = crate::store::pending_of(old(store).pending@, pending_payment_id).unwrap();
            &&& ok.0 == old(store).next_payment_id
            &&& ok.1@ == p.webhook_url@
            &&& final(store).pending@ == crate::store::remove_pending(
                old(store).pending@,
                pending_payment_id,
            )
            &&& final(store).settled@.len() == old(store).settled@.len() + 1
            &&& final(store).settled@.subrange(0, old(store).settled@.len() as int) == old(
                store,
            ).settled@
            &&& {
                let s = final(store).settled@.last();
                &&& s.id == ok.0
                &&& s.merchant_id == p.merchant_id
                &&& s.sender@ == p.sender@
                &&& s.amount == p.amount
                &&& s.tx_hash@ == tx_hash@
                &&& s.asset@ == p.asset@
                &&& s.network@ == p.network@
                &&& s.time == settle_time
            }
            &&& crate::store::settled_has_hash(final(store).settled@, tx_hash@)
            &&& crate::store::pending_of(final(store).pending@, pending_payment_id) is None
        }),
        r matches Err(e) ==> ({
            let pend = crate::store::pending_of(old(store).pending@, pending_payment_id);
            &&& final(store).pending@ == old(store).pending@
            &&& final(store).settled@ == old(store).settled@
            &&& if pend is None {
                e is NotFound
            } else {
                let p = pend.unwrap();
                let na = crate::registry::network_and_asset_of(*registry, p.asset@, chain_id);
                let ms = crate::registry::merchant_address_of(
                    registry.merchant_addresses@,
                    p.merchant_id,
                    chain_id,
                );
                let d = crate::utils::token_decimals_of(p.asset@);
                if na is None {
                    e is AssetNotSupported
                } else if !evm_tx_hash_ok(tx_hash@) {
                    e is InvalidData
                } else if chain.receipt.block_number is None {
                    e is Internal
                } else if confirmation_depth(
                    chain.current_block,
                    chain.receipt.block_number.unwrap(),
                ) < REQUIRED_CONFIRMATIONS {
                    e is Internal
                } else if d is None {
                    e is InvalidData
                } else if scaled_amount_of(p.amount, d.unwrap()) > u128::MAX {
                    e is InvalidData
                } else if ms is None {
                    e is AssetNotSupported
                } else if evm_addr_bytes_of(na.unwrap().1) is None {
                    e is Internal
                } else if evm_addr_bytes_of(ms.unwrap()) is None {
                    e is Internal
                } else if !(chain.tx.to is Some && chain.tx.to.unwrap()@ == evm_addr_bytes_of(
                    na.unwrap().1,
                ).unwrap()) {
                    e is InvalidData
                } else if chain.tx.input@ != erc20_transfer_calldata_of(
                    transfer_selector_of(),
                    evm_addr_bytes_of(ms.unwrap()).unwrap(),
                    scaled_amount_of(p.amount, d.unwrap()),
                ) {
                    e is InvalidData
                } else if !chain.receipt.status {
                    e is InvalidData
                } else if evm_addr_bytes_of(p.sender@) is None {
                    e is Internal
                } else if matching_logs_sum(
                    chain.receipt.logs@,
                    evm_addr_bytes_of(na.unwrap().1).unwrap(),
                    evm_addr_bytes_of(p.sender@).unwrap(),
                    evm_addr_bytes_of(ms.unwrap()).unwrap(),
                ) != scaled_amount_of(p.amount, d.unwrap()) {
                    e is InvalidData
                } else {
                    e is DatabaseError
                }
            }
        }),
{
    let pending = match store.get_pending_payment(pending_payment_id) {
        Some(p) => crate::store::clone_pending(p),
        None => {
            return Err(StabuseError::NotFound(String::from_str("pending payment not found")));
        },
    };
    let resolved = registry.get_network_and_asset_address_with_chain_id(
        pending.asset.as_str(),
        chain_id,
    );
    let token_address = match resolved {
        Ok(p) => p.1,
        Err(e) => {
            return Err(e);
        },
    };
    if !validate_evm_tx_hash(tx_hash) {
        return Err(StabuseError::InvalidData(String::from_str("Invalid transaction hash")));
    }
    let block_number = match chain.receipt.block_number {
        Some(b) => b,
        None => {
            return Err(StabuseError::Internal(String::from_str(
                "Transaction not yet mined",
            )));
        },
    };
    let confirmations: u64 = if chain.current_block >= block_number {
        chain.current_block - block_number
    } else {
        0
    };
    if confirmations < REQUIRED_CONFIRMATIONS {
        return Err(StabuseError::Internal(String::from_str(
            "Insufficient transaction confirmations",
        )));
    }
    let decimals = match crate::utils::get_token_decimals(pending.asset.as_str()) {
        Ok(d) => d,
        Err(e) => {
            return Err(e);
        },
    };
    let scaled = match scale_amount(pending.amount, decimals) {
        Some(v) => v,
        None => {
            return Err(StabuseError::InvalidData(String::from_str(
                "Scaled amount out of range",
            )));
        },
    };
    let merchant_address = match registry.get_merchant_network_address(
        pending.merchant_id,
        chain_id,
    ) {
        Ok(a) => a,
        Err(e) => {
            return Err(e);
        },
    };
    let token_bytes = match parse_evm_address(token_address.as_str()) {
        Some(b) => b,
        None => {
            return Err(StabuseError::Internal(String::from_str("Invalid token address")));
        },
    };
    let merchant_bytes = match parse_evm_address(merchant_address.as_str()) {
        Some(b) => b,
        None => {
            return Err(StabuseError::Internal(String::from_str("Invalid merchant address")));
        },
    };
    let selector = erc20_transfer_selector();
    let expected_data = encode_erc20_transfer(selector.as_slice(), merchant_bytes.as_slice(), scaled);
    match &chain.tx.to {
        Some(to) => {
            if !crate::codec::bytes_eq(to.as_slice(), token_bytes.as_slice()) {
                return Err(StabuseError::InvalidData(String::from_str(
                    "Transaction recipient (to) address does not match.",
                )));
            }
        },
        None => {
            return Err(StabuseError::InvalidData(String::from_str(
                "Unsupported transaction kind.",
            )));
        },
    }
    if !crate::codec::bytes_eq(chain.tx.input.as_slice(), expected_data.as_slice()) {
        return Err(StabuseError::InvalidData(String::from_str(
            "Transaction data does not match the expected data.",
        )));
    }
    if !chain.receipt.status {
        return Err(StabuseError::InvalidData(String::from_str(
            "Transaction execution failed.",
        )));
    }
    let sender_bytes = match parse_evm_address(pending.sender.as_str()) {
        Some(b) => b,
        None => {
            return Err(StabuseError::Internal(String::from_str("Invalid user address")));
        },
    };
    let params = TransactionValidationParams {
        merchant_address: merchant_bytes,
        token_address: token_bytes,
        user_address: sender_bytes,
        amount: scaled,
    };
    if let Err(e) = validate_transfer_event(&chain.receipt, &params) {
        return Err(e);
    }
    store.settle_payment(pending_payment_id, tx_hash, settle_time)
}

/// The fixed priority tip offered with a built transaction: one gwei.
pub const PRIORITY_FEE_WEI: u128 = 1000000000;

/// Builds an unsigned ERC-20 transfer for the requested payment: resolves
/// the merchant's receiving address and the token contract, encodes the
/// `transfer` call, derives the fee fields from the latest base fee plus a
/// fixed one-gwei tip, persists the pending payment row and issues the
/// claims of its verification credential. Returns the transaction
/// descriptor, the credential claims and the derived webhook address. On
/// failure nothing is persisted and the error names the first step that
/// failed, in order.
pub fn create_payment_request(
    store: &mut crate::store::PaymentStore,
    registry: &crate::registry::ChainRegistry,
    merchant_id: i32,
    amount: u64,
    user_address: &str,
    rpc_url: &str,
    chain_id: u64,
    asset: &str,
    nonce: u64,
    gas_estimate: u64,
    base_fee_per_gas: Option<u128>,
    webhook_base_url: &str,
    now: i64,
    timestamp: &str,
) -> (r: Result<
    (crate::types::CreatePaymentTransaction, crate::types::PaymentClaims, String),
    StabuseError,
>)
    requires
        old(store).wf(),
    ensures
        final(store).wf(),
        r matches Ok(ok) ==> ({
            let na = crate::registry::network_and_asset_of(
                *registry,
                asset@,
                chain_id as i64,
            ).unwrap();
            let ms = crate::registry::merchant_address_of(
                registry.merchant_addresses@,
                merchant_id,
                chain_id as i64,
            ).unwrap();
            &&& crate::validation::evm_address_ok(user_address@)
            &&& chain_id <= i64::MAX
            &&& crate::registry::network_and_asset_of(*registry, asset@, chain_id as i64)
                is Some
            &&& crate::registry::merchant_address_of(
                registry.merchant_addresses@,
                merchant_id,
                chain_id as i64,
            ) is Some
            &&& evm_addr_bytes_of(ms) is Some
            &&& amount > 0
            &&& ok.0.to@ == na.1
            &&& ok.0.from@ == user_address@
            &&& ok.0.data@ == crate::text::hex_bytes_of(
                erc20_transfer_calldata_of(
                    transfer_selector_of(),
                    evm_addr_bytes_of(ms).unwrap(),
                    amount as nat,
                ),
            )
            &&& ok.0.value@ == "0x0"@
            &&& ok.0.nonce@ == "0x"@ + crate::text::hex_of(nonce as nat)
            &&& ok.0.chain_id == chain_id
            &&& ok.0.gas_limit matches Some(g) && g@ == "0x"@ + crate::text::hex_of(
                gas_estimate as nat,
            )
            &&& match base_fee_per_gas {
                Some(bf) => {
                    &&& bf + PRIORITY_FEE_WEI <= u128::MAX
                    &&& ok.0.max_fee_per_gas matches Some(f) && f@ == "0x"@
                        + crate::text::hex_of((bf + PRIORITY_FEE_WEI) as nat)
                    &&& ok.0.max_priority_fee_per_gas matches Some(f) && f@ == "0x"@
                        + crate::text::hex_of(PRIORITY_FEE_WEI as nat)
                },
                None => ok.0.max_fee_per_gas is None && ok.0.max_priority_fee_per_gas is None,
            }
            &&& ok.1.pending_payment_id == old(store).next_pending_id
            &&& ok.1.rpc@ == rpc_url@
            &&& ok.1.network@ == na.0
            &&& ok.1.iat == now
            &&& ok.1.exp == now + crate::credential::PAYMENT_CREDENTIAL_TTL_SECONDS
            &&& ok.2@ == crate::webhook::webhook_url_of(
                webhook_base_url@,
                merchant_id as int,
                user_address@,
                amount as nat,
                timestamp@,
            )
            &&& final(store).settled@ == old(store).settled@
            &&& final(store).pending@.len() == old(store).pending@.len() + 1
            &&& final(store).pending@.subrange(0, old(store).pending@.len() as int) == old(
                store,
            ).pending@
            &&& {
                let p = final(store).pending@.last();
                &&& p.id == old(store).next_pending_id
                &&& p.merchant_id == merchant_id
                &&& p.sender@ == user_address@
                &&& p.amount == amount
                &&& p.asset@ == asset@
                &&& p.network@ == na.0
                &&& p.webhook_url@ == ok.2@
                &&& p.time == now
            }
        }),
        r matches Err(e) ==> ({
            let na = crate::registry::network_and_asset_of(*registry, asset@, chain_id as i64);
            let ms = crate::registry::merchant_address_of(
                registry.merchant_addresses@,
                merchant_id,
                chain_id as i64,
            );
            &&& final(store).pending@ == old(store).pending@
            &&& final(store).settled@ == old(store).settled@
            &&& final(store).next_pending_id == old(store).next_pending_id
            &&& if !crate::validation::evm_address_ok(user_address@) {
                e is InvalidAddress
            } else if chain_id > i64::MAX {
                e is Internal
            } else if ms is None {
                e is AssetNotSupported
            } else if na is None {
                e is AssetNotSupported
            } else if evm_addr_bytes_of(user_address@) is None {
                e is Internal
            } else if evm_addr_bytes_of(ms.unwrap()) is None {
                e is Internal
            } else if evm_addr_bytes_of(na.unwrap().1) is None {
                e is Internal
            } else if base_fee_per_gas matches Some(bf) && bf + PRIORITY_FEE_WEI > u128::MAX {
                e is Internal
            } else if now + crate::credential::PAYMENT_CREDENTIAL_TTL_SECONDS > i64::MAX {
                e is Internal
            } else if amount == 0 {
                e is InvalidData
            } else if old(store).next_pending_id == i32::MAX {
                e is DatabaseError
            } else {
                false
            }
        }),
{
    if let Err(e) = crate::validation::validate_address(user_address) {
        return Err(e);
    }
    if chain_id > 0x7fffffffffffffff {
        return Err(StabuseError::Internal(String::from_str("chain id out of range")));
    }
    let registry_chain_id = chain_id as i64;
    let merchant_address = match registry.get_merchant_network_address(
        merchant_id,
        registry_chain_id,
    ) {
        Ok(a) => a,
        Err(e) => {
            return Err(e);
        },
    };
    let resolved = match registry.get_network_and_asset_address_with_chain_id(
        asset,
        registry_chain_id,
    ) {
        Ok(p) => p,
        Err(e) => {
            return Err(e);
        },
    };
    let network = resolved.0;
    let token_address = resolved.1;
    if parse_evm_address(user_address).is_none() {
        return Err(StabuseError::Internal(String::from_str("Invalid user address")));
    }
    let merchant_bytes = match parse_evm_address(merchant_address.as_str()) {
        Some(b) => b,
        None => {
            return Err(StabuseError::Internal(String::from_str("Invalid merchant address")));
        },
    };
    if parse_evm_address(token_address.as_str()).is_none() {
        return Err(StabuseError::Internal(String::from_str("Invalid token address")));
    }
    let selector = erc20_transfer_selector();
    let call_data = encode_erc20_transfer(
        selector.as_slice(),
        merchant_bytes.as_slice(),
        amount as u128,
    );
    let fees: Option<(u128, u128)> = match base_fee_per_gas {
        Some(bf) => {
            if bf > u128::MAX - PRIORITY_FEE_WEI {
                return Err(StabuseError::Internal(String::from_str("fee overflow")));
            }
            Some((bf + PRIORITY_FEE_WEI, PRIORITY_FEE_WEI))
        },
        None => None,
    };
    if now > i64::MAX - crate::credential::PAYMENT_CREDENTIAL_TTL_SECONDS {
        return Err(StabuseError::Internal(String::from_str("credential expiry overflow")));
    }
    let webhook_url = crate::webhook::generate_webhook_url(
        webhook_base_url,
        merchant_id,
        user_address,
        amount,
        timestamp,
    );
    let preview_id = store.next_pending_id;
    let pending_payment_id = match store.add_pending_payment(
        merchant_id,
        user_address,
        amount,
        asset,
        network.as_str(),
        webhook_url.as_str(),
        now,
    ) {
        Ok(id) => id,
        Err(e) => {
            return Err(e);
        },
    };
    let claims = match crate::credential::generate_payment_claims(
        pending_payment_id,
        rpc_url,
        network.as_str(),
        now,
    ) {
        Ok(c) => c,
        Err(e) => {
            return Err(e);
        },
    };
    let mut nonce_text = String::from_str("0x");
    let nonce_hex = crate::text::u64_to_hex(nonce);
    nonce_text.append(nonce_hex.as_str());
    let mut gas_text = String::from_str("0x");
    let gas_hex = crate::text::u64_to_hex(gas_estimate);
    gas_text.append(gas_hex.as_str());
    let (max_fee_text, priority_text): (Option<String>, Option<String>) = match fees {
        Some(pair) => {
            let mut f = String::from_str("0x");
            let fh = crate::text::u128_to_hex(pair.0);
            f.append(fh.as_str());
            let mut t = String::from_str("0x");
            let th = crate::text::u128_to_hex(pair.1);
            t.append(th.as_str());
            (Some(f), Some(t))
        },
        None => (None, None),
    };
    let tx = crate::types::CreatePaymentTransaction {
        to: token_address,
        from: String::from_str(user_address),
        data: crate::text::bytes_to_hex(call_data.as_slice()),
        value: String::from_str("0x0"),
        nonce: nonce_text,
        chain_id,
        gas_limit: Some(gas_text),
        max_fee_per_gas: max_fee_text,
        max_priority_fee_per_gas: priority_text,
    };
    proof {
        assert(preview_id == old(store).next_pending_id);
    }
    Ok((tx, claims, webhook_url))
}

/// The last 20 bytes of a 32-byte topic: the address it carries.
fn slice_skip12(s: &[u8]) -> (r: &[u8])
    requires
        s@.len() == 32,
    ensures
        r@ == s@.skip(12),
{
    let (_, tail) = s.split_at(12);
    proof {
        assert(tail@ =~= s@.skip(12));
    }
    tail
}

} // verus!
