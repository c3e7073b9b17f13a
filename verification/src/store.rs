//! The payment store: pending payments awaiting confirmation and the
//! append-only record of settled payments, keyed uniquely by transaction
//! hash. Settlement is the atomic transition that deletes the pending row
//! and inserts the settled row; the uniqueness of the transaction hash is
//! the store's guard against double settlement.

use vstd::prelude::*;
use crate::errors::StabuseError;

verus! {

/// A payment requested but not yet verified on-chain.
#[derive(Debug, Clone)]
pub struct PendingPayment {
    pub id: i32,
    pub merchant_id: i32,
    /// The payer's address, in the chain family's own string form.
    pub sender: String,
    /// The amount, as an integer in the asset's smallest unit.
    pub amount: u64,
    pub asset: String,
    pub network: String,
    pub webhook_url: String,
    /// Creation time, as Unix seconds.
    pub time: i64,
}

/// A settled payment: the permanent record of one confirmed transfer.
#[derive(Debug, Clone)]
pub struct Payment {
    pub id: i32,
    pub merchant_id: i32,
    pub sender: String,
    /// The amount, as an integer in the asset's smallest unit.
    pub amount: u64,
    /// The on-chain transaction hash or signature; unique over the store.
    pub tx_hash: String,
    pub asset: String,
    pub network: String,
    /// Settlement time, as Unix seconds.
    pub time: i64,
}

/// The first pending payment with the given id, if any.
pub open spec fn pending_of(s: Seq<PendingPayment>, id: i32) -> Option<PendingPayment>
    decreases s.len(),
{
    if s.len() == 0 {
        None
    } else if s.first().id == id {
        Some(s.first())
    } else {
        pending_of(s.drop_first(), id)
    }
}

/// The sequence with the first payment of the given id removed.
pub open spec fn remove_pending(s: Seq<PendingPayment>, id: i32) -> Seq<PendingPayment>
    decreases s.len(),
{
    if s.len() == 0 {
        s
    } else if s.first().id == id {
        s.drop_first()
    } else {
        seq![s.first()] + remove_pending(s.drop_first(), id)
    }
}

/// Whether some settled payment carries the given transaction hash.
pub open spec fn settled_has_hash(s: Seq<Payment>, h: Seq<char>) -> bool {
    exists|i: int| 0 <= i < s.len() && (#[trigger] s[i]).tx_hash@ == h
}

/// The in-memory payment store.
#[derive(Debug)]
pub struct PaymentStore {
    pub pending: Vec<PendingPayment>,
    pub settled: Vec<Payment>,
    pub next_pending_id: i32,
    pub next_payment_id: i32,
}

impl PaymentStore {
    /// Pending ids are unique and below the next id to hand out; settled
    /// rows have unique ids and unique transaction hashes.
    pub open spec fn wf(self) -> bool {
        &&& forall|i: int, j: int|
            0 <= i < j < self.pending@.len() ==> (#[trigger] self.pending@[i]).id != (
            #[trigger] self.pending@[j]).id
        &&& forall|i: int|
            0 <= i < self.pending@.len() ==> (#[trigger] self.pending@[i]).id
                < self.next_pending_id
        &&& forall|i: int, j: int|
            0 <= i < j < self.settled@.len() ==> (#[trigger] self.settled@[i]).id != (
            #[trigger] self.settled@[j]).id
        &&& forall|i: int|
            0 <= i < self.settled@.len() ==> (#[trigger] self.settled@[i]).id
                < self.next_payment_id
        &&& forall|i: int, j: int|
            0 <= i < j < self.settled@.len() ==> (#[trigger] self.settled@[i]).tx_hash@ != (
            #[trigger] self.settled@[j]).tx_hash@
        &&& self.next_pending_id >= 1
        &&& self.next_payment_id >= 1
    }

    /// An empty store.
    pub fn new() -> (r: PaymentStore)
        ensures
            r.wf(),
            r.pending@.len() == 0,
            r.settled@.len() == 0,
    {
        PaymentStore {
            pending: Vec::new(),
            settled: Vec::new(),
            next_pending_id: 1,
            next_payment_id: 1,
        }
    }

    /// Records a payment awaiting confirmation and hands back its fresh id.
    /// Fails with `InvalidData` on a zero amount and with `DatabaseError`
    /// when the id space is exhausted.
    pub fn add_pending_payment(
        &mut self,
        merchant_id: i32,
        sender: &str,
        amount: u64,
        asset: &str,
        network: &str,
        webhook_url: &str,
        time: i64,
    ) -> (r: Result<i32, StabuseError>)
        requires
            old(self).wf(),
        ensures
            final(self).wf(),
            final(self).settled@ == old(self).settled@,
            match r {
                Ok(id) => {
                    &&& amount > 0
                    &&& id == old(self).next_pending_id
                    &&& final(self).pending@.len() == old(self).pending@.len() + 1
                    &&& final(self).pending@.subrange(0, old(self).pending@.len() as int) == old(
                        self,
                    ).pending@
                    &&& {
                        let p = final(self).pending@.last();
                        &&& p.id == id
                        &&& p.merchant_id == merchant_id
                        &&& p.sender@ == sender@
                        &&& p.amount == amount
                        &&& p.asset@ == asset@
                        &&& p.network@ == network@
                        &&& p.webhook_url@ == webhook_url@
                        &&& p.time == time
                    }
                    &&& pending_of(final(self).pending@, id) == Some(
                        final(self).pending@.last(),
                    )
                },
                Err(e) => {
                    &&& final(self).pending@ == old(self).pending@
                    &&& final(self).next_pending_id == old(self).next_pending_id
                    &&& (e is InvalidData <==> amount == 0)
                    &&& (e is DatabaseError <==> amount > 0 && old(self).next_pending_id
                        == i32::MAX)
                    &&& (e is InvalidData || e is DatabaseError)
                },
            },
    {
        if amount == 0 {
            return Err(StabuseError::InvalidData(String::from_str(
                "payment amount must be positive",
            )));
        }
        if self.next_pending_id == i32::MAX {
            return Err(StabuseError::DatabaseError(String::from_str(
                "pending payment id space exhausted",
            )));
        }
        let id = self.next_pending_id;
        let row = PendingPayment {
            id,
            merchant_id,
            sender: String::from_str(sender),
            amount,
            asset: String::from_str(asset),
            network: String::from_str(network),
            webhook_url: String::from_str(webhook_url),
            time,
        };
        self.pending.push(row);
        self.next_pending_id = id + 1;
        proof {
            assert(self.pending@.subrange(0, old(self).pending@.len() as int) =~= old(
                self,
            ).pending@);
            assert(self.pending@ =~= old(self).pending@ + seq![self.pending@.last()]);
            lemma_pending_of_fresh_push(old(self).pending@, self.pending@.last(), id);
        }
        Ok(id)
    }

    /// The pending payment with the given id, if it exists.
    pub fn get_pending_payment(&self, id: i32) -> (r: Option<&PendingPayment>)
        ensures
            match r {
                Some(p) => pending_of(self.pending@, id) == Some(*p),
                None => pending_of(self.pending@, id) is None,
            },
    {
        let n = self.pending.len();
        proof {
            assert(self.pending@.skip(0) =~= self.pending@);
        }
        for i in 0..n
            invariant
                pending_of(self.pending@, id) == pending_of(self.pending@.skip(i as int), id),
        {
            proof {
                assert(self.pending@.skip(i as int).drop_first() =~= self.pending@.skip(i + 1));
                assert(self.pending@.skip(i as int).first() == self.pending@[i as int]);
            }
            if self.pending[i].id == id {
                return Some(&self.pending[i]);
            }
        }
        None
    }

    /// Whether a settled payment with this transaction hash exists.
    pub fn payment_exists_by_hash(&self, tx_hash: &str) -> (r: bool)
        ensures
            r == settled_has_hash(self.settled@, tx_hash@),
    {
        let n = self.settled.len();
        for i in 0..n
            invariant
                forall|k: int| 0 <= k < i ==> (#[trigger] self.settled@[k]).tx_hash@ != tx_hash@,
        {
            if crate::text::str_eq(self.settled[i].tx_hash.as_str(), tx_hash) {
                return true;
            }
        }
        false
    }

    /// Settles a pending payment: deletes its row and inserts the settled
    /// row carrying the transaction hash, in one step. Fails with `NotFound`
    /// when the pending row does not exist, and with `DatabaseError` when
    /// the hash is already settled (the uniqueness guard) or the id space is
    /// exhausted; on any failure the store is unchanged.
    pub fn settle_payment(&mut self, pending_payment_id: i32, tx_hash: &str, time: i64) -> (r:
        Result<(i32, String), StabuseError>)
        requires
            old(self).wf(),
        ensures
            final(self).wf(),
            match r {
                Ok(p) => {
                    let row = pending_of(old(self).pending@, pending_payment_id).unwrap();
                    &&& pending_of(old(self).pending@, pending_payment_id) is Some
                    &&& !settled_has_hash(old(self).settled@, tx_hash@)
                    &&& old(self).next_payment_id < i32::MAX
                    &&& p.0 == old(self).next_payment_id
                    &&& p.1@ == row.webhook_url@
                    &&& final(self).pending@ == remove_pending(
                        old(self).pending@,
                        pending_payment_id,
                    )
                    &&& final(self).settled@.len() == old(self).settled@.len() + 1
                    &&& final(self).settled@.subrange(0, old(self).settled@.len() as int) == old(
                        self,
                    ).settled@
                    &&& {
                        let s = final(self).settled@.last();
                        &&& s.id == p.0
                        &&& s.merchant_id == row.merchant_id
                        &&& s.sender@ == row.sender@
                        &&& s.amount == row.amount
                        &&& s.tx_hash@ == tx_hash@
                        &&& s.asset@ == row.asset@
                        &&& s.network@ == row.network@
                        &&& s.time == time
                    }
                    &&& settled_has_hash(final(self).settled@, tx_hash@)
                    &&& pending_of(final(self).pending@, pending_payment_id) is None
                },
                Err(e) => {
                    &&& final(self).pending@ == old(self).pending@
                    &&& final(self).settled@ == old(self).settled@
                    &&& final(self).next_pending_id == old(self).next_pending_id
                    &&& final(self).next_payment_id == old(self).next_payment_id
                    &&& (e is NotFound <==> pending_of(
                        old(self).pending@,
                        pending_payment_id,
                    ) is None)
                    &&& (e is DatabaseError <==> pending_of(
                        old(self).pending@,
                        pending_payment_id,
                    ) is Some && (settled_has_hash(old(self).settled@, tx_hash@) || old(
                        self,
                    ).next_payment_id == i32::MAX))
                    &&& (e is NotFound || e is DatabaseError)
                },
            },
    {
        let n = self.pending.len();
        let mut idx: usize = 0;
        let mut found = false;
        proof {
            assert(self.pending@.skip(0) =~= self.pending@);
        }
        for i in 0..n
            invariant
                !found ==> pending_of(self.pending@, pending_payment_id) == pending_of(
                    self.pending@.skip(i as int),
                    pending_payment_id,
                ),
                !found ==> forall|k: int|
                    0 <= k < i ==> (#[trigger] self.pending@[k]).id != pending_payment_id,
                found ==> idx < i && self.pending@[idx as int].id == pending_payment_id
                    && forall|k: int|
                    0 <= k < idx ==> (#[trigger] self.pending@[k]).id != pending_payment_id,
        {
            proof {
                assert(self.pending@.skip(i as int).drop_first() =~= self.pending@.skip(i + 1));
                assert(self.pending@.skip(i as int).first() == self.pending@[i as int]);
            }
            if !found && self.pending[i].id == pending_payment_id {
                idx = i;
                found = true;
            }
        }
        if !found {
            proof {
                lemma_pending_of_no_match(self.pending@, pending_payment_id);
            }
            return Err(StabuseError::NotFound(String::from_str("pending payment not found")));
        }
        proof {
            lemma_pending_of_at(self.pending@, idx as int, pending_payment_id);
        }
        if self.payment_exists_by_hash(tx_hash) {
            return Err(StabuseError::DatabaseError(String::from_str(
                "duplicate key value violates unique constraint on tx_hash",
            )));
        }
        if self.next_payment_id == i32::MAX {
            return Err(StabuseError::DatabaseError(String::from_str(
                "payment id space exhausted",
            )));
        }
        proof {
            lemma_pending_of_at(self.pending@, idx as int, pending_payment_id);
            lemma_remove_pending_at(self.pending@, idx as int, pending_payment_id);
        }
        let row = self.pending.remove(idx);
        let payment_id = self.next_payment_id;
        let settled_row = Payment {
            id: payment_id,
            merchant_id: row.merchant_id,
            sender: row.sender,
            amount: row.amount,
            tx_hash: String::from_str(tx_hash),
            asset: row.asset,
            network: row.network,
            time,
        };
        self.settled.push(settled_row);
        self.next_payment_id = payment_id + 1;
        let webhook_url = row.webhook_url;
        proof {
            assert(self.settled@.subrange(0, old(self).settled@.len() as int) =~= old(
                self,
            ).settled@);
            lemma_pending_of_removed(old(self).pending@, idx as int, pending_payment_id);
            assert(settled_has_hash(self.settled@, tx_hash@)) by {
                assert(self.settled@[self.settled@.len() - 1].tx_hash@ == tx_hash@);
            }
        }
        Ok((payment_id, webhook_url))
    }
}

/// Copies a pending payment row, field by field.
pub fn clone_pending(p: &PendingPayment) -> (r: PendingPayment)
    ensures
        r.id == p.id,
        r.merchant_id == p.merchant_id,
        r.sender@ == p.sender@,
        r.amount == p.amount,
        r.asset@ == p.asset@,
        r.network@ == p.network@,
        r.webhook_url@ == p.webhook_url@,
        r.time == p.time,
{
    PendingPayment {
        id: p.id,
        merchant_id: p.merchant_id,
        sender: p.sender.clone(),
        amount: p.amount,
        asset: p.asset.clone(),
        network: p.network.clone(),
        webhook_url: p.webhook_url.clone(),
        time: p.time,
    }
}

/// Appending a row whose id was never handed out leaves it findable.
proof fn lemma_pending_of_fresh_push(s: Seq<PendingPayment>, e: PendingPayment, id: i32)
    requires
        forall|k: int| 0 <= k < s.len() ==> (#[trigger] s[k]).id != id,
        e.id == id,
    ensures
        pending_of(s + seq![e], id) == Some(e),
    decreases s.len(),
{
    if s.len() == 0 {
        assert((s + seq![e]).first() == e);
    } else {
        assert((s + seq![e]).first() == s.first());
        assert((s + seq![e]).drop_first() =~= s.drop_first() + seq![e]);
        assert(forall|k: int|
            0 <= k < s.drop_first().len() ==> #[trigger] s.drop_first()[k] == s[k + 1]);
        lemma_pending_of_fresh_push(s.drop_first(), e, id);
    }
}

/// If the first match sits at index `i`, the lookup finds exactly that row.
proof fn lemma_pending_of_at(s: Seq<PendingPayment>, i: int, id: i32)
    requires
        0 <= i < s.len(),
        s[i].id == id,
        forall|k: int| 0 <= k < i ==> (#[trigger] s[k]).id != id,
    ensures
        pending_of(s, id) == Some(s[i]),
    decreases i,
{
    if i == 0 {
        assert(s.first() == s[0]);
    } else {
        assert(s.first() == s[0]);
        assert(forall|k: int|
            0 <= k < s.drop_first().len() ==> #[trigger] s.drop_first()[k] == s[k + 1]);
        lemma_pending_of_at(s.drop_first(), i - 1, id);
    }
}

/// If the first match sits at index `i`, removal by id removes that index.
proof fn lemma_remove_pending_at(s: Seq<PendingPayment>, i: int, id: i32)
    requires
        0 <= i < s.len(),
        s[i].id == id,
        forall|k: int| 0 <= k < i ==> (#[trigger] s[k]).id != id,
    ensures
        remove_pending(s, id) =~= s.remove(i),
    decreases i,
{
    if i == 0 {
        assert(s.first() == s[0]);
        assert(s.remove(0) =~= s.drop_first());
    } else {
        assert(s.first() == s[0]);
        assert(forall|k: int|
            0 <= k < s.drop_first().len() ==> #[trigger] s.drop_first()[k] == s[k + 1]);
        lemma_remove_pending_at(s.drop_first(), i - 1, id);
        assert(s.remove(i) =~= seq![s.first()] + s.drop_first().remove(i - 1));
    }
}

/// After removing the only row with this id, the lookup finds nothing.
proof fn lemma_pending_of_removed(s: Seq<PendingPayment>, i: int, id: i32)
    requires
        0 <= i < s.len(),
        s[i].id == id,
        forall|k: int, j: int| 0 <= k < j < s.len() ==> (#[trigger] s[k]).id != (#[trigger] s[j]).id,
    ensures
        pending_of(s.remove(i), id) is None,
{
    let t = s.remove(i);
    assert(forall|k: int| 0 <= k < i ==> #[trigger] t[k] == s[k]);
    assert(forall|k: int| i <= k < t.len() ==> #[trigger] t[k] == s[k + 1]);
    assert(forall|k: int| 0 <= k < t.len() ==> (#[trigger] t[k]).id != id);
    lemma_pending_of_no_match(t, id);
}

/// A sequence with no matching row yields no pending payment.
proof fn lemma_pending_of_no_match(s: Seq<PendingPayment>, id: i32)
    requires
        forall|k: int| 0 <= k < s.len() ==> (#[trigger] s[k]).id != id,
    ensures
        pending_of(s, id) is None,
    decreases s.len(),
{
    if s.len() > 0 {
        assert(s.first() == s[0]);
        assert(forall|k: int|
            0 <= k < s.drop_first().len() ==> #[trigger] s.drop_first()[k] == s[k + 1]);
        lemma_pending_of_no_match(s.drop_first(), id);
    }
}

} // verus!
