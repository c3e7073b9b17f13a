//! The confirmation pipeline's decisions: which chain family a queue
//! message belongs to, the exact JSON of the published verification
//! message, and what to do with a message once the verifier has spoken —
//! acknowledge exactly once, or reject exactly once for redelivery, and
//! whether a webhook must fire. The queue transport itself lives outside
//! the library; it performs whichever single disposition is decided here.

use vstd::prelude::*;
use crate::errors::StabuseError;
use crate::foreign::lower_of;
use crate::foreign::lowercase;
use crate::foreign::str_contains;
use crate::json::json_string_of;
use crate::json::json_string;
use crate::text::contains_substr;
use crate::text::dec_int_of;
use crate::text::i64_to_dec;
use crate::types::TransactionVerificationMessage;
use crate::types::WebhookPayload;
use crate::webhook::make_webhook_payload;

verus! {

/// The two chain families the engine verifies against.
#[derive(Debug, Clone, Copy, PartialEq, Eq, Structural)]
pub enum ChainFamily {
    Evm,
    Solana,
}

/// A message's chain family: Solana when the lower-cased network tag
/// contains `sol`, the EVM family otherwise.
pub open spec fn network_family_of(network: Seq<char>) -> ChainFamily {
    if contains_substr(lower_of(network), "sol"@) {
        ChainFamily::Solana
    } else {
        ChainFamily::Evm
    }
}

/// Decides which verifier a network tag routes to.
pub fn network_chain_family(network: &str) -> (r: ChainFamily)
    ensures
        r == network_family_of(network@),
{
    let lowered = lowercase(network);
    if str_contains(lowered.as_str(), "sol") {
        ChainFamily::Solana
    } else {
        ChainFamily::Evm
    }
}

/// The exact JSON of a published verification message.
pub open spec fn verification_message_json_of(m: TransactionVerificationMessage) -> Seq<char> {
    "{\"pending_payment_id\":"@ + dec_int_of(m.pending_payment_id as int) + ",\"tx_hash\":"@
        + json_string_of(m.tx_hash@) + ",\"rpc_url\":"@ + json_string_of(m.rpc_url@)
        + ",\"network\":"@ + json_string_of(m.network@) + "}"@
}

/// Renders a verification message as its exact JSON text, field for field
/// in declaration order.
pub fn verification_message_json(m: &TransactionVerificationMessage) -> (r: String)
    ensures
        r@ == verification_message_json_of(*m),
{
    let mut out = String::from_str("{\"pending_payment_id\":");
    let id_text = i64_to_dec(m.pending_payment_id as i64);
    out.append(id_text.as_str());
    out.append(",\"tx_hash\":");
    let hash_text = json_string(m.tx_hash.as_str());
    out.append(hash_text.as_str());
    out.append(",\"rpc_url\":");
    let rpc_text = json_string(m.rpc_url.as_str());
    out.append(rpc_text.as_str());
    out.append(",\"network\":");
    let network_text = json_string(m.network.as_str());
    out.append(network_text.as_str());
    out.append("}");
    out
}

/// What the consumer does with a delivered message: exactly one of the two.
#[derive(Debug, Clone, Copy, PartialEq, Eq, Structural)]
pub enum MessageDisposition {
    /// Acknowledge: the message is done and never redelivered.
    Ack,
    /// Reject: the message goes back to the queue for redelivery.
    Nack,
}

/// The pipeline's decision for one delivered message: the single
/// disposition, and the webhook to fire on settlement.
#[derive(Debug)]
pub struct PipelineOutcome {
    pub disposition: MessageDisposition,
    /// On settlement: the callback address and the payload to post there.
    pub webhook: Option<(String, WebhookPayload)>,
}

/// Decides the fate of a delivered message from the verifier's result:
/// on success, acknowledge and fire the settlement webhook; on a missing
/// pending row, acknowledge without a webhook, since that payment is
/// already settled or never existed and redelivery could never succeed; on
/// every other error, reject so the queue redelivers the whole job, which
/// is safe because a failed verification mutates nothing. Exactly one
/// disposition is decided per message.
pub fn decide_message_outcome(
    result: &Result<(i32, String), StabuseError>,
    tx_hash: &str,
    timestamp: &str,
) -> (r: PipelineOutcome)
    ensures
        result matches Ok(ok) ==> ({
            &&& r.disposition == MessageDisposition::Ack
            &&& r.webhook matches Some(w)
            &&& w.0@ == ok.1@
            &&& w.1.payment_id == ok.0
            &&& w.1.status@ == "completed"@
            &&& w.1.tx_hash@ == tx_hash@
            &&& w.1.timestamp@ == timestamp@
        }),
        result matches Err(e) ==> ({
            &&& r.webhook is None
            &&& r.disposition == (if e is NotFound {
                MessageDisposition::Ack
            } else {
                MessageDisposition::Nack
            })
        }),
{
    match result {
        Ok(ok) => {
            let payload = make_webhook_payload(ok.0, tx_hash, timestamp);
            PipelineOutcome {
                disposition: MessageDisposition::Ack,
                webhook: Some((ok.1.clone(), payload)),
            }
        },
        Err(e) => {
            let terminal = match e {
                StabuseError::NotFound(_) => true,
                _ => false,
            };
            PipelineOutcome {
                disposition: if terminal {
                    MessageDisposition::Ack
                } else {
                    MessageDisposition::Nack
                },
                webhook: None,
            }
        },
    }
}

} // verus!
