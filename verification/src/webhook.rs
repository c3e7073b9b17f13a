//! Webhook notification: the settlement payload body, rendered exactly, and
//! the merchant's callback address, derived from a digest over the payment's
//! identifying data so that it cannot be guessed. Delivery itself is plain
//! HTTP and happens outside the library.

use vstd::prelude::*;
use vstd::utf8::encode_utf8;
use crate::errors::StabuseError;
use crate::foreign::sha256;
use crate::foreign::sha256_of;
use crate::json::json_string_of;
use crate::json::json_string;
use crate::text::dec_int_of;
use crate::text::dec_of;
use crate::text::hex_bytes_of;
use crate::text::i64_to_dec;
use crate::text::u64_to_dec;
use crate::text::bytes_to_hex;
use crate::types::WebhookPayload;

verus! {

/// The exact JSON body announcing one settled payment.
pub open spec fn webhook_payload_json_of(p: WebhookPayload) -> Seq<char> {
    "{\"payment_id\":"@ + dec_int_of(p.payment_id as int) + ",\"status\":"@ + json_string_of(
        p.status@,
    ) + ",\"tx_hash\":"@ + json_string_of(p.tx_hash@) + ",\"timestamp\":"@ + json_string_of(
        p.timestamp@,
    ) + "}"@
}

/// Builds the payload announcing a settled payment: its id, the fixed
/// status `completed`, the transaction hash and the settlement timestamp.
pub fn make_webhook_payload(payment_id: i32, tx_hash: &str, timestamp: &str) -> (r:
    WebhookPayload)
    ensures
        r.payment_id == payment_id,
        r.status@ == "completed"@,
        r.tx_hash@ == tx_hash@,
        r.timestamp@ == timestamp@,
{
    WebhookPayload {
        payment_id,
        status: String::from_str("completed"),
        tx_hash: String::from_str(tx_hash),
        timestamp: String::from_str(timestamp),
    }
}

/// Renders the webhook body as its exact JSON text.
pub fn webhook_payload_json(p: &WebhookPayload) -> (r: String)
    ensures
        r@ == webhook_payload_json_of(*p),
{
    let mut out = String::from_str("{\"payment_id\":");
    let id_text = i64_to_dec(p.payment_id as i64);
    out.append(id_text.as_str());
    out.append(",\"status\":");
    let status_text = json_string(p.status.as_str());
    out.append(status_text.as_str());
    out.append(",\"tx_hash\":");
    let hash_text = json_string(p.tx_hash.as_str());
    out.append(hash_text.as_str());
    out.append(",\"timestamp\":");
    let ts_text = json_string(p.timestamp.as_str());
    out.append(ts_text.as_str());
    out.append("}");
    out
}

/// The digest input that identifies one payment for its callback address.
pub open spec fn webhook_data_of(
    merchant_id: int,
    user_address: Seq<char>,
    amount: nat,
    timestamp: Seq<char>,
) -> Seq<char> {
    dec_int_of(merchant_id) + ":"@ + user_address + ":"@ + dec_of(amount) + ":"@ + timestamp
}

/// The callback address: the base joined with the hex digest of the data.
pub open spec fn webhook_url_of(
    base: Seq<char>,
    merchant_id: int,
    user_address: Seq<char>,
    amount: nat,
    timestamp: Seq<char>,
) -> Seq<char> {
    base + "/"@ + hex_bytes_of(
        sha256_of(encode_utf8(webhook_data_of(merchant_id, user_address, amount, timestamp))),
    )
}

/// Derives the merchant's callback address for one payment: the base
/// address joined with the SHA-256 digest, in hexadecimal, of the merchant
/// id, payer address, amount and timestamp.
pub fn generate_webhook_url(
    base: &str,
    merchant_id: i32,
    user_address: &str,
    amount: u64,
    timestamp: &str,
) -> (r: String)
    ensures
        r@ == webhook_url_of(base@, merchant_id as int, user_address@, amount as nat, timestamp@),
{
    let mut data = i64_to_dec(merchant_id as i64);
    data.append(":");
    data.append(user_address);
    data.append(":");
    let amount_text = u64_to_dec(amount);
    data.append(amount_text.as_str());
    data.append(":");
    data.append(timestamp);
    let digest = sha256(data.as_str().as_bytes());
    let digest_hex = bytes_to_hex(digest.as_slice());
    let mut url = String::from_str(base);
    url.append("/");
    url.append(digest_hex.as_str());
    url
}

/// Derives the callback address at the current instant, handing back the
/// address together with the timestamp that went into it.
pub fn generate_webhook_url_now(
    base: &str,
    merchant_id: i32,
    user_address: &str,
    amount: u64,
) -> (r: (String, String))
    ensures
        r.0@ == webhook_url_of(
            base@,
            merchant_id as int,
            user_address@,
            amount as nat,
            r.1@,
        ),
{
    let now = crate::foreign::current_utc();
    let url = generate_webhook_url(base, merchant_id, user_address, amount, now.1.as_str());
    (url, now.1)
}

} // verus!
