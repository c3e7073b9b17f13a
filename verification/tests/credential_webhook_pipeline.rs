use stabuse::credential::generate_admin_claims;
use stabuse::credential::generate_merchant_claims;
use stabuse::credential::generate_payment_claims;
use stabuse::credential::validate_payment_claims;
use stabuse::errors::StabuseError;
use stabuse::json::json_string;
use stabuse::pipeline::decide_message_outcome;
use stabuse::pipeline::network_chain_family;
use stabuse::pipeline::verification_message_json;
use stabuse::pipeline::ChainFamily;
use stabuse::pipeline::MessageDisposition;
use stabuse::text::bytes_to_hex;
use stabuse::types::TransactionVerificationMessage;
use stabuse::webhook::generate_webhook_url;
use stabuse::webhook::make_webhook_payload;
use stabuse::webhook::webhook_payload_json;

#[test]
fn credential_window() {
    // Issued at T: accepted at T+29 minutes, rejected at T+31 minutes.
    let issued_at = 1_700_000_000;
    let claims = generate_payment_claims(42, "https://rpc", "ethereum", issued_at).unwrap();
    assert_eq!(claims.pending_payment_id, 42);
    assert_eq!(claims.iat, issued_at);
    assert_eq!(claims.exp, issued_at + 1800);
    assert!(validate_payment_claims(&claims, issued_at + 29 * 60).is_ok());
    assert!(matches!(
        validate_payment_claims(&claims, issued_at + 31 * 60),
        Err(StabuseError::Unauthorized(_))
    ));
    // The whole lifetime is accepted, one second past it is not.
    assert!(validate_payment_claims(&claims, issued_at + 1800).is_ok());
    assert!(validate_payment_claims(&claims, issued_at + 1801).is_err());
}

#[test]
fn session_credential_lifetimes() {
    let merchant = generate_merchant_claims(9, "alice", 1000).unwrap();
    assert_eq!(merchant.sub, 9);
    assert_eq!(merchant.exp, 1000 + 86400);
    let admin = generate_admin_claims("root@example.org", "root", 1000).unwrap();
    assert_eq!(admin.sub, "root@example.org");
    assert_eq!(admin.exp, 1000 + 7200);
}

#[test]
fn webhook_payload_body_exact() {
    // Settlement of payment 42 under hash 0xabc produces exactly this body.
    let payload = make_webhook_payload(42, "0xabc", "2024-01-01T00:00:00+00:00");
    assert_eq!(
        webhook_payload_json(&payload),
        "{\"payment_id\":42,\"status\":\"completed\",\"tx_hash\":\"0xabc\",\"timestamp\":\"2024-01-01T00:00:00+00:00\"}"
    );
}

#[test]
fn json_string_escaping() {
    assert_eq!(json_string("plain"), "\"plain\"");
    assert_eq!(json_string("a\"b"), "\"a\\\"b\"");
    assert_eq!(json_string("a\\b"), "\"a\\\\b\"");
    assert_eq!(json_string("a\nb\tc"), "\"a\\nb\\tc\"");
    assert_eq!(json_string("\u{1}"), "\"\\u0001\"");
    assert_eq!(json_string(""), "\"\"");
}

#[test]
fn webhook_url_digest() {
    // The address is the base joined with the SHA-256 digest, in hex, of
    // `merchant_id:user:amount:timestamp`; cross-checked against the
    // digest computed directly.
    let url = generate_webhook_url("https://hooks", 7, "0xuser", 500, "t0");
    let digest = <sha2::Sha256 as sha2::Digest>::digest("7:0xuser:500:t0".as_bytes());
    let expected = format!("https://hooks/{}", bytes_to_hex(&digest));
    assert_eq!(url, expected);
}

#[test]
fn chain_family_dispatch() {
    assert_eq!(network_chain_family("solana-devnet"), ChainFamily::Solana);
    assert_eq!(network_chain_family("SOLANA"), ChainFamily::Solana);
    assert_eq!(network_chain_family("ethereum"), ChainFamily::Evm);
    assert_eq!(network_chain_family("polygon"), ChainFamily::Evm);
    assert_eq!(network_chain_family(""), ChainFamily::Evm);
}

#[test]
fn verification_message_body_exact() {
    let m = TransactionVerificationMessage {
        pending_payment_id: 5,
        tx_hash: String::from("0xabc"),
        rpc_url: String::from("https://rpc"),
        network: String::from("ethereum"),
    };
    assert_eq!(
        verification_message_json(&m),
        "{\"pending_payment_id\":5,\"tx_hash\":\"0xabc\",\"rpc_url\":\"https://rpc\",\"network\":\"ethereum\"}"
    );
}

#[test]
fn message_outcomes() {
    // Success: acknowledge and fire the webhook with the exact payload.
    let ok: Result<(i32, String), StabuseError> = Ok((42, String::from("https://hook/abc")));
    let outcome = decide_message_outcome(&ok, "0xabc", "t1");
    assert_eq!(outcome.disposition, MessageDisposition::Ack);
    let (url, payload) = outcome.webhook.unwrap();
    assert_eq!(url, "https://hook/abc");
    assert_eq!(payload.payment_id, 42);
    assert_eq!(payload.status, "completed");
    assert_eq!(payload.tx_hash, "0xabc");
    assert_eq!(payload.timestamp, "t1");

    // A missing pending row is terminal: acknowledged, never redelivered.
    let gone: Result<(i32, String), StabuseError> =
        Err(StabuseError::NotFound(String::from("gone")));
    let outcome = decide_message_outcome(&gone, "0xabc", "t1");
    assert_eq!(outcome.disposition, MessageDisposition::Ack);
    assert!(outcome.webhook.is_none());

    // Every other failure is redelivered.
    let transient: Result<(i32, String), StabuseError> =
        Err(StabuseError::Internal(String::from("rpc down")));
    let outcome = decide_message_outcome(&transient, "0xabc", "t1");
    assert_eq!(outcome.disposition, MessageDisposition::Nack);
    let mismatch: Result<(i32, String), StabuseError> =
        Err(StabuseError::InvalidData(String::from("mismatch")));
    let outcome = decide_message_outcome(&mismatch, "0xabc", "t1");
    assert_eq!(outcome.disposition, MessageDisposition::Nack);
}

#[test]
fn error_retry_classes() {
    assert!(StabuseError::Internal(String::new()).is_retryable());
    assert!(StabuseError::DatabaseError(String::new()).is_retryable());
    assert!(!StabuseError::InvalidData(String::new()).is_retryable());
    assert!(!StabuseError::NotFound(String::new()).is_retryable());
    assert!(!StabuseError::Unauthorized(String::new()).is_retryable());
    assert_eq!(StabuseError::Internal(String::from("x")).reason(), "x");
}

#[test]
fn error_status_codes() {
    assert_eq!(StabuseError::InvalidData(String::new()).http_status(), 400);
    assert_eq!(StabuseError::InvalidAddress(String::new()).http_status(), 400);
    assert_eq!(StabuseError::AssetNotSupported(String::new()).http_status(), 400);
    assert_eq!(StabuseError::Unauthorized(String::new()).http_status(), 401);
    assert_eq!(StabuseError::DatabaseError(String::new()).http_status(), 500);
    assert_eq!(StabuseError::Internal(String::new()).http_status(), 404);
    assert_eq!(StabuseError::NotFound(String::new()).http_status(), 404);
}
