use stabuse::codec::u128_to_be_bytes;
use stabuse::errors::StabuseError;
use stabuse::evm::create_payment_request;
use stabuse::evm::encode_erc20_transfer;
use stabuse::evm::erc20_transfer_event_topic;
use stabuse::evm::erc20_transfer_selector;
use stabuse::evm::scale_amount;
use stabuse::evm::validate_evm_tx_hash;
use stabuse::evm::verify_signed_transaction;
use stabuse::evm::EvmChainData;
use stabuse::evm::EvmLogData;
use stabuse::evm::EvmReceiptData;
use stabuse::evm::EvmTxData;
use stabuse::registry::ChainRegistry;
use stabuse::store::PaymentStore;
use stabuse::text::bytes_to_hex;
use stabuse::types::Network;

const TOKEN: &str = "0xaaaaaaaaaaaaaaaaaaaaaaaaaaaaaaaaaaaaaaaa";
const MERCHANT: &str = "0xbbbbbbbbbbbbbbbbbbbbbbbbbbbbbbbbbbbbbbbb";
const SENDER: &str = "0xcccccccccccccccccccccccccccccccccccccccc";
const TX_HASH: &str = "0x1111111111111111111111111111111111111111111111111111111111111111";

fn setup() -> (PaymentStore, ChainRegistry) {
    let mut reg = ChainRegistry::new();
    reg.add_network(Network {
        chain_id: 1,
        name: String::from("ethereum"),
        explorer: String::new(),
        rpc: String::from("https://rpc.example.org"),
        supported_assets: vec![(String::from("USDC"), String::from(TOKEN))],
    })
    .unwrap();
    reg.update_merchant_network_address(7, 1, MERCHANT).unwrap();
    let mut store = PaymentStore::new();
    store
        .add_pending_payment(7, SENDER, 5, "USDC", "ethereum", "https://hook/abc", 1000)
        .unwrap();
    (store, reg)
}

fn addr_bytes(b: u8) -> Vec<u8> {
    vec![b; 20]
}

fn topic_for(addr: u8) -> Vec<u8> {
    let mut t = vec![0u8; 12];
    t.extend_from_slice(&addr_bytes(addr));
    t
}

fn matching_chain_data(value: u128) -> EvmChainData {
    let selector = erc20_transfer_selector();
    let input = encode_erc20_transfer(&selector, &addr_bytes(0xbb), value);
    EvmChainData {
        tx: EvmTxData { to: Some(addr_bytes(0xaa)), input },
        receipt: EvmReceiptData {
            status: true,
            block_number: Some(100),
            logs: vec![EvmLogData {
                address: addr_bytes(0xaa),
                topics: vec![erc20_transfer_event_topic(), topic_for(0xcc), topic_for(0xbb)],
                data: u128_to_be_bytes(value, 32),
            }],
        },
        current_block: 112,
    }
}

#[test]
fn known_selector_and_topic() {
    // Keccak-256 of the two well-known ERC-20 signatures.
    assert_eq!(bytes_to_hex(&erc20_transfer_selector()), "a9059cbb");
    assert_eq!(
        bytes_to_hex(&erc20_transfer_event_topic()),
        "ddf252ad1be2c89b69c2b068fc378daa952ba7f163c4a11628f55a4df523b3ef"
    );
}

#[test]
fn calldata_encoding_exact() {
    let data = encode_erc20_transfer(&[1, 2, 3, 4], &addr_bytes(0xbb), 0x0506);
    assert_eq!(data.len(), 68);
    assert_eq!(&data[0..4], &[1, 2, 3, 4]);
    assert_eq!(&data[4..16], &[0u8; 12]);
    assert_eq!(&data[16..36], addr_bytes(0xbb).as_slice());
    assert_eq!(&data[36..66], &[0u8; 30]);
    assert_eq!(data[66], 5);
    assert_eq!(data[67], 6);
}

#[test]
fn amount_scaling() {
    assert_eq!(scale_amount(5, 6).unwrap(), 5_000_000);
    assert_eq!(scale_amount(1, 18).unwrap(), 1_000_000_000_000_000_000);
    assert_eq!(scale_amount(0, 18).unwrap(), 0);
    assert_eq!(scale_amount(u64::MAX, 18).unwrap(), u64::MAX as u128 * 10u128.pow(18));
    assert_eq!(scale_amount(4, 38), None);
    assert_eq!(scale_amount(1, 39), None);
}

#[test]
fn tx_hash_shape() {
    assert!(validate_evm_tx_hash(TX_HASH));
    assert!(validate_evm_tx_hash(&TX_HASH[2..]));
    assert!(!validate_evm_tx_hash("0x1234"));
    assert!(!validate_evm_tx_hash(""));
    assert!(!validate_evm_tx_hash(
        "0xzz11111111111111111111111111111111111111111111111111111111111111"
    ));
}

#[test]
fn round_trip_settlement() {
    // A transfer of exactly the pending amount, scaled to USDC's six
    // decimals, with twelve confirmations and a successful receipt,
    // settles the payment: the pending row goes, one settled row comes.
    let (mut store, reg) = setup();
    let chain = matching_chain_data(5_000_000);
    let (payment_id, webhook_url) =
        verify_signed_transaction(&mut store, &reg, 1, 1, TX_HASH, &chain, 2000).unwrap();
    assert_eq!(payment_id, 1);
    assert_eq!(webhook_url, "https://hook/abc");
    assert!(store.get_pending_payment(1).is_none());
    assert_eq!(store.settled.len(), 1);
    assert_eq!(store.settled[0].tx_hash, TX_HASH);
    assert_eq!(store.settled[0].amount, 5);
    assert_eq!(store.settled[0].merchant_id, 7);
}

#[test]
fn duplicate_delivery_settles_once() {
    // The queue may deliver the same verification twice; the second run
    // finds no pending row and fails terminally with no further insert.
    let (mut store, reg) = setup();
    let chain = matching_chain_data(5_000_000);
    verify_signed_transaction(&mut store, &reg, 1, 1, TX_HASH, &chain, 2000).unwrap();
    let second = verify_signed_transaction(&mut store, &reg, 1, 1, TX_HASH, &chain, 2001);
    assert!(matches!(second, Err(StabuseError::NotFound(_))));
    assert_eq!(store.settled.len(), 1);
}

#[test]
fn duplicate_hash_is_refused() {
    // Two different pending payments cannot both settle under one hash.
    let (mut store, reg) = setup();
    store
        .add_pending_payment(7, SENDER, 5, "USDC", "ethereum", "https://hook/def", 1001)
        .unwrap();
    let chain = matching_chain_data(5_000_000);
    verify_signed_transaction(&mut store, &reg, 1, 1, TX_HASH, &chain, 2000).unwrap();
    let second = verify_signed_transaction(&mut store, &reg, 2, 1, TX_HASH, &chain, 2001);
    assert!(matches!(second, Err(StabuseError::DatabaseError(_))));
    assert_eq!(store.settled.len(), 1);
    assert!(store.get_pending_payment(2).is_some());
}

#[test]
fn amount_mismatch_rejected() {
    // The transaction transfers one unit less than requested: rejected
    // with no store mutation.
    let (mut store, reg) = setup();
    let chain = matching_chain_data(4_999_999);
    let r = verify_signed_transaction(&mut store, &reg, 1, 1, TX_HASH, &chain, 2000);
    assert!(matches!(r, Err(StabuseError::InvalidData(_))));
    assert!(store.get_pending_payment(1).is_some());
    assert_eq!(store.settled.len(), 0);
}

#[test]
fn log_sum_mismatch_rejected() {
    // Call data matches but the event logs tell another amount.
    let (mut store, reg) = setup();
    let mut chain = matching_chain_data(5_000_000);
    chain.receipt.logs[0].data = u128_to_be_bytes(4_000_000, 32);
    let r = verify_signed_transaction(&mut store, &reg, 1, 1, TX_HASH, &chain, 2000);
    assert!(matches!(r, Err(StabuseError::InvalidData(_))));
    assert_eq!(store.settled.len(), 0);
}

#[test]
fn split_transfer_logs_sum() {
    // Two matching log entries summing to the expected amount pass the
    // event check.
    let (mut store, reg) = setup();
    let mut chain = matching_chain_data(5_000_000);
    chain.receipt.logs = vec![
        EvmLogData {
            address: addr_bytes(0xaa),
            topics: vec![erc20_transfer_event_topic(), topic_for(0xcc), topic_for(0xbb)],
            data: u128_to_be_bytes(2_000_000, 32),
        },
        EvmLogData {
            address: addr_bytes(0xaa),
            topics: vec![erc20_transfer_event_topic(), topic_for(0xcc), topic_for(0xbb)],
            data: u128_to_be_bytes(3_000_000, 32),
        },
    ];
    assert!(verify_signed_transaction(&mut store, &reg, 1, 1, TX_HASH, &chain, 2000).is_ok());
}

#[test]
fn recipient_mismatch_rejected() {
    // The decoded call targets an address other than the merchant's
    // registered one; rejected at the call-data check even though the
    // event log sum would match.
    let (mut store, reg) = setup();
    let selector = erc20_transfer_selector();
    let mut chain = matching_chain_data(5_000_000);
    chain.tx.input = encode_erc20_transfer(&selector, &addr_bytes(0xdd), 5_000_000);
    let r = verify_signed_transaction(&mut store, &reg, 1, 1, TX_HASH, &chain, 2000);
    assert!(matches!(r, Err(StabuseError::InvalidData(_))));
    assert_eq!(store.settled.len(), 0);
}

#[test]
fn wrong_call_target_rejected() {
    let (mut store, reg) = setup();
    let mut chain = matching_chain_data(5_000_000);
    chain.tx.to = Some(addr_bytes(0xee));
    let r = verify_signed_transaction(&mut store, &reg, 1, 1, TX_HASH, &chain, 2000);
    assert!(matches!(r, Err(StabuseError::InvalidData(_))));
}

#[test]
fn insufficient_confirmations_retryable() {
    // Eleven confirmations when twelve are required: a transient failure,
    // surfaced as retryable so the caller polls again.
    let (mut store, reg) = setup();
    let mut chain = matching_chain_data(5_000_000);
    chain.current_block = 111;
    let r = verify_signed_transaction(&mut store, &reg, 1, 1, TX_HASH, &chain, 2000);
    assert!(matches!(r, Err(StabuseError::Internal(_))));
    assert!(store.get_pending_payment(1).is_some());
}

#[test]
fn failed_execution_rejected() {
    let (mut store, reg) = setup();
    let mut chain = matching_chain_data(5_000_000);
    chain.receipt.status = false;
    let r = verify_signed_transaction(&mut store, &reg, 1, 1, TX_HASH, &chain, 2000);
    assert!(matches!(r, Err(StabuseError::InvalidData(_))));
}

#[test]
fn unknown_pending_payment_is_terminal() {
    let (mut store, reg) = setup();
    let chain = matching_chain_data(5_000_000);
    let r = verify_signed_transaction(&mut store, &reg, 42, 1, TX_HASH, &chain, 2000);
    assert!(matches!(r, Err(StabuseError::NotFound(_))));
}

#[test]
fn malformed_hash_rejected() {
    let (mut store, reg) = setup();
    let chain = matching_chain_data(5_000_000);
    let r = verify_signed_transaction(&mut store, &reg, 1, 1, "0xnothex", &chain, 2000);
    assert!(matches!(r, Err(StabuseError::InvalidData(_))));
}

#[test]
fn unsupported_asset_rejected() {
    let (mut store, mut reg) = setup();
    store
        .add_pending_payment(7, SENDER, 5, "PEPE", "ethereum", "https://hook/x", 1000)
        .unwrap();
    reg.update_merchant_network_address(7, 1, MERCHANT).unwrap();
    let chain = matching_chain_data(5_000_000);
    let r = verify_signed_transaction(&mut store, &reg, 2, 1, TX_HASH, &chain, 2000);
    assert!(matches!(r, Err(StabuseError::AssetNotSupported(_))));
}

#[test]
fn build_payment_request() {
    let (mut store, reg) = setup();
    let (tx, claims, webhook_url) = create_payment_request(
        &mut store,
        &reg,
        7,
        5,
        SENDER,
        "https://rpc.example.org",
        1,
        "USDC",
        0x10,
        21000,
        Some(30_000_000_000),
        "https://hooks.example.org",
        5000,
        "2024-01-01T00:00:00+00:00",
    )
    .unwrap();
    assert_eq!(tx.to, TOKEN);
    assert_eq!(tx.from, SENDER);
    assert_eq!(tx.value, "0x0");
    assert_eq!(tx.nonce, "0x10");
    assert_eq!(tx.chain_id, 1);
    assert_eq!(tx.gas_limit.as_deref(), Some("0x5208"));
    // 30 gwei base fee plus the fixed one-gwei tip.
    assert_eq!(tx.max_fee_per_gas.as_deref(), Some("0x737be7600"));
    assert_eq!(tx.max_priority_fee_per_gas.as_deref(), Some("0x3b9aca00"));
    // The call data is the transfer to the merchant of the raw amount.
    let selector = erc20_transfer_selector();
    let expected = encode_erc20_transfer(&selector, &addr_bytes(0xbb), 5);
    assert_eq!(tx.data, bytes_to_hex(&expected));

    assert_eq!(claims.pending_payment_id, 2);
    assert_eq!(claims.network, "ethereum");
    assert_eq!(claims.rpc, "https://rpc.example.org");
    assert_eq!(claims.iat, 5000);
    assert_eq!(claims.exp, 5000 + 1800);

    let row = store.get_pending_payment(2).unwrap();
    assert_eq!(row.webhook_url, webhook_url);
    assert_eq!(row.amount, 5);

    // An unknown payer address format is refused outright.
    let r = create_payment_request(
        &mut store,
        &reg,
        7,
        5,
        "not-an-address",
        "https://rpc.example.org",
        1,
        "USDC",
        0,
        0,
        None,
        "https://hooks.example.org",
        5000,
        "2024-01-01T00:00:00+00:00",
    );
    assert!(matches!(r, Err(StabuseError::InvalidAddress(_))));
}
