use stabuse::errors::StabuseError;
use stabuse::registry::ChainRegistry;
use stabuse::registry::validate_supported_assets;
use stabuse::registry::validate_supported_networks;
use stabuse::store::PaymentStore;
use stabuse::types::Network;

fn sample_network(chain_id: i64) -> Network {
    Network {
        chain_id,
        name: String::from("ethereum"),
        explorer: String::from("https://example.org"),
        rpc: String::from("https://rpc.example.org"),
        supported_assets: vec![(
            String::from("usdc"),
            String::from("0xaaaaaaaaaaaaaaaaaaaaaaaaaaaaaaaaaaaaaaaa"),
        )],
    }
}

#[test]
fn network_lifecycle() {
    let mut reg = ChainRegistry::new();
    let id = reg.add_network(sample_network(1)).unwrap();
    assert_eq!(id, 1);

    // The ticker was stored upper-case.
    let (name, addr) = reg.get_network_and_asset_address_with_chain_id("USDC", 1).unwrap();
    assert_eq!(name, "ethereum");
    assert_eq!(addr, "0xaaaaaaaaaaaaaaaaaaaaaaaaaaaaaaaaaaaaaaaa");

    assert!(matches!(
        reg.get_network_and_asset_address_with_chain_id("DAI", 1),
        Err(StabuseError::AssetNotSupported(_))
    ));
    assert!(matches!(
        reg.get_network_and_asset_address_with_chain_id("USDC", 2),
        Err(StabuseError::AssetNotSupported(_))
    ));

    // A second configuration of the same chain is refused.
    assert!(matches!(reg.add_network(sample_network(1)), Err(StabuseError::DatabaseError(_))));

    // A malformed asset map is refused.
    let mut bad = sample_network(3);
    bad.supported_assets = vec![(String::from("usdc"), String::from("0xdead"))];
    assert!(matches!(reg.add_network(bad), Err(StabuseError::InvalidData(_))));
}

#[test]
fn merchant_addresses() {
    let mut reg = ChainRegistry::new();
    assert!(matches!(
        reg.get_merchant_network_address(7, 1),
        Err(StabuseError::AssetNotSupported(_))
    ));
    reg.update_merchant_network_address(7, 1, "0xbbbbbbbbbbbbbbbbbbbbbbbbbbbbbbbbbbbbbbbb")
        .unwrap();
    assert_eq!(
        reg.get_merchant_network_address(7, 1).unwrap(),
        "0xbbbbbbbbbbbbbbbbbbbbbbbbbbbbbbbbbbbbbbbb"
    );
    // Replacing the address takes effect.
    reg.update_merchant_network_address(7, 1, "0xcccccccccccccccccccccccccccccccccccccccc")
        .unwrap();
    assert_eq!(
        reg.get_merchant_network_address(7, 1).unwrap(),
        "0xcccccccccccccccccccccccccccccccccccccccc"
    );
    assert!(matches!(
        reg.update_merchant_network_address(7, 1, "bogus"),
        Err(StabuseError::InvalidAddress(_))
    ));
}

#[test]
fn supported_assets_checks() {
    let mut reg = ChainRegistry::new();
    reg.add_network(sample_network(1)).unwrap();
    assert!(validate_supported_assets(&reg, 1, &vec![String::from("usdc")]).is_ok());
    assert!(matches!(
        validate_supported_assets(&reg, 1, &vec![String::from("dai")]),
        Err(StabuseError::AssetNotSupported(_))
    ));
    assert!(validate_supported_networks(&reg, &vec![(1, vec![String::from("USDC")])]).is_ok());
    assert!(matches!(
        validate_supported_networks(&reg, &vec![(2, vec![String::from("USDC")])]),
        Err(StabuseError::AssetNotSupported(_))
    ));
}

#[test]
fn pending_payment_lifecycle() {
    let mut store = PaymentStore::new();
    let id = store
        .add_pending_payment(7, "0xsender", 500, "USDC", "ethereum", "https://hook/abc", 1000)
        .unwrap();
    assert_eq!(id, 1);
    let id2 = store
        .add_pending_payment(8, "0xother", 600, "USDC", "ethereum", "https://hook/def", 1001)
        .unwrap();
    assert_eq!(id2, 2);

    let row = store.get_pending_payment(1).unwrap();
    assert_eq!(row.merchant_id, 7);
    assert_eq!(row.amount, 500);
    assert!(store.get_pending_payment(99).is_none());

    assert!(matches!(
        store.add_pending_payment(7, "0xs", 0, "USDC", "ethereum", "https://hook", 1000),
        Err(StabuseError::InvalidData(_))
    ));
}

#[test]
fn settlement_and_idempotency() {
    let mut store = PaymentStore::new();
    store
        .add_pending_payment(7, "0xsender", 500, "USDC", "ethereum", "https://hook/abc", 1000)
        .unwrap();
    store
        .add_pending_payment(8, "0xother", 600, "USDC", "ethereum", "https://hook/def", 1001)
        .unwrap();

    let (payment_id, webhook_url) = store.settle_payment(1, "0xhash1", 2000).unwrap();
    assert_eq!(payment_id, 1);
    assert_eq!(webhook_url, "https://hook/abc");
    assert!(store.get_pending_payment(1).is_none());
    assert!(store.payment_exists_by_hash("0xhash1"));
    assert!(!store.payment_exists_by_hash("0xhash2"));
    assert_eq!(store.settled.len(), 1);
    assert_eq!(store.settled[0].tx_hash, "0xhash1");
    assert_eq!(store.settled[0].merchant_id, 7);
    assert_eq!(store.settled[0].amount, 500);
    assert_eq!(store.settled[0].time, 2000);

    // Settling the same pending payment again fails: the row is gone.
    assert!(matches!(
        store.settle_payment(1, "0xhash1", 2001),
        Err(StabuseError::NotFound(_))
    ));
    // Settling a different pending payment under the same hash is refused.
    assert!(matches!(
        store.settle_payment(2, "0xhash1", 2002),
        Err(StabuseError::DatabaseError(_))
    ));
    // The second row is still pending and settles under a fresh hash.
    let (payment_id2, _) = store.settle_payment(2, "0xhash2", 2003).unwrap();
    assert_eq!(payment_id2, 2);
    assert_eq!(store.settled.len(), 2);
}
