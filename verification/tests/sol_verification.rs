use stabuse::codec::u64_to_le_bytes;
use stabuse::errors::StabuseError;
use stabuse::foreign::derive_associated_token_address;
use stabuse::foreign::parse_pubkey;
use stabuse::foreign::spl_token_program_id;
use stabuse::registry::ChainRegistry;
use stabuse::sol::create_payment_transaction;
use stabuse::sol::find_transfer_instruction;
use stabuse::sol::verify_sol_signed_transaction;
use stabuse::sol::SolChainData;
use stabuse::sol::SolInstructionData;
use stabuse::sol::SolMessageData;
use stabuse::sol::SolTransactionData;
use stabuse::store::PaymentStore;


// Valid base58 strings of 32 characters; they decode to distinct 32-byte keys.
const PAYER: &str = "11111111111111111111111111111112";
const MERCHANT: &str = "11111111111111111111111111111113";
const MINT: &str = "11111111111111111111111111111114";
const RPC: &str = "https://api.devnet.solana.com";
const SIGNATURE: &str = "5SignatureSignatureSignatureSignatureSignatureSignature111111111";

fn setup() -> (PaymentStore, ChainRegistry) {
    let mut reg = ChainRegistry::new();
    // The administrative asset-map shape check expects EVM-style contract
    // addresses, so a Solana network entry with its base58 mint is placed
    // directly.
    reg.networks.push(stabuse::registry::NetworkEntry {
        chain_id: 102,
        name: String::from("solana-devnet"),
        rpc: String::from(RPC),
        assets: vec![(String::from("USDC"), String::from(MINT))],
    });
    let mut store = PaymentStore::new();
    store
        .add_pending_payment(7, PAYER, 250, "USDC", "solana-devnet", "https://hook/sol", 1000)
        .unwrap();
    (store, reg)
}

fn merchant_registered(reg: &mut ChainRegistry) {
    // Solana addresses do not pass the EVM shape check, so place the
    // merchant entry directly.
    reg.merchant_addresses.push(stabuse::registry::MerchantNetworkAddress {
        merchant_id: 7,
        chain_id: 102,
        address: String::from(MERCHANT),
    });
}

fn matching_message(amount: u64, decimals: u8) -> SolMessageData {
    let payer = parse_pubkey(PAYER).unwrap();
    let merchant = parse_pubkey(MERCHANT).unwrap();
    let mint = parse_pubkey(MINT).unwrap();
    let payer_ata = derive_associated_token_address(&payer, &mint);
    let merchant_ata = derive_associated_token_address(&merchant, &mint);
    let mut data = vec![12u8];
    data.extend_from_slice(&u64_to_le_bytes(amount, 8));
    data.push(decimals);
    SolMessageData {
        account_keys: vec![payer_ata, mint, merchant_ata, payer, spl_token_program_id()],
        instructions: vec![SolInstructionData {
            program_id_index: 4,
            accounts: vec![0, 1, 2, 3],
            data,
        }],
    }
}

fn chain_data(msg: SolMessageData, slot: u64, current_slot: u64) -> SolChainData {
    SolChainData {
        transaction: SolTransactionData { slot, meta_status_ok: Some(true), message: msg },
        current_slot,
    }
}

#[test]
fn associated_token_accounts_are_derived() {
    // The derivation must produce a fresh program-derived key, not echo
    // its inputs, and must be deterministic.
    let payer = parse_pubkey(PAYER).unwrap();
    let mint = parse_pubkey(MINT).unwrap();
    let ata = derive_associated_token_address(&payer, &mint);
    assert_eq!(ata.len(), 32);
    assert_ne!(ata, payer);
    assert_ne!(ata, mint);
    assert_eq!(ata, derive_associated_token_address(&payer, &mint));
    let merchant = parse_pubkey(MERCHANT).unwrap();
    assert_ne!(ata, derive_associated_token_address(&merchant, &mint));
}

#[test]
fn pubkey_parsing() {
    assert_eq!(parse_pubkey(PAYER).unwrap().len(), 32);
    assert!(parse_pubkey("not base58 !!!").is_none());
    assert!(parse_pubkey("").is_none());
    // The SPL token program id is the well-known constant.
    let spl = spl_token_program_id();
    assert_eq!(
        parse_pubkey("TokenkegQfeZyiNwAJbNbGKPFXCWuBvf9Ss623VQ5DA").unwrap(),
        spl
    );
}

#[test]
fn instruction_search() {
    let payer = parse_pubkey(PAYER).unwrap();
    let merchant = parse_pubkey(MERCHANT).unwrap();
    let mint = parse_pubkey(MINT).unwrap();
    let payer_ata = derive_associated_token_address(&payer, &mint);
    let merchant_ata = derive_associated_token_address(&merchant, &mint);
    let msg = matching_message(250, 6);
    assert!(find_transfer_instruction(&msg, &payer_ata, &mint, &merchant_ata, &payer, 250, 6));
    // A different amount, decimals or account does not match.
    assert!(!find_transfer_instruction(&msg, &payer_ata, &mint, &merchant_ata, &payer, 251, 6));
    assert!(!find_transfer_instruction(&msg, &payer_ata, &mint, &merchant_ata, &payer, 250, 9));
    assert!(!find_transfer_instruction(&msg, &merchant_ata, &mint, &payer_ata, &payer, 250, 6));
}

#[test]
fn sol_round_trip_settlement() {
    let (mut store, mut reg) = setup();
    merchant_registered(&mut reg);
    let chain = chain_data(matching_message(250, 6), 100, 112);
    let (payment_id, webhook_url) =
        verify_sol_signed_transaction(&mut store, &reg, 1, RPC, SIGNATURE, &chain, 2000).unwrap();
    assert_eq!(payment_id, 1);
    assert_eq!(webhook_url, "https://hook/sol");
    assert!(store.get_pending_payment(1).is_none());
    assert_eq!(store.settled.len(), 1);
    assert_eq!(store.settled[0].tx_hash, SIGNATURE);
    assert_eq!(store.settled[0].amount, 250);
}

#[test]
fn eleven_confirmations_rejected_immediately() {
    // Eleven slots of depth when twelve are required: immediate
    // `InvalidData`, no polling, no store mutation.
    let (mut store, mut reg) = setup();
    merchant_registered(&mut reg);
    let chain = chain_data(matching_message(250, 6), 100, 111);
    let r = verify_sol_signed_transaction(&mut store, &reg, 1, RPC, SIGNATURE, &chain, 2000);
    assert!(matches!(r, Err(StabuseError::InvalidData(_))));
    assert!(store.get_pending_payment(1).is_some());
    assert_eq!(store.settled.len(), 0);
}

#[test]
fn sol_amount_mismatch_rejected() {
    let (mut store, mut reg) = setup();
    merchant_registered(&mut reg);
    let chain = chain_data(matching_message(249, 6), 100, 112);
    let r = verify_sol_signed_transaction(&mut store, &reg, 1, RPC, SIGNATURE, &chain, 2000);
    assert!(matches!(r, Err(StabuseError::InvalidData(_))));
    assert_eq!(store.settled.len(), 0);
}

#[test]
fn sol_recipient_mismatch_rejected() {
    // The instruction's destination account is not the merchant's
    // associated token account.
    let (mut store, mut reg) = setup();
    merchant_registered(&mut reg);
    let mut msg = matching_message(250, 6);
    msg.instructions[0].accounts = vec![0, 1, 0, 3];
    let chain = chain_data(msg, 100, 112);
    let r = verify_sol_signed_transaction(&mut store, &reg, 1, RPC, SIGNATURE, &chain, 2000);
    assert!(matches!(r, Err(StabuseError::InvalidData(_))));
    assert_eq!(store.settled.len(), 0);
}

#[test]
fn sol_failed_execution_rejected() {
    let (mut store, mut reg) = setup();
    merchant_registered(&mut reg);
    let mut chain = chain_data(matching_message(250, 6), 100, 112);
    chain.transaction.meta_status_ok = Some(false);
    let r = verify_sol_signed_transaction(&mut store, &reg, 1, RPC, SIGNATURE, &chain, 2000);
    assert!(matches!(r, Err(StabuseError::InvalidData(_))));
    chain.transaction.meta_status_ok = None;
    let r2 = verify_sol_signed_transaction(&mut store, &reg, 1, RPC, SIGNATURE, &chain, 2000);
    assert!(matches!(r2, Err(StabuseError::InvalidData(_))));
}

#[test]
fn sol_duplicate_delivery_settles_once() {
    let (mut store, mut reg) = setup();
    merchant_registered(&mut reg);
    let chain = chain_data(matching_message(250, 6), 100, 112);
    verify_sol_signed_transaction(&mut store, &reg, 1, RPC, SIGNATURE, &chain, 2000).unwrap();
    let second = verify_sol_signed_transaction(&mut store, &reg, 1, RPC, SIGNATURE, &chain, 2001);
    assert!(matches!(second, Err(StabuseError::NotFound(_))));
    assert_eq!(store.settled.len(), 1);
}

#[test]
fn sol_unknown_rpc_rejected() {
    let (mut store, mut reg) = setup();
    merchant_registered(&mut reg);
    let chain = chain_data(matching_message(250, 6), 100, 112);
    let r = verify_sol_signed_transaction(
        &mut store,
        &reg,
        1,
        "https://example.org",
        SIGNATURE,
        &chain,
        2000,
    );
    assert!(matches!(r, Err(StabuseError::InvalidData(_))));
}

fn mint_account_data(decimals: u8) -> Vec<u8> {
    let mut data = vec![0u8; 82];
    data[44] = decimals;
    data[45] = 1;
    data
}

#[test]
fn build_sol_payment_transaction() {
    let (mut store, mut reg) = setup();
    merchant_registered(&mut reg);
    let (instruction, claims, webhook_url) = create_payment_transaction(
        &mut store,
        &reg,
        RPC,
        PAYER,
        7,
        "USDC",
        250,
        &mint_account_data(6),
        "https://hooks.example.org",
        5000,
        "2024-01-01T00:00:00+00:00",
    )
    .unwrap();
    assert_eq!(instruction.program_id, spl_token_program_id());
    assert_eq!(instruction.accounts.len(), 4);
    let payer = parse_pubkey(PAYER).unwrap();
    let merchant = parse_pubkey(MERCHANT).unwrap();
    let mint = parse_pubkey(MINT).unwrap();
    let payer_ata = derive_associated_token_address(&payer, &mint);
    let merchant_ata = derive_associated_token_address(&merchant, &mint);
    assert_eq!(instruction.accounts[0], (payer_ata, false, true));
    assert_eq!(instruction.accounts[1], (mint, false, false));
    assert_eq!(instruction.accounts[2], (merchant_ata, false, true));
    assert_eq!(instruction.accounts[3], (payer, true, false));
    let mut expected_data = vec![12u8];
    expected_data.extend_from_slice(&u64_to_le_bytes(250, 8));
    expected_data.push(6);
    assert_eq!(instruction.data, expected_data);

    assert_eq!(claims.pending_payment_id, 2);
    assert_eq!(claims.network, "solana-devnet");
    assert_eq!(claims.exp, 5000 + 1800);
    let row = store.get_pending_payment(2).unwrap();
    assert_eq!(row.webhook_url, webhook_url);

    // A built transaction verifies against its own pending row once the
    // decoded message carries exactly that instruction.
    let msg = SolMessageData {
        account_keys: vec![
            instruction.accounts[0].0.clone(),
            instruction.accounts[1].0.clone(),
            instruction.accounts[2].0.clone(),
            instruction.accounts[3].0.clone(),
            instruction.program_id.clone(),
        ],
        instructions: vec![SolInstructionData {
            program_id_index: 4,
            accounts: vec![0, 1, 2, 3],
            data: instruction.data.clone(),
        }],
    };
    let chain = chain_data(msg, 50, 70);
    let (payment_id, _) =
        verify_sol_signed_transaction(&mut store, &reg, 2, RPC, "sig-of-built-tx", &chain, 6000)
            .unwrap();
    assert_eq!(payment_id, 1);
}

#[test]
fn malformed_mint_account_rejected() {
    let (mut store, mut reg) = setup();
    merchant_registered(&mut reg);
    let mut bad = mint_account_data(6);
    bad[45] = 0; // not initialized
    let r = create_payment_transaction(
        &mut store,
        &reg,
        RPC,
        PAYER,
        7,
        "USDC",
        250,
        &bad,
        "https://hooks.example.org",
        5000,
        "2024-01-01T00:00:00+00:00",
    );
    assert!(matches!(r, Err(StabuseError::InvalidData(_))));
    let r2 = create_payment_transaction(
        &mut store,
        &reg,
        RPC,
        PAYER,
        7,
        "USDC",
        250,
        &[1, 2, 3],
        "https://hooks.example.org",
        5000,
        "2024-01-01T00:00:00+00:00",
    );
    assert!(matches!(r2, Err(StabuseError::InvalidData(_))));
}
