//! The Solana verification path: the decoded transaction model, the search
//! for an SPL-token transfer-checked instruction whose account references,
//! amount and decimals match the pending payment, and the builder that
//! prepares such an instruction for the client to sign.

use vstd::prelude::*;
use crate::codec::le_val_of;
use crate::errors::StabuseError;
use crate::foreign::ata_of;
use crate::foreign::derive_associated_token_address;
use crate::foreign::pubkey_parse;
use crate::foreign::parse_pubkey;
use crate::foreign::spl_token_id_bytes;
use crate::foreign::spl_token_program_id;
use crate::foreign::unpack_transfer_checked;
use crate::registry::ChainRegistry;
use crate::registry::network_and_asset_of;
use crate::registry::merchant_address_of;
use crate::store::PaymentStore;
use crate::store::PendingPayment;
use crate::store::pending_of;
use crate::store::settled_has_hash;
use crate::store::remove_pending;
use crate::utils::get_token_decimals;
use crate::utils::token_decimals_of;
use crate::utils::get_solana_network_identifier;
use crate::utils::solana_network_id_of;

verus! {

/// How many slots must lie on top of a transaction before it counts.
pub const REQUIRED_CONFIRMATIONS: u64 = 12;

/// One compiled instruction of a decoded Solana message: its program and
/// account references are indices into the message's account keys.
#[derive(Debug, Clone)]
pub struct SolInstructionData {
    pub program_id_index: u8,
    pub accounts: Vec<u8>,
    pub data: Vec<u8>,
}

/// A decoded Solana message: the account keys and the instruction list.
#[derive(Debug, Clone)]
pub struct SolMessageData {
    /// The referenced account addresses, 32 bytes each on a real chain.
    pub account_keys: Vec<Vec<u8>>,
    pub instructions: Vec<SolInstructionData>,
}

/// A fetched Solana transaction: its slot, the execution status carried by
/// its metadata, if any, and the decoded message.
#[derive(Debug, Clone)]
pub struct SolTransactionData {
    pub slot: u64,
    /// `None` when the response carries no metadata; otherwise whether
    /// execution succeeded.
    pub meta_status_ok: Option<bool>,
    pub message: SolMessageData,
}

/// Everything the verifier reads from the chain about one transaction.
#[derive(Debug, Clone)]
pub struct SolChainData {
    pub transaction: SolTransactionData,
    pub current_slot: u64,
}

/// An unsigned transfer-checked instruction handed back to the client:
/// the program address, the account list with signer and writable flags,
/// and the instruction data.
#[derive(Debug, Clone)]
pub struct SolTransferInstruction {
    pub program_id: Vec<u8>,
    pub accounts: Vec<(Vec<u8>, bool, bool)>,
    pub data: Vec<u8>,
}

/// Whether an account reference points at the expected address.
pub open spec fn account_ref_is(msg: SolMessageData, idx: u8, expected: Seq<u8>) -> bool {
    (idx as int) < msg.account_keys@.len() && msg.account_keys@[idx as int]@ == expected
}

/// Whether one instruction is an SPL-token transfer-checked instruction
/// whose four account references are exactly the payer's token account, the
/// mint, the merchant's token account and the payer authority, and whose
/// amount and decimals are the expected ones.
pub open spec fn sol_instruction_matches(
    msg: SolMessageData,
    ix: SolInstructionData,
    payer_token_account: Seq<u8>,
    mint: Seq<u8>,
    merchant_token_account: Seq<u8>,
    payer: Seq<u8>,
    amount: u64,
    decimals: u8,
) -> bool {
    &&& account_ref_is(msg, ix.program_id_index, spl_token_id_bytes())
    &&& ix.data@.len() >= 10
    &&& ix.data@[0] == 12
    &&& le_val_of(ix.data@.subrange(1, 9)) == amount as nat
    &&& ix.data@[9] == decimals
    &&& ix.accounts@.len() >= 4
    &&& account_ref_is(msg, ix.accounts@[0], payer_token_account)
    &&& account_ref_is(msg, ix.accounts@[1], mint)
    &&& account_ref_is(msg, ix.accounts@[2], merchant_token_account)
    &&& account_ref_is(msg, ix.accounts@[3], payer)
}

/// Whether some instruction of the message matches the expected transfer.
pub open spec fn sol_transfer_found(
    msg: SolMessageData,
    payer_token_account: Seq<u8>,
    mint: Seq<u8>,
    merchant_token_account: Seq<u8>,
    payer: Seq<u8>,
    amount: u64,
    decimals: u8,
) -> bool {
    exists|i: int|
        0 <= i < msg.instructions@.len() && sol_instruction_matches(
            msg,
            #[trigger] msg.instructions@[i],
            payer_token_account,
            mint,
            merchant_token_account,
            payer,
            amount,
            decimals,
        )
}

/// The decimals the verifier expects for an asset: the configured table
/// value, or zero for an unknown ticker.
pub open spec fn sol_expected_decimals(asset: Seq<char>) -> u8 {
    match token_decimals_of(asset) {
        Some(d) => d,
        None => 0u8,
    }
}

/// The confirmation depth of a transaction in slots, never negative.
pub open spec fn slot_depth(current: u64, slot: u64) -> u64 {
    if current >= slot {
        (current - slot) as u64
    } else {
        0u64
    }
}

/// Searches the decoded message for a transfer-checked instruction with
/// exactly the expected accounts, amount and decimals.
pub fn find_transfer_instruction(
    msg: &SolMessageData,
    payer_token_account: &[u8],
    mint: &[u8],
    merchant_token_account: &[u8],
    payer: &[u8],
    amount: u64,
    decimals: u8,
) -> (r: bool)
    ensures
        r == sol_transfer_found(
            *msg,
            payer_token_account@,
            mint@,
            merchant_token_account@,
            payer@,
            amount,
            decimals,
        ),
{
    let token_program = spl_token_program_id();
    let n = msg.instructions.len();
    for i in 0..n
        invariant
            forall|k: int|
                0 <= k < i ==> !sol_instruction_matches(
                    *msg,
                    #[trigger] msg.instructions@[k],
                    payer_token_account@,
                    mint@,
                    merchant_token_account@,
                    payer@,
                    amount,
                    decimals,
                ),
    {
        if instruction_matches(
            msg,
            i,
            token_program.as_slice(),
            payer_token_account,
            mint,
            merchant_token_account,
            payer,
            amount,
            decimals,
        ) {
            return true;
        }
    }
    false
}

/// Decides whether the instruction at `i` matches the expected transfer.
fn instruction_matches(
    msg: &SolMessageData,
    i: usize,
    token_program: &[u8],
    payer_token_account: &[u8],
    mint: &[u8],
    merchant_token_account: &[u8],
    payer: &[u8],
    amount: u64,
    decimals: u8,
) -> (r: bool)
    requires
        i < msg.instructions@.len(),
        token_program@ == spl_token_id_bytes(),
    ensures
        r == sol_instruction_matches(
            *msg,
            msg.instructions@[i as int],
            payer_token_account@,
            mint@,
            merchant_token_account@,
            payer@,
            amount,
            decimals,
        ),
{
    let ix = &msg.instructions[i];
    if !account_index_is(msg, ix.program_id_index, token_program) {
        return false;
    }
    let unpacked = unpack_transfer_checked(ix.data.as_slice());
    let ok = match unpacked {
        Some(p) => p.0 == amount && p.1 == decimals,
        None => false,
    };
    if !ok {
        return false;
    }
    if ix.accounts.len() < 4 {
        return false;
    }
    account_index_is(msg, ix.accounts[0], payer_token_account) && account_index_is(
        msg,
        ix.accounts[1],
        mint,
    ) && account_index_is(msg, ix.accounts[2], merchant_token_account) && account_index_is(
        msg,
        ix.accounts[3],
        payer,
    )
}

/// Decides whether an account reference points at the expected address.
fn account_index_is(msg: &SolMessageData, idx: u8, expected: &[u8]) -> (r: bool)
    ensures
        r == account_ref_is(*msg, idx, expected@),
{
    let i = idx as usize;
    if i >= msg.account_keys.len() {
        return false;
    }
    crate::codec::bytes_eq(msg.account_keys[i].as_slice(), expected)
}

/// Every check of the Solana verification path, short of the store itself:
/// the RPC endpoint names a known network, the registry resolves the mint
/// and the merchant, the transaction is deep enough and executed, all
/// addresses parse, and the message carries the matching transfer-checked
/// instruction.
pub open spec fn sol_checks_pass(
    reg: ChainRegistry,
    p: PendingPayment,
    rpc_url: Seq<char>,
    chain: SolChainData,
) -> bool {
    let cid = solana_network_id_of(rpc_url);
    let na = network_and_asset_of(reg, p.asset@, cid.unwrap());
    let ms = merchant_address_of(reg.merchant_addresses@, p.merchant_id, cid.unwrap());
    let payer = pubkey_parse(p.sender@);
    let mint = pubkey_parse(na.unwrap().1);
    let merchant = pubkey_parse(ms.unwrap());
    &&& cid is Some
    &&& na is Some
    &&& slot_depth(chain.current_slot, chain.transaction.slot) >= REQUIRED_CONFIRMATIONS
    &&& chain.transaction.meta_status_ok == Some(true)
    &&& payer is Some
    &&& ms is Some
    &&& mint is Some
    &&& merchant is Some
    &&& sol_transfer_found(
        chain.transaction.message,
        ata_of(payer.unwrap(), mint.unwrap()),
        mint.unwrap(),
        ata_of(merchant.unwrap(), mint.unwrap()),
        payer.unwrap(),
        p.amount,
        sol_expected_decimals(p.asset@),
    )
}

/// Verifies a submitted Solana transaction against the pending payment it
/// claims to settle, and on success performs the settlement in one step.
/// A transaction fewer than `REQUIRED_CONFIRMATIONS` slots deep is rejected
/// at once as `InvalidData`; there is no waiting. Succeeds exactly when the
/// pending row exists, every check of [`sol_checks_pass`] holds, the hash
/// was never settled before and the store can hand out another id. On
/// failure the store is unchanged and the error names the first check that
/// failed, in the order the checks run.
pub fn verify_sol_signed_transaction(
    store: &mut PaymentStore,
    registry: &ChainRegistry,
    pending_payment_id: i32,
    rpc_url: &str,
    tx_hash: &str,
    chain: &SolChainData,
    settle_time: i64,
) -> (r: Result<(i32, String), StabuseError>)
    requires
        old(store).wf(),
    ensures
        final(store).wf(),
        (r is Ok <==> ({
            let pend = pending_of(old(store).pending@, pending_payment_id);
            &&& pend is Some
            &&& sol_checks_pass(*registry, pend.unwrap(), rpc_url@, *chain)
            &&& !settled_has_hash(old(store).settled@, tx_hash@)
            &&& old(store).next_payment_id < i32::MAX
        })),
        r matches Ok(ok) ==> ({
            let p = pending_of(old(store).pending@, pending_payment_id).unwrap();
            &&& ok.0 == old(store).next_payment_id
            &&& ok.1@ == p.webhook_url@
            &&& final(store).pending@ == remove_pending(old(store).pending@, pending_payment_id)
            &&& final(store).settled@.len() == old(store).settled@.len() + 1
            &&& final(store).settled@.subrange(0, old(store).settled@.len() as int) == old(
                store,
            ).settled@
            &&& {
                let s = final(store).settled@.last();
                &&& s.id == ok.0
                &&& s.merchant_id == p.merchant_id
                &&& s.sender@ == p.sender@
                &&& s.amount == p.amount
                &&& s.tx_hash@ == tx_hash@
                &&& s.asset@ == p.asset@
                &&& s.network@ == p.network@
                &&& s.time == settle_time
            }
            &&& settled_has_hash(final(store).settled@, tx_hash@)
            &&& pending_of(final(store).pending@, pending_payment_id) is None
        }),
        r matches Err(e) ==> ({
            let pend = pending_of(old(store).pending@, pending_payment_id);
            &&& final(store).pending@ == old(store).pending@
            &&& final(store).settled@ == old(store).settled@
            &&& if pend is None {
                e is NotFound
            } else {
                let p = pend.unwrap();
                let cid = solana_network_id_of(rpc_url@);
                let na = network_and_asset_of(*registry, p.asset@, cid.unwrap());
                let ms = merchant_address_of(
                    registry.merchant_addresses@,
                    p.merchant_id,
                    cid.unwrap(),
                );
                if cid is None {
                    e is InvalidData
                } else if na is None {
                    e is AssetNotSupported
                } else if slot_depth(chain.current_slot, chain.transaction.slot)
                    < REQUIRED_CONFIRMATIONS {
                    e is InvalidData
                } else if chain.transaction.meta_status_ok is None {
                    e is InvalidData
                } else if chain.transaction.meta_status_ok == Some(false) {
                    e is InvalidData
                } else if ms is None {
                    e is Internal
                } else if pubkey_parse(na.unwrap().1) is None {
                    e is Internal
                } else if pubkey_parse(ms.unwrap()) is None {
                    e is Internal
                } else if pubkey_parse(p.sender@) is None {
                    e is Internal
                } else if !sol_transfer_found(
                    chain.transaction.message,
                    ata_of(pubkey_parse(p.sender@).unwrap(), pubkey_parse(na.unwrap().1).unwrap()),
                    pubkey_parse(na.unwrap().1).unwrap(),
                    ata_of(pubkey_parse(ms.unwrap()).unwrap(), pubkey_parse(na.unwrap().1).unwrap()),
                    pubkey_parse(p.sender@).unwrap(),
                    p.amount,
                    sol_expected_decimals(p.asset@),
                ) {
                    e is InvalidData
                } else {
                    e is DatabaseError
                }
            }
        }),
{
    let pending = match store.get_pending_payment(pending_payment_id) {
        Some(p) => crate::store::clone_pending(p),
        None => {
            return Err(StabuseError::NotFound(String::from_str("pending payment not found")));
        },
    };
    let chain_id = match get_solana_network_identifier(rpc_url) {
        Ok(id) => id,
        Err(e) => {
            return Err(e);
        },
    };
    let resolved = match registry.get_network_and_asset_address_with_chain_id(
        pending.asset.as_str(),
        chain_id,
    ) {
        Ok(p) => p,
        Err(e) => {
            return Err(e);
        },
    };
    let token_mint = resolved.1;
    let confirmations: u64 = if chain.current_slot >= chain.transaction.slot {
        chain.current_slot - chain.transaction.slot
    } else {
        0
    };
    if confirmations < REQUIRED_CONFIRMATIONS {
        return Err(StabuseError::InvalidData(String::from_str(
            "Insufficient transaction confirmations",
        )));
    }
    match chain.transaction.meta_status_ok {
        None => {
            return Err(StabuseError::InvalidData(String::from_str("No transaction metadata")));
        },
        Some(false) => {
            return Err(StabuseError::InvalidData(String::from_str(
                "Transaction execution failed",
            )));
        },
        Some(true) => {},
    }
    let merchant_address = match registry.get_merchant_network_address(
        pending.merchant_id,
        chain_id,
    ) {
        Ok(a) => a,
        Err(_) => {
            return Err(StabuseError::Internal(String::from_str(
                "Failed to get merchant address",
            )));
        },
    };
    let mint_key = match parse_pubkey(token_mint.as_str()) {
        Some(k) => k,
        None => {
            return Err(StabuseError::Internal(String::from_str("Failed to get token mint")));
        },
    };
    let merchant_key = match parse_pubkey(merchant_address.as_str()) {
        Some(k) => k,
        None => {
            return Err(StabuseError::Internal(String::from_str(
                "Failed to get merchant pubkey",
            )));
        },
    };
    let payer_key = match parse_pubkey(pending.sender.as_str()) {
        Some(k) => k,
        None => {
            return Err(StabuseError::Internal(String::from_str("Failed to get payer pubkey")));
        },
    };
    let payer_token_account = derive_associated_token_address(
        payer_key.as_slice(),
        mint_key.as_slice(),
    );
    let merchant_token_account = derive_associated_token_address(
        merchant_key.as_slice(),
        mint_key.as_slice(),
    );
    let decimals = match get_token_decimals(pending.asset.as_str()) {
        Ok(d) => d,
        Err(_) => 0,
    };
    if !find_transfer_instruction(
        &chain.transaction.message,
        payer_token_account.as_slice(),
        mint_key.as_slice(),
        merchant_token_account.as_slice(),
        payer_key.as_slice(),
        pending.amount,
        decimals,
    ) {
        return Err(StabuseError::InvalidData(String::from_str(
            "No matching transfer instruction found",
        )));
    }
    store.settle_payment(pending_payment_id, tx_hash, settle_time)
}

/// Builds an unsigned SPL-token transfer-checked instruction for the
/// requested payment: resolves the merchant, the mint and both associated
/// token accounts, reads the decimals from the fetched mint account,
/// persists the pending payment row and issues the claims of its
/// verification credential. Returns the instruction, the credential claims
/// and the derived webhook address. On failure nothing is persisted and the
/// error names the first step that failed, in order.
pub fn create_payment_transaction(
    store: &mut PaymentStore,
    registry: &ChainRegistry,
    rpc_url: &str,
    payer: &str,
    merchant_id: i32,
    asset: &str,
    amount: u64,
    mint_account_data: &[u8],
    webhook_base_url: &str,
    now: i64,
    timestamp: &str,
) -> (r: Result<
    (SolTransferInstruction, crate::types::PaymentClaims, String),
    StabuseError,
>)
    requires
        old(store).wf(),
    ensures
        final(store).wf(),
        r matches Ok(ok) ==> ({
            let cid = solana_network_id_of(rpc_url@).unwrap();
            let na = network_and_asset_of(*registry, asset@, cid).unwrap();
            let ms = merchant_address_of(registry.merchant_addresses@, merchant_id, cid).unwrap();
            let payer_key = pubkey_parse(payer@).unwrap();
            let mint_key = pubkey_parse(na.1).unwrap();
            let merchant_key = pubkey_parse(ms).unwrap();
            let payer_ata = ata_of(payer_key, mint_key);
            let merchant_ata = ata_of(merchant_key, mint_key);
            &&& solana_network_id_of(rpc_url@) is Some
            &&& network_and_asset_of(*registry, asset@, cid) is Some
            &&& merchant_address_of(registry.merchant_addresses@, merchant_id, cid) is Some
            &&& pubkey_parse(payer@) is Some
            &&& pubkey_parse(na.1) is Some
            &&& pubkey_parse(ms) is Some
            &&& amount > 0
            &&& ok.0.program_id@ == spl_token_id_bytes()
            &&& ok.0.accounts@.len() == 4
            &&& ok.0.accounts@[0].0@ == payer_ata && ok.0.accounts@[0].1 == false
                && ok.0.accounts@[0].2 == true
            &&& ok.0.accounts@[1].0@ == mint_key && ok.0.accounts@[1].1 == false
                && ok.0.accounts@[1].2 == false
            &&& ok.0.accounts@[2].0@ == merchant_ata && ok.0.accounts@[2].1 == false
                && ok.0.accounts@[2].2 == true
            &&& ok.0.accounts@[3].0@ == payer_key && ok.0.accounts@[3].1 == true
                && ok.0.accounts@[3].2 == false
            &&& ok.0.data@ == seq![12u8] + crate::codec::le_bytes_of(amount as nat, 8) + seq![
                mint_account_data@[44],
            ]
            &&& ok.1.pending_payment_id == old(store).next_pending_id
            &&& ok.1.rpc@ == rpc_url@
            &&& ok.1.network@ == na.0
            &&& ok.1.iat == now
            &&& ok.1.exp == now + crate::credential::PAYMENT_CREDENTIAL_TTL_SECONDS
            &&& ok.2@ == crate::webhook::webhook_url_of(
                webhook_base_url@,
                merchant_id as int,
                payer@,
                amount as nat,
                timestamp@,
            )
            &&& final(store).settled@ == old(store).settled@
            &&& final(store).pending@.len() == old(store).pending@.len() + 1
            &&& final(store).pending@.subrange(0, old(store).pending@.len() as int) == old(
                store,
            ).pending@
            &&& {
                let p = final(store).pending@.last();
                &&& p.id == old(store).next_pending_id
                &&& p.merchant_id == merchant_id
                &&& p.sender@ == payer@
                &&& p.amount == amount
                &&& p.asset@ == asset@
                &&& p.network@ == na.0
                &&& p.webhook_url@ == ok.2@
                &&& p.time == now
            }
        }),
        r matches Err(e) ==> ({
            let cid = solana_network_id_of(rpc_url@);
            let na = network_and_asset_of(*registry, asset@, cid.unwrap());
            let ms = merchant_address_of(
                registry.merchant_addresses@,
                merchant_id,
                cid.unwrap(),
            );
            &&& final(store).pending@ == old(store).pending@
            &&& final(store).settled@ == old(store).settled@
            &&& final(store).next_pending_id == old(store).next_pending_id
            &&& if cid is None {
                e is InvalidData
            } else if ms is None {
                e is AssetNotSupported
            } else if na is None {
                e is AssetNotSupported
            } else if pubkey_parse(payer@) is None {
                e is InvalidAddress
            } else if pubkey_parse(ms.unwrap()) is None {
                e is Internal
            } else if pubkey_parse(na.unwrap().1) is None {
                e is Internal
            } else if !(mint_account_data@.len() == 82 && crate::foreign::coption_tag_ok(
                mint_account_data@.subrange(0, 4),
            ) && mint_account_data@[45] == 1 && crate::foreign::coption_tag_ok(
                mint_account_data@.subrange(46, 50),
            )) {
                e is InvalidData
            } else if now + crate::credential::PAYMENT_CREDENTIAL_TTL_SECONDS > i64::MAX {
                e is Internal
            } else if amount == 0 {
                e is InvalidData
            } else if old(store).next_pending_id == i32::MAX {
                e is DatabaseError
            } else {
                false
            }
        }),
{
    let chain_id = match get_solana_network_identifier(rpc_url) {
        Ok(id) => id,
        Err(e) => {
            return Err(e);
        },
    };
    let merchant_address = match registry.get_merchant_network_address(merchant_id, chain_id) {
        Ok(a) => a,
        Err(e) => {
            return Err(e);
        },
    };
    let resolved = match registry.get_network_and_asset_address_with_chain_id(asset, chain_id) {
        Ok(p) => p,
        Err(e) => {
            return Err(e);
        },
    };
    let network = resolved.0;
    let token_mint = resolved.1;
    let payer_key = match parse_pubkey(payer) {
        Some(k) => k,
        None => {
            return Err(StabuseError::InvalidAddress(String::from_str("Invalid payer address")));
        },
    };
    let merchant_key = match parse_pubkey(merchant_address.as_str()) {
        Some(k) => k,
        None => {
            return Err(StabuseError::Internal(String::from_str("Invalid merchant address")));
        },
    };
    let mint_key = match parse_pubkey(token_mint.as_str()) {
        Some(k) => k,
        None => {
            return Err(StabuseError::Internal(String::from_str("Invalid mint address")));
        },
    };
    let decimals = match crate::foreign::unpack_mint_decimals(mint_account_data) {
        Some(d) => d,
        None => {
            return Err(StabuseError::InvalidData(String::from_str("Invalid mint account data")));
        },
    };
    let payer_token_account = derive_associated_token_address(
        payer_key.as_slice(),
        mint_key.as_slice(),
    );
    let merchant_token_account = derive_associated_token_address(
        merchant_key.as_slice(),
        mint_key.as_slice(),
    );
    let built = crate::foreign::build_transfer_checked(
        payer_token_account.as_slice(),
        mint_key.as_slice(),
        merchant_token_account.as_slice(),
        payer_key.as_slice(),
        amount,
        decimals,
    );
    if now > i64::MAX - crate::credential::PAYMENT_CREDENTIAL_TTL_SECONDS {
        return Err(StabuseError::Internal(String::from_str("credential expiry overflow")));
    }
    let webhook_url = crate::webhook::generate_webhook_url(
        webhook_base_url,
        merchant_id,
        payer,
        amount,
        timestamp,
    );
    let pending_payment_id = match store.add_pending_payment(
        merchant_id,
        payer,
        amount,
        asset,
        network.as_str(),
        webhook_url.as_str(),
        now,
    ) {
        Ok(id) => id,
        Err(e) => {
            return Err(e);
        },
    };
    let claims = match crate::credential::generate_payment_claims(
        pending_payment_id,
        rpc_url,
        network.as_str(),
        now,
    ) {
        Ok(c) => c,
        Err(e) => {
            return Err(e);
        },
    };
    let instruction = SolTransferInstruction {
        program_id: built.0,
        accounts: built.1,
        data: built.2,
    };
    Ok((instruction, claims, webhook_url))
}

} // verus!
