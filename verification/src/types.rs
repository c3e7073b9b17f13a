//! Data carried between the engine and its callers: requests, responses,
//! credential claims, queue messages and webhook payloads.

use vstd::prelude::*;

verus! {

/// A chain configuration as submitted by an administrator.
#[derive(Debug, Clone)]
pub struct Network {
    pub chain_id: i64,
    pub name: String,
    pub explorer: String,
    pub rpc: String,
    /// Asset ticker paired with the token contract or mint address.
    pub supported_assets: Vec<(String, String)>,
}

/// A merchant account as submitted on registration.
#[derive(Debug, Clone)]
pub struct Merchant {
    pub username: String,
    pub email: String,
    pub password: String,
    /// Chain id paired with the merchant's receiving address on that chain.
    pub supported_networks: Vec<(i64, String)>,
}

/// A request to add assets to a configured chain.
#[derive(Debug, Clone)]
pub struct AddAssetRequest {
    pub chain_id: i32,
    pub assets: Vec<(String, String)>,
}

/// A request to create an administrator account.
#[derive(Debug, Clone)]
pub struct CreateAdminRequest {
    pub username: String,
    pub email: String,
    pub password: String,
}

/// A merchant's request naming one asset on one chain.
#[derive(Debug, Clone)]
pub struct MerchantAssetRequest {
    pub chain_id: i64,
    pub asset: String,
}

/// A merchant's request to support a chain with chosen assets.
#[derive(Debug, Clone)]
pub struct MerchantNetworkRequest {
    pub chain_id: i64,
    pub supported_assets: Vec<String>,
    pub address: String,
}

/// A merchant's request to change a receiving address.
#[derive(Debug, Clone)]
pub struct MerchantAddressRequest {
    pub chain_id: i64,
    pub address: String,
}

/// The response to a successful merchant login.
#[derive(Debug, Clone)]
pub struct LoginResponse {
    pub token: String,
    pub merchant_id: i32,
    pub username: String,
}

/// Claims of a merchant session credential.
#[derive(Debug, Clone)]
pub struct Claims {
    /// The merchant id.
    pub sub: i32,
    pub username: String,
    /// Expiry, as Unix seconds.
    pub exp: i64,
    /// Issued at, as Unix seconds.
    pub iat: i64,
}

/// Claims of an administrator session credential.
#[derive(Debug, Clone)]
pub struct AdminClaims {
    /// The administrator's email address.
    pub sub: String,
    pub username: String,
    /// Expiry, as Unix seconds.
    pub exp: i64,
    /// Issued at, as Unix seconds.
    pub iat: i64,
}

/// Claims of a payment verification credential: the scope is one pending
/// payment, with the RPC endpoint and network tag it was created for.
#[derive(Debug, Clone)]
pub struct PaymentClaims {
    pub pending_payment_id: i32,
    pub network: String,
    pub rpc: String,
    /// Expiry, as Unix seconds.
    pub exp: i64,
    /// Issued at, as Unix seconds.
    pub iat: i64,
}

/// A merchant's stored login credentials.
#[derive(Debug, Clone)]
pub struct MerchantCredentials {
    pub id: i32,
    pub username: String,
    pub password_hash: String,
}

/// An administrator's stored login credentials.
#[derive(Debug, Clone)]
pub struct AdminCredentials {
    pub id: i32,
    pub email: String,
    pub username: String,
    pub password_hash: String,
}

/// A login attempt.
#[derive(Debug, Clone)]
pub struct LoginCredentials {
    pub username_or_email: String,
    pub password: String,
}

/// An administrator account in the making.
#[derive(Debug, Clone)]
pub struct AdminDetails {
    pub email: String,
    pub username: String,
    pub password: String,
}

/// A one-time-password check request.
#[derive(Debug, Clone)]
pub struct VerifyOtpRequest {
    pub otp: String,
}

/// A request to invite a new administrator.
#[derive(Debug, Clone)]
pub struct AdminInviteRequest {
    pub email: String,
}

/// Contract addresses of the common stablecoins on one chain.
#[derive(Debug, Clone)]
pub struct Stablecoins {
    pub usdt: String,
    pub usdc: String,
    pub busd: String,
    pub dai: String,
}

/// A client's request to build a payment transaction.
#[derive(Debug, Clone)]
pub struct CreatePaymentRequest {
    pub merchant_id: i32,
    /// The amount, as an integer in the asset's smallest unit.
    pub payment_amount: u64,
    pub user_address: String,
    pub asset: String,
    pub rpc_url: String,
    pub network: String,
}

/// A client's request to verify a broadcast transaction.
#[derive(Debug, Clone)]
pub struct ValidatePaymentRequest {
    pub tx_hash: String,
    pub rpc_url: String,
    pub network: String,
}

/// The unsigned EVM transaction handed back to the client, every numeric
/// field rendered as a `0x`-prefixed hexadecimal string.
#[derive(Debug, Clone)]
pub struct CreatePaymentTransaction {
    pub to: String,
    pub from: String,
    pub data: String,
    pub value: String,
    pub nonce: String,
    pub chain_id: u64,
    pub gas_limit: Option<String>,
    pub max_fee_per_gas: Option<String>,
    pub max_priority_fee_per_gas: Option<String>,
}

/// The queue message that asks for one transaction to be verified.
#[derive(Debug, Clone)]
pub struct TransactionVerificationMessage {
    pub pending_payment_id: i32,
    pub tx_hash: String,
    pub rpc_url: String,
    pub network: String,
}

/// The credential and callback address handed out with a built transaction.
#[derive(Debug, Clone)]
pub struct PaymentAuthDetails {
    pub jwt_token: String,
    pub webhook_url: String,
}

/// The body of a settlement webhook call.
#[derive(Debug, Clone)]
pub struct WebhookPayload {
    pub payment_id: i32,
    pub status: String,
    pub tx_hash: String,
    pub timestamp: String,
}

/// Mail relay settings, read from the environment by the caller.
#[derive(Debug, Clone)]
pub struct EmailConfig {
    pub smtp_username: String,
    pub smtp_password: String,
    pub smtp_server: String,
    pub smtp_port: u16,
    pub sender_email: String,
}

} // verus!
