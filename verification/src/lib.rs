//! Payment verification and settlement engine for crypto-asset transfers.
//!
//! A merchant receives token transfers on EVM-compatible chains or on Solana.
//! The library builds unsigned transfer transactions, issues short-lived
//! verification credentials, decodes and cross-checks submitted transactions
//! against the pending payment they claim to settle, performs the atomic
//! pending-to-settled transition, and prepares webhook notifications.

#![verifier::loop_isolation(false)]

pub mod codec;
pub mod credential;
pub mod errors;
pub mod evm;
pub mod foreign;
pub mod json;
pub mod laws;
pub mod pipeline;
pub mod registry;
pub mod sol;
pub mod store;
pub mod text;
pub mod types;
pub mod utils;
pub mod validation;
pub mod webhook;
