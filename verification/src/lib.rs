//! Core decision logic of a UPI-style payment switch: request validation,
//! an idempotency store keyed by transaction id, deterministic mock banks,
//! the debit/credit/reversal flow of a payment and the replies sent back.

pub mod error;
pub mod text;
pub mod types;
pub mod bank_client;
pub mod idempotency;
pub mod validator;
pub mod orchestrator;
pub mod gateway;
