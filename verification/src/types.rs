//! The values that move between a client, the switch and its store.

use vstd::prelude::*;

verus! {

/// A payment request as the switch receives it. The transaction id is the
/// 128-bit value of the client's UUID.
#[derive(Debug, Clone)]
pub struct PaymentRequest {
    pub transaction_id: u128,
    pub payer_vpa: String,
    pub payee_vpa: String,
    pub amount_paise: u64,
    pub payer_bank_ifsc: String,
    pub payee_bank_ifsc: String,
    pub timestamp_ms: u64,
}

/// The answer sent back to the client for one request.
#[derive(Debug, Clone)]
pub struct PaymentResponse {
    pub transaction_id: u128,
    pub status: TxnStatus,
    pub rrn: Option<String>,
    pub error_code: Option<String>,
    pub processing_time_ms: u64,
}

/// The state of a transaction as the idempotency store records it.
#[derive(Debug, PartialEq, Eq)]
pub enum TxnState {
    Processing,
    Settled { rrn: String },
    Failed { reason: String },
    TimedOut,
}

/// A transaction state with its texts taken as character sequences.
pub enum TxnStateView {
    Processing,
    Settled { rrn: Seq<char> },
    Failed { reason: Seq<char> },
    TimedOut,
}

impl View for TxnState {
    type V = TxnStateView;

    open spec fn view(&self) -> TxnStateView {
        match self {
            TxnState::Processing => TxnStateView::Processing,
            TxnState::Settled { rrn } => TxnStateView::Settled { rrn: rrn@ },
            TxnState::Failed { reason } => TxnStateView::Failed { reason: reason@ },
            TxnState::TimedOut => TxnStateView::TimedOut,
        }
    }
}

impl Clone for TxnState {
    fn clone(&self) -> (res: Self)
        ensures
            res == *self,
    {
        match self {
            TxnState::Processing => TxnState::Processing,
            TxnState::Settled { rrn } => TxnState::Settled { rrn: rrn.clone() },
            TxnState::Failed { reason } => TxnState::Failed { reason: reason.clone() },
            TxnState::TimedOut => TxnState::TimedOut,
        }
    }
}

/// The status reported to the client.
#[derive(Debug, Clone, Copy, PartialEq, Eq, Structural)]
pub enum TxnStatus {
    Success,
    Failed,
    Timeout,
    Duplicate,
}

/// The view of an optional text.
pub open spec fn opt_text(o: Option<String>) -> Option<Seq<char>> {
    match o {
        Some(s) => Some(s@),
        None => None,
    }
}

} // verus!
