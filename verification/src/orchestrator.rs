//! The payment flow: debit the payer, credit the payee, and reverse the
//! debit when the credit fails, all within a hard deadline.
//!
//! The bank calls themselves are made by the caller; this module decides,
//! from each bank's answer, which call comes next and how the payment ends.

use vstd::prelude::*;
use crate::bank_client::{bank_error_text, result_text, BankError};
use crate::types::{TxnState, TxnStateView};

verus! {

/// The deadline that `PaymentOrchestrator::new` gives a payment.
pub const DEFAULT_HARD_TIMEOUT_MS: u64 = 30_000;

/// The two banks of a payment and the deadline the whole payment must meet.
pub struct PaymentOrchestrator<B> {
    pub payer_bank: B,
    pub payee_bank: B,
    hard_timeout_ms: u64,
}

impl<B> PaymentOrchestrator<B> {
    /// The bank that holds the payer's account.
    pub closed spec fn payer(&self) -> B {
        self.payer_bank
    }

    /// The bank that holds the payee's account.
    pub closed spec fn payee(&self) -> B {
        self.payee_bank
    }

    /// The deadline of a payment, in milliseconds.
    pub closed spec fn hard_timeout(&self) -> u64 {
        self.hard_timeout_ms
    }

    /// An orchestrator with the default deadline of thirty seconds.
    pub fn new(payer_bank: B, payee_bank: B) -> (o: Self)
        ensures
            o.payer() == payer_bank,
            o.payee() == payee_bank,
            o.hard_timeout() == DEFAULT_HARD_TIMEOUT_MS,
    {
        Self { payer_bank, payee_bank, hard_timeout_ms: DEFAULT_HARD_TIMEOUT_MS }
    }

    /// An orchestrator with a deadline of `hard_timeout_ms` milliseconds.
    pub fn with_timeout(payer_bank: B, payee_bank: B, hard_timeout_ms: u64) -> (o: Self)
        ensures
            o.payer() == payer_bank,
            o.payee() == payee_bank,
            o.hard_timeout() == hard_timeout_ms,
    {
        Self { payer_bank, payee_bank, hard_timeout_ms }
    }

    /// The bank that holds the payer's account.
    pub fn payer_bank(&self) -> (b: &B)
        ensures
            *b == self.payer(),
    {
        &self.payer_bank
    }

    /// The bank that holds the payee's account.
    pub fn payee_bank(&self) -> (b: &B)
        ensures
            *b == self.payee(),
    {
        &self.payee_bank
    }

    /// The deadline of a payment, in milliseconds.
    pub fn hard_timeout_ms(&self) -> (t: u64)
        ensures
            t == self.hard_timeout(),
    {
        self.hard_timeout_ms
    }
}

/// A call that the flow asks the caller to make.
#[derive(Debug, Clone, Copy, PartialEq, Eq, Structural)]
pub enum BankCall {
    /// Debit the payer at the payer's bank.
    DebitPayer,
    /// Credit the payee at the payee's bank.
    CreditPayee,
    /// Reverse the payer's debit at the payer's bank.
    ReversePayerDebit,
}

/// The answer of a bank to a call.
#[derive(Debug)]
pub enum BankOutcome {
    Debited(Result<String, BankError>),
    Credited(Result<String, BankError>),
    Reversed(Result<(), BankError>),
}

/// A bank answer with its texts taken as character sequences.
pub enum BankOutcomeView {
    Debited(Result<Seq<char>, BankError>),
    Credited(Result<Seq<char>, BankError>),
    Reversed(Result<(), BankError>),
}

impl View for BankOutcome {
    type V = BankOutcomeView;

    open spec fn view(&self) -> BankOutcomeView {
        match self {
            BankOutcome::Debited(r) => BankOutcomeView::Debited(result_text(*r)),
            BankOutcome::Credited(r) => BankOutcomeView::Credited(result_text(*r)),
            BankOutcome::Reversed(r) => BankOutcomeView::Reversed(*r),
        }
    }
}

/// Where a payment stands.
#[derive(Debug)]
pub enum PaymentStage {
    /// Waiting for the payer's bank to answer the debit.
    Debiting,
    /// The debit went through; waiting for the payee's bank to answer the credit.
    Crediting,
    /// The credit failed for `reason`; waiting for the payer's bank to reverse the debit.
    Reversing { reason: String },
    /// The payment ended in `outcome`.
    Finished { outcome: TxnState },
}

/// A payment stage with its texts taken as character sequences.
pub enum PaymentStageView {
    Debiting,
    Crediting,
    Reversing { reason: Seq<char> },
    Finished { outcome: TxnStateView },
}

impl View for PaymentStage {
    type V = PaymentStageView;

    open spec fn view(&self) -> PaymentStageView {
        match self {
            PaymentStage::Debiting => PaymentStageView::Debiting,
            PaymentStage::Crediting => PaymentStageView::Crediting,
            PaymentStage::Reversing { reason } => PaymentStageView::Reversing { reason: reason@ },
            PaymentStage::Finished { outcome } => PaymentStageView::Finished { outcome: outcome@ },
        }
    }
}

/// What the caller is to do next.
#[derive(Debug)]
pub enum PaymentAction {
    /// Make this bank call and hand its answer to `PaymentStage::advance`.
    Call(BankCall),
    /// The payment has ended in this state.
    Done(TxnState),
}

/// The failure reason recorded when the debit fails with `e`.
pub open spec fn debit_failure_reason(e: BankError) -> Seq<char> {
    "DEBIT_FAILED_"@ + bank_error_text(e)
}

/// The failure reason recorded when the credit fails with `e`.
pub open spec fn credit_failure_reason(e: BankError) -> Seq<char> {
    "CREDIT_FAILED_"@ + bank_error_text(e)
}

/// The stage a payment moves to when `outcome` arrives at stage `s`. An
/// answer to a call other than the one the stage waits for changes nothing.
pub open spec fn stage_step(s: PaymentStageView, outcome: BankOutcomeView) -> PaymentStageView {
    match s {
        PaymentStageView::Debiting => match outcome {
            BankOutcomeView::Debited(Ok(_)) => PaymentStageView::Crediting,
            BankOutcomeView::Debited(Err(e)) => PaymentStageView::Finished {
                outcome: TxnStateView::Failed { reason: debit_failure_reason(e) },
            },
            _ => s,
        },
        PaymentStageView::Crediting => match outcome {
            BankOutcomeView::Credited(Ok(rrn)) => PaymentStageView::Finished {
                outcome: TxnStateView::Settled { rrn },
            },
            BankOutcomeView::Credited(Err(e)) => PaymentStageView::Reversing {
                reason: credit_failure_reason(e),
            },
            _ => s,
        },
        PaymentStageView::Reversing { reason } => match outcome {
            BankOutcomeView::Reversed(_) => PaymentStageView::Finished {
                outcome: TxnStateView::Failed { reason },
            },
            _ => s,
        },
        PaymentStageView::Finished { .. } => s,
    }
}

/// The bank call that stage `s` waits for; none once the payment has ended.
pub open spec fn stage_call(s: PaymentStageView) -> Option<BankCall> {
    match s {
        PaymentStageView::Debiting => Some(BankCall::DebitPayer),
        PaymentStageView::Crediting => Some(BankCall::CreditPayee),
        PaymentStageView::Reversing { .. } => Some(BankCall::ReversePayerDebit),
        PaymentStageView::Finished { .. } => None,
    }
}

impl PaymentStage {
    /// The stage a payment starts in: waiting for the debit.
    pub fn start() -> (s: Self)
        ensures
            s@ == PaymentStageView::Debiting,
    {
        PaymentStage::Debiting
    }

    /// The stage after `outcome` arrives.
    pub fn advance(self, outcome: BankOutcome) -> (next: Self)
        ensures
            next@ == stage_step(self@, outcome@),
    {
        match self {
            PaymentStage::Debiting => match outcome {
                BankOutcome::Debited(Ok(_)) => PaymentStage::Crediting,
                BankOutcome::Debited(Err(e)) => {
                    let mut reason = String::from_str("DEBIT_FAILED_");
                    let text = e.to_string();
                    reason.append(text.as_str());
                    PaymentStage::Finished { outcome: TxnState::Failed { reason } }
                },
                _ => PaymentStage::Debiting,
            },
            PaymentStage::Crediting => match outcome {
                BankOutcome::Credited(Ok(rrn)) => PaymentStage::Finished {
                    outcome: TxnState::Settled { rrn },
                },
                BankOutcome::Credited(Err(e)) => {
                    let mut reason = String::from_str("CREDIT_FAILED_");
                    let text = e.to_string();
                    reason.append(text.as_str());
                    PaymentStage::Reversing { reason }
                },
                _ => PaymentStage::Crediting,
            },
            PaymentStage::Reversing { reason } => match outcome {
                BankOutcome::Reversed(_) => PaymentStage::Finished {
                    outcome: TxnState::Failed { reason },
                },
                _ => PaymentStage::Reversing { reason },
            },
            PaymentStage::Finished { outcome: state } => PaymentStage::Finished { outcome: state },
        }
    }

    /// The next thing to do: the call this stage waits for, or the end state.
    pub fn action(&self) -> (a: PaymentAction)
        ensures
            match a {
                PaymentAction::Call(call) => stage_call(self@) == Some(call),
                PaymentAction::Done(state) => self matches PaymentStage::Finished { outcome }
                    && state == outcome,
            },
    {
        match self {
            PaymentStage::Debiting => PaymentAction::Call(BankCall::DebitPayer),
            PaymentStage::Crediting => PaymentAction::Call(BankCall::CreditPayee),
            PaymentStage::Reversing { .. } => PaymentAction::Call(BankCall::ReversePayerDebit),
            PaymentStage::Finished { outcome } => PaymentAction::Done(outcome.clone()),
        }
    }
}

/// How a payment ends when its flow finished in `finished` before the
/// deadline, or did not finish in time (`None`).
pub fn outcome_within_deadline(finished: Option<TxnState>) -> (state: TxnState)
    ensures
        state == (match finished {
            Some(s) => s,
            None => TxnState::TimedOut,
        }),
{
    match finished {
        Some(s) => s,
        None => TxnState::TimedOut,
    }
}

/// How a payment ends when the debit answers `debit` and, if the debit went
/// through, the credit answers `credit`: settled with the payee bank's
/// reference number, or failed with the reason of the first failing call.
pub open spec fn payment_outcome(debit: Result<Seq<char>, BankError>, credit: Result<Seq<char>, BankError>) -> TxnStateView {
    match debit {
        Err(e) => TxnStateView::Failed { reason: debit_failure_reason(e) },
        Ok(_) => match credit {
            Ok(rrn) => TxnStateView::Settled { rrn },
            Err(e) => TxnStateView::Failed { reason: credit_failure_reason(e) },
        },
    }
}

/// A payment settles exactly when both the debit and the credit went
/// through, and then with the payee bank's reference number; otherwise it
/// fails, naming `DEBIT_FAILED_` and the debit's error when the debit
/// failed, and `CREDIT_FAILED_` and the credit's error when only the credit
/// failed. A new orchestrator gives a payment thirty seconds.
pub proof fn lemma_payment_outcomes(debit: Result<Seq<char>, BankError>, credit: Result<Seq<char>, BankError>)
    ensures
        (payment_outcome(debit, credit) is Settled) == (debit is Ok && credit is Ok),
        (match (debit, credit) {
            (Err(e), _) => payment_outcome(debit, credit) == TxnStateView::Failed {
                reason: "DEBIT_FAILED_"@ + bank_error_text(e),
            },
            (Ok(_), Err(e)) => payment_outcome(debit, credit) == TxnStateView::Failed {
                reason: "CREDIT_FAILED_"@ + bank_error_text(e),
            },
            (Ok(_), Ok(rrn)) => payment_outcome(debit, credit) == TxnStateView::Settled { rrn },
        }),
        DEFAULT_HARD_TIMEOUT_MS == 30_000,
{
}

/// Driving the stages with the banks' answers runs the payment: the debit
/// comes first; the credit is asked for only after a successful debit; a
/// failed credit asks for the debit to be reversed, whatever the reversal
/// answers; and the payment ends in `payment_outcome`.
pub proof fn lemma_stages_run_payment(
    debit: Result<Seq<char>, BankError>,
    credit: Result<Seq<char>, BankError>,
    reversal: Result<(), BankError>,
)
    ensures
        stage_call(PaymentStageView::Debiting) == Some(BankCall::DebitPayer),
        ({
            let s1 = stage_step(PaymentStageView::Debiting, BankOutcomeView::Debited(debit));
            let s2 = stage_step(s1, BankOutcomeView::Credited(credit));
            let s3 = stage_step(s2, BankOutcomeView::Reversed(reversal));
            let done = PaymentStageView::Finished { outcome: payment_outcome(debit, credit) };
            &&& debit is Err ==> s1 == done
            &&& debit is Ok ==> stage_call(s1) == Some(BankCall::CreditPayee)
            &&& debit is Ok && credit is Ok ==> s2 == done
            &&& debit is Ok && credit is Err ==> stage_call(s2) == Some(BankCall::ReversePayerDebit)
                && s3 == done
        }),
{
}

/// The payer's debit is reversed only after it went through and the credit
/// failed: a stage that asks for a reversal is reached only from the credit
/// stage with a failed credit, and the credit stage only from the debit
/// stage with a successful debit.
pub proof fn lemma_reversal_only_after_failed_credit(s: PaymentStageView, outcome: BankOutcomeView)
    ensures
        ({
            let next = stage_step(s, outcome);
            &&& stage_call(next) == Some(BankCall::ReversePayerDebit) && stage_call(s) != Some(
                BankCall::ReversePayerDebit,
            ) ==> (s == PaymentStageView::Crediting && outcome matches BankOutcomeView::Credited(Err(_)))
            &&& stage_call(next) == Some(BankCall::CreditPayee) && stage_call(s) != Some(
                BankCall::CreditPayee,
            ) ==> (s == PaymentStageView::Debiting && outcome matches BankOutcomeView::Debited(Ok(_)))
        }),
{
}

/// Once a payment has ended, no answer changes how it ended, and no further
/// bank call is asked for.
pub proof fn lemma_finished_is_final(outcome: TxnStateView, answer: BankOutcomeView)
    ensures
        ({
            let done = PaymentStageView::Finished { outcome };
            &&& stage_step(done, answer) == done
            &&& stage_call(done) is None
        }),
{
}

} // verus!
