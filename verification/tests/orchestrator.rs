use upi_switch::bank_client::BankError;
use upi_switch::orchestrator::{
    outcome_within_deadline, BankCall, BankOutcome, PaymentAction, PaymentOrchestrator,
    PaymentStage, DEFAULT_HARD_TIMEOUT_MS,
};
use upi_switch::types::TxnState;

struct StubBank {
    debit_result: Result<String, BankError>,
    credit_result: Result<String, BankError>,
    credit_delay_ms: u64,
}

/// Runs the payment flow against stub banks on a simulated clock and
/// returns how it ended together with the calls that were made.
fn execute(orchestrator: &PaymentOrchestrator<StubBank>) -> (TxnState, Vec<BankCall>) {
    let mut calls = Vec::new();
    let mut elapsed_ms = 0u64;
    let mut stage = PaymentStage::start();
    let finished = loop {
        let outcome = match stage.action() {
            PaymentAction::Done(state) => break Some(state),
            PaymentAction::Call(call) => {
                calls.push(call);
                match call {
                    BankCall::DebitPayer => {
                        BankOutcome::Debited(orchestrator.payer_bank.debit_result.clone())
                    }
                    BankCall::CreditPayee => {
                        elapsed_ms += orchestrator.payee_bank.credit_delay_ms;
                        if elapsed_ms > orchestrator.hard_timeout_ms() {
                            break None;
                        }
                        BankOutcome::Credited(orchestrator.payee_bank.credit_result.clone())
                    }
                    BankCall::ReversePayerDebit => BankOutcome::Reversed(Ok(())),
                }
            }
        };
        stage = stage.advance(outcome);
    };
    (outcome_within_deadline(finished), calls)
}

#[test]
fn settles_on_debit_credit_success() {
    let payer = StubBank {
        debit_result: Ok("DRRN".to_string()),
        credit_result: Ok("IGNORED".to_string()),
        credit_delay_ms: 0,
    };
    let payee = StubBank {
        debit_result: Ok("IGNORED".to_string()),
        credit_result: Ok("CRRN".to_string()),
        credit_delay_ms: 0,
    };
    let orchestrator = PaymentOrchestrator::new(payer, payee);
    let (state, calls) = execute(&orchestrator);
    assert_eq!(
        state,
        TxnState::Settled {
            rrn: "CRRN".to_string()
        }
    );
    assert_eq!(calls, vec![BankCall::DebitPayer, BankCall::CreditPayee]);
}

#[test]
fn fails_on_debit_failure() {
    let payer = StubBank {
        debit_result: Err(BankError::InsufficientFunds),
        credit_result: Ok("IGNORED".to_string()),
        credit_delay_ms: 0,
    };
    let payee = StubBank {
        debit_result: Ok("IGNORED".to_string()),
        credit_result: Ok("IGNORED".to_string()),
        credit_delay_ms: 0,
    };
    let orchestrator = PaymentOrchestrator::new(payer, payee);
    let (state, calls) = execute(&orchestrator);
    match state {
        TxnState::Failed { reason } => assert!(reason.contains("DEBIT_FAILED")),
        _ => panic!("expected failed state"),
    }
    assert_eq!(calls, vec![BankCall::DebitPayer]);
}

#[test]
fn fails_on_credit_failure() {
    let payer = StubBank {
        debit_result: Ok("DRRN".to_string()),
        credit_result: Ok("IGNORED".to_string()),
        credit_delay_ms: 0,
    };
    let payee = StubBank {
        debit_result: Ok("IGNORED".to_string()),
        credit_result: Err(BankError::Unavailable),
        credit_delay_ms: 0,
    };
    let orchestrator = PaymentOrchestrator::new(payer, payee);
    let (state, calls) = execute(&orchestrator);
    match state {
        TxnState::Failed { reason } => assert!(reason.contains("CREDIT_FAILED")),
        _ => panic!("expected failed state"),
    }
    assert_eq!(
        calls,
        vec![BankCall::DebitPayer, BankCall::CreditPayee, BankCall::ReversePayerDebit]
    );
}

#[test]
fn times_out_on_slow_credit() {
    let payer = StubBank {
        debit_result: Ok("DRRN".to_string()),
        credit_result: Ok("IGNORED".to_string()),
        credit_delay_ms: 0,
    };
    let payee = StubBank {
        debit_result: Ok("IGNORED".to_string()),
        credit_result: Ok("CRRN".to_string()),
        credit_delay_ms: 100,
    };
    let orchestrator = PaymentOrchestrator::with_timeout(payer, payee, 10);
    let (state, _) = execute(&orchestrator);
    assert_eq!(state, TxnState::TimedOut);
}

#[test]
fn default_deadline_is_thirty_seconds() {
    let stub = || StubBank {
        debit_result: Ok(String::new()),
        credit_result: Ok(String::new()),
        credit_delay_ms: 0,
    };
    let orchestrator = PaymentOrchestrator::new(stub(), stub());
    assert_eq!(orchestrator.hard_timeout_ms(), 30_000);
    assert_eq!(DEFAULT_HARD_TIMEOUT_MS, 30_000);
    assert_eq!(PaymentOrchestrator::with_timeout(stub(), stub(), 7).hard_timeout_ms(), 7);
}

#[test]
fn failure_reasons_name_the_bank_error() {
    let stage = PaymentStage::start().advance(BankOutcome::Debited(Err(BankError::AccountNotFound)));
    match stage.action() {
        PaymentAction::Done(state) => assert_eq!(
            state,
            TxnState::Failed {
                reason: "DEBIT_FAILED_ACCOUNT_NOT_FOUND".to_string()
            }
        ),
        other => panic!("unexpected {:?}", other),
    }
    let stage = PaymentStage::start()
        .advance(BankOutcome::Debited(Ok("D".to_string())))
        .advance(BankOutcome::Credited(Err(BankError::Timeout)));
    assert!(matches!(stage.action(), PaymentAction::Call(BankCall::ReversePayerDebit)));
    let stage = stage.advance(BankOutcome::Reversed(Err(BankError::Unavailable)));
    match stage.action() {
        PaymentAction::Done(state) => assert_eq!(
            state,
            TxnState::Failed {
                reason: "CREDIT_FAILED_BANK_TIMEOUT".to_string()
            }
        ),
        other => panic!("unexpected {:?}", other),
    }
}

#[test]
fn answers_to_other_calls_change_nothing() {
    let stage = PaymentStage::start().advance(BankOutcome::Credited(Ok("C".to_string())));
    assert!(matches!(stage.action(), PaymentAction::Call(BankCall::DebitPayer)));
    assert_eq!(outcome_within_deadline(Some(TxnState::Processing)), TxnState::Processing);
}
