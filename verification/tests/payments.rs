use std::time::{SystemTime, UNIX_EPOCH};
use upi_switch::bank_client::MockBank;
use upi_switch::gateway::{begin_payment, complete_payment, Admission, PaymentReply};
use upi_switch::idempotency::{get_state, new_store, IdempotencyStore};
use upi_switch::orchestrator::{
    outcome_within_deadline, BankCall, BankOutcome, PaymentAction, PaymentOrchestrator, PaymentStage,
};
use upi_switch::types::{PaymentRequest, PaymentResponse, TxnState, TxnStatus};
use uuid::Uuid;

fn now_ms() -> u64 {
    SystemTime::now()
        .duration_since(UNIX_EPOCH)
        .map(|d| d.as_millis() as u64)
        .unwrap_or(0)
}

fn req_with(txn_id: Uuid, payee_vpa: &str, amount_paise: u64) -> PaymentRequest {
    PaymentRequest {
        transaction_id: txn_id.as_u128(),
        payer_vpa: "payer@okaxis".to_string(),
        payee_vpa: payee_vpa.to_string(),
        amount_paise,
        payer_bank_ifsc: "UTIB0000001".to_string(),
        payee_bank_ifsc: "YESB0000001".to_string(),
        timestamp_ms: now_ms(),
    }
}

struct Switch {
    store: IdempotencyStore,
    orchestrator: PaymentOrchestrator<MockBank>,
}

fn prototype() -> Switch {
    Switch {
        store: new_store(),
        orchestrator: PaymentOrchestrator::new(
            MockBank::new("Axis Bank".to_string()),
            MockBank::new("Yes Bank".to_string()),
        ),
    }
}

/// Runs a payment against the mock banks on a simulated clock that the
/// banks' delays advance; the deadline cuts it off as a timer would.
fn execute(orchestrator: &PaymentOrchestrator<MockBank>, req: &PaymentRequest) -> TxnState {
    let txn = Uuid::from_u128(req.transaction_id).to_string();
    let mut elapsed_ms = 0u64;
    let mut stage = PaymentStage::start();
    let finished = loop {
        let outcome = match stage.action() {
            PaymentAction::Done(state) => break Some(state),
            PaymentAction::Call(BankCall::DebitPayer) => {
                let reply = orchestrator.payer_bank.debit_reply(&req.payer_vpa, req.amount_paise, &txn);
                elapsed_ms += reply.delay_ms;
                if elapsed_ms > orchestrator.hard_timeout_ms() {
                    break None;
                }
                BankOutcome::Debited(reply.result)
            }
            PaymentAction::Call(BankCall::CreditPayee) => {
                let reply = orchestrator.payee_bank.credit_reply(&req.payee_vpa, req.amount_paise, &txn);
                elapsed_ms += reply.delay_ms;
                if elapsed_ms > orchestrator.hard_timeout_ms() {
                    break None;
                }
                BankOutcome::Credited(reply.result)
            }
            PaymentAction::Call(BankCall::ReversePayerDebit) => {
                let reply = orchestrator.payer_bank.reverse_debit_reply(&req.payer_vpa, req.amount_paise, &txn);
                elapsed_ms += reply.delay_ms;
                if elapsed_ms > orchestrator.hard_timeout_ms() {
                    break None;
                }
                BankOutcome::Reversed(reply.result)
            }
        };
        stage = stage.advance(outcome);
    };
    outcome_within_deadline(finished)
}

fn respond(reply: PaymentReply, req: &PaymentRequest) -> (u16, PaymentResponse) {
    let status = reply.http_status;
    (status, reply.into_response(req.transaction_id, 0))
}

fn post_pay(switch: &mut Switch, req: &PaymentRequest) -> (u16, PaymentResponse) {
    match begin_payment(&mut switch.store, req, now_ms()) {
        Admission::Respond(reply) => respond(reply, req),
        Admission::Execute => {
            let state = execute(&switch.orchestrator, req);
            let reply = complete_payment(&mut switch.store, req.transaction_id, state);
            respond(reply, req)
        }
    }
}

#[test]
fn first_payment_then_duplicate() {
    let mut switch = prototype();
    let txn_id = Uuid::new_v4();
    let req = req_with(txn_id, "merchant@ybl", 1000);

    let (first_status, first) = post_pay(&mut switch, &req);
    assert_eq!(first_status, 200);
    assert_eq!(first.status, TxnStatus::Success);

    let (second_status, second) = post_pay(&mut switch, &req);
    assert_eq!(second_status, 200);
    assert_eq!(second.status, TxnStatus::Duplicate);
    assert_eq!(second.rrn, first.rrn);
    assert_eq!(second.transaction_id, txn_id.as_u128());
    let expected = format!("RRN-{}-CREDIT-YesBank", &txn_id.to_string()[..8]);
    assert_eq!(first.rrn.as_deref(), Some(expected.as_str()));
}

#[test]
fn deterministic_credit_failure() {
    let mut switch = prototype();
    let req = req_with(Uuid::new_v4(), "merchant-creditfail@ybl", 1000);

    let (status, payload) = post_pay(&mut switch, &req);
    assert_eq!(status, 402);
    assert_eq!(payload.status, TxnStatus::Failed);
    assert!(payload
        .error_code
        .expect("error code")
        .contains("CREDIT_FAILED"));
}

#[test]
fn timeout_path_returns_gateway_timeout() {
    let mut switch = prototype();
    let req = req_with(Uuid::new_v4(), "merchant-slow@ybl", 1000);

    let (status, payload) = post_pay(&mut switch, &req);
    assert_eq!(status, 504);
    assert_eq!(payload.status, TxnStatus::Timeout);
    assert_eq!(payload.error_code.as_deref(), Some("TIMEOUT"));
    assert_eq!(get_state(&switch.store, &req.transaction_id), Some(TxnState::TimedOut));
}

#[test]
fn same_transaction_concurrency_keeps_single_success() {
    let mut switch = prototype();
    let req = req_with(Uuid::new_v4(), "merchant@ybl", 1000);

    // Five copies of the request arrive before the first payment ends.
    let now = now_ms();
    let mut admissions = Vec::new();
    for _ in 0..5 {
        admissions.push(begin_payment(&mut switch.store, &req, now));
    }

    let mut success = 0_u8;
    let mut duplicate = 0_u8;
    for admission in admissions {
        let (status, payload) = match admission {
            Admission::Respond(reply) => respond(reply, &req),
            Admission::Execute => {
                let state = execute(&switch.orchestrator, &req);
                respond(complete_payment(&mut switch.store, req.transaction_id, state), &req)
            }
        };
        if status == 200 && payload.status == TxnStatus::Success {
            success += 1;
        }
        if status == 200 && payload.status == TxnStatus::Duplicate {
            duplicate += 1;
            assert_eq!(payload.error_code.as_deref(), Some("PROCESSING"));
        }
    }

    assert_eq!(success, 1);
    assert_eq!(duplicate, 4);
}

#[test]
fn invalid_request_is_refused_and_not_recorded() {
    let mut switch = prototype();
    let mut req = req_with(Uuid::new_v4(), "payer@okaxis", 1000);
    let (status, payload) = post_pay(&mut switch, &req);
    assert_eq!(status, 402);
    assert_eq!(payload.status, TxnStatus::Failed);
    assert_eq!(payload.error_code.as_deref(), Some("SAME_PAYER_PAYEE"));
    assert_eq!(get_state(&switch.store, &req.transaction_id), None);

    req.payee_vpa = "merchant@ybl".to_string();
    let (status, payload) = post_pay(&mut switch, &req);
    assert_eq!(status, 200);
    assert_eq!(payload.status, TxnStatus::Success);
}

#[test]
fn debit_failure_is_replayed_to_retries() {
    let mut switch = prototype();
    let mut req = req_with(Uuid::new_v4(), "merchant@ybl", 11_111);
    let (status, first) = post_pay(&mut switch, &req);
    assert_eq!(status, 402);
    assert_eq!(first.error_code.as_deref(), Some("DEBIT_FAILED_INSUFFICIENT_FUNDS"));

    req.amount_paise = 1000;
    let (status, again) = post_pay(&mut switch, &req);
    assert_eq!(status, 200);
    assert_eq!(again.status, TxnStatus::Duplicate);
    assert_eq!(again.error_code, first.error_code);
    assert_eq!(again.rrn, None);
}

#[test]
fn settled_entry_survives_retries() {
    let mut switch = prototype();
    let req = req_with(Uuid::new_v4(), "merchant@ybl", 1000);
    let (_, first) = post_pay(&mut switch, &req);
    let settled = get_state(&switch.store, &req.transaction_id);
    assert_eq!(
        settled,
        Some(TxnState::Settled {
            rrn: first.rrn.clone().expect("rrn")
        })
    );

    let other = req_with(Uuid::new_v4(), "merchant-creditfail@ybl", 1000);
    post_pay(&mut switch, &other);
    for _ in 0..3 {
        let (_, again) = post_pay(&mut switch, &req);
        assert_eq!(again.status, TxnStatus::Duplicate);
        assert_eq!(get_state(&switch.store, &req.transaction_id), settled);
    }
}
