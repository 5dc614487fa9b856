use std::time::{SystemTime, UNIX_EPOCH};
use upi_switch::error::ValidationError;
use upi_switch::types::PaymentRequest;
use upi_switch::validator::{validate_request, MAX_FUTURE_MS, MAX_PAST_MS};
use uuid::Uuid;

fn now_ms() -> u64 {
    SystemTime::now()
        .duration_since(UNIX_EPOCH)
        .map(|d| d.as_millis() as u64)
        .unwrap_or(0)
}

fn base_request() -> PaymentRequest {
    PaymentRequest {
        transaction_id: Uuid::new_v4().as_u128(),
        payer_vpa: "alice@okaxis".to_string(),
        payee_vpa: "bob@ybl".to_string(),
        amount_paise: 1000,
        payer_bank_ifsc: "UTIB0000001".to_string(),
        payee_bank_ifsc: "YESB0000001".to_string(),
        timestamp_ms: now_ms(),
    }
}

#[test]
fn accepts_valid_request() {
    let req = base_request();
    assert!(validate_request(&req, now_ms()).is_ok());
}

#[test]
fn rejects_zero_amount() {
    let mut req = base_request();
    req.amount_paise = 0;
    assert!(matches!(
        validate_request(&req, now_ms()),
        Err(ValidationError::InvalidAmount)
    ));
}

#[test]
fn rejects_blank_vpa() {
    let mut req = base_request();
    req.payee_vpa = " \t\u{3000}".to_string();
    assert_eq!(validate_request(&req, req.timestamp_ms), Err(ValidationError::InvalidVpa));
    let mut req = base_request();
    req.payer_vpa = String::new();
    assert_eq!(validate_request(&req, req.timestamp_ms), Err(ValidationError::InvalidVpa));
}

#[test]
fn rejects_same_payer_and_payee() {
    let mut req = base_request();
    req.payee_vpa = req.payer_vpa.clone();
    assert_eq!(validate_request(&req, req.timestamp_ms), Err(ValidationError::SamePayerPayee));
}

#[test]
fn rejects_blank_ifsc() {
    let mut req = base_request();
    req.payer_bank_ifsc = "  ".to_string();
    assert_eq!(validate_request(&req, req.timestamp_ms), Err(ValidationError::InvalidIfsc));
}

#[test]
fn timestamp_window_is_one_day_back_five_minutes_ahead() {
    let now: u64 = 1_893_456_000_000;
    let mut req = base_request();
    req.timestamp_ms = now - MAX_PAST_MS;
    assert_eq!(validate_request(&req, now), Ok(()));
    req.timestamp_ms = now - MAX_PAST_MS - 1;
    assert_eq!(validate_request(&req, now), Err(ValidationError::TimestampOutOfRange));
    req.timestamp_ms = now + MAX_FUTURE_MS;
    assert_eq!(validate_request(&req, now), Ok(()));
    req.timestamp_ms = now + MAX_FUTURE_MS + 1;
    assert_eq!(validate_request(&req, now), Err(ValidationError::TimestampOutOfRange));
    assert_eq!(MAX_PAST_MS, 86_400_000);
    assert_eq!(MAX_FUTURE_MS, 300_000);
}

#[test]
fn earlier_checks_win() {
    let mut req = base_request();
    req.amount_paise = 0;
    req.payer_vpa = " ".to_string();
    req.timestamp_ms = 0;
    assert_eq!(validate_request(&req, now_ms()), Err(ValidationError::InvalidAmount));
}

#[test]
fn extreme_timestamps_are_out_of_range() {
    let mut req = base_request();
    req.timestamp_ms = u64::MAX;
    assert_eq!(
        validate_request(&req, 1_893_456_000_000),
        Err(ValidationError::TimestampOutOfRange)
    );
    req.timestamp_ms = 0;
    assert_eq!(validate_request(&req, u64::MAX), Err(ValidationError::TimestampOutOfRange));
    req.timestamp_ms = u64::MAX;
    assert_eq!(validate_request(&req, u64::MAX), Ok(()));
    req.amount_paise = 0;
    assert_eq!(validate_request(&req, 0), Err(ValidationError::InvalidAmount));
}
