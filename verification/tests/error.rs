use upi_switch::error::{ApiErrorCode, ValidationError};

#[test]
fn validation_errors_map_to_codes() {
    assert_eq!(ValidationError::InvalidVpa.code(), ApiErrorCode::InvalidVpa);
    assert_eq!(ValidationError::InvalidIfsc.code(), ApiErrorCode::InvalidIfsc);
    assert_eq!(ValidationError::InvalidAmount.code(), ApiErrorCode::InvalidAmount);
    assert_eq!(ValidationError::SamePayerPayee.code(), ApiErrorCode::SamePayerPayee);
    assert_eq!(
        ValidationError::TimestampOutOfRange.code(),
        ApiErrorCode::TimestampOutOfRange
    );
}

#[test]
fn api_codes_have_wire_text() {
    assert_eq!(ApiErrorCode::InvalidVpa.to_string(), "INVALID_VPA");
    assert_eq!(ApiErrorCode::InvalidIfsc.to_string(), "INVALID_IFSC");
    assert_eq!(ApiErrorCode::InvalidAmount.to_string(), "INVALID_AMOUNT");
    assert_eq!(ApiErrorCode::SamePayerPayee.to_string(), "SAME_PAYER_PAYEE");
    assert_eq!(ApiErrorCode::TimestampOutOfRange.to_string(), "TIMESTAMP_OUT_OF_RANGE");
    assert_eq!(ApiErrorCode::Timeout.to_string(), "TIMEOUT");
    assert_eq!(ApiErrorCode::Processing.to_string(), "PROCESSING");
    assert_eq!(ApiErrorCode::Unknown.to_string(), "UNKNOWN");
}

#[test]
fn validation_errors_have_messages() {
    assert_eq!(ValidationError::InvalidVpa.to_string(), "invalid vpa");
    assert_eq!(ValidationError::InvalidIfsc.to_string(), "invalid ifsc");
    assert_eq!(ValidationError::InvalidAmount.to_string(), "invalid amount");
    assert_eq!(ValidationError::SamePayerPayee.to_string(), "payer and payee must differ");
    assert_eq!(ValidationError::TimestampOutOfRange.to_string(), "timestamp out of range");
}
