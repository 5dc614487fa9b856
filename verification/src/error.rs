use vstd::prelude::*;

verus! {

/// Error codes exposed to API clients.
#[derive(Debug, Clone, Copy, PartialEq, Eq, Structural)]
pub enum ApiErrorCode {
    InvalidVpa,
    InvalidIfsc,
    InvalidAmount,
    SamePayerPayee,
    TimestampOutOfRange,
    Timeout,
    Processing,
    Unknown,
}

/// The wire text of an error code.
pub open spec fn api_code_text(code: ApiErrorCode) -> Seq<char> {
    match code {
        ApiErrorCode::InvalidVpa => "INVALID_VPA"@,
        ApiErrorCode::InvalidIfsc => "INVALID_IFSC"@,
        ApiErrorCode::InvalidAmount => "INVALID_AMOUNT"@,
        ApiErrorCode::SamePayerPayee => "SAME_PAYER_PAYEE"@,
        ApiErrorCode::TimestampOutOfRange => "TIMESTAMP_OUT_OF_RANGE"@,
        ApiErrorCode::Timeout => "TIMEOUT"@,
        ApiErrorCode::Processing => "PROCESSING"@,
        ApiErrorCode::Unknown => "UNKNOWN"@,
    }
}

impl ApiErrorCode {
    /// The wire text of this code, such as `INVALID_VPA`.
    pub fn to_string(&self) -> (s: String)
        ensures
            s@ == api_code_text(*self),
    {
        match self {
            ApiErrorCode::InvalidVpa => String::from_str("INVALID_VPA"),
            ApiErrorCode::InvalidIfsc => String::from_str("INVALID_IFSC"),
            ApiErrorCode::InvalidAmount => String::from_str("INVALID_AMOUNT"),
            ApiErrorCode::SamePayerPayee => String::from_str("SAME_PAYER_PAYEE"),
            ApiErrorCode::TimestampOutOfRange => String::from_str("TIMESTAMP_OUT_OF_RANGE"),
            ApiErrorCode::Timeout => String::from_str("TIMEOUT"),
            ApiErrorCode::Processing => String::from_str("PROCESSING"),
            ApiErrorCode::Unknown => String::from_str("UNKNOWN"),
        }
    }
}

/// Why a payment request was rejected before reaching any bank.
#[derive(Debug, Clone, Copy, PartialEq, Eq, Structural)]
pub enum ValidationError {
    InvalidVpa,
    InvalidIfsc,
    InvalidAmount,
    SamePayerPayee,
    TimestampOutOfRange,
}

/// The API error code that reports a validation error.
pub open spec fn validation_code(err: ValidationError) -> ApiErrorCode {
    match err {
        ValidationError::InvalidVpa => ApiErrorCode::InvalidVpa,
        ValidationError::InvalidIfsc => ApiErrorCode::InvalidIfsc,
        ValidationError::InvalidAmount => ApiErrorCode::InvalidAmount,
        ValidationError::SamePayerPayee => ApiErrorCode::SamePayerPayee,
        ValidationError::TimestampOutOfRange => ApiErrorCode::TimestampOutOfRange,
    }
}

/// The human-readable message of a validation error.
pub open spec fn validation_message(err: ValidationError) -> Seq<char> {
    match err {
        ValidationError::InvalidVpa => "invalid vpa"@,
        ValidationError::InvalidIfsc => "invalid ifsc"@,
        ValidationError::InvalidAmount => "invalid amount"@,
        ValidationError::SamePayerPayee => "payer and payee must differ"@,
        ValidationError::TimestampOutOfRange => "timestamp out of range"@,
    }
}

impl ValidationError {
    /// The API error code reported to the client for this error.
    pub fn code(&self) -> (c: ApiErrorCode)
        ensures
            c == validation_code(*self),
    {
        match self {
            ValidationError::InvalidVpa => ApiErrorCode::InvalidVpa,
            ValidationError::InvalidIfsc => ApiErrorCode::InvalidIfsc,
            ValidationError::InvalidAmount => ApiErrorCode::InvalidAmount,
            ValidationError::SamePayerPayee => ApiErrorCode::SamePayerPayee,
            ValidationError::TimestampOutOfRange => ApiErrorCode::TimestampOutOfRange,
        }
    }

    /// The human-readable message of this error, such as `invalid vpa`.
    pub fn to_string(&self) -> (s: String)
        ensures
            s@ == validation_message(*self),
    {
        match self {
            ValidationError::InvalidVpa => String::from_str("invalid vpa"),
            ValidationError::InvalidIfsc => String::from_str("invalid ifsc"),
            ValidationError::InvalidAmount => String::from_str("invalid amount"),
            ValidationError::SamePayerPayee => String::from_str("payer and payee must differ"),
            ValidationError::TimestampOutOfRange => String::from_str("timestamp out of range"),
        }
    }
}

/// Each validation error is reported under the code of the same name, whose
/// text is that name in upper case with underscores; its message names the
/// failed check in lower case.
pub proof fn lemma_validation_code_texts(err: ValidationError)
    ensures
        (match err {
            ValidationError::InvalidVpa => api_code_text(validation_code(err)) == "INVALID_VPA"@
                && validation_message(err) == "invalid vpa"@,
            ValidationError::InvalidIfsc => api_code_text(validation_code(err)) == "INVALID_IFSC"@
                && validation_message(err) == "invalid ifsc"@,
            ValidationError::InvalidAmount => api_code_text(validation_code(err)) == "INVALID_AMOUNT"@
                && validation_message(err) == "invalid amount"@,
            ValidationError::SamePayerPayee => api_code_text(validation_code(err)) == "SAME_PAYER_PAYEE"@
                && validation_message(err) == "payer and payee must differ"@,
            ValidationError::TimestampOutOfRange => api_code_text(validation_code(err))
                == "TIMESTAMP_OUT_OF_RANGE"@ && validation_message(err) == "timestamp out of range"@,
        }),
{
}

} // verus!
