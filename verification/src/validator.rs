//! Checks a payment request before any money moves.

use vstd::prelude::*;
use crate::error::ValidationError;
use crate::text::{is_blank, trims_to_empty};
use crate::types::PaymentRequest;

verus! {

/// How far in the past a request's timestamp may lie: one day.
pub const MAX_PAST_MS: u64 = 24 * 60 * 60 * 1000;

/// How far in the future a request's timestamp may lie: five minutes.
pub const MAX_FUTURE_MS: u64 = 5 * 60 * 1000;

/// The verdict on a request received at `now_ms` (milliseconds since the
/// Unix epoch). The checks run in this order and the first that fails decides;
/// the timestamp window is computed without overflow.
pub open spec fn validation_outcome(req: PaymentRequest, now_ms: u64) -> Result<(), ValidationError> {
    if req.amount_paise == 0 {
        Err(ValidationError::InvalidAmount)
    } else if trims_to_empty(req.payer_vpa@) || trims_to_empty(req.payee_vpa@) {
        Err(ValidationError::InvalidVpa)
    } else if req.payer_vpa@ == req.payee_vpa@ {
        Err(ValidationError::SamePayerPayee)
    } else if trims_to_empty(req.payer_bank_ifsc@) || trims_to_empty(req.payee_bank_ifsc@) {
        Err(ValidationError::InvalidIfsc)
    } else if req.timestamp_ms + MAX_PAST_MS < now_ms || req.timestamp_ms > now_ms + MAX_FUTURE_MS {
        Err(ValidationError::TimestampOutOfRange)
    } else {
        Ok(())
    }
}

/// Validates `req` as received at `now_ms` (milliseconds since the Unix epoch).
pub fn validate_request(req: &PaymentRequest, now_ms: u64) -> (r: Result<(), ValidationError>)
    ensures
        r == validation_outcome(*req, now_ms),
{
    if req.amount_paise == 0 {
        return Err(ValidationError::InvalidAmount);
    }
    if is_blank(req.payer_vpa.as_str()) || is_blank(req.payee_vpa.as_str()) {
        return Err(ValidationError::InvalidVpa);
    }
    if req.payer_vpa == req.payee_vpa {
        return Err(ValidationError::SamePayerPayee);
    }
    if is_blank(req.payer_bank_ifsc.as_str()) || is_blank(req.payee_bank_ifsc.as_str()) {
        return Err(ValidationError::InvalidIfsc);
    }
    let timestamp = req.timestamp_ms as u128;
    let now = now_ms as u128;
    if timestamp + (MAX_PAST_MS as u128) < now || timestamp > now + (MAX_FUTURE_MS as u128) {
        return Err(ValidationError::TimestampOutOfRange);
    }
    Ok(())
}

/// A request is accepted exactly when its amount is non-zero, both VPAs and
/// both IFSCs hold a character other than whitespace, the payer's VPA differs
/// from the payee's, and its timestamp lies at most one day (86 400 000 ms)
/// before the clock and at most five minutes (300 000 ms) after it.
pub proof fn lemma_acceptance(req: PaymentRequest, now_ms: u64)
    ensures
        validation_outcome(req, now_ms) is Ok <==> ({
            &&& req.amount_paise > 0
            &&& !trims_to_empty(req.payer_vpa@)
            &&& !trims_to_empty(req.payee_vpa@)
            &&& req.payer_vpa@ != req.payee_vpa@
            &&& !trims_to_empty(req.payer_bank_ifsc@)
            &&& !trims_to_empty(req.payee_bank_ifsc@)
            &&& now_ms - 86_400_000 <= req.timestamp_ms <= now_ms + 300_000
        }),
{
}

/// A refused request is refused for the first check it fails, in the order
/// amount, VPAs, payer against payee, IFSCs, timestamp; a blank IFSC of
/// either bank is never accepted.
pub proof fn lemma_refusal_reasons(req: PaymentRequest, now_ms: u64)
    ensures
        req.amount_paise == 0 ==> validation_outcome(req, now_ms) == Err::<(), ValidationError>(
            ValidationError::InvalidAmount,
        ),
        req.amount_paise != 0 && (trims_to_empty(req.payer_vpa@) || trims_to_empty(req.payee_vpa@))
            ==> validation_outcome(req, now_ms) == Err::<(), ValidationError>(
            ValidationError::InvalidVpa,
        ),
        req.amount_paise != 0 && !trims_to_empty(req.payer_vpa@) && !trims_to_empty(req.payee_vpa@)
            && req.payer_vpa@ == req.payee_vpa@ ==> validation_outcome(req, now_ms) == Err::<
            (),
            ValidationError,
        >(ValidationError::SamePayerPayee),
        req.amount_paise != 0 && !trims_to_empty(req.payer_vpa@) && !trims_to_empty(req.payee_vpa@)
            && req.payer_vpa@ != req.payee_vpa@ && (trims_to_empty(req.payer_bank_ifsc@)
            || trims_to_empty(req.payee_bank_ifsc@)) ==> validation_outcome(req, now_ms) == Err::<
            (),
            ValidationError,
        >(ValidationError::InvalidIfsc),
        (trims_to_empty(req.payer_bank_ifsc@) || trims_to_empty(req.payee_bank_ifsc@))
            ==> validation_outcome(req, now_ms) is Err,
        validation_outcome(req, now_ms) is Err && !trims_to_empty(req.payer_bank_ifsc@)
            && !trims_to_empty(req.payee_bank_ifsc@) && req.amount_paise != 0 && !trims_to_empty(
            req.payer_vpa@,
        ) && !trims_to_empty(req.payee_vpa@) && req.payer_vpa@ != req.payee_vpa@
            ==> validation_outcome(req, now_ms) == Err::<(), ValidationError>(
            ValidationError::TimestampOutOfRange,
        ) && (req.timestamp_ms < now_ms - 86_400_000 || req.timestamp_ms > now_ms + 300_000),
{
}

} // verus!
