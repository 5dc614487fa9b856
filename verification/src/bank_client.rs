//! Deterministic mock banks: which debits and credits fail, how long each
//! call takes, and the reference numbers that successful calls return.

use vstd::prelude::*;
use crate::text::{contains_seq, contains_text, prefix_chars, push_prefix, push_without_spaces, without_spaces};

verus! {

/// Why a bank refused or failed a call.
#[derive(Debug, Clone, PartialEq, Eq, Structural)]
pub enum BankError {
    InsufficientFunds,
    AccountNotFound,
    Timeout,
    Unavailable,
}

/// The text of a bank error, as it appears in failure reasons.
pub open spec fn bank_error_text(e: BankError) -> Seq<char> {
    match e {
        BankError::InsufficientFunds => "INSUFFICIENT_FUNDS"@,
        BankError::AccountNotFound => "ACCOUNT_NOT_FOUND"@,
        BankError::Timeout => "BANK_TIMEOUT"@,
        BankError::Unavailable => "BANK_UNAVAILABLE"@,
    }
}

impl BankError {
    /// The text of this error, such as `INSUFFICIENT_FUNDS`.
    pub fn to_string(&self) -> (s: String)
        ensures
            s@ == bank_error_text(*self),
    {
        match self {
            BankError::InsufficientFunds => String::from_str("INSUFFICIENT_FUNDS"),
            BankError::AccountNotFound => String::from_str("ACCOUNT_NOT_FOUND"),
            BankError::Timeout => String::from_str("BANK_TIMEOUT"),
            BankError::Unavailable => String::from_str("BANK_UNAVAILABLE"),
        }
    }
}

/// A debit of this amount is refused for insufficient funds.
pub const INSUFFICIENT_FUNDS_AMOUNT: u64 = 11_111;

/// A credit of this amount fails with the bank unavailable.
pub const UNAVAILABLE_AMOUNT: u64 = 22_222;

/// A credit of this amount hangs and then times out.
pub const SLOW_AMOUNT: u64 = 33_333;

/// How long a debit takes.
pub const DEBIT_DELAY_MS: u64 = 200;

/// How long a credit takes when the payee bank answers normally.
pub const CREDIT_DELAY_MS: u64 = 200;

/// How long a slow credit hangs before it reports a timeout.
pub const SLOW_CREDIT_DELAY_MS: u64 = 35_000;

/// How long a debit reversal takes.
pub const REVERSAL_DELAY_MS: u64 = 100;

/// The number of characters of the transaction id that a reference number keeps.
pub const RRN_TXN_PREFIX_CHARS: usize = 8;

/// What a bank call answers and how long it takes before it answers.
pub struct BankReply<T> {
    pub delay_ms: u64,
    pub result: Result<T, BankError>,
}

/// The view of a bank result that carries a text.
pub open spec fn result_text(r: Result<String, BankError>) -> Result<Seq<char>, BankError> {
    match r {
        Ok(s) => Ok(s@),
        Err(e) => Err(e),
    }
}

/// The retrieval reference number of a bank for a transaction and a phase:
/// `RRN-<first 8 characters of the id>-<phase>-<bank name without spaces>`.
pub open spec fn rrn_text(bank_name: Seq<char>, txn_id: Seq<char>, phase: Seq<char>) -> Seq<char> {
    "RRN-"@ + prefix_chars(txn_id, RRN_TXN_PREFIX_CHARS as nat) + "-"@ + phase + "-"@
        + without_spaces(bank_name)
}

/// What a mock bank answers to a debit.
pub open spec fn debit_decision(bank_name: Seq<char>, vpa: Seq<char>, amount_paise: u64, txn_id: Seq<char>) -> Result<Seq<char>, BankError> {
    if contains_seq(vpa, "debitfail"@) || amount_paise == INSUFFICIENT_FUNDS_AMOUNT {
        Err(BankError::InsufficientFunds)
    } else if contains_seq(vpa, "missing"@) {
        Err(BankError::AccountNotFound)
    } else {
        Ok(rrn_text(bank_name, txn_id, "DEBIT"@))
    }
}

/// A credit to this payee hangs until it times out.
pub open spec fn credit_is_slow(vpa: Seq<char>, amount_paise: u64) -> bool {
    contains_seq(vpa, "slow"@) || amount_paise == SLOW_AMOUNT
}

/// How long a mock bank takes to answer a credit.
pub open spec fn credit_delay(vpa: Seq<char>, amount_paise: u64) -> u64 {
    if credit_is_slow(vpa, amount_paise) {
        SLOW_CREDIT_DELAY_MS
    } else {
        CREDIT_DELAY_MS
    }
}

/// What a mock bank answers to a credit.
pub open spec fn credit_decision(bank_name: Seq<char>, vpa: Seq<char>, amount_paise: u64, txn_id: Seq<char>) -> Result<Seq<char>, BankError> {
    if credit_is_slow(vpa, amount_paise) {
        Err(BankError::Timeout)
    } else if contains_seq(vpa, "creditfail"@) || amount_paise == UNAVAILABLE_AMOUNT {
        Err(BankError::Unavailable)
    } else if contains_seq(vpa, "missing"@) {
        Err(BankError::AccountNotFound)
    } else {
        Ok(rrn_text(bank_name, txn_id, "CREDIT"@))
    }
}

/// A debit is refused for insufficient funds exactly when the VPA contains
/// `debitfail` or the amount is exactly 11 111 paise; failing that, it is
/// refused for a missing account exactly when the VPA contains `missing`;
/// every other debit, of any amount, succeeds with the reference number
/// `RRN-<first eight characters of the transaction id>-DEBIT-<bank name
/// without spaces>`.
pub proof fn lemma_debit_answers(bank_name: Seq<char>, vpa: Seq<char>, amount_paise: u64, txn_id: Seq<char>)
    ensures
        ({
            let answer = debit_decision(bank_name, vpa, amount_paise, txn_id);
            let refused_funds = contains_seq(vpa, "debitfail"@) || amount_paise == 11_111;
            &&& (answer == Err::<Seq<char>, BankError>(BankError::InsufficientFunds)) == refused_funds
            &&& !refused_funds && contains_seq(vpa, "missing"@) ==> answer == Err::<
                Seq<char>,
                BankError,
            >(BankError::AccountNotFound)
            &&& !refused_funds && !contains_seq(vpa, "missing"@) ==> answer == Ok::<
                Seq<char>,
                BankError,
            >("RRN-"@ + prefix_chars(txn_id, 8) + "-"@ + "DEBIT"@ + "-"@ + without_spaces(bank_name))
        }),
{
}

/// A credit hangs for 35 seconds and times out exactly when the VPA
/// contains `slow` or the amount is exactly 33 333 paise; every other credit
/// answers after 200 ms. Failing the timeout, it fails with the bank
/// unavailable when the VPA contains `creditfail` or the amount is exactly
/// 22 222 paise, then with a missing account when the VPA contains
/// `missing`; every other credit, of any amount, succeeds with the reference
/// number `RRN-<first eight characters of the transaction id>-CREDIT-<bank
/// name without spaces>`.
pub proof fn lemma_credit_answers(bank_name: Seq<char>, vpa: Seq<char>, amount_paise: u64, txn_id: Seq<char>)
    ensures
        ({
            let answer = credit_decision(bank_name, vpa, amount_paise, txn_id);
            let hangs = contains_seq(vpa, "slow"@) || amount_paise == 33_333;
            let unavailable = contains_seq(vpa, "creditfail"@) || amount_paise == 22_222;
            &&& (answer == Err::<Seq<char>, BankError>(BankError::Timeout)) == hangs
            &&& credit_delay(vpa, amount_paise) == (if hangs { 35_000u64 } else { 200u64 })
            &&& !hangs && unavailable ==> answer == Err::<Seq<char>, BankError>(BankError::Unavailable)
            &&& !hangs && !unavailable && contains_seq(vpa, "missing"@) ==> answer == Err::<
                Seq<char>,
                BankError,
            >(BankError::AccountNotFound)
            &&& !hangs && !unavailable && !contains_seq(vpa, "missing"@) ==> answer == Ok::<
                Seq<char>,
                BankError,
            >("RRN-"@ + prefix_chars(txn_id, 8) + "-"@ + "CREDIT"@ + "-"@ + without_spaces(bank_name))
        }),
{
}

/// Each bank error reads as its name in upper case, with `BANK_` before the
/// two errors that concern the bank itself.
pub proof fn lemma_bank_error_texts(e: BankError)
    ensures
        (match e {
            BankError::InsufficientFunds => bank_error_text(e) == "INSUFFICIENT_FUNDS"@,
            BankError::AccountNotFound => bank_error_text(e) == "ACCOUNT_NOT_FOUND"@,
            BankError::Timeout => bank_error_text(e) == "BANK_TIMEOUT"@,
            BankError::Unavailable => bank_error_text(e) == "BANK_UNAVAILABLE"@,
        }),
{
}

/// A debit answers after 200 ms and a reversal after 100 ms.
pub proof fn lemma_fixed_delays()
    ensures
        DEBIT_DELAY_MS == 200,
        REVERSAL_DELAY_MS == 100,
{
}

/// A bank whose answers depend only on the account, the amount and the transaction id.
pub struct MockBank {
    pub name: String,
}

impl MockBank {
    pub fn new(name: String) -> (bank: Self)
        ensures
            bank.name == name,
    {
        Self { name }
    }

    /// The reference number this bank gives a transaction in a phase.
    pub fn rrn(&self, txn_id: &str, phase: &str) -> (r: String)
        ensures
            r@ == rrn_text(self.name@, txn_id@, phase@),
    {
        let mut out = String::from_str("RRN-");
        push_prefix(&mut out, txn_id, RRN_TXN_PREFIX_CHARS);
        out.append("-");
        out.append(phase);
        out.append("-");
        push_without_spaces(&mut out, self.name.as_str());
        assert(out@ =~= rrn_text(self.name@, txn_id@, phase@));
        out
    }

    /// How this bank answers a debit of `amount_paise` from `vpa`.
    pub fn debit_reply(&self, vpa: &str, amount_paise: u64, txn_id: &str) -> (reply: BankReply<String>)
        ensures
            reply.delay_ms == DEBIT_DELAY_MS,
            result_text(reply.result) == debit_decision(self.name@, vpa@, amount_paise, txn_id@),
    {
        if contains_text(vpa, "debitfail") || amount_paise == INSUFFICIENT_FUNDS_AMOUNT {
            return BankReply { delay_ms: DEBIT_DELAY_MS, result: Err(BankError::InsufficientFunds) };
        }
        if contains_text(vpa, "missing") {
            return BankReply { delay_ms: DEBIT_DELAY_MS, result: Err(BankError::AccountNotFound) };
        }
        BankReply { delay_ms: DEBIT_DELAY_MS, result: Ok(self.rrn(txn_id, "DEBIT")) }
    }

    /// How this bank answers a credit of `amount_paise` to `vpa`.
    pub fn credit_reply(&self, vpa: &str, amount_paise: u64, txn_id: &str) -> (reply: BankReply<String>)
        ensures
            reply.delay_ms == credit_delay(vpa@, amount_paise),
            result_text(reply.result) == credit_decision(self.name@, vpa@, amount_paise, txn_id@),
    {
        if contains_text(vpa, "slow") || amount_paise == SLOW_AMOUNT {
            return BankReply { delay_ms: SLOW_CREDIT_DELAY_MS, result: Err(BankError::Timeout) };
        }
        if contains_text(vpa, "creditfail") || amount_paise == UNAVAILABLE_AMOUNT {
            return BankReply { delay_ms: CREDIT_DELAY_MS, result: Err(BankError::Unavailable) };
        }
        if contains_text(vpa, "missing") {
            return BankReply { delay_ms: CREDIT_DELAY_MS, result: Err(BankError::AccountNotFound) };
        }
        BankReply { delay_ms: CREDIT_DELAY_MS, result: Ok(self.rrn(txn_id, "CREDIT")) }
    }

    /// How this bank answers the reversal of a debit: it always succeeds.
    pub fn reverse_debit_reply(&self, _vpa: &str, _amount_paise: u64, _txn_id: &str) -> (reply: BankReply<()>)
        ensures
            reply.delay_ms == REVERSAL_DELAY_MS,
            reply.result == Ok::<(), BankError>(()),
    {
        BankReply { delay_ms: REVERSAL_DELAY_MS, result: Ok(()) }
    }
}

} // verus!
