//! The decisions the switch makes around one `/pay` request: whether a
//! request is refused, answered from the store as a duplicate, or executed,
//! and what the client is told once a payment has ended.

use vstd::prelude::*;
use crate::error::{api_code_text, validation_code, ApiErrorCode, ValidationError};
use crate::idempotency::{after_begin, after_finalize, finalize, get_state, lookup, try_begin, IdempotencyStore};
use crate::types::{opt_text, PaymentRequest, PaymentResponse, TxnState, TxnStatus};
use crate::validator::{validate_request, validation_outcome};

verus! {

/// HTTP 200 OK.
pub const HTTP_OK: u16 = 200;

/// HTTP 402 Payment Required.
pub const HTTP_PAYMENT_REQUIRED: u16 = 402;

/// HTTP 500 Internal Server Error.
pub const HTTP_INTERNAL_SERVER_ERROR: u16 = 500;

/// HTTP 504 Gateway Timeout.
pub const HTTP_GATEWAY_TIMEOUT: u16 = 504;

/// What the client is told about a request, apart from its transaction id
/// and the time it took.
#[derive(Debug)]
pub struct PaymentReply {
    pub http_status: u16,
    pub status: TxnStatus,
    pub rrn: Option<String>,
    pub error_code: Option<String>,
}

/// A reply with its texts taken as character sequences.
pub struct ReplyView {
    pub http_status: u16,
    pub status: TxnStatus,
    pub rrn: Option<Seq<char>>,
    pub error_code: Option<Seq<char>>,
}

impl View for PaymentReply {
    type V = ReplyView;

    open spec fn view(&self) -> ReplyView {
        ReplyView {
            http_status: self.http_status,
            status: self.status,
            rrn: opt_text(self.rrn),
            error_code: opt_text(self.error_code),
        }
    }
}

/// The reply to a request that fails validation with `err`.
pub open spec fn rejection_view(err: ValidationError) -> ReplyView {
    ReplyView {
        http_status: HTTP_PAYMENT_REQUIRED,
        status: TxnStatus::Failed,
        rrn: None,
        error_code: Some(api_code_text(validation_code(err))),
    }
}

/// The reply to a request whose transaction id the store already holds,
/// with `cached` the state recorded for it.
pub open spec fn duplicate_view(cached: Option<TxnState>) -> ReplyView {
    let (rrn, error_code) = match cached {
        Some(TxnState::Settled { rrn }) => (Some(rrn@), None),
        Some(TxnState::Failed { reason }) => (None, Some(reason@)),
        Some(TxnState::TimedOut) => (None, Some(api_code_text(ApiErrorCode::Timeout))),
        Some(TxnState::Processing) => (None, Some(api_code_text(ApiErrorCode::Processing))),
        None => (None, Some(api_code_text(ApiErrorCode::Unknown))),
    };
    ReplyView { http_status: HTTP_OK, status: TxnStatus::Duplicate, rrn, error_code }
}

/// The reply to a payment that was executed and ended in `state`:
/// SUCCESS is 200, FAILED is 402 and TIMEOUT is 504.
pub open spec fn completion_view(state: TxnState) -> ReplyView {
    match state {
        TxnState::Settled { rrn } => ReplyView {
            http_status: HTTP_OK,
            status: TxnStatus::Success,
            rrn: Some(rrn@),
            error_code: None,
        },
        TxnState::Failed { reason } => ReplyView {
            http_status: HTTP_PAYMENT_REQUIRED,
            status: TxnStatus::Failed,
            rrn: None,
            error_code: Some(reason@),
        },
        TxnState::TimedOut => ReplyView {
            http_status: HTTP_GATEWAY_TIMEOUT,
            status: TxnStatus::Timeout,
            rrn: None,
            error_code: Some(api_code_text(ApiErrorCode::Timeout)),
        },
        TxnState::Processing => ReplyView {
            http_status: HTTP_INTERNAL_SERVER_ERROR,
            status: TxnStatus::Failed,
            rrn: None,
            error_code: Some(api_code_text(ApiErrorCode::Unknown)),
        },
    }
}

/// The reply to a request that fails validation with `err`.
pub fn rejection_reply(err: &ValidationError) -> (r: PaymentReply)
    ensures
        r@ == rejection_view(*err),
{
    let code = err.code();
    PaymentReply {
        http_status: HTTP_PAYMENT_REQUIRED,
        status: TxnStatus::Failed,
        rrn: None,
        error_code: Some(code.to_string()),
    }
}

/// The reply to a repeated transaction id whose recorded state is `cached`.
pub fn duplicate_reply(cached: Option<TxnState>) -> (r: PaymentReply)
    ensures
        r@ == duplicate_view(cached),
{
    let (rrn, error_code) = match cached {
        Some(TxnState::Settled { rrn }) => (Some(rrn), None),
        Some(TxnState::Failed { reason }) => (None, Some(reason)),
        Some(TxnState::TimedOut) => (None, Some(ApiErrorCode::Timeout.to_string())),
        Some(TxnState::Processing) => (None, Some(ApiErrorCode::Processing.to_string())),
        None => (None, Some(ApiErrorCode::Unknown.to_string())),
    };
    PaymentReply { http_status: HTTP_OK, status: TxnStatus::Duplicate, rrn, error_code }
}

/// The reply to an executed payment that ended in `state`.
pub fn completion_reply(state: TxnState) -> (r: PaymentReply)
    ensures
        r@ == completion_view(state),
{
    match state {
        TxnState::Settled { rrn } => PaymentReply {
            http_status: HTTP_OK,
            status: TxnStatus::Success,
            rrn: Some(rrn),
            error_code: None,
        },
        TxnState::Failed { reason } => PaymentReply {
            http_status: HTTP_PAYMENT_REQUIRED,
            status: TxnStatus::Failed,
            rrn: None,
            error_code: Some(reason),
        },
        TxnState::TimedOut => PaymentReply {
            http_status: HTTP_GATEWAY_TIMEOUT,
            status: TxnStatus::Timeout,
            rrn: None,
            error_code: Some(ApiErrorCode::Timeout.to_string()),
        },
        TxnState::Processing => PaymentReply {
            http_status: HTTP_INTERNAL_SERVER_ERROR,
            status: TxnStatus::Failed,
            rrn: None,
            error_code: Some(ApiErrorCode::Unknown.to_string()),
        },
    }
}

impl PaymentReply {
    /// The response sent to the client for transaction `transaction_id`
    /// after `processing_time_ms` milliseconds.
    pub fn into_response(self, transaction_id: u128, processing_time_ms: u64) -> (resp: PaymentResponse)
        ensures
            resp.transaction_id == transaction_id,
            resp.status == self.status,
            resp.rrn == self.rrn,
            resp.error_code == self.error_code,
            resp.processing_time_ms == processing_time_ms,
    {
        PaymentResponse {
            transaction_id,
            status: self.status,
            rrn: self.rrn,
            error_code: self.error_code,
            processing_time_ms,
        }
    }
}

/// Every request refused by validation is answered with HTTP 402 and status
/// FAILED, carries no reference number, and names the API code of its error.
pub proof fn lemma_rejections_are_payment_required(err: ValidationError)
    ensures
        rejection_view(err).http_status == 402,
        rejection_view(err).status == TxnStatus::Failed,
        rejection_view(err).rrn is None,
        rejection_view(err).error_code == Some(api_code_text(validation_code(err))),
{
}

/// An executed payment is reported SUCCESS exactly when it settled, and then
/// with HTTP 200 and its reference number; a failed one is reported FAILED
/// with HTTP 402 and its reason; a timed-out one TIMEOUT with HTTP 504; only
/// a settled payment carries a reference number.
pub proof fn lemma_completion_statuses(state: TxnState)
    ensures
        (completion_view(state).status == TxnStatus::Success) == (state is Settled),
        (completion_view(state).rrn is Some) == (state is Settled),
        (match state {
            TxnState::Settled { rrn } => completion_view(state) == ReplyView {
                http_status: 200,
                status: TxnStatus::Success,
                rrn: Some(rrn@),
                error_code: None,
            },
            TxnState::Failed { reason } => completion_view(state) == ReplyView {
                http_status: 402,
                status: TxnStatus::Failed,
                rrn: None,
                error_code: Some(reason@),
            },
            TxnState::TimedOut => completion_view(state) == ReplyView {
                http_status: 504,
                status: TxnStatus::Timeout,
                rrn: None,
                error_code: Some("TIMEOUT"@),
            },
            TxnState::Processing => completion_view(state) == ReplyView {
                http_status: 500,
                status: TxnStatus::Failed,
                rrn: None,
                error_code: Some("UNKNOWN"@),
            },
        }),
{
}

/// A repeated transaction id is always answered with HTTP 200 and status
/// DUPLICATE; it carries the reference number exactly when the recorded
/// payment settled, the failure reason when it failed, and otherwise TIMEOUT,
/// PROCESSING or UNKNOWN for a timed-out, in-flight or unrecorded payment.
pub proof fn lemma_duplicate_statuses(cached: Option<TxnState>)
    ensures
        duplicate_view(cached).http_status == 200,
        duplicate_view(cached).status == TxnStatus::Duplicate,
        (duplicate_view(cached).rrn is Some) == (cached matches Some(TxnState::Settled { .. })),
        (match cached {
            Some(TxnState::Settled { rrn }) => duplicate_view(cached).rrn == Some(rrn@)
                && duplicate_view(cached).error_code is None,
            Some(TxnState::Failed { reason }) => duplicate_view(cached).error_code == Some(reason@),
            Some(TxnState::TimedOut) => duplicate_view(cached).error_code == Some("TIMEOUT"@),
            Some(TxnState::Processing) => duplicate_view(cached).error_code == Some("PROCESSING"@),
            None => duplicate_view(cached).error_code == Some("UNKNOWN"@),
        }),
{
}

/// How the switch disposes of an incoming request.
#[derive(Debug)]
pub enum Admission {
    /// Answer at once with this reply; no bank is called.
    Respond(PaymentReply),
    /// The transaction id is claimed: run the payment, then call `complete_payment`.
    Execute,
}

/// An admission with its reply taken as a view.
pub enum AdmissionView {
    Respond(ReplyView),
    Execute,
}

impl View for Admission {
    type V = AdmissionView;

    open spec fn view(&self) -> AdmissionView {
        match self {
            Admission::Respond(r) => AdmissionView::Respond(r@),
            Admission::Execute => AdmissionView::Execute,
        }
    }
}

/// How a request received at `now_ms` is disposed of against store `m`:
/// an invalid request is refused, a known transaction id is answered from
/// the store, and a new one is executed.
pub open spec fn admission_for(m: Map<u128, TxnState>, req: PaymentRequest, now_ms: u64) -> AdmissionView {
    match validation_outcome(req, now_ms) {
        Err(e) => AdmissionView::Respond(rejection_view(e)),
        Ok(()) => if m.contains_key(req.transaction_id) {
            AdmissionView::Respond(duplicate_view(lookup(m, req.transaction_id)))
        } else {
            AdmissionView::Execute
        },
    }
}

/// The store after a request received at `now_ms` has been admitted or refused.
pub open spec fn store_after_admission(m: Map<u128, TxnState>, req: PaymentRequest, now_ms: u64) -> Map<u128, TxnState> {
    if validation_outcome(req, now_ms) is Ok {
        after_begin(m, req.transaction_id)
    } else {
        m
    }
}

/// Validates `req` as received at `now_ms` and, when it is valid, claims its
/// transaction id in `store`.
pub fn begin_payment(store: &mut IdempotencyStore, req: &PaymentRequest, now_ms: u64) -> (a: Admission)
    ensures
        a@ == admission_for(old(store)@, *req, now_ms),
        final(store)@ == store_after_admission(old(store)@, *req, now_ms),
{
    match validate_request(req, now_ms) {
        Err(err) => Admission::Respond(rejection_reply(&err)),
        Ok(()) => {
            let txn_id = req.transaction_id;
            if try_begin(store, txn_id) {
                Admission::Execute
            } else {
                let cached = get_state(store, &txn_id);
                Admission::Respond(duplicate_reply(cached))
            }
        },
    }
}

/// Records the end state of an executed payment and builds its reply.
pub fn complete_payment(store: &mut IdempotencyStore, txn_id: u128, final_state: TxnState) -> (r: PaymentReply)
    ensures
        final(store)@ == after_finalize(old(store)@, txn_id, final_state),
        r@ == completion_view(final_state),
{
    finalize(store, txn_id, final_state.clone());
    completion_reply(final_state)
}

/// Something that happens at the switch's store: a request arrives at
/// `now_ms`, or an executed payment ends in `state`.
pub enum GatewayEvent {
    Arrival { req: PaymentRequest, now_ms: u64 },
    Completion { txn_id: u128, state: TxnState },
}

/// The store after one event.
pub open spec fn apply_event(m: Map<u128, TxnState>, e: GatewayEvent) -> Map<u128, TxnState> {
    match e {
        GatewayEvent::Arrival { req, now_ms } => store_after_admission(m, req, now_ms),
        GatewayEvent::Completion { txn_id, state } => after_finalize(m, txn_id, state),
    }
}

/// The event is a request for `txn_id` that store `m` admits for execution.
pub open spec fn executes(m: Map<u128, TxnState>, e: GatewayEvent, txn_id: u128) -> bool {
    &&& e matches GatewayEvent::Arrival { req, now_ms }
    &&& req.transaction_id == txn_id
    &&& admission_for(m, req, now_ms) is Execute
}

/// How many of `events`, applied in order from store `m`, execute a payment
/// for `txn_id`.
pub open spec fn executions_of(m: Map<u128, TxnState>, events: Seq<GatewayEvent>, txn_id: u128) -> nat
    decreases events.len(),
{
    if events.len() == 0 {
        0
    } else {
        (if executes(m, events[0], txn_id) { 1nat } else { 0nat }) + executions_of(
            apply_event(m, events[0]),
            events.drop_first(),
            txn_id,
        )
    }
}

/// Whatever requests and completions reach the store, and in whatever
/// order, a transaction id is executed at most once; an id the store
/// already holds is never executed again.
pub proof fn lemma_single_execution(m: Map<u128, TxnState>, events: Seq<GatewayEvent>, txn_id: u128)
    ensures
        executions_of(m, events, txn_id) <= 1,
        m.contains_key(txn_id) ==> executions_of(m, events, txn_id) == 0,
    decreases events.len(),
{
    if events.len() > 0 {
        let m1 = apply_event(m, events[0]);
        lemma_single_execution(m1, events.drop_first(), txn_id);
        if executes(m, events[0], txn_id) {
            assert(m1.contains_key(txn_id));
        }
    }
}

/// The store after `events`, applied in order from store `m`.
pub open spec fn replay(m: Map<u128, TxnState>, events: Seq<GatewayEvent>) -> Map<u128, TxnState>
    decreases events.len(),
{
    if events.len() == 0 {
        m
    } else {
        replay(apply_event(m, events[0]), events.drop_first())
    }
}

/// The event may happen at store `m` as far as `txn_id` is concerned: a
/// completion for `txn_id` comes only while its execution is in flight
/// (the store holds it as processing) and reports how the payment ended.
pub open spec fn completion_in_turn(m: Map<u128, TxnState>, e: GatewayEvent, txn_id: u128) -> bool {
    match e {
        GatewayEvent::Completion { txn_id: done_id, state } => done_id == txn_id ==> (lookup(m, txn_id)
            == Some(TxnState::Processing) && !(state is Processing)),
        GatewayEvent::Arrival { .. } => true,
    }
}

/// Every completion for `txn_id` among `events`, applied in order from `m`,
/// follows the execution it completes.
pub open spec fn completions_follow_execution(m: Map<u128, TxnState>, events: Seq<GatewayEvent>, txn_id: u128) -> bool
    decreases events.len(),
{
    events.len() == 0 || (completion_in_turn(m, events[0], txn_id) && completions_follow_execution(
        apply_event(m, events[0]),
        events.drop_first(),
        txn_id,
    ))
}

/// Once the store holds how a payment ended (settled, failed or timed out),
/// that entry stays as it is through any later requests and completions in
/// which completions for the id follow its execution.
pub proof fn lemma_final_entry_is_kept(m: Map<u128, TxnState>, events: Seq<GatewayEvent>, txn_id: u128)
    requires
        m.contains_key(txn_id),
        !(m[txn_id] is Processing),
        completions_follow_execution(m, events, txn_id),
    ensures
        lookup(replay(m, events), txn_id) == lookup(m, txn_id),
    decreases events.len(),
{
    if events.len() > 0 {
        let m1 = apply_event(m, events[0]);
        assert(m1.contains_key(txn_id) && m1[txn_id] == m[txn_id]);
        lemma_final_entry_is_kept(m1, events.drop_first(), txn_id);
    }
}

/// Replaying a sequence is replaying its first `k` events, then the rest; and
/// the order of completions holds of both parts.
pub proof fn lemma_replay_split(m: Map<u128, TxnState>, events: Seq<GatewayEvent>, txn_id: u128, k: int)
    requires
        0 <= k <= events.len(),
    ensures
        replay(m, events) == replay(replay(m, events.take(k)), events.skip(k)),
        completions_follow_execution(m, events, txn_id) ==> completions_follow_execution(
            replay(m, events.take(k)),
            events.skip(k),
            txn_id,
        ),
    decreases k,
{
    if k > 0 {
        let m1 = apply_event(m, events[0]);
        let rest = events.drop_first();
        lemma_replay_split(m1, rest, txn_id, k - 1);
        assert(events.take(k).drop_first() =~= rest.take(k - 1));
        assert(events.take(k)[0] == events[0]);
        assert(rest.skip(k - 1) =~= events.skip(k));
    } else {
        assert(events.take(0) =~= Seq::<GatewayEvent>::empty());
        assert(events.skip(0) =~= events);
    }
}

/// Over any sequence of requests and completions for a transaction id in
/// which each completion follows the id's single execution, the entry that a
/// completion sets (settled, failed or timed out) is the same in every later
/// store.
pub proof fn lemma_final_entry_never_changes(
    m: Map<u128, TxnState>,
    events: Seq<GatewayEvent>,
    txn_id: u128,
    k: int,
    j: int,
)
    requires
        completions_follow_execution(m, events, txn_id),
        0 <= k <= j <= events.len(),
        replay(m, events.take(k)).contains_key(txn_id),
        !(replay(m, events.take(k))[txn_id] is Processing),
    ensures
        lookup(replay(m, events.take(j)), txn_id) == lookup(replay(m, events.take(k)), txn_id),
{
    let prefix = events.take(j);
    assert(prefix.take(k) =~= events.take(k));
    lemma_replay_split(m, events, txn_id, j);
    lemma_replay_split(m, prefix, txn_id, k);
    lemma_follow_prefix(m, events, txn_id, j);
    lemma_final_entry_is_kept(replay(m, events.take(k)), prefix.skip(k), txn_id);
}

/// The order of completions holds of every prefix of a sequence that has it.
pub proof fn lemma_follow_prefix(m: Map<u128, TxnState>, events: Seq<GatewayEvent>, txn_id: u128, j: int)
    requires
        completions_follow_execution(m, events, txn_id),
        0 <= j <= events.len(),
    ensures
        completions_follow_execution(m, events.take(j), txn_id),
    decreases j,
{
    if j > 0 {
        let rest = events.drop_first();
        lemma_follow_prefix(apply_event(m, events[0]), rest, txn_id, j - 1);
        assert(events.take(j).drop_first() =~= rest.take(j - 1));
    }
}

/// A retry of a payment that was executed and has ended is answered from
/// the store: HTTP 200, status DUPLICATE, and the reference number and error
/// code that the first reply carried.
pub proof fn lemma_duplicate_replays_first_reply(
    m: Map<u128, TxnState>,
    first: PaymentRequest,
    first_at: u64,
    retry: PaymentRequest,
    retry_at: u64,
    final_state: TxnState,
)
    requires
        admission_for(m, first, first_at) is Execute,
        retry.transaction_id == first.transaction_id,
        validation_outcome(retry, retry_at) is Ok,
        !(final_state is Processing),
    ensures
        ({
            let done = after_finalize(store_after_admission(m, first, first_at), first.transaction_id, final_state);
            let first_reply = completion_view(final_state);
            &&& store_after_admission(done, retry, retry_at) == done
            &&& admission_for(done, retry, retry_at) matches AdmissionView::Respond(again)
            &&& again.http_status == HTTP_OK
            &&& again.status == TxnStatus::Duplicate
            &&& again.rrn == first_reply.rrn
            &&& again.error_code == first_reply.error_code
        }),
{
}

/// A request that fails validation is refused with its error code and
/// leaves the store as it was.
pub proof fn lemma_rejection_leaves_store(m: Map<u128, TxnState>, req: PaymentRequest, now_ms: u64)
    requires
        validation_outcome(req, now_ms) is Err,
    ensures
        store_after_admission(m, req, now_ms) == m,
        admission_for(m, req, now_ms) == AdmissionView::Respond(
            rejection_view(validation_outcome(req, now_ms)->Err_0),
        ),
{
}

} // verus!
