//! Workflow command protocol types.
//!
//! A workflow execution answers one activation with an ordered list of
//! commands: its decisions for that activation.  Each command wraps
//! exactly one variant; on the wire the variants are independent optional
//! fields, and decoding validates the exclusivity invariant.  A query
//! answer is itself a two-shaped tagged union (succeeded or failed),
//! validated the same way.

use vstd::prelude::*;

use crate::codec::{
    decode_header_vec, decode_opt_payload, decode_payload_vec, encode_header_vec,
    encode_opt_payload, encode_payload_vec, lemma_header_seq_round_trip,
    lemma_opt_payload_round_trip, lemma_payload_seq_round_trip, spec_decode_header_seq,
    spec_decode_opt_payload, spec_decode_payload_seq, spec_encode_header_seq,
    spec_encode_opt_payload, spec_encode_payload_seq,
};
use crate::codec::{
    decode_opt_failure, encode_opt_failure, lemma_opt_failure_round_trip, spec_decode_opt_failure,
    spec_encode_opt_failure,
};
use crate::common::{
    decode_opt_retry_policy, decode_user_code_failure, encode_opt_retry_policy,
    encode_user_code_failure, lemma_opt_retry_policy_round_trip,
    lemma_user_code_failure_round_trip, spec_decode_failure, spec_decode_opt_retry_policy,
    spec_encode_failure, spec_encode_opt_retry_policy, Payload, PayloadView, RetryPolicy,
    RetryPolicyView, UserCodeFailure, UserCodeFailureView, WirePayload, WirePayloadView,
    WireRetryPolicy, WireRetryPolicyView, WireUserCodeFailure, WireUserCodeFailureView,
};
use crate::errors::{DecodeError, OneofKind, TimeField};
use crate::time::{
    decode_opt_duration, encode_opt_duration, lemma_opt_duration_round_trip,
    spec_decode_opt_duration, spec_encode_opt_duration, Duration, WireDuration,
};

verus! {

// ---------------------------------------------------------------------------
// StartTimer
// ---------------------------------------------------------------------------

/// The start-timer command as it travels on the wire.
#[derive(Debug, PartialEq, Eq)]
pub struct WireStartTimer {
    pub timer_id: String,
    pub start_to_fire_timeout: Option<WireDuration>,
}

/// Mathematical model of a wire start-timer command.
pub struct WireStartTimerView {
    pub timer_id: Seq<char>,
    pub start_to_fire_timeout: Option<WireDuration>,
}

impl DeepView for WireStartTimer {
    type V = WireStartTimerView;

    open spec fn deep_view(&self) -> WireStartTimerView {
        WireStartTimerView {
            timer_id: self.timer_id.deep_view(),
            start_to_fire_timeout: self.start_to_fire_timeout,
        }
    }
}

/// The start-timer command: start a named timer that fires after the given
/// timeout.
#[derive(Debug, PartialEq, Eq)]
pub struct StartTimer {
    pub timer_id: String,
    pub start_to_fire_timeout: Option<Duration>,
}

/// Mathematical model of an in-process start-timer command.
pub struct StartTimerView {
    pub timer_id: Seq<char>,
    pub start_to_fire_timeout: Option<Duration>,
}

impl DeepView for StartTimer {
    type V = StartTimerView;

    open spec fn deep_view(&self) -> StartTimerView {
        StartTimerView {
            timer_id: self.timer_id.deep_view(),
            start_to_fire_timeout: self.start_to_fire_timeout,
        }
    }
}

/// What `decode_start_timer` returns.
pub open spec fn spec_decode_start_timer(w: WireStartTimerView) -> Result<
    StartTimerView,
    DecodeError,
> {
    match spec_decode_opt_duration(w.start_to_fire_timeout, TimeField::StartToFireTimeout) {
        Ok(d) => Ok(StartTimerView { timer_id: w.timer_id, start_to_fire_timeout: d }),
        Err(e) => Err(e),
    }
}

/// What `encode_start_timer` returns; total.
pub open spec fn spec_encode_start_timer(t: StartTimerView) -> WireStartTimerView {
    WireStartTimerView {
        timer_id: t.timer_id,
        start_to_fire_timeout: spec_encode_opt_duration(t.start_to_fire_timeout),
    }
}

/// Decodes a wire start-timer command; fails exactly when the timeout is
/// out of range.
pub fn decode_start_timer(w: WireStartTimer) -> (r: Result<StartTimer, DecodeError>)
    ensures
        match r {
            Ok(t) => spec_decode_start_timer(w.deep_view()) == Ok::<StartTimerView, DecodeError>(
                t.deep_view(),
            ),
            Err(e) => spec_decode_start_timer(w.deep_view()) == Err::<StartTimerView, DecodeError>(
                e,
            ),
        },
{
    match decode_opt_duration(w.start_to_fire_timeout, TimeField::StartToFireTimeout) {
        Ok(d) => Ok(StartTimer { timer_id: w.timer_id, start_to_fire_timeout: d }),
        Err(e) => Err(e),
    }
}

/// Encodes a start-timer command for the wire; total.
pub fn encode_start_timer(t: StartTimer) -> (r: WireStartTimer)
    ensures
        r.deep_view() == spec_encode_start_timer(t.deep_view()),
{
    WireStartTimer {
        timer_id: t.timer_id,
        start_to_fire_timeout: encode_opt_duration(t.start_to_fire_timeout),
    }
}

/// Round-trip law for start-timer commands.
pub proof fn lemma_start_timer_round_trip(t: StartTimerView)
    ensures
        spec_decode_start_timer(spec_encode_start_timer(t)) == Ok::<StartTimerView, DecodeError>(t),
{
    lemma_opt_duration_round_trip(t.start_to_fire_timeout, TimeField::StartToFireTimeout);
}

// ---------------------------------------------------------------------------
// CancelTimer
// ---------------------------------------------------------------------------

/// The cancel-timer command as it travels on the wire.
#[derive(Debug, PartialEq, Eq)]
pub struct WireCancelTimer {
    pub timer_id: String,
}

/// Mathematical model of a wire cancel-timer command.
pub struct WireCancelTimerView {
    pub timer_id: Seq<char>,
}

impl DeepView for WireCancelTimer {
    type V = WireCancelTimerView;

    open spec fn deep_view(&self) -> WireCancelTimerView {
        WireCancelTimerView { timer_id: self.timer_id.deep_view() }
    }
}

/// The cancel-timer command: cancel a previously started timer.
#[derive(Debug, PartialEq, Eq)]
pub struct CancelTimer {
    pub timer_id: String,
}

/// Mathematical model of an in-process cancel-timer command.
pub struct CancelTimerView {
    pub timer_id: Seq<char>,
}

impl DeepView for CancelTimer {
    type V = CancelTimerView;

    open spec fn deep_view(&self) -> CancelTimerView {
        CancelTimerView { timer_id: self.timer_id.deep_view() }
    }
}

/// What `decode_cancel_timer` returns; total.
pub open spec fn spec_decode_cancel_timer(w: WireCancelTimerView) -> CancelTimerView {
    CancelTimerView { timer_id: w.timer_id }
}

/// What `encode_cancel_timer` returns; total.
pub open spec fn spec_encode_cancel_timer(t: CancelTimerView) -> WireCancelTimerView {
    WireCancelTimerView { timer_id: t.timer_id }
}

/// Decodes a wire cancel-timer command; total.
pub fn decode_cancel_timer(w: WireCancelTimer) -> (r: CancelTimer)
    ensures
        r.deep_view() == spec_decode_cancel_timer(w.deep_view()),
{
    CancelTimer { timer_id: w.timer_id }
}

/// Encodes a cancel-timer command for the wire; total.
pub fn encode_cancel_timer(t: CancelTimer) -> (r: WireCancelTimer)
    ensures
        r.deep_view() == spec_encode_cancel_timer(t.deep_view()),
{
    WireCancelTimer { timer_id: t.timer_id }
}

// ---------------------------------------------------------------------------
// ScheduleActivity
// ---------------------------------------------------------------------------

/// The schedule-activity command as it travels on the wire.  The
/// cancellation type is a raw integer code whose closed enumeration
/// belongs to the orchestration service's contract.
#[derive(Debug, PartialEq, Eq)]
pub struct WireScheduleActivity {
    pub activity_id: String,
    pub activity_type: String,
    pub namespace: String,
    pub task_queue: String,
    pub header_fields: Vec<(String, WirePayload)>,
    pub arguments: Vec<WirePayload>,
    pub schedule_to_close_timeout: Option<WireDuration>,
    pub schedule_to_start_timeout: Option<WireDuration>,
    pub start_to_close_timeout: Option<WireDuration>,
    pub heartbeat_timeout: Option<WireDuration>,
    pub retry_policy: Option<WireRetryPolicy>,
    pub cancellation_type: i32,
}

/// Mathematical model of a wire schedule-activity command.
pub struct WireScheduleActivityView {
    pub activity_id: Seq<char>,
    pub activity_type: Seq<char>,
    pub namespace: Seq<char>,
    pub task_queue: Seq<char>,
    pub header_fields: Seq<(Seq<char>, WirePayloadView)>,
    pub arguments: Seq<WirePayloadView>,
    pub schedule_to_close_timeout: Option<WireDuration>,
    pub schedule_to_start_timeout: Option<WireDuration>,
    pub start_to_close_timeout: Option<WireDuration>,
    pub heartbeat_timeout: Option<WireDuration>,
    pub retry_policy: Option<WireRetryPolicyView>,
    pub cancellation_type: i32,
}

impl DeepView for WireScheduleActivity {
    type V = WireScheduleActivityView;

    open spec fn deep_view(&self) -> WireScheduleActivityView {
        WireScheduleActivityView {
            activity_id: self.activity_id.deep_view(),
            activity_type: self.activity_type.deep_view(),
            namespace: self.namespace.deep_view(),
            task_queue: self.task_queue.deep_view(),
            header_fields: self.header_fields.deep_view(),
            arguments: self.arguments.deep_view(),
            schedule_to_close_timeout: self.schedule_to_close_timeout,
            schedule_to_start_timeout: self.schedule_to_start_timeout,
            start_to_close_timeout: self.start_to_close_timeout,
            heartbeat_timeout: self.heartbeat_timeout,
            retry_policy: self.retry_policy.deep_view(),
            cancellation_type: self.cancellation_type,
        }
    }
}

/// The schedule-activity command: schedule one activity on a task queue,
/// with its arguments, timeouts and retry policy.
#[derive(Debug, PartialEq, Eq)]
pub struct ScheduleActivity {
    pub activity_id: String,
    pub activity_type: String,
    pub namespace: String,
    pub task_queue: String,
    pub header_fields: Vec<(String, Payload)>,
    pub arguments: Vec<Payload>,
    pub schedule_to_close_timeout: Option<Duration>,
    pub schedule_to_start_timeout: Option<Duration>,
    pub start_to_close_timeout: Option<Duration>,
    pub heartbeat_timeout: Option<Duration>,
    pub retry_policy: Option<RetryPolicy>,
    pub cancellation_type: i32,
}

/// Mathematical model of an in-process schedule-activity command.
pub struct ScheduleActivityView {
    pub activity_id: Seq<char>,
    pub activity_type: Seq<char>,
    pub namespace: Seq<char>,
    pub task_queue: Seq<char>,
    pub header_fields: Seq<(Seq<char>, PayloadView)>,
    pub arguments: Seq<PayloadView>,
    pub schedule_to_close_timeout: Option<Duration>,
    pub schedule_to_start_timeout: Option<Duration>,
    pub start_to_close_timeout: Option<Duration>,
    pub heartbeat_timeout: Option<Duration>,
    pub retry_policy: Option<RetryPolicyView>,
    pub cancellation_type: i32,
}

impl DeepView for ScheduleActivity {
    type V = ScheduleActivityView;

    open spec fn deep_view(&self) -> ScheduleActivityView {
        ScheduleActivityView {
            activity_id: self.activity_id.deep_view(),
            activity_type: self.activity_type.deep_view(),
            namespace: self.namespace.deep_view(),
            task_queue: self.task_queue.deep_view(),
            header_fields: self.header_fields.deep_view(),
            arguments: self.arguments.deep_view(),
            schedule_to_close_timeout: self.schedule_to_close_timeout,
            schedule_to_start_timeout: self.schedule_to_start_timeout,
            start_to_close_timeout: self.start_to_close_timeout,
            heartbeat_timeout: self.heartbeat_timeout,
            retry_policy: self.retry_policy.deep_view(),
            cancellation_type: self.cancellation_type,
        }
    }
}

/// What `decode_schedule_activity` returns: every field copied, timeouts
/// and retry policy passed through their codecs; the first out-of-range
/// value fails the whole decode, naming its field.
pub open spec fn spec_decode_schedule_activity(w: WireScheduleActivityView) -> Result<
    ScheduleActivityView,
    DecodeError,
> {
    let schedule_to_close_timeout = spec_decode_opt_duration(
        w.schedule_to_close_timeout,
        TimeField::ScheduleToCloseTimeout,
    );
    let schedule_to_start_timeout = spec_decode_opt_duration(
        w.schedule_to_start_timeout,
        TimeField::ScheduleToStartTimeout,
    );
    let start_to_close_timeout = spec_decode_opt_duration(
        w.start_to_close_timeout,
        TimeField::StartToCloseTimeout,
    );
    let heartbeat_timeout = spec_decode_opt_duration(
        w.heartbeat_timeout,
        TimeField::HeartbeatTimeout,
    );
    let retry_policy = spec_decode_opt_retry_policy(w.retry_policy);
    if schedule_to_close_timeout is Err {
        Err(schedule_to_close_timeout->Err_0)
    } else if schedule_to_start_timeout is Err {
        Err(schedule_to_start_timeout->Err_0)
    } else if start_to_close_timeout is Err {
        Err(start_to_close_timeout->Err_0)
    } else if heartbeat_timeout is Err {
        Err(heartbeat_timeout->Err_0)
    } else if retry_policy is Err {
        Err(retry_policy->Err_0)
    } else {
        Ok(
            ScheduleActivityView {
                activity_id: w.activity_id,
                activity_type: w.activity_type,
                namespace: w.namespace,
                task_queue: w.task_queue,
                header_fields: spec_decode_header_seq(w.header_fields),
                arguments: spec_decode_payload_seq(w.arguments),
                schedule_to_close_timeout: schedule_to_close_timeout->Ok_0,
                schedule_to_start_timeout: schedule_to_start_timeout->Ok_0,
                start_to_close_timeout: start_to_close_timeout->Ok_0,
                heartbeat_timeout: heartbeat_timeout->Ok_0,
                retry_policy: retry_policy->Ok_0,
                cancellation_type: w.cancellation_type,
            },
        )
    }
}

/// What `encode_schedule_activity` returns; total.
pub open spec fn spec_encode_schedule_activity(s: ScheduleActivityView)
    -> WireScheduleActivityView {
    WireScheduleActivityView {
        activity_id: s.activity_id,
        activity_type: s.activity_type,
        namespace: s.namespace,
        task_queue: s.task_queue,
        header_fields: spec_encode_header_seq(s.header_fields),
        arguments: spec_encode_payload_seq(s.arguments),
        schedule_to_close_timeout: spec_encode_opt_duration(s.schedule_to_close_timeout),
        schedule_to_start_timeout: spec_encode_opt_duration(s.schedule_to_start_timeout),
        start_to_close_timeout: spec_encode_opt_duration(s.start_to_close_timeout),
        heartbeat_timeout: spec_encode_opt_duration(s.heartbeat_timeout),
        retry_policy: spec_encode_opt_retry_policy(s.retry_policy),
        cancellation_type: s.cancellation_type,
    }
}

/// Decodes a wire schedule-activity command.  Fails with `TimeOutOfRange`,
/// naming the offending field and its raw values, exactly when a timeout
/// or retry interval is out of range.
pub fn decode_schedule_activity(w: WireScheduleActivity) -> (r: Result<
    ScheduleActivity,
    DecodeError,
>)
    ensures
        match r {
            Ok(s) => spec_decode_schedule_activity(w.deep_view()) == Ok::<
                ScheduleActivityView,
                DecodeError,
            >(s.deep_view()),
            Err(e) => spec_decode_schedule_activity(w.deep_view()) == Err::<
                ScheduleActivityView,
                DecodeError,
            >(e),
        },
{
    let schedule_to_close_timeout = match decode_opt_duration(
        w.schedule_to_close_timeout,
        TimeField::ScheduleToCloseTimeout,
    ) {
        Ok(d) => d,
        Err(e) => {
            return Err(e);
        },
    };
    let schedule_to_start_timeout = match decode_opt_duration(
        w.schedule_to_start_timeout,
        TimeField::ScheduleToStartTimeout,
    ) {
        Ok(d) => d,
        Err(e) => {
            return Err(e);
        },
    };
    let start_to_close_timeout = match decode_opt_duration(
        w.start_to_close_timeout,
        TimeField::StartToCloseTimeout,
    ) {
        Ok(d) => d,
        Err(e) => {
            return Err(e);
        },
    };
    let heartbeat_timeout = match decode_opt_duration(
        w.heartbeat_timeout,
        TimeField::HeartbeatTimeout,
    ) {
        Ok(d) => d,
        Err(e) => {
            return Err(e);
        },
    };
    let retry_policy = match decode_opt_retry_policy(w.retry_policy) {
        Ok(p) => p,
        Err(e) => {
            return Err(e);
        },
    };
    Ok(
        ScheduleActivity {
            activity_id: w.activity_id,
            activity_type: w.activity_type,
            namespace: w.namespace,
            task_queue: w.task_queue,
            header_fields: decode_header_vec(w.header_fields),
            arguments: decode_payload_vec(w.arguments),
            schedule_to_close_timeout,
            schedule_to_start_timeout,
            start_to_close_timeout,
            heartbeat_timeout,
            retry_policy,
            cancellation_type: w.cancellation_type,
        },
    )
}

/// Encodes a schedule-activity command for the wire; total.
pub fn encode_schedule_activity(s: ScheduleActivity) -> (r: WireScheduleActivity)
    ensures
        r.deep_view() == spec_encode_schedule_activity(s.deep_view()),
{
    WireScheduleActivity {
        activity_id: s.activity_id,
        activity_type: s.activity_type,
        namespace: s.namespace,
        task_queue: s.task_queue,
        header_fields: encode_header_vec(s.header_fields),
        arguments: encode_payload_vec(s.arguments),
        schedule_to_close_timeout: encode_opt_duration(s.schedule_to_close_timeout),
        schedule_to_start_timeout: encode_opt_duration(s.schedule_to_start_timeout),
        start_to_close_timeout: encode_opt_duration(s.start_to_close_timeout),
        heartbeat_timeout: encode_opt_duration(s.heartbeat_timeout),
        retry_policy: encode_opt_retry_policy(s.retry_policy),
        cancellation_type: s.cancellation_type,
    }
}

/// Round-trip law for schedule-activity commands.
pub proof fn lemma_schedule_activity_round_trip(s: ScheduleActivityView)
    ensures
        spec_decode_schedule_activity(spec_encode_schedule_activity(s)) == Ok::<
            ScheduleActivityView,
            DecodeError,
        >(s),
{
    lemma_opt_duration_round_trip(s.schedule_to_close_timeout, TimeField::ScheduleToCloseTimeout);
    lemma_opt_duration_round_trip(s.schedule_to_start_timeout, TimeField::ScheduleToStartTimeout);
    lemma_opt_duration_round_trip(s.start_to_close_timeout, TimeField::StartToCloseTimeout);
    lemma_opt_duration_round_trip(s.heartbeat_timeout, TimeField::HeartbeatTimeout);
    lemma_opt_retry_policy_round_trip(s.retry_policy);
    lemma_header_seq_round_trip(s.header_fields);
    lemma_payload_seq_round_trip(s.arguments);
}

// ---------------------------------------------------------------------------
// RequestCancelActivity
// ---------------------------------------------------------------------------

/// The request-cancel-activity command as it travels on the wire.
#[derive(Debug, PartialEq, Eq)]
pub struct WireRequestCancelActivity {
    pub activity_id: String,
}

/// Mathematical model of a wire request-cancel-activity command.
pub struct WireRequestCancelActivityView {
    pub activity_id: Seq<char>,
}

impl DeepView for WireRequestCancelActivity {
    type V = WireRequestCancelActivityView;

    open spec fn deep_view(&self) -> WireRequestCancelActivityView {
        WireRequestCancelActivityView { activity_id: self.activity_id.deep_view() }
    }
}

/// The request-cancel-activity command: ask to cancel a previously
/// scheduled activity.
#[derive(Debug, PartialEq, Eq)]
pub struct RequestCancelActivity {
    pub activity_id: String,
}

/// Mathematical model of an in-process request-cancel-activity command.
pub struct RequestCancelActivityView {
    pub activity_id: Seq<char>,
}

impl DeepView for RequestCancelActivity {
    type V = RequestCancelActivityView;

    open spec fn deep_view(&self) -> RequestCancelActivityView {
        RequestCancelActivityView { activity_id: self.activity_id.deep_view() }
    }
}

/// What `decode_request_cancel_activity` returns; total.
pub open spec fn spec_decode_request_cancel_activity(w: WireRequestCancelActivityView)
    -> RequestCancelActivityView {
    RequestCancelActivityView { activity_id: w.activity_id }
}

/// What `encode_request_cancel_activity` returns; total.
pub open spec fn spec_encode_request_cancel_activity(a: RequestCancelActivityView)
    -> WireRequestCancelActivityView {
    WireRequestCancelActivityView { activity_id: a.activity_id }
}

/// Decodes a wire request-cancel-activity command; total.
pub fn decode_request_cancel_activity(w: WireRequestCancelActivity) -> (r: RequestCancelActivity)
    ensures
        r.deep_view() == spec_decode_request_cancel_activity(w.deep_view()),
{
    RequestCancelActivity { activity_id: w.activity_id }
}

/// Encodes a request-cancel-activity command for the wire; total.
pub fn encode_request_cancel_activity(a: RequestCancelActivity) -> (r: WireRequestCancelActivity)
    ensures
        r.deep_view() == spec_encode_request_cancel_activity(a.deep_view()),
{
    WireRequestCancelActivity { activity_id: a.activity_id }
}

// ---------------------------------------------------------------------------
// QuerySuccess and QueryResult
// ---------------------------------------------------------------------------

/// The successful query answer as it travels on the wire.
#[derive(Debug, PartialEq, Eq)]
pub struct WireQuerySuccess {
    pub response: Option<WirePayload>,
}

/// Mathematical model of a wire query success.
pub struct WireQuerySuccessView {
    pub response: Option<WirePayloadView>,
}

impl DeepView for WireQuerySuccess {
    type V = WireQuerySuccessView;

    open spec fn deep_view(&self) -> WireQuerySuccessView {
        WireQuerySuccessView { response: self.response.deep_view() }
    }
}

/// A successful query answer, with its optional response payload.
#[derive(Debug, PartialEq, Eq)]
pub struct QuerySuccess {
    pub response: Option<Payload>,
}

/// Mathematical model of an in-process query success.
pub struct QuerySuccessView {
    pub response: Option<PayloadView>,
}

impl DeepView for QuerySuccess {
    type V = QuerySuccessView;

    open spec fn deep_view(&self) -> QuerySuccessView {
        QuerySuccessView { response: self.response.deep_view() }
    }
}

/// A query answer as it travels on the wire: both variants optional, the
/// sender trusted to populate exactly one.
#[derive(Debug, PartialEq, Eq)]
pub struct WireQueryResult {
    pub query_id: String,
    pub succeeded: Option<WireQuerySuccess>,
    pub failed: Option<WireUserCodeFailure>,
}

/// Mathematical model of a wire query answer.
pub struct WireQueryResultView {
    pub query_id: Seq<char>,
    pub succeeded: Option<WireQuerySuccessView>,
    pub failed: Option<WireUserCodeFailureView>,
}

impl DeepView for WireQueryResult {
    type V = WireQueryResultView;

    open spec fn deep_view(&self) -> WireQueryResultView {
        WireQueryResultView {
            query_id: self.query_id.deep_view(),
            succeeded: self.succeeded.deep_view(),
            failed: self.failed.deep_view(),
        }
    }
}

/// The two shapes of a query answer: exactly one, by construction.
#[derive(Debug, PartialEq, Eq)]
pub enum QueryResultVariant {
    Succeeded(QuerySuccess),
    Failed(UserCodeFailure),
}

/// Mathematical model of a query-answer variant.
pub enum QueryResultVariantView {
    Succeeded(QuerySuccessView),
    Failed(UserCodeFailureView),
}

impl DeepView for QueryResultVariant {
    type V = QueryResultVariantView;

    open spec fn deep_view(&self) -> QueryResultVariantView {
        match self {
            QueryResultVariant::Succeeded(s) => QueryResultVariantView::Succeeded(s.deep_view()),
            QueryResultVariant::Failed(f) => QueryResultVariantView::Failed(f.deep_view()),
        }
    }
}

/// An in-process query answer: the query it answers and exactly one
/// variant.
#[derive(Debug, PartialEq, Eq)]
pub struct QueryResult {
    pub query_id: String,
    pub variant: QueryResultVariant,
}

/// Mathematical model of an in-process query answer.
pub struct QueryResultView {
    pub query_id: Seq<char>,
    pub variant: QueryResultVariantView,
}

impl DeepView for QueryResult {
    type V = QueryResultView;

    open spec fn deep_view(&self) -> QueryResultView {
        QueryResultView { query_id: self.query_id.deep_view(), variant: self.variant.deep_view() }
    }
}

/// How many variant fields of a wire query answer are populated.
pub open spec fn wire_query_result_variant_count(w: WireQueryResultView) -> int {
    (if w.succeeded is Some {
        1int
    } else {
        0int
    }) + (if w.failed is Some {
        1int
    } else {
        0int
    })
}

/// What `decode_query_result` returns: the tagged union when exactly one
/// variant is populated, a protocol violation otherwise.
pub open spec fn spec_decode_query_result(w: WireQueryResultView) -> Result<
    QueryResultView,
    DecodeError,
> {
    match (w.succeeded, w.failed) {
        (Option::Some(s), Option::None) => Ok(
            QueryResultView {
                query_id: w.query_id,
                variant: QueryResultVariantView::Succeeded(
                    QuerySuccessView { response: spec_decode_opt_payload(s.response) },
                ),
            },
        ),
        (Option::None, Option::Some(f)) => Ok(
            QueryResultView {
                query_id: w.query_id,
                variant: QueryResultVariantView::Failed(spec_decode_failure(f)),
            },
        ),
        (Option::None, Option::None) => Err(
            DecodeError::MissingVariant(OneofKind::QueryResultVariant),
        ),
        _ => Err(DecodeError::MultipleVariants(OneofKind::QueryResultVariant)),
    }
}

/// What `encode_query_result` returns: the wire shape with exactly the one
/// populated variant; total.
pub open spec fn spec_encode_query_result(q: QueryResultView) -> WireQueryResultView {
    match q.variant {
        QueryResultVariantView::Succeeded(s) => WireQueryResultView {
            query_id: q.query_id,
            succeeded: Option::Some(
                WireQuerySuccessView { response: spec_encode_opt_payload(s.response) },
            ),
            failed: Option::None,
        },
        QueryResultVariantView::Failed(f) => WireQueryResultView {
            query_id: q.query_id,
            succeeded: Option::None,
            failed: Option::Some(spec_encode_failure(f)),
        },
    }
}

/// Decodes a wire query answer into its strict tagged union.  Fails with
/// `MissingVariant` when no variant is populated and with
/// `MultipleVariants` when both are.
pub fn decode_query_result(w: WireQueryResult) -> (r: Result<QueryResult, DecodeError>)
    ensures
        match r {
            Ok(q) => spec_decode_query_result(w.deep_view()) == Ok::<QueryResultView, DecodeError>(
                q.deep_view(),
            ),
            Err(e) => spec_decode_query_result(w.deep_view()) == Err::<
                QueryResultView,
                DecodeError,
            >(e),
        },
{
    match (w.succeeded, w.failed) {
        (Option::Some(s), Option::None) => Ok(
            QueryResult {
                query_id: w.query_id,
                variant: QueryResultVariant::Succeeded(
                    QuerySuccess { response: decode_opt_payload(s.response) },
                ),
            },
        ),
        (Option::None, Option::Some(f)) => Ok(
            QueryResult {
                query_id: w.query_id,
                variant: QueryResultVariant::Failed(decode_user_code_failure(f)),
            },
        ),
        (Option::None, Option::None) => Err(
            DecodeError::MissingVariant(OneofKind::QueryResultVariant),
        ),
        _ => Err(DecodeError::MultipleVariants(OneofKind::QueryResultVariant)),
    }
}

/// Encodes a query answer for the wire: exactly one variant field is
/// populated; total.
pub fn encode_query_result(q: QueryResult) -> (r: WireQueryResult)
    ensures
        r.deep_view() == spec_encode_query_result(q.deep_view()),
{
    match q.variant {
        QueryResultVariant::Succeeded(s) => WireQueryResult {
            query_id: q.query_id,
            succeeded: Option::Some(WireQuerySuccess { response: encode_opt_payload(s.response) }),
            failed: Option::None,
        },
        QueryResultVariant::Failed(f) => WireQueryResult {
            query_id: q.query_id,
            succeeded: Option::None,
            failed: Option::Some(encode_user_code_failure(f)),
        },
    }
}

/// Exclusivity law for query answers: a decode succeeds exactly when one
/// variant is populated; zero populated variants are reported as
/// `MissingVariant`, two as `MultipleVariants`.
pub proof fn lemma_query_result_exclusivity(w: WireQueryResultView)
    ensures
        spec_decode_query_result(w) is Ok <==> wire_query_result_variant_count(w) == 1,
        spec_decode_query_result(w) == Err::<QueryResultView, DecodeError>(
            DecodeError::MissingVariant(OneofKind::QueryResultVariant),
        ) <==> wire_query_result_variant_count(w) == 0,
        spec_decode_query_result(w) == Err::<QueryResultView, DecodeError>(
            DecodeError::MultipleVariants(OneofKind::QueryResultVariant),
        ) <==> wire_query_result_variant_count(w) >= 2,
{
}

/// Round-trip law for query answers.
pub proof fn lemma_query_result_round_trip(q: QueryResultView)
    ensures
        spec_decode_query_result(spec_encode_query_result(q)) == Ok::<QueryResultView, DecodeError>(
            q,
        ),
{
    match q.variant {
        QueryResultVariantView::Succeeded(s) => {
            lemma_opt_payload_round_trip(s.response);
        },
        QueryResultVariantView::Failed(f) => {
            lemma_user_code_failure_round_trip(f);
        },
    }
}

// ---------------------------------------------------------------------------
// CompleteWorkflowExecution, FailWorkflowExecution
// ---------------------------------------------------------------------------

/// The complete-workflow-execution command as it travels on the wire.
#[derive(Debug, PartialEq, Eq)]
pub struct WireCompleteWorkflowExecution {
    pub result: Option<WirePayload>,
}

/// Mathematical model of a wire complete-workflow-execution command.
pub struct WireCompleteWorkflowExecutionView {
    pub result: Option<WirePayloadView>,
}

impl DeepView for WireCompleteWorkflowExecution {
    type V = WireCompleteWorkflowExecutionView;

    open spec fn deep_view(&self) -> WireCompleteWorkflowExecutionView {
        WireCompleteWorkflowExecutionView { result: self.result.deep_view() }
    }
}

/// The complete-workflow-execution command: the run finished, with an
/// optional result payload.
#[derive(Debug, PartialEq, Eq)]
pub struct CompleteWorkflowExecution {
    pub result: Option<Payload>,
}

/// Mathematical model of an in-process complete-workflow-execution
/// command.
pub struct CompleteWorkflowExecutionView {
    pub result: Option<PayloadView>,
}

impl DeepView for CompleteWorkflowExecution {
    type V = CompleteWorkflowExecutionView;

    open spec fn deep_view(&self) -> CompleteWorkflowExecutionView {
        CompleteWorkflowExecutionView { result: self.result.deep_view() }
    }
}

/// What `decode_complete_workflow_execution` returns; total.
pub open spec fn spec_decode_complete_workflow_execution(w: WireCompleteWorkflowExecutionView)
    -> CompleteWorkflowExecutionView {
    CompleteWorkflowExecutionView { result: spec_decode_opt_payload(w.result) }
}

/// What `encode_complete_workflow_execution` returns; total.
pub open spec fn spec_encode_complete_workflow_execution(c: CompleteWorkflowExecutionView)
    -> WireCompleteWorkflowExecutionView {
    WireCompleteWorkflowExecutionView { result: spec_encode_opt_payload(c.result) }
}

/// Decodes a wire complete-workflow-execution command; total.
pub fn decode_complete_workflow_execution(w: WireCompleteWorkflowExecution) -> (r:
    CompleteWorkflowExecution)
    ensures
        r.deep_view() == spec_decode_complete_workflow_execution(w.deep_view()),
{
    CompleteWorkflowExecution { result: decode_opt_payload(w.result) }
}

/// Encodes a complete-workflow-execution command for the wire; total.
pub fn encode_complete_workflow_execution(c: CompleteWorkflowExecution) -> (r:
    WireCompleteWorkflowExecution)
    ensures
        r.deep_view() == spec_encode_complete_workflow_execution(c.deep_view()),
{
    WireCompleteWorkflowExecution { result: encode_opt_payload(c.result) }
}

/// The fail-workflow-execution command as it travels on the wire.
#[derive(Debug, PartialEq, Eq)]
pub struct WireFailWorkflowExecution {
    pub failure: Option<WireUserCodeFailure>,
}

/// Mathematical model of a wire fail-workflow-execution command.
pub struct WireFailWorkflowExecutionView {
    pub failure: Option<WireUserCodeFailureView>,
}

impl DeepView for WireFailWorkflowExecution {
    type V = WireFailWorkflowExecutionView;

    open spec fn deep_view(&self) -> WireFailWorkflowExecutionView {
        WireFailWorkflowExecutionView { failure: self.failure.deep_view() }
    }
}

/// The fail-workflow-execution command: the run failed, with an optional
/// failure chain.
#[derive(Debug, PartialEq, Eq)]
pub struct FailWorkflowExecution {
    pub failure: Option<UserCodeFailure>,
}

/// Mathematical model of an in-process fail-workflow-execution command.
pub struct FailWorkflowExecutionView {
    pub failure: Option<UserCodeFailureView>,
}

impl DeepView for FailWorkflowExecution {
    type V = FailWorkflowExecutionView;

    open spec fn deep_view(&self) -> FailWorkflowExecutionView {
        FailWorkflowExecutionView { failure: self.failure.deep_view() }
    }
}

/// What `decode_fail_workflow_execution` returns; total.
pub open spec fn spec_decode_fail_workflow_execution(w: WireFailWorkflowExecutionView)
    -> FailWorkflowExecutionView {
    FailWorkflowExecutionView { failure: spec_decode_opt_failure(w.failure) }
}

/// What `encode_fail_workflow_execution` returns; total.
pub open spec fn spec_encode_fail_workflow_execution(f: FailWorkflowExecutionView)
    -> WireFailWorkflowExecutionView {
    WireFailWorkflowExecutionView { failure: spec_encode_opt_failure(f.failure) }
}

/// Decodes a wire fail-workflow-execution command; total.
pub fn decode_fail_workflow_execution(w: WireFailWorkflowExecution) -> (r: FailWorkflowExecution)
    ensures
        r.deep_view() == spec_decode_fail_workflow_execution(w.deep_view()),
{
    FailWorkflowExecution { failure: decode_opt_failure(w.failure) }
}

/// Encodes a fail-workflow-execution command for the wire; total.
pub fn encode_fail_workflow_execution(f: FailWorkflowExecution) -> (r: WireFailWorkflowExecution)
    ensures
        r.deep_view() == spec_encode_fail_workflow_execution(f.deep_view()),
{
    WireFailWorkflowExecution { failure: encode_opt_failure(f.failure) }
}

// ---------------------------------------------------------------------------
// ContinueAsNewWorkflowExecution
// ---------------------------------------------------------------------------

/// The continue-as-new command as it travels on the wire.
#[derive(Debug, PartialEq, Eq)]
pub struct WireContinueAsNewWorkflowExecution {
    pub workflow_type: String,
    pub task_queue: String,
    pub arguments: Vec<WirePayload>,
    pub workflow_run_timeout: Option<WireDuration>,
    pub workflow_task_timeout: Option<WireDuration>,
    pub memo: Vec<(String, WirePayload)>,
    pub header: Vec<(String, WirePayload)>,
    pub search_attributes: Vec<(String, WirePayload)>,
}

/// Mathematical model of a wire continue-as-new command.
pub struct WireContinueAsNewWorkflowExecutionView {
    pub workflow_type: Seq<char>,
    pub task_queue: Seq<char>,
    pub arguments: Seq<WirePayloadView>,
    pub workflow_run_timeout: Option<WireDuration>,
    pub workflow_task_timeout: Option<WireDuration>,
    pub memo: Seq<(Seq<char>, WirePayloadView)>,
    pub header: Seq<(Seq<char>, WirePayloadView)>,
    pub search_attributes: Seq<(Seq<char>, WirePayloadView)>,
}

impl DeepView for WireContinueAsNewWorkflowExecution {
    type V = WireContinueAsNewWorkflowExecutionView;

    open spec fn deep_view(&self) -> WireContinueAsNewWorkflowExecutionView {
        WireContinueAsNewWorkflowExecutionView {
            workflow_type: self.workflow_type.deep_view(),
            task_queue: self.task_queue.deep_view(),
            arguments: self.arguments.deep_view(),
            workflow_run_timeout: self.workflow_run_timeout,
            workflow_task_timeout: self.workflow_task_timeout,
            memo: self.memo.deep_view(),
            header: self.header.deep_view(),
            search_attributes: self.search_attributes.deep_view(),
        }
    }
}

/// The continue-as-new command: close this run and start a fresh one of
/// the given type on the given task queue, with new arguments, timeouts,
/// memo, header and search attributes.
#[derive(Debug, PartialEq, Eq)]
pub struct ContinueAsNewWorkflowExecution {
    pub workflow_type: String,
    pub task_queue: String,
    pub arguments: Vec<Payload>,
    pub workflow_run_timeout: Option<Duration>,
    pub workflow_task_timeout: Option<Duration>,
    pub memo: Vec<(String, Payload)>,
    pub header: Vec<(String, Payload)>,
    pub search_attributes: Vec<(String, Payload)>,
}

/// Mathematical model of an in-process continue-as-new command.
pub struct ContinueAsNewWorkflowExecutionView {
    pub workflow_type: Seq<char>,
    pub task_queue: Seq<char>,
    pub arguments: Seq<PayloadView>,
    pub workflow_run_timeout: Option<Duration>,
    pub workflow_task_timeout: Option<Duration>,
    pub memo: Seq<(Seq<char>, PayloadView)>,
    pub header: Seq<(Seq<char>, PayloadView)>,
    pub search_attributes: Seq<(Seq<char>, PayloadView)>,
}

impl DeepView for ContinueAsNewWorkflowExecution {
    type V = ContinueAsNewWorkflowExecutionView;

    open spec fn deep_view(&self) -> ContinueAsNewWorkflowExecutionView {
        ContinueAsNewWorkflowExecutionView {
            workflow_type: self.workflow_type.deep_view(),
            task_queue: self.task_queue.deep_view(),
            arguments: self.arguments.deep_view(),
            workflow_run_timeout: self.workflow_run_timeout,
            workflow_task_timeout: self.workflow_task_timeout,
            memo: self.memo.deep_view(),
            header: self.header.deep_view(),
            search_attributes: self.search_attributes.deep_view(),
        }
    }
}

/// What `decode_continue_as_new` returns.
pub open spec fn spec_decode_continue_as_new(w: WireContinueAsNewWorkflowExecutionView) -> Result<
    ContinueAsNewWorkflowExecutionView,
    DecodeError,
> {
    let workflow_run_timeout = spec_decode_opt_duration(
        w.workflow_run_timeout,
        TimeField::WorkflowRunTimeout,
    );
    let workflow_task_timeout = spec_decode_opt_duration(
        w.workflow_task_timeout,
        TimeField::WorkflowTaskTimeout,
    );
    if workflow_run_timeout is Err {
        Err(workflow_run_timeout->Err_0)
    } else if workflow_task_timeout is Err {
        Err(workflow_task_timeout->Err_0)
    } else {
        Ok(
            ContinueAsNewWorkflowExecutionView {
                workflow_type: w.workflow_type,
                task_queue: w.task_queue,
                arguments: spec_decode_payload_seq(w.arguments),
                workflow_run_timeout: workflow_run_timeout->Ok_0,
                workflow_task_timeout: workflow_task_timeout->Ok_0,
                memo: spec_decode_header_seq(w.memo),
                header: spec_decode_header_seq(w.header),
                search_attributes: spec_decode_header_seq(w.search_attributes),
            },
        )
    }
}

/// What `encode_continue_as_new` returns; total.
pub open spec fn spec_encode_continue_as_new(c: ContinueAsNewWorkflowExecutionView)
    -> WireContinueAsNewWorkflowExecutionView {
    WireContinueAsNewWorkflowExecutionView {
        workflow_type: c.workflow_type,
        task_queue: c.task_queue,
        arguments: spec_encode_payload_seq(c.arguments),
        workflow_run_timeout: spec_encode_opt_duration(c.workflow_run_timeout),
        workflow_task_timeout: spec_encode_opt_duration(c.workflow_task_timeout),
        memo: spec_encode_header_seq(c.memo),
        header: spec_encode_header_seq(c.header),
        search_attributes: spec_encode_header_seq(c.search_attributes),
    }
}

/// Decodes a wire continue-as-new command.  Fails with `TimeOutOfRange`,
/// naming the offending field and its raw values, exactly when a timeout
/// is out of range.
pub fn decode_continue_as_new(w: WireContinueAsNewWorkflowExecution) -> (r: Result<
    ContinueAsNewWorkflowExecution,
    DecodeError,
>)
    ensures
        match r {
            Ok(c) => spec_decode_continue_as_new(w.deep_view()) == Ok::<
                ContinueAsNewWorkflowExecutionView,
                DecodeError,
            >(c.deep_view()),
            Err(e) => spec_decode_continue_as_new(w.deep_view()) == Err::<
                ContinueAsNewWorkflowExecutionView,
                DecodeError,
            >(e),
        },
{
    let workflow_run_timeout = match decode_opt_duration(
        w.workflow_run_timeout,
        TimeField::WorkflowRunTimeout,
    ) {
        Ok(d) => d,
        Err(e) => {
            return Err(e);
        },
    };
    let workflow_task_timeout = match decode_opt_duration(
        w.workflow_task_timeout,
        TimeField::WorkflowTaskTimeout,
    ) {
        Ok(d) => d,
        Err(e) => {
            return Err(e);
        },
    };
    Ok(
        ContinueAsNewWorkflowExecution {
            workflow_type: w.workflow_type,
            task_queue: w.task_queue,
            arguments: decode_payload_vec(w.arguments),
            workflow_run_timeout,
            workflow_task_timeout,
            memo: decode_header_vec(w.memo),
            header: decode_header_vec(w.header),
            search_attributes: decode_header_vec(w.search_attributes),
        },
    )
}

/// Encodes a continue-as-new command for the wire; total.
pub fn encode_continue_as_new(c: ContinueAsNewWorkflowExecution) -> (r:
    WireContinueAsNewWorkflowExecution)
    ensures
        r.deep_view() == spec_encode_continue_as_new(c.deep_view()),
{
    WireContinueAsNewWorkflowExecution {
        workflow_type: c.workflow_type,
        task_queue: c.task_queue,
        arguments: encode_payload_vec(c.arguments),
        workflow_run_timeout: encode_opt_duration(c.workflow_run_timeout),
        workflow_task_timeout: encode_opt_duration(c.workflow_task_timeout),
        memo: encode_header_vec(c.memo),
        header: encode_header_vec(c.header),
        search_attributes: encode_header_vec(c.search_attributes),
    }
}

/// Round-trip law for continue-as-new commands.
pub proof fn lemma_continue_as_new_round_trip(c: ContinueAsNewWorkflowExecutionView)
    ensures
        spec_decode_continue_as_new(spec_encode_continue_as_new(c)) == Ok::<
            ContinueAsNewWorkflowExecutionView,
            DecodeError,
        >(c),
{
    lemma_opt_duration_round_trip(c.workflow_run_timeout, TimeField::WorkflowRunTimeout);
    lemma_opt_duration_round_trip(c.workflow_task_timeout, TimeField::WorkflowTaskTimeout);
    lemma_payload_seq_round_trip(c.arguments);
    lemma_header_seq_round_trip(c.memo);
    lemma_header_seq_round_trip(c.header);
    lemma_header_seq_round_trip(c.search_attributes);
}

// ---------------------------------------------------------------------------
// CancelWorkflowExecution
// ---------------------------------------------------------------------------

/// The cancel-workflow-execution command as it travels on the wire; it
/// carries no fields.
#[derive(Clone, Copy, PartialEq, Eq, Structural, Debug)]
pub struct WireCancelWorkflowExecution {}

impl DeepView for WireCancelWorkflowExecution {
    type V = WireCancelWorkflowExecution;

    open spec fn deep_view(&self) -> WireCancelWorkflowExecution {
        *self
    }
}

/// The cancel-workflow-execution command: acknowledge cancellation and
/// close the run; it carries no fields.
#[derive(Clone, Copy, PartialEq, Eq, Structural, Debug)]
pub struct CancelWorkflowExecution {}

impl DeepView for CancelWorkflowExecution {
    type V = CancelWorkflowExecution;

    open spec fn deep_view(&self) -> CancelWorkflowExecution {
        *self
    }
}

/// What `decode_cancel_workflow_execution` returns; total.
pub open spec fn spec_decode_cancel_workflow_execution(w: WireCancelWorkflowExecution)
    -> CancelWorkflowExecution {
    CancelWorkflowExecution {  }
}

/// What `encode_cancel_workflow_execution` returns; total.
pub open spec fn spec_encode_cancel_workflow_execution(c: CancelWorkflowExecution)
    -> WireCancelWorkflowExecution {
    WireCancelWorkflowExecution {  }
}

/// Decodes a wire cancel-workflow-execution command; total.
pub fn decode_cancel_workflow_execution(w: WireCancelWorkflowExecution) -> (r:
    CancelWorkflowExecution)
    ensures
        r == spec_decode_cancel_workflow_execution(w),
{
    CancelWorkflowExecution {  }
}

/// Encodes a cancel-workflow-execution command for the wire; total.
pub fn encode_cancel_workflow_execution(c: CancelWorkflowExecution) -> (r:
    WireCancelWorkflowExecution)
    ensures
        r == spec_encode_cancel_workflow_execution(c),
{
    WireCancelWorkflowExecution {  }
}

// ---------------------------------------------------------------------------
// WorkflowCommand
// ---------------------------------------------------------------------------

/// A workflow command as it travels on the wire: every variant optional,
/// the sender trusted to populate exactly one.
#[derive(Debug, PartialEq, Eq)]
pub struct WireWorkflowCommand {
    pub start_timer: Option<WireStartTimer>,
    pub schedule_activity: Option<WireScheduleActivity>,
    pub respond_to_query: Option<WireQueryResult>,
    pub request_cancel_activity: Option<WireRequestCancelActivity>,
    pub cancel_timer: Option<WireCancelTimer>,
    pub complete_workflow_execution: Option<WireCompleteWorkflowExecution>,
    pub fail_workflow_execution: Option<WireFailWorkflowExecution>,
    pub continue_as_new_workflow_execution: Option<WireContinueAsNewWorkflowExecution>,
    pub cancel_workflow_execution: Option<WireCancelWorkflowExecution>,
}

/// Mathematical model of a wire workflow command.
pub struct WireWorkflowCommandView {
    pub start_timer: Option<WireStartTimerView>,
    pub schedule_activity: Option<WireScheduleActivityView>,
    pub respond_to_query: Option<WireQueryResultView>,
    pub request_cancel_activity: Option<WireRequestCancelActivityView>,
    pub cancel_timer: Option<WireCancelTimerView>,
    pub complete_workflow_execution: Option<WireCompleteWorkflowExecutionView>,
    pub fail_workflow_execution: Option<WireFailWorkflowExecutionView>,
    pub continue_as_new_workflow_execution: Option<WireContinueAsNewWorkflowExecutionView>,
    pub cancel_workflow_execution: Option<WireCancelWorkflowExecution>,
}

impl DeepView for WireWorkflowCommand {
    type V = WireWorkflowCommandView;

    open spec fn deep_view(&self) -> WireWorkflowCommandView {
        WireWorkflowCommandView {
            start_timer: self.start_timer.deep_view(),
            schedule_activity: self.schedule_activity.deep_view(),
            respond_to_query: self.respond_to_query.deep_view(),
            request_cancel_activity: self.request_cancel_activity.deep_view(),
            cancel_timer: self.cancel_timer.deep_view(),
            complete_workflow_execution: self.complete_workflow_execution.deep_view(),
            fail_workflow_execution: self.fail_workflow_execution.deep_view(),
            continue_as_new_workflow_execution:
                self.continue_as_new_workflow_execution.deep_view(),
            cancel_workflow_execution: self.cancel_workflow_execution,
        }
    }
}

/// An in-process workflow command: exactly one variant, by construction.
#[derive(Debug, PartialEq, Eq)]
pub enum WorkflowCommand {
    StartTimer(StartTimer),
    ScheduleActivity(ScheduleActivity),
    RespondToQuery(QueryResult),
    RequestCancelActivity(RequestCancelActivity),
    CancelTimer(CancelTimer),
    CompleteWorkflowExecution(CompleteWorkflowExecution),
    FailWorkflowExecution(FailWorkflowExecution),
    ContinueAsNewWorkflowExecution(ContinueAsNewWorkflowExecution),
    CancelWorkflowExecution(CancelWorkflowExecution),
}

/// Mathematical model of an in-process workflow command.
pub enum WorkflowCommandView {
    StartTimer(StartTimerView),
    ScheduleActivity(ScheduleActivityView),
    RespondToQuery(QueryResultView),
    RequestCancelActivity(RequestCancelActivityView),
    CancelTimer(CancelTimerView),
    CompleteWorkflowExecution(CompleteWorkflowExecutionView),
    FailWorkflowExecution(FailWorkflowExecutionView),
    ContinueAsNewWorkflowExecution(ContinueAsNewWorkflowExecutionView),
    CancelWorkflowExecution(CancelWorkflowExecution),
}

impl DeepView for WorkflowCommand {
    type V = WorkflowCommandView;

    open spec fn deep_view(&self) -> WorkflowCommandView {
        match self {
            WorkflowCommand::StartTimer(x) => WorkflowCommandView::StartTimer(x.deep_view()),
            WorkflowCommand::ScheduleActivity(x) => WorkflowCommandView::ScheduleActivity(
                x.deep_view(),
            ),
            WorkflowCommand::RespondToQuery(x) => WorkflowCommandView::RespondToQuery(
                x.deep_view(),
            ),
            WorkflowCommand::RequestCancelActivity(x) => WorkflowCommandView::RequestCancelActivity(
                x.deep_view(),
            ),
            WorkflowCommand::CancelTimer(x) => WorkflowCommandView::CancelTimer(x.deep_view()),
            WorkflowCommand::CompleteWorkflowExecution(x) =>
                WorkflowCommandView::CompleteWorkflowExecution(x.deep_view()),
            WorkflowCommand::FailWorkflowExecution(x) => WorkflowCommandView::FailWorkflowExecution(
                x.deep_view(),
            ),
            WorkflowCommand::ContinueAsNewWorkflowExecution(x) =>
                WorkflowCommandView::ContinueAsNewWorkflowExecution(x.deep_view()),
            WorkflowCommand::CancelWorkflowExecution(x) =>
                WorkflowCommandView::CancelWorkflowExecution(*x),
        }
    }
}

/// How many variant fields of a wire workflow command are populated.
pub open spec fn wire_command_variant_count(w: WireWorkflowCommandView) -> int {
    (if w.start_timer is Some {
        1int
    } else {
        0int
    }) + (if w.schedule_activity is Some {
        1int
    } else {
        0int
    }) + (if w.respond_to_query is Some {
        1int
    } else {
        0int
    }) + (if w.request_cancel_activity is Some {
        1int
    } else {
        0int
    }) + (if w.cancel_timer is Some {
        1int
    } else {
        0int
    }) + (if w.complete_workflow_execution is Some {
        1int
    } else {
        0int
    }) + (if w.fail_workflow_execution is Some {
        1int
    } else {
        0int
    }) + (if w.continue_as_new_workflow_execution is Some {
        1int
    } else {
        0int
    }) + (if w.cancel_workflow_execution is Some {
        1int
    } else {
        0int
    })
}

/// What `decode_workflow_command` returns: the tagged union when exactly
/// one variant is populated, a protocol violation otherwise.
pub open spec fn spec_decode_workflow_command(w: WireWorkflowCommandView) -> Result<
    WorkflowCommandView,
    DecodeError,
> {
    if wire_command_variant_count(w) == 0 {
        Err(DecodeError::MissingVariant(OneofKind::WorkflowCommandVariant))
    } else if wire_command_variant_count(w) >= 2 {
        Err(DecodeError::MultipleVariants(OneofKind::WorkflowCommandVariant))
    } else {
        match w.start_timer {
            Option::Some(x) => match spec_decode_start_timer(x) {
                Ok(t) => Ok(WorkflowCommandView::StartTimer(t)),
                Err(e) => Err(e),
            },
            Option::None => match w.schedule_activity {
                Option::Some(x) => match spec_decode_schedule_activity(x) {
                    Ok(s) => Ok(WorkflowCommandView::ScheduleActivity(s)),
                    Err(e) => Err(e),
                },
                Option::None => match w.respond_to_query {
                    Option::Some(x) => match spec_decode_query_result(x) {
                        Ok(q) => Ok(WorkflowCommandView::RespondToQuery(q)),
                        Err(e) => Err(e),
                    },
                    Option::None => match w.request_cancel_activity {
                        Option::Some(x) => Ok(
                            WorkflowCommandView::RequestCancelActivity(
                                spec_decode_request_cancel_activity(x),
                            ),
                        ),
                        Option::None => match w.cancel_timer {
                            Option::Some(x) => Ok(
                                WorkflowCommandView::CancelTimer(spec_decode_cancel_timer(x)),
                            ),
                            Option::None => match w.complete_workflow_execution {
                                Option::Some(x) => Ok(
                                    WorkflowCommandView::CompleteWorkflowExecution(
                                        spec_decode_complete_workflow_execution(x),
                                    ),
                                ),
                                Option::None => match w.fail_workflow_execution {
                                    Option::Some(x) => Ok(
                                        WorkflowCommandView::FailWorkflowExecution(
                                            spec_decode_fail_workflow_execution(x),
                                        ),
                                    ),
                                    Option::None => match w.continue_as_new_workflow_execution {
                                        Option::Some(x) => match spec_decode_continue_as_new(x) {
                                            Ok(c) => Ok(
                                                WorkflowCommandView::ContinueAsNewWorkflowExecution(
                                                    c,
                                                ),
                                            ),
                                            Err(e) => Err(e),
                                        },
                                        Option::None => match w.cancel_workflow_execution {
                                            Option::Some(x) => Ok(
                                                WorkflowCommandView::CancelWorkflowExecution(
                                                    spec_decode_cancel_workflow_execution(x),
                                                ),
                                            ),
                                            Option::None => Err(
                                                DecodeError::MissingVariant(
                                                    OneofKind::WorkflowCommandVariant,
                                                ),
                                            ),
                                        },
                                    },
                                },
                            },
                        },
                    },
                },
            },
        }
    }
}

/// What `encode_workflow_command` returns: the wire shape with exactly the
/// one populated variant; total.
pub open spec fn spec_encode_workflow_command(c: WorkflowCommandView) -> WireWorkflowCommandView {
    let empty = WireWorkflowCommandView {
        start_timer: Option::None,
        schedule_activity: Option::None,
        respond_to_query: Option::None,
        request_cancel_activity: Option::None,
        cancel_timer: Option::None,
        complete_workflow_execution: Option::None,
        fail_workflow_execution: Option::None,
        continue_as_new_workflow_execution: Option::None,
        cancel_workflow_execution: Option::None,
    };
    match c {
        WorkflowCommandView::StartTimer(x) => WireWorkflowCommandView {
            start_timer: Option::Some(spec_encode_start_timer(x)),
            ..empty
        },
        WorkflowCommandView::ScheduleActivity(x) => WireWorkflowCommandView {
            schedule_activity: Option::Some(spec_encode_schedule_activity(x)),
            ..empty
        },
        WorkflowCommandView::RespondToQuery(x) => WireWorkflowCommandView {
            respond_to_query: Option::Some(spec_encode_query_result(x)),
            ..empty
        },
        WorkflowCommandView::RequestCancelActivity(x) => WireWorkflowCommandView {
            request_cancel_activity: Option::Some(spec_encode_request_cancel_activity(x)),
            ..empty
        },
        WorkflowCommandView::CancelTimer(x) => WireWorkflowCommandView {
            cancel_timer: Option::Some(spec_encode_cancel_timer(x)),
            ..empty
        },
        WorkflowCommandView::CompleteWorkflowExecution(x) => WireWorkflowCommandView {
            complete_workflow_execution: Option::Some(spec_encode_complete_workflow_execution(x)),
            ..empty
        },
        WorkflowCommandView::FailWorkflowExecution(x) => WireWorkflowCommandView {
            fail_workflow_execution: Option::Some(spec_encode_fail_workflow_execution(x)),
            ..empty
        },
        WorkflowCommandView::ContinueAsNewWorkflowExecution(x) => WireWorkflowCommandView {
            continue_as_new_workflow_execution: Option::Some(spec_encode_continue_as_new(x)),
            ..empty
        },
        WorkflowCommandView::CancelWorkflowExecution(x) => WireWorkflowCommandView {
            cancel_workflow_execution: Option::Some(spec_encode_cancel_workflow_execution(x)),
            ..empty
        },
    }
}

/// Decodes a wire workflow command into its strict tagged union.  Fails
/// with `MissingVariant` when no variant is populated, `MultipleVariants`
/// when more than one is, and propagates nested decode errors.
#[verifier::rlimit(100)]
pub fn decode_workflow_command(w: WireWorkflowCommand) -> (r: Result<WorkflowCommand, DecodeError>)
    ensures
        match r {
            Ok(c) => spec_decode_workflow_command(w.deep_view()) == Ok::<
                WorkflowCommandView,
                DecodeError,
            >(c.deep_view()),
            Err(e) => spec_decode_workflow_command(w.deep_view()) == Err::<
                WorkflowCommandView,
                DecodeError,
            >(e),
        },
{
    let count: u32 = (if w.start_timer.is_some() {
        1
    } else {
        0
    }) + (if w.schedule_activity.is_some() {
        1
    } else {
        0
    }) + (if w.respond_to_query.is_some() {
        1
    } else {
        0
    }) + (if w.request_cancel_activity.is_some() {
        1
    } else {
        0
    }) + (if w.cancel_timer.is_some() {
        1
    } else {
        0
    }) + (if w.complete_workflow_execution.is_some() {
        1
    } else {
        0
    }) + (if w.fail_workflow_execution.is_some() {
        1
    } else {
        0
    }) + (if w.continue_as_new_workflow_execution.is_some() {
        1
    } else {
        0
    }) + (if w.cancel_workflow_execution.is_some() {
        1
    } else {
        0
    });
    if count == 0 {
        return Err(DecodeError::MissingVariant(OneofKind::WorkflowCommandVariant));
    }
    if count >= 2 {
        return Err(DecodeError::MultipleVariants(OneofKind::WorkflowCommandVariant));
    }
    match w.start_timer {
        Option::Some(x) => match decode_start_timer(x) {
            Ok(t) => Ok(WorkflowCommand::StartTimer(t)),
            Err(e) => Err(e),
        },
        Option::None => match w.schedule_activity {
            Option::Some(x) => match decode_schedule_activity(x) {
                Ok(s) => Ok(WorkflowCommand::ScheduleActivity(s)),
                Err(e) => Err(e),
            },
            Option::None => match w.respond_to_query {
                Option::Some(x) => match decode_query_result(x) {
                    Ok(q) => Ok(WorkflowCommand::RespondToQuery(q)),
                    Err(e) => Err(e),
                },
                Option::None => match w.request_cancel_activity {
                    Option::Some(x) => Ok(
                        WorkflowCommand::RequestCancelActivity(decode_request_cancel_activity(x)),
                    ),
                    Option::None => match w.cancel_timer {
                        Option::Some(x) => Ok(WorkflowCommand::CancelTimer(decode_cancel_timer(x))),
                        Option::None => match w.complete_workflow_execution {
                            Option::Some(x) => Ok(
                                WorkflowCommand::CompleteWorkflowExecution(
                                    decode_complete_workflow_execution(x),
                                ),
                            ),
                            Option::None => match w.fail_workflow_execution {
                                Option::Some(x) => Ok(
                                    WorkflowCommand::FailWorkflowExecution(
                                        decode_fail_workflow_execution(x),
                                    ),
                                ),
                                Option::None => match w.continue_as_new_workflow_execution {
                                    Option::Some(x) => match decode_continue_as_new(x) {
                                        Ok(c) => Ok(
                                            WorkflowCommand::ContinueAsNewWorkflowExecution(c),
                                        ),
                                        Err(e) => Err(e),
                                    },
                                    Option::None => match w.cancel_workflow_execution {
                                        Option::Some(x) => Ok(
                                            WorkflowCommand::CancelWorkflowExecution(
                                                decode_cancel_workflow_execution(x),
                                            ),
                                        ),
                                        Option::None => Err(
                                            DecodeError::MissingVariant(
                                                OneofKind::WorkflowCommandVariant,
                                            ),
                                        ),
                                    },
                                },
                            },
                        },
                    },
                },
            },
        },
    }
}

/// Encodes a workflow command for the wire: exactly one variant field is
/// populated; total.
pub fn encode_workflow_command(c: WorkflowCommand) -> (r: WireWorkflowCommand)
    ensures
        r.deep_view() == spec_encode_workflow_command(c.deep_view()),
{
    let mut r = WireWorkflowCommand {
        start_timer: Option::None,
        schedule_activity: Option::None,
        respond_to_query: Option::None,
        request_cancel_activity: Option::None,
        cancel_timer: Option::None,
        complete_workflow_execution: Option::None,
        fail_workflow_execution: Option::None,
        continue_as_new_workflow_execution: Option::None,
        cancel_workflow_execution: Option::None,
    };
    match c {
        WorkflowCommand::StartTimer(x) => {
            r.start_timer = Option::Some(encode_start_timer(x));
        },
        WorkflowCommand::ScheduleActivity(x) => {
            r.schedule_activity = Option::Some(encode_schedule_activity(x));
        },
        WorkflowCommand::RespondToQuery(x) => {
            r.respond_to_query = Option::Some(encode_query_result(x));
        },
        WorkflowCommand::RequestCancelActivity(x) => {
            r.request_cancel_activity = Option::Some(encode_request_cancel_activity(x));
        },
        WorkflowCommand::CancelTimer(x) => {
            r.cancel_timer = Option::Some(encode_cancel_timer(x));
        },
        WorkflowCommand::CompleteWorkflowExecution(x) => {
            r.complete_workflow_execution = Option::Some(encode_complete_workflow_execution(x));
        },
        WorkflowCommand::FailWorkflowExecution(x) => {
            r.fail_workflow_execution = Option::Some(encode_fail_workflow_execution(x));
        },
        WorkflowCommand::ContinueAsNewWorkflowExecution(x) => {
            r.continue_as_new_workflow_execution = Option::Some(encode_continue_as_new(x));
        },
        WorkflowCommand::CancelWorkflowExecution(x) => {
            r.cancel_workflow_execution = Option::Some(encode_cancel_workflow_execution(x));
        },
    }
    r
}

/// Exclusivity law for workflow commands: zero populated variants are
/// reported as `MissingVariant`, two or more as `MultipleVariants`, and a
/// decode succeeds only when exactly one variant is populated.
pub proof fn lemma_workflow_command_exclusivity(w: WireWorkflowCommandView)
    ensures
        spec_decode_workflow_command(w) == Err::<WorkflowCommandView, DecodeError>(
            DecodeError::MissingVariant(OneofKind::WorkflowCommandVariant),
        ) <==> wire_command_variant_count(w) == 0,
        spec_decode_workflow_command(w) == Err::<WorkflowCommandView, DecodeError>(
            DecodeError::MultipleVariants(OneofKind::WorkflowCommandVariant),
        ) <==> wire_command_variant_count(w) >= 2,
        spec_decode_workflow_command(w) is Ok ==> wire_command_variant_count(w) == 1,
{
}

/// Every error a workflow-command decode can produce names the command's
/// own oneof, a query answer's oneof, or an out-of-range time field —
/// never another entity's oneof.
#[verifier::rlimit(100)]
pub proof fn lemma_workflow_command_error_kinds(w: WireWorkflowCommandView)
    ensures
        spec_decode_workflow_command(w) matches Err(e) ==> match e {
            DecodeError::MissingVariant(k) => k == OneofKind::WorkflowCommandVariant || k
                == OneofKind::QueryResultVariant,
            DecodeError::MultipleVariants(k) => k == OneofKind::WorkflowCommandVariant || k
                == OneofKind::QueryResultVariant,
            DecodeError::TimeOutOfRange(_, _) => true,
        },
{
}

/// Round-trip law for workflow commands: reading back the wire form of any
/// workflow command recovers that command exactly.
#[verifier::rlimit(50)]
pub proof fn lemma_workflow_command_round_trip(c: WorkflowCommandView)
    ensures
        spec_decode_workflow_command(spec_encode_workflow_command(c)) == Ok::<
            WorkflowCommandView,
            DecodeError,
        >(c),
{
    match c {
        WorkflowCommandView::StartTimer(x) => {
            lemma_start_timer_round_trip(x);
        },
        WorkflowCommandView::ScheduleActivity(x) => {
            lemma_schedule_activity_round_trip(x);
        },
        WorkflowCommandView::RespondToQuery(x) => {
            lemma_query_result_round_trip(x);
        },
        WorkflowCommandView::ContinueAsNewWorkflowExecution(x) => {
            lemma_continue_as_new_round_trip(x);
        },
        WorkflowCommandView::CompleteWorkflowExecution(x) => {
            lemma_opt_payload_round_trip(x.result);
        },
        WorkflowCommandView::FailWorkflowExecution(x) => {
            lemma_opt_failure_round_trip(x.failure);
        },
        _ => {
        },
    }
}

} // verus!
