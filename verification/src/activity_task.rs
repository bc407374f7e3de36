//! Activity task protocol types.
//!
//! An activity task delivered by a poll is exactly one of two shapes: a
//! `Start`, carrying everything needed to run one attempt of an activity,
//! or a `Cancel`, asking the worker to stop a running activity.  On the
//! wire the two variants are independent optional fields; in process they
//! are a strict tagged union, and decoding validates the exclusivity
//! invariant.

use vstd::prelude::*;

use crate::codec::{
    decode_header_vec, decode_payload_vec, encode_header_vec, encode_payload_vec,
    lemma_header_seq_round_trip, lemma_payload_seq_round_trip, spec_decode_header_seq,
    spec_decode_payload_seq, spec_encode_header_seq, spec_encode_payload_seq,
};
use crate::common::{
    decode_opt_retry_policy, decode_opt_workflow_execution, encode_opt_retry_policy,
    encode_opt_workflow_execution, lemma_opt_retry_policy_round_trip,
    lemma_opt_workflow_execution_round_trip, spec_decode_opt_retry_policy,
    spec_decode_opt_workflow_execution, spec_encode_opt_retry_policy,
    spec_encode_opt_workflow_execution, Payload, PayloadView, RetryPolicy, RetryPolicyView,
    WirePayload, WirePayloadView, WireRetryPolicy, WireRetryPolicyView, WireWorkflowExecution,
    WireWorkflowExecutionView, WorkflowExecution, WorkflowExecutionView,
};
use crate::errors::{DecodeError, OneofKind, TimeField};
use crate::time::{
    decode_opt_duration, decode_opt_instant, encode_opt_duration, encode_opt_instant,
    lemma_opt_duration_round_trip, lemma_opt_instant_round_trip, opt_instant_wf,
    spec_decode_opt_duration, spec_decode_opt_instant, spec_encode_opt_duration,
    spec_encode_opt_instant, Duration, Instant, WireDuration, WireTimestamp,
};

verus! {

// ---------------------------------------------------------------------------
// Start
// ---------------------------------------------------------------------------

/// The start variant as it travels on the wire.
#[derive(Debug, PartialEq, Eq)]
pub struct WireStart {
    pub workflow_namespace: String,
    pub workflow_type: String,
    pub workflow_execution: Option<WireWorkflowExecution>,
    pub activity_type: String,
    pub header_fields: Vec<(String, WirePayload)>,
    pub input: Vec<WirePayload>,
    pub heartbeat_details: Vec<WirePayload>,
    pub scheduled_time: Option<WireTimestamp>,
    pub current_attempt_scheduled_time: Option<WireTimestamp>,
    pub started_time: Option<WireTimestamp>,
    pub attempt: i32,
    pub schedule_to_close_timeout: Option<WireDuration>,
    pub start_to_close_timeout: Option<WireDuration>,
    pub heartbeat_timeout: Option<WireDuration>,
    pub retry_policy: Option<WireRetryPolicy>,
}

/// Mathematical model of a wire start variant.
pub struct WireStartView {
    pub workflow_namespace: Seq<char>,
    pub workflow_type: Seq<char>,
    pub workflow_execution: Option<WireWorkflowExecutionView>,
    pub activity_type: Seq<char>,
    pub header_fields: Seq<(Seq<char>, WirePayloadView)>,
    pub input: Seq<WirePayloadView>,
    pub heartbeat_details: Seq<WirePayloadView>,
    pub scheduled_time: Option<WireTimestamp>,
    pub current_attempt_scheduled_time: Option<WireTimestamp>,
    pub started_time: Option<WireTimestamp>,
    pub attempt: i32,
    pub schedule_to_close_timeout: Option<WireDuration>,
    pub start_to_close_timeout: Option<WireDuration>,
    pub heartbeat_timeout: Option<WireDuration>,
    pub retry_policy: Option<WireRetryPolicyView>,
}

impl DeepView for WireStart {
    type V = WireStartView;

    open spec fn deep_view(&self) -> WireStartView {
        WireStartView {
            workflow_namespace: self.workflow_namespace.deep_view(),
            workflow_type: self.workflow_type.deep_view(),
            workflow_execution: self.workflow_execution.deep_view(),
            activity_type: self.activity_type.deep_view(),
            header_fields: self.header_fields.deep_view(),
            input: self.input.deep_view(),
            heartbeat_details: self.heartbeat_details.deep_view(),
            scheduled_time: self.scheduled_time,
            current_attempt_scheduled_time: self.current_attempt_scheduled_time,
            started_time: self.started_time,
            attempt: self.attempt,
            schedule_to_close_timeout: self.schedule_to_close_timeout,
            start_to_close_timeout: self.start_to_close_timeout,
            heartbeat_timeout: self.heartbeat_timeout,
            retry_policy: self.retry_policy.deep_view(),
        }
    }
}

/// The start variant: one attempt of one activity, with its inputs,
/// headers, prior heartbeat details, schedule and start times, timeouts
/// and retry policy.
#[derive(Debug, PartialEq, Eq)]
pub struct Start {
    pub workflow_namespace: String,
    pub workflow_type: String,
    pub workflow_execution: Option<WorkflowExecution>,
    pub activity_type: String,
    pub header_fields: Vec<(String, Payload)>,
    pub input: Vec<Payload>,
    pub heartbeat_details: Vec<Payload>,
    pub scheduled_time: Option<Instant>,
    pub current_attempt_scheduled_time: Option<Instant>,
    pub started_time: Option<Instant>,
    pub attempt: i32,
    pub schedule_to_close_timeout: Option<Duration>,
    pub start_to_close_timeout: Option<Duration>,
    pub heartbeat_timeout: Option<Duration>,
    pub retry_policy: Option<RetryPolicy>,
}

/// Mathematical model of an in-process start variant.
pub struct StartView {
    pub workflow_namespace: Seq<char>,
    pub workflow_type: Seq<char>,
    pub workflow_execution: Option<WorkflowExecutionView>,
    pub activity_type: Seq<char>,
    pub header_fields: Seq<(Seq<char>, PayloadView)>,
    pub input: Seq<PayloadView>,
    pub heartbeat_details: Seq<PayloadView>,
    pub scheduled_time: Option<Instant>,
    pub current_attempt_scheduled_time: Option<Instant>,
    pub started_time: Option<Instant>,
    pub attempt: i32,
    pub schedule_to_close_timeout: Option<Duration>,
    pub start_to_close_timeout: Option<Duration>,
    pub heartbeat_timeout: Option<Duration>,
    pub retry_policy: Option<RetryPolicyView>,
}

impl DeepView for Start {
    type V = StartView;

    open spec fn deep_view(&self) -> StartView {
        StartView {
            workflow_namespace: self.workflow_namespace.deep_view(),
            workflow_type: self.workflow_type.deep_view(),
            workflow_execution: self.workflow_execution.deep_view(),
            activity_type: self.activity_type.deep_view(),
            header_fields: self.header_fields.deep_view(),
            input: self.input.deep_view(),
            heartbeat_details: self.heartbeat_details.deep_view(),
            scheduled_time: self.scheduled_time,
            current_attempt_scheduled_time: self.current_attempt_scheduled_time,
            started_time: self.started_time,
            attempt: self.attempt,
            schedule_to_close_timeout: self.schedule_to_close_timeout,
            start_to_close_timeout: self.start_to_close_timeout,
            heartbeat_timeout: self.heartbeat_timeout,
            retry_policy: self.retry_policy.deep_view(),
        }
    }
}

/// A well-formed start variant: its timestamps, if present, lie in the
/// range wire timestamps can express.  Every decoded start is well formed;
/// encoding requires it.
pub open spec fn start_wf(s: StartView) -> bool {
    &&& opt_instant_wf(s.scheduled_time)
    &&& opt_instant_wf(s.current_attempt_scheduled_time)
    &&& opt_instant_wf(s.started_time)
}

/// What `decode_start` returns: every field copied, time fields passed
/// through the time codec; the first out-of-range time value fails the
/// whole decode, naming its field.
pub open spec fn spec_decode_start(w: WireStartView) -> Result<StartView, DecodeError> {
    let scheduled_time = spec_decode_opt_instant(w.scheduled_time, TimeField::ScheduledTime);
    let current_attempt_scheduled_time = spec_decode_opt_instant(
        w.current_attempt_scheduled_time,
        TimeField::CurrentAttemptScheduledTime,
    );
    let started_time = spec_decode_opt_instant(w.started_time, TimeField::StartedTime);
    let schedule_to_close_timeout = spec_decode_opt_duration(
        w.schedule_to_close_timeout,
        TimeField::ScheduleToCloseTimeout,
    );
    let start_to_close_timeout = spec_decode_opt_duration(
        w.start_to_close_timeout,
        TimeField::StartToCloseTimeout,
    );
    let heartbeat_timeout = spec_decode_opt_duration(
        w.heartbeat_timeout,
        TimeField::HeartbeatTimeout,
    );
    let retry_policy = spec_decode_opt_retry_policy(w.retry_policy);
    if scheduled_time is Err {
        Err(scheduled_time->Err_0)
    } else if current_attempt_scheduled_time is Err {
        Err(current_attempt_scheduled_time->Err_0)
    } else if started_time is Err {
        Err(started_time->Err_0)
    } else if schedule_to_close_timeout is Err {
        Err(schedule_to_close_timeout->Err_0)
    } else if start_to_close_timeout is Err {
        Err(start_to_close_timeout->Err_0)
    } else if heartbeat_timeout is Err {
        Err(heartbeat_timeout->Err_0)
    } else if retry_policy is Err {
        Err(retry_policy->Err_0)
    } else {
        Ok(
            StartView {
                workflow_namespace: w.workflow_namespace,
                workflow_type: w.workflow_type,
                workflow_execution: spec_decode_opt_workflow_execution(w.workflow_execution),
                activity_type: w.activity_type,
                header_fields: spec_decode_header_seq(w.header_fields),
                input: spec_decode_payload_seq(w.input),
                heartbeat_details: spec_decode_payload_seq(w.heartbeat_details),
                scheduled_time: scheduled_time->Ok_0,
                current_attempt_scheduled_time: current_attempt_scheduled_time->Ok_0,
                started_time: started_time->Ok_0,
                attempt: w.attempt,
                schedule_to_close_timeout: schedule_to_close_timeout->Ok_0,
                start_to_close_timeout: start_to_close_timeout->Ok_0,
                heartbeat_timeout: heartbeat_timeout->Ok_0,
                retry_policy: retry_policy->Ok_0,
            },
        )
    }
}

/// What `encode_start` returns: every field copied, time fields passed
/// through the time codec; total over well-formed starts.
pub open spec fn spec_encode_start(s: StartView) -> WireStartView {
    WireStartView {
        workflow_namespace: s.workflow_namespace,
        workflow_type: s.workflow_type,
        workflow_execution: spec_encode_opt_workflow_execution(s.workflow_execution),
        activity_type: s.activity_type,
        header_fields: spec_encode_header_seq(s.header_fields),
        input: spec_encode_payload_seq(s.input),
        heartbeat_details: spec_encode_payload_seq(s.heartbeat_details),
        scheduled_time: spec_encode_opt_instant(s.scheduled_time),
        current_attempt_scheduled_time: spec_encode_opt_instant(s.current_attempt_scheduled_time),
        started_time: spec_encode_opt_instant(s.started_time),
        attempt: s.attempt,
        schedule_to_close_timeout: spec_encode_opt_duration(s.schedule_to_close_timeout),
        start_to_close_timeout: spec_encode_opt_duration(s.start_to_close_timeout),
        heartbeat_timeout: spec_encode_opt_duration(s.heartbeat_timeout),
        retry_policy: spec_encode_opt_retry_policy(s.retry_policy),
    }
}

/// Decodes a wire start variant.  Fails with `TimeOutOfRange`, naming the
/// offending field and its raw values, exactly when a time field lies
/// outside the representable range.
pub fn decode_start(w: WireStart) -> (r: Result<Start, DecodeError>)
    ensures
        match r {
            Ok(s) => spec_decode_start(w.deep_view()) == Ok::<StartView, DecodeError>(
                s.deep_view(),
            ) && start_wf(s.deep_view()),
            Err(e) => spec_decode_start(w.deep_view()) == Err::<StartView, DecodeError>(e),
        },
{
    let scheduled_time = match decode_opt_instant(w.scheduled_time, TimeField::ScheduledTime) {
        Ok(t) => t,
        Err(e) => {
            return Err(e);
        },
    };
    let current_attempt_scheduled_time = match decode_opt_instant(
        w.current_attempt_scheduled_time,
        TimeField::CurrentAttemptScheduledTime,
    ) {
        Ok(t) => t,
        Err(e) => {
            return Err(e);
        },
    };
    let started_time = match decode_opt_instant(w.started_time, TimeField::StartedTime) {
        Ok(t) => t,
        Err(e) => {
            return Err(e);
        },
    };
    let schedule_to_close_timeout = match decode_opt_duration(
        w.schedule_to_close_timeout,
        TimeField::ScheduleToCloseTimeout,
    ) {
        Ok(d) => d,
        Err(e) => {
            return Err(e);
        },
    };
    let start_to_close_timeout = match decode_opt_duration(
        w.start_to_close_timeout,
        TimeField::StartToCloseTimeout,
    ) {
        Ok(d) => d,
        Err(e) => {
            return Err(e);
        },
    };
    let heartbeat_timeout = match decode_opt_duration(
        w.heartbeat_timeout,
        TimeField::HeartbeatTimeout,
    ) {
        Ok(d) => d,
        Err(e) => {
            return Err(e);
        },
    };
    let retry_policy = match decode_opt_retry_policy(w.retry_policy) {
        Ok(p) => p,
        Err(e) => {
            return Err(e);
        },
    };
    Ok(
        Start {
            workflow_namespace: w.workflow_namespace,
            workflow_type: w.workflow_type,
            workflow_execution: decode_opt_workflow_execution(w.workflow_execution),
            activity_type: w.activity_type,
            header_fields: decode_header_vec(w.header_fields),
            input: decode_payload_vec(w.input),
            heartbeat_details: decode_payload_vec(w.heartbeat_details),
            scheduled_time,
            current_attempt_scheduled_time,
            started_time,
            attempt: w.attempt,
            schedule_to_close_timeout,
            start_to_close_timeout,
            heartbeat_timeout,
            retry_policy,
        },
    )
}

/// Encodes a well-formed start variant for the wire; total.
pub fn encode_start(s: Start) -> (r: WireStart)
    requires
        start_wf(s.deep_view()),
    ensures
        r.deep_view() == spec_encode_start(s.deep_view()),
{
    WireStart {
        workflow_namespace: s.workflow_namespace,
        workflow_type: s.workflow_type,
        workflow_execution: encode_opt_workflow_execution(s.workflow_execution),
        activity_type: s.activity_type,
        header_fields: encode_header_vec(s.header_fields),
        input: encode_payload_vec(s.input),
        heartbeat_details: encode_payload_vec(s.heartbeat_details),
        scheduled_time: encode_opt_instant(s.scheduled_time),
        current_attempt_scheduled_time: encode_opt_instant(s.current_attempt_scheduled_time),
        started_time: encode_opt_instant(s.started_time),
        attempt: s.attempt,
        schedule_to_close_timeout: encode_opt_duration(s.schedule_to_close_timeout),
        start_to_close_timeout: encode_opt_duration(s.start_to_close_timeout),
        heartbeat_timeout: encode_opt_duration(s.heartbeat_timeout),
        retry_policy: encode_opt_retry_policy(s.retry_policy),
    }
}

/// Round-trip law for start variants: reading back the wire form of any
/// well-formed start recovers that start exactly.
pub proof fn lemma_start_round_trip(s: StartView)
    requires
        start_wf(s),
    ensures
        spec_decode_start(spec_encode_start(s)) == Ok::<StartView, DecodeError>(s),
{
    lemma_opt_instant_round_trip(s.scheduled_time, TimeField::ScheduledTime);
    lemma_opt_instant_round_trip(
        s.current_attempt_scheduled_time,
        TimeField::CurrentAttemptScheduledTime,
    );
    lemma_opt_instant_round_trip(s.started_time, TimeField::StartedTime);
    lemma_opt_duration_round_trip(s.schedule_to_close_timeout, TimeField::ScheduleToCloseTimeout);
    lemma_opt_duration_round_trip(s.start_to_close_timeout, TimeField::StartToCloseTimeout);
    lemma_opt_duration_round_trip(s.heartbeat_timeout, TimeField::HeartbeatTimeout);
    lemma_opt_retry_policy_round_trip(s.retry_policy);
    lemma_opt_workflow_execution_round_trip(s.workflow_execution);
    lemma_header_seq_round_trip(s.header_fields);
    lemma_payload_seq_round_trip(s.input);
    lemma_payload_seq_round_trip(s.heartbeat_details);
}

// ---------------------------------------------------------------------------
// Cancel
// ---------------------------------------------------------------------------

/// The cancel variant as it travels on the wire: the cancellation cause as
/// a raw integer code.  The closed enumeration the code maps to belongs to
/// the orchestration service's contract; this layer carries it faithfully.
#[derive(Clone, Copy, PartialEq, Eq, Structural, Debug)]
pub struct WireCancel {
    pub reason: i32,
}

impl DeepView for WireCancel {
    type V = WireCancel;

    open spec fn deep_view(&self) -> WireCancel {
        *self
    }
}

/// The cancel variant: asks the worker to stop a running activity, with
/// the cancellation cause as a raw integer code.
#[derive(Clone, Copy, PartialEq, Eq, Structural, Debug)]
pub struct Cancel {
    pub reason: i32,
}

impl DeepView for Cancel {
    type V = Cancel;

    open spec fn deep_view(&self) -> Cancel {
        *self
    }
}

/// What `decode_cancel` returns; total.
pub open spec fn spec_decode_cancel(w: WireCancel) -> Cancel {
    Cancel { reason: w.reason }
}

/// What `encode_cancel` returns; total.
pub open spec fn spec_encode_cancel(c: Cancel) -> WireCancel {
    WireCancel { reason: c.reason }
}

/// Decodes a wire cancel variant: a total structural copy.
pub fn decode_cancel(w: WireCancel) -> (r: Cancel)
    ensures
        r == spec_decode_cancel(w),
{
    Cancel { reason: w.reason }
}

/// Encodes a cancel variant for the wire: a total structural copy.
pub fn encode_cancel(c: Cancel) -> (r: WireCancel)
    ensures
        r == spec_encode_cancel(c),
{
    WireCancel { reason: c.reason }
}

// ---------------------------------------------------------------------------
// ActivityTask
// ---------------------------------------------------------------------------

/// An activity task as it travels on the wire: both variants optional, the
/// sender trusted to populate exactly one.
#[derive(Debug, PartialEq, Eq)]
pub struct WireActivityTask {
    pub task_token: Vec<u8>,
    pub activity_id: String,
    pub start: Option<WireStart>,
    pub cancel: Option<WireCancel>,
}

/// Mathematical model of a wire activity task.
pub struct WireActivityTaskView {
    pub task_token: Seq<u8>,
    pub activity_id: Seq<char>,
    pub start: Option<WireStartView>,
    pub cancel: Option<WireCancel>,
}

impl DeepView for WireActivityTask {
    type V = WireActivityTaskView;

    open spec fn deep_view(&self) -> WireActivityTaskView {
        WireActivityTaskView {
            task_token: self.task_token.deep_view(),
            activity_id: self.activity_id.deep_view(),
            start: self.start.deep_view(),
            cancel: self.cancel,
        }
    }
}

/// The two shapes of an activity task: exactly one, by construction.
#[derive(Debug, PartialEq, Eq)]
pub enum ActivityTaskVariant {
    Start(Start),
    Cancel(Cancel),
}

/// Mathematical model of an activity-task variant.
pub enum ActivityTaskVariantView {
    Start(StartView),
    Cancel(Cancel),
}

impl DeepView for ActivityTaskVariant {
    type V = ActivityTaskVariantView;

    open spec fn deep_view(&self) -> ActivityTaskVariantView {
        match self {
            ActivityTaskVariant::Start(s) => ActivityTaskVariantView::Start(s.deep_view()),
            ActivityTaskVariant::Cancel(c) => ActivityTaskVariantView::Cancel(*c),
        }
    }
}

/// An in-process activity task: the single-use task token correlating the
/// task to its eventual completion, the activity's identifier, and exactly
/// one variant.
#[derive(Debug, PartialEq, Eq)]
pub struct ActivityTask {
    pub task_token: Vec<u8>,
    pub activity_id: String,
    pub variant: ActivityTaskVariant,
}

/// Mathematical model of an in-process activity task.
pub struct ActivityTaskView {
    pub task_token: Seq<u8>,
    pub activity_id: Seq<char>,
    pub variant: ActivityTaskVariantView,
}

impl DeepView for ActivityTask {
    type V = ActivityTaskView;

    open spec fn deep_view(&self) -> ActivityTaskView {
        ActivityTaskView {
            task_token: self.task_token.deep_view(),
            activity_id: self.activity_id.deep_view(),
            variant: self.variant.deep_view(),
        }
    }
}

/// A well-formed activity task: a start variant must be well formed.
pub open spec fn activity_task_wf(t: ActivityTaskView) -> bool {
    match t.variant {
        ActivityTaskVariantView::Start(s) => start_wf(s),
        ActivityTaskVariantView::Cancel(_) => true,
    }
}

/// How many variant fields of a wire activity task are populated.
pub open spec fn wire_activity_task_variant_count(w: WireActivityTaskView) -> int {
    (if w.start is Some {
        1int
    } else {
        0int
    }) + (if w.cancel is Some {
        1int
    } else {
        0int
    })
}

/// What `decode_activity_task` returns: the tagged union when exactly one
/// variant is populated and its time fields are in range, a protocol
/// violation or range error otherwise.
pub open spec fn spec_decode_activity_task(w: WireActivityTaskView) -> Result<
    ActivityTaskView,
    DecodeError,
> {
    match (w.start, w.cancel) {
        (Option::Some(s), Option::None) => match spec_decode_start(s) {
            Ok(sv) => Ok(
                ActivityTaskView {
                    task_token: w.task_token,
                    activity_id: w.activity_id,
                    variant: ActivityTaskVariantView::Start(sv),
                },
            ),
            Err(e) => Err(e),
        },
        (Option::None, Option::Some(c)) => Ok(
            ActivityTaskView {
                task_token: w.task_token,
                activity_id: w.activity_id,
                variant: ActivityTaskVariantView::Cancel(spec_decode_cancel(c)),
            },
        ),
        (Option::None, Option::None) => Err(
            DecodeError::MissingVariant(OneofKind::ActivityTaskVariant),
        ),
        _ => Err(DecodeError::MultipleVariants(OneofKind::ActivityTaskVariant)),
    }
}

/// What `encode_activity_task` returns: the wire shape with exactly the
/// one populated variant; total over well-formed tasks.
pub open spec fn spec_encode_activity_task(t: ActivityTaskView) -> WireActivityTaskView {
    match t.variant {
        ActivityTaskVariantView::Start(s) => WireActivityTaskView {
            task_token: t.task_token,
            activity_id: t.activity_id,
            start: Option::Some(spec_encode_start(s)),
            cancel: Option::None,
        },
        ActivityTaskVariantView::Cancel(c) => WireActivityTaskView {
            task_token: t.task_token,
            activity_id: t.activity_id,
            start: Option::None,
            cancel: Option::Some(spec_encode_cancel(c)),
        },
    }
}

/// Decodes a wire activity task into its strict tagged union.  Fails with
/// `MissingVariant` when no variant is populated, `MultipleVariants` when
/// both are, and `TimeOutOfRange` when a start's time field is out of
/// range.  Every decoded task is well formed.
pub fn decode_activity_task(w: WireActivityTask) -> (r: Result<ActivityTask, DecodeError>)
    ensures
        match r {
            Ok(t) => spec_decode_activity_task(w.deep_view()) == Ok::<
                ActivityTaskView,
                DecodeError,
            >(t.deep_view()) && activity_task_wf(t.deep_view()),
            Err(e) => spec_decode_activity_task(w.deep_view()) == Err::<
                ActivityTaskView,
                DecodeError,
            >(e),
        },
{
    match (w.start, w.cancel) {
        (Option::Some(s), Option::None) => match decode_start(s) {
            Ok(sv) => Ok(
                ActivityTask {
                    task_token: w.task_token,
                    activity_id: w.activity_id,
                    variant: ActivityTaskVariant::Start(sv),
                },
            ),
            Err(e) => Err(e),
        },
        (Option::None, Option::Some(c)) => Ok(
            ActivityTask {
                task_token: w.task_token,
                activity_id: w.activity_id,
                variant: ActivityTaskVariant::Cancel(decode_cancel(c)),
            },
        ),
        (Option::None, Option::None) => Err(
            DecodeError::MissingVariant(OneofKind::ActivityTaskVariant),
        ),
        _ => Err(DecodeError::MultipleVariants(OneofKind::ActivityTaskVariant)),
    }
}

/// Encodes a well-formed activity task for the wire: exactly one variant
/// field is populated; total.
pub fn encode_activity_task(t: ActivityTask) -> (r: WireActivityTask)
    requires
        activity_task_wf(t.deep_view()),
    ensures
        r.deep_view() == spec_encode_activity_task(t.deep_view()),
{
    match t.variant {
        ActivityTaskVariant::Start(s) => WireActivityTask {
            task_token: t.task_token,
            activity_id: t.activity_id,
            start: Option::Some(encode_start(s)),
            cancel: Option::None,
        },
        ActivityTaskVariant::Cancel(c) => WireActivityTask {
            task_token: t.task_token,
            activity_id: t.activity_id,
            start: Option::None,
            cancel: Option::Some(encode_cancel(c)),
        },
    }
}

/// Exclusivity law for activity tasks: zero populated variants are
/// reported as `MissingVariant`, two as `MultipleVariants`, and a decode
/// succeeds only when exactly one variant is populated.
pub proof fn lemma_activity_task_exclusivity(w: WireActivityTaskView)
    ensures
        spec_decode_activity_task(w) == Err::<ActivityTaskView, DecodeError>(
            DecodeError::MissingVariant(OneofKind::ActivityTaskVariant),
        ) <==> wire_activity_task_variant_count(w) == 0,
        spec_decode_activity_task(w) == Err::<ActivityTaskView, DecodeError>(
            DecodeError::MultipleVariants(OneofKind::ActivityTaskVariant),
        ) <==> wire_activity_task_variant_count(w) >= 2,
        spec_decode_activity_task(w) is Ok ==> wire_activity_task_variant_count(w) == 1,
{
}

/// Round-trip law for activity tasks: reading back the wire form of any
/// well-formed activity task recovers that task exactly.
pub proof fn lemma_activity_task_round_trip(t: ActivityTaskView)
    requires
        activity_task_wf(t),
    ensures
        spec_decode_activity_task(spec_encode_activity_task(t)) == Ok::<
            ActivityTaskView,
            DecodeError,
        >(t),
{
    match t.variant {
        ActivityTaskVariantView::Start(s) => {
            lemma_start_round_trip(s);
        },
        ActivityTaskVariantView::Cancel(_) => {
        },
    }
}

} // verus!
