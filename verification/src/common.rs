//! Common entity types and their wire conversions.
//!
//! `Payload`, `UserCodeFailure`, `WorkflowExecution` and `RetryPolicy` are
//! shared by the activity and workflow halves of the protocol.  Each has a
//! wire-shaped predecessor; conversion is bidirectional and structure
//! preserving.  The recursive failure chain is converted iteratively, so a
//! chain of any depth converts in linear time without deep recursion.

use vstd::prelude::*;

use crate::errors::{DecodeError, TimeField};
use crate::time::{
    spec_decode_opt_duration, spec_encode_opt_duration, decode_opt_duration, encode_opt_duration,
    lemma_opt_duration_round_trip, Duration, WireDuration,
};

verus! {

// ---------------------------------------------------------------------------
// Payload
// ---------------------------------------------------------------------------

/// A payload as it travels on the wire: opaque bytes plus a metadata map
/// (unordered, keys unique — maintained by producers; this layer gives the
/// bytes no semantic interpretation).
#[derive(Debug, PartialEq, Eq)]
pub struct WirePayload {
    pub metadata: Vec<(String, Vec<u8>)>,
    pub data: Vec<u8>,
}

/// Mathematical model of a wire payload.
pub struct WirePayloadView {
    pub metadata: Seq<(Seq<char>, Seq<u8>)>,
    pub data: Seq<u8>,
}

impl DeepView for WirePayload {
    type V = WirePayloadView;

    open spec fn deep_view(&self) -> WirePayloadView {
        WirePayloadView { metadata: self.metadata.deep_view(), data: self.data.deep_view() }
    }
}

/// An in-process payload: opaque bytes plus a metadata map carrying, for
/// example, the content type of the bytes.
#[derive(Debug, PartialEq, Eq)]
pub struct Payload {
    pub metadata: Vec<(String, Vec<u8>)>,
    pub data: Vec<u8>,
}

/// Mathematical model of an in-process payload.
pub struct PayloadView {
    pub metadata: Seq<(Seq<char>, Seq<u8>)>,
    pub data: Seq<u8>,
}

impl DeepView for Payload {
    type V = PayloadView;

    open spec fn deep_view(&self) -> PayloadView {
        PayloadView { metadata: self.metadata.deep_view(), data: self.data.deep_view() }
    }
}

/// What `decode_payload` returns: the structural copy of the wire payload.
pub open spec fn spec_decode_payload(w: WirePayloadView) -> PayloadView {
    PayloadView { metadata: w.metadata, data: w.data }
}

/// What `encode_payload` returns: the structural copy of the payload.
pub open spec fn spec_encode_payload(p: PayloadView) -> WirePayloadView {
    WirePayloadView { metadata: p.metadata, data: p.data }
}

/// Decodes a wire payload: a total structural copy.
pub fn decode_payload(w: WirePayload) -> (r: Payload)
    ensures
        r.deep_view() == spec_decode_payload(w.deep_view()),
{
    Payload { metadata: w.metadata, data: w.data }
}

/// Encodes a payload for the wire: a total structural copy.
pub fn encode_payload(p: Payload) -> (r: WirePayload)
    ensures
        r.deep_view() == spec_encode_payload(p.deep_view()),
{
    WirePayload { metadata: p.metadata, data: p.data }
}

/// Round-trip law for payloads: reading back the wire form of any payload
/// recovers that payload exactly.
pub proof fn lemma_payload_round_trip(p: PayloadView)
    ensures
        spec_decode_payload(spec_encode_payload(p)) == p,
{
}

// ---------------------------------------------------------------------------
// UserCodeFailure
// ---------------------------------------------------------------------------

/// A user-code failure as it travels on the wire: a singly-linked chain of
/// failures, each exclusively owning its cause.  The chain is finite and
/// acyclic by construction; its depth is unbounded.
#[derive(Debug, PartialEq, Eq)]
pub struct WireUserCodeFailure {
    pub message: String,
    pub failure_type: String,
    pub source: String,
    pub stack_trace: String,
    pub non_retryable: bool,
    pub cause: Option<Box<WireUserCodeFailure>>,
}

/// Mathematical model of a wire failure chain.
pub struct WireUserCodeFailureView {
    pub message: Seq<char>,
    pub failure_type: Seq<char>,
    pub source: Seq<char>,
    pub stack_trace: Seq<char>,
    pub non_retryable: bool,
    pub cause: Option<Box<WireUserCodeFailureView>>,
}

/// The model of a wire failure chain, cause by cause.
pub open spec fn wire_failure_view(f: WireUserCodeFailure) -> WireUserCodeFailureView
    decreases f,
{
    WireUserCodeFailureView {
        message: f.message.deep_view(),
        failure_type: f.failure_type.deep_view(),
        source: f.source.deep_view(),
        stack_trace: f.stack_trace.deep_view(),
        non_retryable: f.non_retryable,
        cause: match f.cause {
            Option::None => Option::None,
            Option::Some(b) => Option::Some(Box::new(wire_failure_view(*b))),
        },
    }
}

impl DeepView for WireUserCodeFailure {
    type V = WireUserCodeFailureView;

    open spec fn deep_view(&self) -> WireUserCodeFailureView {
        wire_failure_view(*self)
    }
}

/// An in-process user-code failure: a singly-linked chain, each failure
/// exclusively owning its optional cause.
#[derive(Debug, PartialEq, Eq)]
pub struct UserCodeFailure {
    pub message: String,
    pub failure_type: String,
    pub source: String,
    pub stack_trace: String,
    pub non_retryable: bool,
    pub cause: Option<Box<UserCodeFailure>>,
}

/// Mathematical model of an in-process failure chain.
pub struct UserCodeFailureView {
    pub message: Seq<char>,
    pub failure_type: Seq<char>,
    pub source: Seq<char>,
    pub stack_trace: Seq<char>,
    pub non_retryable: bool,
    pub cause: Option<Box<UserCodeFailureView>>,
}

/// The model of an in-process failure chain, cause by cause.
pub open spec fn failure_view(f: UserCodeFailure) -> UserCodeFailureView
    decreases f,
{
    UserCodeFailureView {
        message: f.message.deep_view(),
        failure_type: f.failure_type.deep_view(),
        source: f.source.deep_view(),
        stack_trace: f.stack_trace.deep_view(),
        non_retryable: f.non_retryable,
        cause: match f.cause {
            Option::None => Option::None,
            Option::Some(b) => Option::Some(Box::new(failure_view(*b))),
        },
    }
}

impl DeepView for UserCodeFailure {
    type V = UserCodeFailureView;

    open spec fn deep_view(&self) -> UserCodeFailureView {
        failure_view(*self)
    }
}

/// What `decode_user_code_failure` returns: the structural copy of the
/// wire chain, cause by cause.
pub open spec fn spec_decode_failure(w: WireUserCodeFailureView) -> UserCodeFailureView
    decreases w,
{
    UserCodeFailureView {
        message: w.message,
        failure_type: w.failure_type,
        source: w.source,
        stack_trace: w.stack_trace,
        non_retryable: w.non_retryable,
        cause: match w.cause {
            Option::None => Option::None,
            Option::Some(b) => Option::Some(Box::new(spec_decode_failure(*b))),
        },
    }
}

/// What `encode_user_code_failure` returns: the structural copy of the
/// chain, cause by cause.
pub open spec fn spec_encode_failure(f: UserCodeFailureView) -> WireUserCodeFailureView
    decreases f,
{
    WireUserCodeFailureView {
        message: f.message,
        failure_type: f.failure_type,
        source: f.source,
        stack_trace: f.stack_trace,
        non_retryable: f.non_retryable,
        cause: match f.cause {
            Option::None => Option::None,
            Option::Some(b) => Option::Some(Box::new(spec_encode_failure(*b))),
        },
    }
}

/// Rebuilds a failure chain from detached frames: each frame's cause is
/// replaced by the chain of the frames after it, ending in `tail`.
pub open spec fn attach_frames(frames: Seq<UserCodeFailureView>, tail: UserCodeFailureView)
    -> UserCodeFailureView
    decreases frames.len(),
{
    if frames.len() == 0 {
        tail
    } else {
        UserCodeFailureView {
            cause: Option::Some(Box::new(attach_frames(frames.drop_first(), tail))),
            ..frames[0]
        }
    }
}

/// Attaching one more frame at the deep end of the chain wraps the tail
/// last.
proof fn lemma_attach_frames_snoc(
    frames: Seq<UserCodeFailureView>,
    x: UserCodeFailureView,
    tail: UserCodeFailureView,
)
    ensures
        attach_frames(frames.push(x), tail) == attach_frames(
            frames,
            UserCodeFailureView { cause: Option::Some(Box::new(tail)), ..x },
        ),
    decreases frames.len(),
{
    if frames.len() == 0 {
        assert(frames.push(x).drop_first() =~= Seq::<UserCodeFailureView>::empty());
        assert(attach_frames(Seq::<UserCodeFailureView>::empty(), tail) == tail);
        assert(frames.push(x)[0] == x);
    } else {
        assert(frames.push(x).drop_first() =~= frames.drop_first().push(x));
        assert(frames.push(x)[0] == frames[0]);
        lemma_attach_frames_snoc(frames.drop_first(), x, tail);
    }
}

/// The same rebuilding, over wire frames.
pub open spec fn attach_wire_frames(
    frames: Seq<WireUserCodeFailureView>,
    tail: WireUserCodeFailureView,
) -> WireUserCodeFailureView
    decreases frames.len(),
{
    if frames.len() == 0 {
        tail
    } else {
        WireUserCodeFailureView {
            cause: Option::Some(Box::new(attach_wire_frames(frames.drop_first(), tail))),
            ..frames[0]
        }
    }
}

proof fn lemma_attach_wire_frames_snoc(
    frames: Seq<WireUserCodeFailureView>,
    x: WireUserCodeFailureView,
    tail: WireUserCodeFailureView,
)
    ensures
        attach_wire_frames(frames.push(x), tail) == attach_wire_frames(
            frames,
            WireUserCodeFailureView { cause: Option::Some(Box::new(tail)), ..x },
        ),
    decreases frames.len(),
{
    if frames.len() == 0 {
        assert(frames.push(x).drop_first() =~= Seq::<WireUserCodeFailureView>::empty());
        assert(attach_wire_frames(Seq::<WireUserCodeFailureView>::empty(), tail) == tail);
        assert(frames.push(x)[0] == x);
    } else {
        assert(frames.push(x).drop_first() =~= frames.drop_first().push(x));
        assert(frames.push(x)[0] == frames[0]);
        lemma_attach_wire_frames_snoc(frames.drop_first(), x, tail);
    }
}

/// Decodes a wire failure chain: a total structural copy, performed
/// iteratively so that a chain of depth N converts in O(N) time without
/// deep recursion.
pub fn decode_user_code_failure(w: WireUserCodeFailure) -> (r: UserCodeFailure)
    ensures
        r.deep_view() == spec_decode_failure(w.deep_view()),
{
    let ghost target = spec_decode_failure(w.deep_view());
    // Walk the chain outward, detaching each frame.
    let mut frames: Vec<UserCodeFailure> = Vec::new();
    let mut cur: WireUserCodeFailure = w;
    loop
        invariant_except_break
            attach_frames(frames.deep_view(), spec_decode_failure(cur.deep_view())) == target,
        ensures
            frames.len() > 0,
            attach_frames(frames.deep_view().drop_last(), frames.deep_view().last()) == target,
        decreases cur,
    {
        let ghost cur_view = cur.deep_view();
        let ghost fs_before = frames.deep_view();
        let WireUserCodeFailure { message, failure_type, source, stack_trace, non_retryable, cause }
            = cur;
        let frame = UserCodeFailure {
            message,
            failure_type,
            source,
            stack_trace,
            non_retryable,
            cause: Option::None,
        };
        frames.push(frame);
        proof {
            assert(frames.deep_view() =~= fs_before.push(frame.deep_view()));
        }
        match cause {
            Option::None => {
                proof {
                    assert(frame.deep_view() == spec_decode_failure(cur_view));
                    assert(frames.deep_view().drop_last() =~= fs_before);
                }
                break;
            },
            Option::Some(b) => {
                proof {
                    let tail_view = spec_decode_failure(b.deep_view());
                    lemma_attach_frames_snoc(fs_before, frame.deep_view(), tail_view);
                    assert(UserCodeFailureView {
                        cause: Option::Some(Box::new(tail_view)),
                        ..frame.deep_view()
                    } == spec_decode_failure(cur_view));
                }
                cur = *b;
            },
        }
    }
    // Rebuild the chain inward from the deepest frame.
    let ghost fs0 = frames.deep_view();
    let mut acc: UserCodeFailure = frames.pop().unwrap();
    proof {
        assert(frames.deep_view() =~= fs0.drop_last());
    }
    while frames.len() > 0
        invariant
            attach_frames(frames.deep_view(), acc.deep_view()) == target,
        decreases frames.len(),
    {
        let ghost fs = frames.deep_view();
        let mut f = frames.pop().unwrap();
        proof {
            assert(frames.deep_view() =~= fs.drop_last());
            assert(fs.drop_last().push(fs.last()) =~= fs);
            lemma_attach_frames_snoc(fs.drop_last(), fs.last(), acc.deep_view());
        }
        f.cause = Option::Some(Box::new(acc));
        acc = f;
    }
    acc
}

/// Encodes a failure chain for the wire: a total structural copy,
/// performed iteratively so that a chain of depth N converts in O(N) time
/// without deep recursion.
pub fn encode_user_code_failure(f: UserCodeFailure) -> (r: WireUserCodeFailure)
    ensures
        r.deep_view() == spec_encode_failure(f.deep_view()),
{
    let ghost target = spec_encode_failure(f.deep_view());
    let mut frames: Vec<WireUserCodeFailure> = Vec::new();
    let mut cur: UserCodeFailure = f;
    loop
        invariant_except_break
            attach_wire_frames(frames.deep_view(), spec_encode_failure(cur.deep_view())) == target,
        ensures
            frames.len() > 0,
            attach_wire_frames(frames.deep_view().drop_last(), frames.deep_view().last())
                == target,
        decreases cur,
    {
        let ghost cur_view = cur.deep_view();
        let ghost fs_before = frames.deep_view();
        let UserCodeFailure { message, failure_type, source, stack_trace, non_retryable, cause } =
            cur;
        let frame = WireUserCodeFailure {
            message,
            failure_type,
            source,
            stack_trace,
            non_retryable,
            cause: Option::None,
        };
        frames.push(frame);
        proof {
            assert(frames.deep_view() =~= fs_before.push(frame.deep_view()));
        }
        match cause {
            Option::None => {
                proof {
                    assert(frame.deep_view() == spec_encode_failure(cur_view));
                    assert(frames.deep_view().drop_last() =~= fs_before);
                }
                break;
            },
            Option::Some(b) => {
                proof {
                    let tail_view = spec_encode_failure(b.deep_view());
                    lemma_attach_wire_frames_snoc(fs_before, frame.deep_view(), tail_view);
                    assert(WireUserCodeFailureView {
                        cause: Option::Some(Box::new(tail_view)),
                        ..frame.deep_view()
                    } == spec_encode_failure(cur_view));
                }
                cur = *b;
            },
        }
    }
    let ghost fs0 = frames.deep_view();
    let mut acc: WireUserCodeFailure = frames.pop().unwrap();
    proof {
        assert(frames.deep_view() =~= fs0.drop_last());
    }
    while frames.len() > 0
        invariant
            attach_wire_frames(frames.deep_view(), acc.deep_view()) == target,
        decreases frames.len(),
    {
        let ghost fs = frames.deep_view();
        let mut f = frames.pop().unwrap();
        proof {
            assert(frames.deep_view() =~= fs.drop_last());
            assert(fs.drop_last().push(fs.last()) =~= fs);
            lemma_attach_wire_frames_snoc(fs.drop_last(), fs.last(), acc.deep_view());
        }
        f.cause = Option::Some(Box::new(acc));
        acc = f;
    }
    acc
}

/// Round-trip law for failure chains: reading back the wire form of any
/// failure chain, of any depth, recovers that chain exactly.
pub proof fn lemma_user_code_failure_round_trip(f: UserCodeFailureView)
    ensures
        spec_decode_failure(spec_encode_failure(f)) == f,
    decreases f,
{
    match f.cause {
        Option::None => {
        },
        Option::Some(b) => {
            lemma_user_code_failure_round_trip(*b);
        },
    }
}

// ---------------------------------------------------------------------------
// WorkflowExecution
// ---------------------------------------------------------------------------

/// One run of one workflow, as it travels on the wire.
#[derive(Debug, PartialEq, Eq)]
pub struct WireWorkflowExecution {
    pub workflow_id: String,
    pub run_id: String,
}

/// Mathematical model of a wire workflow execution.
pub struct WireWorkflowExecutionView {
    pub workflow_id: Seq<char>,
    pub run_id: Seq<char>,
}

impl DeepView for WireWorkflowExecution {
    type V = WireWorkflowExecutionView;

    open spec fn deep_view(&self) -> WireWorkflowExecutionView {
        WireWorkflowExecutionView {
            workflow_id: self.workflow_id.deep_view(),
            run_id: self.run_id.deep_view(),
        }
    }
}

/// One run of one workflow, in process.
#[derive(Debug, PartialEq, Eq)]
pub struct WorkflowExecution {
    pub workflow_id: String,
    pub run_id: String,
}

/// Mathematical model of an in-process workflow execution.
pub struct WorkflowExecutionView {
    pub workflow_id: Seq<char>,
    pub run_id: Seq<char>,
}

impl DeepView for WorkflowExecution {
    type V = WorkflowExecutionView;

    open spec fn deep_view(&self) -> WorkflowExecutionView {
        WorkflowExecutionView {
            workflow_id: self.workflow_id.deep_view(),
            run_id: self.run_id.deep_view(),
        }
    }
}

/// What `decode_workflow_execution` returns.
pub open spec fn spec_decode_workflow_execution(w: WireWorkflowExecutionView)
    -> WorkflowExecutionView {
    WorkflowExecutionView { workflow_id: w.workflow_id, run_id: w.run_id }
}

/// What `encode_workflow_execution` returns.
pub open spec fn spec_encode_workflow_execution(e: WorkflowExecutionView)
    -> WireWorkflowExecutionView {
    WireWorkflowExecutionView { workflow_id: e.workflow_id, run_id: e.run_id }
}

/// Decodes a wire workflow execution: a total structural copy.
pub fn decode_workflow_execution(w: WireWorkflowExecution) -> (r: WorkflowExecution)
    ensures
        r.deep_view() == spec_decode_workflow_execution(w.deep_view()),
{
    WorkflowExecution { workflow_id: w.workflow_id, run_id: w.run_id }
}

/// Encodes a workflow execution for the wire: a total structural copy.
pub fn encode_workflow_execution(e: WorkflowExecution) -> (r: WireWorkflowExecution)
    ensures
        r.deep_view() == spec_encode_workflow_execution(e.deep_view()),
{
    WireWorkflowExecution { workflow_id: e.workflow_id, run_id: e.run_id }
}

/// Round-trip law for workflow executions.
pub proof fn lemma_workflow_execution_round_trip(e: WorkflowExecutionView)
    ensures
        spec_decode_workflow_execution(spec_encode_workflow_execution(e)) == e,
{
}

// ---------------------------------------------------------------------------
// RetryPolicy
// ---------------------------------------------------------------------------

/// A retry policy as it travels on the wire.  The backoff coefficient is a
/// binary64 floating-point number on the wire; this layer carries its bit
/// pattern opaquely and gives it no arithmetic interpretation.
#[derive(Debug, PartialEq, Eq)]
pub struct WireRetryPolicy {
    pub initial_interval: Option<WireDuration>,
    pub backoff_coefficient_bits: u64,
    pub maximum_interval: Option<WireDuration>,
    pub maximum_attempts: i32,
    pub non_retryable_error_types: Vec<String>,
}

/// Mathematical model of a wire retry policy.
pub struct WireRetryPolicyView {
    pub initial_interval: Option<WireDuration>,
    pub backoff_coefficient_bits: u64,
    pub maximum_interval: Option<WireDuration>,
    pub maximum_attempts: i32,
    pub non_retryable_error_types: Seq<Seq<char>>,
}

impl DeepView for WireRetryPolicy {
    type V = WireRetryPolicyView;

    open spec fn deep_view(&self) -> WireRetryPolicyView {
        WireRetryPolicyView {
            initial_interval: self.initial_interval,
            backoff_coefficient_bits: self.backoff_coefficient_bits,
            maximum_interval: self.maximum_interval,
            maximum_attempts: self.maximum_attempts,
            non_retryable_error_types: self.non_retryable_error_types.deep_view(),
        }
    }
}

/// An in-process retry policy.  The backoff coefficient's bit pattern is
/// carried faithfully and interpreted only by the orchestration service.
#[derive(Debug, PartialEq, Eq)]
pub struct RetryPolicy {
    pub initial_interval: Option<Duration>,
    pub backoff_coefficient_bits: u64,
    pub maximum_interval: Option<Duration>,
    pub maximum_attempts: i32,
    pub non_retryable_error_types: Vec<String>,
}

/// Mathematical model of an in-process retry policy.
pub struct RetryPolicyView {
    pub initial_interval: Option<Duration>,
    pub backoff_coefficient_bits: u64,
    pub maximum_interval: Option<Duration>,
    pub maximum_attempts: i32,
    pub non_retryable_error_types: Seq<Seq<char>>,
}

impl DeepView for RetryPolicy {
    type V = RetryPolicyView;

    open spec fn deep_view(&self) -> RetryPolicyView {
        RetryPolicyView {
            initial_interval: self.initial_interval,
            backoff_coefficient_bits: self.backoff_coefficient_bits,
            maximum_interval: self.maximum_interval,
            maximum_attempts: self.maximum_attempts,
            non_retryable_error_types: self.non_retryable_error_types.deep_view(),
        }
    }
}

/// What `decode_retry_policy` returns: a structural copy whose interval
/// fields pass through the duration codec; the first out-of-range interval
/// fails the whole decode.
pub open spec fn spec_decode_retry_policy(w: WireRetryPolicyView)
    -> Result<RetryPolicyView, DecodeError> {
    match spec_decode_opt_duration(w.initial_interval, TimeField::RetryInitialInterval) {
        Result::Err(e) => Result::Err(e),
        Result::Ok(initial_interval) => match spec_decode_opt_duration(
            w.maximum_interval,
            TimeField::RetryMaximumInterval,
        ) {
            Result::Err(e) => Result::Err(e),
            Result::Ok(maximum_interval) => Result::Ok(RetryPolicyView {
                initial_interval,
                backoff_coefficient_bits: w.backoff_coefficient_bits,
                maximum_interval,
                maximum_attempts: w.maximum_attempts,
                non_retryable_error_types: w.non_retryable_error_types,
            }),
        },
    }
}

/// What `encode_retry_policy` returns: a structural copy whose interval
/// fields pass through the duration codec; total.
pub open spec fn spec_encode_retry_policy(p: RetryPolicyView) -> WireRetryPolicyView {
    WireRetryPolicyView {
        initial_interval: spec_encode_opt_duration(p.initial_interval),
        backoff_coefficient_bits: p.backoff_coefficient_bits,
        maximum_interval: spec_encode_opt_duration(p.maximum_interval),
        maximum_attempts: p.maximum_attempts,
        non_retryable_error_types: p.non_retryable_error_types,
    }
}

/// Decodes a wire retry policy.  Fails with `TimeOutOfRange`, naming the
/// offending field and its raw values, exactly when an interval does not
/// fit the duration range.
pub fn decode_retry_policy(w: WireRetryPolicy) -> (r: Result<RetryPolicy, DecodeError>)
    ensures
        match r {
            Result::Ok(p) => spec_decode_retry_policy(w.deep_view()) == Result::Ok::<
                RetryPolicyView,
                DecodeError,
            >(p.deep_view()),
            Result::Err(e) => spec_decode_retry_policy(w.deep_view()) == Result::Err::<
                RetryPolicyView,
                DecodeError,
            >(e),
        },
{
    let initial_interval = match decode_opt_duration(
        w.initial_interval,
        TimeField::RetryInitialInterval,
    ) {
        Result::Ok(d) => d,
        Result::Err(e) => {
            return Result::Err(e);
        },
    };
    let maximum_interval = match decode_opt_duration(
        w.maximum_interval,
        TimeField::RetryMaximumInterval,
    ) {
        Result::Ok(d) => d,
        Result::Err(e) => {
            return Result::Err(e);
        },
    };
    Result::Ok(RetryPolicy {
        initial_interval,
        backoff_coefficient_bits: w.backoff_coefficient_bits,
        maximum_interval,
        maximum_attempts: w.maximum_attempts,
        non_retryable_error_types: w.non_retryable_error_types,
    })
}

/// Encodes a retry policy for the wire: total.
pub fn encode_retry_policy(p: RetryPolicy) -> (r: WireRetryPolicy)
    ensures
        r.deep_view() == spec_encode_retry_policy(p.deep_view()),
{
    WireRetryPolicy {
        initial_interval: encode_opt_duration(p.initial_interval),
        backoff_coefficient_bits: p.backoff_coefficient_bits,
        maximum_interval: encode_opt_duration(p.maximum_interval),
        maximum_attempts: p.maximum_attempts,
        non_retryable_error_types: p.non_retryable_error_types,
    }
}

/// Round-trip law for retry policies: reading back the wire form of any
/// retry policy recovers that policy exactly.
pub proof fn lemma_retry_policy_round_trip(p: RetryPolicyView)
    ensures
        spec_decode_retry_policy(spec_encode_retry_policy(p)) == Ok::<
            RetryPolicyView,
            DecodeError,
        >(p),
{
    lemma_opt_duration_round_trip(p.initial_interval, TimeField::RetryInitialInterval);
    lemma_opt_duration_round_trip(p.maximum_interval, TimeField::RetryMaximumInterval);
}

/// What decoding an optional workflow-execution field yields; total.
pub open spec fn spec_decode_opt_workflow_execution(w: Option<WireWorkflowExecutionView>)
    -> Option<WorkflowExecutionView> {
    match w {
        Option::None => Option::None,
        Option::Some(e) => Option::Some(spec_decode_workflow_execution(e)),
    }
}

/// What encoding an optional workflow-execution field yields; total.
pub open spec fn spec_encode_opt_workflow_execution(e: Option<WorkflowExecutionView>) -> Option<
    WireWorkflowExecutionView,
> {
    match e {
        Option::None => Option::None,
        Option::Some(ee) => Option::Some(spec_encode_workflow_execution(ee)),
    }
}

/// Decodes an optional workflow-execution field; total.
pub fn decode_opt_workflow_execution(w: Option<WireWorkflowExecution>) -> (r: Option<
    WorkflowExecution,
>)
    ensures
        r.deep_view() == spec_decode_opt_workflow_execution(w.deep_view()),
{
    match w {
        Option::None => Option::None,
        Option::Some(e) => Option::Some(decode_workflow_execution(e)),
    }
}

/// Encodes an optional workflow-execution field; total.
pub fn encode_opt_workflow_execution(e: Option<WorkflowExecution>) -> (r: Option<
    WireWorkflowExecution,
>)
    ensures
        r.deep_view() == spec_encode_opt_workflow_execution(e.deep_view()),
{
    match e {
        Option::None => Option::None,
        Option::Some(ee) => Option::Some(encode_workflow_execution(ee)),
    }
}

/// Round-trip law for optional workflow-execution fields.
pub proof fn lemma_opt_workflow_execution_round_trip(e: Option<WorkflowExecutionView>)
    ensures
        spec_decode_opt_workflow_execution(spec_encode_opt_workflow_execution(e)) == e,
{
}

/// What decoding an optional retry-policy field yields: `None` passes
/// through; an out-of-range interval fails the decode.
pub open spec fn spec_decode_opt_retry_policy(w: Option<WireRetryPolicyView>) -> Result<
    Option<RetryPolicyView>,
    DecodeError,
> {
    match w {
        Option::None => Ok(Option::None),
        Option::Some(wp) => match spec_decode_retry_policy(wp) {
            Ok(p) => Ok(Option::Some(p)),
            Err(e) => Err(e),
        },
    }
}

/// What encoding an optional retry-policy field yields; total.
pub open spec fn spec_encode_opt_retry_policy(p: Option<RetryPolicyView>) -> Option<
    WireRetryPolicyView,
> {
    match p {
        Option::None => Option::None,
        Option::Some(pp) => Option::Some(spec_encode_retry_policy(pp)),
    }
}

/// Decodes an optional retry-policy field.
pub fn decode_opt_retry_policy(w: Option<WireRetryPolicy>) -> (r: Result<
    Option<RetryPolicy>,
    DecodeError,
>)
    ensures
        match r {
            Ok(p) => spec_decode_opt_retry_policy(w.deep_view()) == Ok::<
                Option<RetryPolicyView>,
                DecodeError,
            >(p.deep_view()),
            Err(e) => spec_decode_opt_retry_policy(w.deep_view()) == Err::<
                Option<RetryPolicyView>,
                DecodeError,
            >(e),
        },
{
    match w {
        Option::None => Ok(Option::None),
        Option::Some(wp) => match decode_retry_policy(wp) {
            Ok(p) => Ok(Option::Some(p)),
            Err(e) => Err(e),
        },
    }
}

/// Encodes an optional retry-policy field; total.
pub fn encode_opt_retry_policy(p: Option<RetryPolicy>) -> (r: Option<WireRetryPolicy>)
    ensures
        r.deep_view() == spec_encode_opt_retry_policy(p.deep_view()),
{
    match p {
        Option::None => Option::None,
        Option::Some(pp) => Option::Some(encode_retry_policy(pp)),
    }
}

/// Round-trip law for optional retry-policy fields.
pub proof fn lemma_opt_retry_policy_round_trip(p: Option<RetryPolicyView>)
    ensures
        spec_decode_opt_retry_policy(spec_encode_opt_retry_policy(p)) == Ok::<
            Option<RetryPolicyView>,
            DecodeError,
        >(p),
{
    match p {
        Option::None => {
        },
        Option::Some(pp) => {
            lemma_retry_policy_round_trip(pp);
        },
    }
}

} // verus!
