//! Activity result protocol types.
//!
//! An activity's outcome is exactly one of completed, failed or canceled.
//! On the wire the three variants are independent optional fields and the
//! sender is trusted to populate exactly one; in process the outcome is a
//! strict tagged union.  Decoding validates the exclusivity invariant: an
//! input with zero or several variants populated is rejected as a protocol
//! violation, never coerced by a first-match policy.

use vstd::prelude::*;

use crate::codec::{
    decode_opt_failure, decode_opt_payload, decode_payload_vec, encode_opt_failure,
    encode_opt_payload, encode_payload_vec, lemma_opt_failure_round_trip,
    lemma_opt_payload_round_trip, lemma_payload_seq_round_trip, spec_decode_opt_failure,
    spec_decode_opt_payload, spec_decode_payload_seq, spec_encode_opt_failure,
    spec_encode_opt_payload, spec_encode_payload_seq,
};
use crate::common::{
    Payload, PayloadView, UserCodeFailure, UserCodeFailureView, WirePayload, WirePayloadView,
    WireUserCodeFailure, WireUserCodeFailureView,
};
use crate::errors::{DecodeError, OneofKind};

verus! {

// ---------------------------------------------------------------------------
// Variant bodies
// ---------------------------------------------------------------------------

/// The completed variant as it travels on the wire.
#[derive(Debug, PartialEq, Eq)]
pub struct WireSuccess {
    pub result: Option<WirePayload>,
}

/// Mathematical model of a wire completed variant.
pub struct WireSuccessView {
    pub result: Option<WirePayloadView>,
}

impl DeepView for WireSuccess {
    type V = WireSuccessView;

    open spec fn deep_view(&self) -> WireSuccessView {
        WireSuccessView { result: self.result.deep_view() }
    }
}

/// The completed variant: the activity finished and may carry a result
/// payload.
#[derive(Debug, PartialEq, Eq)]
pub struct Success {
    pub result: Option<Payload>,
}

/// Mathematical model of a completed variant.
pub struct SuccessView {
    pub result: Option<PayloadView>,
}

impl DeepView for Success {
    type V = SuccessView;

    open spec fn deep_view(&self) -> SuccessView {
        SuccessView { result: self.result.deep_view() }
    }
}

/// The failed variant as it travels on the wire.
#[derive(Debug, PartialEq, Eq)]
pub struct WireFailure {
    pub failure: Option<WireUserCodeFailure>,
}

/// Mathematical model of a wire failed variant.
pub struct WireFailureView {
    pub failure: Option<WireUserCodeFailureView>,
}

impl DeepView for WireFailure {
    type V = WireFailureView;

    open spec fn deep_view(&self) -> WireFailureView {
        WireFailureView { failure: self.failure.deep_view() }
    }
}

/// The failed variant: the activity's user code failed, with an optional
/// failure chain.
#[derive(Debug, PartialEq, Eq)]
pub struct Failure {
    pub failure: Option<UserCodeFailure>,
}

/// Mathematical model of a failed variant.
pub struct FailureView {
    pub failure: Option<UserCodeFailureView>,
}

impl DeepView for Failure {
    type V = FailureView;

    open spec fn deep_view(&self) -> FailureView {
        FailureView { failure: self.failure.deep_view() }
    }
}

/// The canceled variant as it travels on the wire.
#[derive(Debug, PartialEq, Eq)]
pub struct WireCancelation {
    pub details: Option<WirePayload>,
}

/// Mathematical model of a wire canceled variant.
pub struct WireCancelationView {
    pub details: Option<WirePayloadView>,
}

impl DeepView for WireCancelation {
    type V = WireCancelationView;

    open spec fn deep_view(&self) -> WireCancelationView {
        WireCancelationView { details: self.details.deep_view() }
    }
}

/// The canceled variant: the activity acknowledged cancellation, with
/// optional details.
#[derive(Debug, PartialEq, Eq)]
pub struct Cancelation {
    pub details: Option<Payload>,
}

/// Mathematical model of a canceled variant.
pub struct CancelationView {
    pub details: Option<PayloadView>,
}

impl DeepView for Cancelation {
    type V = CancelationView;

    open spec fn deep_view(&self) -> CancelationView {
        CancelationView { details: self.details.deep_view() }
    }
}

// ---------------------------------------------------------------------------
// ActivityResult
// ---------------------------------------------------------------------------

/// An activity result as it travels on the wire: every variant optional,
/// the sender trusted to populate exactly one.
#[derive(Debug, PartialEq, Eq)]
pub struct WireActivityResult {
    pub completed: Option<WireSuccess>,
    pub failed: Option<WireFailure>,
    pub canceled: Option<WireCancelation>,
}

/// Mathematical model of a wire activity result.
pub struct WireActivityResultView {
    pub completed: Option<WireSuccessView>,
    pub failed: Option<WireFailureView>,
    pub canceled: Option<WireCancelationView>,
}

impl DeepView for WireActivityResult {
    type V = WireActivityResultView;

    open spec fn deep_view(&self) -> WireActivityResultView {
        WireActivityResultView {
            completed: self.completed.deep_view(),
            failed: self.failed.deep_view(),
            canceled: self.canceled.deep_view(),
        }
    }
}

/// An in-process activity result: exactly one variant, by construction.
#[derive(Debug, PartialEq, Eq)]
pub enum ActivityResult {
    Completed(Success),
    Failed(Failure),
    Canceled(Cancelation),
}

/// Mathematical model of an in-process activity result.
pub enum ActivityResultView {
    Completed(SuccessView),
    Failed(FailureView),
    Canceled(CancelationView),
}

impl DeepView for ActivityResult {
    type V = ActivityResultView;

    open spec fn deep_view(&self) -> ActivityResultView {
        match self {
            ActivityResult::Completed(s) => ActivityResultView::Completed(s.deep_view()),
            ActivityResult::Failed(f) => ActivityResultView::Failed(f.deep_view()),
            ActivityResult::Canceled(c) => ActivityResultView::Canceled(c.deep_view()),
        }
    }
}

/// How many variant fields of a wire activity result are populated.
pub open spec fn wire_activity_result_variant_count(w: WireActivityResultView) -> int {
    (if w.completed is Some {
        1int
    } else {
        0int
    }) + (if w.failed is Some {
        1int
    } else {
        0int
    }) + (if w.canceled is Some {
        1int
    } else {
        0int
    })
}

/// What `decode_activity_result` returns: the tagged union when exactly
/// one variant is populated, a protocol violation otherwise.
pub open spec fn spec_decode_activity_result(w: WireActivityResultView) -> Result<
    ActivityResultView,
    DecodeError,
> {
    match (w.completed, w.failed, w.canceled) {
        (Option::Some(c), Option::None, Option::None) => Ok(
            ActivityResultView::Completed(
                SuccessView { result: spec_decode_opt_payload(c.result) },
            ),
        ),
        (Option::None, Option::Some(f), Option::None) => Ok(
            ActivityResultView::Failed(
                FailureView { failure: spec_decode_opt_failure(f.failure) },
            ),
        ),
        (Option::None, Option::None, Option::Some(c)) => Ok(
            ActivityResultView::Canceled(
                CancelationView { details: spec_decode_opt_payload(c.details) },
            ),
        ),
        (Option::None, Option::None, Option::None) => Err(
            DecodeError::MissingVariant(OneofKind::ActivityResultStatus),
        ),
        _ => Err(DecodeError::MultipleVariants(OneofKind::ActivityResultStatus)),
    }
}

/// What `encode_activity_result` returns: the wire shape with exactly the
/// one populated variant; total.
pub open spec fn spec_encode_activity_result(x: ActivityResultView) -> WireActivityResultView {
    match x {
        ActivityResultView::Completed(s) => WireActivityResultView {
            completed: Option::Some(
                WireSuccessView { result: spec_encode_opt_payload(s.result) },
            ),
            failed: Option::None,
            canceled: Option::None,
        },
        ActivityResultView::Failed(f) => WireActivityResultView {
            completed: Option::None,
            failed: Option::Some(
                WireFailureView { failure: spec_encode_opt_failure(f.failure) },
            ),
            canceled: Option::None,
        },
        ActivityResultView::Canceled(c) => WireActivityResultView {
            completed: Option::None,
            failed: Option::None,
            canceled: Option::Some(
                WireCancelationView { details: spec_encode_opt_payload(c.details) },
            ),
        },
    }
}

/// Decodes a wire activity result into its strict tagged union.  Fails
/// with `MissingVariant` when no variant is populated and with
/// `MultipleVariants` when more than one is: a correctness gate, never a
/// first-match fallback.
pub fn decode_activity_result(w: WireActivityResult) -> (r: Result<ActivityResult, DecodeError>)
    ensures
        match r {
            Ok(x) => spec_decode_activity_result(w.deep_view()) == Ok::<
                ActivityResultView,
                DecodeError,
            >(x.deep_view()),
            Err(e) => spec_decode_activity_result(w.deep_view()) == Err::<
                ActivityResultView,
                DecodeError,
            >(e),
        },
{
    match (w.completed, w.failed, w.canceled) {
        (Option::Some(c), Option::None, Option::None) => Ok(
            ActivityResult::Completed(Success { result: decode_opt_payload(c.result) }),
        ),
        (Option::None, Option::Some(f), Option::None) => Ok(
            ActivityResult::Failed(Failure { failure: decode_opt_failure(f.failure) }),
        ),
        (Option::None, Option::None, Option::Some(c)) => Ok(
            ActivityResult::Canceled(Cancelation { details: decode_opt_payload(c.details) }),
        ),
        (Option::None, Option::None, Option::None) => Err(
            DecodeError::MissingVariant(OneofKind::ActivityResultStatus),
        ),
        _ => Err(DecodeError::MultipleVariants(OneofKind::ActivityResultStatus)),
    }
}

/// Encodes an activity result for the wire: exactly one variant field is
/// populated; total.
pub fn encode_activity_result(x: ActivityResult) -> (r: WireActivityResult)
    ensures
        r.deep_view() == spec_encode_activity_result(x.deep_view()),
{
    match x {
        ActivityResult::Completed(s) => WireActivityResult {
            completed: Option::Some(WireSuccess { result: encode_opt_payload(s.result) }),
            failed: Option::None,
            canceled: Option::None,
        },
        ActivityResult::Failed(f) => WireActivityResult {
            completed: Option::None,
            failed: Option::Some(WireFailure { failure: encode_opt_failure(f.failure) }),
            canceled: Option::None,
        },
        ActivityResult::Canceled(c) => WireActivityResult {
            completed: Option::None,
            failed: Option::None,
            canceled: Option::Some(WireCancelation { details: encode_opt_payload(c.details) }),
        },
    }
}

/// Exclusivity law for activity results: a decode succeeds exactly when
/// one variant is populated; zero populated variants are reported as
/// `MissingVariant`, two or more as `MultipleVariants`.
pub proof fn lemma_activity_result_exclusivity(w: WireActivityResultView)
    ensures
        spec_decode_activity_result(w) is Ok <==> wire_activity_result_variant_count(w) == 1,
        spec_decode_activity_result(w) == Err::<ActivityResultView, DecodeError>(
            DecodeError::MissingVariant(OneofKind::ActivityResultStatus),
        ) <==> wire_activity_result_variant_count(w) == 0,
        spec_decode_activity_result(w) == Err::<ActivityResultView, DecodeError>(
            DecodeError::MultipleVariants(OneofKind::ActivityResultStatus),
        ) <==> wire_activity_result_variant_count(w) >= 2,
{
}

/// Round-trip law for activity results: reading back the wire form of any
/// activity result recovers that result exactly.
pub proof fn lemma_activity_result_round_trip(x: ActivityResultView)
    ensures
        spec_decode_activity_result(spec_encode_activity_result(x)) == Ok::<
            ActivityResultView,
            DecodeError,
        >(x),
{
    match x {
        ActivityResultView::Completed(s) => {
            lemma_opt_payload_round_trip(s.result);
        },
        ActivityResultView::Failed(f) => {
            lemma_opt_failure_round_trip(f.failure);
        },
        ActivityResultView::Canceled(c) => {
            lemma_opt_payload_round_trip(c.details);
        },
    }
}

/// What decoding an optional activity-result field yields: `None` passes
/// through; an exclusivity violation fails the decode.
pub open spec fn spec_decode_opt_activity_result(w: Option<WireActivityResultView>) -> Result<
    Option<ActivityResultView>,
    DecodeError,
> {
    match w {
        Option::None => Ok(Option::None),
        Option::Some(wr) => match spec_decode_activity_result(wr) {
            Ok(x) => Ok(Option::Some(x)),
            Err(e) => Err(e),
        },
    }
}

/// What encoding an optional activity-result field yields; total.
pub open spec fn spec_encode_opt_activity_result(x: Option<ActivityResultView>) -> Option<
    WireActivityResultView,
> {
    match x {
        Option::None => Option::None,
        Option::Some(xx) => Option::Some(spec_encode_activity_result(xx)),
    }
}

/// Decodes an optional activity-result field.
pub fn decode_opt_activity_result(w: Option<WireActivityResult>) -> (r: Result<
    Option<ActivityResult>,
    DecodeError,
>)
    ensures
        match r {
            Ok(x) => spec_decode_opt_activity_result(w.deep_view()) == Ok::<
                Option<ActivityResultView>,
                DecodeError,
            >(x.deep_view()),
            Err(e) => spec_decode_opt_activity_result(w.deep_view()) == Err::<
                Option<ActivityResultView>,
                DecodeError,
            >(e),
        },
{
    match w {
        Option::None => Ok(Option::None),
        Option::Some(wr) => match decode_activity_result(wr) {
            Ok(x) => Ok(Option::Some(x)),
            Err(e) => Err(e),
        },
    }
}

/// Encodes an optional activity-result field; total.
pub fn encode_opt_activity_result(x: Option<ActivityResult>) -> (r: Option<WireActivityResult>)
    ensures
        r.deep_view() == spec_encode_opt_activity_result(x.deep_view()),
{
    match x {
        Option::None => Option::None,
        Option::Some(xx) => Option::Some(encode_activity_result(xx)),
    }
}

/// Round-trip law for optional activity-result fields.
pub proof fn lemma_opt_activity_result_round_trip(x: Option<ActivityResultView>)
    ensures
        spec_decode_opt_activity_result(spec_encode_opt_activity_result(x)) == Ok::<
            Option<ActivityResultView>,
            DecodeError,
        >(x),
{
    match x {
        Option::None => {
        },
        Option::Some(xx) => {
            lemma_activity_result_round_trip(xx);
        },
    }
}

// ---------------------------------------------------------------------------
// ActivityTaskCompletion
// ---------------------------------------------------------------------------

/// An activity-task completion as it travels on the wire.
#[derive(Debug, PartialEq, Eq)]
pub struct WireActivityTaskCompletion {
    pub task_token: Vec<u8>,
    pub task_queue: String,
    pub result: Option<WireActivityResult>,
}

/// Mathematical model of a wire activity-task completion.
pub struct WireActivityTaskCompletionView {
    pub task_token: Seq<u8>,
    pub task_queue: Seq<char>,
    pub result: Option<WireActivityResultView>,
}

impl DeepView for WireActivityTaskCompletion {
    type V = WireActivityTaskCompletionView;

    open spec fn deep_view(&self) -> WireActivityTaskCompletionView {
        WireActivityTaskCompletionView {
            task_token: self.task_token.deep_view(),
            task_queue: self.task_queue.deep_view(),
            result: self.result.deep_view(),
        }
    }
}

/// An in-process activity-task completion: the outcome of one activity
/// task, correlated to its poll by the single-use task token.
#[derive(Debug, PartialEq, Eq)]
pub struct ActivityTaskCompletion {
    pub task_token: Vec<u8>,
    pub task_queue: String,
    pub result: Option<ActivityResult>,
}

/// Mathematical model of an in-process activity-task completion.
pub struct ActivityTaskCompletionView {
    pub task_token: Seq<u8>,
    pub task_queue: Seq<char>,
    pub result: Option<ActivityResultView>,
}

impl DeepView for ActivityTaskCompletion {
    type V = ActivityTaskCompletionView;

    open spec fn deep_view(&self) -> ActivityTaskCompletionView {
        ActivityTaskCompletionView {
            task_token: self.task_token.deep_view(),
            task_queue: self.task_queue.deep_view(),
            result: self.result.deep_view(),
        }
    }
}

/// What `decode_activity_task_completion` returns.
pub open spec fn spec_decode_activity_task_completion(w: WireActivityTaskCompletionView) -> Result<
    ActivityTaskCompletionView,
    DecodeError,
> {
    match w.result {
        Option::None => Ok(
            ActivityTaskCompletionView {
                task_token: w.task_token,
                task_queue: w.task_queue,
                result: Option::None,
            },
        ),
        Option::Some(wr) => match spec_decode_activity_result(wr) {
            Ok(x) => Ok(
                ActivityTaskCompletionView {
                    task_token: w.task_token,
                    task_queue: w.task_queue,
                    result: Option::Some(x),
                },
            ),
            Err(e) => Err(e),
        },
    }
}

/// What `encode_activity_task_completion` returns; total.
pub open spec fn spec_encode_activity_task_completion(c: ActivityTaskCompletionView)
    -> WireActivityTaskCompletionView {
    WireActivityTaskCompletionView {
        task_token: c.task_token,
        task_queue: c.task_queue,
        result: match c.result {
            Option::None => Option::None,
            Option::Some(x) => Option::Some(spec_encode_activity_result(x)),
        },
    }
}

/// Decodes a wire activity-task completion; fails exactly when its result
/// violates the exclusivity invariant.
pub fn decode_activity_task_completion(w: WireActivityTaskCompletion) -> (r: Result<
    ActivityTaskCompletion,
    DecodeError,
>)
    ensures
        match r {
            Ok(c) => spec_decode_activity_task_completion(w.deep_view()) == Ok::<
                ActivityTaskCompletionView,
                DecodeError,
            >(c.deep_view()),
            Err(e) => spec_decode_activity_task_completion(w.deep_view()) == Err::<
                ActivityTaskCompletionView,
                DecodeError,
            >(e),
        },
{
    let result = match w.result {
        Option::None => Option::None,
        Option::Some(wr) => match decode_activity_result(wr) {
            Ok(x) => Option::Some(x),
            Err(e) => {
                return Err(e);
            },
        },
    };
    Ok(ActivityTaskCompletion { task_token: w.task_token, task_queue: w.task_queue, result })
}

/// Encodes an activity-task completion for the wire; total.
pub fn encode_activity_task_completion(c: ActivityTaskCompletion) -> (r:
    WireActivityTaskCompletion)
    ensures
        r.deep_view() == spec_encode_activity_task_completion(c.deep_view()),
{
    WireActivityTaskCompletion {
        task_token: c.task_token,
        task_queue: c.task_queue,
        result: match c.result {
            Option::None => Option::None,
            Option::Some(x) => Option::Some(encode_activity_result(x)),
        },
    }
}

/// Round-trip law for activity-task completions.
pub proof fn lemma_activity_task_completion_round_trip(c: ActivityTaskCompletionView)
    ensures
        spec_decode_activity_task_completion(spec_encode_activity_task_completion(c)) == Ok::<
            ActivityTaskCompletionView,
            DecodeError,
        >(c),
{
    match c.result {
        Option::None => {
        },
        Option::Some(x) => {
            lemma_activity_result_round_trip(x);
        },
    }
}

// ---------------------------------------------------------------------------
// ActivityHeartbeat
// ---------------------------------------------------------------------------

/// An activity heartbeat as it travels on the wire.
#[derive(Debug, PartialEq, Eq)]
pub struct WireActivityHeartbeat {
    pub task_token: Vec<u8>,
    pub task_queue: String,
    pub details: Vec<WirePayload>,
}

/// Mathematical model of a wire activity heartbeat.
pub struct WireActivityHeartbeatView {
    pub task_token: Seq<u8>,
    pub task_queue: Seq<char>,
    pub details: Seq<WirePayloadView>,
}

impl DeepView for WireActivityHeartbeat {
    type V = WireActivityHeartbeatView;

    open spec fn deep_view(&self) -> WireActivityHeartbeatView {
        WireActivityHeartbeatView {
            task_token: self.task_token.deep_view(),
            task_queue: self.task_queue.deep_view(),
            details: self.details.deep_view(),
        }
    }
}

/// An in-process activity heartbeat: a loss-tolerant liveness and progress
/// signal from a running activity.
#[derive(Debug, PartialEq, Eq)]
pub struct ActivityHeartbeat {
    pub task_token: Vec<u8>,
    pub task_queue: String,
    pub details: Vec<Payload>,
}

/// Mathematical model of an in-process activity heartbeat.
pub struct ActivityHeartbeatView {
    pub task_token: Seq<u8>,
    pub task_queue: Seq<char>,
    pub details: Seq<PayloadView>,
}

impl DeepView for ActivityHeartbeat {
    type V = ActivityHeartbeatView;

    open spec fn deep_view(&self) -> ActivityHeartbeatView {
        ActivityHeartbeatView {
            task_token: self.task_token.deep_view(),
            task_queue: self.task_queue.deep_view(),
            details: self.details.deep_view(),
        }
    }
}

/// What `decode_activity_heartbeat` returns; total.
pub open spec fn spec_decode_activity_heartbeat(w: WireActivityHeartbeatView)
    -> ActivityHeartbeatView {
    ActivityHeartbeatView {
        task_token: w.task_token,
        task_queue: w.task_queue,
        details: spec_decode_payload_seq(w.details),
    }
}

/// What `encode_activity_heartbeat` returns; total.
pub open spec fn spec_encode_activity_heartbeat(h: ActivityHeartbeatView)
    -> WireActivityHeartbeatView {
    WireActivityHeartbeatView {
        task_token: h.task_token,
        task_queue: h.task_queue,
        details: spec_encode_payload_seq(h.details),
    }
}

/// Decodes a wire activity heartbeat; total.
pub fn decode_activity_heartbeat(w: WireActivityHeartbeat) -> (r: ActivityHeartbeat)
    ensures
        r.deep_view() == spec_decode_activity_heartbeat(w.deep_view()),
{
    ActivityHeartbeat {
        task_token: w.task_token,
        task_queue: w.task_queue,
        details: decode_payload_vec(w.details),
    }
}

/// Encodes an activity heartbeat for the wire; total.
pub fn encode_activity_heartbeat(h: ActivityHeartbeat) -> (r: WireActivityHeartbeat)
    ensures
        r.deep_view() == spec_encode_activity_heartbeat(h.deep_view()),
{
    WireActivityHeartbeat {
        task_token: h.task_token,
        task_queue: h.task_queue,
        details: encode_payload_vec(h.details),
    }
}

/// Round-trip law for activity heartbeats.
pub proof fn lemma_activity_heartbeat_round_trip(h: ActivityHeartbeatView)
    ensures
        spec_decode_activity_heartbeat(spec_encode_activity_heartbeat(h)) == h,
{
    lemma_payload_seq_round_trip(h.details);
}

} // verus!
