//! Workflow activation protocol types.
//!
//! One poll of the workflow task queue delivers one activation: an ordered
//! batch of jobs for one workflow run.  A single activation can carry
//! several orthogonal signals (a timer firing plus a signal, say), and the
//! jobs must be processed exactly in delivery order.  Each job wraps
//! exactly one variant; on the wire the variants are independent optional
//! fields, and decoding validates the exclusivity invariant.

use vstd::prelude::*;

use crate::activity_result::{
    decode_opt_activity_result, encode_opt_activity_result, lemma_opt_activity_result_round_trip,
    spec_decode_opt_activity_result, spec_encode_opt_activity_result, ActivityResult,
    ActivityResultView, WireActivityResult, WireActivityResultView,
};
use crate::codec::{
    decode_header_vec, decode_payload_vec, encode_header_vec, encode_payload_vec,
    lemma_decode_seq_done, lemma_decode_seq_error, lemma_decode_seq_pointwise,
    lemma_decode_seq_round_trip, lemma_header_seq_round_trip, lemma_payload_seq_round_trip,
    reverse_vec, spec_decode_header_seq, spec_decode_payload_seq, spec_decode_seq,
    spec_encode_header_seq, spec_encode_payload_seq,
};
use crate::common::{Payload, PayloadView, WirePayload, WirePayloadView};
use crate::errors::{DecodeError, OneofKind, TimeField};
use crate::time::{
    decode_opt_instant, encode_opt_instant, lemma_opt_instant_round_trip, opt_instant_wf,
    spec_decode_opt_instant, spec_encode_opt_instant, Instant, WireTimestamp,
};

verus! {

// ---------------------------------------------------------------------------
// StartWorkflow
// ---------------------------------------------------------------------------

/// The start-workflow job as it travels on the wire.
#[derive(Debug, PartialEq, Eq)]
pub struct WireStartWorkflow {
    pub workflow_type: String,
    pub workflow_id: String,
    pub arguments: Vec<WirePayload>,
    pub randomness_seed: u64,
    pub headers: Vec<(String, WirePayload)>,
}

/// Mathematical model of a wire start-workflow job.
pub struct WireStartWorkflowView {
    pub workflow_type: Seq<char>,
    pub workflow_id: Seq<char>,
    pub arguments: Seq<WirePayloadView>,
    pub randomness_seed: u64,
    pub headers: Seq<(Seq<char>, WirePayloadView)>,
}

impl DeepView for WireStartWorkflow {
    type V = WireStartWorkflowView;

    open spec fn deep_view(&self) -> WireStartWorkflowView {
        WireStartWorkflowView {
            workflow_type: self.workflow_type.deep_view(),
            workflow_id: self.workflow_id.deep_view(),
            arguments: self.arguments.deep_view(),
            randomness_seed: self.randomness_seed,
            headers: self.headers.deep_view(),
        }
    }
}

/// The start-workflow job: begin executing a workflow run from its first
/// task, with its arguments and initial randomness seed.
#[derive(Debug, PartialEq, Eq)]
pub struct StartWorkflow {
    pub workflow_type: String,
    pub workflow_id: String,
    pub arguments: Vec<Payload>,
    pub randomness_seed: u64,
    pub headers: Vec<(String, Payload)>,
}

/// Mathematical model of an in-process start-workflow job.
pub struct StartWorkflowView {
    pub workflow_type: Seq<char>,
    pub workflow_id: Seq<char>,
    pub arguments: Seq<PayloadView>,
    pub randomness_seed: u64,
    pub headers: Seq<(Seq<char>, PayloadView)>,
}

impl DeepView for StartWorkflow {
    type V = StartWorkflowView;

    open spec fn deep_view(&self) -> StartWorkflowView {
        StartWorkflowView {
            workflow_type: self.workflow_type.deep_view(),
            workflow_id: self.workflow_id.deep_view(),
            arguments: self.arguments.deep_view(),
            randomness_seed: self.randomness_seed,
            headers: self.headers.deep_view(),
        }
    }
}

/// What `decode_start_workflow` returns; total.
pub open spec fn spec_decode_start_workflow(w: WireStartWorkflowView) -> StartWorkflowView {
    StartWorkflowView {
        workflow_type: w.workflow_type,
        workflow_id: w.workflow_id,
        arguments: spec_decode_payload_seq(w.arguments),
        randomness_seed: w.randomness_seed,
        headers: spec_decode_header_seq(w.headers),
    }
}

/// What `encode_start_workflow` returns; total.
pub open spec fn spec_encode_start_workflow(s: StartWorkflowView) -> WireStartWorkflowView {
    WireStartWorkflowView {
        workflow_type: s.workflow_type,
        workflow_id: s.workflow_id,
        arguments: spec_encode_payload_seq(s.arguments),
        randomness_seed: s.randomness_seed,
        headers: spec_encode_header_seq(s.headers),
    }
}

/// Decodes a wire start-workflow job; total.
pub fn decode_start_workflow(w: WireStartWorkflow) -> (r: StartWorkflow)
    ensures
        r.deep_view() == spec_decode_start_workflow(w.deep_view()),
{
    StartWorkflow {
        workflow_type: w.workflow_type,
        workflow_id: w.workflow_id,
        arguments: decode_payload_vec(w.arguments),
        randomness_seed: w.randomness_seed,
        headers: decode_header_vec(w.headers),
    }
}

/// Encodes a start-workflow job for the wire; total.
pub fn encode_start_workflow(s: StartWorkflow) -> (r: WireStartWorkflow)
    ensures
        r.deep_view() == spec_encode_start_workflow(s.deep_view()),
{
    WireStartWorkflow {
        workflow_type: s.workflow_type,
        workflow_id: s.workflow_id,
        arguments: encode_payload_vec(s.arguments),
        randomness_seed: s.randomness_seed,
        headers: encode_header_vec(s.headers),
    }
}

/// Round-trip law for start-workflow jobs.
pub proof fn lemma_start_workflow_round_trip(s: StartWorkflowView)
    ensures
        spec_decode_start_workflow(spec_encode_start_workflow(s)) == s,
{
    lemma_payload_seq_round_trip(s.arguments);
    lemma_header_seq_round_trip(s.headers);
}

// ---------------------------------------------------------------------------
// FireTimer
// ---------------------------------------------------------------------------

/// The fire-timer job as it travels on the wire.
#[derive(Debug, PartialEq, Eq)]
pub struct WireFireTimer {
    pub timer_id: String,
}

/// Mathematical model of a wire fire-timer job.
pub struct WireFireTimerView {
    pub timer_id: Seq<char>,
}

impl DeepView for WireFireTimer {
    type V = WireFireTimerView;

    open spec fn deep_view(&self) -> WireFireTimerView {
        WireFireTimerView { timer_id: self.timer_id.deep_view() }
    }
}

/// The fire-timer job: the named timer elapsed.
#[derive(Debug, PartialEq, Eq)]
pub struct FireTimer {
    pub timer_id: String,
}

/// Mathematical model of an in-process fire-timer job.
pub struct FireTimerView {
    pub timer_id: Seq<char>,
}

impl DeepView for FireTimer {
    type V = FireTimerView;

    open spec fn deep_view(&self) -> FireTimerView {
        FireTimerView { timer_id: self.timer_id.deep_view() }
    }
}

/// What `decode_fire_timer` returns; total.
pub open spec fn spec_decode_fire_timer(w: WireFireTimerView) -> FireTimerView {
    FireTimerView { timer_id: w.timer_id }
}

/// What `encode_fire_timer` returns; total.
pub open spec fn spec_encode_fire_timer(t: FireTimerView) -> WireFireTimerView {
    WireFireTimerView { timer_id: t.timer_id }
}

/// Decodes a wire fire-timer job; total.
pub fn decode_fire_timer(w: WireFireTimer) -> (r: FireTimer)
    ensures
        r.deep_view() == spec_decode_fire_timer(w.deep_view()),
{
    FireTimer { timer_id: w.timer_id }
}

/// Encodes a fire-timer job for the wire; total.
pub fn encode_fire_timer(t: FireTimer) -> (r: WireFireTimer)
    ensures
        r.deep_view() == spec_encode_fire_timer(t.deep_view()),
{
    WireFireTimer { timer_id: t.timer_id }
}

// ---------------------------------------------------------------------------
// UpdateRandomSeed
// ---------------------------------------------------------------------------

/// The update-random-seed job as it travels on the wire.
#[derive(Clone, Copy, PartialEq, Eq, Structural, Debug)]
pub struct WireUpdateRandomSeed {
    pub randomness_seed: u64,
}

impl DeepView for WireUpdateRandomSeed {
    type V = WireUpdateRandomSeed;

    open spec fn deep_view(&self) -> WireUpdateRandomSeed {
        *self
    }
}

/// The update-random-seed job: replace the run's randomness seed.
#[derive(Clone, Copy, PartialEq, Eq, Structural, Debug)]
pub struct UpdateRandomSeed {
    pub randomness_seed: u64,
}

impl DeepView for UpdateRandomSeed {
    type V = UpdateRandomSeed;

    open spec fn deep_view(&self) -> UpdateRandomSeed {
        *self
    }
}

/// What `decode_update_random_seed` returns; total.
pub open spec fn spec_decode_update_random_seed(w: WireUpdateRandomSeed) -> UpdateRandomSeed {
    UpdateRandomSeed { randomness_seed: w.randomness_seed }
}

/// What `encode_update_random_seed` returns; total.
pub open spec fn spec_encode_update_random_seed(u: UpdateRandomSeed) -> WireUpdateRandomSeed {
    WireUpdateRandomSeed { randomness_seed: u.randomness_seed }
}

/// Decodes a wire update-random-seed job; total.
pub fn decode_update_random_seed(w: WireUpdateRandomSeed) -> (r: UpdateRandomSeed)
    ensures
        r == spec_decode_update_random_seed(w),
{
    UpdateRandomSeed { randomness_seed: w.randomness_seed }
}

/// Encodes an update-random-seed job for the wire; total.
pub fn encode_update_random_seed(u: UpdateRandomSeed) -> (r: WireUpdateRandomSeed)
    ensures
        r == spec_encode_update_random_seed(u),
{
    WireUpdateRandomSeed { randomness_seed: u.randomness_seed }
}

// ---------------------------------------------------------------------------
// QueryWorkflow
// ---------------------------------------------------------------------------

/// The query-workflow job as it travels on the wire.
#[derive(Debug, PartialEq, Eq)]
pub struct WireQueryWorkflow {
    pub query_id: String,
    pub query_type: String,
    pub arguments: Vec<WirePayload>,
}

/// Mathematical model of a wire query-workflow job.
pub struct WireQueryWorkflowView {
    pub query_id: Seq<char>,
    pub query_type: Seq<char>,
    pub arguments: Seq<WirePayloadView>,
}

impl DeepView for WireQueryWorkflow {
    type V = WireQueryWorkflowView;

    open spec fn deep_view(&self) -> WireQueryWorkflowView {
        WireQueryWorkflowView {
            query_id: self.query_id.deep_view(),
            query_type: self.query_type.deep_view(),
            arguments: self.arguments.deep_view(),
        }
    }
}

/// The query-workflow job: answer the named query against the run's
/// current state.
#[derive(Debug, PartialEq, Eq)]
pub struct QueryWorkflow {
    pub query_id: String,
    pub query_type: String,
    pub arguments: Vec<Payload>,
}

/// Mathematical model of an in-process query-workflow job.
pub struct QueryWorkflowView {
    pub query_id: Seq<char>,
    pub query_type: Seq<char>,
    pub arguments: Seq<PayloadView>,
}

impl DeepView for QueryWorkflow {
    type V = QueryWorkflowView;

    open spec fn deep_view(&self) -> QueryWorkflowView {
        QueryWorkflowView {
            query_id: self.query_id.deep_view(),
            query_type: self.query_type.deep_view(),
            arguments: self.arguments.deep_view(),
        }
    }
}

/// What `decode_query_workflow` returns; total.
pub open spec fn spec_decode_query_workflow(w: WireQueryWorkflowView) -> QueryWorkflowView {
    QueryWorkflowView {
        query_id: w.query_id,
        query_type: w.query_type,
        arguments: spec_decode_payload_seq(w.arguments),
    }
}

/// What `encode_query_workflow` returns; total.
pub open spec fn spec_encode_query_workflow(q: QueryWorkflowView) -> WireQueryWorkflowView {
    WireQueryWorkflowView {
        query_id: q.query_id,
        query_type: q.query_type,
        arguments: spec_encode_payload_seq(q.arguments),
    }
}

/// Decodes a wire query-workflow job; total.
pub fn decode_query_workflow(w: WireQueryWorkflow) -> (r: QueryWorkflow)
    ensures
        r.deep_view() == spec_decode_query_workflow(w.deep_view()),
{
    QueryWorkflow {
        query_id: w.query_id,
        query_type: w.query_type,
        arguments: decode_payload_vec(w.arguments),
    }
}

/// Encodes a query-workflow job for the wire; total.
pub fn encode_query_workflow(q: QueryWorkflow) -> (r: WireQueryWorkflow)
    ensures
        r.deep_view() == spec_encode_query_workflow(q.deep_view()),
{
    WireQueryWorkflow {
        query_id: q.query_id,
        query_type: q.query_type,
        arguments: encode_payload_vec(q.arguments),
    }
}

/// Round-trip law for query-workflow jobs.
pub proof fn lemma_query_workflow_round_trip(q: QueryWorkflowView)
    ensures
        spec_decode_query_workflow(spec_encode_query_workflow(q)) == q,
{
    lemma_payload_seq_round_trip(q.arguments);
}

// ---------------------------------------------------------------------------
// CancelWorkflow
// ---------------------------------------------------------------------------

/// The cancel-workflow job as it travels on the wire.
#[derive(Debug, PartialEq, Eq)]
pub struct WireCancelWorkflow {
    pub details: Vec<WirePayload>,
}

/// Mathematical model of a wire cancel-workflow job.
pub struct WireCancelWorkflowView {
    pub details: Seq<WirePayloadView>,
}

impl DeepView for WireCancelWorkflow {
    type V = WireCancelWorkflowView;

    open spec fn deep_view(&self) -> WireCancelWorkflowView {
        WireCancelWorkflowView { details: self.details.deep_view() }
    }
}

/// The cancel-workflow job: the run was asked to cancel, with optional
/// details.
#[derive(Debug, PartialEq, Eq)]
pub struct CancelWorkflow {
    pub details: Vec<Payload>,
}

/// Mathematical model of an in-process cancel-workflow job.
pub struct CancelWorkflowView {
    pub details: Seq<PayloadView>,
}

impl DeepView for CancelWorkflow {
    type V = CancelWorkflowView;

    open spec fn deep_view(&self) -> CancelWorkflowView {
        CancelWorkflowView { details: self.details.deep_view() }
    }
}

/// What `decode_cancel_workflow` returns; total.
pub open spec fn spec_decode_cancel_workflow(w: WireCancelWorkflowView) -> CancelWorkflowView {
    CancelWorkflowView { details: spec_decode_payload_seq(w.details) }
}

/// What `encode_cancel_workflow` returns; total.
pub open spec fn spec_encode_cancel_workflow(c: CancelWorkflowView) -> WireCancelWorkflowView {
    WireCancelWorkflowView { details: spec_encode_payload_seq(c.details) }
}

/// Decodes a wire cancel-workflow job; total.
pub fn decode_cancel_workflow(w: WireCancelWorkflow) -> (r: CancelWorkflow)
    ensures
        r.deep_view() == spec_decode_cancel_workflow(w.deep_view()),
{
    CancelWorkflow { details: decode_payload_vec(w.details) }
}

/// Encodes a cancel-workflow job for the wire; total.
pub fn encode_cancel_workflow(c: CancelWorkflow) -> (r: WireCancelWorkflow)
    ensures
        r.deep_view() == spec_encode_cancel_workflow(c.deep_view()),
{
    WireCancelWorkflow { details: encode_payload_vec(c.details) }
}

/// Round-trip law for cancel-workflow jobs.
pub proof fn lemma_cancel_workflow_round_trip(c: CancelWorkflowView)
    ensures
        spec_decode_cancel_workflow(spec_encode_cancel_workflow(c)) == c,
{
    lemma_payload_seq_round_trip(c.details);
}

// ---------------------------------------------------------------------------
// SignalWorkflow
// ---------------------------------------------------------------------------

/// The signal-workflow job as it travels on the wire.
#[derive(Debug, PartialEq, Eq)]
pub struct WireSignalWorkflow {
    pub signal_name: String,
    pub input: Vec<WirePayload>,
    pub identity: String,
}

/// Mathematical model of a wire signal-workflow job.
pub struct WireSignalWorkflowView {
    pub signal_name: Seq<char>,
    pub input: Seq<WirePayloadView>,
    pub identity: Seq<char>,
}

impl DeepView for WireSignalWorkflow {
    type V = WireSignalWorkflowView;

    open spec fn deep_view(&self) -> WireSignalWorkflowView {
        WireSignalWorkflowView {
            signal_name: self.signal_name.deep_view(),
            input: self.input.deep_view(),
            identity: self.identity.deep_view(),
        }
    }
}

/// The signal-workflow job: deliver the named signal and its input to the
/// run.
#[derive(Debug, PartialEq, Eq)]
pub struct SignalWorkflow {
    pub signal_name: String,
    pub input: Vec<Payload>,
    pub identity: String,
}

/// Mathematical model of an in-process signal-workflow job.
pub struct SignalWorkflowView {
    pub signal_name: Seq<char>,
    pub input: Seq<PayloadView>,
    pub identity: Seq<char>,
}

impl DeepView for SignalWorkflow {
    type V = SignalWorkflowView;

    open spec fn deep_view(&self) -> SignalWorkflowView {
        SignalWorkflowView {
            signal_name: self.signal_name.deep_view(),
            input: self.input.deep_view(),
            identity: self.identity.deep_view(),
        }
    }
}

/// What `decode_signal_workflow` returns; total.
pub open spec fn spec_decode_signal_workflow(w: WireSignalWorkflowView) -> SignalWorkflowView {
    SignalWorkflowView {
        signal_name: w.signal_name,
        input: spec_decode_payload_seq(w.input),
        identity: w.identity,
    }
}

/// What `encode_signal_workflow` returns; total.
pub open spec fn spec_encode_signal_workflow(s: SignalWorkflowView) -> WireSignalWorkflowView {
    WireSignalWorkflowView {
        signal_name: s.signal_name,
        input: spec_encode_payload_seq(s.input),
        identity: s.identity,
    }
}

/// Decodes a wire signal-workflow job; total.
pub fn decode_signal_workflow(w: WireSignalWorkflow) -> (r: SignalWorkflow)
    ensures
        r.deep_view() == spec_decode_signal_workflow(w.deep_view()),
{
    SignalWorkflow {
        signal_name: w.signal_name,
        input: decode_payload_vec(w.input),
        identity: w.identity,
    }
}

/// Encodes a signal-workflow job for the wire; total.
pub fn encode_signal_workflow(s: SignalWorkflow) -> (r: WireSignalWorkflow)
    ensures
        r.deep_view() == spec_encode_signal_workflow(s.deep_view()),
{
    WireSignalWorkflow {
        signal_name: s.signal_name,
        input: encode_payload_vec(s.input),
        identity: s.identity,
    }
}

/// Round-trip law for signal-workflow jobs.
pub proof fn lemma_signal_workflow_round_trip(s: SignalWorkflowView)
    ensures
        spec_decode_signal_workflow(spec_encode_signal_workflow(s)) == s,
{
    lemma_payload_seq_round_trip(s.input);
}

// ---------------------------------------------------------------------------
// ResolveActivity
// ---------------------------------------------------------------------------

/// The resolve-activity job as it travels on the wire.
#[derive(Debug, PartialEq, Eq)]
pub struct WireResolveActivity {
    pub activity_id: String,
    pub result: Option<WireActivityResult>,
}

/// Mathematical model of a wire resolve-activity job.
pub struct WireResolveActivityView {
    pub activity_id: Seq<char>,
    pub result: Option<WireActivityResultView>,
}

impl DeepView for WireResolveActivity {
    type V = WireResolveActivityView;

    open spec fn deep_view(&self) -> WireResolveActivityView {
        WireResolveActivityView {
            activity_id: self.activity_id.deep_view(),
            result: self.result.deep_view(),
        }
    }
}

/// The resolve-activity job: a previously scheduled activity finished,
/// with its result.
#[derive(Debug, PartialEq, Eq)]
pub struct ResolveActivity {
    pub activity_id: String,
    pub result: Option<ActivityResult>,
}

/// Mathematical model of an in-process resolve-activity job.
pub struct ResolveActivityView {
    pub activity_id: Seq<char>,
    pub result: Option<ActivityResultView>,
}

impl DeepView for ResolveActivity {
    type V = ResolveActivityView;

    open spec fn deep_view(&self) -> ResolveActivityView {
        ResolveActivityView {
            activity_id: self.activity_id.deep_view(),
            result: self.result.deep_view(),
        }
    }
}

/// What `decode_resolve_activity` returns: fails exactly when its result
/// violates the exclusivity invariant.
pub open spec fn spec_decode_resolve_activity(w: WireResolveActivityView) -> Result<
    ResolveActivityView,
    DecodeError,
> {
    match spec_decode_opt_activity_result(w.result) {
        Ok(x) => Ok(ResolveActivityView { activity_id: w.activity_id, result: x }),
        Err(e) => Err(e),
    }
}

/// What `encode_resolve_activity` returns; total.
pub open spec fn spec_encode_resolve_activity(a: ResolveActivityView) -> WireResolveActivityView {
    WireResolveActivityView {
        activity_id: a.activity_id,
        result: spec_encode_opt_activity_result(a.result),
    }
}

/// Decodes a wire resolve-activity job; fails exactly when its result
/// violates the exclusivity invariant.
pub fn decode_resolve_activity(w: WireResolveActivity) -> (r: Result<ResolveActivity, DecodeError>)
    ensures
        match r {
            Ok(a) => spec_decode_resolve_activity(w.deep_view()) == Ok::<
                ResolveActivityView,
                DecodeError,
            >(a.deep_view()),
            Err(e) => spec_decode_resolve_activity(w.deep_view()) == Err::<
                ResolveActivityView,
                DecodeError,
            >(e),
        },
{
    match decode_opt_activity_result(w.result) {
        Ok(x) => Ok(ResolveActivity { activity_id: w.activity_id, result: x }),
        Err(e) => Err(e),
    }
}

/// Encodes a resolve-activity job for the wire; total.
pub fn encode_resolve_activity(a: ResolveActivity) -> (r: WireResolveActivity)
    ensures
        r.deep_view() == spec_encode_resolve_activity(a.deep_view()),
{
    WireResolveActivity {
        activity_id: a.activity_id,
        result: encode_opt_activity_result(a.result),
    }
}

/// Round-trip law for resolve-activity jobs.
pub proof fn lemma_resolve_activity_round_trip(a: ResolveActivityView)
    ensures
        spec_decode_resolve_activity(spec_encode_resolve_activity(a)) == Ok::<
            ResolveActivityView,
            DecodeError,
        >(a),
{
    lemma_opt_activity_result_round_trip(a.result);
}

// ---------------------------------------------------------------------------
// WfActivationJob
// ---------------------------------------------------------------------------

/// An activation job as it travels on the wire: every variant optional,
/// the sender trusted to populate exactly one.  The remove-from-cache job
/// is boolean valued: it carries no structure, only the signal to evict
/// the run's cached state.
#[derive(Debug, PartialEq, Eq)]
pub struct WireWfActivationJob {
    pub start_workflow: Option<WireStartWorkflow>,
    pub fire_timer: Option<WireFireTimer>,
    pub update_random_seed: Option<WireUpdateRandomSeed>,
    pub query_workflow: Option<WireQueryWorkflow>,
    pub cancel_workflow: Option<WireCancelWorkflow>,
    pub signal_workflow: Option<WireSignalWorkflow>,
    pub resolve_activity: Option<WireResolveActivity>,
    pub remove_from_cache: Option<bool>,
}

/// Mathematical model of a wire activation job.
pub struct WireWfActivationJobView {
    pub start_workflow: Option<WireStartWorkflowView>,
    pub fire_timer: Option<WireFireTimerView>,
    pub update_random_seed: Option<WireUpdateRandomSeed>,
    pub query_workflow: Option<WireQueryWorkflowView>,
    pub cancel_workflow: Option<WireCancelWorkflowView>,
    pub signal_workflow: Option<WireSignalWorkflowView>,
    pub resolve_activity: Option<WireResolveActivityView>,
    pub remove_from_cache: Option<bool>,
}

impl DeepView for WireWfActivationJob {
    type V = WireWfActivationJobView;

    open spec fn deep_view(&self) -> WireWfActivationJobView {
        WireWfActivationJobView {
            start_workflow: self.start_workflow.deep_view(),
            fire_timer: self.fire_timer.deep_view(),
            update_random_seed: self.update_random_seed,
            query_workflow: self.query_workflow.deep_view(),
            cancel_workflow: self.cancel_workflow.deep_view(),
            signal_workflow: self.signal_workflow.deep_view(),
            resolve_activity: self.resolve_activity.deep_view(),
            remove_from_cache: self.remove_from_cache,
        }
    }
}

/// An in-process activation job: exactly one variant, by construction.
#[derive(Debug, PartialEq, Eq)]
pub enum WfActivationJob {
    StartWorkflow(StartWorkflow),
    FireTimer(FireTimer),
    UpdateRandomSeed(UpdateRandomSeed),
    QueryWorkflow(QueryWorkflow),
    CancelWorkflow(CancelWorkflow),
    SignalWorkflow(SignalWorkflow),
    ResolveActivity(ResolveActivity),
    RemoveFromCache(bool),
}

/// Mathematical model of an in-process activation job.
pub enum WfActivationJobView {
    StartWorkflow(StartWorkflowView),
    FireTimer(FireTimerView),
    UpdateRandomSeed(UpdateRandomSeed),
    QueryWorkflow(QueryWorkflowView),
    CancelWorkflow(CancelWorkflowView),
    SignalWorkflow(SignalWorkflowView),
    ResolveActivity(ResolveActivityView),
    RemoveFromCache(bool),
}

impl DeepView for WfActivationJob {
    type V = WfActivationJobView;

    open spec fn deep_view(&self) -> WfActivationJobView {
        match self {
            WfActivationJob::StartWorkflow(x) => WfActivationJobView::StartWorkflow(x.deep_view()),
            WfActivationJob::FireTimer(x) => WfActivationJobView::FireTimer(x.deep_view()),
            WfActivationJob::UpdateRandomSeed(x) => WfActivationJobView::UpdateRandomSeed(*x),
            WfActivationJob::QueryWorkflow(x) => WfActivationJobView::QueryWorkflow(x.deep_view()),
            WfActivationJob::CancelWorkflow(x) => WfActivationJobView::CancelWorkflow(
                x.deep_view(),
            ),
            WfActivationJob::SignalWorkflow(x) => WfActivationJobView::SignalWorkflow(
                x.deep_view(),
            ),
            WfActivationJob::ResolveActivity(x) => WfActivationJobView::ResolveActivity(
                x.deep_view(),
            ),
            WfActivationJob::RemoveFromCache(b) => WfActivationJobView::RemoveFromCache(*b),
        }
    }
}

/// How many variant fields of a wire activation job are populated.
pub open spec fn wire_job_variant_count(w: WireWfActivationJobView) -> int {
    (if w.start_workflow is Some {
        1int
    } else {
        0int
    }) + (if w.fire_timer is Some {
        1int
    } else {
        0int
    }) + (if w.update_random_seed is Some {
        1int
    } else {
        0int
    }) + (if w.query_workflow is Some {
        1int
    } else {
        0int
    }) + (if w.cancel_workflow is Some {
        1int
    } else {
        0int
    }) + (if w.signal_workflow is Some {
        1int
    } else {
        0int
    }) + (if w.resolve_activity is Some {
        1int
    } else {
        0int
    }) + (if w.remove_from_cache is Some {
        1int
    } else {
        0int
    })
}

/// What `decode_wf_activation_job` returns: the tagged union when exactly
/// one variant is populated, a protocol violation otherwise.
pub open spec fn spec_decode_wf_activation_job(w: WireWfActivationJobView) -> Result<
    WfActivationJobView,
    DecodeError,
> {
    if wire_job_variant_count(w) == 0 {
        Err(DecodeError::MissingVariant(OneofKind::WfActivationJobVariant))
    } else if wire_job_variant_count(w) >= 2 {
        Err(DecodeError::MultipleVariants(OneofKind::WfActivationJobVariant))
    } else {
        match w.start_workflow {
            Option::Some(x) => Ok(WfActivationJobView::StartWorkflow(spec_decode_start_workflow(x))),
            Option::None => match w.fire_timer {
                Option::Some(x) => Ok(WfActivationJobView::FireTimer(spec_decode_fire_timer(x))),
                Option::None => match w.update_random_seed {
                    Option::Some(x) => Ok(
                        WfActivationJobView::UpdateRandomSeed(spec_decode_update_random_seed(x)),
                    ),
                    Option::None => match w.query_workflow {
                        Option::Some(x) => Ok(
                            WfActivationJobView::QueryWorkflow(spec_decode_query_workflow(x)),
                        ),
                        Option::None => match w.cancel_workflow {
                            Option::Some(x) => Ok(
                                WfActivationJobView::CancelWorkflow(spec_decode_cancel_workflow(x)),
                            ),
                            Option::None => match w.signal_workflow {
                                Option::Some(x) => Ok(
                                    WfActivationJobView::SignalWorkflow(
                                        spec_decode_signal_workflow(x),
                                    ),
                                ),
                                Option::None => match w.resolve_activity {
                                    Option::Some(x) => match spec_decode_resolve_activity(x) {
                                        Ok(a) => Ok(WfActivationJobView::ResolveActivity(a)),
                                        Err(e) => Err(e),
                                    },
                                    Option::None => match w.remove_from_cache {
                                        Option::Some(b) => Ok(
                                            WfActivationJobView::RemoveFromCache(b),
                                        ),
                                        Option::None => Err(
                                            DecodeError::MissingVariant(
                                                OneofKind::WfActivationJobVariant,
                                            ),
                                        ),
                                    },
                                },
                            },
                        },
                    },
                },
            },
        }
    }
}

/// What `encode_wf_activation_job` returns: the wire shape with exactly
/// the one populated variant; total.
pub open spec fn spec_encode_wf_activation_job(j: WfActivationJobView) -> WireWfActivationJobView {
    let empty = WireWfActivationJobView {
        start_workflow: Option::None,
        fire_timer: Option::None,
        update_random_seed: Option::None,
        query_workflow: Option::None,
        cancel_workflow: Option::None,
        signal_workflow: Option::None,
        resolve_activity: Option::None,
        remove_from_cache: Option::None,
    };
    match j {
        WfActivationJobView::StartWorkflow(x) => WireWfActivationJobView {
            start_workflow: Option::Some(spec_encode_start_workflow(x)),
            ..empty
        },
        WfActivationJobView::FireTimer(x) => WireWfActivationJobView {
            fire_timer: Option::Some(spec_encode_fire_timer(x)),
            ..empty
        },
        WfActivationJobView::UpdateRandomSeed(x) => WireWfActivationJobView {
            update_random_seed: Option::Some(spec_encode_update_random_seed(x)),
            ..empty
        },
        WfActivationJobView::QueryWorkflow(x) => WireWfActivationJobView {
            query_workflow: Option::Some(spec_encode_query_workflow(x)),
            ..empty
        },
        WfActivationJobView::CancelWorkflow(x) => WireWfActivationJobView {
            cancel_workflow: Option::Some(spec_encode_cancel_workflow(x)),
            ..empty
        },
        WfActivationJobView::SignalWorkflow(x) => WireWfActivationJobView {
            signal_workflow: Option::Some(spec_encode_signal_workflow(x)),
            ..empty
        },
        WfActivationJobView::ResolveActivity(x) => WireWfActivationJobView {
            resolve_activity: Option::Some(spec_encode_resolve_activity(x)),
            ..empty
        },
        WfActivationJobView::RemoveFromCache(b) => WireWfActivationJobView {
            remove_from_cache: Option::Some(b),
            ..empty
        },
    }
}

/// Decodes a wire activation job into its strict tagged union.  Fails with
/// `MissingVariant` when no variant is populated, `MultipleVariants` when
/// more than one is, and propagates a nested result's exclusivity
/// violation.
pub fn decode_wf_activation_job(w: WireWfActivationJob) -> (r: Result<WfActivationJob, DecodeError>)
    ensures
        match r {
            Ok(j) => spec_decode_wf_activation_job(w.deep_view()) == Ok::<
                WfActivationJobView,
                DecodeError,
            >(j.deep_view()),
            Err(e) => spec_decode_wf_activation_job(w.deep_view()) == Err::<
                WfActivationJobView,
                DecodeError,
            >(e),
        },
{
    let count: u32 = (if w.start_workflow.is_some() {
        1
    } else {
        0
    }) + (if w.fire_timer.is_some() {
        1
    } else {
        0
    }) + (if w.update_random_seed.is_some() {
        1
    } else {
        0
    }) + (if w.query_workflow.is_some() {
        1
    } else {
        0
    }) + (if w.cancel_workflow.is_some() {
        1
    } else {
        0
    }) + (if w.signal_workflow.is_some() {
        1
    } else {
        0
    }) + (if w.resolve_activity.is_some() {
        1
    } else {
        0
    }) + (if w.remove_from_cache.is_some() {
        1
    } else {
        0
    });
    if count == 0 {
        return Err(DecodeError::MissingVariant(OneofKind::WfActivationJobVariant));
    }
    if count >= 2 {
        return Err(DecodeError::MultipleVariants(OneofKind::WfActivationJobVariant));
    }
    match w.start_workflow {
        Option::Some(x) => Ok(WfActivationJob::StartWorkflow(decode_start_workflow(x))),
        Option::None => match w.fire_timer {
            Option::Some(x) => Ok(WfActivationJob::FireTimer(decode_fire_timer(x))),
            Option::None => match w.update_random_seed {
                Option::Some(x) => Ok(
                    WfActivationJob::UpdateRandomSeed(decode_update_random_seed(x)),
                ),
                Option::None => match w.query_workflow {
                    Option::Some(x) => Ok(WfActivationJob::QueryWorkflow(decode_query_workflow(x))),
                    Option::None => match w.cancel_workflow {
                        Option::Some(x) => Ok(
                            WfActivationJob::CancelWorkflow(decode_cancel_workflow(x)),
                        ),
                        Option::None => match w.signal_workflow {
                            Option::Some(x) => Ok(
                                WfActivationJob::SignalWorkflow(decode_signal_workflow(x)),
                            ),
                            Option::None => match w.resolve_activity {
                                Option::Some(x) => match decode_resolve_activity(x) {
                                    Ok(a) => Ok(WfActivationJob::ResolveActivity(a)),
                                    Err(e) => Err(e),
                                },
                                Option::None => match w.remove_from_cache {
                                    Option::Some(b) => Ok(WfActivationJob::RemoveFromCache(b)),
                                    Option::None => Err(
                                        DecodeError::MissingVariant(
                                            OneofKind::WfActivationJobVariant,
                                        ),
                                    ),
                                },
                            },
                        },
                    },
                },
            },
        },
    }
}

/// Encodes an activation job for the wire: exactly one variant field is
/// populated; total.
pub fn encode_wf_activation_job(j: WfActivationJob) -> (r: WireWfActivationJob)
    ensures
        r.deep_view() == spec_encode_wf_activation_job(j.deep_view()),
{
    let mut r = WireWfActivationJob {
        start_workflow: Option::None,
        fire_timer: Option::None,
        update_random_seed: Option::None,
        query_workflow: Option::None,
        cancel_workflow: Option::None,
        signal_workflow: Option::None,
        resolve_activity: Option::None,
        remove_from_cache: Option::None,
    };
    match j {
        WfActivationJob::StartWorkflow(x) => {
            r.start_workflow = Option::Some(encode_start_workflow(x));
        },
        WfActivationJob::FireTimer(x) => {
            r.fire_timer = Option::Some(encode_fire_timer(x));
        },
        WfActivationJob::UpdateRandomSeed(x) => {
            r.update_random_seed = Option::Some(encode_update_random_seed(x));
        },
        WfActivationJob::QueryWorkflow(x) => {
            r.query_workflow = Option::Some(encode_query_workflow(x));
        },
        WfActivationJob::CancelWorkflow(x) => {
            r.cancel_workflow = Option::Some(encode_cancel_workflow(x));
        },
        WfActivationJob::SignalWorkflow(x) => {
            r.signal_workflow = Option::Some(encode_signal_workflow(x));
        },
        WfActivationJob::ResolveActivity(x) => {
            r.resolve_activity = Option::Some(encode_resolve_activity(x));
        },
        WfActivationJob::RemoveFromCache(b) => {
            r.remove_from_cache = Option::Some(b);
        },
    }
    r
}

/// Exclusivity law for activation jobs: zero populated variants are
/// reported as `MissingVariant`, two or more as `MultipleVariants`, and a
/// decode succeeds only when exactly one variant is populated.
pub proof fn lemma_wf_activation_job_exclusivity(w: WireWfActivationJobView)
    ensures
        spec_decode_wf_activation_job(w) == Err::<WfActivationJobView, DecodeError>(
            DecodeError::MissingVariant(OneofKind::WfActivationJobVariant),
        ) <==> wire_job_variant_count(w) == 0,
        spec_decode_wf_activation_job(w) == Err::<WfActivationJobView, DecodeError>(
            DecodeError::MultipleVariants(OneofKind::WfActivationJobVariant),
        ) <==> wire_job_variant_count(w) >= 2,
        spec_decode_wf_activation_job(w) is Ok ==> wire_job_variant_count(w) == 1,
{
}

/// Round-trip law for activation jobs: reading back the wire form of any
/// activation job recovers that job exactly.
pub proof fn lemma_wf_activation_job_round_trip(j: WfActivationJobView)
    ensures
        spec_decode_wf_activation_job(spec_encode_wf_activation_job(j)) == Ok::<
            WfActivationJobView,
            DecodeError,
        >(j),
{
    match j {
        WfActivationJobView::StartWorkflow(x) => {
            lemma_start_workflow_round_trip(x);
        },
        WfActivationJobView::QueryWorkflow(x) => {
            lemma_query_workflow_round_trip(x);
        },
        WfActivationJobView::CancelWorkflow(x) => {
            lemma_cancel_workflow_round_trip(x);
        },
        WfActivationJobView::SignalWorkflow(x) => {
            lemma_signal_workflow_round_trip(x);
        },
        WfActivationJobView::ResolveActivity(x) => {
            lemma_resolve_activity_round_trip(x);
        },
        _ => {
        },
    }
}

// ---------------------------------------------------------------------------
// WfActivation
// ---------------------------------------------------------------------------

/// A workflow activation as it travels on the wire.
#[derive(Debug, PartialEq, Eq)]
pub struct WireWfActivation {
    pub run_id: String,
    pub timestamp: Option<WireTimestamp>,
    pub is_replaying: bool,
    pub jobs: Vec<WireWfActivationJob>,
}

/// Mathematical model of a wire workflow activation.
pub struct WireWfActivationView {
    pub run_id: Seq<char>,
    pub timestamp: Option<WireTimestamp>,
    pub is_replaying: bool,
    pub jobs: Seq<WireWfActivationJobView>,
}

impl DeepView for WireWfActivation {
    type V = WireWfActivationView;

    open spec fn deep_view(&self) -> WireWfActivationView {
        WireWfActivationView {
            run_id: self.run_id.deep_view(),
            timestamp: self.timestamp,
            is_replaying: self.is_replaying,
            jobs: self.jobs.deep_view(),
        }
    }
}

/// An in-process workflow activation: an ordered batch of jobs for one
/// workflow run.  `is_replaying` marks history replay as opposed to live
/// delivery; this layer preserves the flag faithfully and gives it no
/// further interpretation.
#[derive(Debug, PartialEq, Eq)]
pub struct WfActivation {
    pub run_id: String,
    pub timestamp: Option<Instant>,
    pub is_replaying: bool,
    pub jobs: Vec<WfActivationJob>,
}

/// Mathematical model of an in-process workflow activation.
pub struct WfActivationView {
    pub run_id: Seq<char>,
    pub timestamp: Option<Instant>,
    pub is_replaying: bool,
    pub jobs: Seq<WfActivationJobView>,
}

impl DeepView for WfActivation {
    type V = WfActivationView;

    open spec fn deep_view(&self) -> WfActivationView {
        WfActivationView {
            run_id: self.run_id.deep_view(),
            timestamp: self.timestamp,
            is_replaying: self.is_replaying,
            jobs: self.jobs.deep_view(),
        }
    }
}

/// A well-formed activation: its timestamp, if present, lies in the range
/// wire timestamps can express.
pub open spec fn wf_activation_wf(a: WfActivationView) -> bool {
    opt_instant_wf(a.timestamp)
}

/// The element decoder of a job sequence, as a spec-level function value.
pub open spec fn job_decoder() -> spec_fn(WireWfActivationJobView) -> Result<
    WfActivationJobView,
    DecodeError,
> {
    |w: WireWfActivationJobView| spec_decode_wf_activation_job(w)
}

/// What `decode_wf_activation` returns: the activation with every job
/// decoded in delivery order; the first malformed job or an out-of-range
/// timestamp fails the whole decode.
pub open spec fn spec_decode_wf_activation(w: WireWfActivationView) -> Result<
    WfActivationView,
    DecodeError,
> {
    let timestamp = spec_decode_opt_instant(w.timestamp, TimeField::ActivationTimestamp);
    let jobs = spec_decode_seq(job_decoder(), w.jobs);
    if timestamp is Err {
        Err(timestamp->Err_0)
    } else if jobs is Err {
        Err(jobs->Err_0)
    } else {
        Ok(
            WfActivationView {
                run_id: w.run_id,
                timestamp: timestamp->Ok_0,
                is_replaying: w.is_replaying,
                jobs: jobs->Ok_0,
            },
        )
    }
}

/// What `encode_wf_activation` returns: every job encoded in order; total
/// over well-formed activations.
pub open spec fn spec_encode_wf_activation(a: WfActivationView) -> WireWfActivationView {
    WireWfActivationView {
        run_id: a.run_id,
        timestamp: spec_encode_opt_instant(a.timestamp),
        is_replaying: a.is_replaying,
        jobs: a.jobs.map_values(|j: WfActivationJobView| spec_encode_wf_activation_job(j)),
    }
}

/// Decodes the job list of a wire activation, preserving delivery order;
/// fails with the error of the first malformed job.
#[verifier::loop_isolation(false)]
fn decode_job_vec(v: Vec<WireWfActivationJob>) -> (r: Result<Vec<WfActivationJob>, DecodeError>)
    ensures
        match r {
            Ok(jobs) => spec_decode_seq(job_decoder(), v.deep_view()) == Ok::<
                Seq<WfActivationJobView>,
                DecodeError,
            >(jobs.deep_view()),
            Err(e) => spec_decode_seq(job_decoder(), v.deep_view()) == Err::<
                Seq<WfActivationJobView>,
                DecodeError,
            >(e),
        },
{
    let ghost src = v.deep_view();
    proof {
        assert(src =~= v.deep_view());
    }
    let mut rem = reverse_vec(v);
    let mut out: Vec<WfActivationJob> = Vec::new();
    proof {
        assert(forall|j: int|
            0 <= j < rem@.len() ==> (#[trigger] rem@[j]).deep_view() == src[src.len() - 1 - j]);
    }
    while rem.len() > 0
        invariant
            out@.len() + rem@.len() == src.len(),
            forall|j: int|
                0 <= j < rem@.len() ==> (#[trigger] rem@[j]).deep_view() == src[src.len() - 1 - j],
            forall|j: int|
                0 <= j < out@.len() ==> job_decoder()(#[trigger] src[j]) == Ok::<
                    WfActivationJobView,
                    DecodeError,
                >(out@[j].deep_view()),
        decreases rem.len(),
    {
        let ghost i = out@.len() as int;
        let wj = rem.pop().unwrap();
        proof {
            assert(wj.deep_view() == src[i]);
            assert(job_decoder()(src[i]) == spec_decode_wf_activation_job(src[i]));
        }
        match decode_wf_activation_job(wj) {
            Ok(j) => {
                out.push(j);
            },
            Err(e) => {
                proof {
                    lemma_decode_seq_error(job_decoder(), src, i);
                }
                return Err(e);
            },
        }
    }
    proof {
        lemma_decode_seq_done(job_decoder(), src);
        assert(out.deep_view() =~= Seq::new(
            src.len(),
            |k: int| job_decoder()(src[k])->Ok_0,
        ));
    }
    Ok(out)
}

/// Encodes a job list for the wire, preserving order; total.
fn encode_job_vec(v: Vec<WfActivationJob>) -> (r: Vec<WireWfActivationJob>)
    ensures
        r.deep_view() == v.deep_view().map_values(
            |j: WfActivationJobView| spec_encode_wf_activation_job(j),
        ),
{
    let ghost src = v.deep_view();
    let mut rem = v;
    let mut tmp: Vec<WireWfActivationJob> = Vec::new();
    while rem.len() > 0
        invariant
            rem@.len() + tmp@.len() == src.len(),
            forall|j: int|
                0 <= j < rem@.len() ==> (#[trigger] rem@[j]).deep_view() == src[j],
            forall|j: int|
                0 <= j < tmp@.len() ==> (#[trigger] tmp@[j]).deep_view()
                    == spec_encode_wf_activation_job(src[src.len() - 1 - j]),
        decreases rem.len(),
    {
        let j = rem.pop().unwrap();
        let w = encode_wf_activation_job(j);
        tmp.push(w);
    }
    let r = reverse_vec(tmp);
    proof {
        assert(r.deep_view() =~= src.map_values(
            |j: WfActivationJobView| spec_encode_wf_activation_job(j),
        ));
    }
    r
}

/// Decodes a wire workflow activation.  The decoded job sequence preserves
/// the delivered order exactly; the first malformed job, or an
/// out-of-range timestamp, fails the whole decode.  Every decoded
/// activation is well formed.
pub fn decode_wf_activation(w: WireWfActivation) -> (r: Result<WfActivation, DecodeError>)
    ensures
        match r {
            Ok(a) => spec_decode_wf_activation(w.deep_view()) == Ok::<
                WfActivationView,
                DecodeError,
            >(a.deep_view()) && wf_activation_wf(a.deep_view()),
            Err(e) => spec_decode_wf_activation(w.deep_view()) == Err::<
                WfActivationView,
                DecodeError,
            >(e),
        },
{
    let timestamp = match decode_opt_instant(w.timestamp, TimeField::ActivationTimestamp) {
        Ok(t) => t,
        Err(e) => {
            return Err(e);
        },
    };
    let jobs = match decode_job_vec(w.jobs) {
        Ok(jobs) => jobs,
        Err(e) => {
            return Err(e);
        },
    };
    Ok(WfActivation { run_id: w.run_id, timestamp, is_replaying: w.is_replaying, jobs })
}

/// Encodes a well-formed workflow activation for the wire; total.
pub fn encode_wf_activation(a: WfActivation) -> (r: WireWfActivation)
    requires
        wf_activation_wf(a.deep_view()),
    ensures
        r.deep_view() == spec_encode_wf_activation(a.deep_view()),
{
    WireWfActivation {
        run_id: a.run_id,
        timestamp: encode_opt_instant(a.timestamp),
        is_replaying: a.is_replaying,
        jobs: encode_job_vec(a.jobs),
    }
}

/// Ordering law for activations: a successful decode yields exactly one
/// job per delivered wire job, each the decode of the wire job at the same
/// position — the delivery order is preserved exactly.
pub proof fn lemma_wf_activation_preserves_job_order(w: WireWfActivationView, a: WfActivationView)
    requires
        spec_decode_wf_activation(w) == Ok::<WfActivationView, DecodeError>(a),
    ensures
        a.jobs.len() == w.jobs.len(),
        forall|k: int|
            0 <= k < w.jobs.len() ==> spec_decode_wf_activation_job(#[trigger] w.jobs[k]) == Ok::<
                WfActivationJobView,
                DecodeError,
            >(a.jobs[k]),
{
    lemma_decode_seq_pointwise(job_decoder(), w.jobs, a.jobs);
}

/// Round-trip law for workflow activations: reading back the wire form of
/// any well-formed activation recovers that activation exactly, jobs in
/// order.
pub proof fn lemma_wf_activation_round_trip(a: WfActivationView)
    requires
        wf_activation_wf(a),
    ensures
        spec_decode_wf_activation(spec_encode_wf_activation(a)) == Ok::<
            WfActivationView,
            DecodeError,
        >(a),
{
    lemma_opt_instant_round_trip(a.timestamp, TimeField::ActivationTimestamp);
    assert forall|k: int| 0 <= k < a.jobs.len() implies job_decoder()(
        spec_encode_wf_activation_job(#[trigger] a.jobs[k]),
    ) == Ok::<WfActivationJobView, DecodeError>(a.jobs[k]) by {
        lemma_wf_activation_job_round_trip(a.jobs[k]);
    }
    lemma_decode_seq_round_trip(
        job_decoder(),
        |j: WfActivationJobView| spec_encode_wf_activation_job(j),
        a.jobs,
    );
}

} // verus!
