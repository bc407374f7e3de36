//! Worker session: the operative surface a caller drives a worker loop
//! with.
//!
//! The session owns the only mutable state of this layer: the set of
//! registered task queues and the table of outstanding work — workflow
//! runs whose activation awaits completion, and activity task tokens
//! awaiting completion.  The network transport is external: the caller
//! performs each poll against the orchestration service and hands the
//! session the outcome; the session decodes, validates and records it.
//! Completions run the other way: the session checks the token table,
//! retires the entry and produces the wire-shaped completion for the
//! caller to send.
//!
//! A task token is single use: completing it twice, or completing a token
//! never issued by a poll, is refused as an error, never silently ignored.

use vstd::prelude::*;

use crate::activity_result::{
    encode_activity_heartbeat, encode_activity_task_completion, spec_encode_activity_heartbeat,
    spec_encode_activity_task_completion, ActivityHeartbeat, ActivityTaskCompletion,
    ActivityTaskCompletionView, WireActivityHeartbeat, WireActivityTaskCompletion,
    WireActivityTaskCompletionView,
};
use crate::activity_task::{
    activity_task_wf, decode_activity_task, spec_decode_activity_task, ActivityTask,
    ActivityTaskView, WireActivityTask, WireActivityTaskView,
};
use crate::errors::{
    CompleteActivityError, CompleteWfError, PollActivityError, PollWfError,
    WorkerRegistrationError,
};
use crate::time::Duration;
use crate::workflow_activation::{
    decode_wf_activation, spec_decode_wf_activation, wf_activation_wf, WfActivation,
    WfActivationView, WireWfActivation, WireWfActivationView,
};
use crate::workflow_completion::{
    encode_wf_activation_completion, spec_encode_wf_activation_completion, WfActivationCompletion,
    WfActivationCompletionView, WireWfActivationCompletion, WireWfActivationCompletionView,
};

verus! {

// ---------------------------------------------------------------------------
// Keyed tables
// ---------------------------------------------------------------------------

/// Whether an entry list holds the given key.
pub open spec fn has_key<K, V>(s: Seq<(K, V)>, k: K) -> bool {
    exists|i: int| 0 <= i < s.len() && (#[trigger] s[i]).0 == k
}

/// Whether the keys of an entry list are pairwise distinct.
pub open spec fn unique_keys<K, V>(s: Seq<(K, V)>) -> bool {
    forall|i: int, j: int|
        0 <= i < j < s.len() ==> (#[trigger] s[i]).0 != (#[trigger] s[j]).0
}

/// The entry list with the first entry of the given key removed; unchanged
/// when the key is absent.
pub open spec fn remove_key<K, V>(s: Seq<(K, V)>, k: K) -> Seq<(K, V)>
    decreases s.len(),
{
    if s.len() == 0 {
        s
    } else if s[0].0 == k {
        s.drop_first()
    } else {
        seq![s[0]] + remove_key(s.drop_first(), k)
    }
}

/// Removing the first entry of a key whose earlier entries all differ is
/// removal at that index.
pub proof fn lemma_remove_key_at<K, V>(s: Seq<(K, V)>, k: K, i: int)
    requires
        0 <= i < s.len(),
        s[i].0 == k,
        forall|j: int| 0 <= j < i ==> (#[trigger] s[j]).0 != k,
    ensures
        remove_key(s, k) == s.remove(i),
    decreases i,
{
    if i == 0 {
        assert(remove_key(s, k) == s.drop_first());
        assert(s.drop_first() =~= s.remove(0));
    } else {
        assert(forall|j: int|
            0 <= j < s.drop_first().len() ==> (#[trigger] s.drop_first()[j]) == s[j + 1]);
        lemma_remove_key_at(s.drop_first(), k, i - 1);
        assert(seq![s[0]] + s.drop_first().remove(i - 1) =~= s.remove(i));
    }
}

/// Removing a key from a table with pairwise-distinct keys keeps the keys
/// distinct, removes the key entirely, and introduces no key that was not
/// there.
pub proof fn lemma_remove_key_props<K, V>(s: Seq<(K, V)>, k: K)
    requires
        unique_keys(s),
    ensures
        unique_keys(remove_key(s, k)),
        !has_key(remove_key(s, k), k),
        forall|k2: K| has_key(remove_key(s, k), k2) ==> has_key(s, k2),
    decreases s.len(),
{
    if s.len() == 0 {
    } else if s[0].0 == k {
        let t = s.drop_first();
        assert(forall|j: int| 0 <= j < t.len() ==> (#[trigger] t[j]) == s[j + 1]);
        assert(unique_keys(t));
        assert forall|j: int| 0 <= j < t.len() implies (#[trigger] t[j]).0 != k by {
            assert(t[j] == s[j + 1]);
        }
        assert forall|k2: K| has_key(t, k2) implies has_key(s, k2) by {
            let j = choose|j: int| 0 <= j < t.len() && (#[trigger] t[j]).0 == k2;
            assert(s[j + 1].0 == k2);
        }
    } else {
        let t = s.drop_first();
        assert(forall|j: int| 0 <= j < t.len() ==> (#[trigger] t[j]) == s[j + 1]);
        assert(unique_keys(t));
        lemma_remove_key_props(t, k);
        let r = seq![s[0]] + remove_key(t, k);
        assert(remove_key(s, k) == r);
        assert(r[0] == s[0]);
        assert(forall|j: int| 1 <= j < r.len() ==> (#[trigger] r[j]) == remove_key(t, k)[j - 1]);
        assert forall|i: int, j: int| 0 <= i < j < r.len() implies (#[trigger] r[i]).0 != (
        #[trigger] r[j]).0 by {
            if i == 0 {
                assert(has_key(remove_key(t, k), r[j].0)) by {
                    assert(remove_key(t, k)[j - 1] == r[j]);
                }
                assert(has_key(t, r[j].0));
                let m = choose|m: int| 0 <= m < t.len() && (#[trigger] t[m]).0 == r[j].0;
                assert(s[m + 1].0 == r[j].0);
            }
        }
        assert forall|k2: K| has_key(r, k2) implies has_key(s, k2) by {
            let j = choose|j: int| 0 <= j < r.len() && (#[trigger] r[j]).0 == k2;
            if j == 0 {
                assert(s[0].0 == k2);
            } else {
                assert(remove_key(t, k)[j - 1] == r[j]);
                assert(has_key(remove_key(t, k), k2));
                assert(has_key(t, k2));
                let m = choose|m: int| 0 <= m < t.len() && (#[trigger] t[m]).0 == k2;
                assert(s[m + 1].0 == k2);
            }
        }
        assert(!has_key(r, k)) by {
            if has_key(r, k) {
                let j = choose|j: int| 0 <= j < r.len() && (#[trigger] r[j]).0 == k;
                if j == 0 {
                } else {
                    assert(remove_key(t, k)[j - 1] == r[j]);
                    assert(has_key(remove_key(t, k), k));
                }
            }
        }
    }
}

// ---------------------------------------------------------------------------
// WorkerConfig
// ---------------------------------------------------------------------------

/// The tunables of one worker registration, created once at registration
/// and immutable thereafter.  The ratio of non-sticky to sticky polls is a
/// binary32 floating-point number in the interval zero to one; this layer
/// carries its bit pattern opaquely.
#[derive(Debug, PartialEq, Eq)]
pub struct WorkerConfig {
    pub task_queue: String,
    pub max_outstanding_workflow_tasks: usize,
    pub max_outstanding_activities: usize,
    pub max_concurrent_wft_polls: usize,
    pub nonsticky_to_sticky_poll_ratio_bits: u32,
    pub max_concurrent_at_polls: usize,
    pub no_remote_activities: bool,
    pub sticky_queue_schedule_to_start_timeout: Duration,
}

/// Mathematical model of a worker configuration.
pub struct WorkerConfigView {
    pub task_queue: Seq<char>,
    pub max_outstanding_workflow_tasks: usize,
    pub max_outstanding_activities: usize,
    pub max_concurrent_wft_polls: usize,
    pub nonsticky_to_sticky_poll_ratio_bits: u32,
    pub max_concurrent_at_polls: usize,
    pub no_remote_activities: bool,
    pub sticky_queue_schedule_to_start_timeout: Duration,
}

impl DeepView for WorkerConfig {
    type V = WorkerConfigView;

    open spec fn deep_view(&self) -> WorkerConfigView {
        WorkerConfigView {
            task_queue: self.task_queue.deep_view(),
            max_outstanding_workflow_tasks: self.max_outstanding_workflow_tasks,
            max_outstanding_activities: self.max_outstanding_activities,
            max_concurrent_wft_polls: self.max_concurrent_wft_polls,
            nonsticky_to_sticky_poll_ratio_bits: self.nonsticky_to_sticky_poll_ratio_bits,
            max_concurrent_at_polls: self.max_concurrent_at_polls,
            no_remote_activities: self.no_remote_activities,
            sticky_queue_schedule_to_start_timeout: self.sticky_queue_schedule_to_start_timeout,
        }
    }
}

// ---------------------------------------------------------------------------
// Poll outcomes and eviction requests
// ---------------------------------------------------------------------------

/// What one workflow-task poll against the orchestration service came
/// back with.  The caller runs the transport and hands the outcome to the
/// session.
#[derive(Debug, PartialEq, Eq)]
pub enum WorkflowPollOutcome {
    /// The service delivered an activation (still wire shaped).
    Activation(WireWfActivation),
    /// The worker is shutting down; no more activations will come on this
    /// stream.
    ShutDown,
    /// The transport failed or timed out; polling may be retried.
    TransportFault,
}

/// Mathematical model of a workflow poll outcome.
pub enum WorkflowPollOutcomeView {
    Activation(WireWfActivationView),
    ShutDown,
    TransportFault,
}

impl DeepView for WorkflowPollOutcome {
    type V = WorkflowPollOutcomeView;

    open spec fn deep_view(&self) -> WorkflowPollOutcomeView {
        match self {
            WorkflowPollOutcome::Activation(w) => WorkflowPollOutcomeView::Activation(
                w.deep_view(),
            ),
            WorkflowPollOutcome::ShutDown => WorkflowPollOutcomeView::ShutDown,
            WorkflowPollOutcome::TransportFault => WorkflowPollOutcomeView::TransportFault,
        }
    }
}

/// What one activity-task poll against the orchestration service came
/// back with.
#[derive(Debug, PartialEq, Eq)]
pub enum ActivityPollOutcome {
    /// The service delivered a task (still wire shaped).
    Task(WireActivityTask),
    /// The worker is shutting down; no more tasks will come on this
    /// stream.
    ShutDown,
    /// The transport failed or timed out; polling may be retried.
    TransportFault,
}

/// Mathematical model of an activity poll outcome.
pub enum ActivityPollOutcomeView {
    Task(WireActivityTaskView),
    ShutDown,
    TransportFault,
}

impl DeepView for ActivityPollOutcome {
    type V = ActivityPollOutcomeView;

    open spec fn deep_view(&self) -> ActivityPollOutcomeView {
        match self {
            ActivityPollOutcome::Task(w) => ActivityPollOutcomeView::Task(w.deep_view()),
            ActivityPollOutcome::ShutDown => ActivityPollOutcomeView::ShutDown,
            ActivityPollOutcome::TransportFault => ActivityPollOutcomeView::TransportFault,
        }
    }
}

/// An advisory request that the execution engine discard its cached state
/// for a run, typically to bound memory.  Non-blocking and best effort.
#[derive(Debug, PartialEq, Eq)]
pub struct EvictionRequest {
    pub run_id: String,
}

/// Mathematical model of an eviction request.
pub struct EvictionRequestView {
    pub run_id: Seq<char>,
}

impl DeepView for EvictionRequest {
    type V = EvictionRequestView;

    open spec fn deep_view(&self) -> EvictionRequestView {
        EvictionRequestView { run_id: self.run_id.deep_view() }
    }
}

// ---------------------------------------------------------------------------
// WorkerSession
// ---------------------------------------------------------------------------

/// A worker session: the registered task queues and the table of
/// outstanding work.  Each outstanding workflow run and each outstanding
/// activity task token is recorded with the task queue it was polled
/// from; an entry is retired by the completion that answers it.
#[derive(Debug, PartialEq, Eq)]
pub struct WorkerSession {
    pub registered: Vec<WorkerConfig>,
    pub workflow_runs: Vec<(String, String)>,
    pub activity_tokens: Vec<(Vec<u8>, String)>,
}

/// Mathematical model of a worker session.
pub struct WorkerSessionView {
    pub registered: Seq<WorkerConfigView>,
    pub workflow_runs: Seq<(Seq<char>, Seq<char>)>,
    pub activity_tokens: Seq<(Seq<u8>, Seq<char>)>,
}

impl DeepView for WorkerSession {
    type V = WorkerSessionView;

    open spec fn deep_view(&self) -> WorkerSessionView {
        WorkerSessionView {
            registered: self.registered.deep_view(),
            workflow_runs: self.workflow_runs.deep_view(),
            activity_tokens: self.activity_tokens.deep_view(),
        }
    }
}

/// Whether a worker is registered for the given task queue.
pub open spec fn has_queue(s: WorkerSessionView, q: Seq<char>) -> bool {
    exists|i: int| 0 <= i < s.registered.len() && (#[trigger] s.registered[i]).task_queue == q
}

/// Whether a workflow task for the given run is outstanding.
pub open spec fn run_outstanding(s: WorkerSessionView, run_id: Seq<char>) -> bool {
    has_key(s.workflow_runs, run_id)
}

/// Whether the given activity task token is outstanding.
pub open spec fn token_outstanding(s: WorkerSessionView, token: Seq<u8>) -> bool {
    has_key(s.activity_tokens, token)
}

/// A well-formed session: registered queues are pairwise distinct, and so
/// are the outstanding runs and the outstanding task tokens.  Every
/// session operation preserves this.
pub open spec fn session_wf(s: WorkerSessionView) -> bool {
    &&& forall|i: int, j: int|
        0 <= i < j < s.registered.len() ==> (#[trigger] s.registered[i]).task_queue != (
        #[trigger] s.registered[j]).task_queue
    &&& unique_keys(s.workflow_runs)
    &&& unique_keys(s.activity_tokens)
}

/// What `register` does: refuse a task queue that is already registered
/// (registration is not idempotent), record the configuration otherwise.
pub open spec fn spec_register(s: WorkerSessionView, c: WorkerConfigView) -> (
    WorkerSessionView,
    Result<(), WorkerRegistrationError>,
) {
    if has_queue(s, c.task_queue) {
        (s, Err(WorkerRegistrationError::AlreadyRegisteredForQueue))
    } else {
        (
            WorkerSessionView { registered: s.registered.push(c), ..s },
            Ok(()),
        )
    }
}

/// What a workflow run's table entry becomes after a poll delivers an
/// activation for it: recorded once, keyed by run.
pub open spec fn spec_record_run(s: WorkerSessionView, run_id: Seq<char>, q: Seq<char>)
    -> WorkerSessionView {
    if has_key(s.workflow_runs, run_id) {
        s
    } else {
        WorkerSessionView { workflow_runs: s.workflow_runs.push((run_id, q)), ..s }
    }
}

/// What `poll_workflow_task` does: pass a shutdown or transport fault
/// through as its error; decode a delivered activation, refusing a
/// malformed one; record the run as outstanding and hand the activation
/// out.
pub open spec fn spec_poll_workflow_task(
    s: WorkerSessionView,
    q: Seq<char>,
    o: WorkflowPollOutcomeView,
) -> (WorkerSessionView, Result<WfActivationView, PollWfError>) {
    match o {
        WorkflowPollOutcomeView::ShutDown => (s, Err(PollWfError::ShutDown)),
        WorkflowPollOutcomeView::TransportFault => (s, Err(PollWfError::Transport)),
        WorkflowPollOutcomeView::Activation(w) => match spec_decode_wf_activation(w) {
            Err(e) => (s, Err(PollWfError::Malformed(e))),
            Ok(a) => (spec_record_run(s, a.run_id, q), Ok(a)),
        },
    }
}

/// What an activity token's table entry becomes after a poll delivers a
/// task: recorded once, keyed by token.
pub open spec fn spec_record_token(s: WorkerSessionView, token: Seq<u8>, q: Seq<char>)
    -> WorkerSessionView {
    if has_key(s.activity_tokens, token) {
        s
    } else {
        WorkerSessionView { activity_tokens: s.activity_tokens.push((token, q)), ..s }
    }
}

/// What `poll_activity_task` does: pass a shutdown or transport fault
/// through as its error; decode a delivered task, refusing a malformed
/// one; record the token as outstanding and hand the task out.
pub open spec fn spec_poll_activity_task(
    s: WorkerSessionView,
    q: Seq<char>,
    o: ActivityPollOutcomeView,
) -> (WorkerSessionView, Result<ActivityTaskView, PollActivityError>) {
    match o {
        ActivityPollOutcomeView::ShutDown => (s, Err(PollActivityError::ShutDown)),
        ActivityPollOutcomeView::TransportFault => (s, Err(PollActivityError::Transport)),
        ActivityPollOutcomeView::Task(w) => match spec_decode_activity_task(w) {
            Err(e) => (s, Err(PollActivityError::Malformed(e))),
            Ok(t) => (spec_record_token(s, t.task_token, q), Ok(t)),
        },
    }
}

/// What `complete_workflow_task` does: refuse a run that is not
/// outstanding; otherwise retire the run's entry and produce the
/// wire-shaped completion to send.
pub open spec fn spec_complete_workflow_task(s: WorkerSessionView, c: WfActivationCompletionView)
    -> (WorkerSessionView, Result<WireWfActivationCompletionView, CompleteWfError>) {
    if has_key(s.workflow_runs, c.run_id) {
        (
            WorkerSessionView { workflow_runs: remove_key(s.workflow_runs, c.run_id), ..s },
            Ok(spec_encode_wf_activation_completion(c)),
        )
    } else {
        (s, Err(CompleteWfError::UnknownRunId))
    }
}

/// What `complete_activity_task` does: refuse a token that is not
/// outstanding; otherwise retire the token's entry and produce the
/// wire-shaped completion to send.
pub open spec fn spec_complete_activity_task(s: WorkerSessionView, c: ActivityTaskCompletionView)
    -> (WorkerSessionView, Result<WireActivityTaskCompletionView, CompleteActivityError>) {
    if has_key(s.activity_tokens, c.task_token) {
        (
            WorkerSessionView { activity_tokens: remove_key(s.activity_tokens, c.task_token), ..s },
            Ok(spec_encode_activity_task_completion(c)),
        )
    } else {
        (s, Err(CompleteActivityError::UnknownTaskToken))
    }
}

/// Copies a byte string; the copy's contents equal the original's.
#[verifier::loop_isolation(false)]
fn clone_bytes(v: &Vec<u8>) -> (r: Vec<u8>)
    ensures
        r.deep_view() == v.deep_view(),
{
    let mut r: Vec<u8> = Vec::new();
    let mut i: usize = 0;
    while i < v.len()
        invariant
            i <= v@.len(),
            r@ =~= v@.take(i as int),
        decreases v@.len() - i,
    {
        r.push(v[i]);
        i = i + 1;
        proof {
            assert(r@ =~= v@.take(i as int));
        }
    }
    proof {
        assert(r@ =~= v@);
        assert(r.deep_view() =~= v.deep_view());
    }
    r
}

/// Compares two byte strings by contents.
#[verifier::loop_isolation(false)]
fn bytes_eq(a: &Vec<u8>, b: &Vec<u8>) -> (r: bool)
    ensures
        r == (a.deep_view() =~= b.deep_view()),
{
    if a.len() != b.len() {
        proof {
            assert(a.deep_view().len() != b.deep_view().len());
        }
        return false;
    }
    let mut i: usize = 0;
    while i < a.len()
        invariant
            i <= a@.len(),
            a@.len() == b@.len(),
            forall|k: int| 0 <= k < i ==> a@[k] == b@[k],
        decreases a@.len() - i,
    {
        if a[i] != b[i] {
            proof {
                assert(a.deep_view()[i as int] != b.deep_view()[i as int]);
            }
            return false;
        }
        i = i + 1;
    }
    proof {
        assert forall|k: int| 0 <= k < a@.len() implies a.deep_view()[k] == b.deep_view()[k] by {
            assert(a@[k] == b@[k]);
        }
        assert(a.deep_view() =~= b.deep_view());
    }
    true
}

impl WorkerSession {
    /// A fresh session: nothing registered, nothing outstanding.
    pub fn new() -> (s: WorkerSession)
        ensures
            s.deep_view().registered == Seq::<WorkerConfigView>::empty(),
            s.deep_view().workflow_runs == Seq::<(Seq<char>, Seq<char>)>::empty(),
            s.deep_view().activity_tokens == Seq::<(Seq<u8>, Seq<char>)>::empty(),
            session_wf(s.deep_view()),
    {
        let s = WorkerSession {
            registered: Vec::new(),
            workflow_runs: Vec::new(),
            activity_tokens: Vec::new(),
        };
        proof {
            assert(s.deep_view().registered =~= Seq::<WorkerConfigView>::empty());
            assert(s.deep_view().workflow_runs =~= Seq::<(Seq<char>, Seq<char>)>::empty());
            assert(s.deep_view().activity_tokens =~= Seq::<(Seq<u8>, Seq<char>)>::empty());
        }
        s
    }

    /// Registers a worker for a task queue.  Registration is not
    /// idempotent: a second registration for the same queue is refused
    /// with `AlreadyRegisteredForQueue` and leaves the session unchanged.
    #[verifier::loop_isolation(false)]
    pub fn register(&mut self, config: WorkerConfig) -> (r: Result<(), WorkerRegistrationError>)
        requires
            session_wf(old(self).deep_view()),
        ensures
            ({
                let step = spec_register(old(self).deep_view(), config.deep_view());
                &&& final(self).deep_view() == step.0
                &&& r == step.1
            }),
            session_wf(final(self).deep_view()),
    {
        let ghost s0 = self.deep_view();
        let mut i: usize = 0;
        while i < self.registered.len()
            invariant
                *self == *old(self),
                i <= self.registered@.len(),
                forall|k: int|
                    0 <= k < i ==> (#[trigger] self.deep_view().registered[k]).task_queue
                        != config.deep_view().task_queue,
            decreases self.registered@.len() - i,
        {
            if self.registered[i].task_queue == config.task_queue {
                proof {
                    assert(self.deep_view().registered[i as int] == self.registered@[
                        i as int].deep_view());
                    assert(has_queue(self.deep_view(), config.deep_view().task_queue));
                }
                return Err(WorkerRegistrationError::AlreadyRegisteredForQueue);
            }
            i = i + 1;
        }
        proof {
            assert(!has_queue(self.deep_view(), config.deep_view().task_queue));
        }
        let ghost cv = config.deep_view();
        self.registered.push(config);
        proof {
            assert(self.deep_view().registered =~= s0.registered.push(cv));
            assert(self.deep_view().workflow_runs =~= s0.workflow_runs);
            assert(self.deep_view().activity_tokens =~= s0.activity_tokens);
            assert(self.deep_view() == spec_register(s0, cv).0);
        }
        Ok(())
    }

    /// Whether a workflow task for this run is outstanding.
    #[verifier::loop_isolation(false)]
    pub fn is_run_outstanding(&self, run_id: &String) -> (r: bool)
        ensures
            r == run_outstanding(self.deep_view(), run_id.deep_view()),
    {
        let mut i: usize = 0;
        while i < self.workflow_runs.len()
            invariant
                i <= self.workflow_runs@.len(),
                forall|k: int|
                    0 <= k < i ==> (#[trigger] self.deep_view().workflow_runs[k]).0
                        != run_id.deep_view(),
            decreases self.workflow_runs@.len() - i,
        {
            if self.workflow_runs[i].0 == *run_id {
                proof {
                    assert(self.deep_view().workflow_runs[i as int] == self.workflow_runs@[
                        i as int].deep_view());
                    assert((self.deep_view().workflow_runs[i as int]).0 == run_id.deep_view());
                }
                return true;
            }
            i = i + 1;
        }
        false
    }

    /// Whether this activity task token is outstanding.
    #[verifier::loop_isolation(false)]
    pub fn is_token_outstanding(&self, token: &Vec<u8>) -> (r: bool)
        ensures
            r == token_outstanding(self.deep_view(), token.deep_view()),
    {
        let mut i: usize = 0;
        while i < self.activity_tokens.len()
            invariant
                i <= self.activity_tokens@.len(),
                forall|k: int|
                    0 <= k < i ==> (#[trigger] self.deep_view().activity_tokens[k]).0
                        != token.deep_view(),
            decreases self.activity_tokens@.len() - i,
        {
            if bytes_eq(&self.activity_tokens[i].0, token) {
                proof {
                    assert(self.deep_view().activity_tokens[i as int] == self.activity_tokens@[
                        i as int].deep_view());
                    assert((self.deep_view().activity_tokens[i as int]).0 == token.deep_view());
                }
                return true;
            }
            i = i + 1;
        }
        false
    }

    /// Digests the outcome of one workflow-task poll on the given task
    /// queue.  A shutdown or transport fault becomes the matching error; a
    /// delivered activation is decoded (a malformed one is refused with
    /// the decode error), its run is recorded as outstanding, and the
    /// activation is handed out for the execution engine.
    pub fn poll_workflow_task(&mut self, task_queue: String, outcome: WorkflowPollOutcome) -> (r:
        Result<WfActivation, PollWfError>)
        requires
            session_wf(old(self).deep_view()),
        ensures
            ({
                let step = spec_poll_workflow_task(
                    old(self).deep_view(),
                    task_queue.deep_view(),
                    outcome.deep_view(),
                );
                &&& final(self).deep_view() == step.0
                &&& (match r {
                    Ok(a) => step.1 == Ok::<WfActivationView, PollWfError>(a.deep_view())
                        && wf_activation_wf(a.deep_view()),
                    Err(e) => step.1 == Err::<WfActivationView, PollWfError>(e),
                })
            }),
            session_wf(final(self).deep_view()),
    {
        let ghost s0 = self.deep_view();
        match outcome {
            WorkflowPollOutcome::ShutDown => Err(PollWfError::ShutDown),
            WorkflowPollOutcome::TransportFault => Err(PollWfError::Transport),
            WorkflowPollOutcome::Activation(w) => match decode_wf_activation(w) {
                Err(e) => Err(PollWfError::Malformed(e)),
                Ok(a) => {
                    if !self.is_run_outstanding(&a.run_id) {
                        let run_copy = a.run_id.clone();
                        let ghost entry = (a.run_id.deep_view(), task_queue.deep_view());
                        self.workflow_runs.push((run_copy, task_queue));
                        proof {
                            assert(self.deep_view().workflow_runs =~= s0.workflow_runs.push(
                                entry,
                            ));
                            assert(self.deep_view().registered =~= s0.registered);
                            assert(self.deep_view().activity_tokens =~= s0.activity_tokens);
                            assert forall|i: int, j: int|
                                0 <= i < j < self.deep_view().workflow_runs.len() implies (
                            #[trigger] self.deep_view().workflow_runs[i]).0 != (
                            #[trigger] self.deep_view().workflow_runs[j]).0 by {
                                if j == self.deep_view().workflow_runs.len() - 1 {
                                    assert(!has_key(s0.workflow_runs, entry.0));
                                    assert(s0.workflow_runs[i] == self.deep_view().workflow_runs[i]);
                                }
                            }
                        }
                    }
                    Ok(a)
                },
            },
        }
    }

    /// Digests the outcome of one activity-task poll on the given task
    /// queue.  A shutdown or transport fault becomes the matching error; a
    /// delivered task is decoded (a malformed one is refused with the
    /// decode error), its token is recorded as outstanding, and the task
    /// is handed out for execution.
    pub fn poll_activity_task(&mut self, task_queue: String, outcome: ActivityPollOutcome) -> (r:
        Result<ActivityTask, PollActivityError>)
        requires
            session_wf(old(self).deep_view()),
        ensures
            ({
                let step = spec_poll_activity_task(
                    old(self).deep_view(),
                    task_queue.deep_view(),
                    outcome.deep_view(),
                );
                &&& final(self).deep_view() == step.0
                &&& (match r {
                    Ok(t) => step.1 == Ok::<ActivityTaskView, PollActivityError>(t.deep_view())
                        && activity_task_wf(t.deep_view()),
                    Err(e) => step.1 == Err::<ActivityTaskView, PollActivityError>(e),
                })
            }),
            session_wf(final(self).deep_view()),
    {
        let ghost s0 = self.deep_view();
        match outcome {
            ActivityPollOutcome::ShutDown => Err(PollActivityError::ShutDown),
            ActivityPollOutcome::TransportFault => Err(PollActivityError::Transport),
            ActivityPollOutcome::Task(w) => match decode_activity_task(w) {
                Err(e) => Err(PollActivityError::Malformed(e)),
                Ok(t) => {
                    if !self.is_token_outstanding(&t.task_token) {
                        let token_copy = clone_bytes(&t.task_token);
                        let ghost entry = (t.task_token.deep_view(), task_queue.deep_view());
                        self.activity_tokens.push((token_copy, task_queue));
                        proof {
                            assert(self.deep_view().activity_tokens =~= s0.activity_tokens.push(
                                entry,
                            ));
                            assert(self.deep_view().registered =~= s0.registered);
                            assert(self.deep_view().workflow_runs =~= s0.workflow_runs);
                            assert forall|i: int, j: int|
                                0 <= i < j < self.deep_view().activity_tokens.len() implies (
                            #[trigger] self.deep_view().activity_tokens[i]).0 != (
                            #[trigger] self.deep_view().activity_tokens[j]).0 by {
                                if j == self.deep_view().activity_tokens.len() - 1 {
                                    assert(!has_key(s0.activity_tokens, entry.0));
                                    assert(s0.activity_tokens[i] == self.deep_view(
                                    ).activity_tokens[i]);
                                }
                            }
                        }
                    }
                    Ok(t)
                },
            },
        }
    }

    /// Retires the outstanding workflow task for the completion's run and
    /// produces the wire-shaped completion to send.  A run that is not
    /// outstanding — never polled, or already completed — is refused with
    /// `UnknownRunId`: workflow tasks are single use.
    #[verifier::loop_isolation(false)]
    pub fn complete_workflow_task(&mut self, completion: WfActivationCompletion) -> (r: Result<
        WireWfActivationCompletion,
        CompleteWfError,
    >)
        requires
            session_wf(old(self).deep_view()),
        ensures
            ({
                let step = spec_complete_workflow_task(
                    old(self).deep_view(),
                    completion.deep_view(),
                );
                &&& final(self).deep_view() == step.0
                &&& (match r {
                    Ok(w) => step.1 == Ok::<WireWfActivationCompletionView, CompleteWfError>(
                        w.deep_view(),
                    ),
                    Err(e) => step.1 == Err::<WireWfActivationCompletionView, CompleteWfError>(e),
                })
            }),
            session_wf(final(self).deep_view()),
    {
        let ghost s0 = self.deep_view();
        let ghost run = completion.deep_view().run_id;
        let mut i: usize = 0;
        while i < self.workflow_runs.len()
            invariant
                *self == *old(self),
                i <= self.workflow_runs@.len(),
                forall|k: int|
                    0 <= k < i ==> (#[trigger] self.deep_view().workflow_runs[k]).0
                        != completion.deep_view().run_id,
            decreases self.workflow_runs@.len() - i,
        {
            if self.workflow_runs[i].0 == completion.run_id {
                proof {
                    assert(s0.workflow_runs[i as int] == self.workflow_runs@[i as int].deep_view());
                    assert((s0.workflow_runs[i as int]).0 == run);
                    lemma_remove_key_at(s0.workflow_runs, run, i as int);
                    lemma_remove_key_props(s0.workflow_runs, run);
                }
                self.workflow_runs.remove(i);
                proof {
                    assert(self.deep_view().workflow_runs =~= s0.workflow_runs.remove(i as int));
                    assert(self.deep_view().registered =~= s0.registered);
                    assert(self.deep_view().activity_tokens =~= s0.activity_tokens);
                    assert(self.deep_view() == spec_complete_workflow_task(
                        s0,
                        completion.deep_view(),
                    ).0);
                }
                return Ok(encode_wf_activation_completion(completion));
            }
            i = i + 1;
        }
        proof {
            assert(!has_key(s0.workflow_runs, run));
        }
        Err(CompleteWfError::UnknownRunId)
    }

    /// Retires the outstanding activity task for the completion's token
    /// and produces the wire-shaped completion to send.  A token that is
    /// not outstanding — never issued by a poll, or already completed — is
    /// refused with `UnknownTaskToken`: task tokens are single use.
    #[verifier::loop_isolation(false)]
    pub fn complete_activity_task(&mut self, completion: ActivityTaskCompletion) -> (r: Result<
        WireActivityTaskCompletion,
        CompleteActivityError,
    >)
        requires
            session_wf(old(self).deep_view()),
        ensures
            ({
                let step = spec_complete_activity_task(
                    old(self).deep_view(),
                    completion.deep_view(),
                );
                &&& final(self).deep_view() == step.0
                &&& (match r {
                    Ok(w) => step.1 == Ok::<WireActivityTaskCompletionView, CompleteActivityError>(
                        w.deep_view(),
                    ),
                    Err(e) => step.1 == Err::<
                        WireActivityTaskCompletionView,
                        CompleteActivityError,
                    >(e),
                })
            }),
            session_wf(final(self).deep_view()),
    {
        let ghost s0 = self.deep_view();
        let ghost token = completion.deep_view().task_token;
        let mut i: usize = 0;
        while i < self.activity_tokens.len()
            invariant
                *self == *old(self),
                i <= self.activity_tokens@.len(),
                forall|k: int|
                    0 <= k < i ==> (#[trigger] self.deep_view().activity_tokens[k]).0
                        != completion.deep_view().task_token,
            decreases self.activity_tokens@.len() - i,
        {
            if bytes_eq(&self.activity_tokens[i].0, &completion.task_token) {
                proof {
                    assert(s0.activity_tokens[i as int] == self.activity_tokens@[
                        i as int].deep_view());
                    assert((s0.activity_tokens[i as int]).0 == token);
                    lemma_remove_key_at(s0.activity_tokens, token, i as int);
                    lemma_remove_key_props(s0.activity_tokens, token);
                }
                self.activity_tokens.remove(i);
                proof {
                    assert(self.deep_view().activity_tokens =~= s0.activity_tokens.remove(
                        i as int,
                    ));
                    assert(self.deep_view().registered =~= s0.registered);
                    assert(self.deep_view().workflow_runs =~= s0.workflow_runs);
                    assert(self.deep_view() == spec_complete_activity_task(
                        s0,
                        completion.deep_view(),
                    ).0);
                }
                return Ok(encode_activity_task_completion(completion));
            }
            i = i + 1;
        }
        proof {
            assert(!has_key(s0.activity_tokens, token));
        }
        Err(CompleteActivityError::UnknownTaskToken)
    }

    /// Produces the wire form of an activity heartbeat for the caller to
    /// send.  Fire and forget: heartbeats are loss tolerant, the session
    /// state is untouched, no token check is made and no failure is
    /// surfaced here.
    pub fn record_activity_heartbeat(&self, heartbeat: ActivityHeartbeat) -> (r:
        WireActivityHeartbeat)
        ensures
            r.deep_view() == spec_encode_activity_heartbeat(heartbeat.deep_view()),
    {
        encode_activity_heartbeat(heartbeat)
    }

    /// Produces an advisory eviction request for the execution engine:
    /// discard cached state for the run.  Non-blocking and best effort;
    /// the session state is untouched.
    pub fn request_workflow_eviction(&self, run_id: String) -> (r: EvictionRequest)
        ensures
            r.deep_view().run_id == run_id.deep_view(),
    {
        EvictionRequest { run_id }
    }
}

// ---------------------------------------------------------------------------
// Token lifecycle laws
// ---------------------------------------------------------------------------

/// Task tokens are single use: after a successful activity completion,
/// completing the same token again — with any completion — is refused as
/// `UnknownTaskToken`.
pub proof fn lemma_activity_token_single_use(
    s: WorkerSessionView,
    c1: ActivityTaskCompletionView,
    c2: ActivityTaskCompletionView,
)
    requires
        session_wf(s),
        spec_complete_activity_task(s, c1).1 is Ok,
        c2.task_token == c1.task_token,
    ensures
        spec_complete_activity_task(spec_complete_activity_task(s, c1).0, c2).1 == Err::<
            WireActivityTaskCompletionView,
            CompleteActivityError,
        >(CompleteActivityError::UnknownTaskToken),
{
    lemma_remove_key_props(s.activity_tokens, c1.task_token);
}

/// Completing an activity task token that no poll issued is refused as
/// `UnknownTaskToken`, and the session is unchanged.
pub proof fn lemma_unknown_activity_token_refused(
    s: WorkerSessionView,
    c: ActivityTaskCompletionView,
)
    requires
        !token_outstanding(s, c.task_token),
    ensures
        spec_complete_activity_task(s, c) == (
            s,
            Err::<WireActivityTaskCompletionView, CompleteActivityError>(
                CompleteActivityError::UnknownTaskToken,
            ),
        ),
{
}

/// Workflow tasks are single use per run: after a successful workflow
/// completion, completing the same run again is refused as
/// `UnknownRunId`.
pub proof fn lemma_workflow_run_single_use(
    s: WorkerSessionView,
    c1: WfActivationCompletionView,
    c2: WfActivationCompletionView,
)
    requires
        session_wf(s),
        spec_complete_workflow_task(s, c1).1 is Ok,
        c2.run_id == c1.run_id,
    ensures
        spec_complete_workflow_task(spec_complete_workflow_task(s, c1).0, c2).1 == Err::<
            WireWfActivationCompletionView,
            CompleteWfError,
        >(CompleteWfError::UnknownRunId),
{
    lemma_remove_key_props(s.workflow_runs, c1.run_id);
}

/// Completing a workflow run that no poll delivered is refused as
/// `UnknownRunId`, and the session is unchanged.
pub proof fn lemma_unknown_workflow_run_refused(s: WorkerSessionView, c: WfActivationCompletionView)
    requires
        !run_outstanding(s, c.run_id),
    ensures
        spec_complete_workflow_task(s, c) == (
            s,
            Err::<WireWfActivationCompletionView, CompleteWfError>(CompleteWfError::UnknownRunId),
        ),
{
}

} // verus!
