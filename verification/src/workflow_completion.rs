//! Workflow activation completion protocol types.
//!
//! A worker answers one activation with a completion: the run it belongs
//! to and exactly one status — successful, carrying the ordered command
//! list the workflow produced, or failed, carrying a failure chain.  On
//! the wire the two statuses are independent optional fields; decoding
//! validates the exclusivity invariant.

use vstd::prelude::*;

use crate::codec::{
    decode_opt_failure, encode_opt_failure, lemma_decode_seq_done, lemma_decode_seq_error,
    lemma_decode_seq_pointwise, lemma_decode_seq_round_trip, lemma_opt_failure_round_trip,
    reverse_vec, spec_decode_opt_failure, spec_decode_seq, spec_encode_opt_failure,
};
use crate::common::{UserCodeFailure, UserCodeFailureView, WireUserCodeFailure,
    WireUserCodeFailureView};
use crate::errors::{DecodeError, OneofKind};
use crate::workflow_commands::{
    decode_workflow_command, encode_workflow_command, lemma_workflow_command_error_kinds,
    lemma_workflow_command_round_trip, spec_decode_workflow_command,
    spec_encode_workflow_command, WireWorkflowCommand, WireWorkflowCommandView, WorkflowCommand,
    WorkflowCommandView,
};

verus! {

// ---------------------------------------------------------------------------
// Success and Failure statuses
// ---------------------------------------------------------------------------

/// The successful status as it travels on the wire: the ordered command
/// list the workflow produced for the activation.
#[derive(Debug, PartialEq, Eq)]
pub struct WireSuccess {
    pub commands: Vec<WireWorkflowCommand>,
}

/// Mathematical model of a wire successful status.
pub struct WireSuccessView {
    pub commands: Seq<WireWorkflowCommandView>,
}

impl DeepView for WireSuccess {
    type V = WireSuccessView;

    open spec fn deep_view(&self) -> WireSuccessView {
        WireSuccessView { commands: self.commands.deep_view() }
    }
}

/// The successful status: the workflow's decisions for one activation, in
/// order.
#[derive(Debug, PartialEq, Eq)]
pub struct Success {
    pub commands: Vec<WorkflowCommand>,
}

/// Mathematical model of a successful status.
pub struct SuccessView {
    pub commands: Seq<WorkflowCommandView>,
}

impl DeepView for Success {
    type V = SuccessView;

    open spec fn deep_view(&self) -> SuccessView {
        SuccessView { commands: self.commands.deep_view() }
    }
}

/// The failed status as it travels on the wire.
#[derive(Debug, PartialEq, Eq)]
pub struct WireFailure {
    pub failure: Option<WireUserCodeFailure>,
}

/// Mathematical model of a wire failed status.
pub struct WireFailureView {
    pub failure: Option<WireUserCodeFailureView>,
}

impl DeepView for WireFailure {
    type V = WireFailureView;

    open spec fn deep_view(&self) -> WireFailureView {
        WireFailureView { failure: self.failure.deep_view() }
    }
}

/// The failed status: the workflow task failed, with an optional failure
/// chain.
#[derive(Debug, PartialEq, Eq)]
pub struct Failure {
    pub failure: Option<UserCodeFailure>,
}

/// Mathematical model of a failed status.
pub struct FailureView {
    pub failure: Option<UserCodeFailureView>,
}

impl DeepView for Failure {
    type V = FailureView;

    open spec fn deep_view(&self) -> FailureView {
        FailureView { failure: self.failure.deep_view() }
    }
}

// ---------------------------------------------------------------------------
// WfActivationCompletion
// ---------------------------------------------------------------------------

/// An activation completion as it travels on the wire: both statuses
/// optional, the sender trusted to populate exactly one.
#[derive(Debug, PartialEq, Eq)]
pub struct WireWfActivationCompletion {
    pub run_id: String,
    pub successful: Option<WireSuccess>,
    pub failed: Option<WireFailure>,
}

/// Mathematical model of a wire activation completion.
pub struct WireWfActivationCompletionView {
    pub run_id: Seq<char>,
    pub successful: Option<WireSuccessView>,
    pub failed: Option<WireFailureView>,
}

impl DeepView for WireWfActivationCompletion {
    type V = WireWfActivationCompletionView;

    open spec fn deep_view(&self) -> WireWfActivationCompletionView {
        WireWfActivationCompletionView {
            run_id: self.run_id.deep_view(),
            successful: self.successful.deep_view(),
            failed: self.failed.deep_view(),
        }
    }
}

/// The two statuses of an activation completion: exactly one, by
/// construction.
#[derive(Debug, PartialEq, Eq)]
pub enum WfActivationCompletionStatus {
    Successful(Success),
    Failed(Failure),
}

/// Mathematical model of a completion status.
pub enum WfActivationCompletionStatusView {
    Successful(SuccessView),
    Failed(FailureView),
}

impl DeepView for WfActivationCompletionStatus {
    type V = WfActivationCompletionStatusView;

    open spec fn deep_view(&self) -> WfActivationCompletionStatusView {
        match self {
            WfActivationCompletionStatus::Successful(s) =>
                WfActivationCompletionStatusView::Successful(s.deep_view()),
            WfActivationCompletionStatus::Failed(f) => WfActivationCompletionStatusView::Failed(
                f.deep_view(),
            ),
        }
    }
}

/// An in-process activation completion: the run it answers and exactly one
/// status.
#[derive(Debug, PartialEq, Eq)]
pub struct WfActivationCompletion {
    pub run_id: String,
    pub status: WfActivationCompletionStatus,
}

/// Mathematical model of an in-process activation completion.
pub struct WfActivationCompletionView {
    pub run_id: Seq<char>,
    pub status: WfActivationCompletionStatusView,
}

impl DeepView for WfActivationCompletion {
    type V = WfActivationCompletionView;

    open spec fn deep_view(&self) -> WfActivationCompletionView {
        WfActivationCompletionView {
            run_id: self.run_id.deep_view(),
            status: self.status.deep_view(),
        }
    }
}

/// How many status fields of a wire activation completion are populated.
pub open spec fn wire_completion_status_count(w: WireWfActivationCompletionView) -> int {
    (if w.successful is Some {
        1int
    } else {
        0int
    }) + (if w.failed is Some {
        1int
    } else {
        0int
    })
}

/// The element decoder of a command sequence, as a spec-level function
/// value.
pub open spec fn command_decoder() -> spec_fn(WireWorkflowCommandView) -> Result<
    WorkflowCommandView,
    DecodeError,
> {
    |w: WireWorkflowCommandView| spec_decode_workflow_command(w)
}

/// What `decode_wf_activation_completion` returns: the tagged union when
/// exactly one status is populated and, for a successful status, every
/// command decodes; a protocol violation otherwise.
pub open spec fn spec_decode_wf_activation_completion(w: WireWfActivationCompletionView) -> Result<
    WfActivationCompletionView,
    DecodeError,
> {
    match (w.successful, w.failed) {
        (Option::Some(s), Option::None) => match spec_decode_seq(command_decoder(), s.commands) {
            Ok(commands) => Ok(
                WfActivationCompletionView {
                    run_id: w.run_id,
                    status: WfActivationCompletionStatusView::Successful(
                        SuccessView { commands },
                    ),
                },
            ),
            Err(e) => Err(e),
        },
        (Option::None, Option::Some(f)) => Ok(
            WfActivationCompletionView {
                run_id: w.run_id,
                status: WfActivationCompletionStatusView::Failed(
                    FailureView { failure: spec_decode_opt_failure(f.failure) },
                ),
            },
        ),
        (Option::None, Option::None) => Err(
            DecodeError::MissingVariant(OneofKind::WfActivationCompletionStatus),
        ),
        _ => Err(DecodeError::MultipleVariants(OneofKind::WfActivationCompletionStatus)),
    }
}

/// What `encode_wf_activation_completion` returns: the wire shape with
/// exactly the one populated status, commands encoded in order; total.
pub open spec fn spec_encode_wf_activation_completion(c: WfActivationCompletionView)
    -> WireWfActivationCompletionView {
    match c.status {
        WfActivationCompletionStatusView::Successful(s) => WireWfActivationCompletionView {
            run_id: c.run_id,
            successful: Option::Some(
                WireSuccessView {
                    commands: s.commands.map_values(
                        |x: WorkflowCommandView| spec_encode_workflow_command(x),
                    ),
                },
            ),
            failed: Option::None,
        },
        WfActivationCompletionStatusView::Failed(f) => WireWfActivationCompletionView {
            run_id: c.run_id,
            successful: Option::None,
            failed: Option::Some(
                WireFailureView { failure: spec_encode_opt_failure(f.failure) },
            ),
        },
    }
}

/// Decodes the command list of a successful status, preserving order;
/// fails with the error of the first malformed command.
#[verifier::loop_isolation(false)]
fn decode_command_vec(v: Vec<WireWorkflowCommand>) -> (r: Result<Vec<WorkflowCommand>, DecodeError>)
    ensures
        match r {
            Ok(commands) => spec_decode_seq(command_decoder(), v.deep_view()) == Ok::<
                Seq<WorkflowCommandView>,
                DecodeError,
            >(commands.deep_view()),
            Err(e) => spec_decode_seq(command_decoder(), v.deep_view()) == Err::<
                Seq<WorkflowCommandView>,
                DecodeError,
            >(e),
        },
{
    let ghost src = v.deep_view();
    proof {
        assert(src =~= v.deep_view());
    }
    let mut rem = reverse_vec(v);
    let mut out: Vec<WorkflowCommand> = Vec::new();
    proof {
        assert(forall|j: int|
            0 <= j < rem@.len() ==> (#[trigger] rem@[j]).deep_view() == src[src.len() - 1 - j]);
    }
    while rem.len() > 0
        invariant
            out@.len() + rem@.len() == src.len(),
            forall|j: int|
                0 <= j < rem@.len() ==> (#[trigger] rem@[j]).deep_view() == src[src.len() - 1 - j],
            forall|j: int|
                0 <= j < out@.len() ==> command_decoder()(#[trigger] src[j]) == Ok::<
                    WorkflowCommandView,
                    DecodeError,
                >(out@[j].deep_view()),
        decreases rem.len(),
    {
        let ghost i = out@.len() as int;
        let wc = rem.pop().unwrap();
        proof {
            assert(wc.deep_view() == src[i]);
            assert(command_decoder()(src[i]) == spec_decode_workflow_command(src[i]));
        }
        match decode_workflow_command(wc) {
            Ok(c) => {
                out.push(c);
            },
            Err(e) => {
                proof {
                    lemma_decode_seq_error(command_decoder(), src, i);
                }
                return Err(e);
            },
        }
    }
    proof {
        lemma_decode_seq_done(command_decoder(), src);
        assert(out.deep_view() =~= Seq::new(src.len(), |k: int| command_decoder()(src[k])->Ok_0));
    }
    Ok(out)
}

/// Encodes a command list for the wire, preserving order; total.
fn encode_command_vec(v: Vec<WorkflowCommand>) -> (r: Vec<WireWorkflowCommand>)
    ensures
        r.deep_view() == v.deep_view().map_values(
            |x: WorkflowCommandView| spec_encode_workflow_command(x),
        ),
{
    let ghost src = v.deep_view();
    let mut rem = v;
    let mut tmp: Vec<WireWorkflowCommand> = Vec::new();
    while rem.len() > 0
        invariant
            rem@.len() + tmp@.len() == src.len(),
            forall|j: int| 0 <= j < rem@.len() ==> (#[trigger] rem@[j]).deep_view() == src[j],
            forall|j: int|
                0 <= j < tmp@.len() ==> (#[trigger] tmp@[j]).deep_view()
                    == spec_encode_workflow_command(src[src.len() - 1 - j]),
        decreases rem.len(),
    {
        let c = rem.pop().unwrap();
        let w = encode_workflow_command(c);
        tmp.push(w);
    }
    let r = reverse_vec(tmp);
    proof {
        assert(r.deep_view() =~= src.map_values(
            |x: WorkflowCommandView| spec_encode_workflow_command(x),
        ));
    }
    r
}

/// Decodes a wire activation completion into its strict tagged union.
/// Fails with `MissingVariant` when no status is populated,
/// `MultipleVariants` when both are, and propagates the error of the first
/// malformed command of a successful status.
pub fn decode_wf_activation_completion(w: WireWfActivationCompletion) -> (r: Result<
    WfActivationCompletion,
    DecodeError,
>)
    ensures
        match r {
            Ok(c) => spec_decode_wf_activation_completion(w.deep_view()) == Ok::<
                WfActivationCompletionView,
                DecodeError,
            >(c.deep_view()),
            Err(e) => spec_decode_wf_activation_completion(w.deep_view()) == Err::<
                WfActivationCompletionView,
                DecodeError,
            >(e),
        },
{
    match (w.successful, w.failed) {
        (Option::Some(s), Option::None) => match decode_command_vec(s.commands) {
            Ok(commands) => Ok(
                WfActivationCompletion {
                    run_id: w.run_id,
                    status: WfActivationCompletionStatus::Successful(Success { commands }),
                },
            ),
            Err(e) => Err(e),
        },
        (Option::None, Option::Some(f)) => Ok(
            WfActivationCompletion {
                run_id: w.run_id,
                status: WfActivationCompletionStatus::Failed(
                    Failure { failure: decode_opt_failure(f.failure) },
                ),
            },
        ),
        (Option::None, Option::None) => Err(
            DecodeError::MissingVariant(OneofKind::WfActivationCompletionStatus),
        ),
        _ => Err(DecodeError::MultipleVariants(OneofKind::WfActivationCompletionStatus)),
    }
}

/// Encodes an activation completion for the wire: exactly one status field
/// is populated, commands in order; total.
pub fn encode_wf_activation_completion(c: WfActivationCompletion) -> (r: WireWfActivationCompletion)
    ensures
        r.deep_view() == spec_encode_wf_activation_completion(c.deep_view()),
{
    match c.status {
        WfActivationCompletionStatus::Successful(s) => WireWfActivationCompletion {
            run_id: c.run_id,
            successful: Option::Some(WireSuccess { commands: encode_command_vec(s.commands) }),
            failed: Option::None,
        },
        WfActivationCompletionStatus::Failed(f) => WireWfActivationCompletion {
            run_id: c.run_id,
            successful: Option::None,
            failed: Option::Some(WireFailure { failure: encode_opt_failure(f.failure) }),
        },
    }
}

/// The errors of a command-list decode all come from commands: none names
/// the completion's own status oneof.
proof fn lemma_command_seq_error_kinds(s: Seq<WireWorkflowCommandView>)
    ensures
        spec_decode_seq(command_decoder(), s) matches Err(e) ==> e != DecodeError::MissingVariant(
            OneofKind::WfActivationCompletionStatus,
        ) && e != DecodeError::MultipleVariants(OneofKind::WfActivationCompletionStatus),
    decreases s.len(),
{
    if s.len() == 0 {
    } else {
        lemma_workflow_command_error_kinds(s[0]);
        assert(command_decoder()(s[0]) == spec_decode_workflow_command(s[0]));
        lemma_command_seq_error_kinds(s.drop_first());
    }
}

/// Exclusivity law for activation completions: a decode reports
/// `MissingVariant` of the completion status exactly when zero statuses
/// are populated, `MultipleVariants` exactly when both are, and succeeds
/// only when exactly one status is populated.
pub proof fn lemma_wf_activation_completion_exclusivity(w: WireWfActivationCompletionView)
    ensures
        spec_decode_wf_activation_completion(w) == Err::<WfActivationCompletionView, DecodeError>(
            DecodeError::MissingVariant(OneofKind::WfActivationCompletionStatus),
        ) <==> wire_completion_status_count(w) == 0,
        spec_decode_wf_activation_completion(w) == Err::<WfActivationCompletionView, DecodeError>(
            DecodeError::MultipleVariants(OneofKind::WfActivationCompletionStatus),
        ) <==> wire_completion_status_count(w) >= 2,
        spec_decode_wf_activation_completion(w) is Ok ==> wire_completion_status_count(w) == 1,
{
    match (w.successful, w.failed) {
        (Option::Some(s), Option::None) => {
            lemma_command_seq_error_kinds(s.commands);
        },
        _ => {
        },
    }
}

/// Ordering law for completions: a successful decode of a successful
/// status yields exactly one command per wire command, each the decode of
/// the wire command at the same position — order preserved exactly.
pub proof fn lemma_completion_preserves_command_order(
    w: WireWfActivationCompletionView,
    c: WfActivationCompletionView,
)
    requires
        spec_decode_wf_activation_completion(w) == Ok::<WfActivationCompletionView, DecodeError>(c),
        c.status is Successful,
    ensures
        w.successful is Some,
        c.status->Successful_0.commands.len() == w.successful->0.commands.len(),
        forall|k: int|
            0 <= k < w.successful->0.commands.len() ==> spec_decode_workflow_command(
                #[trigger] w.successful->0.commands[k],
            ) == Ok::<WorkflowCommandView, DecodeError>(c.status->Successful_0.commands[k]),
{
    lemma_decode_seq_pointwise(
        command_decoder(),
        w.successful->0.commands,
        c.status->Successful_0.commands,
    );
}

/// Round-trip law for activation completions: reading back the wire form
/// of any completion recovers that completion exactly, commands in order.
pub proof fn lemma_wf_activation_completion_round_trip(c: WfActivationCompletionView)
    ensures
        spec_decode_wf_activation_completion(spec_encode_wf_activation_completion(c)) == Ok::<
            WfActivationCompletionView,
            DecodeError,
        >(c),
{
    match c.status {
        WfActivationCompletionStatusView::Successful(s) => {
            assert forall|k: int| 0 <= k < s.commands.len() implies command_decoder()(
                spec_encode_workflow_command(#[trigger] s.commands[k]),
            ) == Ok::<WorkflowCommandView, DecodeError>(s.commands[k]) by {
                lemma_workflow_command_round_trip(s.commands[k]);
            }
            lemma_decode_seq_round_trip(
                command_decoder(),
                |x: WorkflowCommandView| spec_encode_workflow_command(x),
                s.commands,
            );
        },
        WfActivationCompletionStatusView::Failed(f) => {
            lemma_opt_failure_round_trip(f.failure);
        },
    }
}

} // verus!
