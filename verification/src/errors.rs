//! Error taxonomy of the worker protocol.
//!
//! Decode errors (`DecodeError`) report protocol violations: a oneof-shaped
//! wire entity whose variant fields are not populated exactly once, or a
//! wire time value outside the representable range.  Session errors report
//! the outcome of the worker-facing operations: registration, polling and
//! completion.  Every error carries enough context (which oneof, which
//! field, the raw values) to diagnose a wire-format mismatch.

use vstd::prelude::*;

verus! {

/// A wire time value (a seconds/nanoseconds pair) whose combined magnitude
/// lies outside the representable range.  Carries the raw wire values for
/// diagnosis.
#[derive(Clone, Copy, PartialEq, Eq, Structural, Debug)]
pub struct RangeError {
    pub seconds: i64,
    pub nanos: i32,
}

impl DeepView for RangeError {
    type V = RangeError;

    open spec fn deep_view(&self) -> RangeError {
        *self
    }
}

/// The oneof-shaped entities of the protocol; names which tagged union a
/// `DecodeError` is about.
#[derive(Clone, Copy, PartialEq, Eq, Structural, Debug)]
pub enum OneofKind {
    ActivityResultStatus,
    ActivityTaskVariant,
    WfActivationJobVariant,
    WorkflowCommandVariant,
    QueryResultVariant,
    WfActivationCompletionStatus,
}

impl DeepView for OneofKind {
    type V = OneofKind;

    open spec fn deep_view(&self) -> OneofKind {
        *self
    }
}

/// The duration- and timestamp-valued fields of the protocol; names which
/// field held an out-of-range wire time value.
#[derive(Clone, Copy, PartialEq, Eq, Structural, Debug)]
pub enum TimeField {
    RetryInitialInterval,
    RetryMaximumInterval,
    ScheduledTime,
    CurrentAttemptScheduledTime,
    StartedTime,
    ScheduleToCloseTimeout,
    ScheduleToStartTimeout,
    StartToCloseTimeout,
    HeartbeatTimeout,
    StartToFireTimeout,
    WorkflowRunTimeout,
    WorkflowTaskTimeout,
    ActivationTimestamp,
}

impl DeepView for TimeField {
    type V = TimeField;

    open spec fn deep_view(&self) -> TimeField {
        *self
    }
}

/// Why a wire entity was rejected on decode.  Decode errors are never
/// swallowed: they propagate to the caller of the poll operation that
/// received the malformed entity.
#[derive(Clone, Copy, PartialEq, Eq, Structural, Debug)]
pub enum DecodeError {
    /// None of the variant fields of the named oneof is populated.
    MissingVariant(OneofKind),
    /// Two or more variant fields of the named oneof are populated.
    MultipleVariants(OneofKind),
    /// The named time field holds a wire value outside the representable
    /// range.
    TimeOutOfRange(TimeField, RangeError),
}

impl DeepView for DecodeError {
    type V = DecodeError;

    open spec fn deep_view(&self) -> DecodeError {
        *self
    }
}

/// Why a worker registration was refused.
#[derive(Clone, Copy, PartialEq, Eq, Structural, Debug)]
pub enum WorkerRegistrationError {
    /// A worker already holds the named queue.
    AlreadyRegisteredForQueue,
    /// The transport failed; the caller may retry.  The session never
    /// returns this variant; it belongs to the transport layer, which
    /// marks its own failures with it.
    Transport,
}

impl DeepView for WorkerRegistrationError {
    type V = WorkerRegistrationError;

    open spec fn deep_view(&self) -> WorkerRegistrationError {
        *self
    }
}

/// Why a workflow-task poll produced no activation.
#[derive(Clone, Copy, PartialEq, Eq, Structural, Debug)]
pub enum PollWfError {
    /// The worker is shutting down; terminal for this polling stream.
    ShutDown,
    /// The transport failed or timed out; the caller should poll again.
    Transport,
    /// The delivered activation violates the protocol; fatal, indicates
    /// wire-format skew.
    Malformed(DecodeError),
}

impl DeepView for PollWfError {
    type V = PollWfError;

    open spec fn deep_view(&self) -> PollWfError {
        *self
    }
}

/// Why an activity-task poll produced no task.
#[derive(Clone, Copy, PartialEq, Eq, Structural, Debug)]
pub enum PollActivityError {
    /// The worker is shutting down; terminal for this polling stream.
    ShutDown,
    /// The transport failed or timed out; the caller should poll again.
    Transport,
    /// The delivered task violates the protocol; fatal, indicates
    /// wire-format skew.
    Malformed(DecodeError),
}

impl DeepView for PollActivityError {
    type V = PollActivityError;

    open spec fn deep_view(&self) -> PollActivityError {
        *self
    }
}

/// Why a workflow-task completion was refused.
#[derive(Clone, Copy, PartialEq, Eq, Structural, Debug)]
pub enum CompleteWfError {
    /// No workflow task for this run is outstanding: the run was never
    /// polled, or its task was already completed.  Not retryable.
    UnknownRunId,
    /// The transport failed to deliver the completion; the caller may
    /// retry.  The session itself never produces this variant.
    Transport,
}

impl DeepView for CompleteWfError {
    type V = CompleteWfError;

    open spec fn deep_view(&self) -> CompleteWfError {
        *self
    }
}

/// Why an activity-task completion was refused.
#[derive(Clone, Copy, PartialEq, Eq, Structural, Debug)]
pub enum CompleteActivityError {
    /// The task token is not outstanding: it was never issued by a poll,
    /// or it was already completed.  Task tokens are single-use; the task
    /// must be considered lost and not retried with the same token.
    UnknownTaskToken,
    /// The transport failed to deliver the completion; the caller may
    /// retry.  The session itself never produces this variant.
    Transport,
}

impl DeepView for CompleteActivityError {
    type V = CompleteActivityError;

    open spec fn deep_view(&self) -> CompleteActivityError {
        *self
    }
}

} // verus!
