//! Worker session tests: registration, polling, job ordering, the
//! single-use token lifecycle, and the end-to-end poll/complete scenarios.

use temporal_worker_protocol::activity_result::{
    ActivityResult, ActivityTaskCompletion, Success, WireSuccess,
};
use temporal_worker_protocol::activity_task::{ActivityTaskVariant, WireActivityTask, WireStart};
use temporal_worker_protocol::common::Payload;
use temporal_worker_protocol::errors::{
    CompleteActivityError, CompleteWfError, DecodeError, OneofKind, PollActivityError, PollWfError,
    WorkerRegistrationError,
};
use temporal_worker_protocol::time::Duration;
use temporal_worker_protocol::worker::{
    ActivityPollOutcome, EvictionRequest, WorkerConfig, WorkerSession, WorkflowPollOutcome,
};
use temporal_worker_protocol::workflow_activation::{
    WfActivationJob, WireFireTimer, WireSignalWorkflow, WireStartWorkflow, WireWfActivation,
    WireWfActivationJob,
};
use temporal_worker_protocol::workflow_commands::{
    CompleteWorkflowExecution, WorkflowCommand,
};
use temporal_worker_protocol::workflow_completion::{
    Success as CompletionSuccess, WfActivationCompletion, WfActivationCompletionStatus,
};

fn config(queue: &str) -> WorkerConfig {
    WorkerConfig {
        task_queue: queue.to_string(),
        max_outstanding_workflow_tasks: 100,
        max_outstanding_activities: 100,
        max_concurrent_wft_polls: 5,
        nonsticky_to_sticky_poll_ratio_bits: 0.2f32.to_bits(),
        max_concurrent_at_polls: 5,
        no_remote_activities: false,
        sticky_queue_schedule_to_start_timeout: Duration { nanos: 10_000_000_000 },
    }
}

fn blank_wire_job() -> WireWfActivationJob {
    WireWfActivationJob {
        start_workflow: None,
        fire_timer: None,
        update_random_seed: None,
        query_workflow: None,
        cancel_workflow: None,
        signal_workflow: None,
        resolve_activity: None,
        remove_from_cache: None,
    }
}

fn wire_start_task(token: &[u8], activity_type: &str, attempt: i32) -> WireActivityTask {
    WireActivityTask {
        task_token: token.to_vec(),
        activity_id: "act-1".to_string(),
        start: Some(WireStart {
            workflow_namespace: "default".to_string(),
            workflow_type: "OrderWorkflow".to_string(),
            workflow_execution: None,
            activity_type: activity_type.to_string(),
            header_fields: vec![],
            input: vec![],
            heartbeat_details: vec![],
            scheduled_time: None,
            current_attempt_scheduled_time: None,
            started_time: None,
            attempt,
            schedule_to_close_timeout: None,
            start_to_close_timeout: None,
            heartbeat_timeout: None,
            retry_policy: None,
        }),
        cancel: None,
    }
}

fn start_workflow_activation(run_id: &str) -> WireWfActivation {
    let mut job = blank_wire_job();
    job.start_workflow = Some(WireStartWorkflow {
        workflow_type: "OrderWorkflow".to_string(),
        workflow_id: "wf-1".to_string(),
        arguments: vec![],
        randomness_seed: 42,
        headers: vec![],
    });
    WireWfActivation {
        run_id: run_id.to_string(),
        timestamp: None,
        is_replaying: false,
        jobs: vec![job],
    }
}

#[test]
fn registering_the_same_queue_twice_is_refused() {
    let mut session = WorkerSession::new();
    assert_eq!(session.register(config("q1")), Ok(()));
    assert_eq!(
        session.register(config("q1")),
        Err(WorkerRegistrationError::AlreadyRegisteredForQueue)
    );
    assert_eq!(session.register(config("q2")), Ok(()));
}

#[test]
fn poll_shutdown_and_transport_errors_are_distinct() {
    let mut session = WorkerSession::new();
    let r = session.poll_workflow_task("q1".to_string(), WorkflowPollOutcome::ShutDown);
    assert_eq!(r.unwrap_err(), PollWfError::ShutDown);
    let r = session.poll_workflow_task("q1".to_string(), WorkflowPollOutcome::TransportFault);
    assert_eq!(r.unwrap_err(), PollWfError::Transport);
    let r = session.poll_activity_task("q1".to_string(), ActivityPollOutcome::ShutDown);
    assert_eq!(r.unwrap_err(), PollActivityError::ShutDown);
    let r = session.poll_activity_task("q1".to_string(), ActivityPollOutcome::TransportFault);
    assert_eq!(r.unwrap_err(), PollActivityError::Transport);
}

#[test]
fn malformed_activation_is_reported_not_coerced() {
    let mut session = WorkerSession::new();
    let w = WireWfActivation {
        run_id: "run-1".to_string(),
        timestamp: None,
        is_replaying: false,
        jobs: vec![blank_wire_job()],
    };
    let r = session.poll_workflow_task("q1".to_string(), WorkflowPollOutcome::Activation(w));
    assert_eq!(
        r.unwrap_err(),
        PollWfError::Malformed(DecodeError::MissingVariant(OneofKind::WfActivationJobVariant))
    );
}

#[test]
fn activation_preserves_job_order() {
    let mut session = WorkerSession::new();
    let mut fire = blank_wire_job();
    fire.fire_timer = Some(WireFireTimer { timer_id: "t1".to_string() });
    let mut signal = blank_wire_job();
    signal.signal_workflow = Some(WireSignalWorkflow {
        signal_name: "s1".to_string(),
        input: vec![],
        identity: "client".to_string(),
    });
    let w = WireWfActivation {
        run_id: "run-1".to_string(),
        timestamp: None,
        is_replaying: false,
        jobs: vec![fire, signal],
    };
    let a = session
        .poll_workflow_task("q1".to_string(), WorkflowPollOutcome::Activation(w))
        .unwrap();
    assert_eq!(a.jobs.len(), 2);
    assert!(matches!(&a.jobs[0], WfActivationJob::FireTimer(t) if t.timer_id == "t1"));
    assert!(matches!(&a.jobs[1], WfActivationJob::SignalWorkflow(s) if s.signal_name == "s1"));
}

#[test]
fn activity_task_lifecycle_end_to_end() {
    let mut session = WorkerSession::new();
    let outcome = ActivityPollOutcome::Task(wire_start_task(b"abc", "Foo", 1));
    let task = session.poll_activity_task("q1".to_string(), outcome).unwrap();
    assert_eq!(task.task_token, b"abc".to_vec());
    match &task.variant {
        ActivityTaskVariant::Start(s) => {
            assert_eq!(s.activity_type, "Foo".to_string());
            assert_eq!(s.attempt, 1);
        },
        ActivityTaskVariant::Cancel(_) => panic!("expected a start variant"),
    }

    let completion = ActivityTaskCompletion {
        task_token: b"abc".to_vec(),
        task_queue: "q1".to_string(),
        result: Some(ActivityResult::Completed(Success {
            result: Some(Payload { metadata: vec![], data: b"42".to_vec() }),
        })),
    };
    let wire = session.complete_activity_task(completion).unwrap();
    assert_eq!(wire.task_token, b"abc".to_vec());
    assert_eq!(wire.task_queue, "q1".to_string());
    let result = wire.result.unwrap();
    assert_eq!(result.completed.unwrap(), WireSuccess {
        result: Some(temporal_worker_protocol::common::WirePayload {
            metadata: vec![],
            data: b"42".to_vec(),
        }),
    });
    assert!(result.failed.is_none());
    assert!(result.canceled.is_none());

    // The token is single use: a second completion of b"abc" is refused.
    let again = ActivityTaskCompletion {
        task_token: b"abc".to_vec(),
        task_queue: "q1".to_string(),
        result: Some(ActivityResult::Completed(Success { result: None })),
    };
    assert_eq!(
        session.complete_activity_task(again),
        Err(CompleteActivityError::UnknownTaskToken)
    );
}

#[test]
fn completing_a_token_never_issued_is_refused() {
    let mut session = WorkerSession::new();
    let completion = ActivityTaskCompletion {
        task_token: b"never-polled".to_vec(),
        task_queue: "q1".to_string(),
        result: None,
    };
    assert_eq!(
        session.complete_activity_task(completion),
        Err(CompleteActivityError::UnknownTaskToken)
    );
}

#[test]
fn workflow_task_lifecycle_end_to_end() {
    let mut session = WorkerSession::new();
    let outcome = WorkflowPollOutcome::Activation(start_workflow_activation("run-1"));
    let activation = session.poll_workflow_task("q1".to_string(), outcome).unwrap();
    assert_eq!(activation.run_id, "run-1".to_string());
    assert_eq!(activation.jobs.len(), 1);
    assert!(matches!(&activation.jobs[0], WfActivationJob::StartWorkflow(_)));

    let completion = WfActivationCompletion {
        run_id: "run-1".to_string(),
        status: WfActivationCompletionStatus::Successful(CompletionSuccess {
            commands: vec![WorkflowCommand::CompleteWorkflowExecution(
                CompleteWorkflowExecution {
                    result: Some(Payload { metadata: vec![], data: b"done".to_vec() }),
                },
            )],
        }),
    };
    let wire = session.complete_workflow_task(completion).unwrap();
    assert_eq!(wire.run_id, "run-1".to_string());
    let success = wire.successful.unwrap();
    assert_eq!(success.commands.len(), 1);
    let cmd = &success.commands[0];
    let complete = cmd.complete_workflow_execution.as_ref().unwrap();
    assert_eq!(complete.result.as_ref().unwrap().data, b"done".to_vec());

    // The run's task is single use: a second completion is refused.
    let again = WfActivationCompletion {
        run_id: "run-1".to_string(),
        status: WfActivationCompletionStatus::Failed(
            temporal_worker_protocol::workflow_completion::Failure { failure: None },
        ),
    };
    assert_eq!(session.complete_workflow_task(again), Err(CompleteWfError::UnknownRunId));
}

#[test]
fn completing_a_run_never_polled_is_refused() {
    let mut session = WorkerSession::new();
    let completion = WfActivationCompletion {
        run_id: "ghost-run".to_string(),
        status: WfActivationCompletionStatus::Successful(CompletionSuccess { commands: vec![] }),
    };
    assert_eq!(session.complete_workflow_task(completion), Err(CompleteWfError::UnknownRunId));
}

#[test]
fn heartbeat_is_encoded_without_touching_state() {
    let mut session = WorkerSession::new();
    let hb = temporal_worker_protocol::activity_result::ActivityHeartbeat {
        task_token: b"abc".to_vec(),
        task_queue: "q1".to_string(),
        details: vec![Payload { metadata: vec![], data: b"50%".to_vec() }],
    };
    let wire = session.record_activity_heartbeat(hb);
    assert_eq!(wire.task_token, b"abc".to_vec());
    assert_eq!(wire.task_queue, "q1".to_string());
    assert_eq!(wire.details.len(), 1);
    // Heartbeats never make a token outstanding: completing it still fails.
    let completion = ActivityTaskCompletion {
        task_token: b"abc".to_vec(),
        task_queue: "q1".to_string(),
        result: None,
    };
    assert_eq!(
        session.complete_activity_task(completion),
        Err(CompleteActivityError::UnknownTaskToken)
    );
}

#[test]
fn eviction_request_names_the_run() {
    let session = WorkerSession::new();
    let r = session.request_workflow_eviction("run-7".to_string());
    assert_eq!(r, EvictionRequest { run_id: "run-7".to_string() });
}

#[test]
fn malformed_activity_task_is_reported_not_coerced() {
    let mut session = WorkerSession::new();
    let mut task = wire_start_task(b"abc", "Foo", 1);
    task.cancel = Some(temporal_worker_protocol::activity_task::WireCancel { reason: 0 });
    let r = session.poll_activity_task("q1".to_string(), ActivityPollOutcome::Task(task));
    assert_eq!(
        r.unwrap_err(),
        PollActivityError::Malformed(DecodeError::MultipleVariants(
            OneofKind::ActivityTaskVariant
        ))
    );
}

#[test]
fn failed_workflow_completion_is_encoded() {
    let mut session = WorkerSession::new();
    let outcome = WorkflowPollOutcome::Activation(start_workflow_activation("run-2"));
    session.poll_workflow_task("q1".to_string(), outcome).unwrap();
    let completion = WfActivationCompletion {
        run_id: "run-2".to_string(),
        status: WfActivationCompletionStatus::Failed(
            temporal_worker_protocol::workflow_completion::Failure {
                failure: Some(temporal_worker_protocol::common::UserCodeFailure {
                    message: "boom".to_string(),
                    failure_type: "RuntimeError".to_string(),
                    source: "workflow".to_string(),
                    stack_trace: "frame 0".to_string(),
                    non_retryable: false,
                    cause: None,
                }),
            },
        ),
    };
    let wire = session.complete_workflow_task(completion).unwrap();
    assert!(wire.successful.is_none());
    let failed = wire.failed.unwrap();
    assert_eq!(failed.failure.unwrap().message, "boom".to_string());
}
