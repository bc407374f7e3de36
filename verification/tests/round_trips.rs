//! Round-trip tests: encoding any entity for the wire and decoding it back
//! recovers the entity exactly, including deep failure chains and full
//! activity-task starts.

use temporal_worker_protocol::activity_result::{
    decode_activity_result, decode_activity_task_completion, encode_activity_result,
    encode_activity_task_completion, ActivityResult, ActivityTaskCompletion, Cancelation, Failure,
    Success,
};
use temporal_worker_protocol::activity_result::{decode_activity_heartbeat,
    encode_activity_heartbeat, ActivityHeartbeat};
use temporal_worker_protocol::activity_task::{
    decode_activity_task, encode_activity_task, ActivityTask, ActivityTaskVariant, Cancel, Start,
};
use temporal_worker_protocol::common::{
    decode_payload, decode_retry_policy, decode_user_code_failure, decode_workflow_execution,
    encode_payload, encode_retry_policy, encode_user_code_failure, encode_workflow_execution,
    Payload, RetryPolicy, UserCodeFailure, WorkflowExecution,
};
use temporal_worker_protocol::time::{Duration, Instant};
use temporal_worker_protocol::workflow_activation::{
    decode_wf_activation, encode_wf_activation, FireTimer, QueryWorkflow, ResolveActivity,
    SignalWorkflow, StartWorkflow, WfActivation, WfActivationJob,
};
use temporal_worker_protocol::workflow_commands::{
    decode_workflow_command, encode_workflow_command, ContinueAsNewWorkflowExecution, QueryResult,
    QueryResultVariant, QuerySuccess, ScheduleActivity, StartTimer, WorkflowCommand,
};
use temporal_worker_protocol::workflow_completion::{
    decode_wf_activation_completion, encode_wf_activation_completion, Success as CompletionSuccess,
    WfActivationCompletion, WfActivationCompletionStatus,
};

fn payload(data: &[u8]) -> Payload {
    Payload {
        metadata: vec![("encoding".to_string(), b"binary/plain".to_vec())],
        data: data.to_vec(),
    }
}

fn failure_chain(depth: usize) -> UserCodeFailure {
    let mut f = UserCodeFailure {
        message: "root cause".to_string(),
        failure_type: "ValueError".to_string(),
        source: "activity".to_string(),
        stack_trace: "frame 0".to_string(),
        non_retryable: true,
        cause: None,
    };
    let mut level: usize = 1;
    while level < depth {
        f = UserCodeFailure {
            message: format!("wrapped at level {}", level),
            failure_type: "RuntimeError".to_string(),
            source: "workflow".to_string(),
            stack_trace: format!("frame {}", level),
            non_retryable: level % 2 == 0,
            cause: Some(Box::new(f)),
        };
        level += 1;
    }
    f
}

fn retry_policy() -> RetryPolicy {
    RetryPolicy {
        initial_interval: Some(Duration { nanos: 1_000_000_000 }),
        backoff_coefficient_bits: 2.0f64.to_bits(),
        maximum_interval: Some(Duration { nanos: 60_000_000_000 }),
        maximum_attempts: 5,
        non_retryable_error_types: vec!["Fatal".to_string(), "Corrupt".to_string()],
    }
}

fn full_start() -> Start {
    Start {
        workflow_namespace: "default".to_string(),
        workflow_type: "OrderWorkflow".to_string(),
        workflow_execution: Some(WorkflowExecution {
            workflow_id: "wf-1".to_string(),
            run_id: "run-1".to_string(),
        }),
        activity_type: "Charge".to_string(),
        header_fields: vec![("trace".to_string(), payload(b"t-123"))],
        input: vec![payload(b"order-77"), payload(b"eur")],
        heartbeat_details: vec![payload(b"progress: 3")],
        scheduled_time: Some(Instant { epoch_nanos: 1_700_000_000_000_000_000 }),
        current_attempt_scheduled_time: Some(Instant { epoch_nanos: 1_700_000_000_500_000_000 }),
        started_time: Some(Instant { epoch_nanos: 1_700_000_001_000_000_000 }),
        attempt: 2,
        schedule_to_close_timeout: Some(Duration { nanos: 300_000_000_000 }),
        start_to_close_timeout: Some(Duration { nanos: 30_000_000_000 }),
        heartbeat_timeout: Some(Duration { nanos: 10_000_000_000 }),
        retry_policy: Some(retry_policy()),
    }
}

#[test]
fn payload_round_trips() {
    let back = decode_payload(encode_payload(payload(b"hello")));
    assert_eq!(back, payload(b"hello"));
}

#[test]
fn user_code_failure_round_trips_at_depth_fifty() {
    let back = decode_user_code_failure(encode_user_code_failure(failure_chain(50)));
    assert_eq!(back, failure_chain(50));
}

#[test]
fn workflow_execution_round_trips() {
    let e = WorkflowExecution { workflow_id: "wf-9".to_string(), run_id: "run-9".to_string() };
    let back = decode_workflow_execution(encode_workflow_execution(e));
    assert_eq!(
        back,
        WorkflowExecution { workflow_id: "wf-9".to_string(), run_id: "run-9".to_string() }
    );
}

#[test]
fn retry_policy_round_trips() {
    let back = decode_retry_policy(encode_retry_policy(retry_policy()));
    assert_eq!(back, Ok(retry_policy()));
}

#[test]
fn activity_result_variants_round_trip() {
    let completed = ActivityResult::Completed(Success { result: Some(payload(b"42")) });
    let back = decode_activity_result(encode_activity_result(completed));
    assert_eq!(back, Ok(ActivityResult::Completed(Success { result: Some(payload(b"42")) })));

    let failed = ActivityResult::Failed(Failure { failure: Some(failure_chain(3)) });
    let back = decode_activity_result(encode_activity_result(failed));
    assert_eq!(back, Ok(ActivityResult::Failed(Failure { failure: Some(failure_chain(3)) })));

    let canceled = ActivityResult::Canceled(Cancelation { details: None });
    let back = decode_activity_result(encode_activity_result(canceled));
    assert_eq!(back, Ok(ActivityResult::Canceled(Cancelation { details: None })));
}

#[test]
fn activity_task_start_round_trips() {
    let task = ActivityTask {
        task_token: b"tok-1".to_vec(),
        activity_id: "act-1".to_string(),
        variant: ActivityTaskVariant::Start(full_start()),
    };
    let back = decode_activity_task(encode_activity_task(task));
    assert_eq!(
        back,
        Ok(ActivityTask {
            task_token: b"tok-1".to_vec(),
            activity_id: "act-1".to_string(),
            variant: ActivityTaskVariant::Start(full_start()),
        })
    );
}

#[test]
fn activity_task_cancel_round_trips() {
    let task = ActivityTask {
        task_token: b"tok-2".to_vec(),
        activity_id: "act-2".to_string(),
        variant: ActivityTaskVariant::Cancel(Cancel { reason: 1 }),
    };
    let back = decode_activity_task(encode_activity_task(task));
    assert_eq!(
        back,
        Ok(ActivityTask {
            task_token: b"tok-2".to_vec(),
            activity_id: "act-2".to_string(),
            variant: ActivityTaskVariant::Cancel(Cancel { reason: 1 }),
        })
    );
}

#[test]
fn activity_task_completion_round_trips() {
    let c = ActivityTaskCompletion {
        task_token: b"tok-3".to_vec(),
        task_queue: "q1".to_string(),
        result: Some(ActivityResult::Completed(Success { result: Some(payload(b"ok")) })),
    };
    let back = decode_activity_task_completion(encode_activity_task_completion(c));
    assert_eq!(
        back,
        Ok(ActivityTaskCompletion {
            task_token: b"tok-3".to_vec(),
            task_queue: "q1".to_string(),
            result: Some(ActivityResult::Completed(Success { result: Some(payload(b"ok")) })),
        })
    );
}

#[test]
fn activity_heartbeat_round_trips() {
    let h = ActivityHeartbeat {
        task_token: b"tok-4".to_vec(),
        task_queue: "q1".to_string(),
        details: vec![payload(b"37 of 100")],
    };
    let back = decode_activity_heartbeat(encode_activity_heartbeat(h));
    assert_eq!(
        back,
        ActivityHeartbeat {
            task_token: b"tok-4".to_vec(),
            task_queue: "q1".to_string(),
            details: vec![payload(b"37 of 100")],
        }
    );
}

fn sample_jobs() -> Vec<WfActivationJob> {
    vec![
        WfActivationJob::StartWorkflow(StartWorkflow {
            workflow_type: "OrderWorkflow".to_string(),
            workflow_id: "wf-1".to_string(),
            arguments: vec![payload(b"arg")],
            randomness_seed: 7,
            headers: vec![("h".to_string(), payload(b"v"))],
        }),
        WfActivationJob::FireTimer(FireTimer { timer_id: "t1".to_string() }),
        WfActivationJob::QueryWorkflow(QueryWorkflow {
            query_id: "q-1".to_string(),
            query_type: "state".to_string(),
            arguments: vec![],
        }),
        WfActivationJob::SignalWorkflow(SignalWorkflow {
            signal_name: "s1".to_string(),
            input: vec![payload(b"sig")],
            identity: "client-1".to_string(),
        }),
        WfActivationJob::ResolveActivity(ResolveActivity {
            activity_id: "act-1".to_string(),
            result: Some(ActivityResult::Completed(Success { result: None })),
        }),
        WfActivationJob::RemoveFromCache(true),
    ]
}

#[test]
fn wf_activation_round_trips() {
    let a = WfActivation {
        run_id: "run-1".to_string(),
        timestamp: Some(Instant { epoch_nanos: 1_700_000_002_000_000_000 }),
        is_replaying: true,
        jobs: sample_jobs(),
    };
    let back = decode_wf_activation(encode_wf_activation(a));
    assert_eq!(
        back,
        Ok(WfActivation {
            run_id: "run-1".to_string(),
            timestamp: Some(Instant { epoch_nanos: 1_700_000_002_000_000_000 }),
            is_replaying: true,
            jobs: sample_jobs(),
        })
    );
}

fn sample_commands() -> Vec<WorkflowCommand> {
    vec![
        WorkflowCommand::StartTimer(StartTimer {
            timer_id: "t1".to_string(),
            start_to_fire_timeout: Some(Duration { nanos: 2_000_000_000 }),
        }),
        WorkflowCommand::ScheduleActivity(ScheduleActivity {
            activity_id: "act-1".to_string(),
            activity_type: "Charge".to_string(),
            namespace: "default".to_string(),
            task_queue: "q1".to_string(),
            header_fields: vec![("trace".to_string(), payload(b"t"))],
            arguments: vec![payload(b"77")],
            schedule_to_close_timeout: Some(Duration { nanos: 60_000_000_000 }),
            schedule_to_start_timeout: None,
            start_to_close_timeout: Some(Duration { nanos: 30_000_000_000 }),
            heartbeat_timeout: None,
            retry_policy: Some(retry_policy()),
            cancellation_type: 0,
        }),
        WorkflowCommand::RespondToQuery(QueryResult {
            query_id: "q-1".to_string(),
            variant: QueryResultVariant::Succeeded(QuerySuccess {
                response: Some(payload(b"running")),
            }),
        }),
        WorkflowCommand::ContinueAsNewWorkflowExecution(ContinueAsNewWorkflowExecution {
            workflow_type: "OrderWorkflow".to_string(),
            task_queue: "q1".to_string(),
            arguments: vec![payload(b"again")],
            workflow_run_timeout: Some(Duration { nanos: 600_000_000_000 }),
            workflow_task_timeout: None,
            memo: vec![("note".to_string(), payload(b"m"))],
            header: vec![],
            search_attributes: vec![("customer".to_string(), payload(b"acme"))],
        }),
    ]
}

#[test]
fn workflow_commands_round_trip() {
    for c in sample_commands() {
        let encoded = encode_workflow_command(c);
        let back = decode_workflow_command(encoded).unwrap();
        // A decoded command equals the command it was encoded from.
        let mut expected = sample_commands();
        let matching = expected.remove(match back {
            WorkflowCommand::StartTimer(_) => 0,
            WorkflowCommand::ScheduleActivity(_) => 1,
            WorkflowCommand::RespondToQuery(_) => 2,
            WorkflowCommand::ContinueAsNewWorkflowExecution(_) => 3,
            _ => unreachable!(),
        });
        assert_eq!(back, matching);
    }
}

#[test]
fn wf_activation_completion_round_trips() {
    let c = WfActivationCompletion {
        run_id: "run-1".to_string(),
        status: WfActivationCompletionStatus::Successful(CompletionSuccess {
            commands: sample_commands(),
        }),
    };
    let back = decode_wf_activation_completion(encode_wf_activation_completion(c));
    assert_eq!(
        back,
        Ok(WfActivationCompletion {
            run_id: "run-1".to_string(),
            status: WfActivationCompletionStatus::Successful(CompletionSuccess {
                commands: sample_commands(),
            }),
        })
    );
}
