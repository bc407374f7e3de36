//! Exclusivity tests: a oneof-shaped wire entity with zero or several
//! populated variants is refused as a protocol violation, and time values
//! outside the representable range are refused with their field named.

use temporal_worker_protocol::activity_result::{
    decode_activity_result, Cancelation, Success, WireActivityResult, WireCancelation, WireSuccess,
};
use temporal_worker_protocol::activity_task::{decode_activity_task, WireActivityTask, WireCancel};
use temporal_worker_protocol::common::{decode_retry_policy, WireRetryPolicy};
use temporal_worker_protocol::errors::{DecodeError, OneofKind, RangeError, TimeField};
use temporal_worker_protocol::time::{WireDuration, WireTimestamp};
use temporal_worker_protocol::workflow_activation::{
    decode_wf_activation, decode_wf_activation_job, WireFireTimer, WireResolveActivity,
    WireUpdateRandomSeed, WireWfActivation, WireWfActivationJob,
};
use temporal_worker_protocol::workflow_commands::{
    decode_query_result, decode_workflow_command, WireCancelTimer, WireQueryResult,
    WireQuerySuccess, WireStartTimer, WireWorkflowCommand,
};
use temporal_worker_protocol::workflow_completion::{
    decode_wf_activation_completion, WireFailure as WireCompletionFailure,
    WireSuccess as WireCompletionSuccess, WireWfActivationCompletion,
};

fn empty_wire_job() -> WireWfActivationJob {
    WireWfActivationJob {
        start_workflow: None,
        fire_timer: None,
        update_random_seed: None,
        query_workflow: None,
        cancel_workflow: None,
        signal_workflow: None,
        resolve_activity: None,
        remove_from_cache: None,
    }
}

fn empty_wire_command() -> WireWorkflowCommand {
    WireWorkflowCommand {
        start_timer: None,
        schedule_activity: None,
        respond_to_query: None,
        request_cancel_activity: None,
        cancel_timer: None,
        complete_workflow_execution: None,
        fail_workflow_execution: None,
        continue_as_new_workflow_execution: None,
        cancel_workflow_execution: None,
    }
}

#[test]
fn activity_result_with_no_variant_is_refused() {
    let r = decode_activity_result(WireActivityResult {
        completed: None,
        failed: None,
        canceled: None,
    });
    assert_eq!(r, Err(DecodeError::MissingVariant(OneofKind::ActivityResultStatus)));
}

#[test]
fn activity_result_with_two_variants_is_refused() {
    let r = decode_activity_result(WireActivityResult {
        completed: Some(WireSuccess { result: None }),
        failed: None,
        canceled: Some(WireCancelation { details: None }),
    });
    assert_eq!(r, Err(DecodeError::MultipleVariants(OneofKind::ActivityResultStatus)));
}

#[test]
fn activity_result_with_one_variant_decodes() {
    let r = decode_activity_result(WireActivityResult {
        completed: Some(WireSuccess { result: None }),
        failed: None,
        canceled: None,
    });
    assert!(matches!(
        r,
        Ok(temporal_worker_protocol::activity_result::ActivityResult::Completed(Success {
            result: None,
        }))
    ));
}

#[test]
fn activity_task_with_no_variant_is_refused() {
    let r = decode_activity_task(WireActivityTask {
        task_token: b"t".to_vec(),
        activity_id: "a".to_string(),
        start: None,
        cancel: None,
    });
    assert_eq!(r, Err(DecodeError::MissingVariant(OneofKind::ActivityTaskVariant)));
}

#[test]
fn activity_task_with_one_variant_decodes() {
    let r = decode_activity_task(WireActivityTask {
        task_token: b"t".to_vec(),
        activity_id: "a".to_string(),
        start: None,
        cancel: Some(WireCancel { reason: 2 }),
    });
    assert!(r.is_ok());
}

#[test]
fn activation_job_with_no_variant_is_refused() {
    let r = decode_wf_activation_job(empty_wire_job());
    assert_eq!(r, Err(DecodeError::MissingVariant(OneofKind::WfActivationJobVariant)));
}

#[test]
fn activation_job_with_two_variants_is_refused() {
    let mut w = empty_wire_job();
    w.fire_timer = Some(WireFireTimer { timer_id: "t1".to_string() });
    w.update_random_seed = Some(WireUpdateRandomSeed { randomness_seed: 3 });
    let r = decode_wf_activation_job(w);
    assert_eq!(r, Err(DecodeError::MultipleVariants(OneofKind::WfActivationJobVariant)));
}

#[test]
fn nested_activity_result_violation_fails_the_job() {
    let mut w = empty_wire_job();
    w.resolve_activity = Some(WireResolveActivity {
        activity_id: "act-1".to_string(),
        result: Some(WireActivityResult { completed: None, failed: None, canceled: None }),
    });
    let r = decode_wf_activation_job(w);
    assert_eq!(r, Err(DecodeError::MissingVariant(OneofKind::ActivityResultStatus)));
}

#[test]
fn workflow_command_with_no_variant_is_refused() {
    let r = decode_workflow_command(empty_wire_command());
    assert_eq!(r, Err(DecodeError::MissingVariant(OneofKind::WorkflowCommandVariant)));
}

#[test]
fn workflow_command_with_two_variants_is_refused() {
    let mut w = empty_wire_command();
    w.start_timer = Some(WireStartTimer { timer_id: "t1".to_string(), start_to_fire_timeout: None });
    w.cancel_timer = Some(WireCancelTimer { timer_id: "t1".to_string() });
    let r = decode_workflow_command(w);
    assert_eq!(r, Err(DecodeError::MultipleVariants(OneofKind::WorkflowCommandVariant)));
}

#[test]
fn query_result_with_no_variant_is_refused() {
    let r = decode_query_result(WireQueryResult {
        query_id: "q-1".to_string(),
        succeeded: None,
        failed: None,
    });
    assert_eq!(r, Err(DecodeError::MissingVariant(OneofKind::QueryResultVariant)));
}

#[test]
fn query_result_with_one_variant_decodes() {
    let r = decode_query_result(WireQueryResult {
        query_id: "q-1".to_string(),
        succeeded: Some(WireQuerySuccess { response: None }),
        failed: None,
    });
    assert!(r.is_ok());
}

#[test]
fn completion_with_no_status_is_refused() {
    let r = decode_wf_activation_completion(WireWfActivationCompletion {
        run_id: "run-1".to_string(),
        successful: None,
        failed: None,
    });
    assert_eq!(r, Err(DecodeError::MissingVariant(OneofKind::WfActivationCompletionStatus)));
}

#[test]
fn completion_with_both_statuses_is_refused() {
    let r = decode_wf_activation_completion(WireWfActivationCompletion {
        run_id: "run-1".to_string(),
        successful: Some(WireCompletionSuccess { commands: vec![] }),
        failed: Some(WireCompletionFailure { failure: None }),
    });
    assert_eq!(r, Err(DecodeError::MultipleVariants(OneofKind::WfActivationCompletionStatus)));
}

#[test]
fn retry_policy_with_out_of_range_interval_is_refused() {
    let r = decode_retry_policy(WireRetryPolicy {
        initial_interval: Some(WireDuration { seconds: i64::MAX, nanos: 999_999_999 }),
        backoff_coefficient_bits: 0,
        maximum_interval: None,
        maximum_attempts: 1,
        non_retryable_error_types: vec![],
    });
    assert_eq!(
        r,
        Err(DecodeError::TimeOutOfRange(
            TimeField::RetryInitialInterval,
            RangeError { seconds: i64::MAX, nanos: 999_999_999 },
        ))
    );
}

#[test]
fn activation_with_malformed_timestamp_is_refused() {
    let r = decode_wf_activation(WireWfActivation {
        run_id: "run-1".to_string(),
        timestamp: Some(WireTimestamp { seconds: 0, nanos: -7 }),
        is_replaying: false,
        jobs: vec![],
    });
    assert_eq!(
        r,
        Err(DecodeError::TimeOutOfRange(
            TimeField::ActivationTimestamp,
            RangeError { seconds: 0, nanos: -7 },
        ))
    );
}

#[test]
fn remove_from_cache_job_decodes_alone() {
    let mut w = empty_wire_job();
    w.remove_from_cache = Some(true);
    let r = decode_wf_activation_job(w).unwrap();
    assert!(matches!(
        r,
        temporal_worker_protocol::workflow_activation::WfActivationJob::RemoveFromCache(true)
    ));
}
