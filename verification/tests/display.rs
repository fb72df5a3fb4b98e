use durable_trace::display::{status_kind, StatusKind};
use durable_trace::timestamp::Timestamp;
use durable_trace::trace::{DurableTrace, StepTrace, TaskInfo};

const T: i64 = 1_714_557_600;

fn at(secs: i64, nanos: u32) -> Timestamp {
    Timestamp { secs, nanos }
}

fn task(id: &str) -> TaskInfo {
    TaskInfo {
        id: id.to_string(),
        task_name: "charge".to_string(),
        execution_time: at(T, 0),
        consecutive_failures: 2,
        execution_version: 3,
        last_failure: Some(at(T - 60, 0)),
        last_success: None,
    }
}

fn step(scheduled: Timestamp, completed: Option<Timestamp>) -> StepTrace {
    StepTrace {
        durable_step_id: "step-1".to_string(),
        result: None,
        scheduled_at: scheduled,
        completed_at: completed,
        in_task_info: task("in"),
        out_task_info: None,
    }
}

fn trace(completed: Option<Timestamp>) -> DurableTrace {
    DurableTrace {
        name: "order".to_string(),
        durable_execution_id: "exec-1".to_string(),
        scheduled_at: at(T, 0),
        completed_at: completed,
        payload: None,
        result: None,
        is_error: None,
        status: "completed".to_string(),
        failure_reason: None,
        failure_source: None,
        version: 1,
        steps: Vec::new(),
    }
}

#[test]
fn known_statuses_keep_their_kind() {
    assert_eq!(status_kind("running"), StatusKind::Running);
    assert_eq!(status_kind("failed"), StatusKind::Failed);
    assert_eq!(status_kind("completed"), StatusKind::Completed);
}

#[test]
fn any_other_status_is_unknown() {
    assert_eq!(status_kind(""), StatusKind::Unknown);
    assert_eq!(status_kind("Running"), StatusKind::Unknown);
    assert_eq!(status_kind("cancelled"), StatusKind::Unknown);
    assert_eq!(status_kind("unknown"), StatusKind::Unknown);
}

#[test]
fn status_labels() {
    assert_eq!(StatusKind::Running.label(), "running");
    assert_eq!(StatusKind::Failed.label(), "failed");
    assert_eq!(StatusKind::Completed.label(), "completed");
    assert_eq!(StatusKind::Unknown.label(), "unknown");
}

#[test]
fn trace_status_kind_reads_the_status_field() {
    let mut t = trace(None);
    assert_eq!(t.status_kind(), StatusKind::Completed);
    t.status = "weird".to_string();
    assert_eq!(t.status_kind(), StatusKind::Unknown);
}

#[test]
fn step_times_are_written_in_rfc3339() {
    let s = step(at(T, 0), Some(at(T + 10, 500_000_000)));
    assert_eq!(s.scheduled_at_text(), "2024-05-01T10:00:00+00:00");
    assert_eq!(s.completed_at_text(), "2024-05-01T10:00:10.500+00:00");
}

#[test]
fn step_without_completion_shows_a_dash() {
    assert_eq!(step(at(T, 0), None).completed_at_text(), "-");
}

#[test]
fn step_duration_counts_whole_seconds() {
    assert_eq!(step(at(T, 0), Some(at(T + 10, 500_000_000))).duration_text(), "10 seconds");
    assert_eq!(step(at(T, 0), Some(at(T, 999))).duration_text(), "0 seconds");
    assert_eq!(step(at(T, 0), Some(at(T + 1, 0))).duration_text(), "1 seconds");
    assert_eq!(step(at(T + 5, 0), Some(at(T, 0))).duration_text(), "-5 seconds");
}

#[test]
fn step_duration_of_a_running_step() {
    assert_eq!(step(at(T, 0), None).duration_text(), "Not completed");
}

#[test]
fn step_result_defaults_to_a_dash() {
    let mut s = step(at(T, 0), None);
    assert_eq!(s.result_text(), "-");
    s.result = Some("ok".to_string());
    assert_eq!(s.result_text(), "ok");
}

#[test]
fn in_task_text_is_indented_json() {
    let text = step(at(T, 0), None).in_task_text();
    let expected = "{\n  \"consecutiveFailures\": 2,\n  \"executionTime\": \"2024-05-01T10:00:00Z\",\n  \"executionVersion\": 3,\n  \"id\": \"in\",\n  \"lastFailure\": \"2024-05-01T09:59:00Z\",\n  \"lastSuccess\": null,\n  \"taskName\": \"charge\"\n}";
    assert_eq!(text, expected);
}

#[test]
fn out_task_text_is_empty_without_a_follow_up() {
    let mut s = step(at(T, 0), None);
    assert_eq!(s.out_task_text(), "");
    s.out_task_info = Some(task("out"));
    assert!(s.out_task_text().contains("\"id\": \"out\""));
}

#[test]
fn payload_defaults_to_no_payload() {
    let mut t = trace(None);
    assert_eq!(t.payload_text(), "No Payload");
    t.payload = Some("{\"amount\": 5}".to_string());
    assert_eq!(t.payload_text(), "{\"amount\": 5}");
}

#[test]
fn trace_duration_is_a_dash_while_running() {
    assert!(trace(None).has_duration());
    assert_eq!(trace(None).duration_text(), "-");
}

#[test]
fn trace_duration_is_worded() {
    assert_eq!(trace(Some(at(T + 3661, 0))).duration_text(), "1 Hour and 1 Minute");
    assert_eq!(trace(Some(at(T, 5))).duration_text(), "0 Seconds");
    assert_eq!(trace(Some(at(T + 20, 0))).duration_text(), "20 Seconds");
}

#[test]
fn trace_completed_before_it_started_has_no_duration() {
    assert!(!trace(Some(at(T - 1, 0))).has_duration());
    assert!(trace(Some(at(T, 0))).has_duration());
}
