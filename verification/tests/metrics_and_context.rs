use llm_workflow::clock::{epoch_millis, unix_millis_now, Stopwatch};
use llm_workflow::json::{capture, payload_or_placeholder, Snapshot};
use llm_workflow::{Error, ExecutionContext, TraceEntry, WorkflowEvent, WorkflowMetrics};
use serde::ser::SerializeTuple;

struct Unserializable;

impl serde::Serialize for Unserializable {
    fn serialize<S: serde::Serializer>(&self, _serializer: S) -> Result<S::Ok, S::Error> {
        Err(serde::ser::Error::custom("cannot be serialized"))
    }
}

impl Snapshot for Unserializable {
    fn encoding(&self) -> Option<serde_json::Value> {
        serde_json::to_value(self).ok()
    }

    fn snapshot(&self) -> Option<serde_json::Value> {
        serde_json::to_value(self).ok()
    }
}

struct Pair(i32, String);

impl serde::Serialize for Pair {
    fn serialize<S: serde::Serializer>(&self, serializer: S) -> Result<S::Ok, S::Error> {
        let mut tuple = serializer.serialize_tuple(2)?;
        tuple.serialize_element(&self.0)?;
        tuple.serialize_element(&self.1)?;
        tuple.end()
    }
}

impl Snapshot for Pair {
    fn encoding(&self) -> Option<serde_json::Value> {
        serde_json::to_value(self).ok()
    }

    fn snapshot(&self) -> Option<serde_json::Value> {
        serde_json::to_value(self).ok()
    }
}

#[test]
fn metrics_start_at_zero() {
    let m = WorkflowMetrics::default();
    assert_eq!(m.prompt_token_count, 0);
    assert_eq!(m.completion_token_count, 0);
    assert_eq!(m.total_token_count, 0);
    assert_eq!(m.steps_completed, 0);
    assert!(m.failures.is_empty());
    assert!(!m.has_failures());
    assert_eq!(m.total_tokens(), 0);
}

#[test]
fn metrics_add_prompt_tokens_updates_prompt_and_total() {
    let mut m = WorkflowMetrics::default();
    m.add_prompt_tokens(7);
    assert_eq!(m.prompt_token_count, 7);
    assert_eq!(m.completion_token_count, 0);
    assert_eq!(m.total_token_count, 7);
}

#[test]
fn metrics_add_completion_tokens_updates_completion_and_total() {
    let mut m = WorkflowMetrics::default();
    m.add_completion_tokens(11);
    assert_eq!(m.prompt_token_count, 0);
    assert_eq!(m.completion_token_count, 11);
    assert_eq!(m.total_token_count, 11);
}

#[test]
fn metrics_add_tokens_updates_all_three() {
    let mut m = WorkflowMetrics::default();
    m.add_tokens(3, 4);
    assert_eq!(m.prompt_token_count, 3);
    assert_eq!(m.completion_token_count, 4);
    assert_eq!(m.total_token_count, 7);
    assert_eq!(m.total_tokens(), 7);
}

#[test]
fn metrics_total_is_sum_of_everything_recorded() {
    let mut m = WorkflowMetrics::default();
    m.add_tokens(10, 20);
    m.add_prompt_tokens(5);
    m.add_completion_tokens(6);
    m.add_tokens(0, 1);
    m.record_step();
    m.record_failure("boom".to_string());
    m.record_step();
    assert_eq!(m.prompt_token_count, 15);
    assert_eq!(m.completion_token_count, 27);
    assert_eq!(m.total_token_count, 42);
    assert_eq!(m.total_token_count, m.prompt_token_count + m.completion_token_count);
    assert_eq!(m.steps_completed, 2);
    assert_eq!(m.failures.len(), 1);
}

#[test]
fn metrics_add_zero_tokens_changes_nothing() {
    let mut m = WorkflowMetrics::default();
    m.add_tokens(0, 0);
    m.add_prompt_tokens(0);
    m.add_completion_tokens(0);
    assert_eq!(m.total_token_count, 0);
}

#[test]
fn metrics_failures_keep_order() {
    let mut m = WorkflowMetrics::default();
    m.record_failure("first".to_string());
    m.record_failure("second".to_string());
    assert!(m.has_failures());
    assert_eq!(m.failures, vec!["first".to_string(), "second".to_string()]);
    assert_eq!(m.steps_completed, 0);
}

#[test]
fn metrics_clone_is_equal_and_independent() {
    let mut m = WorkflowMetrics::default();
    m.add_tokens(1, 2);
    m.record_step();
    m.record_failure("x".to_string());
    let copy = m.clone();
    m.record_step();
    assert_eq!(copy.prompt_token_count, 1);
    assert_eq!(copy.completion_token_count, 2);
    assert_eq!(copy.total_token_count, 3);
    assert_eq!(copy.steps_completed, 1);
    assert_eq!(copy.failures, vec!["x".to_string()]);
    assert_eq!(m.steps_completed, 2);
}

#[test]
fn context_starts_empty() {
    let ctx = ExecutionContext::new();
    let m = ctx.snapshot();
    assert_eq!(m.total_token_count, 0);
    assert_eq!(m.steps_completed, 0);
    assert!(ctx.trace_snapshot().is_empty());
    let d = ExecutionContext::default();
    assert_eq!(d.snapshot().steps_completed, 0);
    assert!(d.trace_snapshot().is_empty());
}

#[test]
fn context_records_tokens_and_keeps_total_consistent() {
    let mut ctx = ExecutionContext::new();
    ctx.record_prompt_tokens(5);
    ctx.record_completion_tokens(8);
    ctx.record_tokens(2, 3);
    let m = ctx.snapshot();
    assert_eq!(m.prompt_token_count, 7);
    assert_eq!(m.completion_token_count, 11);
    assert_eq!(m.total_token_count, 18);
    assert_eq!(m.total_token_count, m.prompt_token_count + m.completion_token_count);
}

#[test]
fn context_records_steps_and_failures() {
    let mut ctx = ExecutionContext::new();
    ctx.record_step();
    ctx.record_step();
    ctx.record_failure("went wrong".to_string());
    let m = ctx.snapshot();
    assert_eq!(m.steps_completed, 2);
    assert_eq!(m.failures, vec!["went wrong".to_string()]);
    assert!(m.has_failures());
}

#[test]
fn context_snapshot_is_a_copy() {
    let mut ctx = ExecutionContext::new();
    ctx.record_step();
    let before = ctx.snapshot();
    ctx.record_step();
    assert_eq!(before.steps_completed, 1);
    assert_eq!(ctx.snapshot().steps_completed, 2);
}

#[test]
fn context_emit_appends_in_order_with_timestamps() {
    let mut ctx = ExecutionContext::new();
    ctx.emit(WorkflowEvent::StepStart {
        step_name: "Summarize".to_string(),
        input_type: "String".to_string(),
    });
    ctx.emit(WorkflowEvent::StepEnd { step_name: "Summarize".to_string(), duration_ms: 12 });
    let traces = ctx.trace_snapshot();
    assert_eq!(traces.len(), 2);
    match &traces[0].event {
        WorkflowEvent::StepStart { step_name, input_type } => {
            assert_eq!(step_name, "Summarize");
            assert_eq!(input_type, "String");
        }
        other => panic!("unexpected event {:?}", other),
    }
    match &traces[1].event {
        WorkflowEvent::StepEnd { step_name, duration_ms } => {
            assert_eq!(step_name, "Summarize");
            assert_eq!(*duration_ms, 12);
        }
        other => panic!("unexpected event {:?}", other),
    }
    assert!(traces[0].timestamp > 1_500_000_000_000);
    assert!(traces[0].timestamp <= traces[1].timestamp);
    assert_eq!(ctx.snapshot().steps_completed, 0);
}

#[test]
fn context_push_entry_keeps_the_given_timestamp() {
    let mut ctx = ExecutionContext::new();
    let entry = TraceEntry::at(
        42,
        WorkflowEvent::Error { step_name: "s".to_string(), message: "m".to_string() },
    );
    ctx.push_entry(entry);
    let traces = ctx.trace_snapshot();
    assert_eq!(traces.len(), 1);
    assert_eq!(traces[0].timestamp, 42);
    assert!(matches!(&traces[0].event, WorkflowEvent::Error { step_name, message }
        if step_name == "s" && message == "m"));
}

#[test]
fn context_emit_artifact_encodes_the_value() {
    let mut ctx = ExecutionContext::new();
    ctx.emit_artifact("Analysis", "score", &95i32);
    let traces = ctx.trace_snapshot();
    assert_eq!(traces.len(), 1);
    match &traces[0].event {
        WorkflowEvent::Artifact { step_name, key, data } => {
            assert_eq!(step_name, "Analysis");
            assert_eq!(key, "score");
            assert_eq!(*data, serde_json::Value::from(95));
        }
        other => panic!("unexpected event {:?}", other),
    }
}

#[test]
fn context_emit_artifact_degrades_to_placeholder() {
    let mut ctx = ExecutionContext::new();
    ctx.emit_artifact("Analysis", "broken", &Unserializable);
    let traces = ctx.trace_snapshot();
    assert_eq!(traces.len(), 1);
    match &traces[0].event {
        WorkflowEvent::Artifact { step_name, key, data } => {
            assert_eq!(step_name, "Analysis");
            assert_eq!(key, "broken");
            assert_eq!(*data, serde_json::Value::String("<serialization_error>".to_string()));
        }
        other => panic!("unexpected event {:?}", other),
    }
}

#[test]
fn context_emit_artifact_value_keeps_the_payload() {
    let mut ctx = ExecutionContext::new();
    let payload = serde_json::Value::Array(vec![serde_json::Value::from(1), serde_json::Value::Null]);
    ctx.emit_artifact_value("s", "k", payload.clone());
    let traces = ctx.trace_snapshot();
    assert!(matches!(&traces[0].event, WorkflowEvent::Artifact { data, .. } if *data == payload));
}

#[test]
fn context_clear_traces_keeps_metrics() {
    let mut ctx = ExecutionContext::new();
    ctx.record_tokens(1, 1);
    ctx.record_step();
    ctx.emit(WorkflowEvent::StepEnd { step_name: "a".to_string(), duration_ms: 0 });
    ctx.clear_traces();
    assert!(ctx.trace_snapshot().is_empty());
    let m = ctx.snapshot();
    assert_eq!(m.total_token_count, 2);
    assert_eq!(m.steps_completed, 1);
    ctx.emit(WorkflowEvent::StepEnd { step_name: "b".to_string(), duration_ms: 0 });
    assert_eq!(ctx.trace_snapshot().len(), 1);
}

#[test]
fn trace_entry_new_stamps_current_time() {
    let before = unix_millis_now();
    let entry = TraceEntry::new(WorkflowEvent::StepStart {
        step_name: "Summarize".to_string(),
        input_type: "String".to_string(),
    });
    let after = unix_millis_now();
    assert!(before > 1_500_000_000_000);
    assert!(before <= entry.timestamp);
    assert!(entry.timestamp <= after);
    assert!(matches!(&entry.event, WorkflowEvent::StepStart { step_name, input_type }
        if step_name == "Summarize" && input_type == "String"));
}

#[test]
fn trace_entry_clone_is_equal() {
    let entry = TraceEntry::at(
        7,
        WorkflowEvent::Artifact {
            step_name: "Analysis".to_string(),
            key: "score".to_string(),
            data: serde_json::Value::from(95),
        },
    );
    let copy = entry.clone();
    assert_eq!(copy.timestamp, 7);
    assert!(matches!(&copy.event, WorkflowEvent::Artifact { step_name, key, data }
        if step_name == "Analysis" && key == "score" && *data == serde_json::Value::from(95)));
}

#[test]
fn epoch_millis_is_the_reading_or_zero_before_the_epoch() {
    assert_eq!(epoch_millis(None), 0);
    assert_eq!(epoch_millis(Some(0)), 0);
    assert_eq!(epoch_millis(Some(1)), 1);
    assert_eq!(epoch_millis(Some(1_700_000_000_123)), 1_700_000_000_123);
    assert_eq!(epoch_millis(Some(u128::MAX)), u128::MAX);
}

#[test]
fn unix_millis_now_agrees_with_the_system_clock() {
    let before = std::time::SystemTime::now()
        .duration_since(std::time::UNIX_EPOCH)
        .unwrap()
        .as_millis();
    let reading = unix_millis_now();
    let after = std::time::SystemTime::now()
        .duration_since(std::time::UNIX_EPOCH)
        .unwrap()
        .as_millis();
    assert!(before <= reading);
    assert!(reading <= after);
}

#[test]
fn stopwatch_measures_elapsed_time() {
    let watch = Stopwatch::start();
    let first = watch.elapsed_millis();
    assert!(first < 10_000);
    let mut latest = first;
    let mut spins: u64 = 0;
    while latest < first + 5 {
        latest = watch.elapsed_millis();
        spins += 1;
        assert!(spins < 10_000_000_000);
    }
    assert!(latest >= first + 5);
    assert!(watch.elapsed_millis() >= latest);
}

#[test]
fn payload_is_value_or_placeholder() {
    let value = serde_json::Value::Bool(true);
    assert_eq!(payload_or_placeholder(Some(value.clone())), value);
    assert_eq!(
        payload_or_placeholder(None),
        serde_json::Value::String("<serialization_error>".to_string())
    );
}

#[test]
fn capture_encodes_or_degrades() {
    assert_eq!(capture(&42u64), serde_json::Value::from(42u64));
    assert_eq!(capture(&"hi".to_string()), serde_json::Value::String("hi".to_string()));
    assert_eq!(
        capture(&Unserializable),
        serde_json::Value::String("<serialization_error>".to_string())
    );
    assert_eq!(Unserializable.snapshot(), None);
    let pair = Pair(1, "one".to_string());
    let expected = serde_json::Value::Array(vec![
        serde_json::Value::from(1),
        serde_json::Value::String("one".to_string()),
    ]);
    assert_eq!(capture(&pair), expected);
}

#[test]
fn snapshot_of_scalars_and_strings() {
    assert_eq!(42i32.snapshot(), Some(serde_json::Value::from(42)));
    assert_eq!((-3i64).snapshot(), Some(serde_json::Value::from(-3)));
    assert_eq!(7usize.snapshot(), Some(serde_json::Value::from(7)));
    assert_eq!((-128i8).snapshot(), serde_json::to_value(-128i8).ok());
    assert_eq!(i16::MIN.snapshot(), serde_json::to_value(i16::MIN).ok());
    assert_eq!(i32::MIN.snapshot(), serde_json::to_value(i32::MIN).ok());
    assert_eq!(i64::MIN.snapshot(), serde_json::to_value(i64::MIN).ok());
    assert_eq!(i64::MAX.snapshot(), serde_json::to_value(i64::MAX).ok());
    assert_eq!((-5isize).snapshot(), serde_json::to_value(-5isize).ok());
    assert_eq!(255u8.snapshot(), serde_json::to_value(255u8).ok());
    assert_eq!(u16::MAX.snapshot(), serde_json::to_value(u16::MAX).ok());
    assert_eq!(u32::MAX.snapshot(), serde_json::to_value(u32::MAX).ok());
    assert_eq!(u64::MAX.snapshot(), serde_json::to_value(u64::MAX).ok());
    assert_eq!(u64::MAX.snapshot(), Some(serde_json::Value::from(u64::MAX)));
    assert_eq!(5i64.snapshot(), 5u64.snapshot());
    assert_ne!(5i64.snapshot(), 6i64.snapshot());
    assert_eq!(true.snapshot(), Some(serde_json::Value::Bool(true)));
    assert_eq!(false.snapshot(), Some(serde_json::Value::Bool(false)));
    assert_eq!("a".to_string().snapshot(), Some(serde_json::Value::String("a".to_string())));
    let v = serde_json::Value::from(vec![1, 2, 3]);
    assert_eq!(v.snapshot(), Some(v.clone()));
}

#[test]
fn error_describe_renders_each_variant() {
    let checkpoint =
        Error::Checkpoint { step_name: "review".to_string(), data: serde_json::Value::Null };
    assert_eq!(checkpoint.describe(), "Checkpoint reached at step 'review'");
    assert_eq!(Error::Validation("bad".to_string()).describe(), "Validation error: bad");
    assert_eq!(Error::Execution("crash".to_string()).describe(), "Execution error: crash");
    assert_eq!(Error::Json("eof".to_string()).describe(), "JSON error: eof");
    assert_eq!(Error::Message("plain".to_string()).describe(), "plain");
    assert_eq!(Error::Message(String::new()).describe(), "");
}

#[test]
fn error_is_checkpoint_tells_pause_from_fault() {
    let checkpoint =
        Error::Checkpoint { step_name: "review".to_string(), data: serde_json::Value::Null };
    assert!(checkpoint.is_checkpoint());
    assert!(!Error::Validation("v".to_string()).is_checkpoint());
    assert!(!Error::Execution("e".to_string()).is_checkpoint());
    assert!(!Error::Json("j".to_string()).is_checkpoint());
    assert!(!Error::Message("m".to_string()).is_checkpoint());
}

#[test]
fn error_from_text_is_a_message() {
    let from_string: Error = Error::from("owned".to_string());
    assert!(matches!(from_string, Error::Message(ref m) if m == "owned"));
    let from_str: Error = Error::from("borrowed");
    assert!(matches!(from_str, Error::Message(ref m) if m == "borrowed"));
    let converted: Error = "into".into();
    assert!(matches!(converted, Error::Message(ref m) if m == "into"));
}
