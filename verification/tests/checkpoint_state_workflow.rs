use llm_workflow::checkpoint::checkpoint_signal;
use llm_workflow::json::Snapshot;
use llm_workflow::state::settle;
use llm_workflow::workflow::conclude;
use llm_workflow::{
    BoxedStepExt, CheckpointStep, ConditionalCheckpointStep, Error, ExecutionContext,
    InstrumentedStep, LambdaStateStep, LambdaStep, StateStep, StateWorkflow, Step, StepAdapter,
    Workflow,
};
use serde::ser::SerializeStruct;
use std::cell::Cell;

#[derive(Debug)]
struct Opaque;

impl Snapshot for Opaque {
    fn encoding(&self) -> Option<serde_json::Value> {
        None
    }

    fn snapshot(&self) -> Option<serde_json::Value> {
        None
    }
}

#[derive(Debug)]
struct Point {
    x: i32,
    y: i32,
}

impl serde::Serialize for Point {
    fn serialize<S: serde::Serializer>(&self, serializer: S) -> Result<S::Ok, S::Error> {
        let mut state = serializer.serialize_struct("Point", 2)?;
        state.serialize_field("x", &self.x)?;
        state.serialize_field("y", &self.y)?;
        state.end()
    }
}

impl Snapshot for Point {
    fn encoding(&self) -> Option<serde_json::Value> {
        serde_json::to_value(self).ok()
    }

    fn snapshot(&self) -> Option<serde_json::Value> {
        serde_json::to_value(self).ok()
    }
}

fn counting(count: u32, x: i32) -> Result<(String, u32), Error> {
    Ok((format!("#{}: {}", count, x), count + 1))
}

fn counting_fails_on_negative(count: u32, x: i32) -> Result<(String, u32), Error> {
    if x < 0 {
        Err(Error::Execution("negative".to_string()))
    } else {
        Ok((format!("#{}: {}", count, x), count + 1))
    }
}

#[test]
fn checkpoint_always_pauses_with_name_and_snapshot() {
    let cp = CheckpointStep::<i32>::new("review");
    let mut ctx = ExecutionContext::new();
    let err = cp.run(&mut ctx, 42).unwrap_err();
    match err {
        Error::Checkpoint { step_name, data } => {
            assert_eq!(step_name, "review");
            assert_eq!(data, serde_json::Value::from(42));
        }
        other => panic!("expected Checkpoint error, got {:?}", other),
    }
    assert!(ctx.trace_snapshot().is_empty());
    assert_eq!(ctx.snapshot().steps_completed, 0);
    assert_eq!(cp.name(), "review");
}

#[test]
fn checkpoint_pauses_on_every_invocation() {
    let cp = CheckpointStep::<String>::new("gate");
    let mut ctx = ExecutionContext::new();
    for text in ["a", "b", "c"] {
        let err = cp.run(&mut ctx, text.to_string()).unwrap_err();
        assert!(err.is_checkpoint());
        assert!(matches!(err, Error::Checkpoint { ref step_name, ref data }
            if step_name == "gate" && *data == serde_json::Value::String(text.to_string())));
    }
}

#[test]
fn checkpoint_snapshot_of_a_structured_value() {
    let cp = CheckpointStep::<Point>::new("shape");
    let mut ctx = ExecutionContext::new();
    let err = cp.run(&mut ctx, Point { x: 1, y: -2 }).unwrap_err();
    let mut expected = serde_json::Map::new();
    expected.insert("x".to_string(), serde_json::Value::from(1));
    expected.insert("y".to_string(), serde_json::Value::from(-2));
    assert!(matches!(err, Error::Checkpoint { ref data, .. }
        if *data == serde_json::Value::Object(expected.clone())));
}

#[test]
fn checkpoint_degrades_to_placeholder_when_encoding_fails() {
    let cp = CheckpointStep::<Opaque>::new("opaque");
    let mut ctx = ExecutionContext::new();
    let outcome = cp.run(&mut ctx, Opaque);
    match outcome {
        Err(Error::Checkpoint { step_name, data }) => {
            assert_eq!(step_name, "opaque");
            assert_eq!(data, serde_json::Value::String("<serialization_error>".to_string()));
        }
        _ => panic!("expected Checkpoint error"),
    }
}

#[test]
fn checkpoint_signal_carries_name_and_payload() {
    let signal = checkpoint_signal("manual", Some(serde_json::Value::Bool(false)));
    assert!(matches!(signal, Error::Checkpoint { ref step_name, ref data }
        if step_name == "manual" && *data == serde_json::Value::Bool(false)));
    let degraded = checkpoint_signal("manual", None);
    assert!(matches!(degraded, Error::Checkpoint { ref step_name, ref data }
        if step_name == "manual"
            && *data == serde_json::Value::String("<serialization_error>".to_string())));
    assert_eq!(degraded.describe(), "Checkpoint reached at step 'manual'");
}

#[test]
fn conditional_checkpoint_passes_through_when_predicate_is_false() {
    let cp = ConditionalCheckpointStep::<i32, _>::new("high-value", |x: &i32| *x > 100);
    let mut ctx = ExecutionContext::new();
    assert_eq!(cp.run(&mut ctx, 50).unwrap(), 50);
    assert_eq!(cp.run(&mut ctx, 100).unwrap(), 100);
    assert!(ctx.trace_snapshot().is_empty());
    assert_eq!(cp.name(), "high-value");
}

#[test]
fn conditional_checkpoint_pauses_when_predicate_is_true() {
    let evaluations = Cell::new(0usize);
    let cp = ConditionalCheckpointStep::<i32, _>::new("high-value", |x: &i32| {
        evaluations.set(evaluations.get() + 1);
        *x > 100
    });
    let mut ctx = ExecutionContext::new();
    let err = cp.run(&mut ctx, 200).unwrap_err();
    assert!(matches!(err, Error::Checkpoint { ref step_name, ref data }
        if step_name == "high-value" && *data == serde_json::Value::from(200)));
    assert_eq!(evaluations.get(), 1);
}

#[test]
fn checkpoint_in_a_chain_halts_the_pipeline() {
    let after_calls = Cell::new(0usize);
    let pipeline = LambdaStep::new(|x: i32| -> Result<i32, Error> { Ok(x * 2) })
        .then(ConditionalCheckpointStep::<i32, _>::new("limit", |x: &i32| *x >= 10))
        .then(LambdaStep::new(|x: i32| -> Result<i32, Error> {
            after_calls.set(after_calls.get() + 1);
            Ok(x + 1)
        }));
    let mut ctx = ExecutionContext::new();
    assert_eq!(pipeline.run(&mut ctx, 2).unwrap(), 5);
    assert_eq!(after_calls.get(), 1);
    let err = pipeline.run(&mut ctx, 5).unwrap_err();
    assert!(matches!(err, Error::Checkpoint { ref step_name, ref data }
        if step_name == "limit" && *data == serde_json::Value::from(10)));
    assert_eq!(after_calls.get(), 1);
}

#[test]
fn instrumented_checkpoint_counts_as_failure_not_step() {
    let step = InstrumentedStep::new(CheckpointStep::<i32>::new("review"), "observed", "i32");
    let mut ctx = ExecutionContext::new();
    assert!(step.run(&mut ctx, 1).unwrap_err().is_checkpoint());
    let m = ctx.snapshot();
    assert_eq!(m.steps_completed, 0);
    assert_eq!(m.failures, vec!["Checkpoint reached at step 'review'".to_string()]);
}

#[test]
fn lambda_state_step_returns_output_and_new_state() {
    let step = LambdaStateStep::new(counting);
    let mut ctx = ExecutionContext::new();
    let (out, new_count) = step.run(&mut ctx, 0u32, 42i32).unwrap();
    assert_eq!(out, "#0: 42");
    assert_eq!(new_count, 1);
    let (out, new_count) = step.run(&mut ctx, 7u32, 1i32).unwrap();
    assert_eq!(out, "#7: 1");
    assert_eq!(new_count, 8);
    assert!(ctx.trace_snapshot().is_empty());
}

#[test]
fn state_workflow_threads_caller_owned_state() {
    let workflow = StateWorkflow::new(LambdaStateStep::new(counting));
    assert_eq!(workflow.name(), "state_workflow");
    let workflow = workflow.with_name("counter");
    assert_eq!(workflow.name(), "counter");
    let (out, state) = workflow.run(0, 10).unwrap();
    assert_eq!(out, "#0: 10");
    let (out, state) = workflow.run(state, 20).unwrap();
    assert_eq!(out, "#1: 20");
    assert_eq!(state, 2);
    let mut ctx = ExecutionContext::new();
    let (out, state) = workflow.run_with_ctx(&mut ctx, state, 30).unwrap();
    assert_eq!(out, "#2: 30");
    assert_eq!(state, 3);
}

#[test]
fn state_workflow_returns_the_error() {
    let workflow = StateWorkflow::new(LambdaStateStep::new(counting_fails_on_negative));
    let err = workflow.run(0, -1).unwrap_err();
    assert!(matches!(err, Error::Execution(ref m) if m == "negative"));
}

#[test]
fn step_adapter_counts_sequential_calls_and_resets() {
    let mut adapter = StepAdapter::new(LambdaStateStep::new(counting));
    let mut ctx = ExecutionContext::new();
    assert_eq!(adapter.run(&mut ctx, 10).unwrap(), "#0: 10");
    assert_eq!(adapter.run(&mut ctx, 20).unwrap(), "#1: 20");
    assert_eq!(adapter.run(&mut ctx, 30).unwrap(), "#2: 30");
    assert_eq!(adapter.state, 3);
    adapter.reset();
    assert_eq!(adapter.state, 0);
    assert_eq!(adapter.run(&mut ctx, 40).unwrap(), "#0: 40");
}

#[test]
fn step_adapter_starts_from_default_state() {
    let adapter = StepAdapter::new(LambdaStateStep::new(counting));
    assert_eq!(adapter.state, 0);
}

#[test]
fn step_adapter_failure_leaves_state_unchanged() {
    let mut adapter = StepAdapter::new(LambdaStateStep::new(counting_fails_on_negative));
    let mut ctx = ExecutionContext::new();
    assert_eq!(adapter.run(&mut ctx, 1).unwrap(), "#0: 1");
    let err = adapter.run(&mut ctx, -1).unwrap_err();
    assert!(matches!(err, Error::Execution(ref m) if m == "negative"));
    assert_eq!(adapter.state, 1);
    assert_eq!(adapter.run(&mut ctx, 2).unwrap(), "#1: 2");
    assert_eq!(adapter.state, 2);
}

#[test]
fn step_adapter_settle_commits_only_success() {
    let mut held = 0u32;
    assert_eq!(settle(&mut held, Ok(("out".to_string(), 5))).unwrap(), "out");
    assert_eq!(held, 5);
    let failed: Result<(String, u32), Error> = Err(Error::Message("no".to_string()));
    let err = settle(&mut held, failed).unwrap_err();
    assert!(matches!(err, Error::Message(ref m) if m == "no"));
    assert_eq!(held, 5);
}

#[test]
fn workflow_double_then_add_ten_on_five() {
    let step_a = LambdaStep::new(|x: i32| -> Result<i32, Error> { Ok(x * 2) });
    let step_b = LambdaStep::new(|x: i32| -> Result<i32, Error> { Ok(x + 10) });
    let pipeline = step_a.then(step_b);
    let workflow = Workflow::new(pipeline).with_name("DoubleAndAdd");
    let (result, metrics) = workflow.run(5).unwrap();
    assert_eq!(result, 20);
    assert_eq!(metrics.steps_completed, 1);
    assert_eq!(metrics.total_token_count, 0);
    assert!(metrics.failures.is_empty());
    assert_eq!(workflow.name(), "DoubleAndAdd");
}

#[test]
fn workflow_default_name_and_accessors() {
    let workflow = Workflow::new(LambdaStep::new(|x: i32| -> Result<i32, Error> { Ok(x * 2) }));
    assert_eq!(workflow.name(), "workflow");
    assert_eq!(workflow.inner().name(), "LambdaStep");
    let (result, _metrics) = workflow.run(5).unwrap();
    assert_eq!(result, 10);
    let step = workflow.into_inner();
    let mut ctx = ExecutionContext::new();
    assert_eq!(step.run(&mut ctx, 3).unwrap(), 6);
}

#[test]
fn workflow_each_run_starts_from_fresh_metrics() {
    let workflow = Workflow::new(InstrumentedStep::new(
        LambdaStep::new(|x: i32| -> Result<i32, Error> { Ok(x) }),
        "inner",
        "i32",
    ));
    let (_, first) = workflow.run(1).unwrap();
    let (_, second) = workflow.run(2).unwrap();
    assert_eq!(first.steps_completed, 2);
    assert_eq!(second.steps_completed, 2);
}

#[test]
fn workflow_failure_returns_error_without_metrics() {
    let workflow = Workflow::new(LambdaStep::new(|x: i32| -> Result<i32, Error> {
        Err(Error::Validation(format!("bad {}", x)))
    }));
    let err = workflow.run(5).unwrap_err();
    assert!(matches!(err, Error::Validation(ref m) if m == "bad 5"));
}

#[test]
fn workflow_run_with_ctx_accumulates_and_records_nothing_itself() {
    let workflow = Workflow::new(InstrumentedStep::new(
        LambdaStep::new(|x: i32| -> Result<i32, Error> { Ok(x + 1) }),
        "inc",
        "i32",
    ));
    let mut ctx = ExecutionContext::new();
    assert_eq!(workflow.run_with_ctx(&mut ctx, 1).unwrap(), 2);
    assert_eq!(workflow.run_with_ctx(&mut ctx, 2).unwrap(), 3);
    assert_eq!(ctx.snapshot().steps_completed, 2);
    assert_eq!(ctx.trace_snapshot().len(), 4);
    let plain = Workflow::new(LambdaStep::new(|x: i32| -> Result<i32, Error> { Ok(x) }));
    assert_eq!(plain.run_with_ctx(&mut ctx, 9).unwrap(), 9);
    assert_eq!(ctx.snapshot().steps_completed, 2);
}

#[test]
fn conclude_counts_success_and_passes_failure() {
    let mut ctx = ExecutionContext::new();
    ctx.record_tokens(2, 3);
    let (value, metrics) = conclude(&mut ctx, Ok::<i32, Error>(7)).unwrap();
    assert_eq!(value, 7);
    assert_eq!(metrics.steps_completed, 1);
    assert_eq!(metrics.total_token_count, 5);
    let err = conclude(&mut ctx, Err::<i32, Error>(Error::Message("stop".to_string()))).unwrap_err();
    assert!(matches!(err, Error::Message(ref m) if m == "stop"));
    assert_eq!(ctx.snapshot().steps_completed, 1);
}
