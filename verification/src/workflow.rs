//! High-level workflow container with automatic metrics collection.

use crate::context::{ContextView, ExecutionContext};
use crate::error::Error;
use crate::metrics::{MetricOp, WorkflowMetrics};
use crate::step::Step;
use vstd::prelude::*;

verus! {

/// A high-level workflow wrapper that runs a step and collects execution
/// metrics.
pub struct Workflow<S> {
    /// The step that is run.
    pub step: S,
    /// The name of the workflow.
    pub name: String,
}

/// What a run in a fresh context returns for the `result` of the step that
/// left the context `after`: the output with the metrics of `after` plus one
/// completed step, or the step's error.
pub open spec fn reported<T>(
    after: ContextView,
    result: Result<T, Error>,
    outcome: Result<(T, WorkflowMetrics), Error>,
) -> bool {
    match result {
        Ok(output) => outcome matches Ok((returned, metrics)) && returned == output && metrics@
            == after.metrics.apply(MetricOp::Step),
        Err(error) => outcome == Err::<(T, WorkflowMetrics), Error>(error),
    }
}

/// Concludes a run: a success is counted as one completed step and returned
/// with a snapshot of the metrics; a failure is returned as it is and
/// nothing is counted.
pub fn conclude<T>(ctx: &mut ExecutionContext, result: Result<T, Error>) -> (outcome: Result<
    (T, WorkflowMetrics),
    Error,
>)
    requires
        result is Ok ==> old(ctx)@.metrics.apply(MetricOp::Step).representable(),
    ensures
        reported(old(ctx)@, result, outcome),
        final(ctx)@ == if result is Ok {
            old(ctx)@.record(MetricOp::Step)
        } else {
            old(ctx)@
        },
{
    match result {
        Ok(output) => {
            ctx.record_step();
            let metrics = ctx.snapshot();
            Ok((output, metrics))
        },
        Err(error) => Err(error),
    }
}

impl<S: Step> Workflow<S> {
    /// Create a new workflow wrapping the given step, named `workflow`.
    pub fn new(step: S) -> (workflow: Self)
        ensures
            workflow.step == step,
            workflow.name@ == "workflow"@,
    {
        Workflow { step, name: String::from_str("workflow") }
    }

    /// Set a human-readable name for this workflow.
    pub fn with_name(self, name: &str) -> (workflow: Self)
        ensures
            workflow.step == self.step,
            workflow.name@ == name@,
    {
        Workflow { step: self.step, name: String::from_str(name) }
    }

    /// Returns the name of this workflow.
    pub fn name(&self) -> (name: &str)
        ensures
            name@ == self.name@,
    {
        self.name.as_str()
    }

    /// Whether the workflow may be run on `input`: the step admits it in a
    /// fresh context, and a success can still be counted when it returns.
    pub open spec fn admits(&self, input: S::Input) -> bool {
        &&& self.step.admits(ContextView::empty(), input)
        &&& forall|after: ContextView, output: S::Output| #[trigger]
            self.step.produces(ContextView::empty(), input, after, Ok(output))
                ==> after.metrics.apply(MetricOp::Step).representable()
    }

    /// Run the workflow in a fresh execution context. On success, one
    /// completed step is recorded on top of what the step itself recorded,
    /// and the output is returned with the metrics; a failure of the step is
    /// returned unchanged.
    pub fn run(&self, input: S::Input) -> (outcome: Result<(S::Output, WorkflowMetrics), Error>)
        requires
            self.admits(input),
        ensures
            exists|after: ContextView, result: Result<S::Output, Error>|
                #[trigger] self.step.produces(ContextView::empty(), input, after, result)
                    && reported(after, result, outcome),
    {
        let mut ctx = ExecutionContext::new();
        let result = self.step.run(&mut ctx, input);
        let ghost after = ctx@;
        assert(result matches Ok(output) ==> self.step.produces(
            ContextView::empty(),
            input,
            after,
            Ok(output),
        ));
        conclude(&mut ctx, result)
    }

    /// Run the workflow with a caller-provided execution context, which
    /// keeps accumulating across runs. Nothing is recorded beyond what the
    /// step records.
    pub fn run_with_ctx(&self, ctx: &mut ExecutionContext, input: S::Input) -> (outcome: Result<
        S::Output,
        Error,
    >)
        requires
            self.step.admits(old(ctx)@, input),
        ensures
            self.step.produces(old(ctx)@, input, final(ctx)@, outcome),
    {
        self.step.run(ctx, input)
    }

    /// Access the inner step.
    pub fn inner(&self) -> (step: &S)
        ensures
            *step == self.step,
    {
        &self.step
    }

    /// Consume the workflow, returning the inner step.
    pub fn into_inner(self) -> (step: S)
        ensures
            step == self.step,
    {
        self.step
    }
}

} // verus!
