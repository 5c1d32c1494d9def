//! Automatic tracing and metrics around a step.

use crate::clock::Stopwatch;
use crate::context::{ContextView, ExecutionContext};
use crate::error::Error;
use crate::events::{EventView, WorkflowEvent};
use crate::metrics::MetricOp;
use crate::step::Step;
use vstd::prelude::*;

verus! {

/// The event that announces a run of the step called `name` on an input
/// whose type is labelled `input_type`.
pub open spec fn start_event(name: Seq<char>, input_type: Seq<char>) -> EventView {
    EventView::StepStart { step_name: name, input_type }
}

/// Whether `after` is `done` with the observation of `outcome` added, for
/// the step called `name`: for a success, one completed step and an end
/// event; for a failure, the error's text as a failure and an error event
/// carrying that text.
pub open spec fn observed<T>(
    name: Seq<char>,
    done: ContextView,
    outcome: Result<T, Error>,
    after: ContextView,
) -> bool {
    match outcome {
        Ok(_) => exists|duration_ms: nat| #[trigger]
            after.logged(
                done.record(MetricOp::Step),
                EventView::StepEnd { step_name: name, duration_ms },
            ),
        Err(error) => after.logged(
            done.record(MetricOp::Failure(error.text())),
            EventView::Error { step_name: name, message: error.text() },
        ),
    }
}

/// Emits the start event of the step called `name`.
pub fn announce(ctx: &mut ExecutionContext, name: &str, input_type: &str)
    ensures
        final(ctx)@.logged(old(ctx)@, start_event(name@, input_type@)),
{
    ctx.emit(
        WorkflowEvent::StepStart {
            step_name: String::from_str(name),
            input_type: String::from_str(input_type),
        },
    );
}

/// Records the result of the step called `name`, which took `duration_ms`
/// milliseconds. A success counts as one completed step and emits an end
/// event with that duration; a failure is recorded with the error's text
/// and emits an error event. The result itself is only read.
pub fn observe<T>(
    ctx: &mut ExecutionContext,
    name: &str,
    outcome: &Result<T, Error>,
    duration_ms: u128,
)
    requires
        outcome is Ok ==> old(ctx)@.metrics.apply(MetricOp::Step).representable(),
    ensures
        match *outcome {
            Ok(_) => final(ctx)@.logged(
                old(ctx)@.record(MetricOp::Step),
                EventView::StepEnd { step_name: name@, duration_ms: duration_ms as nat },
            ),
            Err(error) => final(ctx)@.logged(
                old(ctx)@.record(MetricOp::Failure(error.text())),
                EventView::Error { step_name: name@, message: error.text() },
            ),
        },
        observed(name@, old(ctx)@, *outcome, final(ctx)@),
{
    match outcome {
        Ok(_) => {
            ctx.record_step();
            ctx.emit(WorkflowEvent::StepEnd { step_name: String::from_str(name), duration_ms });
        },
        Err(error) => {
            ctx.record_failure(error.describe());
            ctx.emit(
                WorkflowEvent::Error {
                    step_name: String::from_str(name),
                    message: error.describe(),
                },
            );
        },
    }
}

/// Wraps a step with automatic event emission and metric recording.
///
/// For each execution the wrapper emits a start event before the inner step
/// runs; on success it records one completed step and emits an end event
/// with the elapsed milliseconds; on failure it records the error's text as
/// a failure and emits an error event. The inner result is returned
/// unchanged either way.
pub struct InstrumentedStep<S> {
    /// The step being observed.
    pub inner: S,
    /// The name under which the step is reported.
    pub name: String,
    /// The label for the type of the input, reported in the start event.
    pub input_type: String,
}

impl<S: Step> InstrumentedStep<S> {
    /// Wrap `inner` with instrumentation, reporting it as `name` and its
    /// input as `input_type`.
    pub fn new(inner: S, name: &str, input_type: &str) -> (wrapped: Self)
        ensures
            wrapped.inner == inner,
            wrapped.name@ == name@,
            wrapped.input_type@ == input_type@,
    {
        InstrumentedStep {
            inner,
            name: String::from_str(name),
            input_type: String::from_str(input_type),
        }
    }

    /// Access the inner step.
    pub fn inner(&self) -> (inner: &S)
        ensures
            *inner == self.inner,
    {
        &self.inner
    }
}

impl<S> Step for InstrumentedStep<S> where S: Step {
    type Input = S::Input;

    type Output = S::Output;

    /// The inner step admits the input once the start event is logged, and
    /// a success can still be counted when it returns.
    open spec fn admits(&self, before: ContextView, input: S::Input) -> bool {
        forall|started: ContextView| #[trigger]
            started.logged(before, start_event(self.name@, self.input_type@)) ==> {
                &&& self.inner.admits(started, input)
                &&& forall|done: ContextView, output: S::Output| #[trigger]
                    self.inner.produces(started, input, done, Ok(output))
                        ==> done.metrics.apply(MetricOp::Step).representable()
            }
    }

    /// The start event was logged, the inner step ran, and its result was
    /// observed. The result is the inner step's, unchanged.
    open spec fn produces(
        &self,
        before: ContextView,
        input: S::Input,
        after: ContextView,
        outcome: Result<S::Output, Error>,
    ) -> bool {
        exists|started: ContextView, done: ContextView|
            {
                &&& started.logged(before, start_event(self.name@, self.input_type@))
                &&& #[trigger] self.inner.produces(started, input, done, outcome)
                &&& observed(self.name@, done, outcome, after)
            }
    }

    open spec fn label(&self) -> Seq<char> {
        self.name@
    }

    fn run(&self, ctx: &mut ExecutionContext, input: S::Input) -> (outcome: Result<
        S::Output,
        Error,
    >) {
        announce(ctx, self.name.as_str(), self.input_type.as_str());
        let ghost started = ctx@;
        let watch = Stopwatch::start();
        let outcome = self.inner.run(ctx, input);
        let duration_ms = watch.elapsed_millis();
        let ghost done = ctx@;
        assert(outcome matches Ok(output) ==> self.inner.produces(
            started,
            input,
            done,
            Ok(output),
        ));
        observe(ctx, self.name.as_str(), &outcome, duration_ms);
        outcome
    }

    fn name(&self) -> (name: &str) {
        self.name.as_str()
    }
}

/// Instrumentation never changes what the wrapped step returns: every
/// result of the wrapper is a result of the inner step on the same input.
/// Each run adds exactly two trace entries, and counts one completed step
/// for a success or one failure for an error, never both.
pub proof fn lemma_instrumentation_is_transparent<S: Step>(
    wrapped: InstrumentedStep<S>,
    before: ContextView,
    input: S::Input,
    after: ContextView,
    outcome: Result<S::Output, Error>,
)
    requires
        wrapped.produces(before, input, after, outcome),
    ensures
        exists|started: ContextView, done: ContextView|
            {
                &&& #[trigger] wrapped.inner.produces(started, input, done, outcome)
                &&& started.metrics == before.metrics
                &&& started.traces.len() == before.traces.len() + 1
                &&& after.traces.len() == done.traces.len() + 1
                &&& after.metrics.steps == done.metrics.steps + if outcome is Ok {
                    1nat
                } else {
                    0nat
                }
                &&& after.metrics.failures.len() == done.metrics.failures.len() + if outcome is Err {
                    1nat
                } else {
                    0nat
                }
            },
{
}

} // verus!
