//! The execution context handed to every step of a run.

use crate::events::{trace_views, EventView, TraceEntry, TraceView, WorkflowEvent};
use crate::json::{capture, payload_of, Snapshot};
use crate::metrics::{MetricOp, MetricsView, WorkflowMetrics};
use vstd::prelude::*;

verus! {

/// Mathematical value of an [`ExecutionContext`]: the metrics and the trace,
/// oldest entry first.
pub struct ContextView {
    pub metrics: MetricsView,
    pub traces: Seq<TraceView>,
}

impl ContextView {
    /// The context of a run in which nothing has happened yet.
    pub open spec fn empty() -> ContextView {
        ContextView { metrics: MetricsView::zero(), traces: Seq::empty() }
    }

    /// The context after recording `op` in the metrics.
    pub open spec fn record(self, op: MetricOp) -> ContextView {
        ContextView { metrics: self.metrics.apply(op), ..self }
    }

    /// The context after appending `entry` to the trace.
    pub open spec fn log(self, entry: TraceView) -> ContextView {
        ContextView { traces: self.traces.push(entry), ..self }
    }

    /// Whether `self` can be reached from `earlier` by appending one entry
    /// that carries `event`, whatever its timestamp.
    pub open spec fn logged(self, earlier: ContextView, event: EventView) -> bool {
        exists|timestamp: nat| self == earlier.log(TraceView { timestamp, event })
    }
}

/// Context passed to every step in the workflow: the metrics accumulated so
/// far and the trace of events, oldest first.
///
/// A step receives the context by mutable reference, so every record is
/// applied as a whole and in the order the steps run. A caller that shares
/// one context between concurrent branches puts it behind a lock and hands
/// it to each step in turn.
#[derive(Debug)]
pub struct ExecutionContext {
    /// Metrics accumulator.
    pub metrics: WorkflowMetrics,
    /// Trace log of structured workflow events.
    pub traces: Vec<TraceEntry>,
}

impl View for ExecutionContext {
    type V = ContextView;

    open spec fn view(&self) -> ContextView {
        ContextView { metrics: self.metrics@, traces: trace_views(self.traces@) }
    }
}

impl Default for ExecutionContext {
    fn default() -> (ctx: Self)
        ensures
            ctx@ == ContextView::empty(),
    {
        ExecutionContext::new()
    }
}

impl ExecutionContext {
    /// Create a new execution context with empty metrics and traces.
    #[must_use]
    pub fn new() -> (ctx: Self)
        ensures
            ctx@ == ContextView::empty(),
    {
        let ctx = ExecutionContext { metrics: WorkflowMetrics::default(), traces: Vec::new() };
        assert(trace_views(ctx.traces@) =~= Seq::<TraceView>::empty());
        ctx
    }

    /// Record prompt token usage.
    pub fn record_prompt_tokens(&mut self, count: usize)
        requires
            old(self)@.metrics.apply(MetricOp::Prompt(count as nat)).representable(),
        ensures
            final(self)@ == old(self)@.record(MetricOp::Prompt(count as nat)),
    {
        self.metrics.add_prompt_tokens(count);
    }

    /// Record completion token usage.
    pub fn record_completion_tokens(&mut self, count: usize)
        requires
            old(self)@.metrics.apply(MetricOp::Completion(count as nat)).representable(),
        ensures
            final(self)@ == old(self)@.record(MetricOp::Completion(count as nat)),
    {
        self.metrics.add_completion_tokens(count);
    }

    /// Record prompt and completion token usage together.
    pub fn record_tokens(&mut self, prompt: usize, completion: usize)
        requires
            old(self)@.metrics.apply(
                MetricOp::Tokens(prompt as nat, completion as nat),
            ).representable(),
        ensures
            final(self)@ == old(self)@.record(MetricOp::Tokens(prompt as nat, completion as nat)),
    {
        self.metrics.add_tokens(prompt, completion);
    }

    /// Increment the steps completed counter.
    pub fn record_step(&mut self)
        requires
            old(self)@.metrics.apply(MetricOp::Step).representable(),
        ensures
            final(self)@ == old(self)@.record(MetricOp::Step),
    {
        self.metrics.record_step();
    }

    /// Record a failure message.
    pub fn record_failure(&mut self, error: String)
        ensures
            final(self)@ == old(self)@.record(MetricOp::Failure(error@)),
    {
        self.metrics.record_failure(error);
    }

    /// Get a snapshot of the current metrics.
    #[must_use]
    pub fn snapshot(&self) -> (metrics: WorkflowMetrics)
        ensures
            metrics@ == self@.metrics,
    {
        self.metrics.clone()
    }

    /// Append an entry to the trace log.
    pub fn push_entry(&mut self, entry: TraceEntry)
        ensures
            final(self)@ == old(self)@.log(entry@),
    {
        self.traces.push(entry);
        assert(trace_views(self.traces@) =~= trace_views(old(self).traces@).push(entry@));
    }

    /// Emit a structured workflow event to the trace log, stamped with the
    /// current time.
    pub fn emit(&mut self, event: WorkflowEvent)
        ensures
            final(self)@.logged(old(self)@, event@),
    {
        let entry = TraceEntry::new(event);
        self.push_entry(entry);
    }

    /// Emit an artifact event whose payload is the JSON encoding of `data`,
    /// or the marker string when `data` has none.
    pub fn emit_artifact<T: Snapshot>(&mut self, step_name: &str, key: &str, data: &T)
        ensures
            final(self)@.logged(
                old(self)@,
                EventView::Artifact {
                    step_name: step_name@,
                    key: key@,
                    data: payload_of(data.encoding()),
                },
            ),
    {
        let payload = capture(data);
        self.emit_artifact_value(step_name, key, payload);
    }

    /// Emit an artifact event with an already encoded payload.
    pub fn emit_artifact_value(&mut self, step_name: &str, key: &str, payload: serde_json::Value)
        ensures
            final(self)@.logged(
                old(self)@,
                EventView::Artifact { step_name: step_name@, key: key@, data: payload },
            ),
    {
        self.emit(
            WorkflowEvent::Artifact {
                step_name: String::from_str(step_name),
                key: String::from_str(key),
                data: payload,
            },
        );
    }

    /// Get a snapshot of the current trace log.
    #[must_use]
    pub fn trace_snapshot(&self) -> (entries: Vec<TraceEntry>)
        ensures
            trace_views(entries@) == self@.traces,
    {
        let mut entries: Vec<TraceEntry> = Vec::new();
        let mut i: usize = 0;
        while i < self.traces.len()
            invariant
                i <= self.traces.len(),
                entries.len() == i,
                forall|k: int| 0 <= k < i ==> entries[k] == self.traces[k],
            decreases self.traces.len() - i,
        {
            entries.push(self.traces[i].clone());
            i += 1;
        }
        assert(trace_views(entries@) =~= trace_views(self.traces@));
        entries
    }

    /// Clear all trace entries. The metrics are kept.
    pub fn clear_traces(&mut self)
        ensures
            final(self)@ == (ContextView { traces: Seq::empty(), ..old(self)@ }),
    {
        self.traces.clear();
        assert(trace_views(self.traces@) =~= Seq::<TraceView>::empty());
    }
}

} // verus!
