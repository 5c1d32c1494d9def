//! Structured events recorded while a workflow runs.

use crate::clock::unix_millis_now;
use crate::json::clone_value;
use vstd::prelude::*;

verus! {

/// Mathematical value of a [`WorkflowEvent`].
pub enum EventView {
    StepStart { step_name: Seq<char>, input_type: Seq<char> },
    StepEnd { step_name: Seq<char>, duration_ms: nat },
    Artifact { step_name: Seq<char>, key: Seq<char>, data: serde_json::Value },
    Error { step_name: Seq<char>, message: Seq<char> },
}

/// Mathematical value of a [`TraceEntry`].
pub struct TraceView {
    pub timestamp: nat,
    pub event: EventView,
}

/// Events that can be emitted during workflow execution.
#[derive(Debug)]
pub enum WorkflowEvent {
    /// A step has started execution.
    StepStart {
        /// Name of the step being executed.
        step_name: String,
        /// A label for the type of the input.
        input_type: String,
    },
    /// A step has finished successfully.
    StepEnd {
        /// Name of the step that completed.
        step_name: String,
        /// Duration of execution in milliseconds.
        duration_ms: u128,
    },
    /// An intermediate artifact was produced during execution.
    Artifact {
        /// Name of the step that produced the artifact.
        step_name: String,
        /// Key identifying the artifact.
        key: String,
        /// The artifact data as a JSON value.
        data: serde_json::Value,
    },
    /// An error occurred during step execution.
    Error {
        /// Name of the step where the error occurred.
        step_name: String,
        /// Error message describing what went wrong.
        message: String,
    },
}

impl View for WorkflowEvent {
    type V = EventView;

    open spec fn view(&self) -> EventView {
        match *self {
            WorkflowEvent::StepStart { step_name, input_type } => EventView::StepStart {
                step_name: step_name@,
                input_type: input_type@,
            },
            WorkflowEvent::StepEnd { step_name, duration_ms } => EventView::StepEnd {
                step_name: step_name@,
                duration_ms: duration_ms as nat,
            },
            WorkflowEvent::Artifact { step_name, key, data } => EventView::Artifact {
                step_name: step_name@,
                key: key@,
                data,
            },
            WorkflowEvent::Error { step_name, message } => EventView::Error {
                step_name: step_name@,
                message: message@,
            },
        }
    }
}

impl Clone for WorkflowEvent {
    fn clone(&self) -> (copy: Self)
        ensures
            copy == *self,
    {
        match self {
            WorkflowEvent::StepStart { step_name, input_type } => WorkflowEvent::StepStart {
                step_name: step_name.clone(),
                input_type: input_type.clone(),
            },
            WorkflowEvent::StepEnd { step_name, duration_ms } => WorkflowEvent::StepEnd {
                step_name: step_name.clone(),
                duration_ms: *duration_ms,
            },
            WorkflowEvent::Artifact { step_name, key, data } => WorkflowEvent::Artifact {
                step_name: step_name.clone(),
                key: key.clone(),
                data: clone_value(data),
            },
            WorkflowEvent::Error { step_name, message } => WorkflowEvent::Error {
                step_name: step_name.clone(),
                message: message.clone(),
            },
        }
    }
}

/// A timestamped trace entry containing a workflow event.
#[derive(Debug)]
pub struct TraceEntry {
    /// Unix epoch timestamp in milliseconds when this event occurred.
    pub timestamp: u128,
    /// The workflow event that was recorded.
    pub event: WorkflowEvent,
}

impl View for TraceEntry {
    type V = TraceView;

    open spec fn view(&self) -> TraceView {
        TraceView { timestamp: self.timestamp as nat, event: self.event@ }
    }
}

impl Clone for TraceEntry {
    fn clone(&self) -> (copy: Self)
        ensures
            copy == *self,
    {
        TraceEntry { timestamp: self.timestamp, event: self.event.clone() }
    }
}

impl TraceEntry {
    /// Create a trace entry for `event`, stamped with the current time in
    /// milliseconds since the Unix epoch.
    #[must_use]
    pub fn new(event: WorkflowEvent) -> (entry: Self)
        ensures
            entry.event == event,
    {
        TraceEntry::at(unix_millis_now(), event)
    }

    /// Create a trace entry for `event` with the given timestamp.
    #[must_use]
    pub fn at(timestamp: u128, event: WorkflowEvent) -> (entry: Self)
        ensures
            entry.timestamp == timestamp,
            entry.event == event,
    {
        TraceEntry { timestamp, event }
    }
}

/// The mathematical values of a sequence of trace entries.
pub open spec fn trace_views(entries: Seq<TraceEntry>) -> Seq<TraceView> {
    Seq::new(entries.len(), |i: int| entries[i]@)
}

} // verus!
