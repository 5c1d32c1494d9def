//! Composable, typed workflow steps with shared metrics and a structured trace.
//!
//! A [`Step`] turns an input into an output or an [`Error`] while recording
//! what it did in an [`ExecutionContext`]. Steps are combined by sequencing,
//! branching, batching, fan-out over a collection and reduction; every
//! combinator states, in terms of the steps it wraps, which outcomes it can
//! produce and what it leaves in the context.

pub mod checkpoint;
pub mod clock;
pub mod context;
pub mod error;
pub mod events;
pub mod instrumented;
pub mod json;
pub mod metrics;
pub mod state;
pub mod step;
pub mod workflow;

pub use checkpoint::{CheckpointStep, ConditionalCheckpointStep};
pub use context::ExecutionContext;
pub use error::{Error, Result};
pub use events::{TraceEntry, WorkflowEvent};
pub use instrumented::InstrumentedStep;
pub use metrics::WorkflowMetrics;
pub use state::{LambdaStateStep, StateStep, StateWorkflow, StepAdapter};
pub use step::batch::{BatchStep, SingleItemAdapter};
pub use step::branch::BranchStep;
pub use step::chain::{ChainStep, ChainTupleStep};
pub use step::map::MapStep;
pub use step::parallel::{ParallelMapBuilder, ParallelMapStep};
pub use step::reduce::ReduceStep;
pub use step::tap::TapStep;
pub use step::{BoxedStepExt, LambdaStep, Step};
pub use workflow::Workflow;
