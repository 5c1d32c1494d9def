//! Checkpoint steps, which pause a workflow for review.
//!
//! A checkpoint does not produce an output. It returns an
//! [`Error::Checkpoint`] that names the step and carries a snapshot of the
//! value that reached it; callers tell this pause apart from a fault by the
//! variant, inspect the snapshot and decide how to go on.

use crate::context::{ContextView, ExecutionContext};
use crate::error::Error;
use crate::json::{payload_of, payload_or_placeholder, Snapshot};
use crate::step::Step;
use core::marker::PhantomData;
use vstd::prelude::*;

verus! {

/// `error` is the checkpoint signal of the step called `name`, carrying
/// `data`.
pub open spec fn is_checkpoint_of(error: Error, name: Seq<char>, data: serde_json::Value) -> bool {
    error matches Error::Checkpoint { step_name, data: carried } && step_name@ == name && carried
        == data
}

/// Builds the checkpoint signal of the step called `step_name` from the
/// outcome of encoding the value that reached it. A value that could not be
/// encoded is represented by the marker string; the signal is a checkpoint
/// either way.
pub fn checkpoint_signal(step_name: &str, encoded: Option<serde_json::Value>) -> (signal: Error)
    ensures
        is_checkpoint_of(signal, step_name@, payload_of(encoded)),
{
    Error::Checkpoint {
        step_name: String::from_str(step_name),
        data: payload_or_placeholder(encoded),
    }
}

/// A step that always pauses execution by returning a checkpoint signal
/// with a snapshot of its input.
pub struct CheckpointStep<I> {
    /// The name reported in the checkpoint signal.
    pub step_name: String,
    pub _phantom: PhantomData<I>,
}

impl<I> CheckpointStep<I> {
    /// Create a checkpoint step with the given name.
    pub fn new(name: &str) -> (checkpoint: Self)
        ensures
            checkpoint.step_name@ == name@,
    {
        CheckpointStep { step_name: String::from_str(name), _phantom: PhantomData }
    }
}

impl<I> Step for CheckpointStep<I> where I: Snapshot {
    type Input = I;

    type Output = I;

    open spec fn admits(&self, before: ContextView, input: I) -> bool {
        true
    }

    /// Always the checkpoint signal of this step, carrying the encoding of
    /// the input, or the marker string where the input has none. The
    /// context is untouched.
    open spec fn produces(
        &self,
        before: ContextView,
        input: I,
        after: ContextView,
        outcome: Result<I, Error>,
    ) -> bool {
        &&& after == before
        &&& outcome is Err
        &&& is_checkpoint_of(outcome->Err_0, self.step_name@, payload_of(input.encoding()))
    }

    open spec fn label(&self) -> Seq<char> {
        self.step_name@
    }

    fn run(&self, ctx: &mut ExecutionContext, input: I) -> (outcome: Result<I, Error>) {
        Err(checkpoint_signal(self.step_name.as_str(), input.snapshot()))
    }

    fn name(&self) -> (name: &str) {
        self.step_name.as_str()
    }
}

/// A step that pauses execution when a predicate holds of its input, and
/// passes the input through unchanged when it does not.
pub struct ConditionalCheckpointStep<I, F> {
    /// The name reported in the checkpoint signal.
    pub step_name: String,
    /// Decides whether to pause.
    pub predicate: F,
    pub _phantom: PhantomData<I>,
}

impl<I, F> ConditionalCheckpointStep<I, F> where F: Fn(&I) -> bool {
    /// Create a conditional checkpoint step.
    pub fn new(name: &str, predicate: F) -> (checkpoint: Self)
        ensures
            checkpoint.step_name@ == name@,
            checkpoint.predicate == predicate,
    {
        ConditionalCheckpointStep {
            step_name: String::from_str(name),
            predicate,
            _phantom: PhantomData,
        }
    }
}

impl<I, F> Step for ConditionalCheckpointStep<I, F> where I: Snapshot, F: Fn(&I) -> bool {
    type Input = I;

    type Output = I;

    open spec fn admits(&self, before: ContextView, input: I) -> bool {
        call_requires(self.predicate, (&input,))
    }

    /// The predicate was evaluated once. Where it held, the result is the
    /// checkpoint signal of this step; where it did not, the result is the
    /// input itself. The context is untouched either way.
    open spec fn produces(
        &self,
        before: ContextView,
        input: I,
        after: ContextView,
        outcome: Result<I, Error>,
    ) -> bool {
        &&& after == before
        &&& exists|pause: bool| #[trigger]
            call_ensures(self.predicate, (&input,), pause) && if pause {
                outcome is Err && is_checkpoint_of(
                    outcome->Err_0,
                    self.step_name@,
                    payload_of(input.encoding()),
                )
            } else {
                outcome == Ok::<I, Error>(input)
            }
    }

    open spec fn label(&self) -> Seq<char> {
        self.step_name@
    }

    fn run(&self, ctx: &mut ExecutionContext, input: I) -> (outcome: Result<I, Error>) {
        let pause = (self.predicate)(&input);
        if pause {
            Err(checkpoint_signal(self.step_name.as_str(), input.snapshot()))
        } else {
            Ok(input)
        }
    }

    fn name(&self) -> (name: &str) {
        self.step_name.as_str()
    }
}

/// A checkpoint step never succeeds and never touches the context: whatever
/// the input, the result is a checkpoint error that carries the step's name
/// and the snapshot of the input.
pub proof fn lemma_checkpoint_always_pauses<I: Snapshot>(
    checkpoint: CheckpointStep<I>,
    before: ContextView,
    input: I,
    after: ContextView,
    outcome: Result<I, Error>,
)
    requires
        checkpoint.produces(before, input, after, outcome),
    ensures
        after == before,
        outcome matches Err(Error::Checkpoint { step_name, data }) && step_name@
            == checkpoint.step_name@ && data == payload_of(input.encoding()),
{
}

/// Where the predicate of a conditional checkpoint does not hold, the input
/// comes back unchanged as a success and nothing is recorded.
pub proof fn lemma_conditional_passes_through<I: Snapshot, F: Fn(&I) -> bool>(
    checkpoint: ConditionalCheckpointStep<I, F>,
    before: ContextView,
    input: I,
    after: ContextView,
    outcome: Result<I, Error>,
)
    requires
        checkpoint.produces(before, input, after, outcome),
        forall|pause: bool| #[trigger]
            call_ensures(checkpoint.predicate, (&input,), pause) ==> !pause,
    ensures
        after == before,
        outcome == Ok::<I, Error>(input),
{
}

/// Where the predicate of a conditional checkpoint holds, it behaves as an
/// unconditional checkpoint with the same name.
pub proof fn lemma_conditional_pauses<I: Snapshot, F: Fn(&I) -> bool>(
    checkpoint: ConditionalCheckpointStep<I, F>,
    before: ContextView,
    input: I,
    after: ContextView,
    outcome: Result<I, Error>,
)
    requires
        checkpoint.produces(before, input, after, outcome),
        forall|pause: bool| #[trigger]
            call_ensures(checkpoint.predicate, (&input,), pause) ==> pause,
    ensures
        after == before,
        outcome matches Err(Error::Checkpoint { step_name, data }) && step_name@
            == checkpoint.step_name@ && data == payload_of(input.encoding()),
{
}

} // verus!
