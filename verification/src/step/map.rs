//! Synchronous transformation of a step's output.

use crate::context::{ContextView, ExecutionContext};
use crate::error::Error;
use crate::step::Step;
use vstd::prelude::*;

verus! {

/// A step that applies a function to the output of an inner step.
pub struct MapStep<S, F> {
    /// The step whose output is transformed.
    pub step: S,
    /// The transformation.
    pub f: F,
}

impl<S, F> MapStep<S, F> {
    /// Create a new map step.
    pub fn new(step: S, f: F) -> (mapped: Self)
        ensures
            mapped.step == step,
            mapped.f == f,
    {
        MapStep { step, f }
    }
}

impl<S, F, O> Step for MapStep<S, F> where S: Step, F: Fn(S::Output) -> O {
    type Input = S::Input;

    type Output = O;

    /// The inner step admits the input, and the function accepts every
    /// output the inner step can produce.
    open spec fn admits(&self, before: ContextView, input: S::Input) -> bool {
        &&& self.step.admits(before, input)
        &&& forall|after: ContextView, value: S::Output| #[trigger]
            self.step.produces(before, input, after, Ok(value)) ==> call_requires(
                self.f,
                (value,),
            )
    }

    /// The inner step ran and decides the context. Its failure passes
    /// through untouched; its output is replaced by what the function makes
    /// of it.
    open spec fn produces(
        &self,
        before: ContextView,
        input: S::Input,
        after: ContextView,
        outcome: Result<O, Error>,
    ) -> bool {
        exists|inner: Result<S::Output, Error>| #[trigger]
            self.step.produces(before, input, after, inner) && match inner {
                Ok(value) => outcome is Ok && call_ensures(self.f, (value,), outcome->Ok_0),
                Err(error) => outcome == Err::<O, Error>(error),
            }
    }

    open spec fn label(&self) -> Seq<char> {
        "MapStep"@
    }

    fn run(&self, ctx: &mut ExecutionContext, input: S::Input) -> (outcome: Result<O, Error>) {
        let inner = self.step.run(ctx, input);
        match inner {
            Ok(value) => Ok((self.f)(value)),
            Err(error) => Err(error),
        }
    }

    fn name(&self) -> (name: &str) {
        "MapStep"
    }
}

} // verus!
