//! Inspection of a step's output.

use crate::context::{ContextView, ExecutionContext};
use crate::error::Error;
use crate::step::Step;
use vstd::prelude::*;

verus! {

/// A step that shows the successful output of an inner step to an observer
/// and passes it on unchanged.
pub struct TapStep<S, F> {
    /// The step whose output is observed.
    pub step: S,
    /// The observer.
    pub f: F,
}

impl<S, F> TapStep<S, F> {
    /// Create a new tap step.
    pub fn new(step: S, f: F) -> (tapped: Self)
        ensures
            tapped.step == step,
            tapped.f == f,
    {
        TapStep { step, f }
    }
}

impl<S, F> Step for TapStep<S, F> where S: Step, F: Fn(&S::Output) {
    type Input = S::Input;

    type Output = S::Output;

    /// The inner step admits the input, and the observer accepts every
    /// output the inner step can produce.
    open spec fn admits(&self, before: ContextView, input: S::Input) -> bool {
        &&& self.step.admits(before, input)
        &&& forall|after: ContextView, value: S::Output| #[trigger]
            self.step.produces(before, input, after, Ok(value)) ==> call_requires(
                self.f,
                (&value,),
            )
    }

    /// Exactly what the inner step produced; on success the observer was
    /// called on the output.
    open spec fn produces(
        &self,
        before: ContextView,
        input: S::Input,
        after: ContextView,
        outcome: Result<S::Output, Error>,
    ) -> bool {
        &&& self.step.produces(before, input, after, outcome)
        &&& outcome matches Ok(value) ==> call_ensures(self.f, (&value,), ())
    }

    open spec fn label(&self) -> Seq<char> {
        "TapStep"@
    }

    fn run(&self, ctx: &mut ExecutionContext, input: S::Input) -> (outcome: Result<
        S::Output,
        Error,
    >) {
        let inner = self.step.run(ctx, input);
        match inner {
            Ok(value) => {
                (self.f)(&value);
                Ok(value)
            },
            Err(error) => Err(error),
        }
    }

    fn name(&self) -> (name: &str) {
        "TapStep"
    }
}

} // verus!
