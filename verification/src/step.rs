//! The step capability and the steps built from closures.
//!
//! A step is described by two predicates. `admits` says in which contexts and
//! on which inputs it may be run. `produces` relates a context and an input
//! to every context and result the step can leave behind; it is a relation
//! rather than a function because a step may consult the outside world.
//! Combinators define both predicates in terms of the steps they wrap, so the
//! behaviour of a whole pipeline can be read off its construction.

use crate::context::{ContextView, ExecutionContext};
use crate::error::Error;
use core::marker::PhantomData;
use vstd::prelude::*;

pub mod batch;
pub mod branch;
pub mod chain;
pub mod map;
pub mod parallel;
pub mod reduce;
pub mod tap;

verus! {

/// The fundamental trait for composable workflow steps.
///
/// Each step receives the execution context (for metrics and tracing) and a
/// typed input, and produces a typed output or an error.
pub trait Step {
    /// The input type for this step.
    type Input;

    /// The output type produced by this step.
    type Output;

    /// Whether the step may be run on `input` in the context `before`.
    spec fn admits(&self, before: ContextView, input: Self::Input) -> bool;

    /// Whether running the step on `input` in the context `before` can end
    /// in the context `after` with the result `outcome`.
    spec fn produces(
        &self,
        before: ContextView,
        input: Self::Input,
        after: ContextView,
        outcome: Result<Self::Output, Error>,
    ) -> bool;

    /// Execute this step with the provided context and input.
    fn run(&self, ctx: &mut ExecutionContext, input: Self::Input) -> (outcome: Result<
        Self::Output,
        Error,
    >)
        requires
            self.admits(old(ctx)@, input),
        ensures
            self.produces(old(ctx)@, input, final(ctx)@, outcome),
    ;

    /// The name of this step.
    spec fn label(&self) -> Seq<char>;

    /// Returns a human-readable name for this step: a label derived from
    /// its type, unless the step was given a name of its own.
    fn name(&self) -> (name: &str)
        ensures
            name@ == self.label(),
    ;
}

/// Fluent composition methods, available on every [`Step`].
pub trait BoxedStepExt: Step + Sized {
    /// Chain this step with another, feeding this step's output into
    /// `next`.
    fn then<S>(self, next: S) -> (chain: chain::ChainStep<Self, S>) where
        S: Step<Input = Self::Output>,

        ensures
            chain.first == self,
            chain.second == next,
    {
        chain::ChainStep::new(self, next)
    }

    /// Apply a synchronous transformation to this step's output.
    fn map<F, O>(self, f: F) -> (mapped: map::MapStep<Self, F>) where F: Fn(Self::Output) -> O
        ensures
            mapped.step == self,
            mapped.f == f,
    {
        map::MapStep::new(self, f)
    }

    /// Show this step's output to an observer, passing it through
    /// unchanged.
    fn tap<F>(self, f: F) -> (tapped: tap::TapStep<Self, F>) where F: Fn(&Self::Output)
        ensures
            tapped.step == self,
            tapped.f == f,
    {
        tap::TapStep::new(self, f)
    }
}

impl<T: Step + Sized> BoxedStepExt for T {

}

/// `step` ran on the first `results.len()` of `inputs`, one after another:
/// `contexts[k]` is the context in which it received `inputs[k]`, and
/// `contexts[k + 1]` the one it left with `results[k]`.
pub open spec fn ran_in_turn<S: Step>(
    step: S,
    inputs: Seq<S::Input>,
    contexts: Seq<ContextView>,
    results: Seq<Result<S::Output, Error>>,
) -> bool {
    &&& results.len() <= inputs.len()
    &&& contexts.len() == results.len() + 1
    &&& forall|k: int|
        0 <= k < results.len() ==> step.produces(
            contexts[k],
            inputs[k],
            contexts[k + 1],
            #[trigger] results[k],
        )
}

/// One more run extends a trail: if `step` ran in turn on the first inputs
/// and then ran on the next one from the context the trail ends in, it ran
/// in turn on one input more.
pub proof fn lemma_ran_one_more<S: Step>(
    step: &S,
    inputs: Seq<S::Input>,
    contexts: Seq<ContextView>,
    results: Seq<Result<S::Output, Error>>,
    after: ContextView,
    result: Result<S::Output, Error>,
)
    requires
        ran_in_turn(*step, inputs, contexts, results),
        results.len() < inputs.len(),
        step.produces(contexts.last(), inputs[results.len() as int], after, result),
    ensures
        ran_in_turn(*step, inputs, contexts.push(after), results.push(result)),
{
    let longer = results.push(result);
    let trail = contexts.push(after);
    assert forall|k: int| 0 <= k < longer.len() implies step.produces(
        trail[k],
        inputs[k],
        trail[k + 1],
        #[trigger] longer[k],
    ) by {
        if k < results.len() {
            assert(longer[k] == results[k]);
        }
    }
}

/// A trail stays a trail when inputs are added behind those it ran on.
pub proof fn lemma_ran_with_more_inputs<S: Step>(
    step: &S,
    inputs: Seq<S::Input>,
    next: S::Input,
    contexts: Seq<ContextView>,
    results: Seq<Result<S::Output, Error>>,
)
    requires
        ran_in_turn(*step, inputs, contexts, results),
    ensures
        ran_in_turn(*step, inputs.push(next), contexts, results),
{
    assert forall|k: int| 0 <= k < results.len() implies step.produces(
        contexts[k],
        inputs.push(next)[k],
        contexts[k + 1],
        #[trigger] results[k],
    ) by {
        assert(inputs.push(next)[k] == inputs[k]);
    }
}

/// Every one of `results` is a success.
pub open spec fn all_succeeded<T>(results: Seq<Result<T, Error>>) -> bool {
    forall|k: int| 0 <= k < results.len() ==> (#[trigger] results[k]) is Ok
}

/// `results[at]` is the first failure among `results`.
pub open spec fn first_failure_at<T>(results: Seq<Result<T, Error>>, at: int) -> bool {
    &&& 0 <= at < results.len()
    &&& results[at] is Err
    &&& forall|k: int| 0 <= k < at ==> (#[trigger] results[k]) is Ok
}

/// Nothing ran after a failure: of the runs that were made out of `planned`,
/// only the last can have failed, and if none failed all of them were made.
pub open spec fn stopped_at_first_failure<T>(results: Seq<Result<T, Error>>, planned: nat) -> bool {
    &&& results.len() <= planned
    &&& forall|k: int| 0 <= k < results.len() - 1 ==> (#[trigger] results[k]) is Ok
    &&& results.len() == planned || (results.len() > 0 && results.last() is Err)
}

/// A step constructed from a closure or function.
///
/// The step runs the closure on its input and leaves the context untouched.
/// Its predicates are the closure's own precondition and postcondition. A
/// verified caller reasons about them where the closure's type is a generic
/// parameter; for a pipeline whose every result should be computed by the
/// verifier, define the leaf steps as types that implement [`Step`].
pub struct LambdaStep<I, O, F> {
    /// The underlying closure.
    pub f: F,
    pub _phantom: PhantomData<(I, O)>,
}

impl<I, O, F> LambdaStep<I, O, F> where F: Fn(I) -> Result<O, Error> {
    /// Create a new `LambdaStep` from the given closure.
    pub fn new(f: F) -> (step: Self)
        ensures
            step.f == f,
    {
        LambdaStep { f, _phantom: PhantomData }
    }
}

impl<I, O, F> Step for LambdaStep<I, O, F> where F: Fn(I) -> Result<O, Error> {
    type Input = I;

    type Output = O;

    open spec fn admits(&self, before: ContextView, input: I) -> bool {
        call_requires(self.f, (input,))
    }

    open spec fn produces(
        &self,
        before: ContextView,
        input: I,
        after: ContextView,
        outcome: Result<O, Error>,
    ) -> bool {
        after == before && call_ensures(self.f, (input,), outcome)
    }

    open spec fn label(&self) -> Seq<char> {
        "LambdaStep"@
    }

    fn run(&self, ctx: &mut ExecutionContext, input: I) -> (outcome: Result<O, Error>) {
        (self.f)(input)
    }

    fn name(&self) -> (name: &str) {
        "LambdaStep"
    }
}

} // verus!
