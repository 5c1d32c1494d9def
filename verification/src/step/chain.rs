//! Sequential step composition.

use crate::context::{ContextView, ExecutionContext};
use crate::error::Error;
use crate::step::Step;
use vstd::prelude::*;

verus! {

/// Two steps composed sequentially: the output of `first` feeds into
/// `second`.
pub struct ChainStep<A, B> {
    /// The step that runs first.
    pub first: A,
    /// The step that receives the output of `first`.
    pub second: B,
}

impl<A, B> ChainStep<A, B> {
    /// Create a new chained step.
    pub fn new(first: A, second: B) -> (chain: Self)
        ensures
            chain.first == first,
            chain.second == second,
    {
        ChainStep { first, second }
    }
}

impl<A, B> Step for ChainStep<A, B> where A: Step, B: Step<Input = A::Output> {
    type Input = A::Input;

    type Output = B::Output;

    /// The first step admits the input, and the second admits whatever the
    /// first can hand it.
    open spec fn admits(&self, before: ContextView, input: A::Input) -> bool {
        &&& self.first.admits(before, input)
        &&& forall|between: ContextView, mid: A::Output| #[trigger]
            self.first.produces(before, input, between, Ok(mid)) ==> self.second.admits(
                between,
                mid,
            )
    }

    /// The first step ran. If it failed, its context and its error are the
    /// chain's; otherwise the second step ran on its output, starting from
    /// the context the first one left.
    open spec fn produces(
        &self,
        before: ContextView,
        input: A::Input,
        after: ContextView,
        outcome: Result<B::Output, Error>,
    ) -> bool {
        exists|between: ContextView, first: Result<A::Output, Error>| #[trigger]
            self.first.produces(before, input, between, first) && match first {
                Ok(mid) => self.second.produces(between, mid, after, outcome),
                Err(error) => after == between && outcome == Err::<B::Output, Error>(error),
            }
    }

    open spec fn label(&self) -> Seq<char> {
        "ChainStep"@
    }

    fn run(&self, ctx: &mut ExecutionContext, input: A::Input) -> (outcome: Result<
        B::Output,
        Error,
    >) {
        let first = self.first.run(ctx, input);
        match first {
            Ok(mid) => self.second.run(ctx, mid),
            Err(error) => Err(error),
        }
    }

    fn name(&self) -> (name: &str) {
        "ChainStep"
    }
}

/// When the first step of a chain fails, the second step contributes
/// nothing: the chain ends in a context the first step left, with the error
/// the first step returned.
pub proof fn lemma_chain_first_failure<A, B>(
    chain: ChainStep<A, B>,
    before: ContextView,
    input: A::Input,
    after: ContextView,
    outcome: Result<B::Output, Error>,
) where A: Step, B: Step<Input = A::Output>
    requires
        chain.produces(before, input, after, outcome),
        forall|between: ContextView, first: Result<A::Output, Error>| #[trigger]
            chain.first.produces(before, input, between, first) ==> first is Err,
    ensures
        outcome is Err,
        chain.first.produces(before, input, after, Err(outcome->Err_0)),
{
}

/// A step that hands a single input to two independent steps and returns
/// both outputs.
///
/// `first` receives a clone of the input and runs to completion before
/// `second` receives the input itself.
pub struct ChainTupleStep<A, B> {
    /// The step that runs first, on a clone of the input.
    pub first: A,
    /// The step that runs second, on the input itself.
    pub second: B,
}

impl<A, B> ChainTupleStep<A, B> {
    /// Create a new tuple step from two independent steps.
    pub fn new(first: A, second: B) -> (pair: Self)
        ensures
            pair.first == first,
            pair.second == second,
    {
        ChainTupleStep { first, second }
    }
}

impl<A, B, I> Step for ChainTupleStep<A, B> where A: Step<Input = I>, B: Step<Input = I>, I: Clone {
    type Input = I;

    type Output = (A::Output, B::Output);

    /// The first step admits every clone of the input, and the second
    /// admits the input in every context the first can succeed in.
    open spec fn admits(&self, before: ContextView, input: I) -> bool {
        &&& forall|copy: I| #[trigger] cloned(input, copy) ==> self.first.admits(before, copy)
        &&& forall|copy: I, between: ContextView, left: A::Output|
            cloned(input, copy) && #[trigger] self.first.produces(
                before,
                copy,
                between,
                Ok(left),
            ) ==> self.second.admits(between, input)
    }

    /// The first step ran on a clone of the input. If it failed, its
    /// context and error are the pair's. Otherwise the second step ran on
    /// the input from the context the first one left; its failure is the
    /// pair's, and its success is paired with the first step's output.
    open spec fn produces(
        &self,
        before: ContextView,
        input: I,
        after: ContextView,
        outcome: Result<(A::Output, B::Output), Error>,
    ) -> bool {
        exists|copy: I, between: ContextView, first: Result<A::Output, Error>|
            cloned(input, copy) && #[trigger] self.first.produces(before, copy, between, first)
                && match first {
                Ok(left) => exists|second: Result<B::Output, Error>| #[trigger]
                    self.second.produces(between, input, after, second) && outcome == match second {
                        Ok(right) => Ok::<(A::Output, B::Output), Error>((left, right)),
                        Err(error) => Err::<(A::Output, B::Output), Error>(error),
                    },
                Err(error) => after == between && outcome == Err::<
                    (A::Output, B::Output),
                    Error,
                >(error),
            }
    }

    open spec fn label(&self) -> Seq<char> {
        "ChainTupleStep"@
    }

    fn run(&self, ctx: &mut ExecutionContext, input: I) -> (outcome: Result<
        (A::Output, B::Output),
        Error,
    >) {
        let copy = input.clone();
        assert(cloned(input, copy));
        let first = self.first.run(ctx, copy);
        match first {
            Ok(left) => {
                let second = self.second.run(ctx, input);
                match second {
                    Ok(right) => Ok((left, right)),
                    Err(error) => Err(error),
                }
            },
            Err(error) => Err(error),
        }
    }

    fn name(&self) -> (name: &str) {
        "ChainTupleStep"
    }
}

/// When both steps of a pair succeed, the result is exactly the pair of
/// their outputs on the same input, and the first step ran before the
/// second: the second started from the context the first one left.
pub proof fn lemma_tuple_pairs_outputs<A, B, I>(
    pair: ChainTupleStep<A, B>,
    before: ContextView,
    input: I,
    after: ContextView,
    left: A::Output,
    right: B::Output,
) where A: Step<Input = I>, B: Step<Input = I>, I: Clone
    requires
        pair.produces(before, input, after, Ok((left, right))),
    ensures
        exists|copy: I, between: ContextView|
            cloned(input, copy) && #[trigger] pair.first.produces(before, copy, between, Ok(left))
                && pair.second.produces(between, input, after, Ok(right)),
{
}

/// When the first step of a pair fails, the second never runs: the pair
/// ends in a context the first step left, with the error it returned.
pub proof fn lemma_tuple_first_failure<A, B, I>(
    pair: ChainTupleStep<A, B>,
    before: ContextView,
    input: I,
    after: ContextView,
    outcome: Result<(A::Output, B::Output), Error>,
) where A: Step<Input = I>, B: Step<Input = I>, I: Clone
    requires
        pair.produces(before, input, after, outcome),
        forall|copy: I, between: ContextView, first: Result<A::Output, Error>| #[trigger]
            pair.first.produces(before, copy, between, first) ==> first is Err,
    ensures
        outcome is Err,
        exists|copy: I|
            cloned(input, copy) && #[trigger] pair.first.produces(
                before,
                copy,
                after,
                Err(outcome->Err_0),
            ),
{
    let (copy, between, first) = choose|
        copy: I,
        between: ContextView,
        first: Result<A::Output, Error>,
    |
        cloned(input, copy) && #[trigger] pair.first.produces(before, copy, between, first)
            && match first {
            Ok(left) => exists|second: Result<B::Output, Error>| #[trigger]
                pair.second.produces(between, input, after, second) && outcome == match second {
                    Ok(right) => Ok::<(A::Output, B::Output), Error>((left, right)),
                    Err(error) => Err::<(A::Output, B::Output), Error>(error),
                },
            Err(error) => after == between && outcome == Err::<(A::Output, B::Output), Error>(
                error,
            ),
        };
    assert(first is Err);
    assert(pair.first.produces(before, copy, after, Err(outcome->Err_0)));
}

} // verus!
