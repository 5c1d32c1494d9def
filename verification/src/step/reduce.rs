//! Aggregation of a collection into a single value.

use crate::context::{ContextView, ExecutionContext};
use crate::error::Error;
use crate::step::Step;
use core::marker::PhantomData;
use vstd::prelude::*;

verus! {

/// A step that reduces a whole sequence into a single value using a
/// function. It cannot fail on its own and leaves the context untouched.
pub struct ReduceStep<F, I, O> {
    /// The aggregation function.
    pub f: F,
    pub _phantom: PhantomData<(I, O)>,
}

impl<F, I, O> ReduceStep<F, I, O> where F: Fn(Vec<I>) -> O {
    /// Create a new reduce step from the given aggregation function.
    pub fn new(f: F) -> (reduce: Self)
        ensures
            reduce.f == f,
    {
        ReduceStep { f, _phantom: PhantomData }
    }
}

impl<F, I, O> Step for ReduceStep<F, I, O> where F: Fn(Vec<I>) -> O {
    type Input = Vec<I>;

    type Output = O;

    open spec fn admits(&self, before: ContextView, input: Vec<I>) -> bool {
        call_requires(self.f, (input,))
    }

    /// Always a success: what the function makes of the whole input.
    open spec fn produces(
        &self,
        before: ContextView,
        input: Vec<I>,
        after: ContextView,
        outcome: Result<O, Error>,
    ) -> bool {
        &&& after == before
        &&& outcome is Ok
        &&& call_ensures(self.f, (input,), outcome->Ok_0)
    }

    open spec fn label(&self) -> Seq<char> {
        "ReduceStep"@
    }

    fn run(&self, ctx: &mut ExecutionContext, input: Vec<I>) -> (outcome: Result<O, Error>) {
        Ok((self.f)(input))
    }

    fn name(&self) -> (name: &str) {
        "ReduceStep"
    }
}

} // verus!
