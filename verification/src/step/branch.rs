//! Conditional step routing.

use crate::context::{ContextView, ExecutionContext};
use crate::error::Error;
use crate::step::Step;
use vstd::prelude::*;

verus! {

/// A step that routes to one of two steps based on a predicate over the
/// input: `left` when the predicate holds, `right` when it does not.
pub struct BranchStep<P, L, R> {
    /// Decides which branch runs.
    pub predicate: P,
    /// Runs when the predicate returns `true`.
    pub left: L,
    /// Runs when the predicate returns `false`.
    pub right: R,
}

impl<P, L, R> BranchStep<P, L, R> {
    /// Create a new branch step.
    pub fn new(predicate: P, left: L, right: R) -> (branch: Self)
        ensures
            branch.predicate == predicate,
            branch.left == left,
            branch.right == right,
    {
        BranchStep { predicate, left, right }
    }
}

impl<P, L, R, I, O> Step for BranchStep<P, L, R> where
    P: Fn(&I) -> bool,
    L: Step<Input = I, Output = O>,
    R: Step<Input = I, Output = O>,
 {
    type Input = I;

    type Output = O;

    /// The predicate accepts the input, and whichever branch it can choose
    /// admits the input.
    open spec fn admits(&self, before: ContextView, input: I) -> bool {
        &&& call_requires(self.predicate, (&input,))
        &&& forall|choice: bool| #[trigger]
            call_ensures(self.predicate, (&input,), choice) ==> if choice {
                self.left.admits(before, input)
            } else {
                self.right.admits(before, input)
            }
    }

    /// The predicate was evaluated once, and exactly the branch it chose
    /// ran.
    open spec fn produces(
        &self,
        before: ContextView,
        input: I,
        after: ContextView,
        outcome: Result<O, Error>,
    ) -> bool {
        exists|choice: bool| #[trigger]
            call_ensures(self.predicate, (&input,), choice) && if choice {
                self.left.produces(before, input, after, outcome)
            } else {
                self.right.produces(before, input, after, outcome)
            }
    }

    open spec fn label(&self) -> Seq<char> {
        "BranchStep"@
    }

    fn run(&self, ctx: &mut ExecutionContext, input: I) -> (outcome: Result<O, Error>) {
        if (self.predicate)(&input) {
            self.left.run(ctx, input)
        } else {
            self.right.run(ctx, input)
        }
    }

    fn name(&self) -> (name: &str) {
        "BranchStep"
    }
}

} // verus!
