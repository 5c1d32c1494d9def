//! Applying a step to every element of a collection.

use crate::context::{ContextView, ExecutionContext};
use crate::error::Error;
use crate::step::batch::gathered;
use crate::step::{first_failure_at, lemma_ran_one_more, ran_in_turn, Step};
use std::sync::Arc;
use vstd::prelude::*;

verus! {

/// Gathers the results of a fan-out, given in input order, into one result:
/// all outputs in input order when every invocation succeeded, otherwise
/// the error of the failing invocation with the lowest index, whatever the
/// order in which the invocations completed.
pub fn collect_results<T>(results: Vec<Result<T, Error>>) -> (outcome: Result<Vec<T>, Error>)
    ensures
        gathered(results@, outcome),
{
    let ghost all = results@;
    let mut outputs: Vec<T> = Vec::new();
    for result in it: results
        invariant
            it.seq() == all,
            outputs@.len() == it.index(),
            forall|k: int|
                0 <= k < it.index() ==> (#[trigger] all[k]) == Ok::<T, Error>(outputs@[k]),
    {
        match result {
            Ok(output) => {
                outputs.push(output);
            },
            Err(error) => {
                assert(first_failure_at(all, it.index() as int));
                return Err(error);
            },
        }
    }
    Ok(outputs)
}

/// A step that applies an inner step to each element of a sequence and
/// waits for all of them.
///
/// Every element is processed, also when an earlier one failed, and every
/// invocation records into the same context. The outputs are in input
/// order. If any invocation failed, the result is the error of the failing
/// element with the lowest index.
pub struct ParallelMapStep<S> {
    /// The step applied to each element.
    pub step: Arc<S>,
}

impl<S> ParallelMapStep<S> {
    /// Create a new parallel map step wrapping the given step.
    pub fn new(step: S) -> (fan_out: Self)
        ensures
            *fan_out.step == step,
    {
        ParallelMapStep { step: Arc::new(step) }
    }

    /// Access the inner step.
    pub fn inner(&self) -> (step: &S)
        ensures
            *step == *self.step,
    {
        &self.step
    }
}

impl<S> Step for ParallelMapStep<S> where S: Step {
    type Input = Vec<S::Input>;

    type Output = Vec<S::Output>;

    /// The inner step admits each element in every context that the
    /// elements before it can leave.
    open spec fn admits(&self, before: ContextView, input: Vec<S::Input>) -> bool {
        forall|contexts: Seq<ContextView>, results: Seq<Result<S::Output, Error>>|
            {
                &&& #[trigger] ran_in_turn(*self.step, input@, contexts, results)
                &&& contexts[0] == before
                &&& results.len() < input@.len()
            } ==> self.step.admits(contexts.last(), input@[results.len() as int])
    }

    /// The inner step ran on every element, and what each invocation
    /// recorded is kept, whether or not another one failed. The result
    /// holds the outputs in input order, or the error of the failing
    /// element with the lowest index.
    open spec fn produces(
        &self,
        before: ContextView,
        input: Vec<S::Input>,
        after: ContextView,
        outcome: Result<Vec<S::Output>, Error>,
    ) -> bool {
        exists|contexts: Seq<ContextView>, results: Seq<Result<S::Output, Error>>|
            {
                &&& #[trigger] ran_in_turn(*self.step, input@, contexts, results)
                &&& results.len() == input@.len()
                &&& contexts[0] == before
                &&& contexts.last() == after
                &&& gathered(results, outcome)
            }
    }

    open spec fn label(&self) -> Seq<char> {
        "ParallelMapStep"@
    }

    fn run(&self, ctx: &mut ExecutionContext, input: Vec<S::Input>) -> (outcome: Result<
        Vec<S::Output>,
        Error,
    >) {
        let ghost before = ctx@;
        let ghost items = input@;
        let ghost mut contexts: Seq<ContextView> = seq![before];
        let mut results: Vec<Result<S::Output, Error>> = Vec::new();
        for item in it: input
            invariant
                it.seq() == items,
                items == input@,
                before == old(ctx)@,
                self.admits(before, input),
                ran_in_turn(*self.step, items, contexts, results@),
                contexts[0] == before,
                contexts.last() == ctx@,
                results@.len() == it.index(),
        {
            let ghost earlier = results@;
            let result = self.step.run(ctx, item);
            proof {
                lemma_ran_one_more(&*self.step, items, contexts, earlier, ctx@, result);
                contexts = contexts.push(ctx@);
            }
            results.push(result);
        }
        collect_results(results)
    }

    fn name(&self) -> (name: &str) {
        "ParallelMapStep"
    }
}

/// `output` is an output of `step` on `input`, in some context.
pub open spec fn yields<S: Step>(step: S, input: S::Input, output: S::Output) -> bool {
    exists|from: ContextView, to: ContextView| #[trigger]
        step.produces(from, input, to, Ok(output))
}

/// When every invocation of a fan-out succeeds, the output at each position
/// is an output of the inner step on the input at that position.
pub proof fn lemma_parallel_outputs_positional<S: Step>(
    fan_out: ParallelMapStep<S>,
    before: ContextView,
    input: Vec<S::Input>,
    after: ContextView,
    outputs: Vec<S::Output>,
)
    requires
        fan_out.produces(before, input, after, Ok(outputs)),
    ensures
        outputs@.len() == input@.len(),
        forall|k: int|
            0 <= k < input@.len() ==> #[trigger] yields(*fan_out.step, input@[k], outputs@[k]),
{
    let (contexts, results) = choose|
        contexts: Seq<ContextView>,
        results: Seq<Result<S::Output, Error>>,
    |
        {
            &&& #[trigger] ran_in_turn(*fan_out.step, input@, contexts, results)
            &&& results.len() == input@.len()
            &&& contexts[0] == before
            &&& contexts.last() == after
            &&& gathered(results, Ok::<Vec<S::Output>, Error>(outputs))
        };
    assert forall|k: int| 0 <= k < input@.len() implies #[trigger] yields(
        *fan_out.step,
        input@[k],
        outputs@[k],
    ) by {
        assert(results[k] == Ok::<S::Output, Error>(outputs@[k]));
        assert(fan_out.step.produces(contexts[k], input@[k], contexts[k + 1], results[k]));
    }
}

/// When some invocation of a fan-out fails, the returned error is the one
/// the inner step returned for the failing input with the lowest index:
/// the inner step succeeded on every input before it.
pub proof fn lemma_parallel_first_error<S: Step>(
    fan_out: ParallelMapStep<S>,
    before: ContextView,
    input: Vec<S::Input>,
    after: ContextView,
    error: Error,
)
    requires
        fan_out.produces(before, input, after, Err(error)),
    ensures
        exists|contexts: Seq<ContextView>, results: Seq<Result<S::Output, Error>>, at: int|
            {
                &&& #[trigger] ran_in_turn(*fan_out.step, input@, contexts, results)
                &&& #[trigger] first_failure_at(results, at)
                &&& results.len() == input@.len()
                &&& fan_out.step.produces(contexts[at], input@[at], contexts[at + 1], Err(error))
            },
{
}

/// The result of gathering is decided by the results alone: two gatherings
/// of the same results agree on which error is reported, and on every
/// output.
pub proof fn lemma_gathered_deterministic<T>(
    results: Seq<Result<T, Error>>,
    one: Result<Vec<T>, Error>,
    other: Result<Vec<T>, Error>,
)
    requires
        gathered(results, one),
        gathered(results, other),
    ensures
        one is Ok <==> other is Ok,
        one is Ok <==> crate::step::all_succeeded(results),
        one is Err ==> one->Err_0 == other->Err_0,
        one is Ok ==> one->Ok_0@ == other->Ok_0@,
{
    if one is Err {
        let at = choose|at: int| #[trigger]
            first_failure_at(results, at) && results[at] == Err::<T, Error>(one->Err_0);
        if other is Ok {
            assert(results[at] is Ok);
        } else {
            let to = choose|to: int| #[trigger]
                first_failure_at(results, to) && results[to] == Err::<T, Error>(other->Err_0);
            if at < to {
                assert(results[at] is Ok);
            }
            if to < at {
                assert(results[to] is Ok);
            }
        }
    } else {
        if other is Err {
            let to = choose|to: int| #[trigger]
                first_failure_at(results, to) && results[to] == Err::<T, Error>(other->Err_0);
            assert(results[to] is Ok);
        } else {
            assert forall|k: int| 0 <= k < results.len() implies one->Ok_0@[k] == other->Ok_0@[k] by {
                assert(results[k] == Ok::<T, Error>(one->Ok_0@[k]));
                assert(results[k] == Ok::<T, Error>(other->Ok_0@[k]));
            }
            assert(one->Ok_0@ =~= other->Ok_0@);
        }
    }
}

/// Builder for configuring and constructing a [`ParallelMapStep`].
pub struct ParallelMapBuilder<S> {
    /// The step the fan-out will apply to each element.
    pub step: S,
}

impl<S: Step> ParallelMapBuilder<S> {
    /// Create a builder for the given step.
    pub fn new(step: S) -> (builder: Self)
        ensures
            builder.step == step,
    {
        ParallelMapBuilder { step }
    }

    /// Build the [`ParallelMapStep`].
    pub fn build(self) -> (fan_out: ParallelMapStep<S>)
        ensures
            *fan_out.step == self.step,
    {
        ParallelMapStep::new(self.step)
    }
}

} // verus!
