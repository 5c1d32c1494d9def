//! Batch processing steps.

use crate::context::{ContextView, ExecutionContext};
use crate::error::Error;
use crate::step::{
    all_succeeded, first_failure_at, lemma_ran_one_more, lemma_ran_with_more_inputs, ran_in_turn,
    stopped_at_first_failure, Step,
};
use vstd::prelude::*;

verus! {

/// What a run over a sequence hands back for the `results` of its items:
/// every output in order when all succeeded, otherwise the first failure.
pub open spec fn gathered<T>(results: Seq<Result<T, Error>>, outcome: Result<Vec<T>, Error>) -> bool {
    match outcome {
        Ok(outputs) => {
            &&& outputs@.len() == results.len()
            &&& forall|k: int|
                0 <= k < results.len() ==> (#[trigger] results[k]) == Ok::<T, Error>(outputs@[k])
        },
        Err(error) => exists|at: int| #[trigger]
            first_failure_at(results, at) && results[at] == Err::<T, Error>(error),
    }
}

/// A step that adapts a single-item step into a step over a sequence.
///
/// Items are processed strictly one after another. The first failure ends
/// the run: the remaining items are not processed and the outputs produced
/// so far are dropped.
pub struct SingleItemAdapter<S> {
    /// The step applied to each item.
    pub step: S,
}

impl<S> SingleItemAdapter<S> {
    /// Wrap a single-item step for batch use.
    pub fn new(step: S) -> (adapter: Self)
        ensures
            adapter.step == step,
    {
        SingleItemAdapter { step }
    }
}

impl<S> Step for SingleItemAdapter<S> where S: Step {
    type Input = Vec<S::Input>;

    type Output = Vec<S::Output>;

    /// The inner step admits each item in every context that the items
    /// before it can leave when they all succeed.
    open spec fn admits(&self, before: ContextView, input: Vec<S::Input>) -> bool {
        forall|contexts: Seq<ContextView>, results: Seq<Result<S::Output, Error>>|
            {
                &&& #[trigger] ran_in_turn(self.step, input@, contexts, results)
                &&& contexts[0] == before
                &&& results.len() < input@.len()
                &&& all_succeeded(results)
            } ==> self.step.admits(contexts.last(), input@[results.len() as int])
    }

    /// The inner step ran on the items in order, each from the context the
    /// previous one left, and stopped at the first failure. The result
    /// holds the outputs in input order, or that first failure.
    open spec fn produces(
        &self,
        before: ContextView,
        input: Vec<S::Input>,
        after: ContextView,
        outcome: Result<Vec<S::Output>, Error>,
    ) -> bool {
        exists|contexts: Seq<ContextView>, results: Seq<Result<S::Output, Error>>|
            {
                &&& #[trigger] ran_in_turn(self.step, input@, contexts, results)
                &&& contexts[0] == before
                &&& contexts.last() == after
                &&& stopped_at_first_failure(results, input@.len())
                &&& gathered(results, outcome)
            }
    }

    open spec fn label(&self) -> Seq<char> {
        "SingleItemAdapter"@
    }

    fn run(&self, ctx: &mut ExecutionContext, input: Vec<S::Input>) -> (outcome: Result<
        Vec<S::Output>,
        Error,
    >) {
        let ghost before = ctx@;
        let ghost items = input@;
        let ghost mut contexts: Seq<ContextView> = seq![before];
        let ghost mut results: Seq<Result<S::Output, Error>> = Seq::empty();
        let mut outputs: Vec<S::Output> = Vec::new();
        for item in it: input
            invariant
                it.seq() == items,
                items == input@,
                before == old(ctx)@,
                self.admits(before, input),
                ran_in_turn(self.step, items, contexts, results),
                contexts[0] == before,
                contexts.last() == ctx@,
                results.len() == it.index(),
                outputs@.len() == it.index(),
                forall|k: int|
                    0 <= k < results.len() ==> (#[trigger] results[k]) == Ok::<S::Output, Error>(
                        outputs@[k],
                    ),
        {
            let result = self.step.run(ctx, item);
            proof {
                lemma_ran_one_more(&self.step, items, contexts, results, ctx@, result);
                results = results.push(result);
                contexts = contexts.push(ctx@);
            }
            match result {
                Ok(output) => {
                    outputs.push(output);
                },
                Err(error) => {
                    assert(first_failure_at(results, results.len() - 1));
                    return Err(error);
                },
            }
        }
        Ok(outputs)
    }

    fn name(&self) -> (name: &str) {
        "SingleItemAdapter"
    }
}

/// Number of chunks of at most `size` items that `len` items are split
/// into: `len / size`, rounded up.
pub open spec fn chunk_count(len: nat, size: nat) -> nat {
    if len % size == 0 {
        len / size
    } else {
        len / size + 1
    }
}

/// The chunk with the given index when `items` are split into chunks of
/// `size`: the items from position `index * size` up to, but not including,
/// position `(index + 1) * size`, as far as there are any.
pub open spec fn chunk_of<T>(items: Seq<T>, size: nat, index: int) -> Seq<T> {
    let start = index * size;
    let end = if start + size <= items.len() {
        start + size
    } else {
        items.len() as int
    };
    items.subrange(start, end)
}

/// `batches` are the first chunks of `items`, in order.
pub open spec fn leading_chunks<T>(batches: Seq<Vec<T>>, items: Seq<T>, size: nat) -> bool {
    &&& batches.len() <= chunk_count(items.len(), size)
    &&& forall|k: int|
        0 <= k < batches.len() ==> (#[trigger] batches[k])@ == chunk_of(items, size, k)
}

/// The outputs of the successful `results`, concatenated in order.
pub open spec fn joined<T>(results: Seq<Result<Vec<T>, Error>>) -> Seq<T>
    decreases results.len(),
{
    if results.len() == 0 {
        Seq::empty()
    } else {
        joined(results.drop_last()) + match results.last() {
            Ok(outputs) => outputs@,
            Err(_) => Seq::empty(),
        }
    }
}

/// The chunk count is the quotient rounded up: that many chunks of `size`
/// hold `len` items, and one chunk fewer would not.
pub proof fn lemma_chunk_count(len: nat, size: nat)
    requires
        size > 0,
    ensures
        chunk_count(len, size) == (len + size - 1) / (size as int),
        chunk_count(len, size) * size >= len,
        len > 0 ==> (chunk_count(len, size) - 1) * size < len,
        len == 0 ==> chunk_count(len, size) == 0,
{
    let q = (len / size) as int;
    let r = (len % size) as int;
    assert(len == size * q + r && 0 <= r < size) by {
        vstd::arithmetic::div_mod::lemma_fundamental_div_mod(len as int, size as int);
        vstd::arithmetic::div_mod::lemma_mod_pos_bound(len as int, size as int);
    }
    assert(q >= 0) by {
        vstd::arithmetic::div_mod::lemma_div_pos_is_pos(len as int, size as int);
    }
    if r == 0 {
        assert((len + size - 1) / (size as int) == q) by {
            vstd::arithmetic::div_mod::lemma_fundamental_div_mod_converse(
                len + size - 1,
                size as int,
                q,
                size - 1,
            );
        }
        assert(q * size == size * q) by (nonlinear_arith);
        assert((q - 1) * size == size * q - size) by (nonlinear_arith);
    } else {
        assert(size * (q + 1) == size * q + size) by (nonlinear_arith);
        assert((len + size - 1) / (size as int) == q + 1) by {
            vstd::arithmetic::div_mod::lemma_fundamental_div_mod_converse(
                len + size - 1,
                size as int,
                q + 1,
                r - 1,
            );
        }
        assert((q + 1) * size == size * q + size) by (nonlinear_arith);
        assert(q * size == size * q) by (nonlinear_arith);
    }
}

/// Of the chunks that `items` are split into, every one but the last holds
/// exactly `size` items, and the last holds between one and `size`.
pub proof fn lemma_chunk_lengths<T>(items: Seq<T>, size: nat)
    requires
        size > 0,
    ensures
        forall|index: int|
            0 <= index < chunk_count(items.len(), size) - 1 ==> (#[trigger] chunk_of(
                items,
                size,
                index,
            )).len() == size,
        chunk_count(items.len(), size) > 0 ==> 0 < chunk_of(
            items,
            size,
            chunk_count(items.len(), size) - 1,
        ).len() <= size,
{
    let len = items.len();
    let count = chunk_count(len, size);
    lemma_chunk_count(len, size);
    assert forall|index: int| 0 <= index < count - 1 implies (#[trigger] chunk_of(
        items,
        size,
        index,
    )).len() == size by {
        assert(index * size + size <= (count - 1) * size) by (nonlinear_arith)
            requires
                0 <= index < count - 1,
                size > 0,
        ;
        assert(index * size >= 0) by (nonlinear_arith)
            requires
                0 <= index,
                size > 0,
        ;
    }
    if count > 0 {
        let last = count - 1;
        assert(last * size + size == count * size) by (nonlinear_arith)
            requires
                last == count - 1,
        ;
        assert(last * size >= 0) by (nonlinear_arith)
            requires
                0 <= last,
                size > 0,
        ;
    }
}

/// Splitting into chunks loses nothing and keeps the order: the item at
/// position `index * size + offset` of the input, with `offset` below
/// `size`, is item `offset` of chunk `index`.
pub proof fn lemma_chunk_item<T>(items: Seq<T>, size: nat, index: int, offset: int)
    requires
        size > 0,
        0 <= index,
        0 <= offset < size,
        index * size + offset < items.len(),
    ensures
        index < chunk_count(items.len(), size),
        offset < chunk_of(items, size, index).len(),
        chunk_of(items, size, index)[offset] == items[index * size + offset],
{
    lemma_chunk_count(items.len(), size);
    assert(index * size >= 0) by (nonlinear_arith)
        requires
            0 <= index,
            size > 0,
    ;
    assert(index < chunk_count(items.len(), size)) by (nonlinear_arith)
        requires
            index * size < items.len(),
            chunk_count(items.len(), size) * size >= items.len(),
            size > 0,
    ;
}

/// Appending one more successful result appends its outputs.
proof fn lemma_joined_push<T>(results: Seq<Result<Vec<T>, Error>>, outputs: Vec<T>)
    ensures
        joined(results.push(Ok(outputs))) == joined(results) + outputs@,
{
    assert(results.push(Ok(outputs)).drop_last() =~= results);
}

/// Takes the next chunk off the front of `remaining`: its first `size`
/// items, or all of them when there are fewer. The rest stays in
/// `remaining`, in order.
pub fn take_chunk<T>(remaining: &mut Vec<T>, size: usize) -> (chunk: Vec<T>)
    requires
        size > 0,
    ensures
        chunk@ == chunk_of(old(remaining)@, size as nat, 0),
        chunk@ + final(remaining)@ == old(remaining)@,
        old(remaining)@.len() > 0 ==> chunk@.len() > 0,
{
    let take = if size < remaining.len() {
        size
    } else {
        remaining.len()
    };
    let mut rest = remaining.split_off(take);
    core::mem::swap(remaining, &mut rest);
    assert(rest@ =~= chunk_of(old(remaining)@, size as nat, 0));
    assert(rest@ + remaining@ =~= old(remaining)@);
    rest
}

/// A step that processes a sequence in fixed-size chunks using an inner
/// step over sequences.
///
/// The input is split into chunks of `batch_size` items (the last chunk may
/// be smaller), each chunk is handed to the inner step in order, and the
/// outputs are concatenated in chunk order. A failing chunk ends the run.
pub struct BatchStep<S> {
    step: S,
    batch_size: usize,
}

impl<S> BatchStep<S> {
    /// The step that processes each chunk.
    pub closed spec fn inner(&self) -> S {
        self.step
    }

    /// The number of items per chunk.
    pub closed spec fn chunk_size(&self) -> nat {
        self.batch_size as nat
    }

    /// The chunk size is never zero.
    #[verifier::type_invariant]
    spec fn positive_size(&self) -> bool {
        self.batch_size > 0
    }

    /// Create a new batch step with the given chunk size, which must not be
    /// zero.
    pub fn new(step: S, batch_size: usize) -> (batch: Self)
        requires
            batch_size > 0,
        ensures
            batch.inner() == step,
            batch.chunk_size() == batch_size,
    {
        BatchStep { step, batch_size }
    }

    /// Create a new batch step with the given chunk size, or report an
    /// invalid configuration when the chunk size is zero.
    pub fn try_new(step: S, batch_size: usize) -> (made: Result<Self, Error>)
        ensures
            batch_size > 0 ==> made is Ok && made->Ok_0.inner() == step && made->Ok_0.chunk_size()
                == batch_size,
            batch_size == 0 ==> (made matches Err(Error::Validation(reason)) && reason@
                == "batch_size must be greater than zero"@),
    {
        if batch_size == 0 {
            Err(Error::Validation(String::from_str("batch_size must be greater than zero")))
        } else {
            Ok(BatchStep::new(step, batch_size))
        }
    }
}

impl<S, I, O> Step for BatchStep<S> where S: Step<Input = Vec<I>, Output = Vec<O>> {
    type Input = Vec<I>;

    type Output = Vec<O>;

    /// The inner step admits each chunk in every context that the chunks
    /// before it can leave when they all succeed.
    open spec fn admits(&self, before: ContextView, input: Vec<I>) -> bool {
        forall|
            batches: Seq<Vec<I>>,
            contexts: Seq<ContextView>,
            results: Seq<Result<Vec<O>, Error>>,
        |
            {
                &&& leading_chunks(batches, input@, self.chunk_size())
                &&& #[trigger] ran_in_turn(self.inner(), batches, contexts, results)
                &&& contexts[0] == before
                &&& batches.len() == results.len() + 1
                &&& all_succeeded(results)
            } ==> self.inner().admits(contexts.last(), batches.last())
    }

    /// The inner step ran on the chunks of the input in order, each from
    /// the context the previous one left, and stopped at the first failure.
    /// On success it ran once per chunk and the result is the concatenation
    /// of its outputs in chunk order; otherwise the result is the failure of
    /// the chunk that ended the run.
    open spec fn produces(
        &self,
        before: ContextView,
        input: Vec<I>,
        after: ContextView,
        outcome: Result<Vec<O>, Error>,
    ) -> bool {
        exists|
            batches: Seq<Vec<I>>,
            contexts: Seq<ContextView>,
            results: Seq<Result<Vec<O>, Error>>,
        |
            {
                &&& leading_chunks(batches, input@, self.chunk_size())
                &&& #[trigger] ran_in_turn(self.inner(), batches, contexts, results)
                &&& batches.len() == results.len()
                &&& contexts[0] == before
                &&& contexts.last() == after
                &&& stopped_at_first_failure(results, chunk_count(input@.len(), self.chunk_size()))
                &&& match outcome {
                    Ok(outputs) => all_succeeded(results) && outputs@ == joined(results),
                    Err(error) => results.len() > 0 && results.last() == Err::<Vec<O>, Error>(
                        error,
                    ),
                }
            }
    }

    open spec fn label(&self) -> Seq<char> {
        "BatchStep"@
    }

    fn run(&self, ctx: &mut ExecutionContext, input: Vec<I>) -> (outcome: Result<Vec<O>, Error>) {
        proof {
            use_type_invariant(self);
        }
        let size = self.batch_size;
        let ghost before = ctx@;
        let ghost items = input@;
        let ghost count = chunk_count(items.len(), size as nat);
        let ghost mut batches: Seq<Vec<I>> = Seq::empty();
        let ghost mut contexts: Seq<ContextView> = seq![before];
        let ghost mut results: Seq<Result<Vec<O>, Error>> = Seq::empty();
        let mut all_outputs: Vec<O> = Vec::new();
        let mut remaining = input;
        proof {
            lemma_chunk_count(items.len(), size as nat);
            assert(remaining@ =~= items.subrange(0, items.len() as int));
        }
        while remaining.len() > 0
            invariant
                size == self.chunk_size(),
                size > 0,
                items == input@,
                before == old(ctx)@,
                count == chunk_count(items.len(), size as nat),
                count * size >= items.len(),
                items.len() > 0 ==> (count - 1) * size < items.len(),
                self.admits(before, input),
                leading_chunks(batches, items, size as nat),
                batches.len() == results.len(),
                ran_in_turn(self.inner(), batches, contexts, results),
                contexts[0] == before,
                contexts.last() == ctx@,
                all_succeeded(results),
                all_outputs@ == joined(results),
                remaining@.len() <= items.len(),
                remaining@ == items.subrange(items.len() - remaining@.len(), items.len() as int),
                items.len() - remaining@.len() == if results.len() * size <= items.len() {
                    results.len() * size
                } else {
                    items.len() as int
                },
            decreases remaining.len(),
        {
            let ghost done = results.len() as int;
            let ghost pending = remaining@;
            let batch = take_chunk(&mut remaining, size);
            proof {
                assert((done + 1) * size == done * size + size) by (nonlinear_arith);
                assert(done < count) by (nonlinear_arith)
                    requires
                        done * size < items.len(),
                        count * size >= items.len(),
                        size > 0,
                        done >= 0,
                ;
                assert(batch@ =~= chunk_of(items, size as nat, done));
                assert(remaining@ =~= pending.subrange(batch@.len() as int, pending.len() as int));
                lemma_ran_with_more_inputs(&self.step, batches, batch, contexts, results);
                batches = batches.push(batch);
            }
            let result = self.step.run(ctx, batch);
            proof {
                lemma_ran_one_more(&self.step, batches, contexts, results, ctx@, result);
                if result is Ok {
                    lemma_joined_push(results, result->Ok_0);
                }
                results = results.push(result);
                contexts = contexts.push(ctx@);
            }
            match result {
                Ok(outputs) => {
                    let mut outputs = outputs;
                    all_outputs.append(&mut outputs);
                },
                Err(error) => {
                    return Err(error);
                },
            }
        }
        proof {
            let done = results.len() as int;
            assert(done >= count) by (nonlinear_arith)
                requires
                    done * size >= items.len(),
                    items.len() > 0 ==> (count - 1) * size < items.len(),
                    items.len() == 0 ==> count == 0,
                    size > 0,
                    done >= 0,
            ;
        }
        Ok(all_outputs)
    }

    fn name(&self) -> (name: &str) {
        "BatchStep"
    }
}

/// A successful batch run invoked the inner step exactly once per chunk,
/// that is `chunk_count` times, on the chunks of the input in order, and
/// its output is the concatenation of the chunk outputs in that order.
pub proof fn lemma_batch_runs_every_chunk<S, I, O>(
    batch: BatchStep<S>,
    before: ContextView,
    input: Vec<I>,
    after: ContextView,
    outputs: Vec<O>,
) where S: Step<Input = Vec<I>, Output = Vec<O>>
    requires
        batch.produces(before, input, after, Ok(outputs)),
    ensures
        exists|
            batches: Seq<Vec<I>>,
            contexts: Seq<ContextView>,
            results: Seq<Result<Vec<O>, Error>>,
        |
            {
                &&& #[trigger] ran_in_turn(batch.inner(), batches, contexts, results)
                &&& results.len() == chunk_count(input@.len(), batch.chunk_size())
                &&& batches.len() == results.len()
                &&& forall|k: int|
                    0 <= k < batches.len() ==> (#[trigger] batches[k])@ == chunk_of(
                        input@,
                        batch.chunk_size(),
                        k,
                    )
                &&& all_succeeded(results)
                &&& contexts[0] == before
                &&& contexts.last() == after
                &&& outputs@ == joined(results)
            },
{
}

/// A failing batch run stopped at the chunk that failed: every chunk before
/// it succeeded, no chunk after it was dispatched, and the error is that
/// chunk's.
pub proof fn lemma_batch_stops_at_failing_chunk<S, I, O>(
    batch: BatchStep<S>,
    before: ContextView,
    input: Vec<I>,
    after: ContextView,
    error: Error,
) where S: Step<Input = Vec<I>, Output = Vec<O>>
    requires
        batch.produces(before, input, after, Err(error)),
    ensures
        exists|
            batches: Seq<Vec<I>>,
            contexts: Seq<ContextView>,
            results: Seq<Result<Vec<O>, Error>>,
        |
            {
                &&& #[trigger] ran_in_turn(batch.inner(), batches, contexts, results)
                &&& 0 < results.len() <= chunk_count(input@.len(), batch.chunk_size())
                &&& batches.len() == results.len()
                &&& first_failure_at(results, results.len() - 1)
                &&& batch.inner().produces(
                    contexts[results.len() - 1],
                    batches.last(),
                    after,
                    Err(error),
                )
                &&& batches.last()@ == chunk_of(input@, batch.chunk_size(), results.len() - 1)
            },
{
}

} // verus!
