//! Stateful workflow steps.
//!
//! A [`StateStep`] takes a state value with each input and returns the next
//! state with each output, so that a step can remember what came before
//! without holding mutable data of its own. A [`StepAdapter`] owns the state
//! between calls.

use crate::context::{ContextView, ExecutionContext};
use crate::error::Error;
use core::marker::PhantomData;
use vstd::prelude::*;

verus! {

/// A step that carries state: each invocation consumes the current state
/// and returns the next one alongside its output.
pub trait StateStep {
    /// The input type consumed by each invocation.
    type Input;

    /// The output type produced by each invocation.
    type Output;

    /// The state type threaded through invocations.
    type State;

    /// Whether the step may be run on `input` with `state` in the context
    /// `before`.
    spec fn admits(&self, before: ContextView, state: Self::State, input: Self::Input) -> bool;

    /// Whether running the step on `input` with `state` in the context
    /// `before` can end in the context `after` with the result `outcome`.
    spec fn produces(
        &self,
        before: ContextView,
        state: Self::State,
        input: Self::Input,
        after: ContextView,
        outcome: Result<(Self::Output, Self::State), Error>,
    ) -> bool;

    /// Execute with the given state and input, returning the output and the
    /// new state.
    fn run(&self, ctx: &mut ExecutionContext, state: Self::State, input: Self::Input) -> (outcome:
        Result<(Self::Output, Self::State), Error>)
        requires
            self.admits(old(ctx)@, state, input),
        ensures
            self.produces(old(ctx)@, state, input, final(ctx)@, outcome),
    ;
}

/// A stateful step constructed from a closure. It runs the closure on the
/// state and the input and leaves the context untouched.
pub struct LambdaStateStep<S, O, I, F> {
    /// The underlying closure.
    pub f: F,
    pub _phantom: PhantomData<(S, O, I)>,
}

impl<S, O, I, F> LambdaStateStep<S, O, I, F> where F: Fn(S, I) -> Result<(O, S), Error> {
    /// Create a new stateful lambda step from the given closure.
    pub fn new(f: F) -> (step: Self)
        ensures
            step.f == f,
    {
        LambdaStateStep { f, _phantom: PhantomData }
    }
}

impl<S, O, I, F> StateStep for LambdaStateStep<S, O, I, F> where
    F: Fn(S, I) -> Result<(O, S), Error>,
 {
    type Input = I;

    type Output = O;

    type State = S;

    open spec fn admits(&self, before: ContextView, state: S, input: I) -> bool {
        call_requires(self.f, (state, input))
    }

    open spec fn produces(
        &self,
        before: ContextView,
        state: S,
        input: I,
        after: ContextView,
        outcome: Result<(O, S), Error>,
    ) -> bool {
        after == before && call_ensures(self.f, (state, input), outcome)
    }

    fn run(&self, ctx: &mut ExecutionContext, state: S, input: I) -> (outcome: Result<
        (O, S),
        Error,
    >) {
        (self.f)(state, input)
    }
}

/// A high-level wrapper that runs a [`StateStep`]. The caller supplies the
/// state with each invocation and receives the next one.
pub struct StateWorkflow<SS> {
    /// The step that is run.
    pub step: SS,
    /// The name of the workflow.
    pub name: String,
}

impl<SS: StateStep> StateWorkflow<SS> {
    /// Create a new stateful workflow wrapping the given step, named
    /// `state_workflow`.
    pub fn new(step: SS) -> (workflow: Self)
        ensures
            workflow.step == step,
            workflow.name@ == "state_workflow"@,
    {
        StateWorkflow { step, name: String::from_str("state_workflow") }
    }

    /// Set a human-readable name for this workflow.
    pub fn with_name(self, name: &str) -> (workflow: Self)
        ensures
            workflow.step == self.step,
            workflow.name@ == name@,
    {
        StateWorkflow { step: self.step, name: String::from_str(name) }
    }

    /// Returns the workflow name.
    pub fn name(&self) -> (name: &str)
        ensures
            name@ == self.name@,
    {
        self.name.as_str()
    }

    /// Run one step of the stateful workflow in a fresh execution context.
    /// Returns what the step returned: the output and the updated state, or
    /// its error.
    pub fn run(&self, state: SS::State, input: SS::Input) -> (outcome: Result<
        (SS::Output, SS::State),
        Error,
    >)
        requires
            self.step.admits(ContextView::empty(), state, input),
        ensures
            exists|after: ContextView| #[trigger]
                self.step.produces(ContextView::empty(), state, input, after, outcome),
    {
        let mut ctx = ExecutionContext::new();
        let outcome = self.step.run(&mut ctx, state, input);
        outcome
    }

    /// Run one step using a caller-provided execution context.
    pub fn run_with_ctx(&self, ctx: &mut ExecutionContext, state: SS::State, input: SS::Input) -> (outcome:
        Result<(SS::Output, SS::State), Error>)
        requires
            self.step.admits(old(ctx)@, state, input),
        ensures
            self.step.produces(old(ctx)@, state, input, final(ctx)@, outcome),
    {
        self.step.run(ctx, state, input)
    }
}

/// Settles the result of a stateful step against the state held for it: on
/// success the held state becomes the returned one and the output is handed
/// on; on failure the held state is kept and the error is handed on.
pub fn settle<O, S>(held: &mut S, result: Result<(O, S), Error>) -> (outcome: Result<O, Error>)
    ensures
        match result {
            Ok((output, next)) => outcome == Ok::<O, Error>(output) && *final(held) == next,
            Err(error) => outcome == Err::<O, Error>(error) && *final(held) == *old(held),
        },
{
    match result {
        Ok((output, next)) => {
            *held = next;
            Ok(output)
        },
        Err(error) => Err(error),
    }
}

/// `value` is a value that `T::default()` can return.
pub open spec fn is_default<T: Default>(value: T) -> bool {
    call_ensures(T::default, (), value)
}

/// Owns the state of a [`StateStep`] between calls.
///
/// The state starts as the default value of its type. Each call hands a
/// clone of the held state to the step; the held state is replaced by the
/// state the step returns when it succeeds, and kept when it fails.
pub struct StepAdapter<SS> where SS: StateStep, SS::State: Default {
    /// The stateful step.
    pub step: SS,
    /// The state held for the next call.
    pub state: SS::State,
}

impl<SS> StepAdapter<SS> where SS: StateStep, SS::State: Default {
    /// Create a new adapter whose state is the default value.
    pub fn new(step: SS) -> (adapter: Self)
        ensures
            adapter.step == step,
            is_default(adapter.state),
    {
        StepAdapter { step, state: SS::State::default() }
    }

    /// Reset the held state to the default value.
    pub fn reset(&mut self)
        ensures
            final(self).step == old(self).step,
            is_default(final(self).state),
    {
        self.state = SS::State::default();
    }
}

impl<SS> StepAdapter<SS> where SS: StateStep, SS::State: Default + Clone {
    /// Whether the adapter may be run on `input` in the context `before`:
    /// the step admits every clone of the held state.
    pub open spec fn admits(&self, before: ContextView, input: SS::Input) -> bool {
        forall|snapshot: SS::State| #[trigger]
            cloned(self.state, snapshot) ==> self.step.admits(before, snapshot, input)
    }

    /// Whether running the adapter in the state `self` on `input` can leave
    /// the context `after` and the held state `held`, returning `outcome`.
    pub open spec fn produces(
        &self,
        before: ContextView,
        input: SS::Input,
        after: ContextView,
        held: SS::State,
        outcome: Result<SS::Output, Error>,
    ) -> bool {
        exists|snapshot: SS::State, result: Result<(SS::Output, SS::State), Error>|
            {
                &&& cloned(self.state, snapshot)
                &&& #[trigger] self.step.produces(before, snapshot, input, after, result)
                &&& match result {
                    Ok((output, next)) => outcome == Ok::<SS::Output, Error>(output) && held
                        == next,
                    Err(error) => outcome == Err::<SS::Output, Error>(error) && held
                        == self.state,
                }
            }
    }

    /// Run the step once on a clone of the held state. Only a success
    /// replaces the held state.
    pub fn run(&mut self, ctx: &mut ExecutionContext, input: SS::Input) -> (outcome: Result<
        SS::Output,
        Error,
    >)
        requires
            old(self).admits(old(ctx)@, input),
        ensures
            final(self).step == old(self).step,
            old(self).produces(old(ctx)@, input, final(ctx)@, final(self).state, outcome),
    {
        let snapshot = self.state.clone();
        assert(cloned(self.state, snapshot));
        let result = self.step.run(ctx, snapshot, input);
        settle(&mut self.state, result)
    }
}

/// A failing call leaves the adapter as it was: same step, same held state.
pub proof fn lemma_adapter_failure_keeps_state<SS>(
    adapter: StepAdapter<SS>,
    before: ContextView,
    input: SS::Input,
    after: ContextView,
    held: SS::State,
    error: Error,
) where SS: StateStep, SS::State: Default + Clone
    requires
        adapter.produces(before, input, after, held, Err(error)),
    ensures
        held == adapter.state,
{
}

/// After a successful call the held state is the state the step returned
/// with the output, computed from a clone of the state held before.
pub proof fn lemma_adapter_success_advances_state<SS>(
    adapter: StepAdapter<SS>,
    before: ContextView,
    input: SS::Input,
    after: ContextView,
    held: SS::State,
    output: SS::Output,
) where SS: StateStep, SS::State: Default + Clone
    requires
        adapter.produces(before, input, after, held, Ok(output)),
    ensures
        exists|snapshot: SS::State|
            cloned(adapter.state, snapshot) && #[trigger] adapter.step.produces(
                before,
                snapshot,
                input,
                after,
                Ok((output, held)),
            ),
{
}

} // verus!
