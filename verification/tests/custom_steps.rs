use llm_workflow::context::ContextView;
use llm_workflow::step::chain::ChainStep;
use llm_workflow::step::parallel::ParallelMapStep;
use llm_workflow::{Error, ExecutionContext, Step, Workflow};

/// A step that spends tokens for its input and fails on a negative one.
struct Spend;

impl Step for Spend {
    type Input = i64;
    type Output = i64;

    fn admits(&self, _before: ContextView, _input: i64) -> bool {
        unreachable!()
    }

    fn produces(
        &self,
        _before: ContextView,
        _input: i64,
        _after: ContextView,
        _outcome: Result<i64, Error>,
    ) -> bool {
        unreachable!()
    }

    fn label(&self) -> vstd::seq::Seq<char> {
        unreachable!()
    }

    fn run(&self, ctx: &mut ExecutionContext, input: i64) -> Result<i64, Error> {
        if input < 0 {
            ctx.record_failure(format!("negative {}", input));
            return Err(Error::Execution(format!("negative {}", input)));
        }
        ctx.record_tokens(input as usize, 2 * input as usize);
        Ok(input + 1)
    }

    fn name(&self) -> &str {
        "Spend"
    }
}

#[test]
fn custom_step_records_into_the_context() {
    let mut ctx = ExecutionContext::new();
    assert_eq!(Spend.run(&mut ctx, 3).unwrap(), 4);
    let m = ctx.snapshot();
    assert_eq!(m.prompt_token_count, 3);
    assert_eq!(m.completion_token_count, 6);
    assert_eq!(m.total_token_count, 9);
    assert_eq!(Spend.name(), "Spend");
}

#[test]
fn chain_threads_the_context_through_both_steps() {
    let chain = ChainStep::new(Spend, Spend);
    let mut ctx = ExecutionContext::new();
    assert_eq!(chain.run(&mut ctx, 1).unwrap(), 3);
    let m = ctx.snapshot();
    assert_eq!(m.prompt_token_count, 1 + 2);
    assert_eq!(m.completion_token_count, 2 + 4);
    assert_eq!(m.total_token_count, 9);
}

#[test]
fn chain_first_failure_leaves_only_the_first_steps_records() {
    let chain = ChainStep::new(Spend, Spend);
    let mut ctx = ExecutionContext::new();
    let err = chain.run(&mut ctx, -1).unwrap_err();
    assert!(matches!(err, Error::Execution(ref m) if m == "negative -1"));
    let m = ctx.snapshot();
    assert_eq!(m.total_token_count, 0);
    assert_eq!(m.failures, vec!["negative -1".to_string()]);
}

#[test]
fn fan_out_merges_the_records_of_every_item() {
    let fan_out = ParallelMapStep::new(Spend);
    let mut ctx = ExecutionContext::new();
    let err = fan_out.run(&mut ctx, vec![1, -2, 3, -4]).unwrap_err();
    assert!(matches!(err, Error::Execution(ref m) if m == "negative -2"));
    let m = ctx.snapshot();
    assert_eq!(m.prompt_token_count, 4);
    assert_eq!(m.completion_token_count, 8);
    assert_eq!(m.total_token_count, 12);
    assert_eq!(m.failures, vec!["negative -2".to_string(), "negative -4".to_string()]);
}

#[test]
fn workflow_reports_what_the_step_recorded_plus_one_completion() {
    let workflow = Workflow::new(ChainStep::new(Spend, Spend));
    let (out, metrics) = workflow.run(10).unwrap();
    assert_eq!(out, 12);
    assert_eq!(metrics.prompt_token_count, 21);
    assert_eq!(metrics.completion_token_count, 42);
    assert_eq!(metrics.total_token_count, 63);
    assert_eq!(metrics.steps_completed, 1);
}
