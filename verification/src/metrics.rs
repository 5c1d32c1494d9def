//! Counters collected while a workflow runs.

use vstd::prelude::*;

verus! {

/// Mathematical value of a [`WorkflowMetrics`]: unbounded counters and the
/// failure messages in the order they were recorded.
pub struct MetricsView {
    pub prompt: nat,
    pub completion: nat,
    pub total: nat,
    pub steps: nat,
    pub failures: Seq<Seq<char>>,
}

/// One recorded mutation of the metrics.
pub enum MetricOp {
    /// Prompt tokens were consumed.
    Prompt(nat),
    /// Completion tokens were generated.
    Completion(nat),
    /// Prompt and completion tokens were recorded together.
    Tokens(nat, nat),
    /// A step completed successfully.
    Step,
    /// A failure message was recorded.
    Failure(Seq<char>),
}

impl MetricOp {
    /// Prompt tokens this operation contributes.
    pub open spec fn prompt(self) -> nat {
        match self {
            MetricOp::Prompt(p) => p,
            MetricOp::Tokens(p, _) => p,
            _ => 0,
        }
    }

    /// Completion tokens this operation contributes.
    pub open spec fn completion(self) -> nat {
        match self {
            MetricOp::Completion(q) => q,
            MetricOp::Tokens(_, q) => q,
            _ => 0,
        }
    }
}

impl MetricsView {
    /// The metrics of a run in which nothing has been recorded.
    pub open spec fn zero() -> MetricsView {
        MetricsView { prompt: 0, completion: 0, total: 0, steps: 0, failures: Seq::empty() }
    }

    /// The total is the sum of the two token counters.
    pub open spec fn consistent(self) -> bool {
        self.total == self.prompt + self.completion
    }

    /// The metrics after one more operation.
    pub open spec fn apply(self, op: MetricOp) -> MetricsView {
        match op {
            MetricOp::Step => MetricsView { steps: self.steps + 1, ..self },
            MetricOp::Failure(message) => MetricsView {
                failures: self.failures.push(message),
                ..self
            },
            _ => MetricsView {
                prompt: self.prompt + op.prompt(),
                completion: self.completion + op.completion(),
                total: self.total + op.prompt() + op.completion(),
                ..self
            },
        }
    }

    /// The metrics after a sequence of operations, oldest first.
    pub open spec fn apply_all(self, ops: Seq<MetricOp>) -> MetricsView
        decreases ops.len(),
    {
        if ops.len() == 0 {
            self
        } else {
            self.apply_all(ops.drop_last()).apply(ops.last())
        }
    }

    /// Every counter fits the machine word the executable counters use.
    pub open spec fn representable(self) -> bool {
        &&& self.prompt <= usize::MAX
        &&& self.completion <= usize::MAX
        &&& self.total <= usize::MAX
        &&& self.steps <= usize::MAX
    }
}

/// Sum of the prompt tokens of `ops`.
pub open spec fn prompt_sum(ops: Seq<MetricOp>) -> nat
    decreases ops.len(),
{
    if ops.len() == 0 {
        0
    } else {
        prompt_sum(ops.drop_last()) + ops.last().prompt()
    }
}

/// Sum of the completion tokens of `ops`.
pub open spec fn completion_sum(ops: Seq<MetricOp>) -> nat
    decreases ops.len(),
{
    if ops.len() == 0 {
        0
    } else {
        completion_sum(ops.drop_last()) + ops.last().completion()
    }
}

/// Number of successful step completions among `ops`.
pub open spec fn step_count(ops: Seq<MetricOp>) -> nat
    decreases ops.len(),
{
    if ops.len() == 0 {
        0
    } else {
        step_count(ops.drop_last()) + if ops.last() is Step { 1nat } else { 0nat }
    }
}

/// The failure messages among `ops`, in order.
pub open spec fn failures_of(ops: Seq<MetricOp>) -> Seq<Seq<char>>
    decreases ops.len(),
{
    if ops.len() == 0 {
        Seq::empty()
    } else {
        match ops.last() {
            MetricOp::Failure(message) => failures_of(ops.drop_last()).push(message),
            _ => failures_of(ops.drop_last()),
        }
    }
}

/// Number of failures among `ops`.
pub open spec fn failure_count(ops: Seq<MetricOp>) -> nat
    decreases ops.len(),
{
    if ops.len() == 0 {
        0
    } else {
        failure_count(ops.drop_last()) + if ops.last() is Failure { 1nat } else { 0nat }
    }
}

/// Whatever is recorded on top of `start`, each counter grows by exactly what
/// was recorded: the token counters by the sums of the recorded tokens, the
/// total by both sums, the step counter by the number of completions, and the
/// failure list by the recorded messages, appended in order.
pub proof fn lemma_metrics_accumulate(start: MetricsView, ops: Seq<MetricOp>)
    ensures
        start.apply_all(ops).prompt == start.prompt + prompt_sum(ops),
        start.apply_all(ops).completion == start.completion + completion_sum(ops),
        start.apply_all(ops).total == start.total + prompt_sum(ops) + completion_sum(ops),
        start.apply_all(ops).steps == start.steps + step_count(ops),
        start.apply_all(ops).failures == start.failures + failures_of(ops),
        start.apply_all(ops).failures.len() == start.failures.len() + failure_count(ops),
        start.consistent() ==> start.apply_all(ops).consistent(),
    decreases ops.len(),
{
    if ops.len() == 0 {
        assert(start.failures + failures_of(ops) =~= start.failures);
    } else {
        lemma_metrics_accumulate(start, ops.drop_last());
        let before = start.apply_all(ops.drop_last());
        match ops.last() {
            MetricOp::Failure(message) => {
                assert(before.failures.push(message) =~= start.failures + failures_of(ops));
            },
            _ => {},
        }
    }
}

/// In a run that starts from nothing, the total token count is the sum of all
/// recorded prompt tokens plus all recorded completion tokens, the number of
/// completed steps is the number of recorded completions, and the number of
/// failures is the number of recorded failures.
pub proof fn lemma_metrics_from_zero(ops: Seq<MetricOp>)
    ensures
        MetricsView::zero().apply_all(ops).total == prompt_sum(ops) + completion_sum(ops),
        MetricsView::zero().apply_all(ops).prompt == prompt_sum(ops),
        MetricsView::zero().apply_all(ops).completion == completion_sum(ops),
        MetricsView::zero().apply_all(ops).steps == step_count(ops),
        MetricsView::zero().apply_all(ops).failures.len() == failure_count(ops),
        MetricsView::zero().apply_all(ops).consistent(),
{
    lemma_metrics_accumulate(MetricsView::zero(), ops);
}

/// No operation ever lowers a counter or removes a failure message.
pub proof fn lemma_metrics_monotonic(before: MetricsView, op: MetricOp)
    ensures
        before.apply(op).prompt >= before.prompt,
        before.apply(op).completion >= before.completion,
        before.apply(op).total >= before.total,
        before.apply(op).steps >= before.steps,
        before.failures.is_prefix_of(before.apply(op).failures),
{
}

/// Aggregated metrics of a workflow execution.
#[derive(Debug)]
pub struct WorkflowMetrics {
    /// Total prompt tokens consumed across all steps.
    pub prompt_token_count: usize,
    /// Total completion tokens generated across all steps.
    pub completion_token_count: usize,
    /// Total tokens (prompt + completion) across all steps.
    pub total_token_count: usize,
    /// Number of workflow steps completed successfully.
    pub steps_completed: usize,
    /// Collected failure messages, oldest first.
    pub failures: Vec<String>,
}

impl View for WorkflowMetrics {
    type V = MetricsView;

    open spec fn view(&self) -> MetricsView {
        MetricsView {
            prompt: self.prompt_token_count as nat,
            completion: self.completion_token_count as nat,
            total: self.total_token_count as nat,
            steps: self.steps_completed as nat,
            failures: self.failures.deep_view(),
        }
    }
}

impl Default for WorkflowMetrics {
    fn default() -> (metrics: Self)
        ensures
            metrics@ == MetricsView::zero(),
    {
        let metrics = WorkflowMetrics {
            prompt_token_count: 0,
            completion_token_count: 0,
            total_token_count: 0,
            steps_completed: 0,
            failures: Vec::new(),
        };
        assert(metrics.failures.deep_view() =~= Seq::<Seq<char>>::empty());
        metrics
    }
}

impl Clone for WorkflowMetrics {
    fn clone(&self) -> (copy: Self)
        ensures
            copy@ == self@,
    {
        let mut failures: Vec<String> = Vec::new();
        let mut i: usize = 0;
        while i < self.failures.len()
            invariant
                i <= self.failures.len(),
                failures.len() == i,
                forall|k: int| 0 <= k < i ==> failures[k]@ == self.failures[k]@,
            decreases self.failures.len() - i,
        {
            failures.push(self.failures[i].clone());
            i += 1;
        }
        assert(failures.deep_view() =~= self.failures.deep_view());
        WorkflowMetrics {
            prompt_token_count: self.prompt_token_count,
            completion_token_count: self.completion_token_count,
            total_token_count: self.total_token_count,
            steps_completed: self.steps_completed,
            failures,
        }
    }
}

impl WorkflowMetrics {
    /// Record prompt token usage.
    pub fn add_prompt_tokens(&mut self, count: usize)
        requires
            old(self)@.apply(MetricOp::Prompt(count as nat)).representable(),
        ensures
            final(self)@ == old(self)@.apply(MetricOp::Prompt(count as nat)),
    {
        self.prompt_token_count += count;
        self.total_token_count += count;
    }

    /// Record completion token usage.
    pub fn add_completion_tokens(&mut self, count: usize)
        requires
            old(self)@.apply(MetricOp::Completion(count as nat)).representable(),
        ensures
            final(self)@ == old(self)@.apply(MetricOp::Completion(count as nat)),
    {
        self.completion_token_count += count;
        self.total_token_count += count;
    }

    /// Record both prompt and completion tokens.
    pub fn add_tokens(&mut self, prompt: usize, completion: usize)
        requires
            old(self)@.apply(MetricOp::Tokens(prompt as nat, completion as nat)).representable(),
        ensures
            final(self)@ == old(self)@.apply(MetricOp::Tokens(prompt as nat, completion as nat)),
    {
        self.prompt_token_count += prompt;
        self.completion_token_count += completion;
        self.total_token_count += prompt;
        self.total_token_count += completion;
    }

    /// Record a failure message.
    pub fn record_failure(&mut self, error: String)
        ensures
            final(self)@ == old(self)@.apply(MetricOp::Failure(error@)),
    {
        self.failures.push(error);
        assert(self.failures.deep_view() =~= old(self).failures.deep_view().push(error@));
    }

    /// Increment the steps completed counter.
    pub fn record_step(&mut self)
        requires
            old(self)@.apply(MetricOp::Step).representable(),
        ensures
            final(self)@ == old(self)@.apply(MetricOp::Step),
    {
        self.steps_completed += 1;
    }

    /// Check if there were any failures.
    pub fn has_failures(&self) -> (any: bool)
        ensures
            any == (self@.failures.len() > 0),
    {
        self.failures.len() > 0
    }

    /// Get the total number of tokens used.
    pub fn total_tokens(&self) -> (total: usize)
        ensures
            total == self@.total,
    {
        self.total_token_count
    }
}

} // verus!
