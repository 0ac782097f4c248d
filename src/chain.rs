use vstd::prelude::*;
use crate::chat::GenerationParams;
use crate::error::RllmError;
use crate::registry::{LLMRegistry, distinct, has_duplicate};
use crate::results::ChainResult;
use crate::template::{render, render_spec};

verus! {

/// How a step's rendered template is sent to its provider.
#[derive(Debug, Clone, Copy, PartialEq, Eq)]
pub enum MultiChainStepMode {
    /// As the single user message of a conversation.
    Chat,
    /// As a raw completion prompt.
    Completion,
}

/// One unit of work of a chain.
#[derive(Debug)]
pub struct MultiChainStep {
    /// Unique within its chain; later templates refer to the output as `{{id}}`.
    pub id: String,
    /// Resolved in the registry when the step runs.
    pub provider_id: String,
    pub mode: MultiChainStepMode,
    pub template: String,
    /// Overrides of the provider's defaults, passed through when present.
    pub params: Option<GenerationParams>,
}

/// The ids of `steps`, in order.
pub open spec fn step_ids(steps: Seq<MultiChainStep>) -> Seq<Seq<char>> {
    steps.map_values(|s: MultiChainStep| s.id@)
}

/// An ordered sequence of steps with distinct ids.
pub struct MultiPromptChain {
    steps: Vec<MultiChainStep>,
}

impl MultiPromptChain {
    /// The steps, in declared order.
    pub closed spec fn steps(&self) -> Seq<MultiChainStep> {
        self.steps@
    }

    /// Makes a chain of `steps`; two steps with one id are a configuration error.
    pub fn new(steps: Vec<MultiChainStep>) -> (r: Result<Self, RllmError>)
        ensures
            r is Ok <==> distinct(step_ids(steps@)),
            match r {
                Ok(c) => c.steps() == steps@,
                Err(e) => e is ConfigurationError,
            },
    {
        let mut ids: Vec<String> = Vec::new();
        let n = steps.len();
        let mut i: usize = 0;
        while i < n
            invariant
                n == steps@.len(),
                i <= n,
                ids@.len() == i,
                forall|k: int| 0 <= k < i ==> #[trigger] ids@[k]@ == steps@[k].id@,
            decreases n - i,
        {
            ids.push(steps[i].id.clone());
            i = i + 1;
        }
        assert(ids@.map_values(|s: String| s@) =~= step_ids(steps@));
        if has_duplicate(&ids) {
            Err(RllmError::ConfigurationError("duplicate step id".to_owned()))
        } else {
            Ok(MultiPromptChain { steps })
        }
    }

    /// Number of steps.
    pub fn len(&self) -> (r: usize)
        ensures
            r == self.steps().len(),
    {
        self.steps.len()
    }
}

/// What the next step of a run amounts to, given the steps, the registered
/// provider ids and the outputs of the steps completed so far.
pub enum StepOutcome {
    /// Every step has completed.
    Finished,
    /// The next step's provider is to be called with this prompt.
    Invoke(Seq<char>),
    /// The next step's template names a step with no output yet.
    TemplateMissing(Seq<char>),
    /// The next step's provider id is not registered.
    UnknownProvider,
}

/// The decision for step `done.len()`: render its template against the completed
/// outputs first, then resolve its provider.
pub open spec fn next_outcome(
    steps: Seq<MultiChainStep>,
    providers: Seq<Seq<char>>,
    done: Seq<(Seq<char>, Seq<char>)>,
) -> StepOutcome {
    if done.len() >= steps.len() {
        StepOutcome::Finished
    } else {
        let s = steps[done.len() as int];
        match render_spec(s.template@, done) {
            Err(name) => StepOutcome::TemplateMissing(name),
            Ok(p) => if providers.contains(s.provider_id@) {
                StepOutcome::Invoke(p)
            } else {
                StepOutcome::UnknownProvider
            },
        }
    }
}

/// A provider call that a run asks its driver to make.
#[derive(Debug)]
pub struct StepCall {
    pub step_id: String,
    pub provider_id: String,
    pub mode: MultiChainStepMode,
    /// The step's template with every placeholder substituted.
    pub prompt: String,
    pub params: Option<GenerationParams>,
}

/// A failure of a run, with the id of the step it happened at.
#[derive(Debug, Clone, PartialEq, Eq)]
pub struct ChainError {
    pub step_id: String,
    pub error: RllmError,
}

/// What a run asks for next.
pub enum ChainNext {
    /// Call a provider and hand the reply to `record`, or its failure to `fail`.
    Call(StepCall),
    /// All steps completed; the outputs are had from `into_result`.
    Finished,
    /// The run stopped before calling any provider for this step.
    Aborted(ChainError),
}

/// One execution of a chain: it decides each step, and its driver performs the
/// provider calls. Steps run strictly in order, and the first failure ends the run.
pub struct ChainRun {
    steps: Vec<MultiChainStep>,
    done: ChainResult,
    waiting: bool,
    over: bool,
}

impl ChainRun {
    /// The chain's steps.
    pub closed spec fn steps(&self) -> Seq<MultiChainStep> {
        self.steps@
    }

    /// The outputs of the completed steps.
    pub closed spec fn done(&self) -> Seq<(Seq<char>, Seq<char>)> {
        self.done@
    }

    /// A provider call has been asked for and its reply is awaited.
    pub closed spec fn waiting(&self) -> bool {
        self.waiting
    }

    /// The run has finished or stopped.
    pub closed spec fn over(&self) -> bool {
        self.over
    }

    /// The completed outputs are those of the first steps, in order.
    pub closed spec fn wf(&self) -> bool {
        &&& self.done@.len() <= self.steps@.len()
        &&& forall|k: int| 0 <= k < self.done@.len() ==> #[trigger] self.done@[k].0 == self.steps@[k].id@
        &&& self.waiting ==> self.done@.len() < self.steps@.len() && !self.over
    }

    /// Starts a run of `chain` with no step completed.
    pub fn new(chain: MultiPromptChain) -> (r: Self)
        ensures
            r.wf(),
            r.steps() == chain.steps(),
            r.done() == Seq::<(Seq<char>, Seq<char>)>::empty(),
            !r.waiting(),
            !r.over(),
    {
        ChainRun { steps: chain.steps, done: ChainResult::new(), waiting: false, over: false }
    }

    /// Decides the next step: the provider call to make, the end of the run, or
    /// the error that stops it.
    pub fn next<P>(&mut self, registry: &LLMRegistry<P>) -> (r: ChainNext)
        requires
            old(self).wf(),
            !old(self).waiting(),
            !old(self).over(),
        ensures
            final(self).wf(),
            final(self).steps() == old(self).steps(),
            final(self).done() == old(self).done(),
            match next_outcome(old(self).steps(), registry.ids(), old(self).done()) {
                StepOutcome::Finished => r is Finished && final(self).over() && !final(self).waiting(),
                StepOutcome::Invoke(p) => {
                    let s = old(self).steps()[old(self).done().len() as int];
                    &&& r matches ChainNext::Call(c)
                    &&& c.step_id@ == s.id@
                    &&& c.provider_id@ == s.provider_id@
                    &&& c.mode == s.mode
                    &&& c.prompt@ == p
                    &&& c.params == s.params
                    &&& final(self).waiting()
                },
                StepOutcome::TemplateMissing(name) => {
                    let s = old(self).steps()[old(self).done().len() as int];
                    &&& r matches ChainNext::Aborted(e)
                    &&& e.step_id@ == s.id@
                    &&& e.error matches RllmError::TemplateError(m)
                    &&& m@ == name
                    &&& final(self).over() && !final(self).waiting()
                },
                StepOutcome::UnknownProvider => {
                    let s = old(self).steps()[old(self).done().len() as int];
                    &&& r matches ChainNext::Aborted(e)
                    &&& e.step_id@ == s.id@
                    &&& e.error is ConfigurationError
                    &&& final(self).over() && !final(self).waiting()
                },
            },
    {
        let k = self.done.len();
        if k >= self.steps.len() {
            self.over = true;
            return ChainNext::Finished;
        }
        let s = &self.steps[k];
        match render(s.template.as_str(), &self.done) {
            Err(error) => {
                self.over = true;
                ChainNext::Aborted(ChainError { step_id: s.id.clone(), error })
            },
            Ok(prompt) => match registry.position(s.provider_id.as_str()) {
                None => {
                    self.over = true;
                    ChainNext::Aborted(
                        ChainError {
                            step_id: s.id.clone(),
                            error: RllmError::ConfigurationError("unknown provider id".to_owned()),
                        },
                    )
                },
                Some(_) => {
                    let call = StepCall {
                        step_id: s.id.clone(),
                        provider_id: s.provider_id.clone(),
                        mode: s.mode,
                        prompt,
                        params: s.params,
                    };
                    self.waiting = true;
                    ChainNext::Call(call)
                },
            },
        }
    }

    /// Stores the reply to the call last asked for as that step's output.
    pub fn record(&mut self, text: String)
        requires
            old(self).wf(),
            old(self).waiting(),
        ensures
            final(self).wf(),
            final(self).steps() == old(self).steps(),
            final(self).done() == old(self).done().push(
                (old(self).steps()[old(self).done().len() as int].id@, text@),
            ),
            !final(self).waiting(),
            !final(self).over(),
    {
        let k = self.done.len();
        let id = self.steps[k].id.clone();
        self.done.push(id, text);
        self.waiting = false;
    }

    /// Ends the run with the failure of the call last asked for, annotated with
    /// that step's id. No later step runs.
    pub fn fail(&mut self, error: RllmError) -> (r: ChainError)
        requires
            old(self).wf(),
            old(self).waiting(),
        ensures
            final(self).wf(),
            final(self).steps() == old(self).steps(),
            final(self).done() == old(self).done(),
            r.step_id@ == old(self).steps()[old(self).done().len() as int].id@,
            r.error == error,
            final(self).over(),
            !final(self).waiting(),
    {
        let k = self.done.len();
        let step_id = self.steps[k].id.clone();
        self.waiting = false;
        self.over = true;
        ChainError { step_id, error }
    }

    /// The outputs of every step, in declared order, once all have completed.
    pub fn into_result(self) -> (r: ChainResult)
        requires
            self.wf(),
            self.done().len() == self.steps().len(),
        ensures
            r@ == self.done(),
            r@.len() == self.steps().len(),
    {
        self.done
    }
}

} // verus!
