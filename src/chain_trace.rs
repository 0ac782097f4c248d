use vstd::prelude::*;
use crate::chain::{MultiChainStep, StepOutcome, next_outcome};
use crate::results::{lookup, lemma_lookup_from_some};
use crate::template::{placeholders, placeholder_free, lemma_render_missing, lemma_render_placeholder_free};

verus! {

/// Why a run stopped early.
pub enum AbortCause {
    TemplateMissing(Seq<char>),
    UnknownProvider,
    ProviderFailed,
}

/// How a driven run ends.
pub enum RunEnd {
    /// Every step completed, with these outputs.
    Finished(Seq<(Seq<char>, Seq<char>)>),
    /// The run stopped at this step.
    Aborted(int, AbortCause),
    /// A call was asked for and no reply was supplied.
    AwaitingReply,
}

/// The provider calls of a driven run, as `(provider id, prompt)`, and its end.
pub struct Trace {
    pub calls: Seq<(Seq<char>, Seq<char>)>,
    pub end: RunEnd,
}

/// Drives a run that has completed `done`: each call the run asks for is answered
/// by the next of `replies`, where `None` stands for a failed call.
pub open spec fn run_from(
    steps: Seq<MultiChainStep>,
    providers: Seq<Seq<char>>,
    done: Seq<(Seq<char>, Seq<char>)>,
    replies: Seq<Option<Seq<char>>>,
) -> Trace
    decreases replies.len(),
{
    let k = done.len() as int;
    match next_outcome(steps, providers, done) {
        StepOutcome::Finished => Trace { calls: Seq::empty(), end: RunEnd::Finished(done) },
        StepOutcome::TemplateMissing(name) => Trace {
            calls: Seq::empty(),
            end: RunEnd::Aborted(k, AbortCause::TemplateMissing(name)),
        },
        StepOutcome::UnknownProvider => Trace {
            calls: Seq::empty(),
            end: RunEnd::Aborted(k, AbortCause::UnknownProvider),
        },
        StepOutcome::Invoke(p) => {
            let call = (steps[k].provider_id@, p);
            if replies.len() == 0 {
                Trace { calls: seq![call], end: RunEnd::AwaitingReply }
            } else {
                match replies[0] {
                    None => Trace {
                        calls: seq![call],
                        end: RunEnd::Aborted(k, AbortCause::ProviderFailed),
                    },
                    Some(text) => {
                        let rest = run_from(
                            steps,
                            providers,
                            done.push((steps[k].id@, text)),
                            replies.drop_first(),
                        );
                        Trace { calls: seq![call] + rest.calls, end: rest.end }
                    },
                }
            }
        },
    }
}

/// A run of `steps` from the start, driven by `replies`.
pub open spec fn run_trace(
    steps: Seq<MultiChainStep>,
    providers: Seq<Seq<char>>,
    replies: Seq<Option<Seq<char>>>,
) -> Trace {
    run_from(steps, providers, Seq::empty(), replies)
}

/// The outputs of the first `m` steps when step `k` produced `texts[k]`.
pub open spec fn outputs(steps: Seq<MultiChainStep>, texts: Seq<Seq<char>>, m: int) -> Seq<
    (Seq<char>, Seq<char>),
> {
    Seq::new(m as nat, |k: int| (steps[k].id@, texts[k]))
}

/// Every reply succeeds with the given text.
pub open spec fn successes(texts: Seq<Seq<char>>) -> Seq<Option<Seq<char>>> {
    texts.map_values(|t: Seq<char>| Some(t))
}

proof fn lemma_independent_from(
    steps: Seq<MultiChainStep>,
    providers: Seq<Seq<char>>,
    texts: Seq<Seq<char>>,
    m: int,
)
    requires
        texts.len() == steps.len(),
        0 <= m <= steps.len(),
        forall|k: int| 0 <= k < steps.len() ==> placeholder_free(#[trigger] steps[k].template@),
        forall|k: int| 0 <= k < steps.len() ==> providers.contains(#[trigger] steps[k].provider_id@),
    ensures
        run_from(steps, providers, outputs(steps, texts, m), successes(texts.subrange(m, texts.len() as int))).calls
            == steps.subrange(m, steps.len() as int).map_values(
            |s: MultiChainStep| (s.provider_id@, s.template@),
        ),
        run_from(steps, providers, outputs(steps, texts, m), successes(texts.subrange(m, texts.len() as int))).end
            == RunEnd::Finished(outputs(steps, texts, steps.len() as int)),
    decreases steps.len() - m,
{
    let n = steps.len() as int;
    let done = outputs(steps, texts, m);
    let rep = successes(texts.subrange(m, n));
    if m == n {
        assert(steps.subrange(m, n).map_values(|s: MultiChainStep| (s.provider_id@, s.template@))
            =~= Seq::empty());
    } else {
        lemma_render_placeholder_free(steps[m].template@, done);
        assert(rep.len() > 0);
        assert(rep[0] == Some(texts[m]));
        assert(done.push((steps[m].id@, texts[m])) =~= outputs(steps, texts, m + 1));
        assert(rep.drop_first() =~= successes(texts.subrange(m + 1, n)));
        lemma_independent_from(steps, providers, texts, m + 1);
        assert(steps.subrange(m, n).map_values(|s: MultiChainStep| (s.provider_id@, s.template@))
            =~= seq![(steps[m].provider_id@, steps[m].template@)] + steps.subrange(m + 1, n).map_values(
            |s: MultiChainStep| (s.provider_id@, s.template@),
        ));
    }
}

/// A chain whose templates refer to no other step, with every provider
/// registered, calls each step's provider exactly once, in declared order, with
/// the step's template as prompt, and finishes with every step's output in order.
pub proof fn lemma_independent_steps_called_in_order(
    steps: Seq<MultiChainStep>,
    providers: Seq<Seq<char>>,
    texts: Seq<Seq<char>>,
)
    requires
        texts.len() == steps.len(),
        forall|k: int| 0 <= k < steps.len() ==> placeholder_free(#[trigger] steps[k].template@),
        forall|k: int| 0 <= k < steps.len() ==> providers.contains(#[trigger] steps[k].provider_id@),
    ensures
        run_trace(steps, providers, successes(texts)).calls == steps.map_values(
            |s: MultiChainStep| (s.provider_id@, s.template@),
        ),
        run_trace(steps, providers, successes(texts)).end == RunEnd::Finished(
            outputs(steps, texts, steps.len() as int),
        ),
{
    lemma_independent_from(steps, providers, texts, 0);
    assert(outputs(steps, texts, 0) =~= Seq::empty());
    assert(texts.subrange(0, texts.len() as int) =~= texts);
    assert(steps.subrange(0, steps.len() as int) =~= steps);
}

proof fn lemma_unresolved_from(
    steps: Seq<MultiChainStep>,
    providers: Seq<Seq<char>>,
    done: Seq<(Seq<char>, Seq<char>)>,
    replies: Seq<Option<Seq<char>>>,
    k: int,
    name: Seq<char>,
)
    requires
        0 <= k < steps.len(),
        done.len() <= k,
        forall|i: int| 0 <= i < done.len() ==> #[trigger] done[i].0 == steps[i].id@,
        placeholders(steps[k].template@).contains(name),
        forall|i: int| 0 <= i < k ==> #[trigger] steps[i].id@ != name,
    ensures
        run_from(steps, providers, done, replies).calls.len() <= k - done.len(),
        match run_from(steps, providers, done, replies).end {
            RunEnd::Finished(_) => false,
            RunEnd::Aborted(m, cause) => m < k || (m == k && cause is TemplateMissing),
            RunEnd::AwaitingReply => true,
        },
    decreases replies.len(),
{
    let j = done.len() as int;
    if j == k {
        lemma_lookup_from_some(done, name, 0);
        assert(lookup(done, name) is None);
        lemma_render_missing(steps[k].template@, done, name);
    } else if replies.len() > 0 && replies[0] is Some {
        if next_outcome(steps, providers, done) is Invoke {
            let text = replies[0]->Some_0;
            let next = done.push((steps[j].id@, text));
            assert forall|i: int| 0 <= i < next.len() implies #[trigger] next[i].0 == steps[i].id@ by {
                if i < j {
                    assert(next[i] == done[i]);
                }
            }
            lemma_unresolved_from(steps, providers, next, replies.drop_first(), k, name);
        }
    }
}

/// A step whose template names a step that has not completed before it (a later
/// step, or itself) stops the run: no provider is called for it or for any later
/// step, the run never finishes, and if it gets that far it stops there with a
/// template error.
pub proof fn lemma_unresolved_reference_stops_run(
    steps: Seq<MultiChainStep>,
    providers: Seq<Seq<char>>,
    replies: Seq<Option<Seq<char>>>,
    k: int,
    name: Seq<char>,
)
    requires
        0 <= k < steps.len(),
        placeholders(steps[k].template@).contains(name),
        forall|i: int| 0 <= i < k ==> #[trigger] steps[i].id@ != name,
    ensures
        run_trace(steps, providers, replies).calls.len() <= k,
        match run_trace(steps, providers, replies).end {
            RunEnd::Finished(_) => false,
            RunEnd::Aborted(m, cause) => m < k || (m == k && cause is TemplateMissing),
            RunEnd::AwaitingReply => true,
        },
{
    lemma_unresolved_from(steps, providers, Seq::empty(), replies, k, name);
}

/// A failed provider call ends the run at that step: nothing is called after it
/// and no outputs are handed out.
pub proof fn lemma_failure_stops_run(
    steps: Seq<MultiChainStep>,
    providers: Seq<Seq<char>>,
    done: Seq<(Seq<char>, Seq<char>)>,
    replies: Seq<Option<Seq<char>>>,
)
    requires
        replies.len() > 0,
        replies[0] is None,
        next_outcome(steps, providers, done) is Invoke,
    ensures
        run_from(steps, providers, done, replies).calls.len() == 1,
        run_from(steps, providers, done, replies).end == RunEnd::Aborted(
            done.len() as int,
            AbortCause::ProviderFailed,
        ),
{
}

} // verus!
