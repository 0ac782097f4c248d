use vstd::prelude::*;
use crate::error::RllmError;

verus! {

/// Runs one input across several providers and scores each output. The scoring
/// function maps a text to a number; without one every output scores zero.
pub struct LLMEvaluator<P, S> {
    llms: Vec<P>,
    scoring_fn: Option<S>,
}

impl<P, S> LLMEvaluator<P, S> {
    /// The providers, in registration order.
    pub closed spec fn providers(&self) -> Seq<P> {
        self.llms@
    }

    /// The scoring function, if one is configured.
    pub closed spec fn scorer(&self) -> Option<S> {
        self.scoring_fn
    }

    /// An evaluator over `llms` with no scoring function.
    pub fn new(llms: Vec<P>) -> (r: Self)
        ensures
            r.providers() == llms@,
            r.scorer() is None,
    {
        LLMEvaluator { llms, scoring_fn: None }
    }

    /// Sets the scoring function.
    pub fn scoring(self, f: S) -> (r: Self)
        ensures
            r.providers() == self.providers(),
            r.scorer() == Some(f),
    {
        LLMEvaluator { llms: self.llms, scoring_fn: Some(f) }
    }

    /// Number of providers.
    pub fn len(&self) -> (r: usize)
        ensures
            r == self.providers().len(),
    {
        self.llms.len()
    }

    /// The provider at position `i`.
    pub fn provider_at(&self, i: usize) -> (r: &P)
        requires
            i < self.providers().len(),
        ensures
            *r == self.providers()[i as int],
    {
        &self.llms[i]
    }

    /// The scoring function, if one is configured.
    pub fn scoring_fn(&self) -> (r: &Option<S>)
        ensures
            *r == self.scorer(),
    {
        &self.scoring_fn
    }

    /// Starts an evaluation over every provider.
    pub fn start(&self) -> (r: Evaluation)
        ensures
            r.total() == self.providers().len(),
            r.texts() == Seq::<Seq<char>>::empty(),
    {
        Evaluation::new(self.llms.len())
    }
}

/// A failed provider call of an evaluation, with the provider's position.
#[derive(Debug, Clone, PartialEq, Eq)]
pub struct EvalError {
    pub provider_index: usize,
    pub error: RllmError,
}

/// One evaluation run: providers are called one at a time, in order, and the
/// first failure ends the run.
pub struct Evaluation {
    total: usize,
    texts: Vec<String>,
    over: bool,
}

impl Evaluation {
    /// Number of providers to call.
    pub closed spec fn total(&self) -> nat {
        self.total as nat
    }

    /// The replies so far; reply `i` came from provider `i`.
    pub closed spec fn texts(&self) -> Seq<Seq<char>> {
        self.texts@.map_values(|t: String| t@)
    }

    /// A provider call failed and the run has ended.
    pub closed spec fn over(&self) -> bool {
        self.over
    }

    /// An evaluation over `total` providers with no reply yet.
    pub fn new(total: usize) -> (r: Self)
        ensures
            r.total() == total,
            r.texts() == Seq::<Seq<char>>::empty(),
            !r.over(),
    {
        let r = Evaluation { total, texts: Vec::new(), over: false };
        assert(r.texts() =~= Seq::<Seq<char>>::empty());
        r
    }

    /// The provider to call next, or `None` when every provider has replied.
    pub fn next_index(&self) -> (r: Option<usize>)
        requires
            self.texts().len() <= self.total(),
            !self.over(),
        ensures
            match r {
                Some(i) => i == self.texts().len() && i < self.total(),
                None => self.texts().len() == self.total(),
            },
    {
        if self.texts.len() < self.total {
            Some(self.texts.len())
        } else {
            None
        }
    }

    /// Stores the reply of the provider called last.
    pub fn record(&mut self, text: String)
        requires
            old(self).texts().len() < old(self).total(),
            !old(self).over(),
        ensures
            final(self).total() == old(self).total(),
            final(self).texts() == old(self).texts().push(text@),
            !final(self).over(),
    {
        self.texts.push(text);
        assert(self.texts() =~= old(self).texts().push(text@));
    }

    /// Ends the run with the failure of the provider called last, annotated with
    /// its position. No later provider is called and no reply is handed out.
    pub fn fail(&mut self, error: RllmError) -> (r: EvalError)
        requires
            old(self).texts().len() < old(self).total(),
            !old(self).over(),
        ensures
            r.provider_index == old(self).texts().len(),
            r.error == error,
            final(self).over(),
            final(self).total() == old(self).total(),
            final(self).texts() == old(self).texts(),
    {
        self.over = true;
        EvalError { provider_index: self.texts.len(), error }
    }

    /// Every reply, in provider order, once all providers have replied.
    pub fn into_texts(self) -> (r: Vec<String>)
        requires
            self.texts().len() == self.total(),
            !self.over(),
        ensures
            r@.map_values(|t: String| t@) == self.texts(),
            r@.len() == self.total(),
    {
        self.texts
    }
}

/// How a driven evaluation ends.
pub enum EvalEnd {
    /// Every provider replied, with these texts in provider order.
    Finished(Seq<Seq<char>>),
    /// The call to this provider failed.
    Aborted(int),
    /// A call was asked for and no reply was supplied.
    AwaitingReply,
}

/// The providers called by a driven evaluation, by position, and its end.
pub struct EvalTrace {
    pub calls: Seq<int>,
    pub end: EvalEnd,
}

/// Drives an evaluation over `total` providers that has the replies `texts`:
/// each call is answered by the next of `replies`, where `None` is a failure.
pub open spec fn eval_from(total: nat, texts: Seq<Seq<char>>, replies: Seq<Option<Seq<char>>>) -> EvalTrace
    decreases replies.len(),
{
    let i = texts.len() as int;
    if i >= total {
        EvalTrace { calls: Seq::empty(), end: EvalEnd::Finished(texts) }
    } else if replies.len() == 0 {
        EvalTrace { calls: seq![i], end: EvalEnd::AwaitingReply }
    } else {
        match replies[0] {
            None => EvalTrace { calls: seq![i], end: EvalEnd::Aborted(i) },
            Some(t) => {
                let rest = eval_from(total, texts.push(t), replies.drop_first());
                EvalTrace { calls: seq![i] + rest.calls, end: rest.end }
            },
        }
    }
}

/// Every reply succeeds with the given text.
pub open spec fn all_ok(texts: Seq<Seq<char>>) -> Seq<Option<Seq<char>>> {
    texts.map_values(|t: Seq<char>| Some(t))
}

/// The positions `from`, `from + 1`, ..., `to - 1`.
pub open spec fn positions(from: int, to: int) -> Seq<int> {
    Seq::new((to - from) as nat, |k: int| from + k)
}

proof fn lemma_all_reply_from(ts: Seq<Seq<char>>, m: int)
    requires
        0 <= m <= ts.len(),
    ensures
        eval_from(ts.len(), ts.subrange(0, m), all_ok(ts.subrange(m, ts.len() as int)))
            == (EvalTrace { calls: positions(m, ts.len() as int), end: EvalEnd::Finished(ts) }),
    decreases ts.len() - m,
{
    let n = ts.len() as int;
    if m == n {
        assert(ts.subrange(0, m) =~= ts);
        assert(positions(m, n) =~= Seq::<int>::empty());
    } else {
        let rep = all_ok(ts.subrange(m, n));
        assert(rep[0] == Some(ts[m]));
        assert(ts.subrange(0, m).push(ts[m]) =~= ts.subrange(0, m + 1));
        assert(rep.drop_first() =~= all_ok(ts.subrange(m + 1, n)));
        lemma_all_reply_from(ts, m + 1);
        assert(seq![m] + positions(m + 1, n) =~= positions(m, n));
    }
}

/// When every provider replies, each is called exactly once, in order, and the
/// evaluation returns every reply in provider order.
pub proof fn lemma_evaluation_calls_each_once(texts: Seq<Seq<char>>)
    ensures
        eval_from(texts.len(), Seq::empty(), all_ok(texts)).calls == positions(0, texts.len() as int),
        eval_from(texts.len(), Seq::empty(), all_ok(texts)).end == EvalEnd::Finished(texts),
{
    lemma_all_reply_from(texts, 0);
    assert(texts.subrange(0, 0) =~= Seq::<Seq<char>>::empty());
    assert(texts.subrange(0, texts.len() as int) =~= texts);
}

proof fn lemma_failure_from(total: nat, replies: Seq<Option<Seq<char>>>, i: int, m: int, texts: Seq<Seq<char>>)
    requires
        0 <= m <= i < total,
        i < replies.len(),
        texts.len() == m,
        forall|k: int| 0 <= k < i ==> #[trigger] replies[k] is Some,
        replies[i] is None,
    ensures
        eval_from(total, texts, replies.subrange(m, replies.len() as int))
            == (EvalTrace { calls: positions(m, i + 1), end: EvalEnd::Aborted(i) }),
    decreases i - m,
{
    let rep = replies.subrange(m, replies.len() as int);
    assert(rep[0] == replies[m]);
    if m == i {
        assert(positions(m, i + 1) =~= seq![m]);
    } else {
        let t = replies[m]->Some_0;
        assert(rep.drop_first() =~= replies.subrange(m + 1, replies.len() as int));
        lemma_failure_from(total, replies, i, m + 1, texts.push(t));
        assert(seq![m] + positions(m + 1, i + 1) =~= positions(m, i + 1));
    }
}

/// When provider `i` is the first to fail, providers `0..=i` are called once
/// each, in order, none after it, and the evaluation ends with that failure.
pub proof fn lemma_evaluation_fails_fast(total: nat, replies: Seq<Option<Seq<char>>>, i: int)
    requires
        0 <= i < total,
        i < replies.len(),
        forall|k: int| 0 <= k < i ==> #[trigger] replies[k] is Some,
        replies[i] is None,
    ensures
        eval_from(total, Seq::empty(), replies).calls == positions(0, i + 1),
        eval_from(total, Seq::empty(), replies).end == EvalEnd::Aborted(i),
{
    lemma_failure_from(total, replies, i, 0, Seq::empty());
    assert(replies.subrange(0, replies.len() as int) =~= replies);
}

} // verus!
