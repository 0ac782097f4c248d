use vstd::prelude::*;
use crate::chat::{ChatMessage, ChatRole};
use crate::error::RllmError;

verus! {

/// Wraps a provider with a validator of its text outputs and a bound on the
/// number of attempts. The wrapper itself holds no state across requests; each
/// request runs its own `ChatRetry` or `CompletionRetry`.
pub struct ValidatedLLM<P, V> {
    inner: P,
    validator: V,
    attempts: usize,
}

impl<P, V> ValidatedLLM<P, V> {
    /// The wrapped provider.
    pub closed spec fn wrapped(&self) -> P {
        self.inner
    }

    /// The validator: text to acceptance, or to the reason for rejection.
    pub closed spec fn check(&self) -> V {
        self.validator
    }

    /// The number of inner calls a request may make.
    pub closed spec fn max_attempts(&self) -> nat {
        self.attempts as nat
    }

    /// Wraps `inner`; a request makes at most `attempts` inner calls.
    pub fn new(inner: P, validator: V, attempts: usize) -> (r: Self)
        requires
            attempts >= 1,
        ensures
            r.wrapped() == inner,
            r.check() == validator,
            r.max_attempts() == attempts,
    {
        ValidatedLLM { inner, validator, attempts }
    }

    /// The wrapped provider.
    pub fn inner(&self) -> (r: &P)
        ensures
            *r == self.wrapped(),
    {
        &self.inner
    }

    /// The validator.
    pub fn validator(&self) -> (r: &V)
        ensures
            *r == self.check(),
    {
        &self.validator
    }

    /// The number of inner calls a request may make.
    pub fn attempts(&self) -> (r: usize)
        ensures
            r == self.max_attempts(),
    {
        self.attempts
    }

    /// Starts a validated chat request on `messages`.
    pub fn chat_retry(&self, messages: Vec<ChatMessage>) -> (r: ChatRetry)
        requires
            self.max_attempts() >= 1,
        ensures
            r.conversation() == messages@,
            r.remaining() == self.max_attempts(),
            !r.finished(),
    {
        ChatRetry::new(messages, self.attempts)
    }

    /// Starts a validated completion request.
    pub fn completion_retry(&self) -> (r: CompletionRetry)
        requires
            self.max_attempts() >= 1,
        ensures
            r.remaining() == self.max_attempts(),
            !r.finished(),
    {
        CompletionRetry::new(self.attempts)
    }
}

/// What to do after the validator has judged one reply.
pub enum Decision {
    Accept,
    Retry,
    Reject,
}

/// An accepted reply is returned; a rejected one is retried while attempts
/// remain after it, and otherwise ends the request.
pub open spec fn decide(remaining: nat, accepted: bool) -> Decision {
    if accepted {
        Decision::Accept
    } else if remaining <= 1 {
        Decision::Reject
    } else {
        Decision::Retry
    }
}

/// The message appended to a conversation after a rejection for `reason`.
pub open spec fn feedback_text(reason: Seq<char>) -> Seq<char> {
    "Your previous output was invalid because: "@ + reason
        + "\nPlease try again and produce a valid response."@
}

/// The step a retry takes after one reply.
pub enum RetryStep {
    /// The reply passed validation and is returned unchanged.
    Accept(String),
    /// Call the inner provider again.
    Retry,
    /// Attempts are exhausted; the request fails with a validation error that
    /// carries the last rejection reason.
    Reject(RllmError),
}

/// The attempts left to one validated completion request. A completion has no
/// feedback channel, so a retry repeats the request unchanged.
pub struct CompletionRetry {
    remaining: usize,
    finished: bool,
}

impl CompletionRetry {
    /// Inner calls that may still be made, the current one included.
    pub closed spec fn remaining(&self) -> nat {
        self.remaining as nat
    }

    /// The request has been accepted or rejected.
    pub closed spec fn finished(&self) -> bool {
        self.finished
    }

    /// A request allowed `attempts` inner calls.
    pub fn new(attempts: usize) -> (r: Self)
        requires
            attempts >= 1,
        ensures
            r.remaining() == attempts,
            !r.finished(),
    {
        CompletionRetry { remaining: attempts, finished: false }
    }

    /// Takes the reply of the current inner call and the validator's verdict on it.
    pub fn on_reply(&mut self, reply: String, verdict: Result<(), String>) -> (r: RetryStep)
        requires
            old(self).remaining() >= 1,
            !old(self).finished(),
        ensures
            match decide(old(self).remaining(), verdict is Ok) {
                Decision::Accept => r matches RetryStep::Accept(t) && t@ == reply@
                    && final(self).finished() && final(self).remaining() == old(self).remaining(),
                Decision::Retry => r is Retry && !final(self).finished() && final(self).remaining()
                    == old(self).remaining() - 1,
                Decision::Reject => r matches RetryStep::Reject(RllmError::ValidationError(m))
                    && m@ == verdict->Err_0@ && final(self).finished()
                    && final(self).remaining() == 0,
            },
    {
        match verdict {
            Ok(()) => {
                self.finished = true;
                RetryStep::Accept(reply)
            },
            Err(reason) => {
                self.remaining = self.remaining - 1;
                if self.remaining == 0 {
                    self.finished = true;
                    RetryStep::Reject(RllmError::ValidationError(reason))
                } else {
                    RetryStep::Retry
                }
            },
        }
    }
}

/// The conversation and the attempts left to one validated chat request.
pub struct ChatRetry {
    messages: Vec<ChatMessage>,
    count: CompletionRetry,
}

impl ChatRetry {
    /// The conversation to send on the current attempt.
    pub closed spec fn conversation(&self) -> Seq<ChatMessage> {
        self.messages@
    }

    /// Inner calls that may still be made, the current one included.
    pub closed spec fn remaining(&self) -> nat {
        self.count.remaining()
    }

    /// The request has been accepted or rejected.
    pub closed spec fn finished(&self) -> bool {
        self.count.finished()
    }

    /// A request on `messages` allowed `attempts` inner calls.
    pub fn new(messages: Vec<ChatMessage>, attempts: usize) -> (r: Self)
        requires
            attempts >= 1,
        ensures
            r.conversation() == messages@,
            r.remaining() == attempts,
            !r.finished(),
    {
        ChatRetry { messages, count: CompletionRetry::new(attempts) }
    }

    /// The conversation to send on the current attempt.
    pub fn messages(&self) -> (r: &Vec<ChatMessage>)
        ensures
            r@ == self.conversation(),
    {
        &self.messages
    }

    /// Takes the reply of the current inner call and the validator's verdict on
    /// it. Before a retry the conversation gains a user message that gives the
    /// reason for the rejection.
    pub fn on_reply(&mut self, reply: String, verdict: Result<(), String>) -> (r: RetryStep)
        requires
            old(self).remaining() >= 1,
            !old(self).finished(),
        ensures
            match decide(old(self).remaining(), verdict is Ok) {
                Decision::Accept => r matches RetryStep::Accept(t) && t@ == reply@
                    && final(self).finished() && final(self).conversation() == old(self).conversation(),
                Decision::Retry => {
                    &&& r is Retry
                    &&& !final(self).finished()
                    &&& final(self).remaining() == old(self).remaining() - 1
                    &&& final(self).conversation().len() == old(self).conversation().len() + 1
                    &&& final(self).conversation().drop_last() == old(self).conversation()
                    &&& final(self).conversation().last().role == ChatRole::User
                    &&& final(self).conversation().last().content@ == feedback_text(verdict->Err_0@)
                },
                Decision::Reject => r matches RetryStep::Reject(RllmError::ValidationError(m))
                    && m@ == verdict->Err_0@ && final(self).finished()
                    && final(self).conversation() == old(self).conversation(),
            },
    {
        let mut content = "Your previous output was invalid because: ".to_owned();
        if let Err(reason) = &verdict {
            content.append(reason.as_str());
            content.append("\nPlease try again and produce a valid response.");
        }
        let r = self.count.on_reply(reply, verdict);
        if let RetryStep::Retry = r {
            self.messages.push(ChatMessage { role: ChatRole::User, content });
            assert(self.messages@.drop_last() =~= old(self).messages@);
        }
        r
    }
}

/// The inner calls made by a request allowed `remaining` calls, when the replies
/// get the verdicts `accepted` in turn, and how it ended; `None` when the
/// verdicts ran out first.
pub open spec fn retry_run(remaining: nat, accepted: Seq<bool>) -> (nat, Option<Decision>)
    decreases accepted.len(),
{
    if accepted.len() == 0 {
        (1, None)
    } else {
        match decide(remaining, accepted[0]) {
            Decision::Retry => {
                let rest = retry_run((remaining - 1) as nat, accepted.drop_first());
                (rest.0 + 1, rest.1)
            },
            d => (1, Some(d)),
        }
    }
}

proof fn lemma_rejections(k: nat, accepted: Seq<bool>)
    requires
        k >= 1,
        accepted.len() >= k,
        forall|i: int| 0 <= i < accepted.len() ==> !#[trigger] accepted[i],
    ensures
        retry_run(k, accepted) == (k, Some(Decision::Reject)),
    decreases k,
{
    if k > 1 {
        lemma_rejections((k - 1) as nat, accepted.drop_first());
    }
}

/// With a validator that rejects every reply, a request allowed `k` attempts
/// makes exactly `k` inner calls and then fails.
pub proof fn lemma_always_rejected(k: nat, accepted: Seq<bool>)
    requires
        k >= 1,
        accepted.len() >= k,
        forall|i: int| 0 <= i < accepted.len() ==> !#[trigger] accepted[i],
    ensures
        retry_run(k, accepted).0 == k,
        retry_run(k, accepted).1 == Some(Decision::Reject),
{
    lemma_rejections(k, accepted);
}

/// When the first reply is accepted, a request makes exactly one inner call,
/// whatever its number of attempts.
pub proof fn lemma_first_accepted(k: nat, accepted: Seq<bool>)
    requires
        k >= 1,
        accepted.len() >= 1,
        accepted[0],
    ensures
        retry_run(k, accepted) == (1nat, Some(Decision::Accept)),
{
}

} // verus!
