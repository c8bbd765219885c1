//! The conversation context held by the agent.
use vstd::prelude::*;
use crate::llm::{Message, MessageView, messages_view};
use crate::text::{byte_len, utf8_len};

verus! {

/// The conversation so far, with the model's context budget.
#[derive(Debug, Clone)]
pub struct Context {
    pub messages: Vec<Message>,
    pub max_tokens: usize,
    pub reserved_tokens: usize,
}

/// The rough token estimate of a conversation: four bytes of content per token, per message.
pub open spec fn token_estimate(ms: Seq<MessageView>) -> nat
    decreases ms.len(),
{
    if ms.len() == 0 {
        0
    } else {
        token_estimate(ms.drop_last()) + utf8_len(ms.last().content) / 4
    }
}

impl Context {
    pub open spec fn messages_view(&self) -> Seq<MessageView> {
        messages_view(self.messages@)
    }

    /// An empty context with the given budget.
    pub fn new(max_tokens: usize, reserved_tokens: usize) -> (c: Context)
        ensures
            c.messages@.len() == 0,
            c.max_tokens == max_tokens,
            c.reserved_tokens == reserved_tokens,
    {
        Context { messages: Vec::new(), max_tokens, reserved_tokens }
    }

    /// Appends a message.
    pub fn push(&mut self, message: Message)
        ensures
            final(self).messages_view() == old(self).messages_view().push(message@),
            final(self).max_tokens == old(self).max_tokens,
            final(self).reserved_tokens == old(self).reserved_tokens,
    {
        self.messages.push(message);
        assert(self.messages_view() =~= old(self).messages_view().push(message@));
    }

    /// Number of messages.
    pub fn len(&self) -> (n: usize)
        ensures
            n == self.messages@.len(),
    {
        self.messages.len()
    }

    /// Whether there are no messages.
    pub fn is_empty(&self) -> (b: bool)
        ensures
            b == (self.messages@.len() == 0),
    {
        self.messages.len() == 0
    }

    /// Rough token count: the sum over messages of a quarter of the content's byte length.
    pub fn estimated_tokens(&self) -> (n: usize)
        requires
            token_estimate(self.messages_view()) <= usize::MAX,
        ensures
            n == token_estimate(self.messages_view()),
    {
        let mut total: usize = 0;
        let mut i: usize = 0;
        while i < self.messages.len()
            invariant
                i <= self.messages@.len(),
                token_estimate(self.messages_view()) <= usize::MAX,
                total == token_estimate(self.messages_view().take(i as int)),
            decreases self.messages@.len() - i,
        {
            let bytes = byte_len(self.messages[i].content.as_str());
            proof {
                let s = self.messages_view();
                assert(s.take((i + 1) as int).drop_last() =~= s.take(i as int));
                assert(s.take((i + 1) as int).last() == s[i as int]);
                assert(bytes == utf8_len(s[i as int].content));
                lemma_token_estimate_prefix_bound(s, (i + 1) as int);
            }
            total = total + bytes / 4;
            i = i + 1;
        }
        assert(self.messages_view().take(self.messages@.len() as int) =~= self.messages_view());
        total
    }
}

/// The estimate of a prefix never exceeds the estimate of the whole.
pub proof fn lemma_token_estimate_prefix_bound(s: Seq<MessageView>, k: int)
    requires
        0 <= k <= s.len(),
    ensures
        token_estimate(s.take(k)) <= token_estimate(s),
    decreases s.len(),
{
    if k < s.len() {
        assert(s.drop_last().take(k) =~= s.take(k));
        lemma_token_estimate_prefix_bound(s.drop_last(), k);
    } else {
        assert(s.take(k) =~= s);
    }
}

} // verus!
