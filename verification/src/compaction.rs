//! Shrinking a long conversation while keeping its start and its most recent messages.
use vstd::prelude::*;
use crate::llm::{Message, MessageView, messages_view, plain_message};
use crate::text::{append_str, join, str_eq};

verus! {

/// Keeps the conversation as is; it is summarized by a fixed note.
pub struct SimpleCompaction;

/// Whether a conversation starts with a system message.
pub open spec fn starts_with_system(ms: Seq<MessageView>) -> bool {
    ms.len() > 0 && ms[0].role == "system"@
}

/// The system message, if the conversation starts with one, as a list of zero or one message.
pub open spec fn leading_system(ms: Seq<MessageView>) -> Seq<MessageView> {
    if starts_with_system(ms) { seq![ms[0]] } else { Seq::empty() }
}

/// The last three messages (the whole list when shorter).
pub open spec fn last_three(ms: Seq<MessageView>) -> Seq<MessageView> {
    if ms.len() >= 3 { ms.subrange(ms.len() - 3, ms.len() as int) } else { ms }
}

/// What the simple strategy makes of a conversation.
pub open spec fn simple_compact(ms: Seq<MessageView>) -> Seq<MessageView> {
    if ms.len() < 4 {
        ms
    } else {
        leading_system(ms) + seq![plain_message("user"@, "[Earlier conversation summarized]"@)]
            + last_three(ms)
    }
}

fn copy_range(ms: &[Message], from: usize, to: usize, out: &mut Vec<Message>)
    requires
        from <= to <= ms@.len(),
    ensures
        messages_view(final(out)@) == messages_view(old(out)@) + messages_view(ms@).subrange(from as int, to as int),
{
    let mut i = from;
    let ghost start = old(out)@;
    while i < to
        invariant
            from <= i <= to,
            to <= ms@.len(),
            messages_view(out@) == messages_view(start) + messages_view(ms@).subrange(from as int, i as int),
        decreases to - i,
    {
        let ghost before = out@;
        out.push(ms[i].duplicate());
        proof {
            assert(messages_view(out@) =~= messages_view(before).push(ms@[i as int]@));
            assert(messages_view(ms@).subrange(from as int, i + 1) =~= messages_view(ms@).subrange(from as int, i as int).push(ms@[i as int]@));
        }
        i = i + 1;
    }
}

fn is_system(m: &Message) -> (b: bool)
    ensures
        b == (m@.role == "system"@),
{
    str_eq(m.role.as_str(), "system")
}

/// A way of shrinking a conversation, which may fail.
pub trait CompactionStrategy {
    /// The shrunk conversation, or why it could not be shrunk.
    fn compact(&self, messages: &[Message]) -> Result<Vec<Message>, String>;
}

impl SimpleCompaction {
    pub fn new() -> (c: SimpleCompaction) {
        SimpleCompaction
    }
}

impl CompactionStrategy for SimpleCompaction {
    /// Keeps the leading system message, a note that earlier messages were summarized and the last
    /// three messages; conversations under four messages are kept whole. It never fails.
    fn compact(&self, messages: &[Message]) -> (r: Result<Vec<Message>, String>)
        ensures
            r matches Ok(v) && messages_view(v@) == simple_compact(messages_view(messages@)),
    {
        Ok(simple_compaction(messages))
    }
}

/// The simple strategy's compaction.
fn simple_compaction(messages: &[Message]) -> (r: Vec<Message>)
    ensures
        messages_view(r@) == simple_compact(messages_view(messages@)),
{
    let ghost mv = messages_view(messages@);
    let n = messages.len();
    let mut out: Vec<Message> = Vec::new();
    if n < 4 {
        copy_range(messages, 0, n, &mut out);
        assert(mv.subrange(0, n as int) =~= mv);
        assert(messages_view(out@) =~= mv);
        return out;
    }
    if is_system(&messages[0]) {
        out.push(messages[0].duplicate());
    }
    let note = Message::user(String::from_str("[Earlier conversation summarized]"));
    out.push(note);
    let ghost mid = out@;
    copy_range(messages, n - 3, n, &mut out);
    proof {
        if starts_with_system(mv) {
            assert(messages_view(mid) =~= leading_system(mv) + seq![plain_message("user"@, "[Earlier conversation summarized]"@)]);
        } else {
            assert(messages_view(mid) =~= leading_system(mv) + seq![plain_message("user"@, "[Earlier conversation summarized]"@)]);
        }
        assert(messages_view(out@) =~= simple_compact(mv));
    }
    out
}

/// Law: compacting twice gives the same as compacting once.
pub proof fn lemma_simple_compact_idempotent(ms: Seq<MessageView>)
    ensures
        simple_compact(simple_compact(ms)) == simple_compact(ms),
{
    let c = simple_compact(ms);
    if ms.len() >= 4 {
        let note = plain_message("user"@, "[Earlier conversation summarized]"@);
        assert("user"@ != "system"@) by {
            reveal_strlit("user");
            reveal_strlit("system");
            assert("user"@.len() != "system"@.len());
        }
        if starts_with_system(ms) {
            assert(c =~= seq![ms[0], note] + last_three(ms));
            assert(c.len() == 5);
            assert(starts_with_system(c));
            assert(last_three(c) =~= last_three(ms));
            assert(simple_compact(c) =~= c);
        } else {
            assert(c =~= seq![note] + last_three(ms));
            assert(c.len() == 4);
            assert(!starts_with_system(c));
            assert(last_three(c) =~= last_three(ms));
            assert(simple_compact(c) =~= c);
        }
    }
}

/// Law: compaction keeps the leading system message and the last three messages, and leaves at
/// most five messages once it applies.
pub proof fn lemma_simple_compact_keeps_ends(ms: Seq<MessageView>)
    requires
        ms.len() >= 4,
    ensures
        simple_compact(ms).len() <= 5,
        simple_compact(ms).subrange(simple_compact(ms).len() - 3, simple_compact(ms).len() as int)
            == ms.subrange(ms.len() - 3, ms.len() as int),
        starts_with_system(ms) ==> simple_compact(ms)[0] == ms[0],
{
    let c = simple_compact(ms);
    assert(c.subrange(c.len() - 3, c.len() as int) =~= ms.subrange(ms.len() - 3, ms.len() as int));
}

/// The text sent to the model to summarize a message: `role: content`.
pub open spec fn summary_line(m: MessageView) -> Seq<char> {
    m.role + ": "@ + m.content
}

/// The index where the kept tail starts when the model summarizes.
pub open spec fn keep_start(ms: Seq<MessageView>) -> int {
    ms.len() - 3
}

/// The index where the summarized part starts.
pub open spec fn split_index(ms: Seq<MessageView>) -> int {
    if starts_with_system(ms) { 1 } else { 0 }
}

/// The summarized messages.
pub open spec fn to_summarize(ms: Seq<MessageView>) -> Seq<MessageView> {
    ms.subrange(split_index(ms), keep_start(ms))
}

/// The request asking the model to summarize the middle of a conversation, when it is long enough
/// for summarizing (six messages or more).
pub open spec fn summary_prompt(ms: Seq<MessageView>) -> Option<Seq<char>> {
    if ms.len() < 6 {
        None
    } else {
        Some(
            "Summarize the following conversation concisely, preserving key facts, decisions, and action items:\n\n"@
                + join(to_summarize(ms).map_values(|m: MessageView| summary_line(m)), "\n"@)
                + "\n\nProvide a brief summary:"@,
        )
    }
}

/// The conversation after model-based compaction, given the model's summary (`None` when the model
/// call failed).
pub open spec fn llm_compact(ms: Seq<MessageView>, summary: Option<Seq<char>>) -> Seq<MessageView> {
    if ms.len() < 6 {
        ms
    } else {
        let text = match summary {
            Some(s) => s,
            None => "[Earlier conversation was compacted]"@,
        };
        leading_system(ms) + seq![plain_message("user"@, "[Summary of earlier conversation]: "@ + text)]
            + ms.subrange(keep_start(ms), ms.len() as int)
    }
}

/// The summary request for a conversation, or `None` when it is too short to compact.
pub fn llm_summary_prompt(messages: &[Message]) -> (r: Option<String>)
    ensures
        match r {
            Some(p) => summary_prompt(messages_view(messages@)) == Some(p@),
            None => summary_prompt(messages_view(messages@)).is_none(),
        },
{
    let ghost mv = messages_view(messages@);
    let n = messages.len();
    if n < 6 {
        return None;
    }
    let split: usize = if is_system(&messages[0]) { 1 } else { 0 };
    let keep = n - 3;
    let mut body = String::new();
    let ghost lines = to_summarize(mv).map_values(|m: MessageView| summary_line(m));
    let mut i = split;
    while i < keep
        invariant
            split <= i <= keep,
            keep == n - 3,
            n == messages@.len(),
            n >= 6,
            split == split_index(mv),
            mv == messages_view(messages@),
            lines == to_summarize(mv).map_values(|m: MessageView| summary_line(m)),
            body@ == join(lines.take(i - split), "\n"@),
        decreases keep - i,
    {
        let ghost before = body@;
        if i > split {
            append_str(&mut body, "\n");
        }
        append_str(&mut body, messages[i].role.as_str());
        append_str(&mut body, ": ");
        append_str(&mut body, messages[i].content.as_str());
        proof {
            let k = i - split;
            assert(lines[k] == summary_line(mv[i as int]));
            assert(lines.take(k + 1).drop_last() =~= lines.take(k));
            if k == 0 {
                assert(body@ =~= lines[0]);
            } else {
                assert(body@ =~= join(lines.take(k), "\n"@) + "\n"@ + lines[k]);
            }
        }
        i = i + 1;
    }
    assert(lines.take(keep - split) =~= lines);
    let mut prompt = String::from_str(
        "Summarize the following conversation concisely, preserving key facts, decisions, and action items:\n\n",
    );
    append_str(&mut prompt, body.as_str());
    append_str(&mut prompt, "\n\nProvide a brief summary:");
    Some(prompt)
}

/// The conversation after model-based compaction: the leading system message, a user message with
/// the summary (or a fixed note when the model call failed) and the last three messages.
pub fn llm_compacted(messages: &[Message], summary: Option<String>) -> (r: Vec<Message>)
    ensures
        messages_view(r@) == llm_compact(
            messages_view(messages@),
            match summary { Some(s) => Some(s@), None => None },
        ),
{
    let ghost mv = messages_view(messages@);
    let n = messages.len();
    let mut out: Vec<Message> = Vec::new();
    if n < 6 {
        copy_range(messages, 0, n, &mut out);
        assert(mv.subrange(0, n as int) =~= mv);
        return out;
    }
    if is_system(&messages[0]) {
        out.push(messages[0].duplicate());
    }
    let mut text = String::from_str("[Summary of earlier conversation]: ");
    match &summary {
        Some(s) => append_str(&mut text, s.as_str()),
        None => append_str(&mut text, "[Earlier conversation was compacted]"),
    }
    out.push(Message::user(text));
    let ghost mid = out@;
    copy_range(messages, n - 3, n, &mut out);
    proof {
        let sv = match summary { Some(s) => Some(s@), None => None };
        let t = match sv { Some(s) => s, None => "[Earlier conversation was compacted]"@ };
        assert(messages_view(mid) =~= leading_system(mv) + seq![plain_message("user"@, "[Summary of earlier conversation]: "@ + t)]);
        assert(messages_view(out@) =~= llm_compact(mv, sv));
    }
    out
}

/// Law: model-based compaction of a conversation of six messages or more leaves its leading
/// system message first (when it has one), then one user message carrying the summary (or a fixed
/// note when the model call failed), then its last three messages unchanged; a shorter
/// conversation is kept whole.
pub proof fn lemma_llm_compact_keeps_ends(ms: Seq<MessageView>, summary: Option<Seq<char>>)
    ensures
        ms.len() < 6 ==> llm_compact(ms, summary) == ms,
        ms.len() >= 6 ==> ({
            let r = llm_compact(ms, summary);
            let k: int = if ms[0].role == "system"@ { 1 } else { 0 };
            let text = match summary {
                Some(t) => t,
                None => "[Earlier conversation was compacted]"@,
            };
            &&& r.len() == k + 4
            &&& ms[0].role == "system"@ ==> r[0] == ms[0]
            &&& r[k].role == "user"@
            &&& r[k].content == "[Summary of earlier conversation]: "@ + text
            &&& r[k].tool_calls.is_none()
            &&& r[k].tool_call_id.is_none()
            &&& r.subrange(k + 1, k + 4) == ms.subrange(ms.len() - 3, ms.len() as int)
        }),
{
    if ms.len() >= 6 {
        let r = llm_compact(ms, summary);
        let k: int = if ms[0].role == "system"@ { 1 } else { 0 };
        assert(r.subrange(k + 1, k + 4) =~= ms.subrange(ms.len() - 3, ms.len() as int));
    }
}

} // verus!
