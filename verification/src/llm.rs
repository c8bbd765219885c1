//! Chat messages, tool calls and the plain-value shape of provider requests.
use vstd::prelude::*;
use crate::text::{append_str, str_eq};

verus! {

/// The function part of a tool call: a tool name and its JSON arguments as text.
#[derive(Debug, Clone)]
pub struct FunctionCall {
    pub name: String,
    pub arguments: String,
}

/// A tool call requested by the model.
#[derive(Debug, Clone)]
pub struct ToolCall {
    pub id: String,
    pub tool_type: String,
    pub function: FunctionCall,
}

/// One chat message.
#[derive(Debug, Clone)]
pub struct Message {
    pub role: String,
    pub content: String,
    pub tool_calls: Option<Vec<ToolCall>>,
    pub tool_call_id: Option<String>,
}

pub struct FunctionCallView {
    pub name: Seq<char>,
    pub arguments: Seq<char>,
}

pub struct ToolCallView {
    pub id: Seq<char>,
    pub tool_type: Seq<char>,
    pub function: FunctionCallView,
}

pub struct MessageView {
    pub role: Seq<char>,
    pub content: Seq<char>,
    pub tool_calls: Option<Seq<ToolCallView>>,
    pub tool_call_id: Option<Seq<char>>,
}

impl View for FunctionCall {
    type V = FunctionCallView;

    open spec fn view(&self) -> FunctionCallView {
        FunctionCallView { name: self.name@, arguments: self.arguments@ }
    }
}

impl View for ToolCall {
    type V = ToolCallView;

    open spec fn view(&self) -> ToolCallView {
        ToolCallView { id: self.id@, tool_type: self.tool_type@, function: self.function@ }
    }
}

/// The view of a list of tool calls.
pub open spec fn calls_view(calls: Seq<ToolCall>) -> Seq<ToolCallView> {
    calls.map_values(|c: ToolCall| c@)
}

/// The view of an optional list of tool calls.
pub open spec fn opt_calls_view(calls: Option<Vec<ToolCall>>) -> Option<Seq<ToolCallView>> {
    match calls {
        Some(v) => Some(calls_view(v@)),
        None => None,
    }
}

/// The view of an optional string.
pub open spec fn opt_str_view(s: Option<String>) -> Option<Seq<char>> {
    match s {
        Some(v) => Some(v@),
        None => None,
    }
}

impl View for Message {
    type V = MessageView;

    open spec fn view(&self) -> MessageView {
        MessageView {
            role: self.role@,
            content: self.content@,
            tool_calls: opt_calls_view(self.tool_calls),
            tool_call_id: opt_str_view(self.tool_call_id),
        }
    }
}

/// The view of a list of messages.
pub open spec fn messages_view(ms: Seq<Message>) -> Seq<MessageView> {
    ms.map_values(|m: Message| m@)
}

/// A message with the given role and content and no tool data.
pub open spec fn plain_message(role: Seq<char>, content: Seq<char>) -> MessageView {
    MessageView { role, content, tool_calls: None, tool_call_id: None }
}

/// Copies a string.
pub fn copy_string(s: &String) -> (r: String)
    ensures
        r@ == s@,
{
    s.clone()
}

/// Copies an optional string.
pub fn copy_opt_string(s: &Option<String>) -> (r: Option<String>)
    ensures
        opt_str_view(r) == opt_str_view(*s),
{
    match s {
        Some(v) => Some(v.clone()),
        None => None,
    }
}

impl FunctionCall {
    /// A copy of this function call.
    pub fn duplicate(&self) -> (r: FunctionCall)
        ensures
            r@ == self@,
    {
        FunctionCall { name: self.name.clone(), arguments: self.arguments.clone() }
    }
}

impl ToolCall {
    /// A copy of this tool call.
    pub fn duplicate(&self) -> (r: ToolCall)
        ensures
            r@ == self@,
    {
        ToolCall { id: self.id.clone(), tool_type: self.tool_type.clone(), function: self.function.duplicate() }
    }
}

/// A copy of a list of tool calls.
pub fn copy_calls(calls: &Vec<ToolCall>) -> (r: Vec<ToolCall>)
    ensures
        calls_view(r@) == calls_view(calls@),
{
    let mut r: Vec<ToolCall> = Vec::new();
    let mut i: usize = 0;
    while i < calls.len()
        invariant
            i <= calls.len(),
            r@.len() == i,
            forall|j: int| 0 <= j < i ==> #[trigger] r@[j]@ == calls@[j]@,
        decreases calls.len() - i,
    {
        r.push(calls[i].duplicate());
        i = i + 1;
    }
    assert(calls_view(r@) =~= calls_view(calls@));
    r
}

/// A copy of an optional list of tool calls.
pub fn copy_opt_calls(calls: &Option<Vec<ToolCall>>) -> (r: Option<Vec<ToolCall>>)
    ensures
        opt_calls_view(r) == opt_calls_view(*calls),
{
    match calls {
        Some(v) => Some(copy_calls(v)),
        None => None,
    }
}

impl Message {
    /// A copy of this message.
    pub fn duplicate(&self) -> (r: Message)
        ensures
            r@ == self@,
    {
        Message {
            role: self.role.clone(),
            content: self.content.clone(),
            tool_calls: copy_opt_calls(&self.tool_calls),
            tool_call_id: copy_opt_string(&self.tool_call_id),
        }
    }

    /// A system message.
    pub fn system(content: String) -> (m: Message)
        ensures
            m@ == plain_message("system"@, content@),
    {
        Message { role: String::from_str("system"), content, tool_calls: None, tool_call_id: None }
    }

    /// A user message.
    pub fn user(content: String) -> (m: Message)
        ensures
            m@ == plain_message("user"@, content@),
    {
        Message { role: String::from_str("user"), content, tool_calls: None, tool_call_id: None }
    }

    /// An assistant message.
    pub fn assistant(content: String) -> (m: Message)
        ensures
            m@ == plain_message("assistant"@, content@),
    {
        Message { role: String::from_str("assistant"), content, tool_calls: None, tool_call_id: None }
    }

    /// A tool-result message answering the call with the given id.
    pub fn tool(content: String, call_id: String) -> (m: Message)
        ensures
            m@ == (MessageView {
                role: "tool"@,
                content: content@,
                tool_calls: None,
                tool_call_id: Some(call_id@),
            }),
    {
        Message { role: String::from_str("tool"), content, tool_calls: None, tool_call_id: Some(call_id) }
    }
}

/// A copy of a list of messages.
pub fn copy_messages(ms: &Vec<Message>) -> (r: Vec<Message>)
    ensures
        messages_view(r@) == messages_view(ms@),
{
    let mut r: Vec<Message> = Vec::new();
    let mut i: usize = 0;
    while i < ms.len()
        invariant
            i <= ms.len(),
            r@.len() == i,
            forall|j: int| 0 <= j < i ==> #[trigger] r@[j]@ == ms@[j]@,
        decreases ms.len() - i,
    {
        r.push(ms[i].duplicate());
        i = i + 1;
    }
    assert(messages_view(r@) =~= messages_view(ms@));
    r
}

} // verus!

verus! {

/// Token counts reported by a provider.
#[derive(Debug, Clone, Copy)]
pub struct Usage {
    pub prompt_tokens: usize,
    pub completion_tokens: usize,
    pub total_tokens: usize,
}

/// A provider's answer to a chat request.
#[derive(Debug, Clone)]
pub struct ChatResponse {
    pub message: Message,
    pub usage: Option<Usage>,
}

/// One chunk of a streamed answer.
#[derive(Debug, Clone)]
pub struct ChatStreamChunk {
    pub delta: String,
    pub tool_calls: Option<Vec<ToolCall>>,
    pub finish_reason: Option<String>,
}

/// The answer of the echo provider: an assistant message `Echo: ` followed by the last message's
/// content (nothing after `Echo: ` for an empty conversation).
pub fn echo_reply(messages: &Vec<Message>) -> (r: ChatResponse)
    ensures
        r.usage.is_none(),
        r.message@ == plain_message(
            "assistant"@,
            "Echo: "@ + if messages@.len() > 0 { messages@.last()@.content } else { Seq::empty() },
        ),
{
    let mut content = String::from_str("Echo: ");
    if messages.len() > 0 {
        append_str(&mut content, messages[messages.len() - 1].content.as_str());
    }
    ChatResponse { message: Message::assistant(content), usage: None }
}

/// The single chunk the echo provider streams: its whole answer, finished with `stop`.
pub fn echo_chunk(messages: &Vec<Message>) -> (c: ChatStreamChunk)
    ensures
        c.delta@ == "Echo: "@ + if messages@.len() > 0 { messages@.last()@.content } else { Seq::empty() },
        c.tool_calls.is_none(),
        c.finish_reason matches Some(r) && r@ == "stop"@,
{
    let r = echo_reply(messages);
    ChatStreamChunk { delta: r.message.content, tool_calls: None, finish_reason: Some(String::from_str("stop")) }
}

/// A chat provider that answers with the last message, for trying the agent without a model.
#[derive(Debug, Clone, Copy)]
pub struct EchoProvider;

impl EchoProvider {
    /// The answer: `Echo: ` and the content of the last message.
    pub fn chat(&self, messages: &Vec<Message>) -> (r: ChatResponse)
        ensures
            r.usage.is_none(),
            r.message@ == plain_message(
                "assistant"@,
                "Echo: "@ + if messages@.len() > 0 { messages@.last()@.content } else { Seq::empty() },
            ),
    {
        echo_reply(messages)
    }

    /// The streamed answer: one chunk holding the whole answer, which ends the stream.
    pub fn stream_chat(&self, messages: &Vec<Message>) -> (c: ChatStreamChunk)
        ensures
            c.delta@ == "Echo: "@ + if messages@.len() > 0 { messages@.last()@.content } else { Seq::empty() },
            c.tool_calls.is_none(),
            c.finish_reason matches Some(r) && r@ == "stop"@,
    {
        echo_chunk(messages)
    }
}

/// Collects a streamed answer.
pub struct StreamCollector {
    pub content: String,
    pub tool_calls: Vec<ToolCall>,
}

/// What to do with one chunk: the text to show (if any) and whether the stream is finished.
pub struct ChunkStep {
    pub token: Option<String>,
    pub stop: bool,
}

impl StreamCollector {
    pub fn new() -> (c: StreamCollector)
        ensures
            c.content@ == Seq::<char>::empty(),
            c.tool_calls@.len() == 0,
    {
        StreamCollector { content: String::new(), tool_calls: Vec::new() }
    }

    /// Adds a chunk: its text is appended and shown when not empty, its tool calls are kept, and a
    /// `stop` finish reason ends the stream.
    pub fn feed(&mut self, chunk: ChatStreamChunk) -> (step: ChunkStep)
        ensures
            final(self).content@ == old(self).content@ + chunk.delta@,
            calls_view(final(self).tool_calls@) == calls_view(old(self).tool_calls@) + match chunk.tool_calls {
                Some(v) => calls_view(v@),
                None => Seq::empty(),
            },
            match step.token {
                Some(t) => t@ == chunk.delta@ && chunk.delta@.len() > 0,
                None => chunk.delta@.len() == 0,
            },
            step.stop == (chunk.finish_reason matches Some(r) && r@ == "stop"@),
    {
        let ghost old_calls = calls_view(self.tool_calls@);
        let ghost d = chunk.delta@;
        let ChatStreamChunk { delta, tool_calls, finish_reason } = chunk;
        let token = if delta.as_str().is_empty() {
            assert(self.content@ =~= old(self).content@ + d);
            None
        } else {
            append_str(&mut self.content, delta.as_str());
            Some(delta)
        };
        match tool_calls {
            Some(v) => {
                let ghost added = calls_view(v@);
                let mut i: usize = 0;
                while i < v.len()
                    invariant
                        i <= v@.len(),
                        added == calls_view(v@),
                        calls_view(self.tool_calls@) == old_calls + added.take(i as int),
                        self.content@ == old(self).content@ + d,
                    decreases v@.len() - i,
                {
                    let ghost before = self.tool_calls@;
                    self.tool_calls.push(v[i].duplicate());
                    proof {
                        assert(calls_view(self.tool_calls@) =~= calls_view(before).push(v@[i as int]@));
                        assert(added.take((i + 1) as int) =~= added.take(i as int).push(v@[i as int]@));
                    }
                    i = i + 1;
                }
                assert(added.take(v@.len() as int) =~= added);
            },
            None => {
                assert(calls_view(self.tool_calls@) =~= old_calls + Seq::<ToolCallView>::empty());
            },
        }
        let stop = match &finish_reason {
            Some(r) => crate::text::str_eq(r.as_str(), "stop"),
            None => false,
        };
        ChunkStep { token, stop }
    }

    /// The collected answer.
    pub fn finish(self) -> (r: crate::soul::ChatReply)
        ensures
            r matches crate::soul::ChatReply::Answer { content, tool_calls } && content@ == self.content@
                && (self.tool_calls@.len() == 0 ==> tool_calls.is_none())
                && (self.tool_calls@.len() > 0 ==> (tool_calls matches Some(v) && calls_view(v@) == calls_view(self.tool_calls@))),
    {
        let calls = if self.tool_calls.len() == 0 { None } else { Some(self.tool_calls) };
        crate::soul::ChatReply::Answer { content: self.content, tool_calls: calls }
    }

    /// The answer collected before the stream broke with `error`.
    pub fn broken(self, error: String) -> (r: crate::soul::ChatReply)
        ensures
            r matches crate::soul::ChatReply::Broken { error: e, content, tool_calls } && e@ == error@
                && content@ == self.content@ && calls_view(tool_calls@) == calls_view(self.tool_calls@),
    {
        crate::soul::ChatReply::Broken { error, content: self.content, tool_calls: self.tool_calls }
    }
}

/// A message in the shape a chat-completions request takes.
#[derive(Debug, Clone)]
pub enum OutgoingMessage {
    System { content: String },
    User { content: String },
    Assistant { content: Option<String>, tool_calls: Option<Vec<ToolCall>> },
    Tool { content: String, tool_call_id: String },
}

/// How a message is sent: system, user, assistant and tool messages keep their role, any other role
/// is sent as a user message; an assistant message with tool calls and empty content is sent
/// without content; a tool message without call id is sent with an empty id.
pub open spec fn outgoing_ok(m: MessageView, o: OutgoingMessage) -> bool {
    if m.role == "system"@ {
        o matches OutgoingMessage::System { content } && content@ == m.content
    } else if m.role == "user"@ {
        o matches OutgoingMessage::User { content } && content@ == m.content
    } else if m.role == "assistant"@ {
        o matches OutgoingMessage::Assistant { content, tool_calls } && opt_calls_view(tool_calls) == m.tool_calls
            && (if m.content.len() == 0 && m.tool_calls.is_some() {
                content.is_none()
            } else {
                content matches Some(c) && c@ == m.content
            })
    } else if m.role == "tool"@ {
        o matches OutgoingMessage::Tool { content, tool_call_id } && content@ == m.content
            && tool_call_id@ == match m.tool_call_id { Some(id) => id, None => Seq::empty() }
    } else {
        o matches OutgoingMessage::User { content } && content@ == m.content
    }
}

/// Shapes a message for a chat-completions request.
pub fn to_outgoing(m: &Message) -> (o: OutgoingMessage)
    ensures
        outgoing_ok(m@, o),
{
    let role = m.role.as_str();
    if str_eq(role, "system") {
        OutgoingMessage::System { content: m.content.clone() }
    } else if str_eq(role, "user") {
        OutgoingMessage::User { content: m.content.clone() }
    } else if str_eq(role, "assistant") {
        let calls = copy_opt_calls(&m.tool_calls);
        let content = if m.content.as_str().is_empty() && calls.is_some() { None } else { Some(m.content.clone()) };
        OutgoingMessage::Assistant { content, tool_calls: calls }
    } else if str_eq(role, "tool") {
        let id = match &m.tool_call_id {
            Some(id) => id.clone(),
            None => String::new(),
        };
        OutgoingMessage::Tool { content: m.content.clone(), tool_call_id: id }
    } else {
        OutgoingMessage::User { content: m.content.clone() }
    }
}

/// Shapes a whole conversation for a chat-completions request.
pub fn to_outgoing_messages(ms: &Vec<Message>) -> (r: Vec<OutgoingMessage>)
    ensures
        r@.len() == ms@.len(),
        forall|i: int| 0 <= i < ms@.len() ==> outgoing_ok(ms@[i]@, #[trigger] r@[i]),
{
    let mut r: Vec<OutgoingMessage> = Vec::new();
    let mut i: usize = 0;
    while i < ms.len()
        invariant
            i <= ms@.len(),
            r@.len() == i,
            forall|j: int| 0 <= j < i ==> outgoing_ok(ms@[j]@, #[trigger] r@[j]),
        decreases ms@.len() - i,
    {
        r.push(to_outgoing(&ms[i]));
        i = i + 1;
    }
    r
}

} // verus!
