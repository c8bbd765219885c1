//! A streamed answer: one chat request whose answer arrives in chunks, then its tool calls, each
//! reported as it is handled. Tool results are reported to the caller and not kept in the
//! conversation.
use vstd::prelude::*;
use crate::llm::{Message, ToolCall, ToolCallView, calls_view, copy_string};
use crate::soul::{SoulCore, SoulEvent, contains_name};
use crate::text::{append_str, decimal, join, usize_to_string};
use crate::text_split::strings_view;
use crate::turn_model::SoulEventView;

verus! {

/// Where a streamed answer stands.
#[derive(Debug, Clone, Copy, PartialEq, Eq, Structural)]
pub enum StreamPhase {
    /// Reading the answer's chunks.
    Reading,
    /// Waiting for the current call's arguments to be parsed.
    Parsing,
    /// Waiting for the current call's approval.
    Approving,
    /// Waiting for the current call's tool to finish.
    Running,
    /// Nothing more is yielded.
    Over,
}

/// A streamed answer in progress.
pub struct StreamRun {
    pub plan_mode: bool,
    pub tool_names: Vec<String>,
    pub full: String,
    pub calls: Vec<ToolCall>,
    pub index: usize,
    pub phase: StreamPhase,
}

#[verifier::ext_equal]
pub struct StreamModel {
    pub plan_mode: bool,
    pub tool_names: Seq<Seq<char>>,
    pub full: Seq<char>,
    pub calls: Seq<ToolCallView>,
    pub index: nat,
    pub phase: StreamPhase,
}

impl View for StreamRun {
    type V = StreamModel;

    open spec fn view(&self) -> StreamModel {
        StreamModel {
            plan_mode: self.plan_mode,
            tool_names: strings_view(self.tool_names@),
            full: self.full@,
            calls: calls_view(self.calls@),
            index: self.index as nat,
            phase: self.phase,
        }
    }
}

/// What the caller hands back, matching the operation it was asked for.
pub enum StreamInput {
    /// The request could not be made, or a chunk of the answer failed.
    Failed { error: String },
    /// A chunk of the answer: its text and any tool calls it carries.
    Chunk { delta: String, tool_calls: Option<Vec<ToolCall>> },
    /// The answer is complete.
    End,
    /// The current call's arguments parsed, or the parser's error.
    Parsed { result: Result<(), String> },
    /// Whether the current call was approved, or the error of asking.
    Approval { result: Result<bool, String> },
    /// The tool's output, or its error.
    Ran { result: Result<String, String> },
}

pub enum StreamInputView {
    Failed(Seq<char>),
    Chunk(Seq<char>, Seq<ToolCallView>),
    End,
    Parsed(Result<(), Seq<char>>),
    Approval(Result<bool, Seq<char>>),
    Ran(Result<Seq<char>, Seq<char>>),
}

impl View for StreamInput {
    type V = StreamInputView;

    open spec fn view(&self) -> StreamInputView {
        match self {
            StreamInput::Failed { error } => StreamInputView::Failed(error@),
            StreamInput::Chunk { delta, tool_calls } => StreamInputView::Chunk(
                delta@,
                match tool_calls {
                    Some(c) => calls_view(c@),
                    None => Seq::empty(),
                },
            ),
            StreamInput::End => StreamInputView::End,
            StreamInput::Parsed { result } => StreamInputView::Parsed(
                match result {
                    Ok(()) => Ok(()),
                    Err(e) => Err(e@),
                },
            ),
            StreamInput::Approval { result } => StreamInputView::Approval(
                match result {
                    Ok(b) => Ok(*b),
                    Err(e) => Err(e@),
                },
            ),
            StreamInput::Ran { result } => StreamInputView::Ran(
                match result {
                    Ok(o) => Ok(o@),
                    Err(e) => Err(e@),
                },
            ),
        }
    }
}

/// What the caller does after yielding the events.
pub enum StreamOp {
    /// Read the next chunk of the answer; answer `Chunk`, `End` or `Failed`.
    Read,
    /// Parse the call's arguments; answer `Parsed`.
    Parse { call: ToolCall },
    /// Ask for approval of the call; answer `Approval`.
    Approve { call: ToolCall },
    /// Run the call's tool; answer `Ran`.
    Run { call: ToolCall },
    /// The stream ends.
    Stop,
}

pub enum StreamOpView {
    Read,
    Parse(ToolCallView),
    Approve(ToolCallView),
    Run(ToolCallView),
    Stop,
}

impl View for StreamOp {
    type V = StreamOpView;

    open spec fn view(&self) -> StreamOpView {
        match self {
            StreamOp::Read => StreamOpView::Read,
            StreamOp::Parse { call } => StreamOpView::Parse(call@),
            StreamOp::Approve { call } => StreamOpView::Approve(call@),
            StreamOp::Run { call } => StreamOpView::Run(call@),
            StreamOp::Stop => StreamOpView::Stop,
        }
    }
}

/// The events to yield, in order, then the operation.
pub struct StreamAction {
    pub events: Vec<SoulEvent>,
    pub op: StreamOp,
}

pub open spec fn events_view(es: Seq<SoulEvent>) -> Seq<SoulEventView> {
    es.map_values(|e: SoulEvent| e@)
}

/// One line of a streamed plan: `  N. name(arguments)`, numbered from one.
pub open spec fn plan_item(i: int, c: ToolCallView) -> Seq<char> {
    "  "@ + decimal((i + 1) as nat) + ". "@ + c.function.name + "("@ + c.function.arguments + ")"@
}

/// A streamed plan: `Plan:` and then the calls' lines, separated by line breaks.
pub open spec fn stream_plan_text(calls: Seq<ToolCallView>) -> Seq<char> {
    "Plan:\n"@ + join(Seq::new(calls.len(), |i: int| plan_item(i, calls[i])), "\n"@)
}

/// Whether the current call's answer matches the phase, so that the machine can take it.
pub open spec fn stream_expects(m: StreamModel, input: StreamInputView) -> bool {
    &&& m.phase == StreamPhase::Reading ==> (input is Failed || input is Chunk || input is End)
    &&& m.phase == StreamPhase::Parsing ==> input is Parsed
    &&& m.phase == StreamPhase::Approving ==> input is Approval
    &&& m.phase == StreamPhase::Running ==> input is Ran
    &&& m.phase != StreamPhase::Over
    &&& m.phase != StreamPhase::Reading ==> m.index < m.calls.len()
}

/// After the current call is handled: the next call is announced and parsed, or the stream ends
/// with the whole answer's text.
pub open spec fn stream_next_call(m: StreamModel, events: Seq<SoulEventView>)
    -> (StreamModel, Seq<SoulEventView>, StreamOpView)
{
    let i = m.index + 1;
    if i < m.calls.len() {
        (
            StreamModel { index: i, phase: StreamPhase::Parsing, ..m },
            events.push(SoulEventView::ToolCall(m.calls[i as int])),
            StreamOpView::Parse(m.calls[i as int]),
        )
    } else {
        (
            StreamModel { index: i, phase: StreamPhase::Over, ..m },
            events.push(SoulEventView::Done(m.full)),
            StreamOpView::Stop,
        )
    }
}

/// One step of a streamed answer: the new state, the events yielded and the next operation.
pub open spec fn stream_step(m: StreamModel, input: StreamInputView) -> (StreamModel, Seq<SoulEventView>, StreamOpView) {
    let over = StreamModel { phase: StreamPhase::Over, ..m };
    match input {
        StreamInputView::Failed(e) => (over, seq![SoulEventView::Error(e)], StreamOpView::Stop),
        StreamInputView::Chunk(delta, cs) => (
            StreamModel { full: m.full + delta, calls: m.calls + cs, ..m },
            if delta.len() == 0 { Seq::empty() } else { seq![SoulEventView::Token(delta)] },
            StreamOpView::Read,
        ),
        StreamInputView::End => {
            if m.calls.len() == 0 {
                (over, seq![SoulEventView::Done(m.full)], StreamOpView::Stop)
            } else if m.plan_mode {
                (
                    over,
                    seq![SoulEventView::Plan(stream_plan_text(m.calls)), SoulEventView::Done(m.full)],
                    StreamOpView::Stop,
                )
            } else {
                (
                    StreamModel { index: 0, phase: StreamPhase::Parsing, ..m },
                    seq![SoulEventView::ToolCall(m.calls[0])],
                    StreamOpView::Parse(m.calls[0]),
                )
            }
        },
        StreamInputView::Parsed(r) => {
            let c = m.calls[m.index as int];
            match r {
                Err(e) => stream_next_call(
                    m,
                    seq![SoulEventView::Error("tool error: Invalid arguments JSON: "@ + e)],
                ),
                Ok(()) => (StreamModel { phase: StreamPhase::Approving, ..m }, Seq::empty(), StreamOpView::Approve(c)),
            }
        },
        StreamInputView::Approval(r) => {
            let c = m.calls[m.index as int];
            if r == Ok::<bool, Seq<char>>(true) {
                if m.tool_names.contains(c.function.name) {
                    (StreamModel { phase: StreamPhase::Running, ..m }, Seq::empty(), StreamOpView::Run(c))
                } else {
                    stream_next_call(
                        m,
                        seq![SoulEventView::ToolResult(c.id, "Unknown tool: "@ + c.function.name)],
                    )
                }
            } else {
                stream_next_call(
                    m,
                    seq![SoulEventView::ToolResult(c.id, "Approval denied for tool: "@ + c.function.name)],
                )
            }
        },
        StreamInputView::Ran(r) => {
            let c = m.calls[m.index as int];
            match r {
                Ok(o) => stream_next_call(m, seq![SoulEventView::ToolResult(c.id, o)]),
                Err(e) => stream_next_call(m, seq![SoulEventView::ToolResult(c.id, "Tool error: "@ + e)]),
            }
        },
    }
}

fn lit(s: &str) -> (r: String)
    ensures
        r@ == s@,
{
    String::from_str(s)
}

fn concat2(a: &str, b: &str) -> (r: String)
    ensures
        r@ == a@ + b@,
{
    let mut r = String::from_str(a);
    append_str(&mut r, b);
    r
}

/// Renders a streamed plan, as `stream_plan_text` says.
pub fn format_stream_plan(calls: &Vec<ToolCall>) -> (s: String)
    ensures
        s@ == stream_plan_text(calls_view(calls@)),
{
    let ghost cv = calls_view(calls@);
    let ghost items = Seq::new(cv.len(), |i: int| plan_item(i, cv[i]));
    let mut body = String::new();
    let mut i: usize = 0;
    while i < calls.len()
        invariant
            i <= calls@.len(),
            cv == calls_view(calls@),
            items == Seq::new(cv.len(), |i: int| plan_item(i, cv[i])),
            body@ == join(items.take(i as int), "\n"@),
        decreases calls@.len() - i,
    {
        if i > 0 {
            append_str(&mut body, "\n");
        }
        append_str(&mut body, "  ");
        let num = usize_to_string(i + 1);
        append_str(&mut body, num.as_str());
        append_str(&mut body, ". ");
        append_str(&mut body, calls[i].function.name.as_str());
        append_str(&mut body, "(");
        append_str(&mut body, calls[i].function.arguments.as_str());
        append_str(&mut body, ")");
        proof {
            let t = items.take((i + 1) as int);
            assert(t.drop_last() =~= items.take(i as int));
            assert(t.last() == plan_item(i as int, cv[i as int]));
            if i == 0 {
                assert(items.take(0) =~= Seq::<Seq<char>>::empty());
            }
        }
        i = i + 1;
    }
    assert(items.take(calls@.len() as int) =~= items);
    let mut s = lit("Plan:\n");
    append_str(&mut s, body.as_str());
    s
}

impl StreamRun {
    /// Starts a streamed answer to `input`: the input joins the conversation as a user message,
    /// an empty token is yielded, and the answer is read.
    pub fn begin(core: &mut SoulCore, input: String) -> (r: (StreamRun, StreamAction))
        ensures
            final(core).context.messages_view() == old(core).context.messages_view().push(
                crate::llm::plain_message("user"@, input@),
            ),
            final(core).context.max_tokens == old(core).context.max_tokens,
            final(core).context.reserved_tokens == old(core).context.reserved_tokens,
            final(core).plan_mode == old(core).plan_mode,
            final(core).tool_names@ == old(core).tool_names@,
            r.0@ == (StreamModel {
                plan_mode: old(core).plan_mode,
                tool_names: strings_view(old(core).tool_names@),
                full: Seq::empty(),
                calls: Seq::empty(),
                index: 0,
                phase: StreamPhase::Reading,
            }),
            events_view(r.1.events@) == seq![SoulEventView::Token(Seq::empty())],
            r.1.op@ == StreamOpView::Read,
    {
        core.context.push(Message::user(input));
        let mut names: Vec<String> = Vec::new();
        let mut i: usize = 0;
        while i < core.tool_names.len()
            invariant
                i <= core.tool_names@.len(),
                names@.len() == i,
                forall|j: int| 0 <= j < i ==> #[trigger] names@[j]@ == core.tool_names@[j]@,
            decreases core.tool_names@.len() - i,
        {
            names.push(copy_string(&core.tool_names[i]));
            i = i + 1;
        }
        assert(strings_view(names@) =~= strings_view(core.tool_names@));
        let run = StreamRun {
            plan_mode: core.plan_mode,
            tool_names: names,
            full: String::new(),
            calls: Vec::new(),
            index: 0,
            phase: StreamPhase::Reading,
        };
        assert(calls_view(run.calls@) =~= Seq::<ToolCallView>::empty());
        let events = vec![SoulEvent::Token(String::new())];
        assert(events_view(events@) =~= seq![SoulEventView::Token(Seq::empty())]);
        (run, StreamAction { events, op: StreamOp::Read })
    }

    fn next_call(&mut self, mut events: Vec<SoulEvent>) -> (a: StreamAction)
        requires
            old(self).index < old(self).calls@.len(),
        ensures
            (final(self)@, events_view(a.events@), a.op@) == stream_next_call(old(self)@, events_view(events@)),
    {
        assert(self.index < self.calls.len());
        let i = self.index + 1;
        self.index = i;
        if i < self.calls.len() {
            self.phase = StreamPhase::Parsing;
            let ghost before = events_view(events@);
            events.push(SoulEvent::ToolCall(self.calls[i].duplicate()));
            assert(events_view(events@) =~= before.push(SoulEventView::ToolCall(calls_view(self.calls@)[i as int])));
            StreamAction { events, op: StreamOp::Parse { call: self.calls[i].duplicate() } }
        } else {
            self.phase = StreamPhase::Over;
            let ghost before = events_view(events@);
            events.push(SoulEvent::Done(copy_string(&self.full)));
            assert(events_view(events@) =~= before.push(SoulEventView::Done(self.full@)));
            StreamAction { events, op: StreamOp::Stop }
        }
    }

    /// Takes the caller's answer and says what to yield and do next, as `stream_step` says.
    pub fn step(&mut self, input: StreamInput) -> (a: StreamAction)
        requires
            stream_expects(old(self)@, input@),
        ensures
            (final(self)@, events_view(a.events@), a.op@) == stream_step(old(self)@, input@),
    {
        let ghost iv = input@;
        match input {
            StreamInput::Failed { error } => {
                self.phase = StreamPhase::Over;
                let events = vec![SoulEvent::Error(error)];
                assert(events_view(events@) =~= seq![SoulEventView::Error(iv->Failed_0)]);
                StreamAction { events, op: StreamOp::Stop }
            },
            StreamInput::Chunk { delta, tool_calls } => {
                append_str(&mut self.full, delta.as_str());
                match tool_calls {
                    Some(cs) => {
                        let mut k: usize = 0;
                        let ghost start = calls_view(self.calls@);
                        let ghost mid = *self;
                        while k < cs.len()
                            invariant
                                k <= cs@.len(),
                                self.plan_mode == mid.plan_mode,
                                self.tool_names@ == mid.tool_names@,
                                self.full@ == mid.full@,
                                self.index == mid.index,
                                self.phase == mid.phase,
                                calls_view(self.calls@) == start + calls_view(cs@).take(k as int),
                            decreases cs@.len() - k,
                        {
                            let ghost before = calls_view(self.calls@);
                            self.calls.push(cs[k].duplicate());
                            assert(calls_view(self.calls@) =~= before.push(cs@[k as int]@));
                            assert(calls_view(cs@).take((k + 1) as int) =~= calls_view(cs@).take(k as int).push(cs@[k as int]@));
                            k = k + 1;
                        }
                        assert(calls_view(cs@).take(cs@.len() as int) =~= calls_view(cs@));
                    },
                    None => {
                        assert(calls_view(self.calls@) =~= calls_view(self.calls@) + Seq::<ToolCallView>::empty());
                    },
                }
                if delta.as_str().is_empty() {
                    let events: Vec<SoulEvent> = Vec::new();
                    assert(events_view(events@) =~= Seq::<SoulEventView>::empty());
                    StreamAction { events, op: StreamOp::Read }
                } else {
                    let ghost d = delta@;
                    let events = vec![SoulEvent::Token(delta)];
                    assert(events_view(events@) =~= seq![SoulEventView::Token(d)]);
                    StreamAction { events, op: StreamOp::Read }
                }
            },
            StreamInput::End => {
                if self.calls.len() == 0 {
                    self.phase = StreamPhase::Over;
                    let events = vec![SoulEvent::Done(copy_string(&self.full))];
                    assert(events_view(events@) =~= seq![SoulEventView::Done(self.full@)]);
                    StreamAction { events, op: StreamOp::Stop }
                } else if self.plan_mode {
                    self.phase = StreamPhase::Over;
                    let plan = format_stream_plan(&self.calls);
                    let events = vec![SoulEvent::Plan(plan), SoulEvent::Done(copy_string(&self.full))];
                    assert(events_view(events@) =~= seq![
                        SoulEventView::Plan(stream_plan_text(calls_view(self.calls@))),
                        SoulEventView::Done(self.full@),
                    ]);
                    StreamAction { events, op: StreamOp::Stop }
                } else {
                    self.index = 0;
                    self.phase = StreamPhase::Parsing;
                    let events = vec![SoulEvent::ToolCall(self.calls[0].duplicate())];
                    assert(events_view(events@) =~= seq![SoulEventView::ToolCall(calls_view(self.calls@)[0])]);
                    StreamAction { events, op: StreamOp::Parse { call: self.calls[0].duplicate() } }
                }
            },
            StreamInput::Parsed { result } => {
                match result {
                    Err(e) => {
                        let events = vec![SoulEvent::Error(concat2("tool error: Invalid arguments JSON: ", e.as_str()))];
                        assert(events_view(events@) =~= seq![
                            SoulEventView::Error("tool error: Invalid arguments JSON: "@ + e@),
                        ]);
                        self.next_call(events)
                    },
                    Ok(()) => {
                        self.phase = StreamPhase::Approving;
                        let events: Vec<SoulEvent> = Vec::new();
                        assert(events_view(events@) =~= Seq::<SoulEventView>::empty());
                        StreamAction { events, op: StreamOp::Approve { call: self.calls[self.index].duplicate() } }
                    },
                }
            },
            StreamInput::Approval { result } => {
                let approved = match result {
                    Ok(b) => b,
                    Err(_) => false,
                };
                let c = self.calls[self.index].duplicate();
                if approved {
                    if contains_name(&self.tool_names, c.function.name.as_str()) {
                        proof {
                            let i = choose|i: int| 0 <= i < self.tool_names@.len() && self.tool_names@[i]@ == c.function.name@;
                            assert(strings_view(self.tool_names@)[i] == c.function.name@);
                        }
                        self.phase = StreamPhase::Running;
                        let events: Vec<SoulEvent> = Vec::new();
                        assert(events_view(events@) =~= Seq::<SoulEventView>::empty());
                        StreamAction { events, op: StreamOp::Run { call: c } }
                    } else {
                        proof {
                            if strings_view(self.tool_names@).contains(c.function.name@) {
                                let i = choose|i: int| 0 <= i < strings_view(self.tool_names@).len()
                                    && strings_view(self.tool_names@)[i] == c.function.name@;
                                assert(self.tool_names@[i]@ == c.function.name@);
                            }
                        }
                        let events = vec![SoulEvent::ToolResult {
                            call_id: copy_string(&c.id),
                            output: concat2("Unknown tool: ", c.function.name.as_str()),
                        }];
                        assert(events_view(events@) =~= seq![
                            SoulEventView::ToolResult(c.id@, "Unknown tool: "@ + c.function.name@),
                        ]);
                        self.next_call(events)
                    }
                } else {
                    let events = vec![SoulEvent::ToolResult {
                        call_id: copy_string(&c.id),
                        output: concat2("Approval denied for tool: ", c.function.name.as_str()),
                    }];
                    assert(events_view(events@) =~= seq![
                        SoulEventView::ToolResult(c.id@, "Approval denied for tool: "@ + c.function.name@),
                    ]);
                    self.next_call(events)
                }
            },
            StreamInput::Ran { result } => {
                let id = copy_string(&self.calls[self.index].id);
                let output = match result {
                    Ok(o) => o,
                    Err(e) => concat2("Tool error: ", e.as_str()),
                };
                let events = vec![SoulEvent::ToolResult { call_id: id, output }];
                proof {
                    let r = iv->Ran_0;
                    let c = calls_view(self.calls@)[self.index as int];
                    let want = match r {
                        Ok(o) => SoulEventView::ToolResult(c.id, o),
                        Err(e) => SoulEventView::ToolResult(c.id, "Tool error: "@ + e),
                    };
                    assert(events_view(events@) =~= seq![want]);
                }
                self.next_call(events)
            },
        }
    }
}

} // verus!
