//! The agent turn: a state machine that decides, from what the model, the tools and the user
//! answer, what the agent does next.
use vstd::prelude::*;
use crate::context::Context;
use crate::denwa_renji::DenwaRenji;
use crate::llm::{
    Message, MessageView, ToolCall, ToolCallView, calls_view, copy_calls, messages_view, opt_calls_view,
    plain_message,
};
use crate::text::{append_str, decimal, join, str_eq, usize_to_string};
use crate::turn_model::{
    EffectView, NoteView, SoulModel,
    calls_recorded, calls_reported, effects_view, follows, loop_reports, m_answered, m_approval_answered,
    m_arguments_parsed, m_begin_call, m_call_completed, m_call_or_loop_failed, m_chat_answered,
    m_compacted, m_compaction_checked, m_finish_joined, m_finish_prompt_turn, m_hooks_done, m_loop_finished,
    m_max_steps_reached, m_next_btw, m_next_ralph, m_next_step, m_plan_finished, m_save, m_saved,
    m_start_loop, m_start_turn, m_step_polled, m_tool_finished, result_view, strings_view,
};

verus! {

/// Limits on the work done in one turn.
#[derive(Debug, Clone, Copy)]
pub struct LoopLimits {
    pub max_steps_per_turn: usize,
    pub max_retries_per_step: usize,
    pub max_ralph_iterations: i32,
}

/// What a tool call produced.
#[derive(Debug, Clone)]
pub struct ToolResult {
    pub success: bool,
    pub output: String,
}

/// An event recorded on the wire (timestamps, request ids and arguments are added by the caller).
#[derive(Debug, Clone)]
pub enum Note {
    TurnBegin { turn: usize },
    TurnEnd { turn: usize },
    StepBegin { step: usize },
    StepInterrupted { step: usize, reason: String },
    RalphTurnBegin { iteration: usize },
    RalphTurnEnd { iteration: usize },
    CompactionBegin,
    CompactionEnd,
    BtwBegin { question: String },
    BtwEnd { answer: String },
    PlanDisplay { plan: String },
    ToolCall { call: ToolCall },
    ToolResult { call_id: String, result: ToolResult },
    ApprovalRequest { tool_name: String },
    ApprovalResponse { approved: bool },
}

/// An event reported to the user interface while a turn runs.
#[derive(Debug, Clone)]
pub enum SoulEvent {
    Token(String),
    ToolCall(ToolCall),
    ToolResult { call_id: String, output: String },
    Plan(String),
    Done(String),
    Error(String),
    ApprovalNeeded { tool_name: String },
}

/// Something the caller does, in order, before the operation of an action.
#[derive(Debug, Clone)]
pub enum Effect {
    /// Record a wire event.
    Emit(Note),
    /// Report to the user interface.
    Ui(SoulEvent),
    /// Save a message appended to the context in the session, ignoring failure.
    PersistQuiet(Message),
    /// Archive a summary of the turn in the session.
    Archive,
}

/// The operation the caller performs after the effects, answering with the matching input.
#[derive(Debug)]
pub enum TurnOp {
    /// Run the prompt hooks; answer `hooks_done`.
    RunHooks { prompt: String },
    /// Read the cancel flag and, unless cancelled, take the side questions; answer `step_polled`.
    PollStep,
    /// Tell whether the context needs compacting; answer `compaction_checked`.
    CheckCompaction,
    /// Compact the context's messages; answer `compacted`.
    Compact,
    /// Ask the model, with the context's messages; answer `chat_answered`.
    Chat,
    /// Save the message just appended to the context in the session; answer `saved`.
    Save { message: Message },
    /// Parse the call's arguments; answer `arguments_parsed`.
    ParseArguments { call: ToolCall },
    /// Ask for approval of the call; answer `approval_answered`.
    RequestApproval { call: ToolCall },
    /// Run the tool; answer `tool_finished`.
    RunTool { call: ToolCall },
    /// The turn is over with this result.
    Finish { result: Result<String, String> },
}

/// What the caller does next.
#[derive(Debug)]
pub struct TurnAction {
    pub effects: Vec<Effect>,
    pub op: TurnOp,
}

/// The model's answer to a chat request.
#[derive(Debug, Clone)]
pub enum ChatReply {
    /// A complete answer.
    Answer { content: String, tool_calls: Option<Vec<ToolCall>> },
    /// The request failed.
    Failed { error: String },
    /// A streamed answer broke off after delivering part of its content.
    Broken { error: String, content: String, tool_calls: Vec<ToolCall> },
}

/// Where a turn stands.
#[derive(Debug, Clone, Copy, PartialEq, Eq, Structural)]
pub enum Phase {
    Idle,
    Hooks,
    StepStart,
    CompactionCheck,
    Compacting,
    Chatting,
    Parsing,
    Approving,
    Running,
    Saving,
}

/// Which message is being saved, and so what follows once it is saved.
#[derive(Debug, Clone, Copy, PartialEq, Eq, Structural)]
pub enum SaveSite {
    Prompt,
    Btw,
    FinalAnswer,
    PlanProposal,
    CallsProposal,
    ToolMessage,
}

/// Whether the turn answers a prompt or carries out a pending plan.
#[derive(Debug, Clone, Copy, PartialEq, Eq, Structural)]
pub enum TurnKind {
    Prompt,
    Plan,
}

/// The verified state of the agent: its conversation, modes, checkpoints and the turn in progress.
pub struct SoulCore {
    pub context: Context,
    pub plan_mode: bool,
    pub thinking: bool,
    pub pending_plan: Option<Vec<ToolCall>>,
    pub checkpoints: DenwaRenji,
    pub limits: LoopLimits,
    pub has_compaction: bool,
    pub has_hooks: bool,
    pub tool_names: Vec<String>,
    pub phase: Phase,
    pub kind: TurnKind,
    pub streaming: bool,
    pub input: String,
    pub responses: Vec<String>,
    pub iteration: usize,
    pub step: usize,
    pub retries: usize,
    pub calls: Vec<ToolCall>,
    pub call_index: usize,
    pub save_site: SaveSite,
    pub btw_queue: Vec<String>,
    pub btw_index: usize,
    pub final_text: String,
}

pub open spec fn plan_suffix() -> Seq<char> {
    "\n\n[Plan mode: Use /execute to run this plan, or /plan to disable plan mode]"@
}

/// The plan listing: `Plan:` then one numbered line `  N. name(arguments)` per call.
pub open spec fn plan_lines(calls: Seq<ToolCallView>) -> Seq<char>
    decreases calls.len(),
{
    if calls.len() == 0 {
        Seq::empty()
    } else {
        plan_lines(calls.drop_last()) + "  "@ + decimal(calls.len()) + ". "@ + calls.last().function.name + "("@
            + calls.last().function.arguments + ")\n"@
    }
}

pub open spec fn plan_text(calls: Seq<ToolCallView>) -> Seq<char> {
    "Plan:\n"@ + plan_lines(calls)
}

/// Renders a plan: `Plan:` and a numbered line per tool call.
pub fn format_plan(calls: &Vec<ToolCall>) -> (s: String)
    ensures
        s@ == plan_text(calls_view(calls@)),
{
    let mut s = String::from_str("Plan:\n");
    let mut i: usize = 0;
    let ghost cv = calls_view(calls@);
    while i < calls.len()
        invariant
            i <= calls@.len(),
            cv == calls_view(calls@),
            s@ == "Plan:\n"@ + plan_lines(cv.take(i as int)),
        decreases calls@.len() - i,
    {
        append_str(&mut s, "  ");
        let num = usize_to_string(i + 1);
        append_str(&mut s, num.as_str());
        append_str(&mut s, ". ");
        append_str(&mut s, calls[i].function.name.as_str());
        append_str(&mut s, "(");
        append_str(&mut s, calls[i].function.arguments.as_str());
        append_str(&mut s, ")\n");
        proof {
            let t = cv.take((i + 1) as int);
            assert(t.drop_last() =~= cv.take(i as int));
            assert(t.last() == calls@[i as int]@);
            assert(t.len() == i + 1);
        }
        i = i + 1;
    }
    assert(cv.take(calls@.len() as int) =~= cv);
    s
}

fn lit(s: &str) -> (r: String)
    ensures
        r@ == s@,
{
    String::from_str(s)
}

fn concat2(a: &str, b: &str) -> (r: String)
    ensures
        r@ == a@ + b@,
{
    let mut r = String::from_str(a);
    append_str(&mut r, b);
    r
}

/// The tools an agent knows: the built-in ones, then each extra tool not already known, in
/// order (a later tool of a known name replaces it under that name).
pub open spec fn registered_tools(base: Seq<Seq<char>>, extra: Seq<Seq<char>>) -> Seq<Seq<char>>
    decreases extra.len(),
{
    if extra.len() == 0 {
        base
    } else {
        let b = registered_tools(base, extra.drop_last());
        if b.contains(extra.last()) { b } else { b.push(extra.last()) }
    }
}

/// The built-in tools' names followed by the extra tools' names not already among them.
fn register_tools(extra: Vec<String>) -> (r: Vec<String>)
    ensures
        strings_view(r@) == registered_tools(crate::tools::builtin_names(), strings_view(extra@)),
{
    let mut r = crate::tools::builtin_tool_names();
    assert(strings_view(r@) =~= crate::text_split::strings_view(r@));
    assert(registered_tools(crate::tools::builtin_names(), strings_view(extra@).take(0)) == crate::tools::builtin_names());
    let ghost ev = strings_view(extra@);
    let mut i: usize = 0;
    while i < extra.len()
        invariant
            i <= extra@.len(),
            ev == strings_view(extra@),
            strings_view(r@) == registered_tools(crate::tools::builtin_names(), ev.take(i as int)),
        decreases extra@.len() - i,
    {
        assert(ev.take(i + 1).drop_last() =~= ev.take(i as int));
        assert(ev.take(i + 1).last() == extra@[i as int]@);
        let known = contains_name(&r, extra[i].as_str());
        let ghost before = strings_view(r@);
        proof {
            if known {
                let j = choose|j: int| 0 <= j < r@.len() && r@[j]@ == extra@[i as int]@;
                assert(before[j] == extra@[i as int]@);
            } else {
                assert forall|j: int| 0 <= j < before.len() implies before[j] != extra@[i as int]@ by {
                    assert(before[j] == r@[j]@);
                }
            }
        }
        if !known {
            r.push(crate::llm::copy_string(&extra[i]));
            assert(strings_view(r@) =~= before.push(extra@[i as int]@));
        }
        i = i + 1;
    }
    assert(ev.take(extra@.len() as int) =~= ev);
    r
}

/// Whether a name is among the registered tool names.
pub fn contains_name(names: &Vec<String>, name: &str) -> (b: bool)
    ensures
        b == exists|i: int| 0 <= i < names@.len() && names@[i]@ == name@,
{
    let mut i: usize = 0;
    while i < names.len()
        invariant
            i <= names@.len(),
            forall|j: int| 0 <= j < i ==> names@[j]@ != name@,
        decreases names@.len() - i,
    {
        if str_eq(names[i].as_str(), name) {
            return true;
        }
        i = i + 1;
    }
    false
}

/// Joins texts with a separator.
pub fn join_strings(parts: &Vec<String>, sep: &str) -> (r: String)
    ensures
        r@ == crate::text::join(parts@.map_values(|p: String| p@), sep@),
{
    let ghost pv = parts@.map_values(|p: String| p@);
    let mut r = String::new();
    let mut i: usize = 0;
    while i < parts.len()
        invariant
            i <= parts@.len(),
            pv == parts@.map_values(|p: String| p@),
            r@ == crate::text::join(pv.take(i as int), sep@),
        decreases parts@.len() - i,
    {
        if i > 0 {
            append_str(&mut r, sep);
        }
        append_str(&mut r, parts[i].as_str());
        proof {
            let t = pv.take((i + 1) as int);
            assert(t.drop_last() =~= pv.take(i as int));
            if i == 0 {
                assert(r@ =~= t[0]);
            } else {
                assert(r@ =~= crate::text::join(pv.take(i as int), sep@) + sep@ + t.last());
            }
        }
        i = i + 1;
    }
    assert(pv.take(parts@.len() as int) =~= pv);
    r
}

impl SoulCore {
    /// The turn-progress invariant.
    pub open spec fn wf(&self) -> bool {
        &&& self.call_index <= self.calls@.len()
        &&& (self.phase == Phase::Parsing || self.phase == Phase::Approving || self.phase == Phase::Running)
            ==> self.call_index < self.calls@.len()
        &&& (self.kind == TurnKind::Prompt && self.phase != Phase::Idle && self.phase != Phase::Hooks
            && !(self.phase == Phase::Saving && self.save_site == SaveSite::Prompt))
            ==> self.step < self.limits.max_steps_per_turn
        &&& (self.phase == Phase::Saving && self.save_site == SaveSite::ToolMessage) ==> self.call_index
            < self.calls@.len()
        &&& (self.phase == Phase::Saving && self.save_site == SaveSite::Btw) ==> self.btw_index
            < self.btw_queue@.len()
        &&& self.btw_index <= self.btw_queue@.len()
        &&& self.iteration <= i32::MAX
        &&& (self.kind == TurnKind::Plan && self.phase != Phase::Idle) ==> (self.phase == Phase::Parsing
            || self.phase == Phase::Approving || self.phase == Phase::Running || (self.phase
            == Phase::Saving && self.save_site == SaveSite::ToolMessage))
    }

    /// Bounds that every state keeps.
    pub open spec fn bounded(&self) -> bool {
        &&& self.call_index <= self.calls@.len()
        &&& self.btw_index <= self.btw_queue@.len()
        &&& self.iteration <= i32::MAX
    }

    /// Whether the current loop reports to the user interface: only the first loop of a turn that
    /// streams does.
    pub open spec fn loop_reports(&self) -> bool {
        self.streaming && self.iteration == 0 && self.kind == TurnKind::Prompt
    }

    /// Whether tool calls are reported to the user interface.
    pub open spec fn calls_reported(&self) -> bool {
        self.streaming && (self.kind == TurnKind::Plan || self.iteration == 0)
    }

    /// Whether tool calls are recorded on the wire (a streamed plan run records none).
    pub open spec fn calls_recorded(&self) -> bool {
        !(self.streaming && self.kind == TurnKind::Plan)
    }

    /// A fresh agent state; a non-empty system prompt starts the conversation.
    pub fn new(
        system_prompt: String,
        max_context_size: usize,
        reserved_context_size: usize,
        limits: LoopLimits,
        extra_tools: Vec<String>,
    ) -> (s: SoulCore)
        ensures
            s.wf(),
            s.phase == Phase::Idle,
            s.context.max_tokens == max_context_size,
            s.context.reserved_tokens == reserved_context_size,
            system_prompt@.len() == 0 ==> s.context.messages_view() == Seq::<MessageView>::empty(),
            system_prompt@.len() > 0 ==> s.context.messages_view() == seq![plain_message("system"@, system_prompt@)],
            !s.plan_mode,
            !s.thinking,
            s.pending_plan.is_none(),
            s.checkpoints.held().len() == 0,
            s.checkpoints.issued() == 0,
            s.checkpoints.capacity() == 10,
            s.limits == limits,
            s.has_compaction,
            !s.has_hooks,
            strings_view(s.tool_names@) == registered_tools(crate::tools::builtin_names(), strings_view(extra_tools@)),
    {
        let tool_names = register_tools(extra_tools);
        let mut context = Context::new(max_context_size, reserved_context_size);
        if !system_prompt.as_str().is_empty() {
            context.push(Message::system(system_prompt));
        }
        proof {
            if context.messages@.len() == 0 {
                assert(context.messages_view() =~= Seq::<MessageView>::empty());
            }
        }
        SoulCore {
            context,
            plan_mode: false,
            thinking: false,
            pending_plan: None,
            checkpoints: DenwaRenji::new(10),
            limits,
            has_compaction: true,
            has_hooks: false,
            tool_names,
            phase: Phase::Idle,
            kind: TurnKind::Prompt,
            streaming: false,
            input: String::new(),
            responses: Vec::new(),
            iteration: 0,
            step: 0,
            retries: 0,
            calls: Vec::new(),
            call_index: 0,
            save_site: SaveSite::Prompt,
            btw_queue: Vec::new(),
            btw_index: 0,
            final_text: String::new(),
        }
    }
}


impl SoulCore {
    fn loop_reports_exec(&self) -> (b: bool)
        ensures
            b == loop_reports(self.model()),
    {
        self.streaming && self.iteration == 0 && self.kind == TurnKind::Prompt
    }

    fn calls_reported_exec(&self) -> (b: bool)
        ensures
            b == calls_reported(self.model()),
    {
        self.streaming && (self.kind == TurnKind::Plan || self.iteration == 0)
    }

    fn calls_recorded_exec(&self) -> (b: bool)
        ensures
            b == calls_recorded(self.model()),
    {
        !(self.streaming && self.kind == TurnKind::Plan)
    }

    /// Appends a message to the context and asks the caller to save it.
    fn save(&mut self, effects: Vec<Effect>, message: Message, site: SaveSite) -> (a: TurnAction)
        ensures
            follows(*old(self), *final(self), a, m_save(old(self).model(), effects_view(effects@), message@, site)),
            final(self).kind == old(self).kind,
            final(self).step == old(self).step,
            final(self).iteration == old(self).iteration,
            final(self).calls == old(self).calls,
            final(self).call_index == old(self).call_index,
            final(self).btw_queue == old(self).btw_queue,
            final(self).btw_index == old(self).btw_index,
            final(self).phase == Phase::Saving,
            final(self).save_site == site,
    {
        let copy = message.duplicate();
        self.context.push(message);
        self.phase = Phase::Saving;
        self.save_site = site;
        TurnAction { effects, op: TurnOp::Save { message: copy } }
    }

    /// Starts a turn: carries out the pending plan if there is one, and otherwise answers `input`.
    pub fn start_turn(&mut self, input: String, streaming: bool, cancelled: bool) -> (a: TurnAction)
        requires
            old(self).wf(),
            old(self).phase == Phase::Idle,
        ensures
            final(self).wf(),
            follows(*old(self), *final(self), a, m_start_turn(old(self).model(), input@, streaming, cancelled)),
    {
        let mut effects: Vec<Effect> = Vec::new();
        self.streaming = streaming;
        self.responses = Vec::new();
        self.iteration = 0;
        self.step = 0;
        self.call_index = 0;
        self.btw_queue = Vec::new();
        self.btw_index = 0;
        let turn = self.context.len();
        push_effect(&mut effects, Effect::Emit(Note::TurnBegin { turn }));
        proof {
            assert(effects_view(effects@) =~= seq![EffectView::Emit(NoteView::TurnBegin(old(self).model().messages.len()))]);
            assert(strings_view(self.responses@) =~= Seq::empty());
            assert(strings_view(self.btw_queue@) =~= Seq::empty());
        }
        match self.pending_plan.take() {
            Some(plan) => {
                self.kind = TurnKind::Plan;
                self.calls = plan;
                self.input = input;
                proof {
                    let s0 = old(self).model();
                    let s1 = SoulModel {
                        streaming,
                        responses: Seq::empty(),
                        iteration: 0,
                        step: 0,
                        call_index: 0,
                        btw: Seq::empty(),
                        btw_index: 0,
                        ..s0
                    };
                    assert(self.model() =~= SoulModel {
                        pending_plan: None,
                        kind: TurnKind::Plan,
                        calls: s0.pending_plan.unwrap(),
                        input: input@,
                        ..s1
                    });
                }
                return self.begin_call(effects, cancelled);
            },
            None => {},
        }
        self.kind = TurnKind::Prompt;
        self.calls = Vec::new();
        self.input = input;
        proof {
            assert(calls_view(self.calls@) =~= Seq::empty());
            let s0 = old(self).model();
            let s1 = SoulModel {
                streaming,
                responses: Seq::empty(),
                iteration: 0,
                step: 0,
                call_index: 0,
                btw: Seq::empty(),
                btw_index: 0,
                ..s0
            };
            assert(self.model() =~= SoulModel {
                pending_plan: None,
                kind: TurnKind::Prompt,
                calls: Seq::empty(),
                input: input@,
                ..s1
            });
        }
        if self.has_hooks {
            self.phase = Phase::Hooks;
            let prompt = self.input.clone();
            return TurnAction { effects, op: TurnOp::RunHooks { prompt } };
        }
        let m = Message::user(self.input.clone());
        self.save(effects, m, SaveSite::Prompt)
    }

    /// The prompt hooks have run.
    pub fn hooks_done(&mut self) -> (a: TurnAction)
        requires
            old(self).wf(),
            old(self).phase == Phase::Hooks,
        ensures
            final(self).wf(),
            follows(*old(self), *final(self), a, m_hooks_done(old(self).model())),
    {
        let m = Message::user(self.input.clone());
        let e: Vec<Effect> = Vec::new();
        assert(effects_view(e@) =~= Seq::empty());
        self.save(e, m, SaveSite::Prompt)
    }

    fn start_loop(&mut self, effects: Vec<Effect>, cancelled: bool) -> (a: TurnAction)
        requires
            old(self).bounded(),
            old(self).kind == TurnKind::Prompt,
        ensures
            final(self).wf(),
            follows(*old(self), *final(self), a, m_start_loop(old(self).model(), effects_view(effects@), cancelled)),
        decreases i32::MAX - old(self).iteration, 3int,
    {
        self.step = 0;
        self.retries = 0;
        if self.limits.max_steps_per_turn == 0 {
            return self.max_steps_reached(effects, cancelled);
        }
        self.phase = Phase::StepStart;
        TurnAction { effects, op: TurnOp::PollStep }
    }

    fn max_steps_reached(&mut self, effects: Vec<Effect>, cancelled: bool) -> (a: TurnAction)
        requires
            old(self).bounded(),
            old(self).kind == TurnKind::Prompt,
        ensures
            final(self).wf(),
            follows(*old(self), *final(self), a, m_max_steps_reached(old(self).model(), effects_view(effects@), cancelled)),
        decreases i32::MAX - old(self).iteration, 2int,
    {
        let mut effects = effects;
        let text = lit("[Reached maximum steps per turn]");
        if self.loop_reports_exec() {
            push_effect(&mut effects, Effect::Ui(SoulEvent::Done(text.clone())));
        }
        self.loop_finished(effects, Ok(text), cancelled)
    }

    /// The start of a step: the cancel flag and the side questions asked meanwhile.
    pub fn step_polled(&mut self, btw: Vec<String>, cancelled: bool) -> (a: TurnAction)
        requires
            old(self).wf(),
            old(self).phase == Phase::StepStart,
            cancelled ==> btw@.len() == 0,
        ensures
            final(self).wf(),
            follows(*old(self), *final(self), a, m_step_polled(old(self).model(), strings_view(btw@), cancelled)),
    {
        let mut effects: Vec<Effect> = Vec::new();
        assert(effects_view(effects@) =~= Seq::empty());
        if cancelled {
            let text = lit("[Cancelled]");
            if self.loop_reports_exec() {
                push_effect(&mut effects, Effect::Ui(SoulEvent::Done(text.clone())));
            }
            return self.loop_finished(effects, Ok(text), cancelled);
        }
        self.btw_queue = btw;
        self.btw_index = 0;
        self.next_btw(effects)
    }

    fn next_btw(&mut self, effects: Vec<Effect>) -> (a: TurnAction)
        requires
            old(self).bounded(),
            old(self).kind == TurnKind::Prompt,
            old(self).step < old(self).limits.max_steps_per_turn,
        ensures
            final(self).wf(),
            follows(*old(self), *final(self), a, m_next_btw(old(self).model(), effects_view(effects@))),
    {
        let mut effects = effects;
        if self.btw_index < self.btw_queue.len() {
            let q = self.btw_queue[self.btw_index].clone();
            push_effect(&mut effects, Effect::Emit(Note::BtwBegin { question: q.clone() }));
            let text = concat2("[BTW] ", q.as_str());
            return self.save(effects, Message::user(text), SaveSite::Btw);
        }
        push_effect(&mut effects, Effect::Emit(Note::StepBegin { step: self.step }));
        if self.has_compaction {
            self.phase = Phase::CompactionCheck;
            TurnAction { effects, op: TurnOp::CheckCompaction }
        } else {
            self.phase = Phase::Chatting;
            TurnAction { effects, op: TurnOp::Chat }
        }
    }

    /// Whether the context needs compacting.
    pub fn compaction_checked(&mut self, needed: bool) -> (a: TurnAction)
        requires
            old(self).wf(),
            old(self).phase == Phase::CompactionCheck,
        ensures
            final(self).wf(),
            follows(*old(self), *final(self), a, m_compaction_checked(old(self).model(), needed)),
    {
        let mut effects: Vec<Effect> = Vec::new();
        assert(effects_view(effects@) =~= Seq::empty());
        if needed {
            push_effect(&mut effects, Effect::Emit(Note::CompactionBegin));
            self.phase = Phase::Compacting;
            TurnAction { effects, op: TurnOp::Compact }
        } else {
            self.phase = Phase::Chatting;
            TurnAction { effects, op: TurnOp::Chat }
        }
    }

    /// The compacted conversation, or the failure of compaction.
    pub fn compacted(&mut self, result: Result<Vec<Message>, String>, cancelled: bool) -> (a: TurnAction)
        requires
            old(self).wf(),
            old(self).phase == Phase::Compacting,
        ensures
            final(self).wf(),
            follows(*old(self), *final(self), a, m_compacted(old(self).model(), compacted_view(result), cancelled)),
    {
        let mut effects: Vec<Effect> = Vec::new();
        assert(effects_view(effects@) =~= Seq::empty());
        match result {
            Err(e) => self.compaction_failed(e, cancelled),
            Ok(ms) => {
                let ghost mv = messages_view(ms@);
                self.context.messages = ms;
                push_effect(&mut effects, Effect::Emit(Note::CompactionEnd));
                push_effect(&mut effects, Effect::Archive);
                self.phase = Phase::Chatting;
                assert(self.model() =~= SoulModel { messages: mv, phase: Phase::Chatting, ..old(self).model() });
                assert(effects_view(effects@) =~= seq![EffectView::Emit(NoteView::CompactionEnd), EffectView::Archive]);
                TurnAction { effects, op: TurnOp::Chat }
            },
        }
    }

    fn compaction_failed(&mut self, e: String, cancelled: bool) -> (a: TurnAction)
        requires
            old(self).wf(),
            old(self).phase == Phase::Compacting,
        ensures
            final(self).wf(),
            follows(*old(self), *final(self), a, m_compacted(old(self).model(), Err(e@), cancelled)),
    {
        let effects: Vec<Effect> = Vec::new();
        assert(effects_view(effects@) =~= Seq::empty());
        self.loop_finished(effects, Err(e), cancelled)
    }

    fn next_step(&mut self, effects: Vec<Effect>, cancelled: bool) -> (a: TurnAction)
        requires
            old(self).bounded(),
            old(self).kind == TurnKind::Prompt,
            old(self).step < old(self).limits.max_steps_per_turn,
        ensures
            final(self).wf(),
            follows(*old(self), *final(self), a, m_next_step(old(self).model(), effects_view(effects@), cancelled)),
    {
        self.step = self.step + 1;
        self.retries = 0;
        if self.step >= self.limits.max_steps_per_turn {
            return self.max_steps_reached(effects, cancelled);
        }
        self.phase = Phase::StepStart;
        TurnAction { effects, op: TurnOp::PollStep }
    }

    /// The model's answer.
    pub fn chat_answered(&mut self, reply: ChatReply, cancelled: bool) -> (a: TurnAction)
        requires
            old(self).wf(),
            old(self).phase == Phase::Chatting,
        ensures
            final(self).wf(),
            follows(*old(self), *final(self), a, m_chat_answered(old(self).model(), reply@, cancelled)),
    {
        let mut effects: Vec<Effect> = Vec::new();
        assert(effects_view(effects@) =~= Seq::empty());
        match reply {
            ChatReply::Failed { error } => {
                if self.retries < self.limits.max_retries_per_step {
                    self.retries = self.retries + 1;
                    self.phase = Phase::StepStart;
                    return TurnAction { effects, op: TurnOp::PollStep };
                }
                push_effect(&mut effects, Effect::Emit(Note::StepInterrupted { step: self.step, reason: error.clone() }));
                if self.loop_reports_exec() {
                    push_effect(&mut effects, Effect::Ui(SoulEvent::Error(error.clone())));
                }
                self.loop_finished(effects, Err(error), cancelled)
            },
            ChatReply::Broken { error, content, tool_calls } => {
                push_effect(&mut effects, Effect::Ui(SoulEvent::Error(error.clone())));
                if self.retries < self.limits.max_retries_per_step {
                    let calls = if tool_calls.len() == 0 { None } else { Some(tool_calls) };
                    self.answered(effects, content, calls)
                } else {
                    push_effect(&mut effects, Effect::Emit(Note::StepInterrupted { step: self.step, reason: error.clone() }));
                    self.loop_finished(effects, Err(error), cancelled)
                }
            },
            ChatReply::Answer { content, tool_calls } => self.answered(effects, content, tool_calls),
        }
    }

    fn answered(&mut self, effects: Vec<Effect>, content: String, tool_calls: Option<Vec<ToolCall>>) -> (a: TurnAction)
        requires
            old(self).wf(),
            old(self).phase == Phase::Chatting,
            old(self).kind == TurnKind::Prompt,
        ensures
            final(self).wf(),
            follows(*old(self), *final(self), a, m_answered(
                old(self).model(),
                effects_view(effects@),
                content@,
                opt_calls_view(tool_calls),
            )),
    {
        match tool_calls {
            None => {
                self.final_text = content.clone();
                self.save(effects, Message::assistant(content), SaveSite::FinalAnswer)
            },
            Some(calls) => {
                let m = Message {
                    role: lit("assistant"),
                    content,
                    tool_calls: Some(copy_calls(&calls)),
                    tool_call_id: None,
                };
                self.calls = calls;
                self.call_index = 0;
                if self.plan_mode {
                    self.save(effects, m, SaveSite::PlanProposal)
                } else {
                    self.save(effects, m, SaveSite::CallsProposal)
                }
            },
        }
    }

    /// The outcome of saving the message last appended to the context.
    #[verifier::rlimit(40)]
    pub fn saved(&mut self, result: Result<(), String>, cancelled: bool) -> (a: TurnAction)
        requires
            old(self).wf(),
            old(self).phase == Phase::Saving,
        ensures
            final(self).wf(),
            follows(*old(self), *final(self), a, m_saved(
                old(self).model(),
                match result { Ok(()) => Ok(()), Err(e) => Err(e@) },
                cancelled,
            )),
    {
        let effects: Vec<Effect> = Vec::new();
        assert(effects_view(effects@) =~= Seq::empty());
        match result {
            Err(e) => {
                match self.save_site {
                    SaveSite::Prompt => {
                        self.phase = Phase::Idle;
                        TurnAction { effects, op: TurnOp::Finish { result: Err(e) } }
                    },
                    _ => self.call_or_loop_failed(effects, e, cancelled),
                }
            },
            Ok(()) => {
                match self.save_site {
                    SaveSite::Prompt => self.start_loop(effects, cancelled),
                    SaveSite::Btw => self.saved_btw(),
                    SaveSite::FinalAnswer => self.saved_final(cancelled),
                    SaveSite::PlanProposal => self.saved_plan(cancelled),
                    SaveSite::CallsProposal => self.begin_call(effects, cancelled),
                    SaveSite::ToolMessage => {
                        let _n = self.calls.len();
                        self.call_index = self.call_index + 1;
                        proof {
                            assert(self.model() =~= SoulModel { call_index: old(self).model().call_index + 1, ..old(self).model() });
                        }
                        self.begin_call(effects, cancelled)
                    },
                }
            },
        }
    }

    fn saved_btw(&mut self) -> (a: TurnAction)
        requires
            old(self).wf(),
            old(self).phase == Phase::Saving,
            old(self).save_site == SaveSite::Btw,
        ensures
            final(self).wf(),
            follows(*old(self), *final(self), a, m_saved(old(self).model(), Ok(()), false)),
    {
        let mut effects: Vec<Effect> = Vec::new();
        assert(effects_view(effects@) =~= Seq::empty());
        push_effect(&mut effects, Effect::Emit(Note::BtwEnd { answer: String::new() }));
        let _n = self.btw_queue.len();
        self.btw_index = self.btw_index + 1;
        proof {
            assert(self.model() =~= SoulModel { btw_index: old(self).model().btw_index + 1, ..old(self).model() });
        }
        self.next_btw(effects)
    }

    fn saved_final(&mut self, cancelled: bool) -> (a: TurnAction)
        requires
            old(self).wf(),
            old(self).phase == Phase::Saving,
            old(self).save_site == SaveSite::FinalAnswer,
        ensures
            final(self).wf(),
            follows(*old(self), *final(self), a, m_saved(old(self).model(), Ok(()), cancelled)),
    {
        let mut effects: Vec<Effect> = Vec::new();
        assert(effects_view(effects@) =~= Seq::empty());
        let text = self.final_text.clone();
        if self.loop_reports_exec() {
            push_effect(&mut effects, Effect::Ui(SoulEvent::Done(text.clone())));
        }
        self.loop_finished(effects, Ok(text), cancelled)
    }

    fn saved_plan(&mut self, cancelled: bool) -> (a: TurnAction)
        requires
            old(self).wf(),
            old(self).phase == Phase::Saving,
            old(self).save_site == SaveSite::PlanProposal,
        ensures
            final(self).wf(),
            follows(*old(self), *final(self), a, m_saved(old(self).model(), Ok(()), cancelled)),
    {
        let mut effects: Vec<Effect> = Vec::new();
        assert(effects_view(effects@) =~= Seq::empty());
        let mut text = format_plan(&self.calls);
        append_str(&mut text, "\n\n[Plan mode: Use /execute to run this plan, or /plan to disable plan mode]");
        self.pending_plan = Some(copy_calls(&self.calls));
        push_effect(&mut effects, Effect::Emit(Note::PlanDisplay { plan: text.clone() }));
        if self.loop_reports_exec() {
            push_effect(&mut effects, Effect::Ui(SoulEvent::Plan(text.clone())));
            push_effect(&mut effects, Effect::Ui(SoulEvent::Done(text.clone())));
        }
        proof {
            assert(self.model() =~= SoulModel { pending_plan: Some(old(self).model().calls), ..old(self).model() });
        }
        self.loop_finished(effects, Ok(text), cancelled)
    }

    fn call_or_loop_failed(&mut self, effects: Vec<Effect>, error: String, cancelled: bool) -> (a: TurnAction)
        requires
            old(self).bounded(),
        ensures
            final(self).wf(),
            follows(*old(self), *final(self), a, m_call_or_loop_failed(
                old(self).model(),
                effects_view(effects@),
                error@,
                cancelled,
            )),
    {
        match self.kind {
            TurnKind::Prompt => self.loop_finished(effects, Err(error), cancelled),
            TurnKind::Plan => self.plan_finished(effects, Err(error)),
        }
    }

    fn begin_call(&mut self, effects: Vec<Effect>, cancelled: bool) -> (a: TurnAction)
        requires
            old(self).bounded(),
            old(self).kind == TurnKind::Prompt ==> old(self).step < old(self).limits.max_steps_per_turn,
        ensures
            final(self).wf(),
            follows(*old(self), *final(self), a, m_begin_call(old(self).model(), effects_view(effects@), cancelled)),
    {
        let mut effects = effects;
        if self.call_index >= self.calls.len() {
            return match self.kind {
                TurnKind::Prompt => self.next_step(effects, cancelled),
                TurnKind::Plan => self.plan_finished(effects, Ok(lit("Plan executed. Continuing..."))),
            };
        }
        if cancelled {
            return match self.kind {
                TurnKind::Prompt => {
                    let text = lit("[Cancelled]");
                    if self.loop_reports_exec() {
                        push_effect(&mut effects, Effect::Ui(SoulEvent::Done(text.clone())));
                    }
                    self.loop_finished(effects, Ok(text), cancelled)
                },
                TurnKind::Plan => self.plan_finished(effects, Ok(lit("[Cancelled]"))),
            };
        }
        let call = self.calls[self.call_index].duplicate();
        if self.calls_recorded_exec() {
            push_effect(&mut effects, Effect::Emit(Note::ToolCall { call: call.duplicate() }));
        }
        if self.calls_reported_exec() {
            push_effect(&mut effects, Effect::Ui(SoulEvent::ToolCall(call.duplicate())));
        }
        self.phase = Phase::Parsing;
        TurnAction { effects, op: TurnOp::ParseArguments { call } }
    }

    /// Whether the current call's arguments parsed (the error text of the parser otherwise).
    pub fn arguments_parsed(&mut self, result: Result<(), String>, cancelled: bool) -> (a: TurnAction)
        requires
            old(self).wf(),
            old(self).phase == Phase::Parsing,
        ensures
            final(self).wf(),
            follows(*old(self), *final(self), a, m_arguments_parsed(
                old(self).model(),
                match result { Ok(()) => Ok(()), Err(e) => Err(e@) },
                cancelled,
            )),
    {
        let mut effects: Vec<Effect> = Vec::new();
        assert(effects_view(effects@) =~= Seq::empty());
        match result {
            Err(e) => {
                let msg = concat2("tool error: Invalid arguments JSON: ", e.as_str());
                self.call_or_loop_failed(effects, msg, cancelled)
            },
            Ok(()) => {
                let name = self.calls[self.call_index].function.name.clone();
                let known = contains_name(&self.tool_names, name.as_str());
                proof {
                    let nv = strings_view(self.tool_names@);
                    if known {
                        let i = choose|i: int| 0 <= i < self.tool_names@.len() && self.tool_names@[i]@ == name@;
                        assert(nv[i] == name@);
                    } else {
                        assert forall|i: int| 0 <= i < nv.len() implies nv[i] != name@ by {
                            assert(nv[i] == self.tool_names@[i]@);
                        }
                    }
                }
                if !known {
                    let msg = concat2("tool error: Unknown tool: ", name.as_str());
                    return self.call_or_loop_failed(effects, msg, cancelled);
                }
                push_effect(&mut effects, Effect::Emit(Note::ApprovalRequest { tool_name: name }));
                self.phase = Phase::Approving;
                let call = self.calls[self.call_index].duplicate();
                TurnAction { effects, op: TurnOp::RequestApproval { call } }
            },
        }
    }

    /// The user's (or policy's) answer to the approval request, or the failure to get one.
    pub fn approval_answered(&mut self, result: Result<bool, String>, cancelled: bool) -> (a: TurnAction)
        requires
            old(self).wf(),
            old(self).phase == Phase::Approving,
        ensures
            final(self).wf(),
            follows(*old(self), *final(self), a, m_approval_answered(
                old(self).model(),
                match result { Ok(b) => Ok(b), Err(e) => Err(e@) },
                cancelled,
            )),
    {
        let mut effects: Vec<Effect> = Vec::new();
        assert(effects_view(effects@) =~= Seq::empty());
        match result {
            Err(e) => self.call_or_loop_failed(effects, e, cancelled),
            Ok(approved) => {
                push_effect(&mut effects, Effect::Emit(Note::ApprovalResponse { approved }));
                if !approved {
                    let name = self.calls[self.call_index].function.name.clone();
                    let output = concat2("Approval denied for tool: ", name.as_str());
                    return self.call_completed(effects, ToolResult { success: false, output });
                }
                self.phase = Phase::Running;
                let call = self.calls[self.call_index].duplicate();
                TurnAction { effects, op: TurnOp::RunTool { call } }
            },
        }
    }

    /// The tool's output, or its error text.
    pub fn tool_finished(&mut self, result: Result<String, String>) -> (a: TurnAction)
        requires
            old(self).wf(),
            old(self).phase == Phase::Running,
        ensures
            final(self).wf(),
            follows(*old(self), *final(self), a, m_tool_finished(old(self).model(), result_view(result))),
    {
        let r = match result {
            Ok(out) => ToolResult { success: true, output: out },
            Err(e) => ToolResult { success: false, output: concat2("Tool error: ", e.as_str()) },
        };
        let e: Vec<Effect> = Vec::new();
        assert(effects_view(e@) =~= Seq::empty());
        self.call_completed(e, r)
    }

    fn call_completed(&mut self, effects: Vec<Effect>, result: ToolResult) -> (a: TurnAction)
        requires
            old(self).bounded(),
            old(self).call_index < old(self).calls@.len(),
            old(self).kind == TurnKind::Prompt ==> old(self).step < old(self).limits.max_steps_per_turn,
        ensures
            final(self).wf(),
            follows(*old(self), *final(self), a, m_call_completed(old(self).model(), effects_view(effects@), result@)),
    {
        let mut effects = effects;
        let call_id = self.calls[self.call_index].id.clone();
        if self.calls_recorded_exec() {
            push_effect(&mut effects, Effect::Emit(Note::ToolResult {
                call_id: call_id.clone(),
                result: ToolResult { success: result.success, output: result.output.clone() },
            }));
        }
        if self.calls_reported_exec() {
            push_effect(&mut effects, Effect::Ui(SoulEvent::ToolResult { call_id: call_id.clone(), output: result.output.clone() }));
        }
        self.save(effects, Message::tool(result.output, call_id), SaveSite::ToolMessage)
    }

    fn plan_finished(&mut self, effects: Vec<Effect>, result: Result<String, String>) -> (a: TurnAction)
        requires
            old(self).iteration <= i32::MAX,
        ensures
            final(self).wf(),
            final(self).phase == Phase::Idle,
            follows(*old(self), *final(self), a, m_plan_finished(old(self).model(), effects_view(effects@), result_view(result))),
    {
        let mut effects = effects;
        self.phase = Phase::Idle;
        self.calls = Vec::new();
        self.call_index = 0;
        self.btw_queue = Vec::new();
        self.btw_index = 0;
        self.kind = TurnKind::Prompt;
        proof {
            assert(calls_view(self.calls@) =~= Seq::empty());
            assert(strings_view(self.btw_queue@) =~= Seq::empty());
        }
        if self.streaming {
            match &result {
                Ok(text) => {
                    push_effect(&mut effects, Effect::Ui(SoulEvent::Done(text.clone())));
                },
                Err(_) => {
                    return TurnAction { effects, op: TurnOp::Finish { result } };
                },
            }
        }
        let turn = self.context.len();
        push_effect(&mut effects, Effect::Emit(Note::TurnEnd { turn }));
        TurnAction { effects, op: TurnOp::Finish { result } }
    }

    fn loop_finished(&mut self, effects: Vec<Effect>, result: Result<String, String>, cancelled: bool) -> (a: TurnAction)
        requires
            old(self).bounded(),
            old(self).kind == TurnKind::Prompt,
        ensures
            final(self).wf(),
            follows(*old(self), *final(self), a, m_loop_finished(
                old(self).model(),
                effects_view(effects@),
                result_view(result),
                cancelled,
            )),
        decreases i32::MAX - old(self).iteration, 1int,
    {
        let mut effects = effects;
        if self.iteration == 0 {
            match result {
                Err(e) => {
                    return self.finish_prompt_turn(effects, Err(e));
                },
                Ok(r) => {
                    push_string(&mut self.responses, r);
                },
            }
        } else {
            match result {
                Err(_) => {
                    return self.finish_prompt_turn_joined(effects);
                },
                Ok(r) => {
                    push_string(&mut self.responses, r);
                    push_effect(&mut effects, Effect::Emit(Note::RalphTurnEnd { iteration: self.iteration }));
                },
            }
        }
        self.next_ralph(effects, cancelled)
    }

    fn next_ralph(&mut self, effects: Vec<Effect>, cancelled: bool) -> (a: TurnAction)
        requires
            old(self).bounded(),
            old(self).kind == TurnKind::Prompt,
        ensures
            final(self).wf(),
            follows(*old(self), *final(self), a, m_next_ralph(old(self).model(), effects_view(effects@), cancelled)),
        decreases i32::MAX - old(self).iteration, 0int,
    {
        let mut effects = effects;
        let max = self.limits.max_ralph_iterations;
        if max <= 0 || self.iteration >= max as usize || cancelled {
            return self.finish_prompt_turn_joined(effects);
        }
        let i = self.iteration + 1;
        push_effect(&mut effects, Effect::Emit(Note::RalphTurnBegin { iteration: i }));
        if self.streaming {
            let mut t = lit("\n[Ralph iteration ");
            let num = usize_to_string(i);
            append_str(&mut t, num.as_str());
            append_str(&mut t, "]\n");
            push_effect(&mut effects, Effect::Ui(SoulEvent::Token(t)));
        }
        let m = Message::user(lit("Continue."));
        push_effect(&mut effects, Effect::PersistQuiet(m.duplicate()));
        self.context.push(m);
        self.iteration = i;
        self.calls = Vec::new();
        self.call_index = 0;
        self.btw_queue = Vec::new();
        self.btw_index = 0;
        proof {
            assert(calls_view(self.calls@) =~= Seq::empty());
            assert(strings_view(self.btw_queue@) =~= Seq::empty());
        }
        self.start_loop(effects, cancelled)
    }

    fn finish_prompt_turn_joined(&mut self, effects: Vec<Effect>) -> (a: TurnAction)
        requires
            old(self).iteration <= i32::MAX,
        ensures
            final(self).wf(),
            final(self).phase == Phase::Idle,
            follows(*old(self), *final(self), a, m_finish_joined(old(self).model(), effects_view(effects@))),
    {
        let text = join_strings(&self.responses, "\n\n");
        self.finish_prompt_turn(effects, Ok(text))
    }

    fn finish_prompt_turn(&mut self, effects: Vec<Effect>, result: Result<String, String>) -> (a: TurnAction)
        requires
            old(self).iteration <= i32::MAX,
        ensures
            final(self).wf(),
            final(self).phase == Phase::Idle,
            follows(*old(self), *final(self), a, m_finish_prompt_turn(old(self).model(), effects_view(effects@), result_view(result))),
    {
        let mut effects = effects;
        self.phase = Phase::Idle;
        self.calls = Vec::new();
        self.call_index = 0;
        self.btw_queue = Vec::new();
        self.btw_index = 0;
        proof {
            assert(calls_view(self.calls@) =~= Seq::empty());
            assert(strings_view(self.btw_queue@) =~= Seq::empty());
        }
        let turn = self.context.len();
        push_effect(&mut effects, Effect::Emit(Note::TurnEnd { turn }));
        TurnAction { effects, op: TurnOp::Finish { result } }
    }
}

/// The view of a compaction outcome.
pub open spec fn compacted_view(r: Result<Vec<Message>, String>) -> Result<Seq<MessageView>, Seq<char>> {
    match r {
        Ok(ms) => Ok(messages_view(ms@)),
        Err(e) => Err(e@),
    }
}

fn push_effect(effects: &mut Vec<Effect>, x: Effect)
    ensures
        effects_view(final(effects)@) == effects_view(old(effects)@).push(x@),
{
    let ghost xv = x@;
    effects.push(x);
    assert(effects_view(effects@) =~= effects_view(old(effects)@).push(xv));
}

fn push_string(v: &mut Vec<String>, x: String)
    ensures
        strings_view(final(v)@) == strings_view(old(v)@).push(x@),
{
    let ghost xv = x@;
    v.push(x);
    assert(strings_view(v@) =~= strings_view(old(v)@).push(xv));
}


/// The text of the line archived for one message: `[role] ` and the first 80 bytes of its content.
pub open spec fn archive_entry(m: MessageView) -> Seq<char> {
    let n = crate::text::utf8_len(m.content);
    "["@ + m.role + "] "@ + crate::text::utf8_truncate(m.content, if n < 80 { n as int } else { 80 })
}

/// Whether each of the last three messages can be cut after 80 bytes.
pub open spec fn archive_cuttable(ms: Seq<MessageView>) -> bool {
    forall|i: int| ms.len() - 3 <= i < ms.len() && 0 <= i ==> (crate::text::utf8_len(#[trigger] ms[i].content) > 80
        ==> crate::text::char_boundary(ms[i].content, 80))
}

/// The newest messages first, at most three.
pub open spec fn newest_three(ms: Seq<MessageView>) -> Seq<MessageView> {
    let k: int = if ms.len() < 3 { ms.len() as int } else { 3 };
    Seq::new(k as nat, |i: int| ms[ms.len() - 1 - i])
}

/// The archive summary of a conversation: its last three messages, newest first, joined by ` | `.
pub open spec fn archive_summary_spec(ms: Seq<MessageView>) -> Seq<char> {
    join(newest_three(ms).map_values(|m: MessageView| archive_entry(m)), " | "@)
}

/// Summarizes the end of a conversation for the session's archive.
pub fn archive_summary(messages: &Vec<Message>) -> (s: String)
    requires
        archive_cuttable(messages_view(messages@)),
    ensures
        s@ == archive_summary_spec(messages_view(messages@)),
{
    let ghost mv = messages_view(messages@);
    let n = messages.len();
    let k: usize = if n < 3 { n } else { 3 };
    let ghost parts = newest_three(mv).map_values(|m: MessageView| archive_entry(m));
    let mut out = String::new();
    let mut i: usize = 0;
    while i < k
        invariant
            i <= k,
            k == (if n < 3 { n } else { 3 }),
            n == messages@.len(),
            mv == messages_view(messages@),
            archive_cuttable(mv),
            parts == newest_three(mv).map_values(|m: MessageView| archive_entry(m)),
            out@ == join(parts.take(i as int), " | "@),
        decreases k - i,
    {
        let m = &messages[n - 1 - i];
        if i > 0 {
            append_str(&mut out, " | ");
        }
        append_str(&mut out, "[");
        append_str(&mut out, m.role.as_str());
        append_str(&mut out, "] ");
        let len = crate::text::byte_len(m.content.as_str());
        let cut: usize = if len < 80 { len } else { 80 };
        proof {
            assert(mv[n - 1 - i] == m@);
            if len >= 80 && len > 80 {
                assert(crate::text::char_boundary(m@.content, 80));
            }
            if len <= 80 {
                vstd::utf8::encode_utf8_valid_utf8(m@.content);
                vstd::utf8::is_char_boundary_start_end_of_seq(vstd::utf8::encode_utf8(m@.content));
            }
        }
        let piece = crate::text::byte_prefix(m.content.as_str(), cut);
        append_str(&mut out, piece);
        proof {
            let t = parts.take((i + 1) as int);
            assert(t.drop_last() =~= parts.take(i as int));
            assert(newest_three(mv)[i as int] == mv[n - 1 - i]);
            assert(t.last() == archive_entry(m@));
            if i == 0 {
                assert(out@ =~= t[0]);
            } else {
                assert(out@ =~= join(parts.take(i as int), " | "@) + " | "@ + t.last());
            }
        }
        i = i + 1;
    }
    assert(parts.take(k as int) =~= parts);
    out
}

/// The plan listing shown by a streamed run: `Plan:` then the numbered calls, one per line.
pub open spec fn streamed_plan_text(calls: Seq<ToolCallView>) -> Seq<char> {
    "Plan:\n"@ + join(
        Seq::new(calls.len(), |i: int| "  "@ + decimal((i + 1) as nat) + ". "@ + calls[i].function.name + "("@
            + calls[i].function.arguments + ")"@),
        "\n"@,
    )
}

/// Renders the plan listing of a streamed run.
pub fn format_streamed_plan(calls: &Vec<ToolCall>) -> (s: String)
    ensures
        s@ == streamed_plan_text(calls_view(calls@)),
{
    let ghost cv = calls_view(calls@);
    let ghost lines = Seq::new(cv.len(), |i: int| "  "@ + decimal((i + 1) as nat) + ". "@ + cv[i].function.name + "("@
        + cv[i].function.arguments + ")"@);
    let mut body = String::new();
    let mut i: usize = 0;
    while i < calls.len()
        invariant
            i <= calls@.len(),
            cv == calls_view(calls@),
            lines == Seq::new(cv.len(), |i: int| "  "@ + decimal((i + 1) as nat) + ". "@ + cv[i].function.name + "("@
                + cv[i].function.arguments + ")"@),
            body@ == join(lines.take(i as int), "\n"@),
        decreases calls@.len() - i,
    {
        if i > 0 {
            append_str(&mut body, "\n");
        }
        append_str(&mut body, "  ");
        let num = usize_to_string(i + 1);
        append_str(&mut body, num.as_str());
        append_str(&mut body, ". ");
        append_str(&mut body, calls[i].function.name.as_str());
        append_str(&mut body, "(");
        append_str(&mut body, calls[i].function.arguments.as_str());
        append_str(&mut body, ")");
        proof {
            let t = lines.take((i + 1) as int);
            assert(t.drop_last() =~= lines.take(i as int));
            assert(t.last() == lines[i as int]);
            if i == 0 {
                assert(body@ =~= t[0]);
            } else {
                assert(body@ =~= join(lines.take(i as int), "\n"@) + "\n"@ + t.last());
            }
        }
        i = i + 1;
    }
    assert(lines.take(calls@.len() as int) =~= lines);
    let mut s = String::from_str("Plan:\n");
    append_str(&mut s, body.as_str());
    s
}

impl SoulCore {
    /// Sets plan mode.
    pub fn with_plan_mode(self, plan: bool) -> (r: SoulCore)
        ensures
            r.plan_mode == plan,
            r.model() == (SoulModel { plan_mode: plan, ..self.model() }),
            r.context.messages_view() == self.context.messages_view(),
    {
        let mut r = self;
        r.plan_mode = plan;
        r
    }

    /// Sets thinking mode; turning it on adds an instruction to reason step by step when the
    /// conversation has started.
    pub fn with_thinking(self, thinking: bool) -> (r: SoulCore)
        ensures
            r.thinking == thinking,
            r.plan_mode == self.plan_mode,
            (thinking && self.context.messages@.len() > 0) ==> r.context.messages_view()
                == self.context.messages_view().push(plain_message(
                    "system"@,
                    "Think step by step and explain your reasoning before giving the final answer."@,
                )),
            !(thinking && self.context.messages@.len() > 0) ==> r.context.messages_view()
                == self.context.messages_view(),
    {
        let mut r = self;
        r.thinking = thinking;
        if thinking && !r.context.is_empty() {
            r.context.push(Message::system(lit(
                "Think step by step and explain your reasoning before giving the final answer.",
            )));
        }
        r
    }

    /// Appends earlier messages to the conversation.
    pub fn with_context_messages(self, messages: Vec<Message>) -> (r: SoulCore)
        ensures
            r.context.messages_view() == self.context.messages_view() + messages_view(messages@),
            r.plan_mode == self.plan_mode,
            r.thinking == self.thinking,
    {
        let mut r = self;
        let ghost start = r.context.messages_view();
        let mut i: usize = 0;
        while i < messages.len()
            invariant
                i <= messages@.len(),
                r.context.messages_view() == start + messages_view(messages@).take(i as int),
                r.plan_mode == self.plan_mode,
                r.thinking == self.thinking,
            decreases messages@.len() - i,
        {
            r.context.push(messages[i].duplicate());
            assert(messages_view(messages@).take((i + 1) as int) =~= messages_view(messages@).take(i as int).push(messages@[i as int]@));
            i = i + 1;
        }
        assert(messages_view(messages@).take(messages@.len() as int) =~= messages_view(messages@));
        r
    }

    /// Saves a checkpoint of the conversation and returns its id.
    pub fn checkpoint(&mut self, description: String) -> (id: String)
        requires
            old(self).checkpoints.issued() < u64::MAX,
        ensures
            id@ == crate::denwa_renji::checkpoint_id(old(self).checkpoints.issued()),
            final(self).checkpoints.held() == crate::denwa_renji::after_checkpoint(
                old(self).checkpoints.held(),
                old(self).checkpoints.capacity(),
                old(self).checkpoints.issued(),
                old(self).context.messages_view(),
                description@,
            ),
            final(self).checkpoints.issued() == old(self).checkpoints.issued() + 1,
            final(self).context.messages_view() == old(self).context.messages_view(),
            final(self).model() == old(self).model(),
            final(self).checkpoints.capacity() == old(self).checkpoints.capacity(),
            final(self).thinking == old(self).thinking,
            final(self).context.max_tokens == old(self).context.max_tokens,
            final(self).context.reserved_tokens == old(self).context.reserved_tokens,
    {
        let ms = crate::llm::copy_messages(&self.context.messages);
        self.checkpoints.checkpoint(ms, description)
    }

    /// Restores the conversation saved under `id`; false when there is no such checkpoint.
    pub fn rollback(&mut self, id: &str) -> (found: bool)
        ensures
            found == crate::denwa_renji::rollback_result(old(self).checkpoints.held(), id@).is_some(),
            found ==> Some(final(self).context.messages_view()) == crate::denwa_renji::rollback_result(
                old(self).checkpoints.held(),
                id@,
            ),
            !found ==> final(self).context.messages_view() == old(self).context.messages_view(),
            final(self).checkpoints.held() == old(self).checkpoints.held(),
            final(self).checkpoints.issued() == old(self).checkpoints.issued(),
            final(self).checkpoints.capacity() == old(self).checkpoints.capacity(),
            final(self).model() == (SoulModel { messages: final(self).context.messages_view(), ..old(self).model() }),
            final(self).thinking == old(self).thinking,
            final(self).context.max_tokens == old(self).context.max_tokens,
            final(self).context.reserved_tokens == old(self).context.reserved_tokens,
    {
        match self.checkpoints.rollback(id) {
            Some(ms) => {
                self.context.messages = ms;
                true
            },
            None => false,
        }
    }

    /// All checkpoints, oldest first.
    pub fn list_checkpoints(&self) -> (r: Vec<&crate::denwa_renji::Checkpoint>)
        ensures
            r@.len() == self.checkpoints.held().len(),
            forall|i: int| 0 <= i < r@.len() ==> (#[trigger] r@[i])@ == self.checkpoints.held()[i],
    {
        self.checkpoints.list()
    }
}

/// The notice shown when a checkpoint is created.
pub fn checkpoint_notice(id: &str) -> (s: String)
    ensures
        s@ == "Checkpoint created: "@ + id@,
{
    concat2("Checkpoint created: ", id)
}

/// The notice shown after rolling back to a checkpoint.
pub fn rollback_notice(id: &str) -> (s: String)
    ensures
        s@ == "Rolled back to checkpoint: "@ + id@,
{
    concat2("Rolled back to checkpoint: ", id)
}

/// Law: rolling back to a checkpoint just taken restores the conversation of that moment, when
/// the store keeps checkpoints; and while a checkpoint is held, rolling back to its id restores its
/// conversation.
pub proof fn lemma_checkpoint_rollback_restores(s: &SoulCore, description: Seq<char>, i: int)
    requires
        s.checkpoints.wf(),
        s.checkpoints.capacity() > 0,
    ensures
        crate::denwa_renji::rollback_result(
            crate::denwa_renji::after_checkpoint(
                s.checkpoints.held(),
                s.checkpoints.capacity(),
                s.checkpoints.issued(),
                s.context.messages_view(),
                description,
            ),
            crate::denwa_renji::checkpoint_id(s.checkpoints.issued()),
        ) == Some(s.context.messages_view()),
        0 <= i < s.checkpoints.held().len() ==> crate::denwa_renji::rollback_result(
            s.checkpoints.held(),
            s.checkpoints.held()[i].id,
        ) == Some(s.checkpoints.held()[i].messages),
{
    crate::denwa_renji::lemma_rollback_after_checkpoint(
        s.checkpoints.held(),
        s.checkpoints.capacity(),
        s.checkpoints.issued(),
        s.context.messages_view(),
        description,
    );
    if 0 <= i < s.checkpoints.held().len() {
        crate::denwa_renji::lemma_rollback_finds_held(s.checkpoints.held(), s.checkpoints.issued(), i);
    }
}

} // verus!
