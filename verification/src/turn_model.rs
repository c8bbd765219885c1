//! The meaning of an agent turn: views of the turn's inputs and outputs and the transition
//! function that the state machine in `soul` implements.
use vstd::prelude::*;
use crate::llm::{MessageView, ToolCallView, calls_view, messages_view, opt_calls_view, plain_message};
use crate::soul::{
    ChatReply, Effect, Note, Phase, SaveSite, SoulCore, SoulEvent, ToolResult, TurnKind, TurnOp,
    plan_suffix, plan_text,
};
use crate::text::{decimal, join};

verus! {

pub struct ToolResultView {
    pub success: bool,
    pub output: Seq<char>,
}

impl View for ToolResult {
    type V = ToolResultView;

    open spec fn view(&self) -> ToolResultView {
        ToolResultView { success: self.success, output: self.output@ }
    }
}

pub enum NoteView {
    TurnBegin(nat),
    TurnEnd(nat),
    StepBegin(nat),
    StepInterrupted(nat, Seq<char>),
    RalphTurnBegin(nat),
    RalphTurnEnd(nat),
    CompactionBegin,
    CompactionEnd,
    BtwBegin(Seq<char>),
    BtwEnd(Seq<char>),
    PlanDisplay(Seq<char>),
    ToolCall(ToolCallView),
    ToolResult(Seq<char>, ToolResultView),
    ApprovalRequest(Seq<char>),
    ApprovalResponse(bool),
}

impl View for Note {
    type V = NoteView;

    open spec fn view(&self) -> NoteView {
        match self {
            Note::TurnBegin { turn } => NoteView::TurnBegin(*turn as nat),
            Note::TurnEnd { turn } => NoteView::TurnEnd(*turn as nat),
            Note::StepBegin { step } => NoteView::StepBegin(*step as nat),
            Note::StepInterrupted { step, reason } => NoteView::StepInterrupted(*step as nat, reason@),
            Note::RalphTurnBegin { iteration } => NoteView::RalphTurnBegin(*iteration as nat),
            Note::RalphTurnEnd { iteration } => NoteView::RalphTurnEnd(*iteration as nat),
            Note::CompactionBegin => NoteView::CompactionBegin,
            Note::CompactionEnd => NoteView::CompactionEnd,
            Note::BtwBegin { question } => NoteView::BtwBegin(question@),
            Note::BtwEnd { answer } => NoteView::BtwEnd(answer@),
            Note::PlanDisplay { plan } => NoteView::PlanDisplay(plan@),
            Note::ToolCall { call } => NoteView::ToolCall(call@),
            Note::ToolResult { call_id, result } => NoteView::ToolResult(call_id@, result@),
            Note::ApprovalRequest { tool_name } => NoteView::ApprovalRequest(tool_name@),
            Note::ApprovalResponse { approved } => NoteView::ApprovalResponse(*approved),
        }
    }
}

pub enum SoulEventView {
    Token(Seq<char>),
    ToolCall(ToolCallView),
    ToolResult(Seq<char>, Seq<char>),
    Plan(Seq<char>),
    Done(Seq<char>),
    Error(Seq<char>),
    ApprovalNeeded(Seq<char>),
}

impl View for SoulEvent {
    type V = SoulEventView;

    open spec fn view(&self) -> SoulEventView {
        match self {
            SoulEvent::Token(t) => SoulEventView::Token(t@),
            SoulEvent::ToolCall(c) => SoulEventView::ToolCall(c@),
            SoulEvent::ToolResult { call_id, output } => SoulEventView::ToolResult(call_id@, output@),
            SoulEvent::Plan(t) => SoulEventView::Plan(t@),
            SoulEvent::Done(t) => SoulEventView::Done(t@),
            SoulEvent::Error(t) => SoulEventView::Error(t@),
            SoulEvent::ApprovalNeeded { tool_name } => SoulEventView::ApprovalNeeded(tool_name@),
        }
    }
}

pub enum EffectView {
    Emit(NoteView),
    Ui(SoulEventView),
    PersistQuiet(MessageView),
    Archive,
}

impl View for Effect {
    type V = EffectView;

    open spec fn view(&self) -> EffectView {
        match self {
            Effect::Emit(n) => EffectView::Emit(n@),
            Effect::Ui(e) => EffectView::Ui(e@),
            Effect::PersistQuiet(m) => EffectView::PersistQuiet(m@),
            Effect::Archive => EffectView::Archive,
        }
    }
}

pub open spec fn effects_view(es: Seq<Effect>) -> Seq<EffectView> {
    es.map_values(|e: Effect| e@)
}

pub enum OpView {
    RunHooks(Seq<char>),
    PollStep,
    CheckCompaction,
    Compact,
    Chat,
    Save(MessageView),
    ParseArguments(ToolCallView),
    RequestApproval(ToolCallView),
    RunTool(ToolCallView),
    Finish(Result<Seq<char>, Seq<char>>),
}

pub open spec fn result_view(r: Result<String, String>) -> Result<Seq<char>, Seq<char>> {
    match r {
        Ok(t) => Ok(t@),
        Err(e) => Err(e@),
    }
}

impl View for TurnOp {
    type V = OpView;

    open spec fn view(&self) -> OpView {
        match self {
            TurnOp::RunHooks { prompt } => OpView::RunHooks(prompt@),
            TurnOp::PollStep => OpView::PollStep,
            TurnOp::CheckCompaction => OpView::CheckCompaction,
            TurnOp::Compact => OpView::Compact,
            TurnOp::Chat => OpView::Chat,
            TurnOp::Save { message } => OpView::Save(message@),
            TurnOp::ParseArguments { call } => OpView::ParseArguments(call@),
            TurnOp::RequestApproval { call } => OpView::RequestApproval(call@),
            TurnOp::RunTool { call } => OpView::RunTool(call@),
            TurnOp::Finish { result } => OpView::Finish(result_view(*result)),
        }
    }
}

pub enum ChatReplyView {
    Answer(Seq<char>, Option<Seq<ToolCallView>>),
    Failed(Seq<char>),
    Broken(Seq<char>, Seq<char>, Seq<ToolCallView>),
}

impl View for ChatReply {
    type V = ChatReplyView;

    open spec fn view(&self) -> ChatReplyView {
        match self {
            ChatReply::Answer { content, tool_calls } => ChatReplyView::Answer(content@, opt_calls_view(*tool_calls)),
            ChatReply::Failed { error } => ChatReplyView::Failed(error@),
            ChatReply::Broken { error, content, tool_calls } => ChatReplyView::Broken(
                error@,
                content@,
                calls_view(tool_calls@),
            ),
        }
    }
}

/// The abstract state of the agent's turn machine.
#[verifier::ext_equal]
pub struct SoulModel {
    pub messages: Seq<MessageView>,
    pub plan_mode: bool,
    pub pending_plan: Option<Seq<ToolCallView>>,
    pub max_steps: nat,
    pub max_retries: nat,
    pub max_ralph: int,
    pub has_compaction: bool,
    pub has_hooks: bool,
    pub tool_names: Seq<Seq<char>>,
    pub phase: Phase,
    pub kind: TurnKind,
    pub streaming: bool,
    pub input: Seq<char>,
    pub responses: Seq<Seq<char>>,
    pub iteration: nat,
    pub step: nat,
    pub retries: nat,
    pub calls: Seq<ToolCallView>,
    pub call_index: nat,
    pub save_site: SaveSite,
    pub btw: Seq<Seq<char>>,
    pub btw_index: nat,
    pub final_text: Seq<char>,
}

pub open spec fn strings_view(v: Seq<String>) -> Seq<Seq<char>> {
    v.map_values(|s: String| s@)
}

impl SoulCore {
    pub open spec fn model(&self) -> SoulModel {
        SoulModel {
            messages: self.context.messages_view(),
            plan_mode: self.plan_mode,
            pending_plan: opt_calls_view(self.pending_plan),
            max_steps: self.limits.max_steps_per_turn as nat,
            max_retries: self.limits.max_retries_per_step as nat,
            max_ralph: self.limits.max_ralph_iterations as int,
            has_compaction: self.has_compaction,
            has_hooks: self.has_hooks,
            tool_names: strings_view(self.tool_names@),
            phase: self.phase,
            kind: self.kind,
            streaming: self.streaming,
            input: self.input@,
            responses: strings_view(self.responses@),
            iteration: self.iteration as nat,
            step: self.step as nat,
            retries: self.retries as nat,
            calls: calls_view(self.calls@),
            call_index: self.call_index as nat,
            save_site: self.save_site,
            btw: strings_view(self.btw_queue@),
            btw_index: self.btw_index as nat,
            final_text: self.final_text@,
        }
    }

    /// What a turn leaves alone: the context budget, thinking mode, checkpoints and limits.
    pub open spec fn same_frame(&self, other: &SoulCore) -> bool {
        &&& self.context.max_tokens == other.context.max_tokens
        &&& self.context.reserved_tokens == other.context.reserved_tokens
        &&& self.thinking == other.thinking
        &&& self.checkpoints.held() == other.checkpoints.held()
        &&& self.checkpoints.capacity() == other.checkpoints.capacity()
        &&& self.limits == other.limits
        &&& self.tool_names == other.tool_names
        &&& self.has_compaction == other.has_compaction
        &&& self.has_hooks == other.has_hooks
        &&& self.plan_mode == other.plan_mode
    }
}

/// The outcome of a transition: the next state, the effects to perform and the operation.
#[verifier::ext_equal]
pub struct Step {
    pub s: SoulModel,
    pub effects: Seq<EffectView>,
    pub op: OpView,
}

/// The machine moved from `old` to `new` and produced `a`, as `st` describes.
pub open spec fn follows(old: SoulCore, new: SoulCore, a: crate::soul::TurnAction, st: Step) -> bool {
    &&& new.model() == st.s
    &&& effects_view(a.effects@) == st.effects
    &&& a.op@ == st.op
    &&& new.same_frame(&old)
}

pub open spec fn loop_reports(s: SoulModel) -> bool {
    s.streaming && s.iteration == 0 && s.kind == TurnKind::Prompt
}

pub open spec fn calls_reported(s: SoulModel) -> bool {
    s.streaming && (s.kind == TurnKind::Plan || s.iteration == 0)
}

pub open spec fn calls_recorded(s: SoulModel) -> bool {
    !(s.streaming && s.kind == TurnKind::Plan)
}

pub open spec fn cancelled_text() -> Seq<char> {
    "[Cancelled]"@
}

pub open spec fn max_steps_text() -> Seq<char> {
    "[Reached maximum steps per turn]"@
}

pub open spec fn plan_done_text() -> Seq<char> {
    "Plan executed. Continuing..."@
}

pub open spec fn assistant_with_calls(content: Seq<char>, calls: Seq<ToolCallView>) -> MessageView {
    MessageView { role: "assistant"@, content, tool_calls: Some(calls), tool_call_id: None }
}

pub open spec fn tool_message(output: Seq<char>, call_id: Seq<char>) -> MessageView {
    MessageView { role: "tool"@, content: output, tool_calls: None, tool_call_id: Some(call_id) }
}

pub open spec fn m_save(s: SoulModel, e: Seq<EffectView>, msg: MessageView, site: SaveSite) -> Step {
    Step {
        s: SoulModel { messages: s.messages.push(msg), phase: Phase::Saving, save_site: site, ..s },
        effects: e,
        op: OpView::Save(msg),
    }
}

pub open spec fn m_finish_prompt_turn(s: SoulModel, e: Seq<EffectView>, r: Result<Seq<char>, Seq<char>>) -> Step {
    Step {
        s: SoulModel {
            phase: Phase::Idle,
            calls: Seq::empty(),
            call_index: 0,
            btw: Seq::empty(),
            btw_index: 0,
            ..s
        },
        effects: e.push(EffectView::Emit(NoteView::TurnEnd(s.messages.len()))),
        op: OpView::Finish(r),
    }
}

pub open spec fn m_finish_joined(s: SoulModel, e: Seq<EffectView>) -> Step {
    m_finish_prompt_turn(s, e, Ok(join(s.responses, "\n\n"@)))
}

pub open spec fn m_plan_finished(s: SoulModel, e: Seq<EffectView>, r: Result<Seq<char>, Seq<char>>) -> Step {
    let s1 = SoulModel {
        phase: Phase::Idle,
        calls: Seq::empty(),
        call_index: 0,
        btw: Seq::empty(),
        btw_index: 0,
        kind: TurnKind::Prompt,
        ..s
    };
    let end = EffectView::Emit(NoteView::TurnEnd(s.messages.len()));
    if s.streaming {
        match r {
            Ok(t) => Step { s: s1, effects: e.push(EffectView::Ui(SoulEventView::Done(t))).push(end), op: OpView::Finish(r) },
            Err(_) => Step { s: s1, effects: e, op: OpView::Finish(r) },
        }
    } else {
        Step { s: s1, effects: e.push(end), op: OpView::Finish(r) }
    }
}

pub open spec fn ralph_token(i: nat) -> Seq<char> {
    "\n[Ralph iteration "@ + decimal(i) + "]\n"@
}

pub open spec fn m_start_loop(s: SoulModel, e: Seq<EffectView>, cancelled: bool) -> Step
    decreases s.max_ralph - s.iteration, 3int,
{
    let s1 = SoulModel { step: 0, retries: 0, ..s };
    if s.max_steps == 0 {
        m_max_steps_reached(s1, e, cancelled)
    } else {
        Step { s: SoulModel { phase: Phase::StepStart, ..s1 }, effects: e, op: OpView::PollStep }
    }
}

pub open spec fn m_max_steps_reached(s: SoulModel, e: Seq<EffectView>, cancelled: bool) -> Step
    decreases s.max_ralph - s.iteration, 2int,
{
    let t = max_steps_text();
    let e1 = if loop_reports(s) { e.push(EffectView::Ui(SoulEventView::Done(t))) } else { e };
    m_loop_finished(s, e1, Ok(t), cancelled)
}

pub open spec fn m_loop_finished(
    s: SoulModel,
    e: Seq<EffectView>,
    r: Result<Seq<char>, Seq<char>>,
    cancelled: bool,
) -> Step
    decreases s.max_ralph - s.iteration, 1int,
{
    if s.iteration == 0 {
        match r {
            Err(err) => m_finish_prompt_turn(s, e, Err(err)),
            Ok(t) => m_next_ralph(SoulModel { responses: s.responses.push(t), ..s }, e, cancelled),
        }
    } else {
        match r {
            Err(_) => m_finish_joined(s, e),
            Ok(t) => m_next_ralph(
                SoulModel { responses: s.responses.push(t), ..s },
                e.push(EffectView::Emit(NoteView::RalphTurnEnd(s.iteration))),
                cancelled,
            ),
        }
    }
}

pub open spec fn m_next_ralph(s: SoulModel, e: Seq<EffectView>, cancelled: bool) -> Step
    decreases s.max_ralph - s.iteration, 0int,
{
    if s.max_ralph <= 0 || s.iteration >= s.max_ralph || cancelled {
        m_finish_joined(s, e)
    } else {
        let i = s.iteration + 1;
        let e1 = e.push(EffectView::Emit(NoteView::RalphTurnBegin(i)));
        let e2 = if s.streaming { e1.push(EffectView::Ui(SoulEventView::Token(ralph_token(i)))) } else { e1 };
        let m = plain_message("user"@, "Continue."@);
        m_start_loop(
            SoulModel {
                messages: s.messages.push(m),
                iteration: i,
                calls: Seq::empty(),
                call_index: 0,
                btw: Seq::empty(),
                btw_index: 0,
                ..s
            },
            e2.push(EffectView::PersistQuiet(m)),
            cancelled,
        )
    }
}

pub open spec fn m_begin_call(s: SoulModel, e: Seq<EffectView>, cancelled: bool) -> Step {
    if s.call_index >= s.calls.len() {
        match s.kind {
            TurnKind::Prompt => m_next_step(s, e, cancelled),
            TurnKind::Plan => m_plan_finished(s, e, Ok(plan_done_text())),
        }
    } else if cancelled {
        match s.kind {
            TurnKind::Prompt => {
                let t = cancelled_text();
                let e1 = if loop_reports(s) { e.push(EffectView::Ui(SoulEventView::Done(t))) } else { e };
                m_loop_finished(s, e1, Ok(t), cancelled)
            },
            TurnKind::Plan => m_plan_finished(s, e, Ok(cancelled_text())),
        }
    } else {
        let call = s.calls[s.call_index as int];
        let e1 = if calls_recorded(s) { e.push(EffectView::Emit(NoteView::ToolCall(call))) } else { e };
        let e2 = if calls_reported(s) { e1.push(EffectView::Ui(SoulEventView::ToolCall(call))) } else { e1 };
        Step { s: SoulModel { phase: Phase::Parsing, ..s }, effects: e2, op: OpView::ParseArguments(call) }
    }
}

pub open spec fn m_next_step(s: SoulModel, e: Seq<EffectView>, cancelled: bool) -> Step {
    let s1 = SoulModel { step: s.step + 1, retries: 0, ..s };
    if s1.step >= s.max_steps {
        m_max_steps_reached(s1, e, cancelled)
    } else {
        Step { s: SoulModel { phase: Phase::StepStart, ..s1 }, effects: e, op: OpView::PollStep }
    }
}

pub open spec fn m_start_turn(s: SoulModel, input: Seq<char>, streaming: bool, cancelled: bool) -> Step {
    let s1 = SoulModel {
        streaming,
        responses: Seq::empty(),
        iteration: 0,
        step: 0,
        call_index: 0,
        btw: Seq::empty(),
        btw_index: 0,
        ..s
    };
    let e = seq![EffectView::Emit(NoteView::TurnBegin(s.messages.len()))];
    match s.pending_plan {
        Some(plan) => m_begin_call(
            SoulModel { pending_plan: None, kind: TurnKind::Plan, calls: plan, input, ..s1 },
            e,
            cancelled,
        ),
        None => {
            let s2 = SoulModel { pending_plan: None, kind: TurnKind::Prompt, calls: Seq::empty(), input, ..s1 };
            if s.has_hooks {
                Step { s: SoulModel { phase: Phase::Hooks, ..s2 }, effects: e, op: OpView::RunHooks(input) }
            } else {
                m_save(s2, e, plain_message("user"@, input), SaveSite::Prompt)
            }
        },
    }
}

pub open spec fn m_hooks_done(s: SoulModel) -> Step {
    m_save(s, Seq::empty(), plain_message("user"@, s.input), SaveSite::Prompt)
}

pub open spec fn m_next_btw(s: SoulModel, e: Seq<EffectView>) -> Step {
    if s.btw_index < s.btw.len() {
        let q = s.btw[s.btw_index as int];
        m_save(s, e.push(EffectView::Emit(NoteView::BtwBegin(q))), plain_message("user"@, "[BTW] "@ + q), SaveSite::Btw)
    } else {
        let e1 = e.push(EffectView::Emit(NoteView::StepBegin(s.step)));
        if s.has_compaction {
            Step { s: SoulModel { phase: Phase::CompactionCheck, ..s }, effects: e1, op: OpView::CheckCompaction }
        } else {
            Step { s: SoulModel { phase: Phase::Chatting, ..s }, effects: e1, op: OpView::Chat }
        }
    }
}

pub open spec fn m_step_polled(s: SoulModel, btw: Seq<Seq<char>>, cancelled: bool) -> Step {
    if cancelled {
        let t = cancelled_text();
        let e = if loop_reports(s) { seq![EffectView::Ui(SoulEventView::Done(t))] } else { Seq::empty() };
        m_loop_finished(s, e, Ok(t), cancelled)
    } else {
        m_next_btw(SoulModel { btw, btw_index: 0, ..s }, Seq::empty())
    }
}

pub open spec fn m_compaction_checked(s: SoulModel, needed: bool) -> Step {
    if needed {
        Step {
            s: SoulModel { phase: Phase::Compacting, ..s },
            effects: seq![EffectView::Emit(NoteView::CompactionBegin)],
            op: OpView::Compact,
        }
    } else {
        Step { s: SoulModel { phase: Phase::Chatting, ..s }, effects: Seq::empty(), op: OpView::Chat }
    }
}

pub open spec fn m_compacted(s: SoulModel, r: Result<Seq<MessageView>, Seq<char>>, cancelled: bool) -> Step {
    match r {
        Err(err) => m_loop_finished(s, Seq::empty(), Err(err), cancelled),
        Ok(ms) => Step {
            s: SoulModel { messages: ms, phase: Phase::Chatting, ..s },
            effects: seq![EffectView::Emit(NoteView::CompactionEnd), EffectView::Archive],
            op: OpView::Chat,
        },
    }
}

pub open spec fn m_answered(
    s: SoulModel,
    e: Seq<EffectView>,
    content: Seq<char>,
    calls: Option<Seq<ToolCallView>>,
) -> Step {
    match calls {
        None => m_save(
            SoulModel { final_text: content, ..s },
            e,
            plain_message("assistant"@, content),
            SaveSite::FinalAnswer,
        ),
        Some(cs) => m_save(
            SoulModel { calls: cs, call_index: 0, ..s },
            e,
            assistant_with_calls(content, cs),
            if s.plan_mode { SaveSite::PlanProposal } else { SaveSite::CallsProposal },
        ),
    }
}

pub open spec fn m_chat_answered(s: SoulModel, reply: ChatReplyView, cancelled: bool) -> Step {
    match reply {
        ChatReplyView::Failed(err) => {
            if s.retries < s.max_retries {
                Step {
                    s: SoulModel { retries: s.retries + 1, phase: Phase::StepStart, ..s },
                    effects: Seq::empty(),
                    op: OpView::PollStep,
                }
            } else {
                let e1 = seq![EffectView::Emit(NoteView::StepInterrupted(s.step, err))];
                let e2 = if loop_reports(s) { e1.push(EffectView::Ui(SoulEventView::Error(err))) } else { e1 };
                m_loop_finished(s, e2, Err(err), cancelled)
            }
        },
        ChatReplyView::Broken(err, content, cs) => {
            let e1 = seq![EffectView::Ui(SoulEventView::Error(err))];
            if s.retries < s.max_retries {
                m_answered(s, e1, content, if cs.len() == 0 { None } else { Some(cs) })
            } else {
                m_loop_finished(s, e1.push(EffectView::Emit(NoteView::StepInterrupted(s.step, err))), Err(err), cancelled)
            }
        },
        ChatReplyView::Answer(content, calls) => m_answered(s, Seq::empty(), content, calls),
    }
}

pub open spec fn m_call_or_loop_failed(s: SoulModel, e: Seq<EffectView>, err: Seq<char>, cancelled: bool) -> Step {
    match s.kind {
        TurnKind::Prompt => m_loop_finished(s, e, Err(err), cancelled),
        TurnKind::Plan => m_plan_finished(s, e, Err(err)),
    }
}

pub open spec fn full_plan_text(calls: Seq<ToolCallView>) -> Seq<char> {
    plan_text(calls) + plan_suffix()
}

pub open spec fn m_saved(s: SoulModel, r: Result<(), Seq<char>>, cancelled: bool) -> Step {
    match r {
        Err(err) => match s.save_site {
            SaveSite::Prompt => Step { s: SoulModel { phase: Phase::Idle, ..s }, effects: Seq::empty(), op: OpView::Finish(Err(err)) },
            _ => m_call_or_loop_failed(s, Seq::empty(), err, cancelled),
        },
        Ok(()) => match s.save_site {
            SaveSite::Prompt => m_start_loop(s, Seq::empty(), cancelled),
            SaveSite::Btw => m_next_btw(
                SoulModel { btw_index: s.btw_index + 1, ..s },
                seq![EffectView::Emit(NoteView::BtwEnd(Seq::empty()))],
            ),
            SaveSite::FinalAnswer => {
                let t = s.final_text;
                let e = if loop_reports(s) { seq![EffectView::Ui(SoulEventView::Done(t))] } else { Seq::empty() };
                m_loop_finished(s, e, Ok(t), cancelled)
            },
            SaveSite::PlanProposal => {
                let t = full_plan_text(s.calls);
                let e1 = seq![EffectView::Emit(NoteView::PlanDisplay(t))];
                let e2 = if loop_reports(s) {
                    e1.push(EffectView::Ui(SoulEventView::Plan(t))).push(EffectView::Ui(SoulEventView::Done(t)))
                } else {
                    e1
                };
                m_loop_finished(SoulModel { pending_plan: Some(s.calls), ..s }, e2, Ok(t), cancelled)
            },
            SaveSite::CallsProposal => m_begin_call(s, Seq::empty(), cancelled),
            SaveSite::ToolMessage => m_begin_call(SoulModel { call_index: s.call_index + 1, ..s }, Seq::empty(), cancelled),
        },
    }
}

pub open spec fn names_contain(names: Seq<Seq<char>>, name: Seq<char>) -> bool {
    exists|i: int| 0 <= i < names.len() && names[i] == name
}

pub open spec fn m_arguments_parsed(s: SoulModel, r: Result<(), Seq<char>>, cancelled: bool) -> Step {
    let call = s.calls[s.call_index as int];
    match r {
        Err(err) => m_call_or_loop_failed(s, Seq::empty(), "tool error: Invalid arguments JSON: "@ + err, cancelled),
        Ok(()) => {
            if !names_contain(s.tool_names, call.function.name) {
                m_call_or_loop_failed(s, Seq::empty(), "tool error: Unknown tool: "@ + call.function.name, cancelled)
            } else {
                Step {
                    s: SoulModel { phase: Phase::Approving, ..s },
                    effects: seq![EffectView::Emit(NoteView::ApprovalRequest(call.function.name))],
                    op: OpView::RequestApproval(call),
                }
            }
        },
    }
}

pub open spec fn m_call_completed(s: SoulModel, e: Seq<EffectView>, r: ToolResultView) -> Step {
    let id = s.calls[s.call_index as int].id;
    let e1 = if calls_recorded(s) { e.push(EffectView::Emit(NoteView::ToolResult(id, r))) } else { e };
    let e2 = if calls_reported(s) { e1.push(EffectView::Ui(SoulEventView::ToolResult(id, r.output))) } else { e1 };
    m_save(s, e2, tool_message(r.output, id), SaveSite::ToolMessage)
}

pub open spec fn denied_text(name: Seq<char>) -> Seq<char> {
    "Approval denied for tool: "@ + name
}

pub open spec fn m_approval_answered(s: SoulModel, r: Result<bool, Seq<char>>, cancelled: bool) -> Step {
    let call = s.calls[s.call_index as int];
    match r {
        Err(err) => m_call_or_loop_failed(s, Seq::empty(), err, cancelled),
        Ok(approved) => {
            let e = seq![EffectView::Emit(NoteView::ApprovalResponse(approved))];
            if !approved {
                m_call_completed(s, e, ToolResultView { success: false, output: denied_text(call.function.name) })
            } else {
                Step { s: SoulModel { phase: Phase::Running, ..s }, effects: e, op: OpView::RunTool(call) }
            }
        },
    }
}

pub open spec fn m_tool_finished(s: SoulModel, r: Result<Seq<char>, Seq<char>>) -> Step {
    let res = match r {
        Ok(out) => ToolResultView { success: true, output: out },
        Err(err) => ToolResultView { success: false, output: "Tool error: "@ + err },
    };
    m_call_completed(s, Seq::empty(), res)
}


/// Law: in the first loop of a turn that runs no further iterations, an answer without tool calls
/// is saved as the assistant's message and ends the turn with that answer as its result.
pub proof fn lemma_answer_ends_turn(s: SoulModel, content: Seq<char>, cancelled: bool)
    requires
        s.phase == Phase::Chatting,
        s.kind == TurnKind::Prompt,
        s.iteration == 0,
        s.max_ralph <= 0 || cancelled,
    ensures
        ({
            let st1 = m_chat_answered(s, ChatReplyView::Answer(content, None), cancelled);
            let st2 = m_saved(st1.s, Ok(()), cancelled);
            &&& st1.op == OpView::Save(plain_message("assistant"@, content))
            &&& st1.s.messages == s.messages.push(plain_message("assistant"@, content))
            &&& st2.op == OpView::Finish(Ok(join(s.responses.push(content), "\n\n"@)))
            &&& st2.s.messages == st1.s.messages
            &&& st2.s.phase == Phase::Idle
            &&& st2.s.pending_plan == s.pending_plan
        }),
{
}

/// Law: in plan mode, proposed tool calls are not run: they are kept as the pending plan and the
/// turn ends with the plan's text.
pub proof fn lemma_plan_mode_defers_calls(s: SoulModel, content: Seq<char>, calls: Seq<ToolCallView>, cancelled: bool)
    requires
        s.phase == Phase::Chatting,
        s.kind == TurnKind::Prompt,
        s.plan_mode,
        s.iteration == 0,
        s.max_ralph <= 0 || cancelled,
    ensures
        ({
            let st1 = m_chat_answered(s, ChatReplyView::Answer(content, Some(calls)), cancelled);
            let st2 = m_saved(st1.s, Ok(()), cancelled);
            &&& st1.op == OpView::Save(assistant_with_calls(content, calls))
            &&& st2.s.pending_plan == Some(calls)
            &&& st2.op == OpView::Finish(Ok(join(s.responses.push(full_plan_text(calls)), "\n\n"@)))
            &&& st2.s.phase == Phase::Idle
        }),
{
}

/// Law: a turn started with a pending plan runs the plan's first call without adding the prompt
/// to the conversation, and the plan is no longer pending.
pub proof fn lemma_pending_plan_runs_first(s: SoulModel, input: Seq<char>, streaming: bool)
    requires
        s.phase == Phase::Idle,
        s.pending_plan matches Some(p) && p.len() > 0,
    ensures
        ({
            let st = m_start_turn(s, input, streaming, false);
            &&& st.op == OpView::ParseArguments(s.pending_plan.unwrap()[0])
            &&& st.s.pending_plan.is_none()
            &&& st.s.kind == TurnKind::Plan
            &&& st.s.messages == s.messages
        }),
{
}

/// Law: a failed model request is retried in the same step while that step has retries left
/// (each step has its own count), leaving the conversation as it was.
pub proof fn lemma_failed_request_retried(s: SoulModel, err: Seq<char>, cancelled: bool)
    requires
        s.phase == Phase::Chatting,
        s.kind == TurnKind::Prompt,
        s.retries < s.max_retries,
    ensures
        ({
            let st = m_chat_answered(s, ChatReplyView::Failed(err), cancelled);
            &&& st.op == OpView::PollStep
            &&& st.s.messages == s.messages
            &&& st.s.step == s.step
            &&& st.s.retries == s.retries + 1
            &&& st.effects == Seq::<EffectView>::empty()
        }),
{
}

/// Law: every new step starts with its full allowance of retries.
pub proof fn lemma_new_step_resets_retries(s: SoulModel, e: Seq<EffectView>, cancelled: bool)
    requires
        s.step + 1 < s.max_steps,
    ensures
        m_next_step(s, e, cancelled).op == OpView::PollStep,
        m_next_step(s, e, cancelled).s.step == s.step + 1,
        m_next_step(s, e, cancelled).s.retries == 0,
{
}

/// Law: a failed model request when the step has used all its retries ends the first loop of
/// the turn with that error.
pub proof fn lemma_failed_request_ends_turn(s: SoulModel, err: Seq<char>, cancelled: bool)
    requires
        s.phase == Phase::Chatting,
        s.kind == TurnKind::Prompt,
        s.iteration == 0,
        s.retries >= s.max_retries,
    ensures
        m_chat_answered(s, ChatReplyView::Failed(err), cancelled).op == OpView::Finish(Err(err)),
        m_chat_answered(s, ChatReplyView::Failed(err), cancelled).s.messages == s.messages,
{
}

/// Law: once cancelled, a step does not ask the model; the first loop ends with `[Cancelled]`.
pub proof fn lemma_cancel_skips_model(s: SoulModel)
    requires
        s.phase == Phase::StepStart,
        s.kind == TurnKind::Prompt,
        s.iteration == 0,
    ensures
        m_step_polled(s, Seq::empty(), true).op == OpView::Finish(Ok(join(s.responses.push(cancelled_text()), "\n\n"@))),
        m_step_polled(s, Seq::empty(), true).s.messages == s.messages,
{
}

/// Law: a tool's output is added to the conversation as a tool message answering the call.
pub proof fn lemma_tool_output_recorded(s: SoulModel, out: Seq<char>)
    requires
        s.phase == Phase::Running,
        s.call_index < s.calls.len(),
    ensures
        m_tool_finished(s, Ok(out)).s.messages == s.messages.push(tool_message(out, s.calls[s.call_index as int].id)),
        m_tool_finished(s, Ok(out)).op == OpView::Save(tool_message(out, s.calls[s.call_index as int].id)),
{
}

/// Law: a call that is not approved is never run; the conversation records the denial.
pub proof fn lemma_denied_call_not_run(s: SoulModel, cancelled: bool)
    requires
        s.phase == Phase::Approving,
        s.call_index < s.calls.len(),
    ensures
        ({
            let call = s.calls[s.call_index as int];
            let st = m_approval_answered(s, Ok(false), cancelled);
            &&& st.op == OpView::Save(tool_message(denied_text(call.function.name), call.id))
            &&& st.s.messages == s.messages.push(tool_message(denied_text(call.function.name), call.id))
        }),
{
}

/// Law: a call of a tool that is not registered fails the first loop of a turn with an
/// "Unknown tool" error and runs nothing.
pub proof fn lemma_unknown_tool_fails(s: SoulModel, cancelled: bool)
    requires
        s.phase == Phase::Parsing,
        s.kind == TurnKind::Prompt,
        s.iteration == 0,
        s.call_index < s.calls.len(),
        !names_contain(s.tool_names, s.calls[s.call_index as int].function.name),
    ensures
        m_arguments_parsed(s, Ok(()), cancelled).op == OpView::Finish(
            Err("tool error: Unknown tool: "@ + s.calls[s.call_index as int].function.name),
        ),
{
}


/// A step starts only below the turn's limit of steps, with the step's retries within their limit.
pub open spec fn starts_within_limits(st: Step) -> bool {
    st.op == OpView::PollStep ==> st.s.step < st.s.max_steps && st.s.retries <= st.s.max_retries
}

proof fn lemma_start_loop_within(s: SoulModel, e: Seq<EffectView>, cancelled: bool)
    ensures
        starts_within_limits(m_start_loop(s, e, cancelled)),
    decreases s.max_ralph - s.iteration, 3int,
{
    if s.max_steps == 0 {
        lemma_max_steps_within(SoulModel { step: 0, retries: 0, ..s }, e, cancelled);
    }
}

proof fn lemma_max_steps_within(s: SoulModel, e: Seq<EffectView>, cancelled: bool)
    ensures
        starts_within_limits(m_max_steps_reached(s, e, cancelled)),
    decreases s.max_ralph - s.iteration, 2int,
{
    let t = max_steps_text();
    let e1 = if loop_reports(s) { e.push(EffectView::Ui(SoulEventView::Done(t))) } else { e };
    lemma_loop_finished_within(s, e1, Ok(t), cancelled);
}

proof fn lemma_loop_finished_within(s: SoulModel, e: Seq<EffectView>, r: Result<Seq<char>, Seq<char>>, cancelled: bool)
    ensures
        starts_within_limits(m_loop_finished(s, e, r, cancelled)),
    decreases s.max_ralph - s.iteration, 1int,
{
    if let Ok(t) = r {
        let s1 = SoulModel { responses: s.responses.push(t), ..s };
        if s.iteration == 0 {
            lemma_next_ralph_within(s1, e, cancelled);
        } else {
            lemma_next_ralph_within(s1, e.push(EffectView::Emit(NoteView::RalphTurnEnd(s.iteration))), cancelled);
        }
    }
}

proof fn lemma_next_ralph_within(s: SoulModel, e: Seq<EffectView>, cancelled: bool)
    ensures
        starts_within_limits(m_next_ralph(s, e, cancelled)),
    decreases s.max_ralph - s.iteration, 0int,
{
    if !(s.max_ralph <= 0 || s.iteration >= s.max_ralph || cancelled) {
        let i = s.iteration + 1;
        let e1 = e.push(EffectView::Emit(NoteView::RalphTurnBegin(i)));
        let e2 = if s.streaming { e1.push(EffectView::Ui(SoulEventView::Token(ralph_token(i)))) } else { e1 };
        let m = plain_message("user"@, "Continue."@);
        lemma_start_loop_within(
            SoulModel {
                messages: s.messages.push(m),
                iteration: i,
                calls: Seq::empty(),
                call_index: 0,
                btw: Seq::empty(),
                btw_index: 0,
                ..s
            },
            e2.push(EffectView::PersistQuiet(m)),
            cancelled,
        );
    }
}

/// Law: the loop keeps to its limits. Whenever a loop starts, a step ends or the model answers a
/// step that is within the limits, the next step (if one starts) is numbered below the limit of
/// steps per turn and has used no more retries than allowed; past the limit the loop ends instead.
pub proof fn lemma_steps_within_limits(s: SoulModel, e: Seq<EffectView>, reply: ChatReplyView, cancelled: bool)
    requires
        s.step < s.max_steps,
        s.retries <= s.max_retries,
    ensures
        starts_within_limits(m_start_loop(s, e, cancelled)),
        starts_within_limits(m_next_step(s, e, cancelled)),
        starts_within_limits(m_chat_answered(s, reply, cancelled)),
{
    lemma_start_loop_within(s, e, cancelled);
    let s1 = SoulModel { step: s.step + 1, retries: 0, ..s };
    if s1.step >= s.max_steps {
        lemma_max_steps_within(s1, e, cancelled);
    }
    match reply {
        ChatReplyView::Failed(err) => {
            if s.retries >= s.max_retries {
                let e1 = seq![EffectView::Emit(NoteView::StepInterrupted(s.step, err))];
                let e2 = if loop_reports(s) { e1.push(EffectView::Ui(SoulEventView::Error(err))) } else { e1 };
                lemma_loop_finished_within(s, e2, Err(err), cancelled);
            }
        },
        ChatReplyView::Broken(err, content, cs) => {
            let e1 = seq![EffectView::Ui(SoulEventView::Error(err))];
            if s.retries >= s.max_retries {
                lemma_loop_finished_within(
                    s,
                    e1.push(EffectView::Emit(NoteView::StepInterrupted(s.step, err))),
                    Err(err),
                    cancelled,
                );
            }
        },
        ChatReplyView::Answer(_, _) => {},
    }
}

/// Law: after a successful compaction the conversation is exactly the compacted messages and the
/// model is asked next, with the compaction's end recorded; a failed compaction leaves the
/// conversation as it was.
pub proof fn lemma_compaction_replaces_context(s: SoulModel, ms: Seq<MessageView>, err: Seq<char>, cancelled: bool)
    ensures
        m_compacted(s, Ok(ms), cancelled).s.messages == ms,
        m_compacted(s, Ok(ms), cancelled).s.phase == Phase::Chatting,
        m_compacted(s, Ok(ms), cancelled).op == OpView::Chat,
        m_compacted(s, Ok(ms), cancelled).effects[0] == EffectView::Emit(NoteView::CompactionEnd),
        m_compacted(s, Err(err), cancelled).s.messages == s.messages,
        m_compacted(s, Err(err), cancelled).op != OpView::Chat,
{
}

} // verus!
