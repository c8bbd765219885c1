//! Events recorded on the wire, and how the visualizer writes them.
use vstd::prelude::*;
use crate::llm::ToolCall;
use crate::slash::{cuttable, short_id};
use crate::soul::ToolResult;
use crate::text::{append_str, byte_len, byte_prefix, decimal, usize_to_string};

verus! {

/// An event of a session's wire log. Times and request arguments stay with the caller; the
/// arguments of an approval request are kept as JSON text.
#[derive(Debug)]
pub enum WireEvent {
    TurnBegin { turn: usize },
    StepBegin { step: usize },
    StepInterrupted { step: usize, reason: String },
    TurnEnd { turn: usize },
    RalphTurnBegin { iteration: usize },
    RalphTurnEnd { iteration: usize },
    StatusUpdate { message: String },
    CompactionBegin,
    CompactionEnd,
    MCPLoadingBegin,
    MCPLoadingEnd,
    Notification { level: String, message: String },
    SubagentEvent { subagent_id: String, event: Box<WireEvent> },
    BtwBegin { question: String },
    BtwEnd { answer: String },
    PlanDisplay { plan: String },
    ContentPart { content: String },
    ToolCall { call: ToolCall },
    ToolResult { call_id: String, result: ToolResult },
    ApprovalRequest { request_id: String, tool_name: String, arguments: String },
    ApprovalResponse { request_id: String, approved: bool },
}

pub open spec fn bool_text(b: bool) -> Seq<char> {
    if b { "true"@ } else { "false"@ }
}

/// The one-line description of an event.
pub open spec fn event_text(e: WireEvent) -> Seq<char> {
    match e {
        WireEvent::TurnBegin { turn } => "[TurnBegin] turn="@ + decimal(turn as nat),
        WireEvent::StepBegin { step } => "[StepBegin] step="@ + decimal(step as nat),
        WireEvent::StepInterrupted { step, reason } => "[StepInterrupted] step="@ + decimal(step as nat)
            + " reason="@ + reason@,
        WireEvent::TurnEnd { turn } => "[TurnEnd] turn="@ + decimal(turn as nat),
        WireEvent::RalphTurnBegin { iteration } => "[RalphTurnBegin] iteration="@ + decimal(iteration as nat),
        WireEvent::RalphTurnEnd { iteration } => "[RalphTurnEnd] iteration="@ + decimal(iteration as nat),
        WireEvent::StatusUpdate { message } => "[Status] "@ + message@,
        WireEvent::CompactionBegin => "[CompactionBegin]"@,
        WireEvent::CompactionEnd => "[CompactionEnd]"@,
        WireEvent::MCPLoadingBegin => "[MCPLoadingBegin]"@,
        WireEvent::MCPLoadingEnd => "[MCPLoadingEnd]"@,
        WireEvent::Notification { level, message } => "[Notification "@ + level@ + "] "@ + message@,
        WireEvent::SubagentEvent { subagent_id, event: _ } => "[Subagent "@ + subagent_id@ + "] ..."@,
        WireEvent::BtwBegin { question } => "[BTW] "@ + question@,
        WireEvent::BtwEnd { answer } => "[BTW Answer] "@ + answer@,
        WireEvent::PlanDisplay { plan } => "[Plan] "@ + plan@,
        WireEvent::ContentPart { content } => "[Content] "@ + content@,
        WireEvent::ToolCall { call } => "[ToolCall] "@ + call.function.name@ + "("@ + call.function.arguments@ + ")"@,
        WireEvent::ToolResult { call_id, result } => "[ToolResult] "@ + short_id(call_id@) + " success="@
            + bool_text(result.success),
        WireEvent::ApprovalRequest { request_id, tool_name, arguments: _ } => "[Approval] "@ + tool_name@ + " ("@
            + request_id@ + ")"@,
        WireEvent::ApprovalResponse { request_id, approved } => "[ApprovalResponse] "@ + short_id(request_id@)
            + " approved="@ + bool_text(approved),
    }
}

/// Whether the ids an event shows shortened can be cut.
pub open spec fn event_ids_cuttable(e: WireEvent) -> bool {
    match e {
        WireEvent::ToolResult { call_id, result: _ } => cuttable(call_id@),
        WireEvent::ApprovalResponse { request_id, approved: _ } => cuttable(request_id@),
        _ => true,
    }
}

fn shortened(id: &str) -> (r: &str)
    requires
        cuttable(id@),
    ensures
        r@ == short_id(id@),
{
    let n = byte_len(id);
    let k = if n < 8 { n } else { 8 };
    byte_prefix(id, k)
}

fn joined(a: &str, b: &str) -> (r: String)
    ensures
        r@ == a@ + b@,
{
    let mut r = String::from_str(a);
    append_str(&mut r, b);
    r
}

/// Writes an event on one line.
pub fn format_event(event: &WireEvent) -> (s: String)
    requires
        event_ids_cuttable(*event),
    ensures
        s@ == event_text(*event),
{
    match event {
        WireEvent::TurnBegin { turn } => joined("[TurnBegin] turn=", usize_to_string(*turn).as_str()),
        WireEvent::StepBegin { step } => joined("[StepBegin] step=", usize_to_string(*step).as_str()),
        WireEvent::StepInterrupted { step, reason } => {
            let mut s = joined("[StepInterrupted] step=", usize_to_string(*step).as_str());
            append_str(&mut s, " reason=");
            append_str(&mut s, reason.as_str());
            s
        },
        WireEvent::TurnEnd { turn } => joined("[TurnEnd] turn=", usize_to_string(*turn).as_str()),
        WireEvent::RalphTurnBegin { iteration } => joined("[RalphTurnBegin] iteration=", usize_to_string(*iteration).as_str()),
        WireEvent::RalphTurnEnd { iteration } => joined("[RalphTurnEnd] iteration=", usize_to_string(*iteration).as_str()),
        WireEvent::StatusUpdate { message } => joined("[Status] ", message.as_str()),
        WireEvent::CompactionBegin => String::from_str("[CompactionBegin]"),
        WireEvent::CompactionEnd => String::from_str("[CompactionEnd]"),
        WireEvent::MCPLoadingBegin => String::from_str("[MCPLoadingBegin]"),
        WireEvent::MCPLoadingEnd => String::from_str("[MCPLoadingEnd]"),
        WireEvent::Notification { level, message } => {
            let mut s = joined("[Notification ", level.as_str());
            append_str(&mut s, "] ");
            append_str(&mut s, message.as_str());
            s
        },
        WireEvent::SubagentEvent { subagent_id, event: _ } => {
            let mut s = joined("[Subagent ", subagent_id.as_str());
            append_str(&mut s, "] ...");
            s
        },
        WireEvent::BtwBegin { question } => joined("[BTW] ", question.as_str()),
        WireEvent::BtwEnd { answer } => joined("[BTW Answer] ", answer.as_str()),
        WireEvent::PlanDisplay { plan } => joined("[Plan] ", plan.as_str()),
        WireEvent::ContentPart { content } => joined("[Content] ", content.as_str()),
        WireEvent::ToolCall { call } => {
            let mut s = joined("[ToolCall] ", call.function.name.as_str());
            append_str(&mut s, "(");
            append_str(&mut s, call.function.arguments.as_str());
            append_str(&mut s, ")");
            s
        },
        WireEvent::ToolResult { call_id, result } => {
            let mut s = joined("[ToolResult] ", shortened(call_id.as_str()));
            append_str(&mut s, " success=");
            append_str(&mut s, if result.success { "true" } else { "false" });
            s
        },
        WireEvent::ApprovalRequest { request_id, tool_name, arguments: _ } => {
            let mut s = joined("[Approval] ", tool_name.as_str());
            append_str(&mut s, " (");
            append_str(&mut s, request_id.as_str());
            append_str(&mut s, ")");
            s
        },
        WireEvent::ApprovalResponse { request_id, approved } => {
            let mut s = joined("[ApprovalResponse] ", shortened(request_id.as_str()));
            append_str(&mut s, " approved=");
            append_str(&mut s, if *approved { "true" } else { "false" });
            s
        },
    }
}

/// A tool call asked of a client (arguments as JSON text).
#[derive(Debug, Clone)]
pub struct ToolCallRequest {
    pub id: String,
    pub tool_name: String,
    pub arguments: String,
}

/// A question asked of the user through a client.
#[derive(Debug, Clone)]
pub struct QuestionRequest {
    pub id: String,
    pub question: String,
}

/// A hook run asked of a client (input as JSON text).
#[derive(Debug, Clone)]
pub struct HookRequest {
    pub event: String,
    pub matcher: Option<String>,
    pub input_data: String,
}

} // verus!
