//! The printing interface: the prompt it reads and the lines it writes.
use vstd::prelude::*;
use crate::session::{json_string, json_string_text};
use crate::soul::SoulEvent;
use crate::text::{append_str, str_eq};

verus! {

/// How the printing interface reads and writes.
#[derive(Debug, Clone)]
pub struct Print {
    pub input_format: String,
    pub output_format: String,
    pub final_message_only: bool,
}

/// What `{:?}` writes for a string: the text in double quotes with Rust's escapes.
pub uninterp spec fn debug_text(s: Seq<char>) -> Seq<char>;

/// Writes a string as `{:?}` does.
#[verifier::external_body]
fn debug_string(s: &str) -> (r: String)
    ensures
        r@ == debug_text(s@),
{
    format!("{:?}", s)
}

/// A line the printing interface writes, on standard output or standard error; tool calls and
/// approval requests are written by the caller, which serializes them.
#[derive(Debug)]
pub enum PrintLine {
    Stdout(String),
    Stderr(String),
    ToolCall,
    Approval,
}

impl Print {
    /// A printing interface.
    pub fn new(input_format: String, output_format: String, final_message_only: bool) -> (p: Print)
        ensures
            p.input_format@ == input_format@,
            p.output_format@ == output_format@,
            p.final_message_only == final_message_only,
    {
        Print { input_format, output_format, final_message_only }
    }

    /// Whether events are written as they come, one JSON object per line.
    pub fn streams_json(&self) -> (b: bool)
        ensures
            b == (self.output_format@ == "stream-json"@),
    {
        str_eq(self.output_format.as_str(), "stream-json")
    }

    /// How the answer is written: alone, or after `Assistant: `.
    pub fn answer_line(&self, response: &str) -> (s: String)
        ensures
            s@ == if self.final_message_only { response@ } else { "Assistant: "@ + response@ },
    {
        if self.final_message_only {
            String::from_str(response)
        } else {
            let mut s = String::from_str("Assistant: ");
            append_str(&mut s, response);
            s
        }
    }

    /// The prompt read from standard input: with JSON input that could be read, its `prompt`,
    /// else its `content`, else the text as read.
    pub fn prompt_from_input(&self, raw: String, parsed: bool, prompt: Option<String>, content: Option<String>) -> (s: String)
        ensures
            s@ == if self.input_format@ == "json"@ && parsed {
                match prompt {
                    Some(p) => p@,
                    None => match content {
                        Some(c) => c@,
                        None => raw@,
                    },
                }
            } else {
                raw@
            },
    {
        if str_eq(self.input_format.as_str(), "json") && parsed {
            match prompt {
                Some(p) => p,
                None => match content {
                    Some(c) => c,
                    None => raw,
                },
            }
        } else {
            raw
        }
    }
}

fn json_line(head: &str, value: &str) -> (s: String)
    ensures
        s@ == head@ + json_string(value@) + "}"@,
{
    let mut s = String::from_str(head);
    append_str(&mut s, json_string_text(value).as_str());
    append_str(&mut s, "}");
    s
}

/// The first line of a streamed turn.
pub fn turn_begin_line(input: &str) -> (s: String)
    ensures
        s@ == "{\"type\": \"turn_begin\", \"input\": "@ + json_string(input@) + "}"@,
{
    json_line("{\"type\": \"turn_begin\", \"input\": ", input)
}

/// The last line of a streamed turn.
pub fn turn_end_line() -> (s: String)
    ensures
        s@ == "{\"type\": \"turn_end\"}"@,
{
    String::from_str("{\"type\": \"turn_end\"}")
}

/// The line written for an event of a streamed turn.
pub fn event_line(event: &SoulEvent) -> (l: PrintLine)
    ensures
        match (*event, l) {
            (SoulEvent::Token(t), PrintLine::Stdout(s)) => s@ == "{\"type\": \"token\", \"text\": "@ + json_string(t@) + "}"@,
            (SoulEvent::Plan(p), PrintLine::Stdout(s)) => s@ == "{\"type\": \"plan\", \"plan\": "@ + json_string(p@) + "}"@,
            (SoulEvent::Done(t), PrintLine::Stdout(s)) => s@ == "{\"type\": \"done\", \"text\": "@ + json_string(t@) + "}"@,
            (SoulEvent::Error(e), PrintLine::Stderr(s)) => s@ == "{\"type\": \"error\", \"error\": "@ + json_string(e@) + "}"@,
            (SoulEvent::ToolResult { call_id, output }, PrintLine::Stdout(s)) => s@ == "{\"type\": \"tool_result\", \"call_id\": "@
                + debug_text(call_id@) + ", \"output\": "@ + json_string(output@) + "}"@,
            (SoulEvent::ToolCall(_), PrintLine::ToolCall) => true,
            (SoulEvent::ApprovalNeeded { tool_name: _ }, PrintLine::Approval) => true,
            _ => false,
        },
{
    match event {
        SoulEvent::Token(t) => PrintLine::Stdout(json_line("{\"type\": \"token\", \"text\": ", t.as_str())),
        SoulEvent::Plan(p) => PrintLine::Stdout(json_line("{\"type\": \"plan\", \"plan\": ", p.as_str())),
        SoulEvent::Done(t) => PrintLine::Stdout(json_line("{\"type\": \"done\", \"text\": ", t.as_str())),
        SoulEvent::Error(e) => PrintLine::Stderr(json_line("{\"type\": \"error\", \"error\": ", e.as_str())),
        SoulEvent::ToolResult { call_id, output } => {
            let mut s = String::from_str("{\"type\": \"tool_result\", \"call_id\": ");
            append_str(&mut s, debug_string(call_id.as_str()).as_str());
            append_str(&mut s, ", \"output\": ");
            append_str(&mut s, json_string_text(output.as_str()).as_str());
            append_str(&mut s, "}");
            PrintLine::Stdout(s)
        },
        SoulEvent::ToolCall(_) => PrintLine::ToolCall,
        SoulEvent::ApprovalNeeded { tool_name: _ } => PrintLine::Approval,
    }
}

} // verus!
