use mekai::llm::{FunctionCall, ToolCall};
use mekai::soul::{LoopLimits, SoulCore, SoulEvent};
use mekai::stream::{format_stream_plan, StreamAction, StreamInput, StreamOp, StreamRun};

fn new_core(plan_mode: bool) -> SoulCore {
    let limits = LoopLimits { max_steps_per_turn: 5, max_retries_per_step: 1, max_ralph_iterations: 0 };
    let mut c = SoulCore::new("sys".to_string(), 100000, 1000, limits, vec![]);
    c.plan_mode = plan_mode;
    c
}

fn call(id: &str, name: &str, arguments: &str) -> ToolCall {
    ToolCall {
        id: id.to_string(),
        tool_type: "function".to_string(),
        function: FunctionCall { name: name.to_string(), arguments: arguments.to_string() },
    }
}

fn show(e: &SoulEvent) -> String {
    match e {
        SoulEvent::Token(t) => format!("token {t}"),
        SoulEvent::ToolCall(c) => format!("call {}", c.id),
        SoulEvent::ToolResult { call_id, output } => format!("result {call_id} {output}"),
        SoulEvent::Plan(p) => format!("plan {p}"),
        SoulEvent::Done(t) => format!("done {t}"),
        SoulEvent::Error(e) => format!("error {e}"),
        SoulEvent::ApprovalNeeded { tool_name } => format!("approval {tool_name}"),
    }
}

fn shown(a: &StreamAction) -> Vec<String> {
    a.events.iter().map(show).collect()
}

fn chunk(delta: &str, calls: Option<Vec<ToolCall>>) -> StreamInput {
    StreamInput::Chunk { delta: delta.to_string(), tool_calls: calls }
}

#[test]
fn a_streamed_answer_yields_its_tokens_then_the_whole_text() {
    let mut c = new_core(false);
    let (mut run, first) = StreamRun::begin(&mut c, "hi".to_string());
    assert_eq!(c.context.len(), 2);
    assert_eq!(c.context.messages[1].role, "user");
    assert_eq!(c.context.messages[1].content, "hi");
    assert_eq!(shown(&first), vec!["token "]);
    assert!(matches!(first.op, StreamOp::Read));
    let a = run.step(chunk("Hel", None));
    assert_eq!(shown(&a), vec!["token Hel"]);
    assert!(matches!(a.op, StreamOp::Read));
    let a = run.step(chunk("", None));
    assert!(a.events.is_empty());
    run.step(chunk("lo", None));
    let a = run.step(StreamInput::End);
    assert_eq!(shown(&a), vec!["done Hello"]);
    assert!(matches!(a.op, StreamOp::Stop));
    assert_eq!(c.context.len(), 2);
}

#[test]
fn a_failed_stream_reports_the_error_and_stops() {
    let mut c = new_core(false);
    let (mut run, _) = StreamRun::begin(&mut c, "hi".to_string());
    run.step(chunk("par", None));
    let a = run.step(StreamInput::Failed { error: "broken pipe".to_string() });
    assert_eq!(shown(&a), vec!["error broken pipe"]);
    assert!(matches!(a.op, StreamOp::Stop));
}

#[test]
fn plan_mode_shows_the_plan_instead_of_running_the_calls() {
    let mut c = new_core(true);
    let (mut run, _) = StreamRun::begin(&mut c, "go".to_string());
    run.step(chunk("ok", Some(vec![call("a", "Shell", "{\"command\":\"ls\"}")])));
    run.step(chunk("", Some(vec![call("b", "Think", "{}")])));
    let a = run.step(StreamInput::End);
    assert_eq!(shown(&a), vec!["plan Plan:\n  1. Shell({\"command\":\"ls\"})\n  2. Think({})", "done ok"]);
    assert!(matches!(a.op, StreamOp::Stop));
    assert_eq!(format_stream_plan(&vec![call("x", "Think", "")]), "Plan:\n  1. Think()");
}

#[test]
fn each_call_is_parsed_approved_and_run_in_turn() {
    let mut c = new_core(false);
    let (mut run, _) = StreamRun::begin(&mut c, "go".to_string());
    let calls = vec![
        call("a", "Think", "{bad"),
        call("b", "Shell", "{}"),
        call("c", "Nope", "{}"),
        call("d", "Think", "{}"),
        call("e", "ReadFile", "{}"),
    ];
    run.step(chunk("text", Some(calls)));
    let a = run.step(StreamInput::End);
    assert_eq!(shown(&a), vec!["call a"]);
    assert!(matches!(&a.op, StreamOp::Parse { call } if call.id == "a"));
    let a = run.step(StreamInput::Parsed { result: Err("key must be a string".to_string()) });
    assert_eq!(shown(&a), vec!["error tool error: Invalid arguments JSON: key must be a string", "call b"]);
    let a = run.step(StreamInput::Parsed { result: Ok(()) });
    assert!(a.events.is_empty());
    assert!(matches!(&a.op, StreamOp::Approve { call } if call.id == "b"));
    let a = run.step(StreamInput::Approval { result: Ok(false) });
    assert_eq!(shown(&a), vec!["result b Approval denied for tool: Shell", "call c"]);
    run.step(StreamInput::Parsed { result: Ok(()) });
    let a = run.step(StreamInput::Approval { result: Ok(true) });
    assert_eq!(shown(&a), vec!["result c Unknown tool: Nope", "call d"]);
    run.step(StreamInput::Parsed { result: Ok(()) });
    let a = run.step(StreamInput::Approval { result: Ok(true) });
    assert!(matches!(&a.op, StreamOp::Run { call } if call.id == "d"));
    let a = run.step(StreamInput::Ran { result: Ok("thought".to_string()) });
    assert_eq!(shown(&a), vec!["result d thought", "call e"]);
    run.step(StreamInput::Parsed { result: Ok(()) });
    let a = run.step(StreamInput::Approval { result: Err("no terminal".to_string()) });
    assert_eq!(shown(&a), vec!["result e Approval denied for tool: ReadFile", "done text"]);
    assert!(matches!(a.op, StreamOp::Stop));
}

#[test]
fn a_tool_error_is_reported_as_its_result() {
    let mut c = new_core(false);
    let (mut run, _) = StreamRun::begin(&mut c, "go".to_string());
    run.step(chunk("", Some(vec![call("a", "Think", "{}")])));
    run.step(StreamInput::End);
    run.step(StreamInput::Parsed { result: Ok(()) });
    run.step(StreamInput::Approval { result: Ok(true) });
    let a = run.step(StreamInput::Ran { result: Err("boom".to_string()) });
    assert_eq!(shown(&a), vec!["result a Tool error: boom", "done "]);
    assert_eq!(c.context.len(), 2);
}
