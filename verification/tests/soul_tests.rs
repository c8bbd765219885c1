use mekai::compaction::{CompactionStrategy, SimpleCompaction};
use mekai::context::Context;
use mekai::denwa_renji::DenwaRenji;
use mekai::llm::{FunctionCall, Message, ToolCall};
use mekai::soul::{format_plan, ChatReply, LoopLimits, SoulCore, TurnOp};

fn limits() -> LoopLimits {
    LoopLimits { max_steps_per_turn: 5, max_retries_per_step: 1, max_ralph_iterations: 0 }
}

fn new_core() -> SoulCore {
    let mut c = SoulCore::new("sys".to_string(), 100000, 1000, limits(), vec!["Think".to_string()]);
    c.has_compaction = false;
    c
}

#[test]
fn a_plain_answer_ends_the_turn() {
    let mut c = new_core();
    let a = c.start_turn("hello".to_string(), false, false);
    assert!(matches!(a.op, TurnOp::Save { .. }));
    let a = c.saved(Ok(()), false);
    assert!(matches!(a.op, TurnOp::PollStep));
    let a = c.step_polled(vec![], false);
    assert!(matches!(a.op, TurnOp::Chat));
    let a = c.chat_answered(ChatReply::Answer { content: "hi there".to_string(), tool_calls: None }, false);
    assert!(matches!(a.op, TurnOp::Save { .. }));
    let a = c.saved(Ok(()), false);
    match a.op {
        TurnOp::Finish { result } => assert_eq!(result, Ok("hi there".to_string())),
        other => panic!("unexpected {:?}", other),
    }
    assert_eq!(c.context.len(), 3);
    assert_eq!(c.context.messages[2].content, "hi there");
}

#[test]
fn plan_mode_keeps_tool_calls_for_later() {
    let mut c = new_core().with_plan_mode(true);
    c.start_turn("do it".to_string(), false, false);
    c.saved(Ok(()), false);
    c.step_polled(vec![], false);
    let call = ToolCall {
        id: "c1".to_string(),
        tool_type: "function".to_string(),
        function: FunctionCall { name: "Think".to_string(), arguments: "{}".to_string() },
    };
    c.chat_answered(ChatReply::Answer { content: String::new(), tool_calls: Some(vec![call]) }, false);
    let a = c.saved(Ok(()), false);
    assert!(matches!(a.op, TurnOp::Finish { result: Ok(_) }));
    assert!(c.pending_plan.is_some());
    assert_eq!(format_plan(c.pending_plan.as_ref().unwrap()), "Plan:\n  1. Think({})\n");
}

#[test]
fn context_checkpoints_and_compaction() {
    let mut ctx = Context::new(100, 10);
    assert!(ctx.is_empty());
    ctx.push(Message::user("abcdefgh".to_string()));
    assert_eq!(ctx.estimated_tokens(), 2);
    let mut d = DenwaRenji::new(2);
    let id = d.checkpoint(vec![Message::user("x".to_string())], "first".to_string());
    assert_eq!(id, "checkpoint-0");
    assert_eq!(d.rollback("checkpoint-0").unwrap().len(), 1);
    d.checkpoint(vec![], "second".to_string());
    d.checkpoint(vec![], "third".to_string());
    assert_eq!(d.list().len(), 2);
    assert!(d.rollback("checkpoint-0").is_none());
    assert_eq!(d.latest().unwrap().description, "third");
    let ms: Vec<Message> = (0..6).map(|i| Message::user(format!("m{i}"))).collect();
    let out = SimpleCompaction::new().compact(&ms).unwrap();
    assert_eq!(out.len(), 4);
    assert_eq!(out[0].content, "[Earlier conversation summarized]");
    assert_eq!(out[1].content, "m3");
    assert_eq!(out.last().unwrap().content, "m5");
    let mut with_system = vec![Message::system("rules".to_string())];
    with_system.extend(ms.clone());
    let out = SimpleCompaction::new().compact(&with_system).unwrap();
    assert_eq!(out.len(), 5);
    assert_eq!(out[0].role, "system");
    assert_eq!(out[1].role, "user");
    let short = SimpleCompaction::new().compact(&ms[..3]).unwrap();
    assert_eq!(short.len(), 3);
}

#[test]
fn each_step_has_its_own_retries() {
    let mut c = new_core();
    let call = ToolCall {
        id: "c1".to_string(),
        tool_type: "function".to_string(),
        function: FunctionCall { name: "Think".to_string(), arguments: "{\"thoughts\":\"x\"}".to_string() },
    };
    let mut replies = vec![
        ChatReply::Failed { error: "e1".to_string() },
        ChatReply::Answer { content: String::new(), tool_calls: Some(vec![call]) },
        ChatReply::Failed { error: "e2".to_string() },
        ChatReply::Answer { content: "ok".to_string(), tool_calls: None },
    ]
    .into_iter();
    let mut chats = 0;
    let mut a = c.start_turn("go".to_string(), false, false);
    let result = loop {
        a = match a.op {
            TurnOp::RunHooks { .. } => c.hooks_done(),
            TurnOp::PollStep => c.step_polled(vec![], false),
            TurnOp::CheckCompaction => c.compaction_checked(false),
            TurnOp::Compact => c.compacted(Ok(vec![]), false),
            TurnOp::Chat => {
                chats += 1;
                c.chat_answered(replies.next().unwrap(), false)
            }
            TurnOp::Save { .. } => c.saved(Ok(()), false),
            TurnOp::ParseArguments { .. } => c.arguments_parsed(Ok(()), false),
            TurnOp::RequestApproval { .. } => c.approval_answered(Ok(true), false),
            TurnOp::RunTool { .. } => c.tool_finished(Ok("noted".to_string())),
            TurnOp::Finish { result } => break result,
        };
    };
    assert_eq!(result, Ok("ok".to_string()));
    assert_eq!(chats, 4);
}

#[test]
fn a_turn_asks_the_model_at_most_once_per_allowed_step() {
    let mut c = new_core();
    let call = ToolCall {
        id: "c1".to_string(),
        tool_type: "function".to_string(),
        function: FunctionCall { name: "Think".to_string(), arguments: "{}".to_string() },
    };
    let mut chats = 0;
    let mut a = c.start_turn("go".to_string(), false, false);
    let result = loop {
        a = match a.op {
            TurnOp::RunHooks { .. } => c.hooks_done(),
            TurnOp::PollStep => c.step_polled(vec![], false),
            TurnOp::CheckCompaction => c.compaction_checked(false),
            TurnOp::Compact => c.compacted(Ok(vec![]), false),
            TurnOp::Chat => {
                chats += 1;
                c.chat_answered(ChatReply::Answer { content: String::new(), tool_calls: Some(vec![call.clone()]) }, false)
            }
            TurnOp::Save { .. } => c.saved(Ok(()), false),
            TurnOp::ParseArguments { .. } => c.arguments_parsed(Ok(()), false),
            TurnOp::RequestApproval { .. } => c.approval_answered(Ok(true), false),
            TurnOp::RunTool { .. } => c.tool_finished(Ok("noted".to_string())),
            TurnOp::Finish { result } => break result,
        };
    };
    assert_eq!(result, Ok("[Reached maximum steps per turn]".to_string()));
    assert_eq!(chats, 5);
}
