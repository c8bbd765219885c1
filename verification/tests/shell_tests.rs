use mekai::config::Theme;
use mekai::llm::Message;
use mekai::notifications::{Notification, NotificationLevel, NotificationManager};
use mekai::session::SessionState;
use mekai::shell::{parse_color, ColorName, KeyInput, KeyOutcome, LineKind, Shell};
use mekai::slash::SlashOutcome;
use mekai::soul::{LoopLimits, SoulCore, SoulEvent};
use mekai::subagents::{SubagentRecord, SubagentStore};
use mekai::background::{BackgroundTask, TaskSpec, TaskStatus, TaskTable};

fn limits() -> LoopLimits {
    LoopLimits { max_steps_per_turn: 10, max_retries_per_step: 1, max_ralph_iterations: 0 }
}

fn new_core() -> SoulCore {
    SoulCore::new("sys".to_string(), 1000, 100, limits(), vec!["Lookup".to_string(), "Shell".to_string()])
}

fn last_text(shell: &Shell) -> String {
    shell.lines.last().unwrap().text.clone()
}

fn texts(shell: &Shell) -> Vec<String> {
    shell.lines.iter().map(|l| l.text.clone()).collect()
}

struct Env {
    shell: Shell,
    core: SoulCore,
    session: Option<SessionState>,
    agents: SubagentStore,
    tasks: TaskTable,
    notes: NotificationManager,
}

impl Env {
    fn new() -> Env {
        Env {
            shell: Shell::new(Theme::default(), true),
            core: new_core(),
            session: Some(SessionState::new()),
            agents: SubagentStore::new(),
            tasks: TaskTable::new(4, 900, false),
            notes: NotificationManager::new(100),
        }
    }

    fn run(&mut self, cmd: &str) -> SlashOutcome {
        self.shell.handle_slash_command(cmd, &mut self.core, &mut self.session, &self.agents, &self.tasks, &mut self.notes)
    }
}

#[test]
fn new_shell_shows_welcome_and_title() {
    let s = Shell::new(Theme::default(), true);
    assert_eq!(texts(&s), vec!["Welcome to Mekai! Type /help for commands.".to_string(), String::new()]);
    assert_eq!(s.title(), "Mekai");
    assert!(s.running && s.yolo && !s.thinking);
    assert_eq!(s.input_text(), "> ");
}

#[test]
fn colors_come_from_the_theme() {
    assert_eq!(parse_color(Some("grey"), ColorName::Red), ColorName::Gray);
    assert_eq!(parse_color(Some("light_cyan"), ColorName::Red), ColorName::LightCyan);
    assert_eq!(parse_color(Some("pink"), ColorName::Red), ColorName::Red);
    assert_eq!(parse_color(None, ColorName::Blue), ColorName::Blue);
    let mut theme = Theme::default();
    theme.user_color = Some("magenta".to_string());
    let s = Shell::new(theme, true);
    assert_eq!(s.user_color(), ColorName::Magenta);
    assert_eq!(s.assistant_color(), ColorName::Blue);
}

#[test]
fn typing_and_enter_start_a_turn() {
    let mut s = Shell::new(Theme::default(), true);
    for c in "hi!".chars() {
        assert!(matches!(s.on_key(KeyInput::Char(c)), KeyOutcome::Nothing));
    }
    s.on_key(KeyInput::Backspace);
    assert_eq!(s.input, "hi");
    match s.on_key(KeyInput::Enter) {
        KeyOutcome::Prompt(p) => assert_eq!(p, "hi"),
        other => panic!("unexpected {:?}", other),
    }
    assert!(s.thinking);
    assert_eq!(s.input, "");
    assert_eq!(s.lines.last().unwrap().kind, LineKind::User);
    assert_eq!(s.title(), "Mekai [STREAMING]");
    // keys typed while a turn runs are ignored, and Ctrl-C cancels it
    s.on_key(KeyInput::Char('x'));
    assert_eq!(s.input, "");
    assert!(matches!(s.on_key(KeyInput::Interrupt), KeyOutcome::Cancel));
    assert_eq!(last_text(&s), "Cancelling...");
}

#[test]
fn slash_input_becomes_a_command_and_blank_input_nothing() {
    let mut s = Shell::new(Theme::default(), true);
    for c in "/help".chars() {
        s.on_key(KeyInput::Char(c));
    }
    match s.on_key(KeyInput::Enter) {
        KeyOutcome::Command(c) => assert_eq!(c, "/help"),
        other => panic!("unexpected {:?}", other),
    }
    s.on_key(KeyInput::Char(' '));
    assert!(matches!(s.on_key(KeyInput::Enter), KeyOutcome::Nothing));
    s.on_key(KeyInput::Esc);
    assert!(!s.running);
}

#[test]
fn streamed_events_fill_the_screen() {
    let mut s = Shell::new(Theme::default(), true);
    assert!(s.start_prompt("question"));
    assert!(!s.on_event(Some(SoulEvent::Token("Hel".to_string()))));
    assert!(!s.on_event(Some(SoulEvent::Token("lo".to_string()))));
    assert_eq!(s.display_lines().last().unwrap().text, "Hello");
    assert!(!s.on_event(Some(SoulEvent::ToolResult { call_id: "c1".to_string(), output: "a\nb".to_string() })));
    assert!(s.on_event(Some(SoulEvent::Done("ignored".to_string()))));
    assert!(!s.thinking);
    let t = texts(&s);
    assert_eq!(&t[t.len() - 3..], &["a".to_string(), "b".to_string(), "Hello".to_string()]);
    assert_eq!(s.lines.last().unwrap().kind, LineKind::Assistant);
    assert_eq!(s.current_response, "");
}

#[test]
fn a_stream_that_ends_early_is_reported() {
    let mut s = Shell::new(Theme::default(), true);
    s.start_prompt("q");
    assert!(s.on_event(None));
    assert_eq!(last_text(&s), "Soul task ended unexpectedly");
    assert_eq!(s.lines.last().unwrap().kind, LineKind::Error);
    assert!(!s.start_prompt("   "));
}

#[test]
fn plan_command_twice_restores_plan_mode() {
    let mut e = Env::new();
    e.run("/plan");
    assert!(e.core.plan_mode && e.shell.plan_mode);
    assert_eq!(last_text(&e.shell), "Plan mode ON.");
    e.run("/plan");
    assert!(!e.core.plan_mode && !e.shell.plan_mode);
    assert_eq!(last_text(&e.shell), "Plan mode OFF.");
}

#[test]
fn simple_commands() {
    let mut e = Env::new();
    e.run("/safe");
    assert!(!e.shell.yolo);
    assert_eq!(e.shell.title(), "Mekai [SAFE]");
    e.run("/yolo");
    assert!(e.shell.yolo);
    e.run("/tools");
    let t = texts(&e.shell);
    let names = [
        "ReadFile", "WriteFile", "Shell", "WebSearch", "WebFetch", "Think", "AskUser", "Agent", "BackgroundTask",
        "ListTasks", "Lookup",
    ];
    let mut expected = vec!["Available tools:".to_string()];
    expected.extend(names.iter().map(|n| format!("  - {n}")));
    assert_eq!(&t[t.len() - 12..], &expected[..]);
    e.run("/clear");
    assert_eq!(texts(&e.shell), vec!["Screen cleared.".to_string()]);
    e.run("/tasks");
    assert_eq!(last_text(&e.shell), "No background tasks.");
    e.run("/frobnicate now");
    assert_eq!(last_text(&e.shell), "Unknown command: /frobnicate now");
    e.run("/help");
    assert_eq!(last_text(&e.shell), "  /help       - Show this help");
    e.run("/q");
    assert!(!e.shell.running);
}

#[test]
fn checkpoint_then_rollback_restores_the_conversation() {
    let mut e = Env::new();
    e.core.context.push(Message::user("one".to_string()));
    let out = e.run("/checkpoint before two");
    assert_eq!(last_text(&e.shell), "Checkpoint created: checkpoint-0");
    assert!(matches!(out, SlashOutcome::Notify { message } if message == "Checkpoint created: checkpoint-0"));
    e.core.context.push(Message::assistant("two".to_string()));
    assert_eq!(e.core.context.len(), 3);
    let out = e.run("/rollback checkpoint-0");
    assert_eq!(last_text(&e.shell), "Rolled back to checkpoint: checkpoint-0");
    assert!(matches!(out, SlashOutcome::Notify { message } if message == "Rolled back to checkpoint: checkpoint-0"));
    assert_eq!(e.core.context.len(), 2);
    let notes = e.notes.list();
    assert_eq!(notes.len(), 2);
    assert_eq!(notes[0].id, "checkpoint-0");
    assert_eq!(notes[0].level, NotificationLevel::Success);
    assert_eq!(notes[0].message, "Checkpoint created: checkpoint-0");
    assert_eq!(notes[0].source, "denwa_renji");
    assert_eq!(notes[1].message, "Rolled back to checkpoint: checkpoint-0");
    assert!(matches!(e.run("/rollback checkpoint-9"), SlashOutcome::Handled));
    assert_eq!(last_text(&e.shell), "Checkpoint not found: checkpoint-9");
    assert!(matches!(e.run("/rollback"), SlashOutcome::Handled));
    assert_eq!(last_text(&e.shell), "Usage: /rollback <checkpoint_id>");
    assert_eq!(e.notes.list().len(), 2);
}

#[test]
fn undo_drops_the_last_turn() {
    let mut e = Env::new();
    e.core.context.push(Message::user("q".to_string()));
    e.core.context.push(Message::assistant("a".to_string()));
    e.core.context.push(Message::tool("t".to_string(), "c".to_string()));
    e.core.context.push(Message::assistant("b".to_string()));
    e.run("/undo");
    assert_eq!(last_text(&e.shell), "Last turn undone.");
    assert_eq!(e.core.context.len(), 1);
    assert_eq!(e.core.context.messages[0].role, "system");
    e.run("/undo");
    assert_eq!(last_text(&e.shell), "Nothing to undo.");
}

#[test]
fn undo_removes_the_whole_turn_and_keeps_the_one_before() {
    let mut e = Env::new();
    e.core.context.push(Message::user("hi".to_string()));
    e.core.context.push(Message::assistant("hello".to_string()));
    e.core.context.push(Message::user("again".to_string()));
    e.core.context.push(Message::assistant("sure".to_string()));
    e.run("/undo");
    assert_eq!(e.core.context.len(), 3);
    assert_eq!(e.core.context.messages[2].content, "hello");
    e.core.context.push(Message::user("unanswered".to_string()));
    e.run("/undo");
    assert_eq!(e.core.context.len(), 3);
    assert_eq!(e.core.context.messages[2].content, "hello");
}

#[test]
fn tasks_lists_the_background_tasks() {
    let mut e = Env::new();
    let spec = TaskSpec { command: Some("sleep 1".to_string()), cwd: None, env: None, timeout_secs: Some(5) };
    let mut t = BackgroundTask::new_bash("0123456789abcdef".to_string(), spec, None, 0);
    t.status = TaskStatus::Running;
    e.tasks.insert(t);
    e.tasks.insert(BackgroundTask::new_agent("fedcba9876543210".to_string(), 0));
    e.run("/tasks");
    let t = texts(&e.shell);
    assert_eq!(
        &t[t.len() - 3..],
        &["Background tasks:".to_string(), "  01234567 - Running".to_string(), "  fedcba98 - Pending".to_string()]
    );
}

#[test]
fn checkpoint_ids_never_repeat() {
    let mut e = Env::new();
    let mut ids = vec![];
    for i in 0..12 {
        e.core.context.push(Message::user(format!("m{i}")));
        ids.push(e.core.checkpoint(format!("c{i}")));
    }
    assert_eq!(ids[11], "checkpoint-11");
    let held = e.core.list_checkpoints();
    assert_eq!(held.len(), 10);
    assert_eq!(held[0].id, "checkpoint-2");
    let n = e.core.context.len();
    e.run("/rollback checkpoint-3");
    assert_eq!(e.core.context.len(), n - 8);
    assert_eq!(e.core.context.messages.last().unwrap().content, "m3");
    e.run("/rollback checkpoint-1");
    assert_eq!(last_text(&e.shell), "Checkpoint not found: checkpoint-1");
}

#[test]
fn todos_are_added_listed_done_and_removed() {
    let mut e = Env::new();
    assert!(matches!(e.run("/todo add buy milk"), SlashOutcome::SaveSession));
    let id = e.session.as_ref().unwrap().todos[0].id.clone();
    assert_eq!(id.len(), 36);
    assert_eq!(last_text(&e.shell), format!("Todo added: {id}"));
    e.run("/todo list");
    let t = texts(&e.shell);
    assert_eq!(t[t.len() - 2], "Todos:");
    assert_eq!(t[t.len() - 1], format!("  [ ] {} - buy milk", &id[..8]));
    let prefix = id[..4].to_string();
    assert!(matches!(e.run(&format!("/todo done {prefix}")), SlashOutcome::SaveSession));
    assert_eq!(last_text(&e.shell), format!("Todo marked done: {id}"));
    assert!(e.session.as_ref().unwrap().todos[0].done);
    e.run("/todo remove zzz");
    assert_eq!(last_text(&e.shell), "Todo not found: zzz");
    e.run(&format!("/todo remove {prefix}"));
    assert_eq!(last_text(&e.shell), "Todo removed.");
    e.run("/todo list");
    assert_eq!(last_text(&e.shell), "No todos.");
    e.run("/todo");
    assert_eq!(last_text(&e.shell), "Usage: /todo [add|list|done|remove]");
    e.session = None;
    e.run("/todo add x");
    assert_eq!(last_text(&e.shell), "No active session.");
}

#[test]
fn custom_data_is_stored_as_json_text() {
    let mut e = Env::new();
    assert!(matches!(e.run("/data set color deep \"blue\""), SlashOutcome::SaveSession));
    assert_eq!(last_text(&e.shell), "Data set: color");
    e.run("/data get color");
    assert_eq!(last_text(&e.shell), "color = \"deep \\\"blue\\\"\"");
    e.run("/data get shape");
    assert_eq!(last_text(&e.shell), "Key not found: shape");
    e.run("/data set");
    assert_eq!(last_text(&e.shell), "Usage: /data set <key> <value>");
}

#[test]
fn notifications_are_listed_newest_first_and_cleared() {
    let mut e = Env::new();
    e.run("/notifications");
    assert_eq!(last_text(&e.shell), "No notifications.");
    for (i, level) in [NotificationLevel::Info, NotificationLevel::Warning].iter().enumerate() {
        e.notes.push(Notification { id: format!("n{i}"), level: *level, message: format!("m{i}"), source: "bg".to_string() });
    }
    e.run("/notifications");
    let t = texts(&e.shell);
    assert_eq!(&t[t.len() - 3..], &["Notifications:".to_string(), "  [bg] Warning - m1".to_string(), "  [bg] Info - m0".to_string()]);
    e.run("/notifications clear");
    assert_eq!(last_text(&e.shell), "Notifications cleared.");
    assert!(e.notes.list().is_empty());
}

#[test]
fn subagents_fork_btw_and_execute() {
    let mut e = Env::new();
    e.run("/subagents");
    assert_eq!(last_text(&e.shell), "No subagents recorded.");
    e.agents.insert(SubagentRecord { id: "0123456789".to_string(), agent_type: "coder".to_string(), status: "running".to_string() });
    e.run("/subagents");
    assert_eq!(last_text(&e.shell), "  01234567 - coder [running]");
    assert!(matches!(e.run("/fork"), SlashOutcome::Fork));
    e.shell.fork_finished(Ok("abc".to_string()));
    assert_eq!(last_text(&e.shell), "Forked to new session: abc");
    match e.run("/btw why  not") {
        SlashOutcome::Ask { question } => assert_eq!(question, "why not"),
        other => panic!("unexpected {:?}", other),
    }
    assert_eq!(e.shell.lines.last().unwrap().kind, LineKind::Btw);
    e.run("/execute");
    assert_eq!(last_text(&e.shell), "No pending plan to execute.");
    e.core.pending_plan = Some(vec![]);
    assert!(matches!(e.run("/execute"), SlashOutcome::Execute));
    assert!(e.shell.thinking);
    e.shell.execute_finished(Ok("done\nok".to_string()));
    assert!(!e.shell.thinking);
    assert_eq!(last_text(&e.shell), "ok");
    e.session = None;
    e.run("/fork");
    assert_eq!(last_text(&e.shell), "No active session to fork.");
}
