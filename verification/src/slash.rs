//! The shell's slash commands: what each one shows and changes.
use vstd::prelude::*;
use crate::denwa_renji::{CheckpointView, after_checkpoint, checkpoint_id, rollback_result};
use crate::queue::keep_last;
use crate::llm::MessageView;
use crate::notifications::{NotificationLevel, NotificationView};
use crate::session::{SessionState, TodoView, data_lookup, data_set, data_view, find_todo, json_string, todos_view, todos_without};
use crate::shell::{ShellLineView, ShellView, LineKind, line, plain};
use crate::subagents::SubagentRecordView;
use crate::text::{char_boundary, decimal, join, utf8_len, utf8_truncate};
use crate::text_split::{split_words, strings_view, words};
use crate::shell::{Shell, ShellLine, lines_of, lines_view};
use crate::soul::{SoulCore, checkpoint_notice, join_strings, rollback_notice};
use crate::subagents::{SubagentRecord, SubagentStore};
use crate::background::{BackgroundTask, TaskTable, TaskView, status_name, status_text};
use crate::notifications::{Notification, NotificationManager};
use crate::session::{ArchivedTurn, Todo, new_id, same_settings};
use crate::llm::{Message, messages_view, copy_string};
use crate::text::{append_str, byte_len, byte_prefix, str_eq, usize_to_string};
use crate::turn_model::SoulModel;

verus! {

/// The `i`-th word, or empty text when there are fewer words.
pub open spec fn word(w: Seq<Seq<char>>, i: int) -> Seq<char> {
    if 0 <= i < w.len() { w[i] } else { Seq::empty() }
}

/// The words from the `i`-th on, joined by single spaces.
pub open spec fn rest(w: Seq<Seq<char>>, i: int) -> Seq<char> {
    if 0 <= i <= w.len() { join(w.skip(i), " "@) } else { Seq::empty() }
}

/// How many bytes of an id are shown: eight, or all of a shorter one.
pub open spec fn short_len(id: Seq<char>) -> int {
    if utf8_len(id) < 8 { utf8_len(id) as int } else { 8 }
}

/// An id as shown in lists: its first eight bytes.
pub open spec fn short_id(id: Seq<char>) -> Seq<char> {
    utf8_truncate(id, short_len(id))
}

/// Whether an id can be shortened for display (eight bytes end between two characters).
pub open spec fn cuttable(id: Seq<char>) -> bool {
    char_boundary(id, short_len(id))
}

/// What a session holds that the commands read and change.
#[verifier::ext_equal]
pub struct SessionView {
    pub todos: Seq<TodoView>,
    pub archive: Seq<(usize, Seq<char>)>,
    pub data: Seq<(Seq<char>, Seq<char>)>,
}

pub open spec fn session_view(s: Option<SessionState>) -> Option<SessionView> {
    match s {
        Some(st) => Some(SessionView {
            todos: todos_view(st.todos@),
            archive: st.archive@.map_values(|t: crate::session::ArchivedTurn| (t.turn, t.summary@)),
            data: data_view(st.custom_data@),
        }),
        None => None,
    }
}

/// What the slash commands act on.
#[verifier::ext_equal]
pub struct SlashState {
    pub shell: ShellView,
    pub plan_mode: bool,
    pub messages: Seq<MessageView>,
    pub checkpoints: Seq<CheckpointView>,
    pub issued: nat,
    pub session: Option<SessionView>,
    pub notifications: Seq<NotificationView>,
    pub note_capacity: nat,
}

/// What the commands read and leave alone.
pub struct SlashEnv {
    pub tool_names: Seq<Seq<char>>,
    pub has_plan: bool,
    pub agents: Seq<SubagentRecordView>,
    pub capacity: nat,
    pub tasks: Seq<TaskView>,
}

/// What the caller does after a slash command.
#[derive(Debug)]
pub enum SlashOutcome {
    /// Nothing more.
    Handled,
    /// Fork the session, then report with `fork_finished`.
    Fork,
    /// Hand the side question to the agent.
    Ask { question: String },
    /// Run the pending plan, then report with `execute_finished`.
    Execute,
    /// Save the session state, ignoring failure.
    SaveSession,
    /// Record a success notification with this message on the wire.
    Notify { message: String },
}

pub enum SlashOutcomeView {
    Handled,
    Fork,
    Ask(Seq<char>),
    Execute,
    SaveSession,
    Notify(Seq<char>),
}

impl View for SlashOutcome {
    type V = SlashOutcomeView;

    open spec fn view(&self) -> SlashOutcomeView {
        match self {
            SlashOutcome::Handled => SlashOutcomeView::Handled,
            SlashOutcome::Fork => SlashOutcomeView::Fork,
            SlashOutcome::Ask { question } => SlashOutcomeView::Ask(question@),
            SlashOutcome::Execute => SlashOutcomeView::Execute,
            SlashOutcome::SaveSession => SlashOutcomeView::SaveSession,
            SlashOutcome::Notify { message } => SlashOutcomeView::Notify(message@),
        }
    }
}

pub open spec fn say(s: ShellView, t: Seq<char>) -> ShellView {
    ShellView { lines: s.lines.push(plain(t)), ..s }
}

pub open spec fn show(s: ShellView, ls: Seq<ShellLineView>) -> ShellView {
    ShellView { lines: s.lines + ls, ..s }
}

pub open spec fn no_session() -> Seq<char> {
    "No active session."@
}

pub open spec fn tool_lines(names: Seq<Seq<char>>) -> Seq<ShellLineView> {
    seq![plain("Available tools:"@)] + names.map_values(|n: Seq<char>| plain("  - "@ + n))
}

/// A task id can be cut after its eighth byte.
pub open spec fn task_id_cuttable(id: Seq<char>) -> bool {
    utf8_len(id) >= 8 && char_boundary(id, 8)
}

/// A background task as `/tasks` lists it: its id's first eight bytes and its status.
pub open spec fn task_line(t: TaskView) -> ShellLineView {
    plain("  "@ + utf8_truncate(t.id, 8) + " - "@ + status_text(t.status))
}

pub open spec fn agent_line(a: SubagentRecordView) -> ShellLineView {
    plain("  "@ + short_id(a.id) + " - "@ + a.agent_type + " ["@ + a.status + "]"@)
}

/// How a notification level is written.
/// The notification that the checkpoint store leaves for a checkpoint created or restored.
fn success_notification(id: String, message: String) -> (n: Notification)
    ensures
        n@ == success_note(id@, message@),
{
    Notification { id, level: NotificationLevel::Success, message, source: String::from_str("denwa_renji") }
}

/// What the notification for a checkpoint created or restored holds.
pub open spec fn success_note(id: Seq<char>, message: Seq<char>) -> NotificationView {
    NotificationView { id, level: NotificationLevel::Success, message, source: "denwa_renji"@ }
}

pub open spec fn level_name(l: NotificationLevel) -> Seq<char> {
    match l {
        NotificationLevel::Info => "Info"@,
        NotificationLevel::Warning => "Warning"@,
        NotificationLevel::Error => "Error"@,
        NotificationLevel::Success => "Success"@,
    }
}

pub open spec fn note_line(n: NotificationView) -> ShellLineView {
    plain("  ["@ + n.source + "] "@ + level_name(n.level) + " - "@ + n.message)
}

/// The ten newest notifications (or all, when fewer), newest first.
pub open spec fn newest_notes(ns: Seq<NotificationView>) -> Seq<NotificationView> {
    let k: int = if ns.len() < 10 { ns.len() as int } else { 10 };
    Seq::new(k as nat, |i: int| ns[ns.len() - 1 - i])
}

pub open spec fn todo_line(t: TodoView) -> ShellLineView {
    plain("  "@ + (if t.done { "[x]"@ } else { "[ ]"@ }) + " "@ + short_id(t.id) + " - "@ + t.text)
}

pub open spec fn archive_line(a: (usize, Seq<char>)) -> ShellLineView {
    plain("  Turn "@ + decimal(a.0 as nat) + ": "@ + a.1)
}

/// The help text.
pub open spec fn help_lines() -> Seq<ShellLineView> {
    seq![
        plain("Commands:"@),
        plain("  /quit, /q   - Exit"@),
        plain("  /clear      - Clear screen"@),
        plain("  /yolo       - Auto-approve all tools"@),
        plain("  /safe       - Require approvals"@),
        plain("  /plan       - Toggle plan mode"@),
        plain("  /tools      - List available tools"@),
        plain("  /fork       - Fork current session"@),
        plain("  /undo       - Undo last turn"@),
        plain("  /checkpoint - Save a checkpoint"@),
        plain("  /rollback   - Rollback to a checkpoint"@),
        plain("  /tasks      - List background tasks"@),
        plain("  /subagents  - List subagent activity"@),
        plain("  /notifications [clear] - Show/clear notifications"@),
        plain("  /todo       - Manage todos (add/list/done/remove)"@),
        plain("  /archive    - Show archived turns"@),
        plain("  /data       - Get/set custom data"@),
        plain("  /btw        - Ask a side question"@),
        plain("  /execute    - Execute pending plan"@),
        plain("  /help       - Show this help"@),
    ]
}

/// The conversation without its trailing assistant and tool messages.
pub open spec fn drop_replies(ms: Seq<MessageView>) -> Seq<MessageView>
    decreases ms.len(),
{
    if ms.len() > 0 && (ms.last().role == "assistant"@ || ms.last().role == "tool"@) {
        drop_replies(ms.drop_last())
    } else {
        ms
    }
}

/// The conversation after undoing the last turn: the trailing assistant and tool messages are
/// dropped, then the user message that opened the turn.
pub open spec fn undone(ms: Seq<MessageView>) -> Seq<MessageView> {
    let r = drop_replies(ms);
    if r.len() > 0 && r.last().role == "user"@ { r.drop_last() } else { r }
}

pub open spec fn todo_usage() -> Seq<char> {
    "Usage: /todo [add|list|done|remove]"@
}

/// `/todo`: add, list, mark done or remove todos of the session.
pub open spec fn todo_spec(s: ShellView, se: Option<SessionView>, w: Seq<Seq<char>>, fresh: Seq<char>)
    -> (ShellView, Option<SessionView>, SlashOutcomeView)
{
    let sub = word(w, 1);
    if w.len() < 2 {
        (say(s, todo_usage()), se, SlashOutcomeView::Handled)
    } else if sub == "add"@ {
        let text = rest(w, 2);
        if text.len() == 0 {
            (say(s, "Usage: /todo add <text>"@), se, SlashOutcomeView::Handled)
        } else {
            match se {
                Some(v) => (
                    say(s, "Todo added: "@ + fresh),
                    Some(SessionView { todos: v.todos.push(TodoView { id: fresh, text, done: false }), ..v }),
                    SlashOutcomeView::SaveSession,
                ),
                None => (say(s, no_session()), se, SlashOutcomeView::Handled),
            }
        }
    } else if sub == "list"@ {
        match se {
            Some(v) => if v.todos.len() == 0 {
                (say(s, "No todos."@), se, SlashOutcomeView::Handled)
            } else {
                (show(s, seq![plain("Todos:"@)] + v.todos.map_values(|t: TodoView| todo_line(t))), se, SlashOutcomeView::Handled)
            },
            None => (say(s, no_session()), se, SlashOutcomeView::Handled),
        }
    } else if sub == "done"@ {
        let id = word(w, 2);
        if id.len() == 0 {
            (say(s, "Usage: /todo done <id>"@), se, SlashOutcomeView::Handled)
        } else {
            match se {
                Some(v) => match find_todo(v.todos, id, 0) {
                    Some(i) => (
                        say(s, "Todo marked done: "@ + v.todos[i].id),
                        Some(SessionView { todos: v.todos.update(i, TodoView { done: true, ..v.todos[i] }), ..v }),
                        SlashOutcomeView::SaveSession,
                    ),
                    None => (say(s, "Todo not found: "@ + id), se, SlashOutcomeView::Handled),
                },
                None => (say(s, no_session()), se, SlashOutcomeView::Handled),
            }
        }
    } else if sub == "remove"@ {
        let id = word(w, 2);
        if id.len() == 0 {
            (say(s, "Usage: /todo remove <id>"@), se, SlashOutcomeView::Handled)
        } else {
            match se {
                Some(v) => {
                    let kept = todos_without(v.todos, id);
                    let se2 = Some(SessionView { todos: kept, ..v });
                    if kept.len() < v.todos.len() {
                        (say(s, "Todo removed."@), se2, SlashOutcomeView::SaveSession)
                    } else {
                        (say(s, "Todo not found: "@ + id), se2, SlashOutcomeView::Handled)
                    }
                },
                None => (say(s, no_session()), se, SlashOutcomeView::Handled),
            }
        }
    } else {
        (say(s, todo_usage()), se, SlashOutcomeView::Handled)
    }
}

/// `/data`: set or get a custom value of the session.
pub open spec fn data_spec(s: ShellView, se: Option<SessionView>, w: Seq<Seq<char>>)
    -> (ShellView, Option<SessionView>, SlashOutcomeView)
{
    let sub = word(w, 1);
    if w.len() < 2 {
        (say(s, "Usage: /data [set|get]"@), se, SlashOutcomeView::Handled)
    } else if sub == "set"@ {
        let key = word(w, 2);
        let value = rest(w, 3);
        if key.len() == 0 {
            (say(s, "Usage: /data set <key> <value>"@), se, SlashOutcomeView::Handled)
        } else {
            match se {
                Some(v) => (
                    say(s, "Data set: "@ + key),
                    Some(SessionView { data: data_set(v.data, key, json_string(value)), ..v }),
                    SlashOutcomeView::SaveSession,
                ),
                None => (say(s, no_session()), se, SlashOutcomeView::Handled),
            }
        }
    } else if sub == "get"@ {
        let key = word(w, 2);
        if key.len() == 0 {
            (say(s, "Usage: /data get <key>"@), se, SlashOutcomeView::Handled)
        } else {
            match se {
                Some(v) => match data_lookup(v.data, key) {
                    Some(val) => (say(s, key + " = "@ + val), se, SlashOutcomeView::Handled),
                    None => (say(s, "Key not found: "@ + key), se, SlashOutcomeView::Handled),
                },
                None => (say(s, no_session()), se, SlashOutcomeView::Handled),
            }
        }
    } else {
        (say(s, "Usage: /data [set|get]"@), se, SlashOutcomeView::Handled)
    }
}

/// `/notifications [clear]`: show the newest notifications, or clear them.
pub open spec fn notes_spec(s: ShellView, ns: Seq<NotificationView>, w: Seq<Seq<char>>)
    -> (ShellView, Seq<NotificationView>)
{
    if w.len() >= 2 && w[1] == "clear"@ {
        (say(s, "Notifications cleared."@), Seq::empty())
    } else if ns.len() == 0 {
        (say(s, "No notifications."@), ns)
    } else {
        (show(s, seq![plain("Notifications:"@)] + newest_notes(ns).map_values(|n: NotificationView| note_line(n))), ns)
    }
}

/// What a slash command does. `fresh` is the id a new todo gets.
pub open spec fn slash_spec(st: SlashState, env: SlashEnv, cmd: Seq<char>, fresh: Seq<char>) -> (SlashState, SlashOutcomeView) {
    let w = words(cmd);
    let h = word(w, 0);
    let s = st.shell;
    let handled = SlashOutcomeView::Handled;
    if h == "/quit"@ || h == "/q"@ {
        (SlashState { shell: ShellView { running: false, ..s }, ..st }, handled)
    } else if h == "/clear"@ {
        (SlashState { shell: ShellView { lines: seq![plain("Screen cleared."@)], ..s }, ..st }, handled)
    } else if h == "/yolo"@ {
        (SlashState { shell: say(ShellView { yolo: true, ..s }, "Yolo mode ON (auto-approve)."@), ..st }, handled)
    } else if h == "/safe"@ {
        (SlashState { shell: say(ShellView { yolo: false, ..s }, "Safe mode ON (approvals required)."@), ..st }, handled)
    } else if h == "/tools"@ {
        (SlashState { shell: show(s, tool_lines(env.tool_names)), ..st }, handled)
    } else if h == "/plan"@ {
        let p = !st.plan_mode;
        (
            SlashState {
                shell: say(ShellView { plan_mode: p, ..s }, if p { "Plan mode ON."@ } else { "Plan mode OFF."@ }),
                plan_mode: p,
                ..st
            },
            handled,
        )
    } else if h == "/fork"@ {
        if st.session.is_some() {
            (st, SlashOutcomeView::Fork)
        } else {
            (SlashState { shell: say(s, "No active session to fork."@), ..st }, handled)
        }
    } else if h == "/undo"@ {
        if st.messages.len() > 1 {
            (SlashState { shell: say(s, "Last turn undone."@), messages: undone(st.messages), ..st }, handled)
        } else {
            (SlashState { shell: say(s, "Nothing to undo."@), ..st }, handled)
        }
    } else if h == "/checkpoint"@ {
        let desc = rest(w, 1);
        let d = if desc.len() == 0 { "manual checkpoint"@ } else { desc };
        let cid = checkpoint_id(st.issued);
        let msg = "Checkpoint created: "@ + cid;
        (
            SlashState {
                shell: say(s, msg),
                checkpoints: after_checkpoint(st.checkpoints, env.capacity, st.issued, st.messages, d),
                issued: st.issued + 1,
                notifications: keep_last(st.notifications.push(success_note(cid, msg)), st.note_capacity),
                ..st
            },
            SlashOutcomeView::Notify(msg),
        )
    } else if h == "/rollback"@ {
        let id = word(w, 1);
        if id.len() == 0 {
            (SlashState { shell: say(s, "Usage: /rollback <checkpoint_id>"@), ..st }, handled)
        } else {
            let msg = "Rolled back to checkpoint: "@ + id;
            match rollback_result(st.checkpoints, id) {
                Some(ms) => (
                    SlashState {
                        shell: say(s, msg),
                        messages: ms,
                        notifications: keep_last(st.notifications.push(success_note(id, msg)), st.note_capacity),
                        ..st
                    },
                    SlashOutcomeView::Notify(msg),
                ),
                None => (SlashState { shell: say(s, "Checkpoint not found: "@ + id), ..st }, handled),
            }
        }
    } else if h == "/tasks"@ {
        if env.tasks.len() == 0 {
            (SlashState { shell: say(s, "No background tasks."@), ..st }, handled)
        } else {
            (
                SlashState {
                    shell: show(s, seq![plain("Background tasks:"@)] + env.tasks.map_values(|t: TaskView| task_line(t))),
                    ..st
                },
                handled,
            )
        }
    } else if h == "/btw"@ {
        let q = rest(w, 1);
        if q.len() == 0 {
            (SlashState { shell: say(s, "Usage: /btw <question>"@), ..st }, handled)
        } else {
            (SlashState { shell: ShellView { lines: s.lines.push(line(LineKind::Btw, q)), ..s }, ..st }, SlashOutcomeView::Ask(q))
        }
    } else if h == "/execute"@ {
        if env.has_plan {
            (SlashState { shell: ShellView { thinking: true, ..s }, ..st }, SlashOutcomeView::Execute)
        } else {
            (SlashState { shell: say(s, "No pending plan to execute."@), ..st }, handled)
        }
    } else if h == "/subagents"@ {
        if env.agents.len() == 0 {
            (SlashState { shell: say(s, "No subagents recorded."@), ..st }, handled)
        } else {
            (
                SlashState {
                    shell: show(s, seq![plain("Subagents:"@)] + env.agents.map_values(|a: SubagentRecordView| agent_line(a))),
                    ..st
                },
                handled,
            )
        }
    } else if h == "/notifications"@ {
        let (s2, ns) = notes_spec(s, st.notifications, w);
        (SlashState { shell: s2, notifications: ns, ..st }, handled)
    } else if h == "/todo"@ {
        let (s2, se, o) = todo_spec(s, st.session, w, fresh);
        (SlashState { shell: s2, session: se, ..st }, o)
    } else if h == "/archive"@ {
        match st.session {
            Some(v) => if v.archive.len() == 0 {
                (SlashState { shell: say(s, "No archived turns."@), ..st }, handled)
            } else {
                (
                    SlashState {
                        shell: show(s, seq![plain("Archived turns:"@)] + v.archive.map_values(|a: (usize, Seq<char>)| archive_line(a))),
                        ..st
                    },
                    handled,
                )
            },
            None => (SlashState { shell: say(s, no_session()), ..st }, handled),
        }
    } else if h == "/data"@ {
        let (s2, se, o) = data_spec(s, st.session, w);
        (SlashState { shell: s2, session: se, ..st }, o)
    } else if h == "/help"@ {
        (SlashState { shell: show(s, help_lines()), ..st }, handled)
    } else {
        (SlashState { shell: say(s, "Unknown command: "@ + cmd), ..st }, handled)
    }
}

fn push_line_to(v: &mut Vec<ShellLine>, l: ShellLine)
    ensures
        lines_view(final(v)@) == lines_view(old(v)@).push(l@),
{
    let ghost lv = l@;
    v.push(l);
    assert(lines_view(v@) =~= lines_view(old(v)@).push(lv));
}


/// The `i`-th word.
fn word_at(w: &Vec<String>, i: usize) -> (r: &str)
    ensures
        r@ == word(strings_view(w@), i as int),
{
    if i < w.len() {
        w[i].as_str()
    } else {
        proof {
            reveal_strlit("");
        }
        ""
    }
}

/// The words from the `i`-th on, joined by single spaces.
fn rest_words(w: &Vec<String>, i: usize) -> (r: String)
    ensures
        r@ == rest(strings_view(w@), i as int),
{
    if i > w.len() {
        return String::new();
    }
    let mut tail: Vec<String> = Vec::new();
    let mut j: usize = i;
    while j < w.len()
        invariant
            i <= j <= w@.len(),
            strings_view(tail@) == strings_view(w@).subrange(i as int, j as int),
        decreases w@.len() - j,
    {
        crate::text_split::push_text(&mut tail, copy_string(&w[j]));
        assert(strings_view(tail@) =~= strings_view(w@).subrange(i as int, j + 1));
        j = j + 1;
    }
    assert(strings_view(w@).subrange(i as int, w@.len() as int) =~= strings_view(w@).skip(i as int));
    assert(tail@.map_values(|p: String| p@) =~= strings_view(tail@));
    join_strings(&tail, " ")
}

/// An id as shown in lists.
fn short(id: &str) -> (r: &str)
    requires
        cuttable(id@),
    ensures
        r@ == short_id(id@),
{
    let n = byte_len(id);
    let k = if n < 8 { n } else { 8 };
    byte_prefix(id, k)
}

fn concat(parts: &[&str]) -> (r: String)
    ensures
        r@ == crate::text::join(parts@.map_values(|p: &str| p@), Seq::empty()),
{
    let mut r = String::new();
    let mut i: usize = 0;
    let ghost pv = parts@.map_values(|p: &str| p@);
    while i < parts.len()
        invariant
            i <= parts@.len(),
            pv == parts@.map_values(|p: &str| p@),
            r@ == crate::text::join(pv.take(i as int), Seq::empty()),
        decreases parts@.len() - i,
    {
        append_str(&mut r, parts[i]);
        proof {
            let t = pv.take(i + 1);
            assert(t.drop_last() =~= pv.take(i as int));
            if i == 0 {
                assert(r@ =~= t[0]);
            } else {
                assert(r@ =~= crate::text::join(pv.take(i as int), Seq::empty()) + Seq::empty() + t.last());
            }
        }
        i = i + 1;
    }
    assert(pv.take(parts@.len() as int) =~= pv);
    r
}

fn plain_line(text: String) -> (l: ShellLine)
    ensures
        l@ == plain(text@),
{
    ShellLine { kind: LineKind::Plain, text }
}

fn tool_list(names: &Vec<String>) -> (r: Vec<ShellLine>)
    ensures
        lines_view(r@) == tool_lines(strings_view(names@)),
{
    let mut r: Vec<ShellLine> = Vec::new();
    push_line_to(&mut r, plain_line(String::from_str("Available tools:")));
    let mut i: usize = 0;
    while i < names.len()
        invariant
            i <= names@.len(),
            lines_view(r@) == seq![plain("Available tools:"@)] + strings_view(names@).take(i as int).map_values(|n: Seq<char>| plain("  - "@ + n)),
        decreases names@.len() - i,
    {
        let mut t = String::from_str("  - ");
        append_str(&mut t, names[i].as_str());
        push_line_to(&mut r, plain_line(t));
        assert(strings_view(names@).take(i + 1).map_values(|n: Seq<char>| plain("  - "@ + n)) =~= strings_view(names@).take(i as int).map_values(|n: Seq<char>| plain("  - "@ + n)).push(plain("  - "@ + names@[i as int]@)));
        assert(lines_view(r@) =~= seq![plain("Available tools:"@)] + strings_view(names@).take(i + 1).map_values(|n: Seq<char>| plain("  - "@ + n)));
        i = i + 1;
    }
    assert(strings_view(names@).take(names@.len() as int) =~= strings_view(names@));
    r
}

fn task_list(tasks: &Vec<BackgroundTask>) -> (r: Vec<ShellLine>)
    requires
        forall|i: int| 0 <= i < tasks@.len() ==> task_id_cuttable((#[trigger] tasks@[i])@.id),
    ensures
        lines_view(r@) == seq![plain("Background tasks:"@)] + crate::background::tasks_view(tasks@).map_values(
            |t: TaskView| task_line(t),
        ),
{
    let ghost tv = crate::background::tasks_view(tasks@);
    let mut r: Vec<ShellLine> = Vec::new();
    push_line_to(&mut r, plain_line(String::from_str("Background tasks:")));
    let mut i: usize = 0;
    while i < tasks.len()
        invariant
            i <= tasks@.len(),
            tv == crate::background::tasks_view(tasks@),
            tv.len() == tasks@.len(),
            forall|k: int| 0 <= k < tasks@.len() ==> task_id_cuttable((#[trigger] tasks@[k])@.id),
            lines_view(r@) == seq![plain("Background tasks:"@)] + tv.take(i as int).map_values(|t: TaskView| task_line(t)),
        decreases tasks@.len() - i,
    {
        let t = &tasks[i];
        assert(tv[i as int] == t@);
        assert(task_id_cuttable(tasks@[i as int]@.id));
        let text = concat(&[ "  ", byte_prefix(t.id.as_str(), 8), " - ", status_name(t.status) ]);
        proof {
            reveal_with_fuel(crate::text::join, 5);
        }
        push_line_to(&mut r, plain_line(text));
        assert(tv.take(i + 1).map_values(|t: TaskView| task_line(t)) =~= tv.take(i as int).map_values(|t: TaskView| task_line(t)).push(task_line(tv[i as int])));
        assert(lines_view(r@) =~= seq![plain("Background tasks:"@)] + tv.take(i + 1).map_values(|t: TaskView| task_line(t)));
        i = i + 1;
    }
    assert(tv.take(tasks@.len() as int) =~= tv);
    r
}

fn agent_list(agents: &Vec<&SubagentRecord>) -> (r: Vec<ShellLine>)
    requires
        forall|i: int| 0 <= i < agents@.len() ==> cuttable((#[trigger] agents@[i])@.id),
    ensures
        lines_view(r@) == seq![plain("Subagents:"@)] + agents@.map_values(|a: &SubagentRecord| a@).map_values(|a: SubagentRecordView| agent_line(a)),
{
    let ghost av = agents@.map_values(|a: &SubagentRecord| a@);
    let mut r: Vec<ShellLine> = Vec::new();
    push_line_to(&mut r, plain_line(String::from_str("Subagents:")));
    let mut i: usize = 0;
    while i < agents.len()
        invariant
            i <= agents@.len(),
            av == agents@.map_values(|a: &SubagentRecord| a@),
            forall|k: int| 0 <= k < agents@.len() ==> cuttable((#[trigger] agents@[k])@.id),
            lines_view(r@) == seq![plain("Subagents:"@)] + av.take(i as int).map_values(|a: SubagentRecordView| agent_line(a)),
        decreases agents@.len() - i,
    {
        let a = agents[i];
        assert(cuttable(agents@[i as int]@.id));
        let t = concat(&[ "  ", short(a.id.as_str()), " - ", a.agent_type.as_str(), " [", a.status.as_str(), "]" ]);
        proof {
            reveal_with_fuel(crate::text::join, 8);
        }
        push_line_to(&mut r, plain_line(t));
        assert(av.take(i + 1).map_values(|a: SubagentRecordView| agent_line(a)) =~= av.take(i as int).map_values(|a: SubagentRecordView| agent_line(a)).push(agent_line(av[i as int])));
        assert(lines_view(r@) =~= seq![plain("Subagents:"@)] + av.take(i + 1).map_values(|a: SubagentRecordView| agent_line(a)));
        i = i + 1;
    }
    assert(av.take(agents@.len() as int) =~= av);
    r
}

/// How a notification level is written (`{:?}`).
pub fn level_label(l: NotificationLevel) -> (s: &'static str)
    ensures
        s@ == level_name(l),
{
    match l {
        NotificationLevel::Info => "Info",
        NotificationLevel::Warning => "Warning",
        NotificationLevel::Error => "Error",
        NotificationLevel::Success => "Success",
    }
}

fn note_list(ns: &Vec<Notification>) -> (r: Vec<ShellLine>)
    requires
        ns@.len() > 0,
    ensures
        lines_view(r@) == seq![plain("Notifications:"@)] + newest_notes(ns@.map_values(|n: Notification| n@)).map_values(|n: NotificationView| note_line(n)),
{
    let ghost nv = ns@.map_values(|n: Notification| n@);
    let ghost newest = newest_notes(nv);
    let mut r: Vec<ShellLine> = Vec::new();
    push_line_to(&mut r, plain_line(String::from_str("Notifications:")));
    let n = ns.len();
    let k: usize = if n < 10 { n } else { 10 };
    let mut i: usize = 0;
    while i < k
        invariant
            i <= k,
            n == ns@.len(),
            k == newest.len(),
            k <= n,
            nv == ns@.map_values(|x: Notification| x@),
            newest == newest_notes(nv),
            lines_view(r@) == seq![plain("Notifications:"@)] + newest.take(i as int).map_values(|x: NotificationView| note_line(x)),
        decreases k - i,
    {
        let note = &ns[n - 1 - i];
        assert(newest[i as int] == note@);
        let t = concat(&[ "  [", note.source.as_str(), "] ", level_label(note.level), " - ", note.message.as_str() ]);
        proof {
            reveal_with_fuel(crate::text::join, 7);
        }
        push_line_to(&mut r, plain_line(t));
        assert(newest.take(i + 1).map_values(|x: NotificationView| note_line(x)) =~= newest.take(i as int).map_values(|x: NotificationView| note_line(x)).push(note_line(newest[i as int])));
        assert(lines_view(r@) =~= seq![plain("Notifications:"@)] + newest.take(i + 1).map_values(|x: NotificationView| note_line(x)));
        i = i + 1;
    }
    assert(newest.take(k as int) =~= newest);
    r
}

fn todo_list(ts: &Vec<Todo>) -> (r: Vec<ShellLine>)
    requires
        forall|i: int| 0 <= i < ts@.len() ==> cuttable((#[trigger] ts@[i]).id@),
    ensures
        lines_view(r@) == seq![plain("Todos:"@)] + todos_view(ts@).map_values(|t: TodoView| todo_line(t)),
{
    let ghost tv = todos_view(ts@);
    let mut r: Vec<ShellLine> = Vec::new();
    push_line_to(&mut r, plain_line(String::from_str("Todos:")));
    let mut i: usize = 0;
    while i < ts.len()
        invariant
            i <= ts@.len(),
            tv == todos_view(ts@),
            forall|k: int| 0 <= k < ts@.len() ==> cuttable((#[trigger] ts@[k]).id@),
            lines_view(r@) == seq![plain("Todos:"@)] + tv.take(i as int).map_values(|t: TodoView| todo_line(t)),
        decreases ts@.len() - i,
    {
        let t = &ts[i];
        assert(cuttable(ts@[i as int].id@));
        let mark = if t.done { "[x]" } else { "[ ]" };
        let text = concat(&[ "  ", mark, " ", short(t.id.as_str()), " - ", t.text.as_str() ]);
        proof {
            reveal_with_fuel(crate::text::join, 7);
        }
        push_line_to(&mut r, plain_line(text));
        assert(tv.take(i + 1).map_values(|t: TodoView| todo_line(t)) =~= tv.take(i as int).map_values(|t: TodoView| todo_line(t)).push(todo_line(tv[i as int])));
        assert(lines_view(r@) =~= seq![plain("Todos:"@)] + tv.take(i + 1).map_values(|t: TodoView| todo_line(t)));
        i = i + 1;
    }
    assert(tv.take(ts@.len() as int) =~= tv);
    r
}

fn archive_list(turns: &Vec<ArchivedTurn>) -> (r: Vec<ShellLine>)
    ensures
        lines_view(r@) == seq![plain("Archived turns:"@)] + turns@.map_values(|t: ArchivedTurn| (t.turn, t.summary@)).map_values(|a: (usize, Seq<char>)| archive_line(a)),
{
    let ghost av = turns@.map_values(|t: ArchivedTurn| (t.turn, t.summary@));
    let mut r: Vec<ShellLine> = Vec::new();
    push_line_to(&mut r, plain_line(String::from_str("Archived turns:")));
    let mut i: usize = 0;
    while i < turns.len()
        invariant
            i <= turns@.len(),
            av == turns@.map_values(|t: ArchivedTurn| (t.turn, t.summary@)),
            lines_view(r@) == seq![plain("Archived turns:"@)] + av.take(i as int).map_values(|a: (usize, Seq<char>)| archive_line(a)),
        decreases turns@.len() - i,
    {
        let num = usize_to_string(turns[i].turn);
        let text = concat(&[ "  Turn ", num.as_str(), ": ", turns[i].summary.as_str() ]);
        proof {
            reveal_with_fuel(crate::text::join, 5);
        }
        push_line_to(&mut r, plain_line(text));
        assert(av.take(i + 1).map_values(|a: (usize, Seq<char>)| archive_line(a)) =~= av.take(i as int).map_values(|a: (usize, Seq<char>)| archive_line(a)).push(archive_line(av[i as int])));
        assert(lines_view(r@) =~= seq![plain("Archived turns:"@)] + av.take(i + 1).map_values(|a: (usize, Seq<char>)| archive_line(a)));
        i = i + 1;
    }
    assert(av.take(turns@.len() as int) =~= av);
    r
}

fn help_list() -> (r: Vec<ShellLine>)
    ensures
        lines_view(r@) == help_lines(),
{
    let texts = [
        "Commands:",
        "  /quit, /q   - Exit",
        "  /clear      - Clear screen",
        "  /yolo       - Auto-approve all tools",
        "  /safe       - Require approvals",
        "  /plan       - Toggle plan mode",
        "  /tools      - List available tools",
        "  /fork       - Fork current session",
        "  /undo       - Undo last turn",
        "  /checkpoint - Save a checkpoint",
        "  /rollback   - Rollback to a checkpoint",
        "  /tasks      - List background tasks",
        "  /subagents  - List subagent activity",
        "  /notifications [clear] - Show/clear notifications",
        "  /todo       - Manage todos (add/list/done/remove)",
        "  /archive    - Show archived turns",
        "  /data       - Get/set custom data",
        "  /btw        - Ask a side question",
        "  /execute    - Execute pending plan",
        "  /help       - Show this help",
    ];
    let mut r: Vec<ShellLine> = Vec::new();
    let mut i: usize = 0;
    while i < 20
        invariant
            i <= 20,
            texts@ == seq![
                "Commands:",
                "  /quit, /q   - Exit",
                "  /clear      - Clear screen",
                "  /yolo       - Auto-approve all tools",
                "  /safe       - Require approvals",
                "  /plan       - Toggle plan mode",
                "  /tools      - List available tools",
                "  /fork       - Fork current session",
                "  /undo       - Undo last turn",
                "  /checkpoint - Save a checkpoint",
                "  /rollback   - Rollback to a checkpoint",
                "  /tasks      - List background tasks",
                "  /subagents  - List subagent activity",
                "  /notifications [clear] - Show/clear notifications",
                "  /todo       - Manage todos (add/list/done/remove)",
                "  /archive    - Show archived turns",
                "  /data       - Get/set custom data",
                "  /btw        - Ask a side question",
                "  /execute    - Execute pending plan",
                "  /help       - Show this help",
            ],
            lines_view(r@) == help_lines().take(i as int),
        decreases 20 - i,
    {
        push_line_to(&mut r, plain_line(String::from_str(texts[i])));
        assert(lines_view(r@) =~= help_lines().take(i + 1));
        i = i + 1;
    }
    assert(help_lines().take(20) =~= help_lines());
    r
}

/// Whether a session is present before and after, with the same settings.
pub open spec fn same_session_settings(a: Option<SessionState>, b: Option<SessionState>) -> bool {
    match (a, b) {
        (Some(x), Some(y)) => same_settings(x, y),
        (None, None) => true,
        _ => false,
    }
}

/// Whether the todo ids of a session can be shortened for display.
pub open spec fn todo_ids_cuttable(se: Option<SessionState>) -> bool {
    match se {
        Some(st) => forall|i: int| 0 <= i < st.todos@.len() ==> cuttable((#[trigger] st.todos@[i]).id@),
        None => true,
    }
}

fn text_of(parts: &[&str]) -> (r: String)
    ensures
        r@ == crate::text::join(parts@.map_values(|p: &str| p@), Seq::empty()),
{
    concat(parts)
}

impl Shell {
    fn show_lines(&mut self, ls: Vec<ShellLine>)
        ensures
            final(self).model() == show(old(self).model(), lines_view(ls@)),
            final(self).theme == old(self).theme,
    {
        let ghost start = self.model();
        let mut i: usize = 0;
        while i < ls.len()
            invariant
                i <= ls@.len(),
                self.model() == show(start, lines_view(ls@).take(i as int)),
                start == old(self).model(),
                self.theme == old(self).theme,
            decreases ls@.len() - i,
        {
            self.push_line(ls[i].kind, copy_string(&ls[i].text));
            assert(lines_view(ls@).take(i + 1) =~= lines_view(ls@).take(i as int).push(ls@[i as int]@));
            assert(start.lines + lines_view(ls@).take(i + 1) =~= (start.lines + lines_view(ls@).take(i as int)).push(ls@[i as int]@));
            i = i + 1;
        }
        assert(lines_view(ls@).take(ls@.len() as int) =~= lines_view(ls@));
    }

    fn say_text(&mut self, text: String)
        ensures
            final(self).model() == say(old(self).model(), text@),
            final(self).theme == old(self).theme,
    {
        self.push_line(LineKind::Plain, text);
    }

    fn todo_command(&mut self, w: &Vec<String>, session: &mut Option<SessionState>, fresh: String) -> (out: SlashOutcome)
        requires
            word(strings_view(w@), 1) == "list"@ ==> todo_ids_cuttable(*old(session)),
        ensures
            (final(self).model(), session_view(*final(session)), out@)
                == todo_spec(old(self).model(), session_view(*old(session)), strings_view(w@), fresh@),
            final(self).theme == old(self).theme,
            same_session_settings(*old(session), *final(session)),
    {
        let ghost wv = strings_view(w@);
        assert(wv.len() == w@.len());
        if w.len() < 2 {
            self.say("Usage: /todo [add|list|done|remove]");
            return SlashOutcome::Handled;
        }
        let sub = word_at(w, 1);
        if str_eq(sub, "add") {
            let text = rest_words(w, 2);
            if text.as_str().is_empty() {
                self.say("Usage: /todo add <text>");
                return SlashOutcome::Handled;
            }
            match session {
                Some(st) => {
                    st.add_todo(copy_string(&fresh), text);
                    self.say_text(text_of(&[ "Todo added: ", fresh.as_str() ]));
                    proof {
                        reveal_with_fuel(crate::text::join, 3);
                    }
                    SlashOutcome::SaveSession
                },
                None => {
                    self.say("No active session.");
                    SlashOutcome::Handled
                },
            }
        } else if str_eq(sub, "list") {
            match session {
                Some(st) => {
                    if st.todos.len() == 0 {
                        self.say("No todos.");
                    } else {
                        let ls = todo_list(&st.todos);
                        self.show_lines(ls);
                    }
                    SlashOutcome::Handled
                },
                None => {
                    self.say("No active session.");
                    SlashOutcome::Handled
                },
            }
        } else if str_eq(sub, "done") {
            let id = word_at(w, 2);
            if id.is_empty() {
                self.say("Usage: /todo done <id>");
                return SlashOutcome::Handled;
            }
            match session {
                Some(st) => {
                    match st.mark_todo_done(id) {
                        Some(todo_id) => {
                            self.say_text(text_of(&[ "Todo marked done: ", todo_id.as_str() ]));
                            proof {
                                reveal_with_fuel(crate::text::join, 3);
                            }
                            SlashOutcome::SaveSession
                        },
                        None => {
                            self.say_text(text_of(&[ "Todo not found: ", id ]));
                            proof {
                                reveal_with_fuel(crate::text::join, 3);
                            }
                            SlashOutcome::Handled
                        },
                    }
                },
                None => {
                    self.say("No active session.");
                    SlashOutcome::Handled
                },
            }
        } else if str_eq(sub, "remove") {
            let id = word_at(w, 2);
            if id.is_empty() {
                self.say("Usage: /todo remove <id>");
                return SlashOutcome::Handled;
            }
            match session {
                Some(st) => {
                    if st.remove_todos(id) {
                        self.say("Todo removed.");
                        SlashOutcome::SaveSession
                    } else {
                        self.say_text(text_of(&[ "Todo not found: ", id ]));
                        proof {
                            reveal_with_fuel(crate::text::join, 3);
                        }
                        SlashOutcome::Handled
                    }
                },
                None => {
                    self.say("No active session.");
                    SlashOutcome::Handled
                },
            }
        } else {
            self.say("Usage: /todo [add|list|done|remove]");
            SlashOutcome::Handled
        }
    }
}

impl Shell {
    fn data_command(&mut self, w: &Vec<String>, session: &mut Option<SessionState>) -> (out: SlashOutcome)
        ensures
            (final(self).model(), session_view(*final(session)), out@)
                == data_spec(old(self).model(), session_view(*old(session)), strings_view(w@)),
            final(self).theme == old(self).theme,
            same_session_settings(*old(session), *final(session)),
    {
        let ghost wv = strings_view(w@);
        assert(wv.len() == w@.len());
        if w.len() < 2 {
            self.say("Usage: /data [set|get]");
            return SlashOutcome::Handled;
        }
        let sub = word_at(w, 1);
        if str_eq(sub, "set") {
            let key = word_at(w, 2);
            let value = rest_words(w, 3);
            if key.is_empty() {
                self.say("Usage: /data set <key> <value>");
                return SlashOutcome::Handled;
            }
            match session {
                Some(st) => {
                    st.set_text(String::from_str(key), value.as_str());
                    self.say_text(text_of(&[ "Data set: ", key ]));
                    proof {
                        reveal_with_fuel(crate::text::join, 3);
                    }
                    SlashOutcome::SaveSession
                },
                None => {
                    self.say("No active session.");
                    SlashOutcome::Handled
                },
            }
        } else if str_eq(sub, "get") {
            let key = word_at(w, 2);
            if key.is_empty() {
                self.say("Usage: /data get <key>");
                return SlashOutcome::Handled;
            }
            match session {
                Some(st) => {
                    match st.get_data(key) {
                        Some(v) => {
                            self.say_text(text_of(&[ key, " = ", v.as_str() ]));
                            proof {
                                reveal_with_fuel(crate::text::join, 4);
                            }
                        },
                        None => {
                            self.say_text(text_of(&[ "Key not found: ", key ]));
                            proof {
                                reveal_with_fuel(crate::text::join, 3);
                            }
                        },
                    }
                    SlashOutcome::Handled
                },
                None => {
                    self.say("No active session.");
                    SlashOutcome::Handled
                },
            }
        } else {
            self.say("Usage: /data [set|get]");
            SlashOutcome::Handled
        }
    }

    fn notifications_command(&mut self, w: &Vec<String>, notifications: &mut NotificationManager)
        ensures
            (final(self).model(), final(notifications).held())
                == notes_spec(old(self).model(), old(notifications).held(), strings_view(w@)),
            final(notifications).capacity() == old(notifications).capacity(),
            final(self).theme == old(self).theme,
    {
        let ghost wv = strings_view(w@);
        assert(wv.len() == w@.len());
        if w.len() >= 2 && str_eq(w[1].as_str(), "clear") {
            notifications.clear();
            assert(notifications.held() =~= Seq::<NotificationView>::empty());
            self.say("Notifications cleared.");
        } else {
            let notes = notifications.list();
            assert(notes@.len() == notifications.held().len());
            if notes.len() == 0 {
                self.say("No notifications.");
            } else {
                let ls = note_list(&notes);
                self.show_lines(ls);
            }
        }
    }
}

/// Drops the trailing assistant and tool messages, then the user message before them.
fn undo_turn(ms: &mut Vec<Message>)
    ensures
        messages_view(final(ms)@) == undone(messages_view(old(ms)@)),
{
    let ghost replies_gone = drop_replies(messages_view(old(ms)@));
    loop
        invariant
            drop_replies(messages_view(ms@)) == replies_gone,
        ensures
            messages_view(ms@) == replies_gone,
        decreases ms@.len(),
    {
        let n = ms.len();
        if n == 0 {
            break;
        }
        let reply = str_eq(ms[n - 1].role.as_str(), "assistant") || str_eq(ms[n - 1].role.as_str(), "tool");
        assert(messages_view(ms@).last() == ms@[n - 1]@);
        if !reply {
            break;
        }
        let ghost before = messages_view(ms@);
        ms.pop();
        assert(messages_view(ms@) =~= before.drop_last());
    }
    let n = ms.len();
    if n > 0 {
        assert(messages_view(ms@).last() == ms@[n - 1]@);
        if str_eq(ms[n - 1].role.as_str(), "user") {
            let ghost before = messages_view(ms@);
            ms.pop();
            assert(messages_view(ms@) =~= before.drop_last());
        }
    }
}

/// The parts of the shell, the agent, the session and the notifications that the commands act on.
pub open spec fn slash_state(sh: Shell, core: SoulCore, se: Option<SessionState>, nm: NotificationManager) -> SlashState {
    SlashState {
        shell: sh.model(),
        plan_mode: core.plan_mode,
        messages: core.context.messages_view(),
        checkpoints: core.checkpoints.held(),
        issued: core.checkpoints.issued(),
        session: session_view(se),
        notifications: nm.held(),
        note_capacity: nm.capacity(),
    }
}

/// What the commands read from the agent and the subagent records.
pub open spec fn slash_env(core: SoulCore, agents: SubagentStore, tasks: TaskTable) -> SlashEnv {
    SlashEnv {
        tool_names: strings_view(core.tool_names@),
        has_plan: core.pending_plan.is_some(),
        agents: agents.records(),
        capacity: core.checkpoints.capacity(),
        tasks: tasks.tasks(),
    }
}

/// A checkpoint can be numbered: fewer than `u64::MAX` have been taken.
pub open spec fn checkpoint_room(cmd: Seq<char>, core: SoulCore) -> bool {
    word(words(cmd), 0) == "/checkpoint"@ ==> core.checkpoints.issued() < u64::MAX
}

/// What a command needs to show ids: those it lists must be cuttable.
pub open spec fn slash_ids_ok(cmd: Seq<char>, se: Option<SessionState>, agents: SubagentStore, tasks: TaskTable) -> bool {
    let w = words(cmd);
    &&& word(w, 0) == "/tasks"@ ==> forall|i: int| 0 <= i < tasks.tasks().len() ==> task_id_cuttable(
        (#[trigger] tasks.tasks()[i]).id,
    )
    &&& word(w, 0) == "/subagents"@ ==> forall|i: int| 0 <= i < agents.records().len() ==> cuttable(
        (#[trigger] agents.records()[i]).id,
    )
    &&& (word(w, 0) == "/todo"@ && word(w, 1) == "list"@) ==> todo_ids_cuttable(se)
}

/// What a command leaves alone in the agent: everything but plan mode, the conversation and the
/// checkpoints.
pub open spec fn core_frame(old_core: SoulCore, new_core: SoulCore) -> bool {
    &&& new_core.model() == (SoulModel {
        messages: new_core.context.messages_view(),
        plan_mode: new_core.plan_mode,
        ..old_core.model()
    })
    &&& new_core.checkpoints.capacity() == old_core.checkpoints.capacity()
    &&& new_core.thinking == old_core.thinking
    &&& new_core.context.max_tokens == old_core.context.max_tokens
    &&& new_core.context.reserved_tokens == old_core.context.reserved_tokens
}

impl Shell {
    fn screen_command(
        &mut self,
        cmd: &str,
        core: &mut SoulCore,
        session: &mut Option<SessionState>,
        subagents: &SubagentStore,
        tasks: &TaskTable,
        notifications: &mut NotificationManager,
        fresh_id: String,
        w: Vec<String>,
        head: &str,
    ) -> (out: SlashOutcome)
        requires
            subagents.wf(),
            slash_ids_ok(cmd@, *old(session), *subagents, *tasks),
            checkpoint_room(cmd@, *old(core)),
            strings_view(w@) == words(cmd@),
            head@ == word(words(cmd@), 0),
            (head@ == "/quit"@ || head@ == "/q"@ || head@ == "/clear"@ || head@ == "/yolo"@ || head@ == "/safe"@
                || head@ == "/tools"@ || head@ == "/plan"@ || head@ == "/fork"@ || head@ == "/undo"@
                || head@ == "/checkpoint"@ || head@ == "/rollback"@),
        ensures
            (slash_state(*final(self), *final(core), *final(session), *final(notifications)), out@) == slash_spec(
                slash_state(*old(self), *old(core), *old(session), *old(notifications)),
                slash_env(*old(core), *subagents, *tasks),
                cmd@,
                fresh_id@,
            ),
            final(self).theme == old(self).theme,
            core_frame(*old(core), *final(core)),
            final(notifications).capacity() == old(notifications).capacity(),
            same_session_settings(*old(session), *final(session)),
    {
        let ghost st = slash_state(*self, *core, *session, *notifications);
        let ghost env = slash_env(*core, *subagents, *tasks);
        let ghost wv = strings_view(w@);
        assert(wv.len() == w@.len());
        if str_eq(head, "/quit") || str_eq(head, "/q") {
            self.running = false;
            assert(slash_state(*self, *core, *session, *notifications) =~= slash_spec(st, env, cmd@, fresh_id@).0);
            SlashOutcome::Handled
        } else if str_eq(head, "/clear") {
            self.lines = Vec::new();
            self.say("Screen cleared.");
            assert(self.model().lines =~= seq![plain("Screen cleared."@)]);
            assert(slash_state(*self, *core, *session, *notifications) =~= slash_spec(st, env, cmd@, fresh_id@).0);
            SlashOutcome::Handled
        } else if str_eq(head, "/yolo") {
            self.yolo = true;
            self.say("Yolo mode ON (auto-approve).");
            assert(slash_state(*self, *core, *session, *notifications) =~= slash_spec(st, env, cmd@, fresh_id@).0);
            SlashOutcome::Handled
        } else if str_eq(head, "/safe") {
            self.yolo = false;
            self.say("Safe mode ON (approvals required).");
            assert(slash_state(*self, *core, *session, *notifications) =~= slash_spec(st, env, cmd@, fresh_id@).0);
            SlashOutcome::Handled
        } else if str_eq(head, "/tools") {
            let ls = tool_list(&core.tool_names);
            self.show_lines(ls);
            assert(slash_state(*self, *core, *session, *notifications) =~= slash_spec(st, env, cmd@, fresh_id@).0);
            SlashOutcome::Handled
        } else if str_eq(head, "/plan") {
            core.plan_mode = !core.plan_mode;
            self.plan_mode = core.plan_mode;
            if core.plan_mode {
                self.say("Plan mode ON.");
            } else {
                self.say("Plan mode OFF.");
            }
            assert(slash_state(*self, *core, *session, *notifications) =~= slash_spec(st, env, cmd@, fresh_id@).0);
            assert(core.model() =~= (SoulModel { plan_mode: core.plan_mode, ..old(core).model() }));
            SlashOutcome::Handled
        } else if str_eq(head, "/fork") {
            if session.is_some() {
                SlashOutcome::Fork
            } else {
                self.say("No active session to fork.");
                assert(slash_state(*self, *core, *session, *notifications) =~= slash_spec(st, env, cmd@, fresh_id@).0);
                SlashOutcome::Handled
            }
        } else if str_eq(head, "/undo") {
            if core.context.messages.len() > 1 {
                undo_turn(&mut core.context.messages);
                self.say("Last turn undone.");
                assert(core.model() =~= (SoulModel { messages: core.context.messages_view(), ..old(core).model() }));
            } else {
                self.say("Nothing to undo.");
            }
            assert(slash_state(*self, *core, *session, *notifications) =~= slash_spec(st, env, cmd@, fresh_id@).0);
            SlashOutcome::Handled
        } else if str_eq(head, "/checkpoint") {
            let desc = rest_words(&w, 1);
            let d = if desc.as_str().is_empty() { String::from_str("manual checkpoint") } else { desc };
            let id = core.checkpoint(d);
            let msg = checkpoint_notice(id.as_str());
            self.say_text(copy_string(&msg));
            notifications.push(success_notification(id, copy_string(&msg)));
            assert(slash_state(*self, *core, *session, *notifications) =~= slash_spec(st, env, cmd@, fresh_id@).0);
            SlashOutcome::Notify { message: msg }
        } else if str_eq(head, "/rollback") {
            let id = word_at(&w, 1);
            if id.is_empty() {
                self.say("Usage: /rollback <checkpoint_id>");
                assert(slash_state(*self, *core, *session, *notifications) =~= slash_spec(st, env, cmd@, fresh_id@).0);
                SlashOutcome::Handled
            } else if core.rollback(id) {
                let msg = rollback_notice(id);
                self.say_text(copy_string(&msg));
                notifications.push(success_notification(String::from_str(id), copy_string(&msg)));
                assert(slash_state(*self, *core, *session, *notifications) =~= slash_spec(st, env, cmd@, fresh_id@).0);
                SlashOutcome::Notify { message: msg }
            } else {
                self.say_text(text_of(&[ "Checkpoint not found: ", id ]));
                proof {
                    reveal_with_fuel(crate::text::join, 3);
                }
                assert(slash_state(*self, *core, *session, *notifications) =~= slash_spec(st, env, cmd@, fresh_id@).0);
                SlashOutcome::Handled
            }
        } else {
            proof { assert(false); }
            SlashOutcome::Handled
        }
    }

    fn report_command(
        &mut self,
        cmd: &str,
        core: &mut SoulCore,
        session: &mut Option<SessionState>,
        subagents: &SubagentStore,
        tasks: &TaskTable,
        notifications: &mut NotificationManager,
        fresh_id: String,
        w: Vec<String>,
        head: &str,
    ) -> (out: SlashOutcome)
        requires
            subagents.wf(),
            slash_ids_ok(cmd@, *old(session), *subagents, *tasks),
            checkpoint_room(cmd@, *old(core)),
            strings_view(w@) == words(cmd@),
            head@ == word(words(cmd@), 0),
            (head@ == "/tasks"@ || head@ == "/btw"@ || head@ == "/execute"@ || head@ == "/subagents"@
                || head@ == "/notifications"@),
            !(head@ == "/quit"@ || head@ == "/q"@ || head@ == "/clear"@ || head@ == "/yolo"@ || head@ == "/safe"@
                || head@ == "/tools"@ || head@ == "/plan"@ || head@ == "/fork"@ || head@ == "/undo"@
                || head@ == "/checkpoint"@ || head@ == "/rollback"@),
        ensures
            (slash_state(*final(self), *final(core), *final(session), *final(notifications)), out@) == slash_spec(
                slash_state(*old(self), *old(core), *old(session), *old(notifications)),
                slash_env(*old(core), *subagents, *tasks),
                cmd@,
                fresh_id@,
            ),
            final(self).theme == old(self).theme,
            core_frame(*old(core), *final(core)),
            final(notifications).capacity() == old(notifications).capacity(),
            same_session_settings(*old(session), *final(session)),
    {
        let ghost st = slash_state(*self, *core, *session, *notifications);
        let ghost env = slash_env(*core, *subagents, *tasks);
        let ghost wv = strings_view(w@);
        assert(wv.len() == w@.len());
        if str_eq(head, "/tasks") {
            let list = tasks.list_tasks();
            if list.len() == 0 {
                self.say("No background tasks.");
            } else {
                assert forall|i: int| 0 <= i < list@.len() implies task_id_cuttable((#[trigger] list@[i])@.id) by {
                    assert(crate::background::tasks_view(list@)[i] == list@[i]@);
                    assert(tasks.tasks()[i] == list@[i]@);
                }
                let ls = task_list(&list);
                self.show_lines(ls);
            }
            assert(slash_state(*self, *core, *session, *notifications) =~= slash_spec(st, env, cmd@, fresh_id@).0);
            SlashOutcome::Handled
        } else if str_eq(head, "/btw") {
            let question = rest_words(&w, 1);
            if question.as_str().is_empty() {
                self.say("Usage: /btw <question>");
                assert(slash_state(*self, *core, *session, *notifications) =~= slash_spec(st, env, cmd@, fresh_id@).0);
                SlashOutcome::Handled
            } else {
                self.push_line(LineKind::Btw, copy_string(&question));
                assert(slash_state(*self, *core, *session, *notifications) =~= slash_spec(st, env, cmd@, fresh_id@).0);
                SlashOutcome::Ask { question }
            }
        } else if str_eq(head, "/execute") {
            if core.pending_plan.is_some() {
                self.thinking = true;
                assert(slash_state(*self, *core, *session, *notifications) =~= slash_spec(st, env, cmd@, fresh_id@).0);
                SlashOutcome::Execute
            } else {
                self.say("No pending plan to execute.");
                assert(slash_state(*self, *core, *session, *notifications) =~= slash_spec(st, env, cmd@, fresh_id@).0);
                SlashOutcome::Handled
            }
        } else if str_eq(head, "/subagents") {
            let agents = subagents.list();
            if agents.len() == 0 {
                self.say("No subagents recorded.");
            } else {
                assert(agents@.map_values(|a: &SubagentRecord| a@) =~= subagents.records());
                let ls = agent_list(&agents);
                self.show_lines(ls);
            }
            assert(slash_state(*self, *core, *session, *notifications) =~= slash_spec(st, env, cmd@, fresh_id@).0);
            SlashOutcome::Handled
        } else if str_eq(head, "/notifications") {
            self.notifications_command(&w, notifications);
            assert(slash_state(*self, *core, *session, *notifications) =~= slash_spec(st, env, cmd@, fresh_id@).0);
            SlashOutcome::Handled
        } else {
            proof { assert(false); }
            SlashOutcome::Handled
        }
    }

    fn session_command(
        &mut self,
        cmd: &str,
        core: &mut SoulCore,
        session: &mut Option<SessionState>,
        subagents: &SubagentStore,
        tasks: &TaskTable,
        notifications: &mut NotificationManager,
        fresh_id: String,
        w: Vec<String>,
        head: &str,
    ) -> (out: SlashOutcome)
        requires
            subagents.wf(),
            slash_ids_ok(cmd@, *old(session), *subagents, *tasks),
            checkpoint_room(cmd@, *old(core)),
            strings_view(w@) == words(cmd@),
            head@ == word(words(cmd@), 0),
            !(head@ == "/quit"@ || head@ == "/q"@ || head@ == "/clear"@ || head@ == "/yolo"@ || head@ == "/safe"@
                || head@ == "/tools"@ || head@ == "/plan"@ || head@ == "/fork"@ || head@ == "/undo"@
                || head@ == "/checkpoint"@ || head@ == "/rollback"@ || head@ == "/tasks"@ || head@ == "/btw"@
                || head@ == "/execute"@ || head@ == "/subagents"@ || head@ == "/notifications"@),
        ensures
            (slash_state(*final(self), *final(core), *final(session), *final(notifications)), out@) == slash_spec(
                slash_state(*old(self), *old(core), *old(session), *old(notifications)),
                slash_env(*old(core), *subagents, *tasks),
                cmd@,
                fresh_id@,
            ),
            final(self).theme == old(self).theme,
            core_frame(*old(core), *final(core)),
            final(notifications).capacity() == old(notifications).capacity(),
            same_session_settings(*old(session), *final(session)),
    {
        let ghost st = slash_state(*self, *core, *session, *notifications);
        let ghost env = slash_env(*core, *subagents, *tasks);
        let ghost wv = strings_view(w@);
        assert(wv.len() == w@.len());
        if str_eq(head, "/todo") {
            let out = self.todo_command(&w, session, fresh_id);
            assert(slash_state(*self, *core, *session, *notifications) =~= slash_spec(st, env, cmd@, fresh_id@).0);
            out
        } else if str_eq(head, "/archive") {
            match session {
                Some(state) => {
                    if state.archive.len() == 0 {
                        self.say("No archived turns.");
                    } else {
                        let ls = archive_list(&state.archive);
                        self.show_lines(ls);
                    }
                },
                None => {
                    self.say("No active session.");
                },
            }
            assert(slash_state(*self, *core, *session, *notifications) =~= slash_spec(st, env, cmd@, fresh_id@).0);
            SlashOutcome::Handled
        } else if str_eq(head, "/data") {
            let out = self.data_command(&w, session);
            assert(slash_state(*self, *core, *session, *notifications) =~= slash_spec(st, env, cmd@, fresh_id@).0);
            out
        } else if str_eq(head, "/help") {
            let ls = help_list();
            self.show_lines(ls);
            assert(slash_state(*self, *core, *session, *notifications) =~= slash_spec(st, env, cmd@, fresh_id@).0);
            SlashOutcome::Handled
        } else {
            self.say_text(text_of(&[ "Unknown command: ", cmd ]));
            proof {
                reveal_with_fuel(crate::text::join, 3);
            }
            assert(slash_state(*self, *core, *session, *notifications) =~= slash_spec(st, env, cmd@, fresh_id@).0);
            SlashOutcome::Handled
        }
    }

    /// Runs a slash command, as `slash_spec` says; a new todo gets the id `fresh_id`.
    pub fn run_slash_command(
        &mut self,
        cmd: &str,
        core: &mut SoulCore,
        session: &mut Option<SessionState>,
        subagents: &SubagentStore,
        tasks: &TaskTable,
        notifications: &mut NotificationManager,
        fresh_id: String,
    ) -> (out: SlashOutcome)
        requires
            subagents.wf(),
            slash_ids_ok(cmd@, *old(session), *subagents, *tasks),
            checkpoint_room(cmd@, *old(core)),
        ensures
            (slash_state(*final(self), *final(core), *final(session), *final(notifications)), out@) == slash_spec(
                slash_state(*old(self), *old(core), *old(session), *old(notifications)),
                slash_env(*old(core), *subagents, *tasks),
                cmd@,
                fresh_id@,
            ),
            final(self).theme == old(self).theme,
            core_frame(*old(core), *final(core)),
            final(notifications).capacity() == old(notifications).capacity(),
            same_session_settings(*old(session), *final(session)),
    {
        let w = split_words(cmd);
        let head = String::from_str(word_at(&w, 0));
        let h = head.as_str();
        if str_eq(h, "/quit") || str_eq(h, "/q") || str_eq(h, "/clear") || str_eq(h, "/yolo") || str_eq(h, "/safe")
            || str_eq(h, "/tools") || str_eq(h, "/plan") || str_eq(h, "/fork") || str_eq(h, "/undo")
            || str_eq(h, "/checkpoint") || str_eq(h, "/rollback") {
            self.screen_command(cmd, core, session, subagents, tasks, notifications, fresh_id, w, h)
        } else if str_eq(h, "/tasks") || str_eq(h, "/btw") || str_eq(h, "/execute") || str_eq(h, "/subagents")
            || str_eq(h, "/notifications") {
            self.report_command(cmd, core, session, subagents, tasks, notifications, fresh_id, w, h)
        } else {
            self.session_command(cmd, core, session, subagents, tasks, notifications, fresh_id, w, h)
        }
    }
}

pub open spec fn result_text(r: Result<String, String>) -> Result<Seq<char>, Seq<char>> {
    match r {
        Ok(t) => Ok(t@),
        Err(e) => Err(e@),
    }
}

/// What the shell shows once a fork is done: the new session's id, or why it failed.
pub open spec fn fork_report(s: ShellView, r: Result<Seq<char>, Seq<char>>) -> ShellView {
    match r {
        Ok(id) => say(s, "Forked to new session: "@ + id),
        Err(e) => say(s, "Fork failed: "@ + e),
    }
}

/// What the shell shows once the pending plan ran: the answer line by line, or the error.
pub open spec fn execute_report(s: ShellView, r: Result<Seq<char>, Seq<char>>) -> ShellView {
    let t = ShellView { thinking: false, ..s };
    match r {
        Ok(answer) => show(t, lines_of(LineKind::Assistant, answer)),
        Err(e) => ShellView { lines: t.lines.push(line(LineKind::Error, e)), ..t },
    }
}

impl Shell {
    /// Runs a slash command, as `slash_spec` says, a new todo getting a fresh random id.
    pub fn handle_slash_command(
        &mut self,
        cmd: &str,
        core: &mut SoulCore,
        session: &mut Option<SessionState>,
        subagents: &SubagentStore,
        tasks: &TaskTable,
        notifications: &mut NotificationManager,
    ) -> (out: SlashOutcome)
        requires
            subagents.wf(),
            slash_ids_ok(cmd@, *old(session), *subagents, *tasks),
            checkpoint_room(cmd@, *old(core)),
        ensures
            exists|fresh: Seq<char>|
                (slash_state(*final(self), *final(core), *final(session), *final(notifications)), out@)
                    == #[trigger] slash_spec(
                    slash_state(*old(self), *old(core), *old(session), *old(notifications)),
                    slash_env(*old(core), *subagents, *tasks),
                    cmd@,
                    fresh,
                ),
            final(self).theme == old(self).theme,
            core_frame(*old(core), *final(core)),
            final(notifications).capacity() == old(notifications).capacity(),
            same_session_settings(*old(session), *final(session)),
    {
        let fresh = new_id();
        let ghost f = fresh@;
        let out = self.run_slash_command(cmd, core, session, subagents, tasks, notifications, fresh);
        assert((slash_state(*self, *core, *session, *notifications), out@) == slash_spec(
            slash_state(*old(self), *old(core), *old(session), *old(notifications)),
            slash_env(*old(core), *subagents, *tasks),
            cmd@,
            f,
        ));
        out
    }

    /// Reports the end of a fork: the new session's id, or the error.
    pub fn fork_finished(&mut self, result: Result<String, String>)
        ensures
            final(self).model() == fork_report(old(self).model(), result_text(result)),
            final(self).theme == old(self).theme,
    {
        match result {
            Ok(id) => {
                self.say_text(text_of(&[ "Forked to new session: ", id.as_str() ]));
                proof {
                    reveal_with_fuel(crate::text::join, 3);
                }
            },
            Err(e) => {
                self.say_text(text_of(&[ "Fork failed: ", e.as_str() ]));
                proof {
                    reveal_with_fuel(crate::text::join, 3);
                }
            },
        }
    }

    /// Reports the run of the pending plan: its answer, or the error.
    pub fn execute_finished(&mut self, result: Result<String, String>)
        ensures
            final(self).model() == execute_report(old(self).model(), result_text(result)),
            final(self).theme == old(self).theme,
    {
        self.thinking = false;
        match result {
            Ok(answer) => {
                self.push_text_lines(LineKind::Assistant, answer.as_str());
            },
            Err(e) => {
                self.push_line(LineKind::Error, e);
            },
        }
    }
}

/// Law: undoing a turn removes the whole last turn and nothing before it: what is left is a
/// beginning of the conversation, and what is removed is at most one user message followed only by
/// assistant and tool messages; a conversation ending with a user, assistant or tool message loses
/// at least that message.
pub proof fn lemma_undo_removes_last_turn(ms: Seq<MessageView>)
    ensures
        undone(ms).len() <= ms.len(),
        undone(ms) == ms.subrange(0, undone(ms).len() as int),
        forall|j: int| undone(ms).len() < j < ms.len() ==> (#[trigger] ms[j]).role == "assistant"@
            || ms[j].role == "tool"@,
        undone(ms).len() < ms.len() ==> ms[undone(ms).len() as int].role == "user"@
            || ms[undone(ms).len() as int].role == "assistant"@ || ms[undone(ms).len() as int].role == "tool"@,
        ms.len() > 0 && (ms.last().role == "user"@ || ms.last().role == "assistant"@ || ms.last().role == "tool"@)
            ==> undone(ms).len() < ms.len(),
{
    lemma_drop_replies(ms);
    let r = drop_replies(ms);
    if r.len() > 0 && r.last().role == "user"@ {
        assert(r.drop_last() =~= ms.subrange(0, r.len() - 1));
        assert(ms[r.len() - 1] == r.last());
    }
}

proof fn lemma_drop_replies(ms: Seq<MessageView>)
    ensures
        drop_replies(ms).len() <= ms.len(),
        drop_replies(ms) == ms.subrange(0, drop_replies(ms).len() as int),
        drop_replies(ms).len() > 0 ==> drop_replies(ms).last().role != "assistant"@ && drop_replies(ms).last().role != "tool"@,
        forall|j: int| drop_replies(ms).len() <= j < ms.len() ==> (#[trigger] ms[j]).role == "assistant"@
            || ms[j].role == "tool"@,
    decreases ms.len(),
{
    if ms.len() > 0 && (ms.last().role == "assistant"@ || ms.last().role == "tool"@) {
        lemma_drop_replies(ms.drop_last());
        assert(ms.drop_last().subrange(0, drop_replies(ms).len() as int) =~= ms.subrange(0, drop_replies(ms).len() as int));
        assert forall|j: int| drop_replies(ms).len() <= j < ms.len() implies (#[trigger] ms[j]).role == "assistant"@
            || ms[j].role == "tool"@ by {
            if j < ms.len() - 1 {
                assert(ms.drop_last()[j] == ms[j]);
            }
        }
    } else {
        assert(ms.subrange(0, ms.len() as int) =~= ms);
    }
}

/// Law: the `/plan` command switched twice gives back the plan mode of the agent and of the
/// shell.
pub proof fn lemma_plan_twice(st: SlashState, env: SlashEnv, cmd: Seq<char>, fresh: Seq<char>)
    requires
        word(words(cmd), 0) == "/plan"@,
        st.shell.plan_mode == st.plan_mode,
    ensures
        slash_spec(slash_spec(st, env, cmd, fresh).0, env, cmd, fresh).0.plan_mode == st.plan_mode,
        slash_spec(slash_spec(st, env, cmd, fresh).0, env, cmd, fresh).0.shell.plan_mode == st.plan_mode,
        slash_spec(slash_spec(st, env, cmd, fresh).0, env, cmd, fresh).0.messages == st.messages,
{
    reveal_strlit("/plan");
    reveal_strlit("/quit");
    reveal_strlit("/q");
    reveal_strlit("/clear");
    reveal_strlit("/yolo");
    reveal_strlit("/safe");
    reveal_strlit("/tools");
    let p = "/plan"@;
    assert(p[1] == 'p');
    assert("/quit"@[1] == 'q');
    assert(p != "/quit"@);
    assert(p.len() != "/q"@.len());
    assert(p.len() != "/clear"@.len());
    assert("/yolo"@[1] == 'y' && p != "/yolo"@);
    assert("/safe"@[1] == 's' && p != "/safe"@);
    assert(p.len() != "/tools"@.len());
}

/// Law: a listed todo shows `[x]` exactly when it is done and `[ ]` otherwise, then its short id
/// and its text.
pub proof fn lemma_todo_line_marks_done(t: TodoView)
    ensures
        todo_line(t).kind == LineKind::Plain,
        todo_line(t).text[3] == 'x' <==> t.done,
        todo_line(t).text[3] == ' ' <==> !t.done,
        todo_line(t).text.subrange(0, 6) == (if t.done { "  [x] "@ } else { "  [ ] "@ }),
        todo_line(t).text.subrange(6, todo_line(t).text.len() as int) == short_id(t.id) + " - "@ + t.text,
{
    reveal_strlit("  ");
    reveal_strlit("[x]");
    reveal_strlit("[ ]");
    reveal_strlit(" ");
    reveal_strlit("  [x] ");
    reveal_strlit("  [ ] ");
    let text = todo_line(t).text;
    let mark = if t.done { "[x]"@ } else { "[ ]"@ };
    assert(text =~= "  "@ + mark + " "@ + (short_id(t.id) + " - "@ + t.text));
    assert(text.subrange(0, 6) =~= "  "@ + mark + " "@);
    assert(text.subrange(6, text.len() as int) =~= short_id(t.id) + " - "@ + t.text);
}

/// Law: `/todo list` on a session with todos adds the line `Todos:` and then one line per todo, in
/// order, marked `[x]` exactly when that todo is done; the session is left as it was.
pub proof fn lemma_todo_list_shows_done(s: ShellView, v: SessionView, fresh: Seq<char>)
    requires
        v.todos.len() > 0,
    ensures
        ({
            let (s2, se2, out) = todo_spec(s, Some(v), seq!["/todo"@, "list"@], fresh);
            &&& se2 == Some(v)
            &&& out == SlashOutcomeView::Handled
            &&& s2.lines.len() == s.lines.len() + 1 + v.todos.len()
            &&& s2.lines.subrange(0, s.lines.len() as int) == s.lines
            &&& s2.lines[s.lines.len() as int] == plain("Todos:"@)
            &&& forall|i: int| 0 <= i < v.todos.len() ==> {
                &&& (#[trigger] s2.lines[s.lines.len() + 1 + i]).text[3] == 'x' <==> v.todos[i].done
                &&& s2.lines[s.lines.len() + 1 + i].text.subrange(6, s2.lines[s.lines.len() + 1 + i].text.len() as int)
                    == short_id(v.todos[i].id) + " - "@ + v.todos[i].text
            }
        }),
{
    reveal_strlit("list");
    let w = seq!["/todo"@, "list"@];
    assert(word(w, 1) == "list"@);
    let (s2, se2, out) = todo_spec(s, Some(v), w, fresh);
    assert("list"@ != "add"@) by {
        reveal_strlit("add");
        assert("list"@.len() != "add"@.len());
    }
    assert(s2.lines.subrange(0, s.lines.len() as int) =~= s.lines);
    assert forall|i: int| 0 <= i < v.todos.len() implies {
        &&& (#[trigger] s2.lines[s.lines.len() + 1 + i]).text[3] == 'x' <==> v.todos[i].done
        &&& s2.lines[s.lines.len() + 1 + i].text.subrange(6, s2.lines[s.lines.len() + 1 + i].text.len() as int)
            == short_id(v.todos[i].id) + " - "@ + v.todos[i].text
    } by {
        assert(s2.lines[s.lines.len() + 1 + i] == todo_line(v.todos[i]));
        lemma_todo_line_marks_done(v.todos[i]);
    }
}

} // verus!
