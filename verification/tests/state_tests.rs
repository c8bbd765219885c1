use mekai::mcp::{McpServerConfig, McpServers};
use mekai::session::SessionState;
use mekai::subagents::{record, SubagentStore};
use mekai::vis::{SessionEntry, VisKey, Visualizer};
use mekai::wire::WireEvent;

fn entry(id: &str, title: &str) -> SessionEntry {
    SessionEntry { id: id.to_string(), title: title.to_string(), updated_at: String::new(), path: String::new() }
}

#[test]
fn moving_up_then_down_returns_to_the_session() {
    let mut vis = Visualizer::new();
    vis.sessions = vec![entry("aaaaaaaa-1", "first"), entry("bbbbbbbb-2", "second"), entry("cccccccc-3", "third")];
    assert_eq!(vis.on_key(VisKey::Down), Some(1));
    assert_eq!(vis.on_key(VisKey::Up), Some(0));
    assert_eq!(vis.on_key(VisKey::Up), None);
    assert_eq!(vis.on_key(VisKey::Down), Some(1));
    assert_eq!(vis.selected, 1);
    assert_eq!(vis.events_title(), "Events (second)");
    assert_eq!(vis.session_prefix(2), "cccccccc ");
    vis.show_events(vec![WireEvent::TurnBegin { turn: 1 }, WireEvent::CompactionEnd]);
    assert_eq!(vis.event_lines(), vec!["[TurnBegin] turn=1".to_string(), "[CompactionEnd]".to_string()]);
    assert_eq!(vis.on_key(VisKey::Tab), None);
    assert_eq!(vis.on_key(VisKey::Down), None);
    assert_eq!(vis.event_selected, 1);
    assert_eq!(vis.on_key(VisKey::Quit), None);
    assert!(!vis.running);
}

#[test]
fn subagent_records_are_replaced_and_removed() {
    let mut store = SubagentStore::new();
    store.insert(record("s1", "coder", "running"));
    store.insert(record("s2", "plan", "running"));
    store.insert(record("s1", "coder", "completed"));
    assert_eq!(store.get("s1").unwrap().status, "completed");
    assert_eq!(store.list().len(), 2);
    let removed = store.remove("s1").unwrap();
    assert_eq!(removed.status, "completed");
    assert!(store.get("s1").is_none());
    assert!(store.remove("s1").is_none());
    assert_eq!(store.get("s2").unwrap().agent_type, "plan");
}

#[test]
fn custom_data_reads_back_what_was_set() {
    let mut state = SessionState::new();
    state.set_data("k".to_string(), "1".to_string());
    state.set_data("j".to_string(), "2".to_string());
    state.set_data("k".to_string(), "3".to_string());
    assert_eq!(state.get_data("k").map(|s| s.as_str()), Some("3"));
    assert_eq!(state.get_data("j").map(|s| s.as_str()), Some("2"));
    assert_eq!(state.get_data("x"), None);
    assert_eq!(state.custom_data.len(), 2);
}

fn server(cmd: &str) -> McpServerConfig {
    McpServerConfig { command: cmd.to_string(), args: vec![], env: vec![] }
}

#[test]
fn an_added_server_can_be_removed() {
    let mut servers = McpServers::new();
    servers.insert("a".to_string(), server("one"));
    servers.insert("b".to_string(), server("two"));
    servers.insert("a".to_string(), server("three"));
    assert_eq!(servers.servers.len(), 2);
    assert_eq!(servers.servers[0].1.command, "three");
    assert!(servers.remove("a"));
    assert!(!servers.remove("a"));
    assert_eq!(servers.servers.len(), 1);
    assert_eq!(servers.servers[0].0, "b");
}
