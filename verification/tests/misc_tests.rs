use mekai::agentspec::{agent_file_candidates, find_agent_file, resolve_tools, AgentSpec};
use mekai::approval::{ApprovalPolicy, PendingApprovals};
use mekai::config::HookDef;
use mekai::hooks::{hook_timed_out, hook_timeout, HookEngine};
use mekai::mcp::{read_reply, McpServerConfig, McpServers};
use mekai::metadata::Metadata;
use mekai::paths::{is_within_directory, join_path, sanitize_path};
use mekai::plugin::{classify_source, install_action, plugin_tool_result, ArchiveFormat, InstallAction, PluginSource};
use mekai::print::{event_line, turn_begin_line, Print, PrintLine};
use mekai::skill::{add_skill, extract_description, make_skill, skill_dirs};
use mekai::soul::SoulEvent;
use mekai::startup::{
    agents_md_candidates, ancestor_dirs, apply_loop_overrides, build_system_prompt, find_agents_md, choose_model_name, format_time_ago, i64_to_string, merge_skill_dirs,
    program_name, resolve_thinking, session_line, split_server_command, ui_mode, UiMode,
};
use mekai::soul::LoopLimits;
use mekai::subagents::{background_started, finish_background, finish_foreground, start_subagent, LaborMarket, SubagentStore};
use mekai::tools::{agent_step, builtin_tool_names, think, AgentStep, ArgValue, ThinkTool};

fn v(items: &[&str]) -> Vec<String> {
    items.iter().map(|s| s.to_string()).collect()
}

#[test]
fn system_prompt_and_time_ago() {
    assert_eq!(
        build_system_prompt("/w", "default"),
        "You are Mekai, a helpful CLI agent.\n\nCurrent working directory: /w\n\nYou have access to tools. Use them when helpful. Always respond in the same language as the user's query."
    );
    assert!(build_system_prompt("/w", "bob").starts_with("You are bob, a helpful CLI agent."));
    assert_eq!(format_time_ago(200000), "2d ago");
    assert_eq!(format_time_ago(7200), "2h ago");
    assert_eq!(format_time_ago(61), "1m ago");
    assert_eq!(format_time_ago(59), "just now");
    assert_eq!(format_time_ago(-5), "just now");
    assert_eq!(i64_to_string(-32601), "-32601");
}

#[test]
fn startup_choices() {
    assert_eq!(choose_model_name(None, Some("k2")), "k2");
    assert_eq!(choose_model_name(Some("a"), Some("k2")), "a");
    assert_eq!(choose_model_name(None, None), "kimi");
    assert_eq!(ui_mode(false, true, true, false), UiMode::Print);
    assert_eq!(ui_mode(false, false, false, true), UiMode::Wire);
    assert!(resolve_thinking(None, Some(true), Some(false)));
    assert!(!resolve_thinking(Some(false), Some(true), Some(true)));
    let l = apply_loop_overrides(LoopLimits { max_steps_per_turn: 1, max_retries_per_step: 2, max_ralph_iterations: 3 }, Some(9), None, None);
    assert_eq!((l.max_steps_per_turn, l.max_retries_per_step, l.max_ralph_iterations), (9, 2, 3));
    let mut dirs = v(&["a", "b"]);
    merge_skill_dirs(&mut dirs, &v(&["b", "c", "c"]));
    assert_eq!(dirs, v(&["a", "b", "c"]));
    assert_eq!(program_name("mekai.exe"), "mekai");
    assert_eq!(program_name("mekai"), "mekai");
    let (cmd, args) = split_server_command(" npx  server --port 1 ");
    assert_eq!(cmd, "npx");
    assert_eq!(args, v(&["server", "--port", "1"]));
    assert_eq!(session_line(0, "T", "0123456789", "1h ago"), "  1. T (01234567) - 1h ago");
}

#[test]
fn paths() {
    assert_eq!(join_path("/a", "b"), "/a/b");
    assert_eq!(join_path("/a/", "b"), "/a/b");
    assert_eq!(join_path("", "b"), "b");
    assert!(is_within_directory(Some("/home/u/p/x"), Some("/home/u/p")));
    assert!(is_within_directory(Some("/home/u/p"), Some("/home/u/p")));
    assert!(!is_within_directory(Some("/home/u/px"), Some("/home/u/p")));
    assert!(!is_within_directory(None, Some("/")));
    let s = sanitize_path("../etc/passwd");
    assert!(!s.contains('/'));
    assert_ne!(s, "../etc/passwd");
    let c = agent_file_candidates("/w");
    assert_eq!(c, v(&["/w/.mekai/agent.yaml", "/w/.mekai/agent.yml", "/w/agent.yaml", "/w/agent.yml"]));
    assert_eq!(find_agent_file("/w", &vec![false, false, true, true]), Some("/w/agent.yaml".to_string()));
    assert_eq!(find_agent_file("/w", &vec![false; 4]), None);
    let up = ancestor_dirs("/a/b");
    assert_eq!(up, v(&["/a/b", "/a", "/"]));
    let md = agents_md_candidates(&up);
    assert_eq!(md, v(&["/a/b/AGENTS.md", "/a/AGENTS.md", "/AGENTS.md"]));
    assert_eq!(find_agents_md(&md, &vec![false, true, true]), Some("/a/AGENTS.md".to_string()));
    assert_eq!(find_agents_md(&md, &vec![false, false, false]), None);
}

#[test]
fn agent_specs_and_skills() {
    let d = AgentSpec::builtin_default();
    assert_eq!(d.name, "default");
    assert_eq!(resolve_tools(&vec![], &v(&["A", "B"])), v(&["A", "B"]));
    assert_eq!(resolve_tools(&v(&["B", "Z", "A"]), &v(&["A", "B"])), v(&["B", "A"]));
    assert_eq!(extract_description("## My skill \nbody"), "My skill");
    assert_eq!(extract_description(""), "");
    let mut skills = vec![];
    add_skill(&mut skills, make_skill("x".to_string(), "# One".to_string(), "p1".to_string()));
    add_skill(&mut skills, make_skill("x".to_string(), "# Two".to_string(), "p2".to_string()));
    assert_eq!(skills.len(), 1);
    assert_eq!(skills[0].description, "Two");
    let dirs = skill_dirs(Some("/bin"), Some("/h"), &v(&["/extra"]));
    assert_eq!(dirs[0], "/bin/skills");
    assert_eq!(dirs[1], "/h/.mekai/skills");
    assert_eq!(dirs[4], ".mekai/skills");
    assert_eq!(dirs.last().unwrap(), "/extra");
}

#[test]
fn approvals_and_hooks() {
    let mut p = ApprovalPolicy::new();
    assert!(!p.is_auto_approved("Shell"));
    p.set_per_action("Shell".to_string(), true);
    p.set_per_action("WriteFile".to_string(), false);
    assert!(p.is_auto_approved("Shell"));
    assert!(!p.is_auto_approved("WriteFile"));
    p.set_yolo(true);
    assert!(p.is_auto_approved("WriteFile"));
    assert_eq!(p.get_per_action().len(), 2);
    let mut q = PendingApprovals::new();
    q.register("r1".to_string());
    assert!(q.has_pending());
    assert!(!q.resolve("r2"));
    assert!(q.resolve("r1"));
    assert!(!q.has_pending());
    let hooks = vec![
        HookDef { event: "prompt".to_string(), matcher: None, command: "a".to_string(), timeout: None },
        HookDef { event: "tool".to_string(), matcher: Some("Shell".to_string()), command: "b".to_string(), timeout: Some(5) },
        HookDef { event: "tool".to_string(), matcher: Some("Think".to_string()), command: "c".to_string(), timeout: None },
    ];
    let e = HookEngine::new(hooks);
    assert_eq!(e.matching("tool", "Shell"), vec![1]);
    assert_eq!(e.matching("prompt", "anything"), vec![0]);
    assert_eq!(hook_timeout(&e.hooks[0]), 30);
    assert_eq!(hook_timed_out(&e.hooks[1]), "hook error: Hook timed out: b");
}

#[test]
fn tools_and_subagents() {
    assert_eq!(builtin_tool_names().len(), 10);
    assert_eq!(ThinkTool.name(), "Think");
    let args = vec![("thoughts".to_string(), ArgValue::Text("hmm".to_string()))];
    assert_eq!(think(&args).unwrap(), "Thoughts recorded: hmm");
    assert_eq!(think(&vec![]).unwrap_err(), "tool error: Missing 'thoughts' argument");
    let args = vec![("type".to_string(), ArgValue::Text("spy".to_string())), ("task".to_string(), ArgValue::Text("t".to_string()))];
    match agent_step(&args, true, &builtin_tool_names()).unwrap() {
        AgentStep::Reply(r) => assert_eq!(r, "Unknown subagent type: spy. Available: explore, coder, plan"),
        other => panic!("unexpected {:?}", other),
    }
    let args = vec![("type".to_string(), ArgValue::Text("coder".to_string())), ("task".to_string(), ArgValue::Text("fix".to_string()))];
    match agent_step(&args, true, &builtin_tool_names()).unwrap() {
        AgentStep::Run { kind, task, prompt, tools } => {
            assert_eq!(kind.name, "coder");
            assert_eq!(task, "fix");
            assert!(prompt.ends_with("Your task: fix\n\nBe concise. Focus only on the assigned task."));
            assert_eq!(tools, v(&["ReadFile", "WriteFile", "Shell"]));
        },
        other => panic!("unexpected {:?}", other),
    }
    match agent_step(&args, false, &builtin_tool_names()).unwrap() {
        AgentStep::Reply(r) => assert_eq!(r, "LLM provider not available for subagent"),
        other => panic!("unexpected {:?}", other),
    }
    let market = LaborMarket::new();
    assert_eq!(market.types.len(), 3);
    let mut store = SubagentStore::new();
    let coder = market.get("coder").unwrap();
    let r = finish_foreground(&mut store, "id1", coder, "t", Ok("r".to_string()));
    assert_eq!(r, "Subagent 'coder' completed task:\n---\nt\n---\nResult:\nr");
    assert_eq!(store.get("id1").unwrap().status, "completed");
}

#[test]
fn plugins_mcp_metadata_and_print() {
    match classify_source("https://x.org/p/tool.tar.gz") {
        PluginSource::Archive { name, format } => {
            assert_eq!(name, "tool");
            assert_eq!(format, ArchiveFormat::TarGz);
        },
        other => panic!("unexpected {:?}", other),
    }
    match classify_source("git@github.com:me/repo.git") {
        PluginSource::Git { name } => assert_eq!(name, "repo"),
        other => panic!("unexpected {:?}", other),
    }
    assert!(matches!(classify_source("./local"), PluginSource::Local));
    let src = classify_source("https://x.org/a.rar");
    assert_eq!(install_action(&src, "a.rar", false, false).unwrap_err(), "Unsupported archive format. Use .zip or .tar.gz");
    assert_eq!(install_action(&src, "a.rar", true, false).unwrap_err(), "Plugin a.rar already exists");
    assert_eq!(install_action(&PluginSource::Local, "l", false, true), Ok(InstallAction::Copy));
    assert_eq!(plugin_tool_result("p", true, " out \n", "").unwrap(), "out");
    let mut servers = McpServers::new();
    servers.insert("s".to_string(), McpServerConfig { command: "c".to_string(), args: vec![], env: vec![] });
    servers.insert("s".to_string(), McpServerConfig { command: "d".to_string(), args: vec![], env: vec![] });
    assert_eq!(servers.servers.len(), 1);
    assert!(servers.remove("s"));
    assert!(!servers.remove("s"));
    assert_eq!(read_reply(Some((-1, "bad".to_string())), None).unwrap_err(), "MCP error: -1: bad");
    assert_eq!(read_reply(None, None).unwrap_err(), "MCP error: Empty response");
    let mut m = Metadata::new();
    m.set_last_session("/w".to_string(), "s1".to_string());
    m.set_last_session("/w".to_string(), "s2".to_string());
    assert_eq!(m.last_session_id("/w"), Some("s2".to_string()));
    assert_eq!(m.last_session_id("/x"), None);
    let p = Print::new("text".to_string(), "stream-json".to_string(), false);
    assert!(p.streams_json());
    assert_eq!(p.answer_line("hi"), "Assistant: hi");
    assert_eq!(turn_begin_line("a\"b"), "{\"type\": \"turn_begin\", \"input\": \"a\\\"b\"}");
    match event_line(&SoulEvent::ToolResult { call_id: "c\"1".to_string(), output: "o".to_string() }) {
        PrintLine::Stdout(s) => assert_eq!(s, "{\"type\": \"tool_result\", \"call_id\": \"c\\\"1\", \"output\": \"o\"}"),
        other => panic!("unexpected {:?}", other),
    }
}

#[test]
fn a_background_run_reads_running_then_its_outcome() {
    let market = LaborMarket::new();
    let mut store = SubagentStore::new();
    let explore = market.get("explore").unwrap();
    let coder = market.get("coder").unwrap();
    start_subagent(&mut store, "bg1", explore);
    assert_eq!(background_started(explore, "look", "bg1"), "Background subagent explore started for task: look (id: bg1)");
    start_subagent(&mut store, "bg2", coder);
    let r = store.get("bg1").unwrap();
    assert_eq!((r.agent_type.as_str(), r.status.as_str()), ("explore", "running"));
    finish_background(&mut store, "bg1", explore, false);
    finish_background(&mut store, "bg2", coder, true);
    let r = store.get("bg1").unwrap();
    assert_eq!((r.agent_type.as_str(), r.status.as_str()), ("explore", "failed"));
    assert_eq!(store.get("bg2").unwrap().status, "completed");
}

#[test]
fn json_strings_escape_quotes_backslashes_and_control_characters() {
    assert_eq!(
        turn_begin_line("q\"b\\t\u{8}\t\n\u{c}\r\u{1}\u{1f}é\u{7f}"),
        "{\"type\": \"turn_begin\", \"input\": \"q\\\"b\\\\t\\b\\t\\n\\f\\r\\u0001\\u001fé\u{7f}\"}"
    );
}
