//! The built-in tools: their names and descriptions, how they read their arguments, and what
//! the ones that only compute answer.
use vstd::prelude::*;
use crate::background::{BackgroundTask, TaskView, status_name, status_text, tasks_view};
use crate::config::ServiceConfig;
use crate::subagents::{LaborMarket, SubagentType, keep_listed, subagent_prompt, subagent_system_prompt, subagent_tools};
use crate::text::{append_str, byte_prefix, char_boundary, str_eq, utf8_len, utf8_truncate};
use crate::text_split::strings_view;

verus! {

/// A tool argument, as far as the tools read it.
#[derive(Debug, Clone)]
pub enum ArgValue {
    Text(String),
    Unsigned(u64),
    Other,
}

/// A tool's arguments by name, at most one per name.
pub type ToolArgs = Vec<(String, ArgValue)>;

/// The text argument under `key`.
pub open spec fn text_arg(args: Seq<(String, ArgValue)>, key: Seq<char>) -> Option<Seq<char>> {
    if exists|i: int| 0 <= i < args.len() && args[i].0@ == key {
        let i = choose|i: int| 0 <= i < args.len() && args[i].0@ == key;
        match args[i].1 {
            ArgValue::Text(t) => Some(t@),
            _ => None,
        }
    } else {
        None
    }
}

/// The unsigned argument under `key`.
pub open spec fn unsigned_arg(args: Seq<(String, ArgValue)>, key: Seq<char>) -> Option<u64> {
    if exists|i: int| 0 <= i < args.len() && args[i].0@ == key {
        let i = choose|i: int| 0 <= i < args.len() && args[i].0@ == key;
        match args[i].1 {
            ArgValue::Unsigned(n) => Some(n),
            _ => None,
        }
    } else {
        None
    }
}

pub open spec fn args_distinct(args: Seq<(String, ArgValue)>) -> bool {
    forall|i: int, j: int| 0 <= i < args.len() && 0 <= j < args.len() && i != j ==> args[i].0@ != args[j].0@
}

fn find_arg(args: &ToolArgs, key: &str) -> (r: Option<usize>)
    requires
        args_distinct(args@),
    ensures
        match r {
            Some(i) => i < args@.len() && args@[i as int].0@ == key@,
            None => forall|j: int| 0 <= j < args@.len() ==> args@[j].0@ != key@,
        },
{
    let mut i: usize = 0;
    while i < args.len()
        invariant
            i <= args@.len(),
            forall|j: int| 0 <= j < i ==> args@[j].0@ != key@,
        decreases args@.len() - i,
    {
        if str_eq(args[i].0.as_str(), key) {
            return Some(i);
        }
        i = i + 1;
    }
    None
}

/// The text argument under `key`, when there is one.
pub fn get_text<'a>(args: &'a ToolArgs, key: &str) -> (r: Option<&'a str>)
    requires
        args_distinct(args@),
    ensures
        match r {
            Some(t) => text_arg(args@, key@) == Some(t@),
            None => text_arg(args@, key@).is_none(),
        },
{
    match find_arg(args, key) {
        Some(i) => {
            proof {
                let k = choose|k: int| 0 <= k < args@.len() && args@[k].0@ == key@;
                assert(k == i);
            }
            match &args[i].1 {
                ArgValue::Text(t) => Some(t.as_str()),
                _ => None,
            }
        },
        None => None,
    }
}

/// The unsigned argument under `key`, when there is one.
pub fn get_unsigned(args: &ToolArgs, key: &str) -> (r: Option<u64>)
    requires
        args_distinct(args@),
    ensures
        r == unsigned_arg(args@, key@),
{
    match find_arg(args, key) {
        Some(i) => {
            proof {
                let k = choose|k: int| 0 <= k < args@.len() && args@[k].0@ == key@;
                assert(k == i);
            }
            match &args[i].1 {
                ArgValue::Unsigned(n) => Some(*n),
                _ => None,
            }
        },
        None => None,
    }
}

/// The error of a tool called without a text argument it needs.
pub open spec fn missing_arg(key: Seq<char>) -> Seq<char> {
    "tool error: Missing '"@ + key + "' argument"@
}

/// The text argument under `key`, or the error saying it is missing.
pub fn require_text(args: &ToolArgs, key: &str) -> (r: Result<String, String>)
    requires
        args_distinct(args@),
    ensures
        match text_arg(args@, key@) {
            Some(t) => r is Ok && r->Ok_0@ == t,
            None => r is Err && r->Err_0@ == missing_arg(key@),
        },
{
    match get_text(args, key) {
        Some(t) => Ok(String::from_str(t)),
        None => {
            let mut e = String::from_str("tool error: Missing '");
            append_str(&mut e, key);
            append_str(&mut e, "' argument");
            Err(e)
        },
    }
}

/// The names of the built-in tools, in the order they are offered.
pub open spec fn builtin_names() -> Seq<Seq<char>> {
    seq![
        "ReadFile"@, "WriteFile"@, "Shell"@, "WebSearch"@, "WebFetch"@, "Think"@, "AskUser"@, "Agent"@,
        "BackgroundTask"@, "ListTasks"@,
    ]
}

/// The names of the built-in tools.
pub fn builtin_tool_names() -> (r: Vec<String>)
    ensures
        strings_view(r@) == builtin_names(),
{
    let names = [
        "ReadFile", "WriteFile", "Shell", "WebSearch", "WebFetch", "Think", "AskUser", "Agent", "BackgroundTask",
        "ListTasks",
    ];
    let mut r: Vec<String> = Vec::new();
    let mut i: usize = 0;
    while i < 10
        invariant
            i <= 10,
            names@ == seq![
                "ReadFile", "WriteFile", "Shell", "WebSearch", "WebFetch", "Think", "AskUser", "Agent",
                "BackgroundTask", "ListTasks",
            ],
            strings_view(r@) == builtin_names().take(i as int),
        decreases 10 - i,
    {
        let ghost before = r@;
        r.push(String::from_str(names[i]));
        assert(strings_view(r@) =~= strings_view(before).push(names@[i as int]@));
        assert(strings_view(r@) =~= builtin_names().take(i + 1));
        i = i + 1;
    }
    assert(builtin_names().take(10) =~= builtin_names());
    r
}

/// The description of a built-in tool.
pub open spec fn description_of(name: Seq<char>) -> Option<Seq<char>> {
    if name == "ReadFile"@ { Some("Read the contents of a file."@) }
    else if name == "WriteFile"@ { Some("Write content to a file."@) }
    else if name == "Shell"@ { Some("Execute a shell command."@) }
    else if name == "WebSearch"@ { Some("Search the web for information."@) }
    else if name == "WebFetch"@ { Some("Fetch the content of a URL."@) }
    else if name == "Think"@ { Some("Think through a problem step by step."@) }
    else if name == "AskUser"@ { Some("Ask the user a question and wait for their response."@) }
    else if name == "Agent"@ { Some("Spawn a subagent to perform a specialized task. Available types: explore, coder, plan."@) }
    else if name == "BackgroundTask"@ { Some("Run a shell command in the background. Returns a task ID to check status later."@) }
    else if name == "ListTasks"@ { Some("List all background tasks and their status."@) }
    else { None }
}

/// The description of a built-in tool.
pub fn tool_description(name: &str) -> (r: Option<&'static str>)
    ensures
        match r {
            Some(d) => description_of(name@) == Some(d@),
            None => description_of(name@).is_none(),
        },
{
    if str_eq(name, "ReadFile") { Some("Read the contents of a file.") }
    else if str_eq(name, "WriteFile") { Some("Write content to a file.") }
    else if str_eq(name, "Shell") { Some("Execute a shell command.") }
    else if str_eq(name, "WebSearch") { Some("Search the web for information.") }
    else if str_eq(name, "WebFetch") { Some("Fetch the content of a URL.") }
    else if str_eq(name, "Think") { Some("Think through a problem step by step.") }
    else if str_eq(name, "AskUser") { Some("Ask the user a question and wait for their response.") }
    else if str_eq(name, "Agent") { Some("Spawn a subagent to perform a specialized task. Available types: explore, coder, plan.") }
    else if str_eq(name, "BackgroundTask") { Some("Run a shell command in the background. Returns a task ID to check status later.") }
    else if str_eq(name, "ListTasks") { Some("List all background tasks and their status.") }
    else { None }
}

/// The `Think` tool: records the thoughts it is given.
pub fn think(args: &ToolArgs) -> (r: Result<String, String>)
    requires
        args_distinct(args@),
    ensures
        match text_arg(args@, "thoughts"@) {
            Some(t) => r is Ok && r->Ok_0@ == "Thoughts recorded: "@ + t,
            None => r is Err && r->Err_0@ == missing_arg("thoughts"@),
        },
{
    let t = require_text(args, "thoughts")?;
    let mut s = String::from_str("Thoughts recorded: ");
    append_str(&mut s, t.as_str());
    Ok(s)
}

/// What the `Shell` tool answers: the output of a command that succeeded, or the error output
/// followed by the output.
pub fn shell_report(success: bool, stdout: &str, stderr: &str) -> (r: String)
    ensures
        r@ == if success { stdout@ } else { "Error:\n"@ + stderr@ + "\n"@ + stdout@ },
{
    if success {
        String::from_str(stdout)
    } else {
        let mut s = String::from_str("Error:\n");
        append_str(&mut s, stderr);
        append_str(&mut s, "\n");
        append_str(&mut s, stdout);
        s
    }
}

/// What `WebSearch` answers when no search service is configured.
pub fn search_unavailable(query: &str) -> (r: String)
    ensures
        r@ == "Web search results for: "@ + query@
            + "\n[Search service not configured — set services.moonshot_search in config]"@,
{
    let mut s = String::from_str("Web search results for: ");
    append_str(&mut s, query);
    append_str(&mut s, "\n[Search service not configured — set services.moonshot_search in config]");
    s
}

/// The address a search request goes to, and its authorization header when a key is set.
pub fn search_request(service: &ServiceConfig, query: &str) -> (r: (String, Option<String>))
    ensures
        r.0@ == service.base_url@ + "/search?q="@ + query@,
        match service.api_key {
            Some(k) => r.1.is_some() && r.1.unwrap()@ == "Bearer "@ + k@,
            None => r.1.is_none(),
        },
{
    let mut url = String::from_str(service.base_url.as_str());
    append_str(&mut url, "/search?q=");
    append_str(&mut url, query);
    let auth = match &service.api_key {
        Some(k) => {
            let mut h = String::from_str("Bearer ");
            append_str(&mut h, k.as_str());
            Some(h)
        },
        None => None,
    };
    (url, auth)
}

/// What the `Agent` tool does next.
#[derive(Debug)]
pub enum AgentStep {
    /// Answer at once with this text.
    Reply(String),
    /// Run a subagent of this kind on the task, with these instructions and tools.
    Run { kind: SubagentType, task: String, prompt: String, tools: Vec<String> },
}

/// The `Agent` tool's decision: the arguments it needs, the kind of subagent, whether a model is
/// at hand (`llm_available`), and the tools among `available` the subagent gets.
pub fn agent_step(args: &ToolArgs, llm_available: bool, available: &Vec<String>) -> (r: Result<AgentStep, String>)
    requires
        args_distinct(args@),
    ensures
        text_arg(args@, "type"@).is_none() ==> r is Err && r->Err_0@ == missing_arg("type"@),
        text_arg(args@, "type"@).is_some() && text_arg(args@, "task"@).is_none() ==> r is Err && r->Err_0@
            == missing_arg("task"@),
        text_arg(args@, "type"@).is_some() && text_arg(args@, "task"@).is_some() ==> r is Ok,
        r matches Ok(AgentStep::Reply(t)) ==> {
            let k = text_arg(args@, "type"@).unwrap();
            ||| (!(k == "explore"@ || k == "coder"@ || k == "plan"@)
                && t@ == "Unknown subagent type: "@ + k + ". Available: explore, coder, plan"@)
            ||| ((k == "explore"@ || k == "coder"@ || k == "plan"@) && !llm_available
                && t@ == "LLM provider not available for subagent"@)
        },
        r matches Ok(AgentStep::Run { kind, task, prompt, tools }) ==> {
            let k = text_arg(args@, "type"@).unwrap();
            &&& (k == "explore"@ || k == "coder"@ || k == "plan"@)
            &&& llm_available
            &&& kind.name@ == k
            &&& task@ == text_arg(args@, "task"@).unwrap()
            &&& prompt@ == subagent_prompt(kind.system_prompt@, task@)
            &&& strings_view(tools@) == keep_listed(strings_view(available@), strings_view(kind.tools@))
        },
{
    let kind_name = require_text(args, "type")?;
    let task = require_text(args, "task")?;
    let market = LaborMarket::new();
    match market.get(kind_name.as_str()) {
        None => {
            proof {
                let tn = crate::subagents::type_names(market.types@);
                assert(tn.len() == 3);
                assert(tn[0] == market.types@[0].0@);
                assert(tn[1] == market.types@[1].0@);
                assert(tn[2] == market.types@[2].0@);
            }
            let mut s = String::from_str("Unknown subagent type: ");
            append_str(&mut s, kind_name.as_str());
            append_str(&mut s, ". Available: explore, coder, plan");
            Ok(AgentStep::Reply(s))
        },
        Some(t) => {
            proof {
                let i = choose|i: int| 0 <= i < market.types@.len() && market.types@[i].0@ == kind_name@
                    && market.types@[i].1 == *t && forall|j: int| 0 <= j < i ==> market.types@[j].0@ != kind_name@;
                let tn = crate::subagents::type_names(market.types@);
                assert(tn.len() == 3);
                assert(tn[i] == market.types@[i].0@);
                assert(t.name@ == market.types@[i].0@);
                assert(tn[i] == "explore"@ || tn[i] == "coder"@ || tn[i] == "plan"@);
            }
            if !llm_available {
                return Ok(AgentStep::Reply(String::from_str("LLM provider not available for subagent")));
            }
            let prompt = subagent_system_prompt(t, task.as_str());
            let tools = subagent_tools(t, available);
            Ok(AgentStep::Run { kind: t.duplicate(), task, prompt, tools })
        },
    }
}

/// The search and fetch services the web tools use.
#[derive(Debug, Clone)]
pub struct ToolServices {
    pub search: Option<ServiceConfig>,
    pub fetch: Option<ServiceConfig>,
}

/// The services the web tools use, as configured.
pub fn init_services(search: Option<ServiceConfig>, fetch: Option<ServiceConfig>) -> (s: ToolServices)
    ensures
        s.search == search,
        s.fetch == fetch,
{
    ToolServices { search, fetch }
}

/// The `ReadFile` tool.
#[derive(Debug, Clone, Copy)]
pub struct FileReadTool;

impl FileReadTool {
    /// The tool's name.
    pub fn name(&self) -> (s: &'static str)
        ensures
            s@ == "ReadFile"@,
    {
        "ReadFile"
    }

    /// The tool's description.
    pub fn description(&self) -> (s: &'static str)
        ensures
            s@ == "Read the contents of a file."@,
    {
        "Read the contents of a file."
    }
}

/// The `WriteFile` tool.
#[derive(Debug, Clone, Copy)]
pub struct FileWriteTool;

impl FileWriteTool {
    /// The tool's name.
    pub fn name(&self) -> (s: &'static str)
        ensures
            s@ == "WriteFile"@,
    {
        "WriteFile"
    }

    /// The tool's description.
    pub fn description(&self) -> (s: &'static str)
        ensures
            s@ == "Write content to a file."@,
    {
        "Write content to a file."
    }
}

/// The `Shell` tool.
#[derive(Debug, Clone, Copy)]
pub struct ShellTool;

impl ShellTool {
    /// The tool's name.
    pub fn name(&self) -> (s: &'static str)
        ensures
            s@ == "Shell"@,
    {
        "Shell"
    }

    /// The tool's description.
    pub fn description(&self) -> (s: &'static str)
        ensures
            s@ == "Execute a shell command."@,
    {
        "Execute a shell command."
    }
}

/// The `WebSearch` tool.
#[derive(Debug, Clone, Copy)]
pub struct WebSearchTool;

impl WebSearchTool {
    /// The tool's name.
    pub fn name(&self) -> (s: &'static str)
        ensures
            s@ == "WebSearch"@,
    {
        "WebSearch"
    }

    /// The tool's description.
    pub fn description(&self) -> (s: &'static str)
        ensures
            s@ == "Search the web for information."@,
    {
        "Search the web for information."
    }
}

/// The `WebFetch` tool.
#[derive(Debug, Clone, Copy)]
pub struct WebFetchTool;

impl WebFetchTool {
    /// The tool's name.
    pub fn name(&self) -> (s: &'static str)
        ensures
            s@ == "WebFetch"@,
    {
        "WebFetch"
    }

    /// The tool's description.
    pub fn description(&self) -> (s: &'static str)
        ensures
            s@ == "Fetch the content of a URL."@,
    {
        "Fetch the content of a URL."
    }
}

/// The `Think` tool.
#[derive(Debug, Clone, Copy)]
pub struct ThinkTool;

impl ThinkTool {
    /// The tool's name.
    pub fn name(&self) -> (s: &'static str)
        ensures
            s@ == "Think"@,
    {
        "Think"
    }

    /// The tool's description.
    pub fn description(&self) -> (s: &'static str)
        ensures
            s@ == "Think through a problem step by step."@,
    {
        "Think through a problem step by step."
    }
}

/// The `AskUser` tool.
#[derive(Debug, Clone, Copy)]
pub struct AskUserTool;

impl AskUserTool {
    /// The tool's name.
    pub fn name(&self) -> (s: &'static str)
        ensures
            s@ == "AskUser"@,
    {
        "AskUser"
    }

    /// The tool's description.
    pub fn description(&self) -> (s: &'static str)
        ensures
            s@ == "Ask the user a question and wait for their response."@,
    {
        "Ask the user a question and wait for their response."
    }
}

/// The `Agent` tool.
#[derive(Debug, Clone, Copy)]
pub struct AgentTool;

impl AgentTool {
    /// The tool's name.
    pub fn name(&self) -> (s: &'static str)
        ensures
            s@ == "Agent"@,
    {
        "Agent"
    }

    /// The tool's description.
    pub fn description(&self) -> (s: &'static str)
        ensures
            s@ == "Spawn a subagent to perform a specialized task. Available types: explore, coder, plan."@,
    {
        "Spawn a subagent to perform a specialized task. Available types: explore, coder, plan."
    }
}

/// The `BackgroundTask` tool.
#[derive(Debug, Clone, Copy)]
pub struct BackgroundTaskTool;

impl BackgroundTaskTool {
    /// The tool's name.
    pub fn name(&self) -> (s: &'static str)
        ensures
            s@ == "BackgroundTask"@,
    {
        "BackgroundTask"
    }

    /// The tool's description.
    pub fn description(&self) -> (s: &'static str)
        ensures
            s@ == "Run a shell command in the background. Returns a task ID to check status later."@,
    {
        "Run a shell command in the background. Returns a task ID to check status later."
    }
}

/// The `ListTasks` tool.
#[derive(Debug, Clone, Copy)]
pub struct ListTasksTool;

impl ListTasksTool {
    /// The tool's name.
    pub fn name(&self) -> (s: &'static str)
        ensures
            s@ == "ListTasks"@,
    {
        "ListTasks"
    }

    /// The tool's description.
    pub fn description(&self) -> (s: &'static str)
        ensures
            s@ == "List all background tasks and their status."@,
    {
        "List all background tasks and their status."
    }
}

} // verus!
