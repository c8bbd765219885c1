//! Choices made when the program starts: the system prompt, where project files are looked for,
//! which model, limits and modes apply, and the texts shown meanwhile.
use vstd::prelude::*;
use crate::config::{LlmModel, find_model, first_key, model_keys};
use crate::paths::{join_path, parent_of, path_join, path_parent};
use crate::slash::{cuttable, short_id};
use crate::soul::{LoopLimits, contains_name, join_strings};
use crate::text::{append_str, byte_len, byte_prefix, char_boundary, decimal, str_eq, utf8_len, utf8_truncate};
use crate::text_split::{push_text, strings_view};

verus! {

/// The system prompt of an agent working in `work_dir`.
pub open spec fn system_prompt_spec(work_dir: Seq<char>, agent_name: Seq<char>) -> Seq<char> {
    let name_line = if agent_name == "default"@ {
        "You are Mekai, a helpful CLI agent."@
    } else {
        "You are "@ + agent_name + ", a helpful CLI agent."@
    };
    name_line + "\n\nCurrent working directory: "@ + work_dir
        + "\n\nYou have access to tools. Use them when helpful. Always respond in the same language as the user's query."@
}

/// Builds the system prompt of an agent working in `work_dir` (as the path is displayed).
pub fn build_system_prompt(work_dir: &str, agent_name: &str) -> (s: String)
    ensures
        s@ == system_prompt_spec(work_dir@, agent_name@),
{
    let mut s = if str_eq(agent_name, "default") {
        String::from_str("You are Mekai, a helpful CLI agent.")
    } else {
        let mut l = String::from_str("You are ");
        append_str(&mut l, agent_name);
        append_str(&mut l, ", a helpful CLI agent.");
        l
    };
    append_str(&mut s, "\n\nCurrent working directory: ");
    append_str(&mut s, work_dir);
    append_str(
        &mut s,
        "\n\nYou have access to tools. Use them when helpful. Always respond in the same language as the user's query.",
    );
    s
}

/// Adds the project instructions read from `AGENTS.md` to a system prompt.
pub fn add_project_context(prompt: &mut String, content: &str)
    ensures
        final(prompt)@ == old(prompt)@ + "\n\n## Project Context\n\n"@ + content@,
{
    append_str(prompt, "\n\n## Project Context\n\n");
    append_str(prompt, content);
}

/// Adds an agent spec's extra configuration (as pretty JSON) to a system prompt.
pub fn add_extra_configuration(prompt: &mut String, pretty_json: &str)
    ensures
        final(prompt)@ == old(prompt)@ + "\n\n## Extra Configuration\n\n"@ + pretty_json@,
{
    append_str(prompt, "\n\n## Extra Configuration\n\n");
    append_str(prompt, pretty_json);
}

/// The directories from `work_dir` up to the root: each is the parent of the one before.
pub fn ancestor_dirs(work_dir: &str) -> (r: Vec<String>)
    ensures
        r@.len() > 0,
        r@[0]@ == work_dir@,
        forall|i: int| 0 <= i < r@.len() - 1 ==> path_parent(#[trigger] r@[i]@) == Some(r@[i + 1]@),
        path_parent(r@[r@.len() - 1]@).is_none(),
{
    let mut r: Vec<String> = Vec::new();
    r.push(String::from_str(work_dir));
    loop
        invariant
            r@.len() > 0,
            r@[0]@ == work_dir@,
            forall|i: int| 0 <= i < r@.len() - 1 ==> path_parent(#[trigger] r@[i]@) == Some(r@[i + 1]@),
        ensures
            r@.len() > 0,
            r@[0]@ == work_dir@,
            forall|i: int| 0 <= i < r@.len() - 1 ==> path_parent(#[trigger] r@[i]@) == Some(r@[i + 1]@),
            path_parent(r@[r@.len() - 1]@).is_none(),
        decreases r@[r@.len() - 1]@.len(),
    {
        let last = r.len() - 1;
        match parent_of(r[last].as_str()) {
            Some(p) => {
                let ghost before = r@;
                r.push(p);
                assert forall|i: int| 0 <= i < r@.len() - 1 implies path_parent(#[trigger] r@[i]@) == Some(r@[i + 1]@) by {
                    if i < before.len() - 1 {
                        assert(r@[i] == before[i] && r@[i + 1] == before[i + 1]);
                    }
                }
            },
            None => {
                break;
            },
        }
    }
    r
}

/// Where `AGENTS.md` is looked for: in each of the given directories (those from the working
/// directory up, by `ancestor_dirs`), nearest first.
pub fn agents_md_candidates(dirs: &Vec<String>) -> (r: Vec<String>)
    ensures
        r@.len() == dirs@.len(),
        forall|i: int| 0 <= i < r@.len() ==> (#[trigger] r@[i])@ == path_join(dirs@[i]@, "AGENTS.md"@),
{
    let mut r: Vec<String> = Vec::new();
    let mut i: usize = 0;
    while i < dirs.len()
        invariant
            i <= dirs@.len(),
            r@.len() == i,
            forall|j: int| 0 <= j < i ==> (#[trigger] r@[j])@ == path_join(dirs@[j]@, "AGENTS.md"@),
        decreases dirs@.len() - i,
    {
        r.push(join_path(dirs[i].as_str(), "AGENTS.md"));
        i = i + 1;
    }
    r
}

/// The first candidate that exists, by the existence of each (`exists`, in the same order).
pub fn first_existing(candidates: &Vec<String>, exists: &Vec<bool>) -> (r: Option<String>)
    requires
        candidates@.len() == exists@.len(),
    ensures
        match r {
            Some(p) => exists|i: int| 0 <= i < exists@.len() && exists@[i] && p@ == candidates@[i]@
                && forall|j: int| 0 <= j < i ==> !exists@[j],
            None => forall|i: int| 0 <= i < exists@.len() ==> !exists@[i],
        },
{
    let mut i: usize = 0;
    while i < candidates.len()
        invariant
            i <= candidates@.len(),
            candidates@.len() == exists@.len(),
            forall|j: int| 0 <= j < i ==> !exists@[j],
        decreases candidates@.len() - i,
    {
        if exists[i] {
            return Some(crate::llm::copy_string(&candidates[i]));
        }
        i = i + 1;
    }
    None
}

/// The nearest `AGENTS.md` among the candidates, by their existence.
pub fn find_agents_md(candidates: &Vec<String>, exists: &Vec<bool>) -> (r: Option<String>)
    requires
        candidates@.len() == exists@.len(),
    ensures
        match r {
            Some(p) => exists|i: int| 0 <= i < exists@.len() && exists@[i] && p@ == candidates@[i]@
                && forall|j: int| 0 <= j < i ==> !exists@[j],
            None => forall|i: int| 0 <= i < exists@.len() ==> !exists@[i],
        },
{
    first_existing(candidates, exists)
}

/// How long ago something happened, from the seconds elapsed since.
pub open spec fn time_ago(secs: int) -> Seq<char> {
    if secs >= 86400 {
        decimal((secs / 86400) as nat) + "d ago"@
    } else if secs >= 3600 {
        decimal((secs / 3600) as nat) + "h ago"@
    } else if secs >= 60 {
        decimal((secs / 60) as nat) + "m ago"@
    } else {
        "just now"@
    }
}

/// Writes how long ago something happened: whole days, hours or minutes, or `just now`.
pub fn format_time_ago(elapsed_secs: i64) -> (s: String)
    ensures
        s@ == time_ago(elapsed_secs as int),
{
    let (n, unit) = if elapsed_secs >= 86400 {
        (elapsed_secs / 86400, "d ago")
    } else if elapsed_secs >= 3600 {
        (elapsed_secs / 3600, "h ago")
    } else if elapsed_secs >= 60 {
        (elapsed_secs / 60, "m ago")
    } else {
        return String::from_str("just now");
    };
    let k: u64 = n as u64;
    let mut s = crate::text::u64_to_string(k);
    append_str(&mut s, unit);
    s
}

/// The model to use: the one asked for, else the configured default, else `kimi`.
pub fn choose_model_name(asked: Option<&str>, default_model: Option<&str>) -> (r: String)
    ensures
        r@ == match asked {
            Some(a) => a@,
            None => match default_model {
                Some(d) => d@,
                None => "kimi"@,
            },
        },
{
    match asked {
        Some(a) => String::from_str(a),
        None => match default_model {
            Some(d) => String::from_str(d),
            None => String::from_str("kimi"),
        },
    }
}

/// The skill directories after adding, in order, those given on the command line that are not
/// there yet.
pub open spec fn merged_dirs(dirs: Seq<Seq<char>>, extra: Seq<Seq<char>>) -> Seq<Seq<char>>
    decreases extra.len(),
{
    if extra.len() == 0 {
        dirs
    } else {
        let before = merged_dirs(dirs, extra.drop_last());
        if before.contains(extra.last()) { before } else { before.push(extra.last()) }
    }
}

/// Adds the command line's skill directories that are not configured yet.
pub fn merge_skill_dirs(dirs: &mut Vec<String>, extra: &Vec<String>)
    ensures
        strings_view(final(dirs)@) == merged_dirs(strings_view(old(dirs)@), strings_view(extra@)),
{
    let ghost ev = strings_view(extra@);
    let mut i: usize = 0;
    while i < extra.len()
        invariant
            i <= extra@.len(),
            ev == strings_view(extra@),
            strings_view(dirs@) == merged_dirs(strings_view(old(dirs)@), ev.take(i as int)),
        decreases extra@.len() - i,
    {
        proof {
            let t = ev.take(i + 1);
            assert(t.drop_last() =~= ev.take(i as int));
            assert(t.last() == extra@[i as int]@);
        }
        let present = contains_name(dirs, extra[i].as_str());
        proof {
            let sv = strings_view(dirs@);
            if present {
                let j = choose|j: int| 0 <= j < dirs@.len() && dirs@[j]@ == extra@[i as int]@;
                assert(sv[j] == extra@[i as int]@);
            } else {
                assert forall|j: int| 0 <= j < sv.len() implies sv[j] != extra@[i as int]@ by {
                    assert(sv[j] == dirs@[j]@);
                }
            }
        }
        if !present {
            push_text(dirs, crate::llm::copy_string(&extra[i]));
        }
        i = i + 1;
    }
    assert(ev.take(extra@.len() as int) =~= ev);
}

/// The loop limits after the command line's overrides.
pub fn apply_loop_overrides(
    limits: LoopLimits,
    max_steps_per_turn: Option<usize>,
    max_retries_per_step: Option<usize>,
    max_ralph_iterations: Option<i32>,
) -> (r: LoopLimits)
    ensures
        r.max_steps_per_turn == match max_steps_per_turn { Some(v) => v, None => limits.max_steps_per_turn },
        r.max_retries_per_step == match max_retries_per_step { Some(v) => v, None => limits.max_retries_per_step },
        r.max_ralph_iterations == match max_ralph_iterations { Some(v) => v, None => limits.max_ralph_iterations },
{
    let mut r = limits;
    if let Some(v) = max_steps_per_turn {
        r.max_steps_per_turn = v;
    }
    if let Some(v) = max_retries_per_step {
        r.max_retries_per_step = v;
    }
    if let Some(v) = max_ralph_iterations {
        r.max_ralph_iterations = v;
    }
    r
}

/// Plan mode at start: asked for, on by default in the configuration, or saved with the session.
pub fn resolve_plan_mode(asked: bool, default_plan_mode: Option<bool>, session_plan_mode: bool) -> (b: bool)
    ensures
        b == (asked || default_plan_mode == Some(true) || session_plan_mode),
{
    asked || match default_plan_mode { Some(v) => v, None => false } || session_plan_mode
}

/// Thinking mode at start: the command line's choice, else the agent spec's, else the
/// configuration's, else off.
pub fn resolve_thinking(asked: Option<bool>, spec: Option<bool>, default_thinking: Option<bool>) -> (b: bool)
    ensures
        b == match asked {
            Some(v) => v,
            None => match spec {
                Some(v) => v,
                None => match default_thinking {
                    Some(v) => v,
                    None => false,
                },
            },
        },
{
    match asked {
        Some(v) => v,
        None => match spec {
            Some(v) => v,
            None => match default_thinking {
                Some(v) => v,
                None => false,
            },
        },
    }
}

/// Whether tools are approved without asking from the start.
pub fn start_in_yolo(yolo: bool, print: bool, quiet: bool, session_yolo: bool, default_yolo: Option<bool>) -> (b: bool)
    ensures
        b == (yolo || print || quiet || session_yolo || default_yolo == Some(true)),
{
    yolo || print || quiet || session_yolo || match default_yolo { Some(v) => v, None => false }
}

/// How the program talks to the user.
#[derive(Debug, Clone, Copy, PartialEq, Eq, Structural)]
pub enum UiMode {
    Shell,
    Print,
    Acp,
    Wire,
}

/// The user interface: printing for `--quiet` or `--print`, then ACP, then wire, else the shell.
pub fn ui_mode(quiet: bool, print: bool, acp: bool, wire: bool) -> (m: UiMode)
    ensures
        m == if quiet || print { UiMode::Print } else if acp { UiMode::Acp } else if wire { UiMode::Wire } else { UiMode::Shell },
{
    if quiet || print {
        UiMode::Print
    } else if acp {
        UiMode::Acp
    } else if wire {
        UiMode::Wire
    } else {
        UiMode::Shell
    }
}

/// The output format of the printing interface: text when quiet, else the one asked for, else text.
pub fn output_format(quiet: bool, asked: Option<String>) -> (r: String)
    ensures
        r@ == if quiet { "text"@ } else { match asked { Some(a) => a@, None => "text"@ } },
{
    if quiet {
        String::from_str("text")
    } else {
        match asked {
            Some(a) => a,
            None => String::from_str("text"),
        }
    }
}

/// The largest context of the chosen model: its configured size, else 200000.
pub fn max_context(models: &Vec<(String, LlmModel)>, name: &str) -> (n: usize)
    ensures
        n == match first_key(model_keys(models@), name@) {
            Some(i) => match models@[i].1.max_context_size {
                Some(v) => v,
                None => 200000,
            },
            None => 200000,
        },
{
    match find_model(models, name) {
        Some(i) => match models[i].1.max_context_size {
            Some(v) => v,
            None => 200000,
        },
        None => 200000,
    }
}

/// A line of the list of recent sessions: its number, title, short id and age.
pub fn session_line(index: usize, title: &str, id: &str, ago: &str) -> (s: String)
    requires
        index < usize::MAX,
        utf8_len(id@) >= 8,
        char_boundary(id@, 8),
    ensures
        s@ == "  "@ + decimal((index + 1) as nat) + ". "@ + title@ + " ("@ + utf8_truncate(id@, 8) + ") - "@ + ago@,
{
    let mut s = String::from_str("  ");
    append_str(&mut s, crate::text::usize_to_string(index + 1).as_str());
    append_str(&mut s, ". ");
    append_str(&mut s, title);
    append_str(&mut s, " (");
    append_str(&mut s, byte_prefix(id, 8));
    append_str(&mut s, ") - ");
    append_str(&mut s, ago);
    s
}

/// The notice shown when a session is taken up again (`verb` is `Resuming` or `Continuing`).
pub fn session_notice(verb: &str, title: &str, id: &str) -> (s: String)
    requires
        utf8_len(id@) >= 8,
        char_boundary(id@, 8),
    ensures
        s@ == verb@ + " session: "@ + title@ + " ("@ + utf8_truncate(id@, 8) + ")"@,
{
    let mut s = String::from_str(verb);
    append_str(&mut s, " session: ");
    append_str(&mut s, title);
    append_str(&mut s, " (");
    append_str(&mut s, byte_prefix(id, 8));
    append_str(&mut s, ")");
    s
}

/// The first prompt given to `term`: its words joined by spaces, none when there are none.
pub fn term_prompt(args: &Vec<String>) -> (r: Option<String>)
    ensures
        args@.len() == 0 ==> r.is_none(),
        args@.len() > 0 ==> r.is_some() && r.unwrap()@ == crate::text::join(args@.map_values(|a: String| a@), " "@),
{
    if args.len() == 0 {
        None
    } else {
        Some(join_strings(args, " "))
    }
}

/// The program name without a `.exe` suffix.
pub fn program_name(arg0: &str) -> (r: String)
    ensures
        r@ == if arg0@.len() >= 4 && arg0@.subrange(arg0@.len() - 4, arg0@.len() as int) == ".exe"@ {
            arg0@.subrange(0, arg0@.len() - 4)
        } else {
            arg0@
        },
{
    let n = arg0.unicode_len();
    if n >= 4 {
        let tail = arg0.substring_char(n - 4, n);
        if str_eq(tail, ".exe") {
            return String::from_str(arg0.substring_char(0, n - 4));
        }
    }
    String::from_str(arg0)
}

/// A server command split into the program and its arguments, at white space.
pub fn split_server_command(command: &str) -> (r: (String, Vec<String>))
    ensures
        r.0@ == crate::slash::word(crate::text_split::words(command@), 0),
        strings_view(r.1@) == if crate::text_split::words(command@).len() > 0 {
            crate::text_split::words(command@).skip(1)
        } else {
            Seq::empty()
        },
{
    let parts = crate::text_split::split_words(command);
    let ghost wv = strings_view(parts@);
    let mut args: Vec<String> = Vec::new();
    if parts.len() == 0 {
        assert(strings_view(args@) =~= Seq::<Seq<char>>::empty());
        return (String::new(), args);
    }
    let program = crate::llm::copy_string(&parts[0]);
    assert(strings_view(args@) =~= wv.subrange(1, 1));
    let mut i: usize = 1;
    while i < parts.len()
        invariant
            1 <= i <= parts@.len(),
            wv == strings_view(parts@),
            strings_view(args@) == wv.subrange(1, i as int),
        decreases parts@.len() - i,
    {
        push_text(&mut args, crate::llm::copy_string(&parts[i]));
        assert(strings_view(args@) =~= wv.subrange(1, i + 1));
        i = i + 1;
    }
    assert(wv.subrange(1, wv.len() as int) =~= wv.skip(1));
    (program, args)
}

/// How a configured server is listed: its name, program and arguments.
pub fn server_line(name: &str, command: &str, args: &Vec<String>) -> (s: String)
    ensures
        s@ == name@ + ": "@ + command@ + " "@ + crate::text::join(args@.map_values(|a: String| a@), " "@),
{
    let mut s = String::from_str(name);
    append_str(&mut s, ": ");
    append_str(&mut s, command);
    append_str(&mut s, " ");
    append_str(&mut s, join_strings(args, " ").as_str());
    s
}

/// A signed integer written in decimal.
pub open spec fn signed_text(n: int) -> Seq<char> {
    if n < 0 { "-"@ + decimal((-n) as nat) } else { decimal(n as nat) }
}

/// Writes a signed integer in decimal.
pub fn i64_to_string(n: i64) -> (s: String)
    ensures
        s@ == signed_text(n as int),
{
    if n < 0 {
        let m: u64 = if n == i64::MIN { 9223372036854775808u64 } else { (-n) as u64 };
        let mut s = String::from_str("-");
        append_str(&mut s, crate::text::u64_to_string(m).as_str());
        s
    } else {
        let m: u64 = n as u64;
        crate::text::u64_to_string(m)
    }
}

/// The inputs of the built-in system prompt: the time, the working directory, the project
/// instructions and the skills.
#[derive(Debug, Clone)]
pub struct BuiltinSystemPromptArgs {
    pub now: String,
    pub work_dir: String,
    pub agents_md: String,
    pub skills: String,
}

impl Default for BuiltinSystemPromptArgs {
    fn default() -> (a: BuiltinSystemPromptArgs)
        ensures
            a.now@.len() == 0 && a.work_dir@.len() == 0 && a.agents_md@.len() == 0 && a.skills@.len() == 0,
    {
        BuiltinSystemPromptArgs { now: String::new(), work_dir: String::new(), agents_md: String::new(), skills: String::new() }
    }
}

} // verus!
