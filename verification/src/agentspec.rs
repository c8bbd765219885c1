//! Agent specs: the built-in one, where a project's spec file is looked for, and which tools a
//! spec keeps.
use vstd::prelude::*;
use crate::paths::{join_path, path_join};
use crate::soul::contains_name;
use crate::text::append_str;
use crate::text_split::{push_text, strings_view};

verus! {

/// An agent spec: name, version, description, instructions, tools by name, model, thinking
/// mode, and extra configuration (values as JSON text).
#[derive(Debug, Clone)]
pub struct AgentSpec {
    pub name: String,
    pub version: String,
    pub description: String,
    pub system_prompt: String,
    pub tools: Vec<String>,
    pub model: Option<String>,
    pub thinking: Option<bool>,
    pub extra: Vec<(String, String)>,
}

impl AgentSpec {
    /// The spec of the default agent.
    pub fn builtin_default() -> (s: AgentSpec)
        ensures
            s.name@ == "default"@,
            s.version@ == "1.0"@,
            s.description@ == "Default Mekai agent"@,
            s.system_prompt@ == "You are Mekai, a helpful CLI agent."@,
            s.tools@.len() == 0,
            s.model.is_none(),
            s.thinking.is_none(),
            s.extra@.len() == 0,
    {
        AgentSpec {
            name: String::from_str("default"),
            version: String::from_str("1.0"),
            description: String::from_str("Default Mekai agent"),
            system_prompt: String::from_str("You are Mekai, a helpful CLI agent."),
            tools: Vec::new(),
            model: None,
            thinking: None,
            extra: Vec::new(),
        }
    }
}

/// The error of a spec file that cannot be read as a spec.
pub fn invalid_spec(reason: &str) -> (e: String)
    ensures
        e@ == "config error: Invalid agent spec: "@ + reason@,
{
    let mut e = String::from_str("config error: Invalid agent spec: ");
    append_str(&mut e, reason);
    e
}

/// The tools a spec names that are available, in the spec's order; all available tools when
/// the spec names none.
pub open spec fn resolved_names(tools: Seq<Seq<char>>, avail: Seq<Seq<char>>) -> Seq<Seq<char>>
    decreases tools.len(),
{
    if tools.len() == 0 {
        Seq::empty()
    } else if avail.contains(tools.last()) {
        resolved_names(tools.drop_last(), avail).push(tools.last())
    } else {
        resolved_names(tools.drop_last(), avail)
    }
}

pub open spec fn resolve_spec(tools: Seq<Seq<char>>, avail: Seq<Seq<char>>) -> Seq<Seq<char>> {
    if tools.len() == 0 { avail } else { resolved_names(tools, avail) }
}

/// The tools of a spec among the available ones (by name).
pub fn resolve_tools(tools: &Vec<String>, available: &Vec<String>) -> (r: Vec<String>)
    ensures
        strings_view(r@) == resolve_spec(strings_view(tools@), strings_view(available@)),
{
    if tools.len() == 0 {
        let mut r: Vec<String> = Vec::new();
        let mut i: usize = 0;
        while i < available.len()
            invariant
                i <= available@.len(),
                strings_view(r@) == strings_view(available@).take(i as int),
            decreases available@.len() - i,
        {
            push_text(&mut r, crate::llm::copy_string(&available[i]));
            assert(strings_view(r@) =~= strings_view(available@).take(i + 1));
            i = i + 1;
        }
        assert(strings_view(available@).take(available@.len() as int) =~= strings_view(available@));
        return r;
    }
    let ghost tv = strings_view(tools@);
    let ghost av = strings_view(available@);
    let mut r: Vec<String> = Vec::new();
    let mut i: usize = 0;
    while i < tools.len()
        invariant
            i <= tools@.len(),
            tv == strings_view(tools@),
            av == strings_view(available@),
            strings_view(r@) == resolved_names(tv.take(i as int), av),
        decreases tools@.len() - i,
    {
        proof {
            let t = tv.take(i + 1);
            assert(t.drop_last() =~= tv.take(i as int));
            assert(t.last() == tools@[i as int]@);
        }
        let found = contains_name(available, tools[i].as_str());
        proof {
            if found {
                let j = choose|j: int| 0 <= j < available@.len() && available@[j]@ == tools@[i as int]@;
                assert(av[j] == tools@[i as int]@);
            } else {
                assert forall|j: int| 0 <= j < av.len() implies av[j] != tools@[i as int]@ by {
                    assert(av[j] == available@[j]@);
                }
            }
        }
        if found {
            push_text(&mut r, crate::llm::copy_string(&tools[i]));
        }
        i = i + 1;
    }
    assert(tv.take(tools@.len() as int) =~= tv);
    r
}

/// Where a project's agent spec is looked for, in order.
pub open spec fn agent_file_paths(work_dir: Seq<char>) -> Seq<Seq<char>> {
    seq![
        path_join(work_dir, ".mekai/agent.yaml"@),
        path_join(work_dir, ".mekai/agent.yml"@),
        path_join(work_dir, "agent.yaml"@),
        path_join(work_dir, "agent.yml"@),
    ]
}

/// Where a project's agent spec is looked for.
pub fn agent_file_candidates(work_dir: &str) -> (r: Vec<String>)
    ensures
        strings_view(r@) == agent_file_paths(work_dir@),
{
    let mut r: Vec<String> = Vec::new();
    push_text(&mut r, join_path(work_dir, ".mekai/agent.yaml"));
    push_text(&mut r, join_path(work_dir, ".mekai/agent.yml"));
    push_text(&mut r, join_path(work_dir, "agent.yaml"));
    push_text(&mut r, join_path(work_dir, "agent.yml"));
    assert(strings_view(r@) =~= agent_file_paths(work_dir@));
    r
}

/// The first of the candidate spec files that exists, by the existence of each (`exists`, in
/// the order of `agent_file_candidates`).
pub fn find_agent_file(work_dir: &str, exists: &Vec<bool>) -> (r: Option<String>)
    requires
        exists@.len() == 4,
    ensures
        match r {
            Some(p) => exists|i: int| 0 <= i < 4 && exists@[i] && p@ == agent_file_paths(work_dir@)[i]
                && forall|j: int| 0 <= j < i ==> !exists@[j],
            None => forall|i: int| 0 <= i < 4 ==> !exists@[i],
        },
{
    let candidates = agent_file_candidates(work_dir);
    assert(strings_view(candidates@).len() == candidates@.len());
    assert(agent_file_paths(work_dir@).len() == 4);
    assert(candidates@.len() == 4);
    let r = crate::startup::first_existing(&candidates, exists);
    proof {
        if r.is_some() {
            let p = r.unwrap();
            let i = choose|i: int| 0 <= i < exists@.len() && exists@[i] && p@ == candidates@[i]@
                && forall|j: int| 0 <= j < i ==> !exists@[j];
            assert(strings_view(candidates@)[i] == candidates@[i]@);
        }
    }
    r
}

} // verus!
