//! Skills: what describes one, where they are looked for, and how they join the system prompt.
use vstd::prelude::*;
use crate::paths::{join_path, path_join};
use crate::text::{append_str, str_eq};
use crate::text_split::{push_text, split_lines, strings_view, text_lines, trim, trimmed};

verus! {

/// The kind of a skill.
#[derive(Debug, Clone, Copy, PartialEq, Eq, Structural)]
pub enum SkillType {
    Standard,
    Flow,
}

/// A skill: its name, description, text, kind and the file it came from.
#[derive(Debug, Clone)]
pub struct Skill {
    pub name: String,
    pub description: String,
    pub content: String,
    pub skill_type: SkillType,
    pub source: String,
}

/// The first line of a text (empty when there is none).
pub open spec fn first_line(content: Seq<char>) -> Seq<char> {
    let ls = text_lines(content);
    if ls.len() > 0 { ls[0] } else { Seq::empty() }
}

/// A text without the `#` characters it begins with.
pub open spec fn without_hashes(s: Seq<char>) -> Seq<char>
    decreases s.len(),
{
    if s.len() > 0 && s[0] == '#' { without_hashes(s.subrange(1, s.len() as int)) } else { s }
}

/// The description of a skill: its first line, without leading `#`s and surrounding white space.
pub open spec fn description_spec(content: Seq<char>) -> Seq<char> {
    trimmed(without_hashes(first_line(content)))
}

proof fn lemma_without_hashes(s: Seq<char>, k: int)
    requires
        0 <= k <= s.len(),
        forall|j: int| 0 <= j < k ==> s[j] == '#',
    ensures
        without_hashes(s) == without_hashes(s.subrange(k, s.len() as int)),
    decreases k,
{
    if k > 0 {
        let t = s.subrange(1, s.len() as int);
        assert forall|j: int| 0 <= j < k - 1 implies t[j] == '#' by {
            assert(t[j] == s[j + 1]);
        }
        lemma_without_hashes(t, k - 1);
        assert(t.subrange(k - 1, t.len() as int) =~= s.subrange(k, s.len() as int));
    } else {
        assert(s.subrange(0, s.len() as int) =~= s);
    }
}

/// The description of a skill, from its text.
pub fn extract_description(content: &str) -> (d: String)
    ensures
        d@ == description_spec(content@),
{
    let lines = split_lines(content);
    let first = if lines.len() > 0 { crate::llm::copy_string(&lines[0]) } else { String::new() };
    assert(strings_view(lines@).len() == lines@.len());
    assert(first@ == first_line(content@));
    let f = first.as_str();
    let n = f.unicode_len();
    let mut k: usize = 0;
    while k < n && f.get_char(k) == '#'
        invariant
            k <= n,
            n == f@.len(),
            forall|j: int| 0 <= j < k ==> f@[j] == '#',
        decreases n - k,
    {
        k = k + 1;
    }
    proof {
        lemma_without_hashes(f@, k as int);
        let rest = f@.subrange(k as int, n as int);
        if k < n {
            assert(rest[0] == f@[k as int]);
        }
    }
    let rest = f.substring_char(k, n);
    trim(rest)
}

/// A skill read from a `SKILL.md` file in the directory named `name`.
pub fn make_skill(name: String, content: String, source: String) -> (s: Skill)
    ensures
        s.name@ == name@,
        s.description@ == description_spec(content@),
        s.content@ == content@,
        s.skill_type == SkillType::Standard,
        s.source@ == source@,
{
    let description = extract_description(content.as_str());
    Skill { name, description, content, skill_type: SkillType::Standard, source }
}

/// The index of the skill with the given name.
pub open spec fn skill_index(skills: Seq<Skill>, name: Seq<char>) -> Option<int> {
    if exists|i: int| 0 <= i < skills.len() && skills[i].name@ == name {
        Some(choose|i: int| 0 <= i < skills.len() && skills[i].name@ == name)
    } else {
        None
    }
}

pub open spec fn names_distinct(skills: Seq<Skill>) -> bool {
    forall|i: int, j: int| 0 <= i < skills.len() && 0 <= j < skills.len() && i != j ==> skills[i].name@ != skills[j].name@
}

/// Adds a skill; one found later under the same name replaces the earlier one in its place.
pub fn add_skill(skills: &mut Vec<Skill>, s: Skill)
    requires
        names_distinct(old(skills)@),
    ensures
        names_distinct(final(skills)@),
        match skill_index(old(skills)@, s.name@) {
            Some(i) => final(skills)@ == old(skills)@.update(i, s),
            None => final(skills)@ == old(skills)@.push(s),
        },
{
    let mut i: usize = 0;
    while i < skills.len()
        invariant
            i <= skills@.len(),
            skills@ == old(skills)@,
            names_distinct(skills@),
            forall|j: int| 0 <= j < i ==> skills@[j].name@ != s.name@,
        decreases skills@.len() - i,
    {
        if str_eq(skills[i].name.as_str(), s.name.as_str()) {
            proof {
                let k = choose|k: int| 0 <= k < skills@.len() && skills@[k].name@ == s.name@;
                if k != i {
                    assert(skills@[k].name@ != skills@[i as int].name@);
                }
            }
            let ghost before = skills@;
            skills.set(i, s);
            assert forall|a: int, b: int| 0 <= a < skills@.len() && 0 <= b < skills@.len() && a != b
                implies skills@[a].name@ != skills@[b].name@ by {
                if a != i && b != i {
                    assert(before[a] == skills@[a] && before[b] == skills@[b]);
                } else if a == i {
                    assert(before[b] == skills@[b]);
                    assert(before[b].name@ != before[i as int].name@);
                } else {
                    assert(before[a] == skills@[a]);
                    assert(before[a].name@ != before[i as int].name@);
                }
            }
            return;
        }
        i = i + 1;
    }
    let ghost before = skills@;
    skills.push(s);
    assert forall|a: int, b: int| 0 <= a < skills@.len() && 0 <= b < skills@.len() && a != b
        implies skills@[a].name@ != skills@[b].name@ by {
        if a < before.len() && b < before.len() {
            assert(before[a] == skills@[a] && before[b] == skills@[b]);
        } else if a < before.len() {
            assert(before[a] == skills@[a]);
        } else if b < before.len() {
            assert(before[b] == skills@[b]);
        }
    }
}

/// The directories searched for skills, in order: next to the program (when its location is
/// known), under the home directory, under the current directory, then those configured.
pub open spec fn skill_dir_list(exe_dir: Option<Seq<char>>, home: Option<Seq<char>>, extra: Seq<Seq<char>>) -> Seq<Seq<char>> {
    let subs = seq![".mekai/skills"@, ".codex/skills"@, ".agents/skills"@];
    (match exe_dir {
        Some(d) => seq![path_join(d, "skills"@)],
        None => Seq::empty(),
    }) + (match home {
        Some(h) => subs.map_values(|s: Seq<char>| path_join(h, s)),
        None => Seq::empty(),
    }) + subs + extra
}

fn push_home_dirs(r: &mut Vec<String>, h: &str)
    ensures
        strings_view(final(r)@) == strings_view(old(r)@) + seq![".mekai/skills"@, ".codex/skills"@, ".agents/skills"@].map_values(|s: Seq<char>| path_join(h@, s)),
{
    push_text(r, join_path(h, ".mekai/skills"));
    push_text(r, join_path(h, ".codex/skills"));
    push_text(r, join_path(h, ".agents/skills"));
    assert(strings_view(r@) =~= strings_view(old(r)@) + seq![".mekai/skills"@, ".codex/skills"@, ".agents/skills"@].map_values(|s: Seq<char>| path_join(h@, s)));
}

/// The directories searched for skills.
pub fn skill_dirs(exe_dir: Option<&str>, home: Option<&str>, extra: &Vec<String>) -> (r: Vec<String>)
    ensures
        strings_view(r@) == skill_dir_list(crate::shell::opt_str_view(exe_dir), crate::shell::opt_str_view(home), strings_view(extra@)),
{
    let mut r: Vec<String> = Vec::new();
    if let Some(d) = exe_dir {
        push_text(&mut r, join_path(d, "skills"));
    }
    let ghost a = strings_view(r@);
    if let Some(h) = home {
        push_home_dirs(&mut r, h);
    }
    let ghost b = strings_view(r@);
    push_text(&mut r, String::from_str(".mekai/skills"));
    push_text(&mut r, String::from_str(".codex/skills"));
    push_text(&mut r, String::from_str(".agents/skills"));
    let ghost c = strings_view(r@);
    assert(c =~= b + seq![".mekai/skills"@, ".codex/skills"@, ".agents/skills"@]);
    let mut i: usize = 0;
    while i < extra.len()
        invariant
            i <= extra@.len(),
            strings_view(r@) == c + strings_view(extra@).take(i as int),
        decreases extra@.len() - i,
    {
        push_text(&mut r, crate::llm::copy_string(&extra[i]));
        assert(strings_view(r@) =~= c + strings_view(extra@).take(i + 1));
        i = i + 1;
    }
    assert(strings_view(extra@).take(extra@.len() as int) =~= strings_view(extra@));
    assert(a =~= match exe_dir { Some(d) => seq![path_join(d@, "skills"@)], None => Seq::<Seq<char>>::empty() });
    r
}

/// The section of the system prompt that lists the skills, each with its name and text.
pub open spec fn skill_entries(skills: Seq<Skill>) -> Seq<char>
    decreases skills.len(),
{
    if skills.len() == 0 {
        Seq::empty()
    } else {
        skill_entries(skills.drop_last()) + "### "@ + skills.last().name@ + "\n"@ + skills.last().content@ + "\n\n"@
    }
}

/// Adds the skills to a system prompt (nothing when there are none).
pub fn add_skills_section(prompt: &mut String, skills: &Vec<Skill>)
    ensures
        skills@.len() == 0 ==> final(prompt)@ == old(prompt)@,
        skills@.len() > 0 ==> final(prompt)@ == old(prompt)@ + "\n\n## Skills\n\n"@ + skill_entries(skills@),
{
    if skills.len() == 0 {
        return;
    }
    append_str(prompt, "\n\n## Skills\n\n");
    let ghost start = prompt@;
    let mut i: usize = 0;
    while i < skills.len()
        invariant
            i <= skills@.len(),
            prompt@ == start + skill_entries(skills@.take(i as int)),
        decreases skills@.len() - i,
    {
        append_str(prompt, "### ");
        append_str(prompt, skills[i].name.as_str());
        append_str(prompt, "\n");
        append_str(prompt, skills[i].content.as_str());
        append_str(prompt, "\n\n");
        proof {
            let t = skills@.take(i + 1);
            assert(t.drop_last() =~= skills@.take(i as int));
            assert(t.last() == skills@[i as int]);
        }
        i = i + 1;
    }
    assert(skills@.take(skills@.len() as int) =~= skills@);
}

} // verus!
