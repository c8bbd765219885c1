//! Subagent kinds and the record of subagents that ran.
use vstd::prelude::*;
use crate::text::{append_str, str_eq};

verus! {

/// What is known of one subagent run.
#[derive(Debug, Clone)]
pub struct SubagentRecord {
    pub id: String,
    pub agent_type: String,
    pub status: String,
}

pub struct SubagentRecordView {
    pub id: Seq<char>,
    pub agent_type: Seq<char>,
    pub status: Seq<char>,
}

impl View for SubagentRecord {
    type V = SubagentRecordView;

    open spec fn view(&self) -> SubagentRecordView {
        SubagentRecordView { id: self.id@, agent_type: self.agent_type@, status: self.status@ }
    }
}

/// Subagent records keyed by id; at most one record per id.
#[derive(Debug, Clone)]
pub struct SubagentStore {
    agents: Vec<SubagentRecord>,
}

/// Whether no two records share an id.
pub open spec fn ids_distinct(rs: Seq<SubagentRecordView>) -> bool {
    forall|i: int, j: int| 0 <= i < rs.len() && 0 <= j < rs.len() && i != j ==> rs[i].id != rs[j].id
}

/// The records as a map from id to record.
pub open spec fn records_map(rs: Seq<SubagentRecordView>) -> Map<Seq<char>, SubagentRecordView>
    decreases rs.len(),
{
    if rs.len() == 0 {
        Map::empty()
    } else {
        records_map(rs.drop_last()).insert(rs.last().id, rs.last())
    }
}

impl SubagentStore {
    /// The records, in the order in which their ids were first inserted.
    pub closed spec fn records(&self) -> Seq<SubagentRecordView> {
        self.agents@.map_values(|r: SubagentRecord| r@)
    }

    /// The store as a map from id to record.
    pub open spec fn view_map(&self) -> Map<Seq<char>, SubagentRecordView> {
        records_map(self.records())
    }

    pub open spec fn wf(&self) -> bool {
        ids_distinct(self.records())
    }

    /// An empty store.
    pub fn new() -> (s: SubagentStore)
        ensures
            s.wf(),
            s.records().len() == 0,
            s.view_map() == Map::<Seq<char>, SubagentRecordView>::empty(),
    {
        let s = SubagentStore { agents: Vec::new() };
        assert(s.records() =~= Seq::<SubagentRecordView>::empty());
        s
    }

    fn find(&self, id: &str) -> (r: Option<usize>)
        requires
            self.wf(),
        ensures
            match r {
                Some(i) => i < self.records().len() && self.records()[i as int].id == id@,
                None => forall|j: int| 0 <= j < self.records().len() ==> self.records()[j].id != id@,
            },
    {
        let mut i: usize = 0;
        while i < self.agents.len()
            invariant
                i <= self.agents@.len(),
                forall|j: int| 0 <= j < i ==> self.records()[j].id != id@,
            decreases self.agents@.len() - i,
        {
            if str_eq(self.agents[i].id.as_str(), id) {
                return Some(i);
            }
            i = i + 1;
        }
        None
    }

    /// Stores a record under its id, replacing any record with the same id.
    pub fn insert(&mut self, record: SubagentRecord)
        requires
            old(self).wf(),
        ensures
            final(self).wf(),
            final(self).view_map() == old(self).view_map().insert(record@.id, record@),
    {
        let ghost rv = record@;
        match self.find(record.id.as_str()) {
            Some(i) => {
                let ghost old_rs = self.records();
                self.agents.set(i, record);
                proof {
                    assert(self.records() =~= old_rs.update(i as int, rv));
                    lemma_map_update(old_rs, i as int, rv);
                }
            },
            None => {
                let ghost old_rs = self.records();
                self.agents.push(record);
                proof {
                    assert(self.records() =~= old_rs.push(rv));
                    assert(self.records().drop_last() =~= old_rs);
                }
            },
        }
    }

    /// The record stored under `id`.
    pub fn get(&self, id: &str) -> (r: Option<&SubagentRecord>)
        requires
            self.wf(),
        ensures
            match r {
                Some(rec) => self.view_map().contains_key(id@) && self.view_map()[id@] == rec@,
                None => !self.view_map().contains_key(id@),
            },
    {
        proof {
            lemma_map_lookup(self.records());
        }
        match self.find(id) {
            Some(i) => Some(&self.agents[i]),
            None => None,
        }
    }

    /// Removes and returns the record stored under `id`.
    pub fn remove(&mut self, id: &str) -> (r: Option<SubagentRecord>)
        requires
            old(self).wf(),
        ensures
            final(self).wf(),
            final(self).view_map() == old(self).view_map().remove(id@),
            match r {
                Some(rec) => old(self).view_map().contains_key(id@) && old(self).view_map()[id@] == rec@,
                None => !old(self).view_map().contains_key(id@),
            },
    {
        proof {
            lemma_map_lookup(self.records());
        }
        match self.find(id) {
            Some(i) => {
                let ghost old_rs = self.records();
                let rec = self.agents.remove(i);
                proof {
                    assert(self.records() =~= old_rs.remove(i as int));
                    lemma_map_remove(old_rs, i as int);
                }
                Some(rec)
            },
            None => {
                proof {
                    lemma_map_lookup(self.records());
                    assert(self.view_map() =~= old(self).view_map().remove(id@));
                }
                None
            },
        }
    }

    /// All records.
    pub fn list(&self) -> (r: Vec<&SubagentRecord>)
        requires
            self.wf(),
        ensures
            r@.len() == self.records().len(),
            forall|i: int| 0 <= i < r@.len() ==> (#[trigger] r@[i])@ == self.records()[i],
            r@.len() == self.view_map().dom().len(),
            forall|i: int| 0 <= i < r@.len() ==> self.view_map().contains_key((#[trigger] r@[i])@.id)
                && self.view_map()[r@[i]@.id] == r@[i]@,
            forall|k: Seq<char>| #[trigger] self.view_map().contains_key(k) ==> exists|i: int|
                0 <= i < r@.len() && (#[trigger] r@[i])@.id == k,
    {
        let mut r: Vec<&SubagentRecord> = Vec::new();
        let mut i: usize = 0;
        while i < self.agents.len()
            invariant
                i <= self.agents@.len(),
                r@.len() == i,
                forall|j: int| 0 <= j < i ==> (#[trigger] r@[j])@ == self.records()[j],
            decreases self.agents@.len() - i,
        {
            r.push(&self.agents[i]);
            i = i + 1;
        }
        proof {
            lemma_map_lookup(self.records());
            lemma_map_len(self.records());
            assert forall|k: Seq<char>| #[trigger] self.view_map().contains_key(k) implies exists|i: int|
                0 <= i < r@.len() && (#[trigger] r@[i])@.id == k by {
                let j = choose|j: int| 0 <= j < self.records().len() && self.records()[j].id == k;
                assert(r@[j]@.id == k);
            }
        }
        r
    }
}

/// With distinct ids, the map holds exactly each record under its id.
pub proof fn lemma_map_lookup(rs: Seq<SubagentRecordView>)
    requires
        ids_distinct(rs),
    ensures
        forall|k: Seq<char>| #[trigger] records_map(rs).contains_key(k) <==> exists|i: int|
            0 <= i < rs.len() && rs[i].id == k,
        forall|i: int| 0 <= i < rs.len() ==> records_map(rs).contains_key(#[trigger] rs[i].id)
            && records_map(rs)[rs[i].id] == rs[i],
    decreases rs.len(),
{
    if rs.len() > 0 {
        let p = rs.drop_last();
        let last = rs[rs.len() - 1];
        assert(ids_distinct(p)) by {
            assert forall|a: int, b: int| 0 <= a < p.len() && 0 <= b < p.len() && a != b implies p[a].id != p[b].id by {
                assert(p[a] == rs[a]);
                assert(p[b] == rs[b]);
            }
        }
        lemma_map_lookup(p);
        assert(records_map(rs) == records_map(p).insert(last.id, last));
        assert forall|k: Seq<char>| #[trigger] records_map(rs).contains_key(k) implies exists|i: int|
            0 <= i < rs.len() && rs[i].id == k by {
            if k != last.id {
                assert(records_map(p).contains_key(k));
                let i = choose|i: int| 0 <= i < p.len() && p[i].id == k;
                assert(rs[i] == p[i]);
                assert(0 <= i < rs.len() && rs[i].id == k);
            } else {
                assert(0 <= rs.len() - 1 < rs.len() && rs[rs.len() - 1].id == k);
            }
        }
        assert forall|k: Seq<char>| (exists|i: int| 0 <= i < rs.len() && rs[i].id == k) implies
            #[trigger] records_map(rs).contains_key(k) by {
            let i = choose|i: int| 0 <= i < rs.len() && rs[i].id == k;
            if i < rs.len() - 1 {
                assert(p[i] == rs[i]);
                assert(records_map(p).contains_key(p[i].id));
            }
        }
        assert forall|i: int| 0 <= i < rs.len() implies records_map(rs).contains_key(#[trigger] rs[i].id)
            && records_map(rs)[rs[i].id] == rs[i] by {
            if i < rs.len() - 1 {
                assert(p[i] == rs[i]);
                assert(rs[i].id != last.id);
                assert(records_map(p).contains_key(p[i].id));
            }
        }
    }
}

/// The number of keys equals the number of records.
pub proof fn lemma_map_len(rs: Seq<SubagentRecordView>)
    requires
        ids_distinct(rs),
    ensures
        records_map(rs).dom().finite(),
        records_map(rs).dom().len() == rs.len(),
    decreases rs.len(),
{
    if rs.len() > 0 {
        let p = rs.drop_last();
        assert(ids_distinct(p)) by {
            assert forall|a: int, b: int| 0 <= a < p.len() && 0 <= b < p.len() && a != b implies p[a].id != p[b].id by {
                assert(p[a] == rs[a]);
                assert(p[b] == rs[b]);
            }
        }
        lemma_map_len(p);
        lemma_map_lookup(p);
        if records_map(p).contains_key(rs.last().id) {
            let i = choose|i: int| 0 <= i < p.len() && p[i].id == rs.last().id;
            assert(rs[i] == p[i]);
            assert(rs[i].id == rs[rs.len() - 1].id);
        }
    }
}

proof fn lemma_map_update(rs: Seq<SubagentRecordView>, i: int, v: SubagentRecordView)
    requires
        ids_distinct(rs),
        0 <= i < rs.len(),
        rs[i].id == v.id,
    ensures
        ids_distinct(rs.update(i, v)),
        records_map(rs.update(i, v)) == records_map(rs).insert(v.id, v),
{
    let t = rs.update(i, v);
    assert(ids_distinct(t)) by {
        assert forall|a: int, b: int| 0 <= a < t.len() && 0 <= b < t.len() && a != b implies t[a].id != t[b].id by {
            assert(t[a].id == rs[a].id);
            assert(t[b].id == rs[b].id);
        }
    }
    lemma_map_lookup(rs);
    lemma_map_lookup(t);
    assert(records_map(t) =~= records_map(rs).insert(v.id, v)) by {
        assert forall|k: Seq<char>| #[trigger] records_map(t).contains_key(k) <==> records_map(rs).insert(v.id, v).contains_key(k) by {
            if records_map(t).contains_key(k) {
                let j = choose|j: int| 0 <= j < t.len() && t[j].id == k;
                assert(rs[j].id == k);
            }
            if records_map(rs).contains_key(k) {
                let j = choose|j: int| 0 <= j < rs.len() && rs[j].id == k;
                assert(t[j].id == k);
            }
            if k == v.id {
                assert(t[i].id == k);
            }
        }
        assert forall|k: Seq<char>| #[trigger] records_map(t).contains_key(k) implies records_map(t)[k] == records_map(rs).insert(v.id, v)[k] by {
            let j = choose|j: int| 0 <= j < t.len() && t[j].id == k;
            assert(records_map(t)[t[j].id] == t[j]);
            if j != i {
                assert(rs[j] == t[j]);
                assert(records_map(rs)[rs[j].id] == rs[j]);
            }
        }
    }
}

proof fn lemma_map_remove(rs: Seq<SubagentRecordView>, i: int)
    requires
        ids_distinct(rs),
        0 <= i < rs.len(),
    ensures
        ids_distinct(rs.remove(i)),
        records_map(rs.remove(i)) == records_map(rs).remove(rs[i].id),
{
    let t = rs.remove(i);
    let id = rs[i].id;
    assert(ids_distinct(t)) by {
        assert forall|a: int, b: int| 0 <= a < t.len() && 0 <= b < t.len() && a != b implies t[a].id != t[b].id by {
            let a2 = if a < i { a } else { a + 1 };
            let b2 = if b < i { b } else { b + 1 };
            assert(t[a] == rs[a2]);
            assert(t[b] == rs[b2]);
        }
    }
    lemma_map_lookup(rs);
    lemma_map_lookup(t);
    assert(records_map(t) =~= records_map(rs).remove(id)) by {
        assert forall|k: Seq<char>| #[trigger] records_map(t).contains_key(k) <==> records_map(rs).remove(id).contains_key(k) by {
            if records_map(t).contains_key(k) {
                let j = choose|j: int| 0 <= j < t.len() && t[j].id == k;
                let j2 = if j < i { j } else { j + 1 };
                assert(t[j] == rs[j2]);
                assert(j2 != i);
            }
            if records_map(rs).contains_key(k) && k != id {
                let j = choose|j: int| 0 <= j < rs.len() && rs[j].id == k;
                assert(j != i);
                let j2 = if j < i { j } else { j - 1 };
                assert(t[j2] == rs[j]);
            }
        }
        assert forall|k: Seq<char>| #[trigger] records_map(t).contains_key(k) implies records_map(t)[k] == records_map(rs).remove(id)[k] by {
            let j = choose|j: int| 0 <= j < t.len() && t[j].id == k;
            let j2 = if j < i { j } else { j + 1 };
            assert(t[j] == rs[j2]);
            assert(records_map(t)[t[j].id] == t[j]);
            assert(records_map(rs)[rs[j2].id] == rs[j2]);
        }
    }
}

/// Law: a record can be read back under its id right after it is stored, and storing it leaves
/// every other id as it was.
pub proof fn lemma_get_after_insert(
    m: Map<Seq<char>, SubagentRecordView>,
    rec: SubagentRecordView,
    other: Seq<char>,
)
    requires
        other != rec.id,
    ensures
        m.insert(rec.id, rec).contains_key(rec.id),
        m.insert(rec.id, rec)[rec.id] == rec,
        m.insert(rec.id, rec).contains_key(other) == m.contains_key(other),
        m.contains_key(other) ==> m.insert(rec.id, rec)[other] == m[other],
{
}

/// Law: after removing an id, nothing is stored under it.
pub proof fn lemma_get_after_remove(m: Map<Seq<char>, SubagentRecordView>, id: Seq<char>)
    ensures
        !m.remove(id).contains_key(id),
{
}

/// A kind of subagent: its name, what it is for, the tools it may use and its instructions.
#[derive(Debug, Clone)]
pub struct SubagentType {
    pub name: String,
    pub description: String,
    pub tools: Vec<String>,
    pub system_prompt: String,
}

impl SubagentType {
    /// A copy.
    pub fn duplicate(&self) -> (r: SubagentType)
        ensures
            r.name@ == self.name@,
            r.description@ == self.description@,
            crate::text_split::strings_view(r.tools@) == crate::text_split::strings_view(self.tools@),
            r.system_prompt@ == self.system_prompt@,
    {
        let mut tools: Vec<String> = Vec::new();
        let mut i: usize = 0;
        while i < self.tools.len()
            invariant
                i <= self.tools@.len(),
                crate::text_split::strings_view(tools@) == crate::text_split::strings_view(self.tools@).take(i as int),
            decreases self.tools@.len() - i,
        {
            crate::text_split::push_text(&mut tools, crate::llm::copy_string(&self.tools[i]));
            assert(crate::text_split::strings_view(tools@) =~= crate::text_split::strings_view(self.tools@).take(i + 1));
            i = i + 1;
        }
        assert(crate::text_split::strings_view(self.tools@).take(self.tools@.len() as int) =~= crate::text_split::strings_view(self.tools@));
        SubagentType {
            name: crate::llm::copy_string(&self.name),
            description: crate::llm::copy_string(&self.description),
            tools,
            system_prompt: crate::llm::copy_string(&self.system_prompt),
        }
    }
}

/// The kinds of subagent on offer, by name.
#[derive(Debug, Clone)]
pub struct LaborMarket {
    pub types: Vec<(String, SubagentType)>,
}

pub open spec fn type_names(m: Seq<(String, SubagentType)>) -> Seq<Seq<char>> {
    m.map_values(|e: (String, SubagentType)| e.0@)
}

fn text(s: &str) -> (r: String)
    ensures
        r@ == s@,
{
    String::from_str(s)
}

fn names2(a: &str, b: &str) -> (r: Vec<String>)
    ensures
        r@.len() == 2 && r@[0]@ == a@ && r@[1]@ == b@,
{
    let mut r = Vec::new();
    r.push(text(a));
    r.push(text(b));
    r
}

impl LaborMarket {
    /// The three kinds: `explore` (reads and runs commands), `coder` (also writes files) and
    /// `plan` (reads and thinks).
    pub fn new() -> (m: LaborMarket)
        ensures
            type_names(m.types@) == seq!["explore"@, "coder"@, "plan"@],
            forall|i: int| 0 <= i < m.types@.len() ==> (#[trigger] m.types@[i]).1.name@ == m.types@[i].0@,
            m.types@[0].1.tools@.len() == 2 && m.types@[0].1.tools@[0]@ == "ReadFile"@ && m.types@[0].1.tools@[1]@ == "Shell"@,
            m.types@[0].1.system_prompt@ == "You are an explore agent. Be concise."@,
            m.types@[0].1.description@ == "Explore a codebase quickly"@,
            m.types@[1].1.tools@.len() == 3 && m.types@[1].1.tools@[0]@ == "ReadFile"@ && m.types@[1].1.tools@[1]@ == "WriteFile"@
                && m.types@[1].1.tools@[2]@ == "Shell"@,
            m.types@[1].1.system_prompt@ == "You are a coding agent. Write clean, correct code."@,
            m.types@[1].1.description@ == "Write and edit code"@,
            m.types@[2].1.tools@.len() == 2 && m.types@[2].1.tools@[0]@ == "ReadFile"@ && m.types@[2].1.tools@[1]@ == "Think"@,
            m.types@[2].1.system_prompt@ == "You are a planning agent. Create detailed plans."@,
            m.types@[2].1.description@ == "Create implementation plans"@,
    {
        let mut types: Vec<(String, SubagentType)> = Vec::new();
        types.push((text("explore"), SubagentType {
            name: text("explore"),
            description: text("Explore a codebase quickly"),
            tools: names2("ReadFile", "Shell"),
            system_prompt: text("You are an explore agent. Be concise."),
        }));
        let mut coder_tools = names2("ReadFile", "WriteFile");
        coder_tools.push(text("Shell"));
        types.push((text("coder"), SubagentType {
            name: text("coder"),
            description: text("Write and edit code"),
            tools: coder_tools,
            system_prompt: text("You are a coding agent. Write clean, correct code."),
        }));
        types.push((text("plan"), SubagentType {
            name: text("plan"),
            description: text("Create implementation plans"),
            tools: names2("ReadFile", "Think"),
            system_prompt: text("You are a planning agent. Create detailed plans."),
        }));
        assert(type_names(types@) =~= seq!["explore"@, "coder"@, "plan"@]);
        LaborMarket { types }
    }

    /// The kind with the given name (the first one listed under it).
    pub fn get(&self, name: &str) -> (r: Option<&SubagentType>)
        ensures
            match r {
                Some(t) => exists|i: int| 0 <= i < self.types@.len() && self.types@[i].0@ == name@
                    && self.types@[i].1 == *t && forall|j: int| 0 <= j < i ==> self.types@[j].0@ != name@,
                None => forall|i: int| 0 <= i < self.types@.len() ==> self.types@[i].0@ != name@,
            },
    {
        let mut i: usize = 0;
        while i < self.types.len()
            invariant
                i <= self.types@.len(),
                forall|j: int| 0 <= j < i ==> self.types@[j].0@ != name@,
            decreases self.types@.len() - i,
        {
            if str_eq(self.types[i].0.as_str(), name) {
                return Some(&self.types[i].1);
            }
            i = i + 1;
        }
        None
    }
}

/// The instructions a subagent runs with: its kind's, then the task and the call to focus on it.
pub open spec fn subagent_prompt(system: Seq<char>, task: Seq<char>) -> Seq<char> {
    system + "\n\nYou are a specialized subagent. Your task: "@ + task + "\n\nBe concise. Focus only on the assigned task."@
}

/// Builds the instructions of a subagent for a task.
pub fn subagent_system_prompt(t: &SubagentType, task: &str) -> (r: String)
    ensures
        r@ == subagent_prompt(t.system_prompt@, task@),
{
    let mut r = String::from_str(t.system_prompt.as_str());
    append_str(&mut r, "\n\nYou are a specialized subagent. Your task: ");
    append_str(&mut r, task);
    append_str(&mut r, "\n\nBe concise. Focus only on the assigned task.");
    r
}

/// The names of `avail` that also appear in `allowed`, in the order of `avail`.
pub open spec fn keep_listed(avail: Seq<Seq<char>>, allowed: Seq<Seq<char>>) -> Seq<Seq<char>>
    decreases avail.len(),
{
    if avail.len() == 0 {
        Seq::empty()
    } else if allowed.contains(avail.last()) {
        keep_listed(avail.drop_last(), allowed).push(avail.last())
    } else {
        keep_listed(avail.drop_last(), allowed)
    }
}

/// The names among `available` that are also in `allowed`, in the order of `available`.
pub fn filter_listed(available: &Vec<String>, allowed: &Vec<String>) -> (r: Vec<String>)
    ensures
        crate::text_split::strings_view(r@) == keep_listed(crate::text_split::strings_view(available@), crate::text_split::strings_view(allowed@)),
{
    let ghost av = crate::text_split::strings_view(available@);
    let ghost al = crate::text_split::strings_view(allowed@);
    let mut r: Vec<String> = Vec::new();
    let mut i: usize = 0;
    while i < available.len()
        invariant
            i <= available@.len(),
            av == crate::text_split::strings_view(available@),
            al == crate::text_split::strings_view(allowed@),
            crate::text_split::strings_view(r@) == keep_listed(av.take(i as int), al),
        decreases available@.len() - i,
    {
        proof {
            let t = av.take(i + 1);
            assert(t.drop_last() =~= av.take(i as int));
            assert(t.last() == available@[i as int]@);
        }
        let listed = crate::soul::contains_name(allowed, available[i].as_str());
        proof {
            if listed {
                let j = choose|j: int| 0 <= j < allowed@.len() && allowed@[j]@ == available@[i as int]@;
                assert(al[j] == available@[i as int]@);
            } else {
                assert forall|j: int| 0 <= j < al.len() implies al[j] != av[i as int] by {
                    assert(al[j] == allowed@[j]@);
                }
            }
        }
        if listed {
            let ghost before = r@;
            let name = crate::llm::copy_string(&available[i]);
            r.push(name);
            assert(crate::text_split::strings_view(r@) =~= crate::text_split::strings_view(before).push(av[i as int]));
        }
        i = i + 1;
    }
    assert(av.take(available@.len() as int) =~= av);
    r
}

/// The tools, among `available`, that a kind of subagent may use, in the order of `available`.
pub fn subagent_tools(t: &SubagentType, available: &Vec<String>) -> (r: Vec<String>)
    ensures
        crate::text_split::strings_view(r@) == keep_listed(crate::text_split::strings_view(available@), crate::text_split::strings_view(t.tools@)),
{
    filter_listed(available, &t.tools)
}

/// A subagent record with the given status.
pub fn record(id: &str, agent_type: &str, status: &str) -> (r: SubagentRecord)
    ensures
        r@ == (SubagentRecordView { id: id@, agent_type: agent_type@, status: status@ }),
{
    SubagentRecord { id: String::from_str(id), agent_type: String::from_str(agent_type), status: String::from_str(status) }
}

/// What a subagent run in the foreground reports: the task and its result, or the failure.
pub open spec fn foreground_report(name: Seq<char>, task: Seq<char>, result: Result<Seq<char>, Seq<char>>) -> Seq<char> {
    match result {
        Ok(r) => "Subagent '"@ + name + "' completed task:\n---\n"@ + task + "\n---\nResult:\n"@ + r,
        Err(e) => "Subagent '"@ + name + "' failed: "@ + e,
    }
}

/// Records how a subagent run ended (`completed` or `failed`) and reports it.
pub fn finish_foreground(
    store: &mut SubagentStore,
    id: &str,
    t: &SubagentType,
    task: &str,
    result: Result<String, String>,
) -> (report: String)
    requires
        old(store).wf(),
    ensures
        final(store).wf(),
        report@ == foreground_report(t.name@, task@, crate::slash::result_text(result)),
        final(store).view_map() == old(store).view_map().insert(
            id@,
            SubagentRecordView {
                id: id@,
                agent_type: t.name@,
                status: if result is Ok { "completed"@ } else { "failed"@ },
            },
        ),
{
    match result {
        Ok(r) => {
            store.insert(record(id, t.name.as_str(), "completed"));
            let mut s = String::from_str("Subagent '");
            append_str(&mut s, t.name.as_str());
            append_str(&mut s, "' completed task:\n---\n");
            append_str(&mut s, task);
            append_str(&mut s, "\n---\nResult:\n");
            append_str(&mut s, r.as_str());
            s
        },
        Err(e) => {
            store.insert(record(id, t.name.as_str(), "failed"));
            let mut s = String::from_str("Subagent '");
            append_str(&mut s, t.name.as_str());
            append_str(&mut s, "' failed: ");
            append_str(&mut s, e.as_str());
            s
        },
    }
}

/// Records a subagent run that has started.
pub fn start_subagent(store: &mut SubagentStore, id: &str, t: &SubagentType)
    requires
        old(store).wf(),
    ensures
        final(store).wf(),
        final(store).view_map() == old(store).view_map().insert(
            id@,
            SubagentRecordView { id: id@, agent_type: t.name@, status: "running"@ },
        ),
{
    store.insert(record(id, t.name.as_str(), "running"));
}

/// What a background subagent run reports when it starts.
pub fn background_started(t: &SubagentType, task: &str, id: &str) -> (r: String)
    ensures
        r@ == "Background subagent "@ + t.name@ + " started for task: "@ + task@ + " (id: "@ + id@ + ")"@,
{
    let mut s = String::from_str("Background subagent ");
    append_str(&mut s, t.name.as_str());
    append_str(&mut s, " started for task: ");
    append_str(&mut s, task);
    append_str(&mut s, " (id: ");
    append_str(&mut s, id);
    append_str(&mut s, ")");
    s
}

/// Records how a background subagent run ended.
pub fn finish_background(store: &mut SubagentStore, id: &str, t: &SubagentType, succeeded: bool)
    requires
        old(store).wf(),
    ensures
        final(store).wf(),
        final(store).view_map() == old(store).view_map().insert(
            id@,
            SubagentRecordView { id: id@, agent_type: t.name@, status: if succeeded { "completed"@ } else { "failed"@ } },
        ),
{
    if succeeded {
        store.insert(record(id, t.name.as_str(), "completed"));
    } else {
        store.insert(record(id, t.name.as_str(), "failed"));
    }
}

/// Runs subagents: what it records and reports around a run.
#[derive(Debug, Clone, Copy)]
pub struct SubagentRunner;

impl SubagentRunner {
    /// Records the start of a run and gives the instructions and tools it runs with.
    pub fn prepare(store: &mut SubagentStore, id: &str, t: &SubagentType, task: &str, available: &Vec<String>) -> (r: (String, Vec<String>))
        requires
            old(store).wf(),
        ensures
            final(store).wf(),
            final(store).view_map() == old(store).view_map().insert(
                id@,
                SubagentRecordView { id: id@, agent_type: t.name@, status: "running"@ },
            ),
            r.0@ == subagent_prompt(t.system_prompt@, task@),
            crate::text_split::strings_view(r.1@) == keep_listed(crate::text_split::strings_view(available@), crate::text_split::strings_view(t.tools@)),
    {
        start_subagent(store, id, t);
        (subagent_system_prompt(t, task), subagent_tools(t, available))
    }
}

/// The records after storing each of `rs` in turn.
pub open spec fn record_all(m: Map<Seq<char>, SubagentRecordView>, rs: Seq<SubagentRecordView>) -> Map<Seq<char>, SubagentRecordView>
    decreases rs.len(),
{
    if rs.len() == 0 {
        m
    } else {
        record_all(m, rs.drop_last()).insert(rs.last().id, rs.last())
    }
}

proof fn lemma_record_all_keeps(m: Map<Seq<char>, SubagentRecordView>, rs: Seq<SubagentRecordView>, id: Seq<char>)
    requires
        m.contains_key(id),
        forall|i: int| 0 <= i < rs.len() ==> (#[trigger] rs[i]).id != id,
    ensures
        record_all(m, rs).contains_key(id),
        record_all(m, rs)[id] == m[id],
    decreases rs.len(),
{
    if rs.len() > 0 {
        let rest = rs.drop_last();
        assert forall|i: int| 0 <= i < rest.len() implies (#[trigger] rest[i]).id != id by {
            assert(rest[i] == rs[i]);
        }
        lemma_record_all_keeps(m, rest, id);
        assert(rs.last() == rs[rs.len() - 1]);
    }
}

/// Law: a background subagent's record reads `running`, with the subagent's kind, from the start
/// of its run while other runs are recorded under other ids; when the run ends it reads
/// `completed` or `failed`, and stays so while only other ids are recorded.
pub proof fn lemma_background_run_record(
    m: Map<Seq<char>, SubagentRecordView>,
    id: Seq<char>,
    kind: Seq<char>,
    during: Seq<SubagentRecordView>,
    succeeded: bool,
    after: Seq<SubagentRecordView>,
)
    requires
        forall|i: int| 0 <= i < during.len() ==> (#[trigger] during[i]).id != id,
        forall|i: int| 0 <= i < after.len() ==> (#[trigger] after[i]).id != id,
    ensures
        ({
            let started = record_all(m.insert(id, SubagentRecordView { id, agent_type: kind, status: "running"@ }), during);
            let ended = record_all(
                started.insert(
                    id,
                    SubagentRecordView { id, agent_type: kind, status: if succeeded { "completed"@ } else { "failed"@ } },
                ),
                after,
            );
            &&& started.contains_key(id)
            &&& started[id] == SubagentRecordView { id, agent_type: kind, status: "running"@ }
            &&& ended.contains_key(id)
            &&& ended[id].agent_type == kind
            &&& ended[id].status == if succeeded { "completed"@ } else { "failed"@ }
        }),
{
    let run = SubagentRecordView { id, agent_type: kind, status: "running"@ };
    let done = SubagentRecordView { id, agent_type: kind, status: if succeeded { "completed"@ } else { "failed"@ } };
    lemma_record_all_keeps(m.insert(id, run), during, id);
    let started = record_all(m.insert(id, run), during);
    lemma_record_all_keeps(started.insert(id, done), after, id);
}

} // verus!
