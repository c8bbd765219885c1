//! Which tool calls are approved without asking, and the approval requests waiting for an answer.
use vstd::prelude::*;
use crate::text::str_eq;

verus! {

/// The approval policy: approve everything (`yolo`), or per tool name.
#[derive(Debug, Clone)]
pub struct ApprovalPolicy {
    yolo: bool,
    per_action: Vec<(String, bool)>,
}

/// The per-tool choices as pairs, at most one per tool.
pub open spec fn choices_view(v: Seq<(String, bool)>) -> Seq<(Seq<char>, bool)> {
    v.map_values(|e: (String, bool)| (e.0@, e.1))
}

pub open spec fn choices_distinct(c: Seq<(Seq<char>, bool)>) -> bool {
    forall|i: int, j: int| 0 <= i < c.len() && 0 <= j < c.len() && i != j ==> c[i].0 != c[j].0
}

/// The choice made for a tool.
pub open spec fn choice_for(c: Seq<(Seq<char>, bool)>, tool: Seq<char>) -> Option<bool> {
    if exists|i: int| 0 <= i < c.len() && c[i].0 == tool {
        Some(c[choose|i: int| 0 <= i < c.len() && c[i].0 == tool].1)
    } else {
        None
    }
}

impl ApprovalPolicy {
    pub closed spec fn is_yolo_spec(&self) -> bool {
        self.yolo
    }

    /// The per-tool choices.
    pub closed spec fn choices(&self) -> Seq<(Seq<char>, bool)> {
        choices_view(self.per_action@)
    }

    pub open spec fn wf(&self) -> bool {
        choices_distinct(self.choices())
    }

    /// Whether a call of `tool` is approved without asking.
    pub open spec fn auto_approves(&self, tool: Seq<char>) -> bool {
        self.is_yolo_spec() || choice_for(self.choices(), tool) == Some(true)
    }

    /// A policy that asks for everything.
    pub fn new() -> (p: ApprovalPolicy)
        ensures
            p.wf(),
            !p.is_yolo_spec(),
            p.choices().len() == 0,
    {
        let p = ApprovalPolicy { yolo: false, per_action: Vec::new() };
        assert(p.choices() =~= Seq::<(Seq<char>, bool)>::empty());
        p
    }

    /// Turns approving everything on or off.
    pub fn set_yolo(&mut self, yolo: bool)
        ensures
            final(self).is_yolo_spec() == yolo,
            final(self).choices() == old(self).choices(),
    {
        self.yolo = yolo;
    }

    /// Whether everything is approved.
    pub fn is_yolo(&self) -> (b: bool)
        ensures
            b == self.is_yolo_spec(),
    {
        self.yolo
    }

    fn find(&self, tool: &str) -> (r: Option<usize>)
        requires
            self.wf(),
        ensures
            match r {
                Some(i) => i < self.choices().len() && self.choices()[i as int].0 == tool@
                    && choice_for(self.choices(), tool@) == Some(self.choices()[i as int].1),
                None => choice_for(self.choices(), tool@).is_none(),
            },
    {
        let mut i: usize = 0;
        while i < self.per_action.len()
            invariant
                i <= self.per_action@.len(),
                self.wf(),
                forall|j: int| 0 <= j < i ==> self.choices()[j].0 != tool@,
            decreases self.per_action@.len() - i,
        {
            if str_eq(self.per_action[i].0.as_str(), tool) {
                proof {
                    assert(self.choices()[i as int].0 == tool@);
                    let k = choose|k: int| 0 <= k < self.choices().len() && self.choices()[k].0 == tool@;
                    if k != i {
                        assert(self.choices()[k].0 != self.choices()[i as int].0);
                    }
                }
                return Some(i);
            }
            i = i + 1;
        }
        None
    }

    /// Records the choice for a tool, replacing an earlier one.
    pub fn set_per_action(&mut self, tool: String, approved: bool)
        requires
            old(self).wf(),
        ensures
            final(self).wf(),
            final(self).is_yolo_spec() == old(self).is_yolo_spec(),
            choice_for(final(self).choices(), tool@) == Some(approved),
            forall|t: Seq<char>| t != tool@ ==> choice_for(final(self).choices(), t) == choice_for(old(self).choices(), t),
    {
        let ghost before = self.choices();
        let ghost tv = tool@;
        match self.find(tool.as_str()) {
            Some(i) => {
                self.per_action.set(i, (tool, approved));
                proof {
                    let after = self.choices();
                    assert(after =~= before.update(i as int, (tv, approved)));
                    assert(after[i as int].0 == tv);
                    assert forall|t: Seq<char>| t != tv implies choice_for(after, t) == choice_for(before, t) by {
                        if exists|j: int| 0 <= j < after.len() && after[j].0 == t {
                            let j = choose|j: int| 0 <= j < after.len() && after[j].0 == t;
                            assert(before[j] == after[j]);
                            let k = choose|k: int| 0 <= k < before.len() && before[k].0 == t;
                            if k != j {
                                assert(before[k].0 != before[j].0);
                            }
                        } else {
                            assert forall|j: int| 0 <= j < before.len() implies before[j].0 != t by {
                                if j != i {
                                    assert(before[j] == after[j]);
                                }
                            }
                        }
                    }
                    let k = choose|k: int| 0 <= k < after.len() && after[k].0 == tv;
                    if k != i {
                        assert(before[k] == after[k]);
                        assert(before[k].0 != before[i as int].0);
                    }
                }
            },
            None => {
                self.per_action.push((tool, approved));
                proof {
                    let after = self.choices();
                    assert(after =~= before.push((tv, approved)));
                    assert forall|a: int, b: int| 0 <= a < after.len() && 0 <= b < after.len() && a != b implies after[a].0 != after[b].0 by {
                        if a < before.len() && b < before.len() {
                            assert(before[a] == after[a] && before[b] == after[b]);
                        } else if a < before.len() {
                            assert(before[a] == after[a]);
                        } else if b < before.len() {
                            assert(before[b] == after[b]);
                        }
                    }
                    assert(after[before.len() as int].0 == tv);
                    let k = choose|k: int| 0 <= k < after.len() && after[k].0 == tv;
                    if k < before.len() {
                        assert(before[k] == after[k]);
                    }
                    assert forall|t: Seq<char>| t != tv implies choice_for(after, t) == choice_for(before, t) by {
                        if exists|j: int| 0 <= j < before.len() && before[j].0 == t {
                            let j = choose|j: int| 0 <= j < before.len() && before[j].0 == t;
                            assert(after[j] == before[j]);
                            let k2 = choose|k2: int| 0 <= k2 < after.len() && after[k2].0 == t;
                            if k2 != j {
                                assert(after[k2].0 != after[j].0);
                            }
                        } else {
                            assert forall|j: int| 0 <= j < after.len() implies after[j].0 != t by {
                                if j < before.len() {
                                    assert(after[j] == before[j]);
                                }
                            }
                        }
                    }
                }
            },
        }
    }

    /// Copies of the per-tool choices.
    pub fn get_per_action(&self) -> (r: Vec<(String, bool)>)
        ensures
            choices_view(r@) == self.choices(),
    {
        let mut r: Vec<(String, bool)> = Vec::new();
        let mut i: usize = 0;
        while i < self.per_action.len()
            invariant
                i <= self.per_action@.len(),
                r@.len() == i,
                forall|j: int| 0 <= j < i ==> (#[trigger] r@[j]).0@ == self.per_action@[j].0@ && r@[j].1 == self.per_action@[j].1,
            decreases self.per_action@.len() - i,
        {
            r.push((crate::llm::copy_string(&self.per_action[i].0), self.per_action[i].1));
            i = i + 1;
        }
        assert(choices_view(r@) =~= self.choices());
        r
    }

    /// Whether a call of `tool` is approved without asking: everything is approved, or the tool
    /// was chosen to be.
    pub fn is_auto_approved(&self, tool: &str) -> (b: bool)
        requires
            self.wf(),
        ensures
            b == self.auto_approves(tool@),
    {
        if self.yolo {
            return true;
        }
        match self.find(tool) {
            Some(i) => self.per_action[i].1,
            None => false,
        }
    }
}

/// Law: a tool chosen to be approved is approved without asking, whatever else is chosen
/// afterwards for other tools.
pub proof fn lemma_chosen_tool_approved(p: ApprovalPolicy, q: ApprovalPolicy, tool: Seq<char>)
    requires
        choice_for(p.choices(), tool) == Some(true),
        q.is_yolo_spec() == p.is_yolo_spec(),
        choice_for(q.choices(), tool) == choice_for(p.choices(), tool),
    ensures
        p.auto_approves(tool),
        q.auto_approves(tool),
{
}

/// Law: when everything is approved, every tool is approved without asking.
pub proof fn lemma_yolo_approves_all(p: ApprovalPolicy, tool: Seq<char>)
    requires
        p.is_yolo_spec(),
    ensures
        p.auto_approves(tool),
{
}

/// The approval requests that wait for an answer, by id, oldest first.
#[derive(Debug, Clone)]
pub struct PendingApprovals {
    ids: Vec<String>,
}

impl PendingApprovals {
    pub closed spec fn waiting(&self) -> Seq<Seq<char>> {
        crate::text_split::strings_view(self.ids@)
    }

    /// None waiting.
    pub fn new() -> (p: PendingApprovals)
        ensures
            p.waiting().len() == 0,
    {
        let p = PendingApprovals { ids: Vec::new() };
        assert(p.waiting() =~= Seq::<Seq<char>>::empty());
        p
    }

    /// Registers a request waiting for an answer.
    pub fn register(&mut self, id: String)
        ensures
            final(self).waiting() == old(self).waiting().push(id@),
    {
        crate::text_split::push_text(&mut self.ids, id);
    }

    /// Takes the request with the given id out of those waiting; false when none waits under it.
    pub fn resolve(&mut self, id: &str) -> (found: bool)
        ensures
            found == old(self).waiting().contains(id@),
            found ==> exists|i: int| 0 <= i < old(self).waiting().len() && old(self).waiting()[i] == id@
                && final(self).waiting() == old(self).waiting().remove(i),
            !found ==> final(self).waiting() == old(self).waiting(),
    {
        let mut i: usize = 0;
        while i < self.ids.len()
            invariant
                i <= self.ids@.len(),
                self.ids@ == old(self).ids@,
                forall|j: int| 0 <= j < i ==> self.waiting()[j] != id@,
            decreases self.ids@.len() - i,
        {
            if str_eq(self.ids[i].as_str(), id) {
                let ghost before = self.waiting();
                self.ids.remove(i);
                assert(self.waiting() =~= before.remove(i as int));
                assert(before[i as int] == id@);
                return true;
            }
            i = i + 1;
        }
        assert(self.waiting() == old(self).waiting());
        assert(!old(self).waiting().contains(id@)) by {
            if old(self).waiting().contains(id@) {
                let j = choose|j: int| 0 <= j < old(self).waiting().len() && old(self).waiting()[j] == id@;
                assert(self.waiting()[j] != id@);
            }
        }
        false
    }

    /// Whether any request waits.
    pub fn has_pending(&self) -> (b: bool)
        ensures
            b == (self.waiting().len() > 0),
    {
        self.ids.len() > 0
    }
}

/// A request for approval of a tool call (its arguments as JSON text).
#[derive(Debug, Clone)]
pub struct ApprovalRequest {
    pub id: String,
    pub tool_name: String,
    pub arguments: String,
}

/// The answer to an approval request.
#[derive(Debug, Clone)]
pub struct ApprovalResponse {
    pub request_id: String,
    pub approved: bool,
    pub reason: Option<String>,
}

impl ApprovalPolicy {
    /// The answer given without asking: approved, under a fresh random id.
    pub fn auto_response(&self) -> (r: ApprovalResponse)
        ensures
            r.approved,
            r.reason.is_none(),
            r.request_id@.len() == 36,
    {
        ApprovalResponse { request_id: crate::session::new_id(), approved: true, reason: None }
    }
}

/// The answer to the request with the given id.
pub fn answer(request_id: &str, approved: bool, reason: Option<String>) -> (r: ApprovalResponse)
    ensures
        r.request_id@ == request_id@,
        r.approved == approved,
        r.reason == reason,
{
    ApprovalResponse { request_id: String::from_str(request_id), approved, reason }
}

} // verus!
