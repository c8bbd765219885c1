//! Checkpoints of the conversation that can be rolled back to.
use vstd::prelude::*;
use std::collections::VecDeque;
use crate::llm::{Message, MessageView, messages_view, copy_messages};
use crate::queue::{keep_last, push_bounded};
use crate::text::{decimal, digit_char, str_eq, u64_to_string};

verus! {

broadcast use vstd::std_specs::vecdeque::group_vec_dequeue_axioms;

/// A saved copy of the conversation.
#[derive(Debug, Clone)]
pub struct Checkpoint {
    pub id: String,
    pub messages: Vec<Message>,
    pub description: String,
}

pub struct CheckpointView {
    pub id: Seq<char>,
    pub messages: Seq<MessageView>,
    pub description: Seq<char>,
}

impl View for Checkpoint {
    type V = CheckpointView;

    open spec fn view(&self) -> CheckpointView {
        CheckpointView {
            id: self.id@,
            messages: messages_view(self.messages@),
            description: self.description@,
        }
    }
}

/// A bounded store of checkpoints, oldest first, with the number of ids given out so far.
pub struct DenwaRenji {
    checkpoints: VecDeque<Checkpoint>,
    max_checkpoints: usize,
    issued: u64,
}

/// The id of the checkpoint numbered `n` (numbers count the checkpoints taken, from 0).
pub open spec fn checkpoint_id(n: nat) -> Seq<char> {
    "checkpoint-"@ + decimal(n)
}

/// The ids of the held checkpoints are those of the last ones taken, in order: with `n` taken,
/// the i-th held is numbered `n - len + i`.
pub open spec fn consecutive_ids(cs: Seq<CheckpointView>, n: nat) -> bool {
    &&& cs.len() <= n
    &&& forall|i: int| 0 <= i < cs.len() ==> (#[trigger] cs[i]).id == checkpoint_id((n - cs.len() + i) as nat)
}

/// The messages of the first (oldest) checkpoint with the given id.
pub open spec fn rollback_result(cs: Seq<CheckpointView>, id: Seq<char>) -> Option<Seq<MessageView>>
    decreases cs.len(),
{
    if cs.len() == 0 {
        None
    } else if cs[0].id == id {
        Some(cs[0].messages)
    } else {
        rollback_result(cs.subrange(1, cs.len() as int), id)
    }
}

/// The checkpoints held after saving a new one, numbered `n`.
pub open spec fn after_checkpoint(
    cs: Seq<CheckpointView>,
    max: nat,
    n: nat,
    messages: Seq<MessageView>,
    description: Seq<char>,
) -> Seq<CheckpointView> {
    keep_last(
        cs.push(CheckpointView { id: checkpoint_id(n), messages, description }),
        max,
    )
}

impl DenwaRenji {
    /// The checkpoints held, oldest first.
    pub closed spec fn held(&self) -> Seq<CheckpointView> {
        self.checkpoints@.map_values(|c: Checkpoint| c@)
    }

    /// How many checkpoints are kept at most.
    pub closed spec fn capacity(&self) -> nat {
        self.max_checkpoints as nat
    }

    /// How many checkpoints have been taken (and ids given out).
    pub closed spec fn issued(&self) -> nat {
        self.issued as nat
    }

    /// The store never holds more than its capacity, and holds the last checkpoints taken.
    #[verifier::type_invariant]
    pub open spec fn wf(&self) -> bool {
        &&& self.held().len() <= self.capacity()
        &&& consecutive_ids(self.held(), self.issued())
    }

    /// How many checkpoints have been taken.
    pub fn issued_count(&self) -> (n: u64)
        ensures
            n == self.issued(),
    {
        self.issued
    }

    /// An empty store keeping at most `max_checkpoints` checkpoints.
    pub fn new(max_checkpoints: usize) -> (d: DenwaRenji)
        ensures
            d.held().len() == 0,
            d.capacity() == max_checkpoints,
            d.issued() == 0,
            d.wf(),
    {
        let d = DenwaRenji { checkpoints: VecDeque::new(), max_checkpoints, issued: 0 };
        assert(d.held() =~= Seq::<CheckpointView>::empty());
        d
    }

    /// Saves a copy of `messages` and returns its id, `checkpoint-N` where N counts the
    /// checkpoints taken before (so no two checkpoints share an id); the oldest checkpoints are
    /// dropped beyond the capacity.
    pub fn checkpoint(&mut self, messages: Vec<Message>, description: String) -> (id: String)
        requires
            old(self).issued() < u64::MAX,
        ensures
            id@ == checkpoint_id(old(self).issued()),
            final(self).held() == after_checkpoint(
                old(self).held(),
                old(self).capacity(),
                old(self).issued(),
                messages_view(messages@),
                description@,
            ),
            final(self).issued() == old(self).issued() + 1,
            final(self).capacity() == old(self).capacity(),
    {
        proof {
            use_type_invariant(&*self);
        }
        let n = self.issued;
        let id = String::from_str("checkpoint-").concat(u64_to_string(n).as_str());
        let c = Checkpoint { id: id.clone(), messages, description };
        let ghost old_held = self.held();
        let mut q: VecDeque<Checkpoint> = VecDeque::new();
        std::mem::swap(&mut q, &mut self.checkpoints);
        let ghost before = q@;
        assert(before.map_values(|c: Checkpoint| c@) == old_held);
        push_bounded(&mut q, c, self.max_checkpoints);
        proof {
            let pushed = before.push(c);
            assert(pushed.map_values(|c: Checkpoint| c@) =~= old_held.push(c@));
            if pushed.len() > self.max_checkpoints {
                assert(q@.map_values(|c: Checkpoint| c@) =~= keep_last(old_held.push(c@), self.max_checkpoints as nat));
            } else {
                assert(q@.map_values(|c: Checkpoint| c@) =~= old_held.push(c@));
            }
            lemma_after_checkpoint_consecutive(old_held, self.max_checkpoints as nat, n as nat, c@);
            assert(self.held() =~= Seq::<CheckpointView>::empty());
        }
        self.issued = n + 1;
        self.checkpoints = q;
        id
    }

    /// The messages of the oldest checkpoint with the given id.
    pub fn rollback(&self, id: &str) -> (r: Option<Vec<Message>>)
        ensures
            match r {
                Some(ms) => rollback_result(self.held(), id@) == Some(messages_view(ms@)),
                None => rollback_result(self.held(), id@).is_none(),
            },
    {
        let n = self.checkpoints.len();
        let mut i: usize = 0;
        assert(self.held().subrange(0, n as int) =~= self.held());
        while i < n
            invariant
                n == self.checkpoints@.len(),
                i <= n,
                rollback_result(self.held(), id@) == rollback_result(
                    self.held().subrange(i as int, n as int),
                    id@,
                ),
            decreases n - i,
        {
            let c = &self.checkpoints[i];
            proof {
                let rest = self.held().subrange(i as int, n as int);
                assert(rest[0] == c@);
                assert(rest.subrange(1, rest.len() as int) =~= self.held().subrange(i + 1, n as int));
            }
            if str_eq(c.id.as_str(), id) {
                return Some(copy_messages(&c.messages));
            }
            i = i + 1;
        }
        None
    }

    /// All checkpoints, oldest first.
    pub fn list(&self) -> (r: Vec<&Checkpoint>)
        ensures
            r@.len() == self.held().len(),
            forall|i: int| 0 <= i < r@.len() ==> (#[trigger] r@[i])@ == self.held()[i],
    {
        let mut r: Vec<&Checkpoint> = Vec::new();
        let mut i: usize = 0;
        while i < self.checkpoints.len()
            invariant
                i <= self.checkpoints@.len(),
                r@.len() == i,
                forall|j: int| 0 <= j < i ==> (#[trigger] r@[j])@ == self.held()[j],
            decreases self.checkpoints@.len() - i,
        {
            r.push(&self.checkpoints[i]);
            i = i + 1;
        }
        r
    }

    /// The newest checkpoint, if any.
    pub fn latest(&self) -> (r: Option<&Checkpoint>)
        ensures
            match r {
                Some(c) => self.held().len() > 0 && c@ == self.held().last(),
                None => self.held().len() == 0,
            },
    {
        let n = self.checkpoints.len();
        if n == 0 {
            None
        } else {
            Some(&self.checkpoints[n - 1])
        }
    }
}

/// Different numbers give different decimal renderings.
pub proof fn lemma_decimal_injective(a: nat, b: nat)
    requires
        decimal(a) == decimal(b),
    ensures
        a == b,
    decreases a + b,
{
    lemma_decimal_len(a);
    lemma_decimal_len(b);
    if a < 10 && b < 10 {
        assert(decimal(a)[0] == digit_char(a) && decimal(b)[0] == digit_char(b));
    } else if a >= 10 && b >= 10 {
        let da = decimal(a / 10);
        let db = decimal(b / 10);
        assert(decimal(a) == da.push(digit_char(a % 10)));
        assert(decimal(b) == db.push(digit_char(b % 10)));
        assert(da =~= decimal(a).drop_last());
        assert(db =~= decimal(b).drop_last());
        assert(digit_char(a % 10) == decimal(a).last());
        assert(digit_char(b % 10) == decimal(b).last());
        lemma_decimal_injective(a / 10, b / 10);
    } else {
        assert(decimal(a).len() != decimal(b).len());
    }
}

/// A decimal rendering has one digit below ten and at least two from ten on.
pub proof fn lemma_decimal_len(n: nat)
    ensures
        n < 10 ==> decimal(n).len() == 1,
        n >= 10 ==> decimal(n).len() >= 2,
    decreases n,
{
    if n >= 10 {
        lemma_decimal_len(n / 10);
    }
}

/// Checkpoints numbered differently have different ids.
pub proof fn lemma_checkpoint_ids_differ(a: nat, b: nat)
    requires
        a != b,
    ensures
        checkpoint_id(a) != checkpoint_id(b),
{
    if checkpoint_id(a) == checkpoint_id(b) {
        let p = "checkpoint-"@;
        assert(decimal(a) =~= checkpoint_id(a).subrange(p.len() as int, checkpoint_id(a).len() as int));
        assert(decimal(b) =~= checkpoint_id(b).subrange(p.len() as int, checkpoint_id(b).len() as int));
        lemma_decimal_injective(a, b);
    }
}

/// Keeping the last `max` after a push is the same whether or not the front was cut first.
pub proof fn lemma_keep_last_push<T>(s: Seq<T>, x: T, max: nat)
    ensures
        keep_last(keep_last(s, max).push(x), max) == keep_last(s.push(x), max),
{
    let k = keep_last(s, max);
    if s.len() > max {
        assert(k.push(x) =~= s.push(x).subrange(s.len() - max, s.len() as int + 1));
        assert(keep_last(k.push(x), max) =~= keep_last(s.push(x), max));
    } else {
        assert(k =~= s);
    }
}

/// Saving a checkpoint numbered `n` after the last ones taken keeps the held ones the last taken.
proof fn lemma_after_checkpoint_consecutive(cs: Seq<CheckpointView>, max: nat, n: nat, c: CheckpointView)
    requires
        consecutive_ids(cs, n),
        c.id == checkpoint_id(n),
    ensures
        consecutive_ids(keep_last(cs.push(c), max), n + 1),
        keep_last(cs.push(c), max).len() <= max,
{
    let full = cs.push(c);
    assert(consecutive_ids(full, n + 1)) by {
        assert forall|i: int| 0 <= i < full.len() implies (#[trigger] full[i]).id == checkpoint_id(
            ((n + 1) - full.len() + i) as nat,
        ) by {
            if i < cs.len() {
                assert(full[i] == cs[i]);
            }
        }
    }
    if full.len() > max {
        let k = keep_last(full, max);
        let start = full.len() - max;
        assert forall|i: int| 0 <= i < k.len() implies (#[trigger] k[i]).id == checkpoint_id(
            ((n + 1) - k.len() + i) as nat,
        ) by {
            assert(k[i] == full[start + i]);
        }
    }
}

/// With the last checkpoints taken held, rolling back to one of them gives its messages.
pub proof fn lemma_rollback_finds_held(cs: Seq<CheckpointView>, n: nat, i: int)
    requires
        consecutive_ids(cs, n),
        0 <= i < cs.len(),
    ensures
        rollback_result(cs, cs[i].id) == Some(cs[i].messages),
    decreases i,
{
    if i > 0 {
        let t = cs.subrange(1, cs.len() as int);
        assert(cs[0].id == checkpoint_id((n - cs.len()) as nat));
        assert(cs[i].id == checkpoint_id((n - cs.len() + i) as nat));
        lemma_checkpoint_ids_differ((n - cs.len()) as nat, (n - cs.len() + i) as nat);
        assert forall|j: int| 0 <= j < t.len() implies (#[trigger] t[j]).id == checkpoint_id(
            (n - t.len() + j) as nat,
        ) by {
            assert(t[j] == cs[j + 1]);
        }
        assert(t[i - 1] == cs[i]);
        lemma_rollback_finds_held(t, n, i - 1);
    }
}

/// With the last checkpoints taken held, no held one carries the next number's id.
pub proof fn lemma_next_id_not_held(cs: Seq<CheckpointView>, n: nat)
    requires
        consecutive_ids(cs, n),
    ensures
        rollback_result(cs, checkpoint_id(n)).is_none(),
{
    lemma_next_id_not_held_below(cs, n, n);
}

/// No checkpoint among the last ones of `m` taken carries the id numbered `n >= m`.
proof fn lemma_next_id_not_held_below(cs: Seq<CheckpointView>, m: nat, n: nat)
    requires
        consecutive_ids(cs, m),
        m <= n,
    ensures
        rollback_result(cs, checkpoint_id(n)).is_none(),
    decreases cs.len(),
{
    if cs.len() > 0 {
        let t = cs.subrange(1, cs.len() as int);
        assert(cs[0].id == checkpoint_id((m - cs.len()) as nat));
        lemma_checkpoint_ids_differ((m - cs.len()) as nat, n);
        assert forall|j: int| 0 <= j < t.len() implies (#[trigger] t[j]).id == checkpoint_id(
            (m - t.len() + j) as nat,
        ) by {
            assert(t[j] == cs[j + 1]);
        }
        lemma_next_id_not_held_below(t, m, n);
    }
}

/// Law: a checkpoint can be rolled back to right after it is taken, when the store keeps at least
/// one checkpoint.
pub proof fn lemma_rollback_after_checkpoint(
    cs: Seq<CheckpointView>,
    max: nat,
    n: nat,
    messages: Seq<MessageView>,
    description: Seq<char>,
)
    requires
        max > 0,
        consecutive_ids(cs, n),
    ensures
        rollback_result(after_checkpoint(cs, max, n, messages, description), checkpoint_id(n))
            == Some(messages),
{
    lemma_next_id_not_held(cs, n);
    let id = checkpoint_id(n);
    let new_c = CheckpointView { id, messages, description };
    let full = cs.push(new_c);
    let kept = keep_last(full, max);
    let start: int = if full.len() > max { full.len() - max } else { 0 };
    assert(kept =~= full.subrange(start, full.len() as int));
    lemma_rollback_suffix(cs, id, start, new_c);
}

/// The checkpoints held after taking checkpoints of the given conversations and descriptions, in
/// order, starting from an empty store.
pub open spec fn checkpoints_after(inputs: Seq<(Seq<MessageView>, Seq<char>)>, max: nat) -> Seq<CheckpointView>
    decreases inputs.len(),
{
    if inputs.len() == 0 {
        Seq::empty()
    } else {
        after_checkpoint(
            checkpoints_after(inputs.drop_last(), max),
            max,
            (inputs.len() - 1) as nat,
            inputs.last().0,
            inputs.last().1,
        )
    }
}

/// Every checkpoint taken, numbered from 0.
pub open spec fn all_checkpoints(inputs: Seq<(Seq<MessageView>, Seq<char>)>) -> Seq<CheckpointView> {
    Seq::new(inputs.len(), |i: int| CheckpointView { id: checkpoint_id(i as nat), messages: inputs[i].0, description: inputs[i].1 })
}

/// Law: after a fresh store takes checkpoints in turn, it holds the last `max` of them (all, when
/// fewer were taken), oldest first, each with its own id, conversation and description.
pub proof fn lemma_checkpoints_are_the_last_taken(inputs: Seq<(Seq<MessageView>, Seq<char>)>, max: nat)
    ensures
        checkpoints_after(inputs, max) == keep_last(all_checkpoints(inputs), max),
    decreases inputs.len(),
{
    if inputs.len() > 0 {
        let prev = inputs.drop_last();
        lemma_checkpoints_are_the_last_taken(prev, max);
        let c = CheckpointView {
            id: checkpoint_id((inputs.len() - 1) as nat),
            messages: inputs.last().0,
            description: inputs.last().1,
        };
        assert(all_checkpoints(inputs) =~= all_checkpoints(prev).push(c));
        lemma_keep_last_push(all_checkpoints(prev), c, max);
    }
}

/// Rolling back in a suffix of `cs` followed by `c`, when no checkpoint of `cs` has the id and `c`
/// has it, yields `c`'s messages.
proof fn lemma_rollback_suffix(cs: Seq<CheckpointView>, id: Seq<char>, start: int, c: CheckpointView)
    requires
        0 <= start <= cs.len(),
        rollback_result(cs, id).is_none(),
        c.id == id,
    ensures
        rollback_result(cs.push(c).subrange(start, cs.len() as int + 1), id) == Some(c.messages),
    decreases cs.len() - start,
{
    let s = cs.push(c).subrange(start, cs.len() as int + 1);
    if start == cs.len() {
        assert(s[0] == c);
    } else {
        lemma_rollback_none_suffix(cs, id, start);
        assert(s[0] == cs[start]);
        assert(s.subrange(1, s.len() as int) =~= cs.push(c).subrange(start + 1, cs.len() as int + 1));
        lemma_rollback_suffix(cs, id, start + 1, c);
    }
}

/// When no checkpoint has the id, none in any suffix has it.
proof fn lemma_rollback_none_suffix(cs: Seq<CheckpointView>, id: Seq<char>, start: int)
    requires
        0 <= start < cs.len(),
        rollback_result(cs, id).is_none(),
    ensures
        cs[start].id != id,
        rollback_result(cs.subrange(start + 1, cs.len() as int), id).is_none(),
    decreases start,
{
    if start == 0 {
    } else {
        assert(cs[0].id != id);
        let t = cs.subrange(1, cs.len() as int);
        assert(t[start - 1] == cs[start]);
        assert(t.subrange(start, t.len() as int) =~= cs.subrange(start + 1, cs.len() as int));
        lemma_rollback_none_suffix(t, id, start - 1);
    }
}

/// Law: the store never holds more checkpoints than its capacity.
pub proof fn lemma_checkpoints_bounded(
    cs: Seq<CheckpointView>,
    max: nat,
    n: nat,
    messages: Seq<MessageView>,
    description: Seq<char>,
)
    ensures
        after_checkpoint(cs, max, n, messages, description).len() <= max
            || after_checkpoint(cs, max, n, messages, description).len() == cs.len() + 1,
        cs.len() <= max ==> after_checkpoint(cs, max, n, messages, description).len() <= max,
{
}

} // verus!
