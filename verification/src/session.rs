//! What a session keeps besides its conversation: todos, archived turns, custom data, and its title.
use vstd::prelude::*;
use crate::text::{append_str, byte_len, byte_prefix, char_boundary, is_prefix, starts_with, str_eq, utf8_len, utf8_truncate};

verus! {

/// An item of the session's todo list.
#[derive(Debug, Clone)]
pub struct Todo {
    pub id: String,
    pub text: String,
    pub done: bool,
}

pub struct TodoView {
    pub id: Seq<char>,
    pub text: Seq<char>,
    pub done: bool,
}

impl View for Todo {
    type V = TodoView;

    open spec fn view(&self) -> TodoView {
        TodoView { id: self.id@, text: self.text@, done: self.done }
    }
}

/// The summary of a turn moved out of the conversation.
#[derive(Debug, Clone)]
pub struct ArchivedTurn {
    pub turn: usize,
    pub summary: String,
}

/// Approval preferences saved with a session.
#[derive(Debug, Clone)]
pub struct ApprovalSettings {
    pub yolo: bool,
    pub per_action: Vec<(String, bool)>,
}

/// The state saved with a session. Custom data values are JSON texts.
#[derive(Debug, Clone)]
pub struct SessionState {
    pub additional_dirs: Vec<String>,
    pub approval_settings: ApprovalSettings,
    pub plan_mode: bool,
    pub todos: Vec<Todo>,
    pub archive: Vec<ArchivedTurn>,
    pub custom_data: Vec<(String, String)>,
}

/// Whether two states have the same directories, approval settings and plan mode.
pub open spec fn same_settings(a: SessionState, b: SessionState) -> bool {
    a.additional_dirs == b.additional_dirs && a.approval_settings == b.approval_settings && a.plan_mode == b.plan_mode
}

pub open spec fn todos_view(ts: Seq<Todo>) -> Seq<TodoView> {
    ts.map_values(|t: Todo| t@)
}

pub open spec fn data_view(d: Seq<(String, String)>) -> Seq<(Seq<char>, Seq<char>)> {
    d.map_values(|e: (String, String)| (e.0@, e.1@))
}

/// The value stored under `key`: that of its first entry.
pub open spec fn data_lookup(d: Seq<(Seq<char>, Seq<char>)>, key: Seq<char>) -> Option<Seq<char>>
    decreases d.len(),
{
    if d.len() == 0 {
        None
    } else if d[0].0 == key {
        Some(d[0].1)
    } else {
        data_lookup(d.subrange(1, d.len() as int), key)
    }
}

/// The index of the first entry stored under `key`, looking from `from` on.
pub open spec fn find_key(d: Seq<(Seq<char>, Seq<char>)>, key: Seq<char>, from: int) -> Option<int>
    decreases d.len() - from,
{
    if from < 0 || from >= d.len() {
        None
    } else if d[from].0 == key {
        Some(from)
    } else {
        find_key(d, key, from + 1)
    }
}

/// The entries after storing `value` under `key`: the first entry under `key` takes the value,
/// or a new entry is added at the end.
pub open spec fn data_set(d: Seq<(Seq<char>, Seq<char>)>, key: Seq<char>, value: Seq<char>) -> Seq<(Seq<char>, Seq<char>)> {
    match find_key(d, key, 0) {
        Some(i) => d.update(i, (key, value)),
        None => d.push((key, value)),
    }
}

/// The index of the first todo whose id starts with `prefix`, looking from `from` on.
pub open spec fn find_todo(ts: Seq<TodoView>, prefix: Seq<char>, from: int) -> Option<int>
    decreases ts.len() - from,
{
    if from < 0 || from >= ts.len() {
        None
    } else if is_prefix(prefix, ts[from].id) {
        Some(from)
    } else {
        find_todo(ts, prefix, from + 1)
    }
}

/// The todos whose id does not start with `prefix`, in order.
pub open spec fn todos_without(ts: Seq<TodoView>, prefix: Seq<char>) -> Seq<TodoView>
    decreases ts.len(),
{
    if ts.len() == 0 {
        Seq::empty()
    } else if is_prefix(prefix, ts.last().id) {
        todos_without(ts.drop_last(), prefix)
    } else {
        todos_without(ts.drop_last(), prefix).push(ts.last())
    }
}

proof fn lemma_todos_without_len(ts: Seq<TodoView>, prefix: Seq<char>)
    ensures
        todos_without(ts, prefix).len() <= ts.len(),
        todos_without(ts, prefix).len() == ts.len() <==> (forall|i: int| 0 <= i < ts.len() ==> !is_prefix(prefix, #[trigger] ts[i].id)),
    decreases ts.len(),
{
    if ts.len() > 0 {
        let d = ts.drop_last();
        lemma_todos_without_len(d, prefix);
        assert forall|i: int| 0 <= i < d.len() implies #[trigger] d[i] == ts[i] by {}
        if is_prefix(prefix, ts.last().id) {
            assert(!is_prefix(prefix, ts[ts.len() - 1].id) == false);
        } else {
            if forall|i: int| 0 <= i < d.len() ==> !is_prefix(prefix, #[trigger] d[i].id) {
                assert forall|i: int| 0 <= i < ts.len() implies !is_prefix(prefix, #[trigger] ts[i].id) by {
                    if i < d.len() {
                        assert(d[i] == ts[i]);
                    }
                }
            } else {
                let k = choose|i: int| 0 <= i < d.len() && is_prefix(prefix, #[trigger] d[i].id);
                assert(ts[k] == d[k]);
            }
        }
    }
}

proof fn lemma_lookup_skip(d: Seq<(Seq<char>, Seq<char>)>, i: int, key: Seq<char>)
    requires
        0 <= i <= d.len(),
        forall|j: int| 0 <= j < i ==> (#[trigger] d[j]).0 != key,
    ensures
        data_lookup(d, key) == data_lookup(d.subrange(i, d.len() as int), key),
    decreases i,
{
    if i > 0 {
        let rest = d.subrange(1, d.len() as int);
        assert forall|j: int| 0 <= j < i - 1 implies (#[trigger] rest[j]).0 != key by {
            assert(rest[j] == d[j + 1]);
        }
        lemma_lookup_skip(rest, i - 1, key);
        assert(rest.subrange(i - 1, rest.len() as int) =~= d.subrange(i, d.len() as int));
    } else {
        assert(d.subrange(0, d.len() as int) =~= d);
    }
}

proof fn lemma_lookup_push(d: Seq<(Seq<char>, Seq<char>)>, e: (Seq<char>, Seq<char>), key: Seq<char>)
    ensures
        data_lookup(d.push(e), key) == (match data_lookup(d, key) {
            Some(v) => Some(v),
            None => if e.0 == key { Some(e.1) } else { None },
        }),
    decreases d.len(),
{
    if d.len() > 0 {
        assert(d.push(e)[0] == d[0]);
        assert(d.push(e).subrange(1, d.len() as int + 1) =~= d.subrange(1, d.len() as int).push(e));
        lemma_lookup_push(d.subrange(1, d.len() as int), e, key);
    } else {
        let one = d.push(e);
        assert(one.subrange(1, 1) =~= Seq::<(Seq<char>, Seq<char>)>::empty());
        assert(data_lookup(one.subrange(1, 1), key) == None::<Seq<char>>);
        assert(one[0] == e);
    }
}

proof fn lemma_lookup_update(d: Seq<(Seq<char>, Seq<char>)>, i: int, v: Seq<char>, key: Seq<char>)
    requires
        0 <= i < d.len(),
        forall|j: int| 0 <= j < i ==> (#[trigger] d[j]).0 != d[i].0,
    ensures
        data_lookup(d.update(i, (d[i].0, v)), key) == (if key == d[i].0 { Some(v) } else { data_lookup(d, key) }),
    decreases i,
{
    let u = d.update(i, (d[i].0, v));
    if i == 0 {
        assert(u.subrange(1, u.len() as int) =~= d.subrange(1, d.len() as int));
    } else {
        let rest = d.subrange(1, d.len() as int);
        assert forall|j: int| 0 <= j < i - 1 implies (#[trigger] rest[j]).0 != rest[i - 1].0 by {
            assert(rest[j] == d[j + 1]);
        }
        lemma_lookup_update(rest, i - 1, v, key);
        assert(u.subrange(1, u.len() as int) =~= rest.update(i - 1, (rest[i - 1].0, v)));
    }
}

impl SessionState {
    /// An empty state.
    pub fn new() -> (s: SessionState)
        ensures
            s.todos@.len() == 0,
            s.archive@.len() == 0,
            s.custom_data@.len() == 0,
            s.additional_dirs@.len() == 0,
            s.approval_settings.per_action@.len() == 0,
            !s.approval_settings.yolo,
            !s.plan_mode,
    {
        SessionState {
            additional_dirs: Vec::new(),
            approval_settings: ApprovalSettings { yolo: false, per_action: Vec::new() },
            plan_mode: false,
            todos: Vec::new(),
            archive: Vec::new(),
            custom_data: Vec::new(),
        }
    }

    /// Adds an open todo.
    pub fn add_todo(&mut self, id: String, text: String)
        ensures
            same_settings(*old(self), *final(self)),
            todos_view(final(self).todos@) == todos_view(old(self).todos@).push(TodoView { id: id@, text: text@, done: false }),
            final(self).archive@ == old(self).archive@,
            data_view(final(self).custom_data@) == data_view(old(self).custom_data@),
    {
        self.todos.push(Todo { id, text, done: false });
        assert(todos_view(self.todos@) =~= todos_view(old(self).todos@).push(TodoView { id: id@, text: text@, done: false }));
    }

    /// Marks done the first todo whose id starts with `prefix` and returns its id; `None` when no
    /// id starts so.
    pub fn mark_todo_done(&mut self, prefix: &str) -> (r: Option<String>)
        ensures
            same_settings(*old(self), *final(self)),
            ({
                let ts = todos_view(old(self).todos@);
                match find_todo(ts, prefix@, 0) {
                    Some(i) => r.is_some() && r.unwrap()@ == ts[i].id && todos_view(final(self).todos@)
                        == ts.update(i, TodoView { done: true, ..ts[i] }),
                    None => r.is_none() && todos_view(final(self).todos@) == ts,
                }
            }),
            final(self).archive@ == old(self).archive@,
            data_view(final(self).custom_data@) == data_view(old(self).custom_data@),
    {
        let ghost ts = todos_view(self.todos@);
        let mut i: usize = 0;
        while i < self.todos.len()
            invariant
                i <= self.todos@.len(),
                ts == todos_view(self.todos@),
                self.todos@ == old(self).todos@,
                self.archive@ == old(self).archive@,
                same_settings(*old(self), *self),
                self.custom_data@ == old(self).custom_data@,
                find_todo(ts, prefix@, 0) == find_todo(ts, prefix@, i as int),
            decreases self.todos@.len() - i,
        {
            if starts_with(self.todos[i].id.as_str(), prefix) {
                let id = crate::llm::copy_string(&self.todos[i].id);
                let t = Todo { id: crate::llm::copy_string(&self.todos[i].id), text: crate::llm::copy_string(&self.todos[i].text), done: true };
                self.todos.set(i, t);
                assert(todos_view(self.todos@) =~= ts.update(i as int, TodoView { done: true, ..ts[i as int] }));
                return Some(id);
            }
            i = i + 1;
        }
        None
    }

    /// Removes every todo whose id starts with `prefix`; true when one was removed.
    pub fn remove_todos(&mut self, prefix: &str) -> (removed: bool)
        ensures
            same_settings(*old(self), *final(self)),
            todos_view(final(self).todos@) == todos_without(todos_view(old(self).todos@), prefix@),
            removed == (todos_view(final(self).todos@).len() < old(self).todos@.len()),
            final(self).archive@ == old(self).archive@,
            data_view(final(self).custom_data@) == data_view(old(self).custom_data@),
    {
        let ghost ts = todos_view(self.todos@);
        let before = self.todos.len();
        let mut kept: Vec<Todo> = Vec::new();
        let mut i: usize = 0;
        while i < self.todos.len()
            invariant
                i <= self.todos@.len(),
                ts == todos_view(self.todos@),
                todos_view(kept@) == todos_without(ts.take(i as int), prefix@),
            decreases self.todos@.len() - i,
        {
            proof {
                let t = ts.take(i + 1);
                assert(t.drop_last() =~= ts.take(i as int));
                assert(t.last() == ts[i as int]);
            }
            if !starts_with(self.todos[i].id.as_str(), prefix) {
                let t = Todo { id: crate::llm::copy_string(&self.todos[i].id), text: crate::llm::copy_string(&self.todos[i].text), done: self.todos[i].done };
                kept.push(t);
                assert(todos_view(kept@) =~= todos_without(ts.take(i as int), prefix@).push(ts[i as int]));
            }
            i = i + 1;
        }
        assert(ts.take(ts.len() as int) =~= ts);
        proof { lemma_todos_without_len(ts, prefix@); }
        self.todos = kept;
        self.todos.len() < before
    }

    /// The JSON text stored under `key`.
    pub fn get_data(&self, key: &str) -> (r: Option<&String>)
        ensures
            match data_lookup(data_view(self.custom_data@), key@) {
                Some(v) => r.is_some() && r.unwrap()@ == v,
                None => r.is_none(),
            },
    {
        let ghost d = data_view(self.custom_data@);
        let mut i: usize = 0;
        while i < self.custom_data.len()
            invariant
                i <= self.custom_data@.len(),
                d == data_view(self.custom_data@),
                forall|j: int| 0 <= j < i ==> (#[trigger] d[j]).0 != key@,
            decreases self.custom_data@.len() - i,
        {
            if str_eq(self.custom_data[i].0.as_str(), key) {
                proof {
                    lemma_lookup_skip(d, i as int, key@);
                }
                return Some(&self.custom_data[i].1);
            }
            i = i + 1;
        }
        proof {
            lemma_lookup_skip(d, i as int, key@);
        }
        None
    }

    /// Stores `value` under `key`, replacing the value there.
    pub fn set_data(&mut self, key: String, value: String)
        ensures
            same_settings(*old(self), *final(self)),
            data_view(final(self).custom_data@) == data_set(data_view(old(self).custom_data@), key@, value@),
            data_lookup(data_view(final(self).custom_data@), key@) == Some(value@),
            forall|k: Seq<char>| k != key@ ==> data_lookup(data_view(final(self).custom_data@), k)
                == data_lookup(data_view(old(self).custom_data@), k),
            todos_view(final(self).todos@) == todos_view(old(self).todos@),
            final(self).archive@ == old(self).archive@,
    {
        let ghost d = data_view(self.custom_data@);
        let mut i: usize = 0;
        while i < self.custom_data.len()
            invariant
                i <= self.custom_data@.len(),
                d == data_view(self.custom_data@),
                self.custom_data@ == old(self).custom_data@,
                self.todos@ == old(self).todos@,
                same_settings(*old(self), *self),
                self.archive@ == old(self).archive@,
                same_settings(*old(self), *self),
                forall|j: int| 0 <= j < i ==> (#[trigger] d[j]).0 != key@,
                find_key(d, key@, 0) == find_key(d, key@, i as int),
            decreases self.custom_data@.len() - i,
        {
            if str_eq(self.custom_data[i].0.as_str(), key.as_str()) {
                let k = crate::llm::copy_string(&self.custom_data[i].0);
                let v = value;
                let ghost vv = v@;
                self.custom_data.set(i, (k, v));
                proof {
                    assert(data_view(self.custom_data@) =~= d.update(i as int, (d[i as int].0, vv)));
                    lemma_lookup_update(d, i as int, vv, key@);
                    assert forall|kk: Seq<char>| kk != key@ implies data_lookup(data_view(self.custom_data@), kk)
                        == data_lookup(d, kk) by {
                        lemma_lookup_update(d, i as int, vv, kk);
                    }
                }
                return;
            }
            i = i + 1;
        }
        let ghost kv = key@;
        let ghost vv = value@;
        self.custom_data.push((key, value));
        proof {
            assert(data_view(self.custom_data@) =~= d.push((kv, vv)));
            lemma_lookup_skip(d, d.len() as int, kv);
            assert(d.subrange(d.len() as int, d.len() as int) =~= Seq::<(Seq<char>, Seq<char>)>::empty());
            lemma_lookup_push(d, (kv, vv), kv);
            assert forall|kk: Seq<char>| kk != kv implies data_lookup(data_view(self.custom_data@), kk)
                == data_lookup(d, kk) by {
                lemma_lookup_push(d, (kv, vv), kk);
            }
        }
    }
}

proof fn lemma_find_key(d: Seq<(Seq<char>, Seq<char>)>, key: Seq<char>, from: int)
    requires
        0 <= from,
    ensures
        match find_key(d, key, from) {
            Some(i) => from <= i < d.len() && d[i].0 == key && forall|j: int| from <= j < i ==> d[j].0 != key,
            None => forall|j: int| from <= j < d.len() ==> d[j].0 != key,
        },
    decreases d.len() - from,
{
    if from < d.len() && d[from].0 != key {
        lemma_find_key(d, key, from + 1);
    }
}

/// Law: the value read under a key right after storing it there is the stored value, and every
/// other key reads as before.
pub proof fn lemma_get_after_set(d: Seq<(Seq<char>, Seq<char>)>, key: Seq<char>, value: Seq<char>, other: Seq<char>)
    requires
        other != key,
    ensures
        data_lookup(data_set(d, key, value), key) == Some(value),
        data_lookup(data_set(d, key, value), other) == data_lookup(d, other),
{
    lemma_find_key(d, key, 0);
    match find_key(d, key, 0) {
        Some(i) => {
            lemma_lookup_update(d, i, value, key);
            lemma_lookup_update(d, i, value, other);
        },
        None => {
            lemma_lookup_skip(d, d.len() as int, key);
            assert(d.subrange(d.len() as int, d.len() as int) =~= Seq::<(Seq<char>, Seq<char>)>::empty());
            lemma_lookup_push(d, (key, value), key);
            lemma_lookup_push(d, (key, value), other);
        },
    }
}

/// Law: once the todos whose id starts with a prefix are removed, none left starts with it, and
/// every other todo stays, in order.
pub proof fn lemma_removed_todos_gone(ts: Seq<TodoView>, prefix: Seq<char>)
    ensures
        forall|i: int| 0 <= i < todos_without(ts, prefix).len() ==> !is_prefix(prefix, #[trigger] todos_without(ts, prefix)[i].id),
        todos_without(ts, prefix).len() <= ts.len(),
    decreases ts.len(),
{
    if ts.len() > 0 {
        lemma_removed_todos_gone(ts.drop_last(), prefix);
        let r = todos_without(ts.drop_last(), prefix);
        if !is_prefix(prefix, ts.last().id) {
            assert forall|i: int| 0 <= i < r.push(ts.last()).len() implies !is_prefix(prefix, #[trigger] r.push(ts.last())[i].id) by {
                if i < r.len() {
                    assert(r.push(ts.last())[i] == r[i]);
                }
            }
        }
    }
}

/// The title of a new session: `Session ` and the first eight bytes of its id.
pub open spec fn initial_title_spec(id: Seq<char>) -> Seq<char> {
    "Session "@ + utf8_truncate(id, 8)
}

/// The title of a new session named by `id`.
pub fn initial_title(id: &str) -> (t: String)
    requires
        utf8_len(id@) >= 8,
        char_boundary(id@, 8),
    ensures
        t@ == initial_title_spec(id@),
{
    let mut t = String::from_str("Session ");
    append_str(&mut t, byte_prefix(id, 8));
    t
}

/// The title of a session forked from one titled `title`.
pub fn fork_title(title: &str) -> (t: String)
    ensures
        t@ == "Fork of "@ + title@,
{
    let mut t = String::from_str("Fork of ");
    append_str(&mut t, title);
    t
}

/// The title that a session takes from its first message: unchanged unless it is still the
/// default `Session ...` title; then the message, cut to its first 40 bytes and `...` when longer.
pub open spec fn generated_title(title: Seq<char>, first: Seq<char>) -> Seq<char> {
    if is_prefix("Session "@, title) {
        if utf8_len(first) > 40 { utf8_truncate(first, 40) + "..."@ } else { first }
    } else {
        title
    }
}

/// Names a session after its first message, as `generated_title` says.
pub fn generate_title(title: &mut String, first_message: &str)
    requires
        is_prefix("Session "@, old(title)@) && utf8_len(first_message@) > 40 ==> char_boundary(first_message@, 40),
    ensures
        final(title)@ == generated_title(old(title)@, first_message@),
{
    if starts_with(title.as_str(), "Session ") {
        if byte_len(first_message) > 40 {
            let mut t = String::from_str(byte_prefix(first_message, 40));
            append_str(&mut t, "...");
            *title = t;
        } else {
            *title = String::from_str(first_message);
        }
    }
}

/// A character of a hyphenated lower-case UUID.
pub open spec fn is_uuid_char(c: char) -> bool {
    ('0' <= c && c <= '9') || ('a' <= c && c <= 'f') || c == '-'
}

/// A fresh random identifier: `uuid::Uuid::new_v4()` in its text form, which the uuid crate
/// writes hyphenated, as 36 lower-case hexadecimal digits and hyphens.
#[verifier::external_body]
pub fn new_id() -> (r: String)
    ensures
        r@.len() == 36,
        forall|i: int| 0 <= i < 36 ==> is_uuid_char(#[trigger] r@[i]),
{
    uuid::Uuid::new_v4().to_string()
}

/// A lower-case hexadecimal digit.
pub open spec fn hex_digit(n: int) -> char {
    if n < 10 { (48 + n) as char } else { (87 + n) as char }
}

/// How JSON writes one character of a string: quote and backslash behind a backslash, the control
/// characters with a short escape where JSON has one (`\b`, `\t`, `\n`, `\f`, `\r`) and as
/// `\u00` and two lower-case hexadecimal digits otherwise; every other character as it is.
pub open spec fn json_char(c: char) -> Seq<char> {
    if c == '"' {
        seq!['\\', '"']
    } else if c == '\\' {
        seq!['\\', '\\']
    } else if c as int == 8 {
        seq!['\\', 'b']
    } else if c as int == 9 {
        seq!['\\', 't']
    } else if c as int == 10 {
        seq!['\\', 'n']
    } else if c as int == 12 {
        seq!['\\', 'f']
    } else if c as int == 13 {
        seq!['\\', 'r']
    } else if (c as int) < 32 {
        seq!['\\', 'u', '0', '0', hex_digit(c as int / 16), hex_digit(c as int % 16)]
    } else {
        seq![c]
    }
}

/// The escaped characters of a JSON string.
pub open spec fn json_escaped(s: Seq<char>) -> Seq<char>
    decreases s.len(),
{
    if s.len() == 0 {
        Seq::empty()
    } else {
        json_escaped(s.drop_last()) + json_char(s.last())
    }
}

/// The JSON text of a string value: its escaped characters in double quotes.
pub open spec fn json_string(s: Seq<char>) -> Seq<char> {
    seq!['"'] + json_escaped(s) + seq!['"']
}

/// The JSON text of a string value (`serde_json::to_string` on a `str`, which cannot fail: the
/// compact formatter writes a double quote, each character as `json_char` says, and a double
/// quote).
#[verifier::external_body]
pub fn json_string_text(s: &str) -> (r: String)
    ensures
        r@ == json_string(s@),
{
    serde_json::to_string(s).unwrap_or_default()
}

impl SessionState {
    /// Stores a text under `key`, as a JSON string value.
    pub fn set_text(&mut self, key: String, text: &str)
        ensures
            same_settings(*old(self), *final(self)),
            data_view(final(self).custom_data@) == data_set(data_view(old(self).custom_data@), key@, json_string(text@)),
            todos_view(final(self).todos@) == todos_view(old(self).todos@),
            final(self).archive@ == old(self).archive@,
    {
        let v = json_string_text(text);
        self.set_data(key, v);
    }
}

/// Law: a session's title is replaced only while it is the default one (it starts with
/// `Session `): then it becomes the message, or the message's first 40 bytes and `...` when the
/// message is longer; any other title is kept, whatever the message.
pub proof fn lemma_title_replaced_only_when_default(title: Seq<char>, message: Seq<char>)
    ensures
        !("Session "@.len() <= title.len() && title.subrange(0, "Session "@.len() as int) == "Session "@)
            ==> generated_title(title, message) == title,
        ("Session "@.len() <= title.len() && title.subrange(0, "Session "@.len() as int) == "Session "@
            && utf8_len(message) <= 40) ==> generated_title(title, message) == message,
        ("Session "@.len() <= title.len() && title.subrange(0, "Session "@.len() as int) == "Session "@
            && utf8_len(message) > 40) ==> generated_title(title, message) == utf8_truncate(message, 40) + "..."@,
{
}

} // verus!
