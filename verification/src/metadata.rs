//! What the program remembers per working directory: the last session.
use vstd::prelude::*;
use crate::config::{first_key, lemma_first_key_prefix, lemma_first_key_valid};
use crate::text::str_eq;

verus! {

/// What is remembered of a working directory: its last session and custom values (JSON text).
#[derive(Debug, Clone)]
pub struct WorkDirMeta {
    pub last_session_id: Option<String>,
    pub custom_data: Vec<(String, String)>,
}

/// The remembered working directories, by canonical path.
#[derive(Debug, Clone)]
pub struct Metadata {
    pub work_dirs: Vec<(String, WorkDirMeta)>,
    pub version: u32,
}

pub open spec fn dir_keys(w: Seq<(String, WorkDirMeta)>) -> Seq<(Seq<char>, ())> {
    w.map_values(|e: (String, WorkDirMeta)| (e.0@, ()))
}

/// The last session remembered for a working directory (its first entry).
pub open spec fn last_session(w: Seq<(String, WorkDirMeta)>, key: Seq<char>) -> Option<Seq<char>> {
    match first_key(dir_keys(w), key) {
        Some(i) => match w[i].1.last_session_id {
            Some(s) => Some(s@),
            None => None,
        },
        None => None,
    }
}

impl Metadata {
    /// Nothing remembered.
    pub fn new() -> (m: Metadata)
        ensures
            m.work_dirs@.len() == 0,
            m.version == 0,
    {
        Metadata { work_dirs: Vec::new(), version: 0 }
    }

    fn find(&self, key: &str) -> (r: Option<usize>)
        ensures
            match r {
                Some(i) => i < self.work_dirs@.len() && first_key(dir_keys(self.work_dirs@), key@) == Some(i as int),
                None => first_key(dir_keys(self.work_dirs@), key@).is_none(),
            },
    {
        let ghost keys = dir_keys(self.work_dirs@);
        let mut i: usize = 0;
        while i < self.work_dirs.len()
            invariant
                i <= self.work_dirs@.len(),
                keys == dir_keys(self.work_dirs@),
                first_key(keys.take(i as int), key@).is_none(),
            decreases self.work_dirs@.len() - i,
        {
            assert(keys.take((i + 1) as int).drop_last() =~= keys.take(i as int));
            if str_eq(self.work_dirs[i].0.as_str(), key) {
                proof {
                    lemma_first_key_prefix(keys, key@, (i + 1) as int);
                }
                return Some(i);
            }
            i = i + 1;
        }
        assert(keys.take(self.work_dirs@.len() as int) =~= keys);
        None
    }

    /// The last session remembered for a working directory (by its canonical path).
    pub fn last_session_id(&self, key: &str) -> (r: Option<String>)
        ensures
            match r {
                Some(s) => last_session(self.work_dirs@, key@) == Some(s@),
                None => last_session(self.work_dirs@, key@).is_none(),
            },
    {
        match self.find(key) {
            Some(i) => crate::llm::copy_opt_string(&self.work_dirs[i].1.last_session_id),
            None => None,
        }
    }

    /// Remembers the last session of a working directory, adding an entry for it if needed.
    pub fn set_last_session(&mut self, key: String, id: String)
        ensures
            last_session(final(self).work_dirs@, key@) == Some(id@),
            forall|k: Seq<char>| k != key@ ==> last_session(final(self).work_dirs@, k) == last_session(old(self).work_dirs@, k),
            final(self).version == old(self).version,
    {
        let ghost kv = key@;
        let ghost before = self.work_dirs@;
        match self.find(key.as_str()) {
            Some(i) => {
                let old_custom = &self.work_dirs[i].1.custom_data;
                let mut custom: Vec<(String, String)> = Vec::new();
                let mut j: usize = 0;
                while j < old_custom.len()
                    invariant
                        j <= old_custom@.len(),
                    decreases old_custom@.len() - j,
                {
                    custom.push((crate::llm::copy_string(&old_custom[j].0), crate::llm::copy_string(&old_custom[j].1)));
                    j = j + 1;
                }
                let entry = (key, WorkDirMeta { last_session_id: Some(id), custom_data: custom });
                let ghost ev = entry;
                self.work_dirs.set(i, entry);
                proof {
                    let after = self.work_dirs@;
                    lemma_first_key_valid(dir_keys(before), kv);
                    assert(dir_keys(before)[i as int].0 == before[i as int].0@);
                    assert(dir_keys(after) =~= dir_keys(before));
                    assert(after[i as int] == ev);
                    assert forall|kk: Seq<char>| kk != kv implies last_session(after, kk) == last_session(before, kk) by {
                        lemma_first_key_valid(dir_keys(before), kk);
                        match first_key(dir_keys(before), kk) {
                            Some(m) => {
                                assert(dir_keys(before)[m].0 == kk);
                                assert(m != i);
                                assert(after[m] == before[m]);
                            },
                            None => {},
                        }
                    }
                }
            },
            None => {
                let entry = (key, WorkDirMeta { last_session_id: Some(id), custom_data: Vec::new() });
                let ghost ev = entry;
                self.work_dirs.push(entry);
                proof {
                    let after = self.work_dirs@;
                    assert(dir_keys(after).drop_last() =~= dir_keys(before));
                    assert(after[before.len() as int] == ev);
                    assert forall|kk: Seq<char>| kk != kv implies last_session(after, kk) == last_session(before, kk) by {
                        lemma_first_key_valid(dir_keys(before), kk);
                        match first_key(dir_keys(before), kk) {
                            Some(m) => {
                                assert(after[m] == before[m]);
                            },
                            None => {},
                        }
                    }
                }
            },
        }
    }
}

} // verus!
