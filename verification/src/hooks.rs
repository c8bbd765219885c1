//! Which configured hooks run for an event.
use vstd::prelude::*;
use crate::config::HookDef;
use crate::text::{append_str, str_eq};

verus! {

/// The hooks of the configuration.
#[derive(Debug, Clone)]
pub struct HookEngine {
    pub hooks: Vec<HookDef>,
}

/// Whether a hook runs for an event: the event matches, and its matcher, when it has one,
/// equals the value matched.
pub open spec fn hook_fires(h: HookDef, event: Seq<char>, matcher_value: Seq<char>) -> bool {
    h.event@ == event && match h.matcher {
        Some(m) => m@ == matcher_value,
        None => true,
    }
}

/// The indices, among the first `n` hooks, of those that run, in order.
pub open spec fn firing(hs: Seq<HookDef>, event: Seq<char>, matcher_value: Seq<char>, n: int) -> Seq<usize>
    decreases n,
{
    if n <= 0 {
        Seq::empty()
    } else if hook_fires(hs[n - 1], event, matcher_value) {
        firing(hs, event, matcher_value, n - 1).push((n - 1) as usize)
    } else {
        firing(hs, event, matcher_value, n - 1)
    }
}

impl HookEngine {
    /// An engine over the given hooks.
    pub fn new(hooks: Vec<HookDef>) -> (e: HookEngine)
        ensures
            e.hooks@ == hooks@,
    {
        HookEngine { hooks }
    }

    /// The indices of the hooks that run for an event, in configuration order.
    pub fn matching(&self, event: &str, matcher_value: &str) -> (r: Vec<usize>)
        ensures
            r@ == firing(self.hooks@, event@, matcher_value@, self.hooks@.len() as int),
    {
        let mut r: Vec<usize> = Vec::new();
        let mut i: usize = 0;
        while i < self.hooks.len()
            invariant
                i <= self.hooks@.len(),
                r@ == firing(self.hooks@, event@, matcher_value@, i as int),
            decreases self.hooks@.len() - i,
        {
            let h = &self.hooks[i];
            let fires = str_eq(h.event.as_str(), event) && match &h.matcher {
                Some(m) => str_eq(m.as_str(), matcher_value),
                None => true,
            };
            if fires {
                r.push(i);
            }
            i = i + 1;
        }
        r
    }
}

/// The time limit of a hook in seconds: its own, or thirty.
pub fn hook_timeout(h: &HookDef) -> (t: u64)
    ensures
        t == match h.timeout {
            Some(v) => v,
            None => 30,
        },
{
    match h.timeout {
        Some(v) => v,
        None => 30,
    }
}

/// The error of a hook that ran out of time.
pub fn hook_timed_out(h: &HookDef) -> (e: String)
    ensures
        e@ == "hook error: Hook timed out: "@ + h.command@,
{
    let mut e = String::from_str("hook error: Hook timed out: ");
    append_str(&mut e, h.command.as_str());
    e
}

} // verus!
