//! MCP servers: the configured ones, and how a server's replies are read.
use vstd::prelude::*;
use crate::config::{first_key, lemma_first_key_prefix, lemma_first_key_valid};
use crate::text::{append_str, str_eq};

verus! {

/// How an MCP server is started: its program, arguments and environment.
#[derive(Debug, Clone)]
pub struct McpServerConfig {
    pub command: String,
    pub args: Vec<String>,
    pub env: Vec<(String, String)>,
}

/// The configured MCP servers, by name.
#[derive(Debug, Clone)]
pub struct McpServers {
    pub servers: Vec<(String, McpServerConfig)>,
}

pub open spec fn server_keys(s: Seq<(String, McpServerConfig)>) -> Seq<(Seq<char>, ())> {
    s.map_values(|e: (String, McpServerConfig)| (e.0@, ()))
}

/// The names of the configured servers.
pub open spec fn server_names(s: Seq<(String, McpServerConfig)>) -> Seq<Seq<char>> {
    s.map_values(|e: (String, McpServerConfig)| e.0@)
}

/// The servers after adding one under `name`: it replaces the first of that name in its place, or
/// comes last.
pub open spec fn with_server(s: Seq<(String, McpServerConfig)>, name: String, config: McpServerConfig) -> Seq<(String, McpServerConfig)> {
    match first_key(server_keys(s), name@) {
        Some(i) => s.update(i, (name, config)),
        None => s.push((name, config)),
    }
}

/// Law: a server just added is configured under its name, so removing that name right after
/// reports a removal.
pub proof fn lemma_added_server_found(s: Seq<(String, McpServerConfig)>, name: String, config: McpServerConfig)
    ensures
        first_key(server_keys(with_server(s, name, config)), name@).is_some(),
{
    let after = with_server(s, name, config);
    let keys = server_keys(after);
    let at: int = match first_key(server_keys(s), name@) {
        Some(i) => {
            lemma_first_key_valid(server_keys(s), name@);
            i
        },
        None => s.len() as int,
    };
    assert(0 <= at < keys.len() && keys[at].0 == name@);
    lemma_first_key_valid(keys, name@);
}

impl McpServers {
    /// No server.
    pub fn new() -> (s: McpServers)
        ensures
            s.servers@.len() == 0,
    {
        McpServers { servers: Vec::new() }
    }

    fn find(&self, name: &str) -> (r: Option<usize>)
        ensures
            match r {
                Some(i) => i < self.servers@.len() && first_key(server_keys(self.servers@), name@) == Some(i as int),
                None => first_key(server_keys(self.servers@), name@).is_none(),
            },
    {
        let ghost keys = server_keys(self.servers@);
        let mut i: usize = 0;
        while i < self.servers.len()
            invariant
                i <= self.servers@.len(),
                keys == server_keys(self.servers@),
                first_key(keys.take(i as int), name@).is_none(),
            decreases self.servers@.len() - i,
        {
            assert(keys.take((i + 1) as int).drop_last() =~= keys.take(i as int));
            if str_eq(self.servers[i].0.as_str(), name) {
                proof {
                    lemma_first_key_prefix(keys, name@, (i + 1) as int);
                }
                return Some(i);
            }
            i = i + 1;
        }
        assert(keys.take(self.servers@.len() as int) =~= keys);
        None
    }

    /// Adds a server, replacing one of the same name in its place.
    pub fn insert(&mut self, name: String, config: McpServerConfig)
        ensures
            final(self).servers@ == with_server(old(self).servers@, name, config),
    {
        match self.find(name.as_str()) {
            Some(i) => {
                self.servers.set(i, (name, config));
            },
            None => {
                self.servers.push((name, config));
            },
        }
    }

    /// Removes the server with the given name; false when there is none.
    pub fn remove(&mut self, name: &str) -> (removed: bool)
        ensures
            removed == first_key(server_keys(old(self).servers@), name@).is_some(),
            match first_key(server_keys(old(self).servers@), name@) {
                Some(i) => final(self).servers@ == old(self).servers@.remove(i),
                None => final(self).servers@ == old(self).servers@,
            },
    {
        match self.find(name) {
            Some(i) => {
                self.servers.remove(i);
                true
            },
            None => false,
        }
    }
}

/// What a server's reply gives: its result (as JSON text), or the error it reports, or the
/// error of a reply without a result.
pub fn read_reply(error: Option<(i64, String)>, result: Option<String>) -> (r: Result<String, String>)
    ensures
        match error {
            Some((code, message)) => r is Err && r->Err_0@ == "MCP error: "@ + crate::startup::signed_text(code as int) + ": "@ + message@,
            None => match result {
                Some(v) => r is Ok && r->Ok_0@ == v@,
                None => r is Err && r->Err_0@ == "MCP error: Empty response"@,
            },
        },
{
    match error {
        Some((code, message)) => {
            let mut e = String::from_str("MCP error: ");
            append_str(&mut e, crate::startup::i64_to_string(code).as_str());
            append_str(&mut e, ": ");
            append_str(&mut e, message.as_str());
            Err(e)
        },
        None => match result {
            Some(v) => Ok(v),
            None => Err(String::from_str("MCP error: Empty response")),
        },
    }
}

/// The error of a request that got no reply in time.
pub fn timed_out() -> (e: String)
    ensures
        e@ == "MCP error: MCP request timed out"@,
{
    String::from_str("MCP error: MCP request timed out")
}

} // verus!
