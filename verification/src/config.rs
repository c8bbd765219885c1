//! Configuration values and the choice of chat provider for a model name.
use vstd::prelude::*;
use crate::soul::LoopLimits;
use crate::text::{append_str, str_eq};

verus! {

/// Colours of the interactive shell, by name.
#[derive(Debug, Clone)]
pub struct Theme {
    pub user_color: Option<String>,
    pub assistant_color: Option<String>,
    pub error_color: Option<String>,
    pub btw_color: Option<String>,
    pub border_style: Option<String>,
}

impl Default for Theme {
    fn default() -> (t: Theme)
        ensures
            t.user_color.is_none() && t.assistant_color.is_none() && t.error_color.is_none()
                && t.btw_color.is_none() && t.border_style.is_none(),
    {
        Theme { user_color: None, assistant_color: None, error_color: None, btw_color: None, border_style: None }
    }
}

/// A configured model: which provider serves it and under which name.
#[derive(Debug, Clone)]
pub struct LlmModel {
    pub provider: String,
    pub model: String,
    pub max_context_size: Option<usize>,
    pub capabilities: Vec<String>,
}

/// A configured provider.
#[derive(Debug, Clone)]
pub struct LlmProvider {
    pub provider_type: String,
    pub base_url: Option<String>,
    pub api_key: Option<String>,
}

/// Limits on background tasks.
#[derive(Debug, Clone, Copy)]
pub struct BackgroundConfig {
    pub max_running_tasks: usize,
    pub agent_task_timeout_s: u64,
    pub keep_alive_on_exit: bool,
}

impl Default for BackgroundConfig {
    fn default() -> (c: BackgroundConfig)
        ensures
            c.max_running_tasks == 4,
            c.agent_task_timeout_s == 900,
            !c.keep_alive_on_exit,
    {
        BackgroundConfig { max_running_tasks: 4, agent_task_timeout_s: 900, keep_alive_on_exit: false }
    }
}

/// An external service endpoint.
#[derive(Debug, Clone)]
pub struct ServiceConfig {
    pub base_url: String,
    pub api_key: Option<String>,
}

/// The search and fetch services.
#[derive(Debug, Clone)]
pub struct Services {
    pub moonshot_search: Option<ServiceConfig>,
    pub moonshot_fetch: Option<ServiceConfig>,
}

impl Default for Services {
    fn default() -> (s: Services)
        ensures
            s.moonshot_search.is_none(),
            s.moonshot_fetch.is_none(),
    {
        Services { moonshot_search: None, moonshot_fetch: None }
    }
}

/// Settings of MCP clients.
#[derive(Debug, Clone, Copy)]
pub struct McpClientConfig {
    pub tool_call_timeout_ms: u64,
}

impl Default for McpClientConfig {
    fn default() -> (c: McpClientConfig)
        ensures
            c.tool_call_timeout_ms == 60000,
    {
        McpClientConfig { tool_call_timeout_ms: 60000 }
    }
}

/// MCP settings.
#[derive(Debug, Clone, Copy)]
pub struct McpConfig {
    pub client: McpClientConfig,
}

impl Default for McpConfig {
    fn default() -> (c: McpConfig)
        ensures
            c.client.tool_call_timeout_ms == 60000,
    {
        McpConfig { client: McpClientConfig::default() }
    }
}

/// A hook: a shell command run on an event, optionally only for one matcher value.
#[derive(Debug, Clone)]
pub struct HookDef {
    pub event: String,
    pub matcher: Option<String>,
    pub command: String,
    pub timeout: Option<u64>,
}

/// The default loop limits: 500 steps per turn, 3 retries per step, no extra iterations.
pub fn default_loop_limits() -> (l: LoopLimits)
    ensures
        l.max_steps_per_turn == 500,
        l.max_retries_per_step == 3,
        l.max_ralph_iterations == 0,
{
    LoopLimits { max_steps_per_turn: 500, max_retries_per_step: 3, max_ralph_iterations: 0 }
}

/// The default number of context tokens kept free for the answer.
pub fn default_reserved_context_size() -> (n: usize)
    ensures
        n == 50000,
{
    50000
}

/// Which kind of provider serves a model.
#[derive(Debug, Clone, Copy, PartialEq, Eq, Structural)]
pub enum ProviderKind {
    OpenAi,
    Anthropic,
    Gemini,
    Echo,
}

/// How to build the provider for a model.
#[derive(Debug, Clone)]
pub struct LlmSetup {
    pub kind: ProviderKind,
    pub provider_type: String,
    pub model: String,
    pub base_url: String,
    pub api_key: Option<String>,
    pub model_entry: Option<usize>,
}

/// The index of the first entry with the given key.
pub open spec fn first_key<V>(keys: Seq<(Seq<char>, V)>, k: Seq<char>) -> Option<int>
    decreases keys.len(),
{
    if keys.len() == 0 {
        None
    } else if keys.last().0 == k && first_key(keys.drop_last(), k).is_none() {
        Some(keys.len() - 1)
    } else {
        first_key(keys.drop_last(), k)
    }
}

pub open spec fn model_keys(models: Seq<(String, LlmModel)>) -> Seq<(Seq<char>, ())> {
    models.map_values(|p: (String, LlmModel)| (p.0@, ()))
}

pub open spec fn provider_keys(providers: Seq<(String, LlmProvider)>) -> Seq<(Seq<char>, ())> {
    providers.map_values(|p: (String, LlmProvider)| (p.0@, ()))
}

/// Whether a provider type is served by the OpenAI-style client.
pub open spec fn is_openai_type(t: Seq<char>) -> bool {
    t == "kimi"@ || t == "openai"@ || t == "openai_legacy"@ || t == "openai_responses"@
}

/// The default endpoint of a provider type.
pub open spec fn default_base_url(t: Seq<char>) -> Seq<char> {
    if t == "kimi"@ { "https://api.moonshot.cn/v1"@ } else { "https://api.openai.com/v1"@ }
}

/// The provider setup for `name`: the configured model (or one named after the provider), its
/// configured provider (or one of the model's provider type), the provider's endpoint (or the
/// type's default), and the kind of client; an error for a missing API key or an unknown type.
pub open spec fn setup_spec(
    models: Seq<(String, LlmModel)>,
    providers: Seq<(String, LlmProvider)>,
    name: Seq<char>,
) -> Result<(ProviderKind, Seq<char>, Seq<char>, Seq<char>, Option<Seq<char>>, Option<int>), Seq<char>> {
    let mi = first_key(model_keys(models), name);
    let (mprov, mname) = match mi {
        Some(i) => (models[i].1.provider@, models[i].1.model@),
        None => (name, name),
    };
    let pi = first_key(provider_keys(providers), mprov);
    let (ptype, pbase, pkey) = match pi {
        Some(j) => (
            providers[j].1.provider_type@,
            match providers[j].1.base_url { Some(b) => Some(b@), None => None },
            match providers[j].1.api_key { Some(k) => Some(k@), None => None },
        ),
        None => (mprov, None, None),
    };
    let base = match pbase { Some(b) => b, None => default_base_url(ptype) };
    let kind = if is_openai_type(ptype) {
        Some(ProviderKind::OpenAi)
    } else if ptype == "anthropic"@ {
        Some(ProviderKind::Anthropic)
    } else if ptype == "google_genai"@ || ptype == "gemini"@ {
        Some(ProviderKind::Gemini)
    } else if ptype == "_echo"@ {
        Some(ProviderKind::Echo)
    } else {
        None
    };
    match kind {
        None => Err("LLM provider error: Unsupported provider type: "@ + ptype),
        Some(k) => {
            if k != ProviderKind::Echo && pkey.is_none() {
                Err("LLM provider error: API key required for "@ + match k {
                    ProviderKind::OpenAi => "OpenAI-style provider"@,
                    ProviderKind::Anthropic => "Anthropic provider"@,
                    _ => "Gemini provider"@,
                })
            } else {
                Ok((k, ptype, mname, base, pkey, mi))
            }
        },
    }
}

pub fn find_model(models: &Vec<(String, LlmModel)>, name: &str) -> (r: Option<usize>)
    ensures
        match r {
            Some(i) => i < models@.len() && first_key(model_keys(models@), name@) == Some(i as int),
            None => first_key(model_keys(models@), name@).is_none(),
        },
{
    let ghost keys = model_keys(models@);
    let mut i: usize = 0;
    while i < models.len()
        invariant
            i <= models@.len(),
            keys == model_keys(models@),
            first_key(keys.take(i as int), name@).is_none(),
        decreases models@.len() - i,
    {
        assert(keys.take((i + 1) as int).drop_last() =~= keys.take(i as int));
        if str_eq(models[i].0.as_str(), name) {
            proof {
                lemma_first_key_prefix(keys, name@, (i + 1) as int);
            }
            return Some(i);
        }
        i = i + 1;
    }
    assert(keys.take(models@.len() as int) =~= keys);
    None
}

fn find_provider(providers: &Vec<(String, LlmProvider)>, name: &str) -> (r: Option<usize>)
    ensures
        match r {
            Some(i) => i < providers@.len() && first_key(provider_keys(providers@), name@) == Some(i as int),
            None => first_key(provider_keys(providers@), name@).is_none(),
        },
{
    let ghost keys = provider_keys(providers@);
    let mut i: usize = 0;
    while i < providers.len()
        invariant
            i <= providers@.len(),
            keys == provider_keys(providers@),
            first_key(keys.take(i as int), name@).is_none(),
        decreases providers@.len() - i,
    {
        assert(keys.take((i + 1) as int).drop_last() =~= keys.take(i as int));
        if str_eq(providers[i].0.as_str(), name) {
            proof {
                lemma_first_key_prefix(keys, name@, (i + 1) as int);
            }
            return Some(i);
        }
        i = i + 1;
    }
    assert(keys.take(providers@.len() as int) =~= keys);
    None
}

/// The first match is a match.
pub proof fn lemma_first_key_valid<V>(keys: Seq<(Seq<char>, V)>, k: Seq<char>)
    ensures
        match first_key(keys, k) {
            Some(m) => 0 <= m < keys.len() && keys[m].0 == k,
            None => forall|j: int| 0 <= j < keys.len() ==> keys[j].0 != k,
        },
    decreases keys.len(),
{
    if keys.len() > 0 {
        lemma_first_key_valid(keys.drop_last(), k);
        assert forall|j: int| 0 <= j < keys.len() - 1 implies keys.drop_last()[j] == keys[j] by {}
    }
}

/// A match found in a prefix is the first match of the whole sequence.
pub proof fn lemma_first_key_prefix<V>(keys: Seq<(Seq<char>, V)>, k: Seq<char>, n: int)
    requires
        0 < n <= keys.len(),
        first_key(keys.take(n), k) == Some(n - 1),
    ensures
        first_key(keys, k) == Some(n - 1),
    decreases keys.len(),
{
    if n < keys.len() {
        assert(keys.drop_last().take(n) =~= keys.take(n));
        lemma_first_key_prefix(keys.drop_last(), k, n);
    } else {
        assert(keys.take(n) =~= keys);
    }
}

fn opt_copy(s: &Option<String>) -> (r: Option<String>)
    ensures
        match r { Some(x) => s matches Some(y) && x@ == y@, None => s.is_none() },
{
    match s {
        Some(x) => Some(x.clone()),
        None => None,
    }
}

/// Chooses the provider for a model name (the configuration part of creating a chat client).
pub fn resolve_llm(
    models: &Vec<(String, LlmModel)>,
    providers: &Vec<(String, LlmProvider)>,
    name: &str,
) -> (r: Result<LlmSetup, String>)
    ensures
        match (r, setup_spec(models@, providers@, name@)) {
            (Ok(s), Ok((k, t, m, b, key, mi))) => s.kind == k && s.provider_type@ == t && s.model@ == m
                && s.base_url@ == b && (match s.api_key { Some(x) => key == Some(x@), None => key.is_none() })
                && (match s.model_entry { Some(i) => mi == Some(i as int), None => mi.is_none() }),
            (Err(e), Err(f)) => e@ == f,
            _ => false,
        },
{
    let mi = find_model(models, name);
    let (mprov, mname) = match mi {
        Some(i) => (models[i].1.provider.clone(), models[i].1.model.clone()),
        None => (String::from_str(name), String::from_str(name)),
    };
    let pi = find_provider(providers, mprov.as_str());
    let (ptype, pbase, pkey) = match pi {
        Some(j) => (
            providers[j].1.provider_type.clone(),
            opt_copy(&providers[j].1.base_url),
            opt_copy(&providers[j].1.api_key),
        ),
        None => (mprov.clone(), None, None),
    };
    let base = match pbase {
        Some(b) => b,
        None => if str_eq(ptype.as_str(), "kimi") {
            String::from_str("https://api.moonshot.cn/v1")
        } else {
            String::from_str("https://api.openai.com/v1")
        },
    };
    let t = ptype.as_str();
    let kind = if str_eq(t, "kimi") || str_eq(t, "openai") || str_eq(t, "openai_legacy") || str_eq(t, "openai_responses") {
        ProviderKind::OpenAi
    } else if str_eq(t, "anthropic") {
        ProviderKind::Anthropic
    } else if str_eq(t, "google_genai") || str_eq(t, "gemini") {
        ProviderKind::Gemini
    } else if str_eq(t, "_echo") {
        ProviderKind::Echo
    } else {
        let mut e = String::from_str("LLM provider error: Unsupported provider type: ");
        append_str(&mut e, t);
        return Err(e);
    };
    if kind != ProviderKind::Echo && pkey.is_none() {
        let mut e = String::from_str("LLM provider error: API key required for ");
        match kind {
            ProviderKind::OpenAi => append_str(&mut e, "OpenAI-style provider"),
            ProviderKind::Anthropic => append_str(&mut e, "Anthropic provider"),
            _ => append_str(&mut e, "Gemini provider"),
        }
        return Err(e);
    }
    Ok(LlmSetup { kind, provider_type: ptype, model: mname, base_url: base, api_key: pkey, model_entry: mi })
}

/// The first entry with a key is found at its index; a key no entry has is not found.
proof fn lemma_first_key_at<V>(keys: Seq<(Seq<char>, V)>, k: Seq<char>, i: int)
    requires
        0 <= i < keys.len(),
        keys[i].0 == k,
        forall|j: int| 0 <= j < i ==> (#[trigger] keys[j]).0 != k,
    ensures
        first_key(keys, k) == Some(i),
    decreases keys.len(),
{
    if i < keys.len() - 1 {
        let d = keys.drop_last();
        assert forall|j: int| 0 <= j < i implies (#[trigger] d[j]).0 != k by {
            assert(d[j] == keys[j]);
        }
        assert(d[i] == keys[i]);
        lemma_first_key_at(d, k, i);
    } else {
        lemma_first_key_absent(keys.drop_last(), k);
    }
}

proof fn lemma_first_key_absent<V>(keys: Seq<(Seq<char>, V)>, k: Seq<char>)
    requires
        forall|j: int| 0 <= j < keys.len() ==> (#[trigger] keys[j]).0 != k,
    ensures
        first_key(keys, k).is_none(),
    decreases keys.len(),
{
    if keys.len() > 0 {
        let d = keys.drop_last();
        assert forall|j: int| 0 <= j < d.len() implies (#[trigger] d[j]).0 != k by {
            assert(d[j] == keys[j]);
        }
        assert(keys.last() == keys[keys.len() - 1]);
        lemma_first_key_absent(d, k);
    }
}

/// Law: the model asked of the provider is the model id configured under the first entry named
/// `name`, served by the first provider entry named after that entry's provider (its type, key and
/// endpoint, or the type's default endpoint); `name` itself is asked only when no entry has it.
pub proof fn lemma_resolved_model(
    models: Seq<(String, LlmModel)>,
    providers: Seq<(String, LlmProvider)>,
    name: Seq<char>,
    i: int,
    j: int,
)
    ensures
        (0 <= i < models.len() && models[i].0@ == name && (forall|x: int| 0 <= x < i ==> models[x].0@ != name))
            ==> (setup_spec(models, providers, name) matches Ok(r) ==> r.2 == models[i].1.model@ && r.5 == Some(i)),
        (0 <= i < models.len() && models[i].0@ == name && (forall|x: int| 0 <= x < i ==> models[x].0@ != name)
            && 0 <= j < providers.len() && providers[j].0@ == models[i].1.provider@
            && (forall|y: int| 0 <= y < j ==> providers[y].0@ != models[i].1.provider@))
            ==> (setup_spec(models, providers, name) matches Ok(r) ==> {
                &&& r.1 == providers[j].1.provider_type@
                &&& r.4 == match providers[j].1.api_key { Some(k) => Some(k@), None => None::<Seq<char>> }
                &&& r.3 == match providers[j].1.base_url { Some(b) => b@, None => default_base_url(r.1) }
            }),
        (forall|x: int| 0 <= x < models.len() ==> models[x].0@ != name)
            ==> (setup_spec(models, providers, name) matches Ok(r) ==> r.2 == name && r.5.is_none()),
{
    let mk = model_keys(models);
    if 0 <= i < models.len() && models[i].0@ == name && (forall|x: int| 0 <= x < i ==> models[x].0@ != name) {
        assert forall|x: int| 0 <= x < i implies (#[trigger] mk[x]).0 != name by {
            assert(models[x].0@ != name);
        }
        lemma_first_key_at(mk, name, i);
        let pk = provider_keys(providers);
        let p = models[i].1.provider@;
        if 0 <= j < providers.len() && providers[j].0@ == p && (forall|y: int| 0 <= y < j ==> providers[y].0@ != p) {
            assert forall|y: int| 0 <= y < j implies (#[trigger] pk[y]).0 != p by {
                assert(providers[y].0@ != p);
            }
            lemma_first_key_at(pk, p, j);
        }
    }
    if forall|x: int| 0 <= x < models.len() ==> models[x].0@ != name {
        assert forall|x: int| 0 <= x < mk.len() implies (#[trigger] mk[x]).0 != name by {
            assert(models[x].0@ != name);
        }
        lemma_first_key_absent(mk, name);
    }
}

} // verus!
