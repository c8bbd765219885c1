//! Verified core of the Mekai command-line agent.
use vstd::prelude::*;

pub mod agentspec;
pub mod approval;
pub mod background;
pub mod cancel;
pub mod cli;
pub mod compaction;
pub mod config;
pub mod context;
pub mod denwa_renji;
pub mod hooks;
pub mod llm;
pub mod mcp;
pub mod metadata;
pub mod notifications;
pub mod paths;
pub mod subagents;
pub mod plugin;
pub mod print;
pub mod queue;
pub mod rpc;
pub mod session;
pub mod shell;
pub mod skill;
pub mod slash;
pub mod soul;
pub mod startup;
pub mod stream;
pub mod telemetry;
pub mod text;
pub mod text_split;
pub mod tools;
pub mod turn_model;
pub mod vis;
pub mod wire;

verus! {
} // verus!
