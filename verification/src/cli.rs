//! The command line, as read.
use vstd::prelude::*;

verus! {

/// The options of the command line (paths as text).
#[derive(Debug, Clone)]
pub struct Cli {
    pub command: Option<Commands>,
    pub verbose: bool,
    pub debug: bool,
    pub work_dir: Option<String>,
    pub resume: Option<String>,
    pub continue_: bool,
    pub prompt: Option<String>,
    pub print: bool,
    pub acp: bool,
    pub wire: bool,
    pub yolo: bool,
    pub plan: bool,
    pub model: Option<String>,
    pub thinking: Option<bool>,
    pub config: Option<String>,
    pub config_file: Option<String>,
    pub agent_file: Option<String>,
    pub mcp_config_file: Vec<String>,
    pub mcp_config: Vec<String>,
    pub skills_dir: Vec<String>,
    pub add_dir: Vec<String>,
    pub max_steps_per_turn: Option<usize>,
    pub max_retries_per_step: Option<usize>,
    pub max_ralph_iterations: Option<i32>,
    pub input_format: Option<String>,
    pub output_format: Option<String>,
    pub final_message_only: bool,
    pub quiet: bool,
}

/// The subcommands.
#[derive(Debug, Clone)]
pub enum Commands {
    Term { args: Vec<String> },
    Export { output: Option<String> },
    Info,
    Mcp { command: Option<McpCommands> },
    Plugin { command: Option<PluginCommands> },
    Vis,
}

/// The subcommands of `mcp`.
#[derive(Debug, Clone)]
pub enum McpCommands {
    List,
    Add { name: String, command: String },
    Remove { name: String },
}

/// The subcommands of `plugin`.
#[derive(Debug, Clone)]
pub enum PluginCommands {
    List,
    Install { source: String },
    Remove { name: String },
}

impl Cli {
    /// Whether only the final answer is printed: asked for, or quiet.
    pub fn final_only(&self) -> (b: bool)
        ensures
            b == (self.final_message_only || self.quiet),
    {
        self.final_message_only || self.quiet
    }

    /// The input format of the printing interface: the one asked for, or text.
    pub fn input_format_or_text(&self) -> (s: String)
        ensures
            s@ == match self.input_format { Some(f) => f@, None => "text"@ },
    {
        match &self.input_format {
            Some(f) => crate::llm::copy_string(f),
            None => String::from_str("text"),
        }
    }
}

} // verus!
