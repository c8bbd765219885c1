//! The interactive shell: its screen lines, and what it does on keys, on turn events and on
//! slash commands.
use vstd::prelude::*;
use crate::config::Theme;
use crate::soul::SoulEvent;
use crate::text::{append_str, push_char, starts_with, str_eq, is_prefix};
use crate::text_split::{blank, is_blank, split_lines, text_lines};
use crate::turn_model::SoulEventView;

verus! {

/// A terminal colour, by name.
#[derive(Debug, Clone, Copy, PartialEq, Eq, Structural)]
pub enum ColorName {
    Black,
    Red,
    Green,
    Yellow,
    Blue,
    Magenta,
    Cyan,
    Gray,
    DarkGray,
    LightRed,
    LightGreen,
    LightYellow,
    LightBlue,
    LightMagenta,
    LightCyan,
    White,
}

/// The colour a theme entry names, or `default` when it names none.
pub open spec fn color_for(name: Option<Seq<char>>, default: ColorName) -> ColorName {
    match name {
        Some(n) => {
            if n == "black"@ { ColorName::Black }
            else if n == "red"@ { ColorName::Red }
            else if n == "green"@ { ColorName::Green }
            else if n == "yellow"@ { ColorName::Yellow }
            else if n == "blue"@ { ColorName::Blue }
            else if n == "magenta"@ { ColorName::Magenta }
            else if n == "cyan"@ { ColorName::Cyan }
            else if n == "gray"@ || n == "grey"@ { ColorName::Gray }
            else if n == "dark_gray"@ || n == "dark_grey"@ { ColorName::DarkGray }
            else if n == "light_red"@ { ColorName::LightRed }
            else if n == "light_green"@ { ColorName::LightGreen }
            else if n == "light_yellow"@ { ColorName::LightYellow }
            else if n == "light_blue"@ { ColorName::LightBlue }
            else if n == "light_magenta"@ { ColorName::LightMagenta }
            else if n == "light_cyan"@ { ColorName::LightCyan }
            else if n == "white"@ { ColorName::White }
            else { default }
        },
        None => default,
    }
}

pub open spec fn opt_str_view(s: Option<&str>) -> Option<Seq<char>> {
    match s {
        Some(t) => Some(t@),
        None => None,
    }
}

/// Reads a colour name of the theme.
pub fn parse_color(name: Option<&str>, default: ColorName) -> (c: ColorName)
    ensures
        c == color_for(opt_str_view(name), default),
{
    match name {
        Some(n) => {
            if str_eq(n, "black") { ColorName::Black }
            else if str_eq(n, "red") { ColorName::Red }
            else if str_eq(n, "green") { ColorName::Green }
            else if str_eq(n, "yellow") { ColorName::Yellow }
            else if str_eq(n, "blue") { ColorName::Blue }
            else if str_eq(n, "magenta") { ColorName::Magenta }
            else if str_eq(n, "cyan") { ColorName::Cyan }
            else if str_eq(n, "gray") || str_eq(n, "grey") { ColorName::Gray }
            else if str_eq(n, "dark_gray") || str_eq(n, "dark_grey") { ColorName::DarkGray }
            else if str_eq(n, "light_red") { ColorName::LightRed }
            else if str_eq(n, "light_green") { ColorName::LightGreen }
            else if str_eq(n, "light_yellow") { ColorName::LightYellow }
            else if str_eq(n, "light_blue") { ColorName::LightBlue }
            else if str_eq(n, "light_magenta") { ColorName::LightMagenta }
            else if str_eq(n, "light_cyan") { ColorName::LightCyan }
            else if str_eq(n, "white") { ColorName::White }
            else { default }
        },
        None => default,
    }
}

/// What a screen line shows before its text, and so how it is coloured.
#[derive(Debug, Clone, Copy, PartialEq, Eq, Structural)]
pub enum LineKind {
    /// Text alone.
    Plain,
    /// `> ` in the user colour.
    User,
    /// `Assistant: ` in the assistant colour.
    Assistant,
    /// `Error: ` in the error colour.
    Error,
    /// `Tool: ` in cyan.
    Tool,
    /// `  → ` in cyan.
    ToolOutput,
    /// `Approval needed: ` in yellow.
    Approval,
    /// `BTW: ` in the side-question colour.
    Btw,
}

/// The label shown before the text of a line of the given kind.
pub open spec fn line_label(kind: LineKind) -> Seq<char> {
    match kind {
        LineKind::Plain => Seq::empty(),
        LineKind::User => "> "@,
        LineKind::Assistant => "Assistant: "@,
        LineKind::Error => "Error: "@,
        LineKind::Tool => "Tool: "@,
        LineKind::ToolOutput => "  → "@,
        LineKind::Approval => "Approval needed: "@,
        LineKind::Btw => "BTW: "@,
    }
}

/// The label of a line kind.
pub fn label(kind: LineKind) -> (s: &'static str)
    ensures
        s@ == line_label(kind),
{
    proof {
        reveal_strlit("");
    }
    match kind {
        LineKind::Plain => "",
        LineKind::User => "> ",
        LineKind::Assistant => "Assistant: ",
        LineKind::Error => "Error: ",
        LineKind::Tool => "Tool: ",
        LineKind::ToolOutput => "  → ",
        LineKind::Approval => "Approval needed: ",
        LineKind::Btw => "BTW: ",
    }
}

/// A line of the shell's screen.
#[derive(Debug, Clone)]
pub struct ShellLine {
    pub kind: LineKind,
    pub text: String,
}

pub struct ShellLineView {
    pub kind: LineKind,
    pub text: Seq<char>,
}

impl View for ShellLine {
    type V = ShellLineView;

    open spec fn view(&self) -> ShellLineView {
        ShellLineView { kind: self.kind, text: self.text@ }
    }
}

pub open spec fn line(kind: LineKind, text: Seq<char>) -> ShellLineView {
    ShellLineView { kind, text }
}

pub open spec fn plain(text: Seq<char>) -> ShellLineView {
    line(LineKind::Plain, text)
}

pub open spec fn lines_view(ls: Seq<ShellLine>) -> Seq<ShellLineView> {
    ls.map_values(|l: ShellLine| l@)
}

/// One line of the given kind per line of a text.
pub open spec fn lines_of(kind: LineKind, text: Seq<char>) -> Seq<ShellLineView> {
    text_lines(text).map_values(|t: Seq<char>| line(kind, t))
}

/// The screen state of the interactive shell.
pub struct Shell {
    pub lines: Vec<ShellLine>,
    pub input: String,
    pub running: bool,
    pub yolo: bool,
    pub thinking: bool,
    pub plan_mode: bool,
    pub theme: Theme,
    pub current_response: String,
    pub show_thinking_stream: bool,
}

/// The shell's state as plain values.
#[verifier::ext_equal]
pub struct ShellView {
    pub lines: Seq<ShellLineView>,
    pub input: Seq<char>,
    pub running: bool,
    pub yolo: bool,
    pub thinking: bool,
    pub plan_mode: bool,
    pub current_response: Seq<char>,
    pub show_thinking_stream: bool,
}

pub open spec fn welcome_lines() -> Seq<ShellLineView> {
    seq![plain("Welcome to Mekai! Type /help for commands."@), plain(Seq::empty())]
}

/// The window title: `Mekai`, then `[PLAN]` in plan mode, `[SAFE]` when approvals are required
/// and `[STREAMING]` while a turn runs.
pub open spec fn title_spec(s: ShellView) -> Seq<char> {
    "Mekai"@ + (if s.plan_mode { " [PLAN]"@ } else { Seq::empty() }) + (if !s.yolo { " [SAFE]"@ } else {
        Seq::empty()
    }) + (if s.thinking { " [STREAMING]"@ } else { Seq::empty() })
}

/// The text of the input box.
pub open spec fn input_text_spec(s: ShellView) -> Seq<char> {
    if s.thinking && s.plan_mode { "Planning..."@ } else { "> "@ + s.input }
}

/// The lines drawn: the screen lines and, while a turn streams an answer, the answer so far.
pub open spec fn display_spec(s: ShellView) -> Seq<ShellLineView> {
    if s.thinking && s.current_response.len() > 0 {
        s.lines.push(line(LineKind::Assistant, s.current_response))
    } else {
        s.lines
    }
}

pub open spec fn theme_color(entry: Option<String>, default: ColorName) -> ColorName {
    color_for(
        match entry {
            Some(t) => Some(t@),
            None => None,
        },
        default,
    )
}

fn entry_str(e: &Option<String>) -> (r: Option<&str>)
    ensures
        opt_str_view(r) == match e {
            Some(t) => Some(t@),
            None => None::<Seq<char>>,
        },
{
    match e {
        Some(t) => Some(t.as_str()),
        None => None,
    }
}

impl Shell {
    pub open spec fn model(&self) -> ShellView {
        ShellView {
            lines: lines_view(self.lines@),
            input: self.input@,
            running: self.running,
            yolo: self.yolo,
            thinking: self.thinking,
            plan_mode: self.plan_mode,
            current_response: self.current_response@,
            show_thinking_stream: self.show_thinking_stream,
        }
    }

    /// A shell showing the welcome text, running, approving tools automatically.
    pub fn new(theme: Theme, show_thinking_stream: bool) -> (s: Shell)
        ensures
            s.model() == (ShellView {
                lines: welcome_lines(),
                input: Seq::empty(),
                running: true,
                yolo: true,
                thinking: false,
                plan_mode: false,
                current_response: Seq::empty(),
                show_thinking_stream,
            }),
            s.theme == theme,
    {
        let mut lines: Vec<ShellLine> = Vec::new();
        lines.push(ShellLine { kind: LineKind::Plain, text: String::from_str("Welcome to Mekai! Type /help for commands.") });
        lines.push(ShellLine { kind: LineKind::Plain, text: String::new() });
        let s = Shell {
            lines,
            input: String::new(),
            running: true,
            yolo: true,
            thinking: false,
            plan_mode: false,
            theme,
            current_response: String::new(),
            show_thinking_stream,
        };
        assert(lines_view(s.lines@) =~= welcome_lines());
        s
    }

    /// The colour of the user's lines (green unless the theme says otherwise).
    pub fn user_color(&self) -> (c: ColorName)
        ensures
            c == theme_color(self.theme.user_color, ColorName::Green),
    {
        parse_color(entry_str(&self.theme.user_color), ColorName::Green)
    }

    /// The colour of the assistant's lines (blue unless the theme says otherwise).
    pub fn assistant_color(&self) -> (c: ColorName)
        ensures
            c == theme_color(self.theme.assistant_color, ColorName::Blue),
    {
        parse_color(entry_str(&self.theme.assistant_color), ColorName::Blue)
    }

    /// The colour of error lines (red unless the theme says otherwise).
    pub fn error_color(&self) -> (c: ColorName)
        ensures
            c == theme_color(self.theme.error_color, ColorName::Red),
    {
        parse_color(entry_str(&self.theme.error_color), ColorName::Red)
    }

    /// The colour of side questions (yellow unless the theme says otherwise).
    pub fn btw_color(&self) -> (c: ColorName)
        ensures
            c == theme_color(self.theme.btw_color, ColorName::Yellow),
    {
        parse_color(entry_str(&self.theme.btw_color), ColorName::Yellow)
    }

    /// The colour of the borders (white unless the theme says otherwise).
    pub fn border_color(&self) -> (c: ColorName)
        ensures
            c == theme_color(self.theme.border_style, ColorName::White),
    {
        parse_color(entry_str(&self.theme.border_style), ColorName::White)
    }

    /// The colour of a line's label; plain lines have none.
    pub fn label_color(&self, kind: LineKind) -> (c: Option<ColorName>)
        ensures
            c == match kind {
                LineKind::Plain => None,
                LineKind::User => Some(theme_color(self.theme.user_color, ColorName::Green)),
                LineKind::Assistant => Some(theme_color(self.theme.assistant_color, ColorName::Blue)),
                LineKind::Error => Some(theme_color(self.theme.error_color, ColorName::Red)),
                LineKind::Tool | LineKind::ToolOutput => Some(ColorName::Cyan),
                LineKind::Approval => Some(ColorName::Yellow),
                LineKind::Btw => Some(theme_color(self.theme.btw_color, ColorName::Yellow)),
            },
    {
        match kind {
            LineKind::Plain => None,
            LineKind::User => Some(self.user_color()),
            LineKind::Assistant => Some(self.assistant_color()),
            LineKind::Error => Some(self.error_color()),
            LineKind::Tool | LineKind::ToolOutput => Some(ColorName::Cyan),
            LineKind::Approval => Some(ColorName::Yellow),
            LineKind::Btw => Some(self.btw_color()),
        }
    }

    /// The window title.
    pub fn title(&self) -> (t: String)
        ensures
            t@ == title_spec(self.model()),
    {
        let mut title = String::from_str("Mekai");
        if self.plan_mode {
            append_str(&mut title, " [PLAN]");
        }
        if !self.yolo {
            append_str(&mut title, " [SAFE]");
        }
        if self.thinking {
            append_str(&mut title, " [STREAMING]");
        }
        title
    }

    /// The text of the input box.
    pub fn input_text(&self) -> (t: String)
        ensures
            t@ == input_text_spec(self.model()),
    {
        if self.thinking && self.plan_mode {
            String::from_str("Planning...")
        } else {
            let mut t = String::from_str("> ");
            append_str(&mut t, self.input.as_str());
            t
        }
    }

    /// The lines to draw.
    pub fn display_lines(&self) -> (r: Vec<ShellLine>)
        ensures
            lines_view(r@) == display_spec(self.model()),
    {
        let mut r: Vec<ShellLine> = Vec::new();
        let mut i: usize = 0;
        while i < self.lines.len()
            invariant
                i <= self.lines@.len(),
                r@.len() == i,
                forall|j: int| 0 <= j < i ==> (#[trigger] r@[j])@ == self.lines@[j]@,
            decreases self.lines@.len() - i,
        {
            r.push(ShellLine { kind: self.lines[i].kind, text: crate::llm::copy_string(&self.lines[i].text) });
            i = i + 1;
        }
        assert(lines_view(r@) =~= lines_view(self.lines@));
        if self.thinking && !self.current_response.as_str().is_empty() {
            r.push(ShellLine { kind: LineKind::Assistant, text: crate::llm::copy_string(&self.current_response) });
            assert(lines_view(r@) =~= lines_view(self.lines@).push(line(LineKind::Assistant, self.current_response@)));
        }
        r
    }

    /// Adds a line.
    pub fn push_line(&mut self, kind: LineKind, text: String)
        ensures
            final(self).model() == (ShellView { lines: old(self).model().lines.push(line(kind, text@)), ..old(self).model() }),
            final(self).theme == old(self).theme,
    {
        self.lines.push(ShellLine { kind, text });
        assert(lines_view(self.lines@) =~= lines_view(old(self).lines@).push(line(kind, text@)));
    }

    /// Adds a plain line.
    pub fn say(&mut self, text: &str)
        ensures
            final(self).model() == (ShellView { lines: old(self).model().lines.push(plain(text@)), ..old(self).model() }),
            final(self).theme == old(self).theme,
    {
        self.push_line(LineKind::Plain, String::from_str(text));
    }

    /// Adds one line of the given kind per line of `text`.
    pub fn push_text_lines(&mut self, kind: LineKind, text: &str)
        ensures
            final(self).model() == (ShellView { lines: old(self).model().lines + lines_of(kind, text@), ..old(self).model() }),
            final(self).theme == old(self).theme,
    {
        let parts = split_lines(text);
        let ghost pv = crate::text_split::strings_view(parts@);
        let ghost start = self.model();
        let mut i: usize = 0;
        while i < parts.len()
            invariant
                i <= parts@.len(),
                pv == crate::text_split::strings_view(parts@),
                pv == text_lines(text@),
                self.model() == (ShellView { lines: start.lines + pv.take(i as int).map_values(|t: Seq<char>| line(kind, t)), ..start }),
                start == old(self).model(),
                self.theme == old(self).theme,
            decreases parts@.len() - i,
        {
            self.push_line(kind, crate::llm::copy_string(&parts[i]));
            assert(pv.take(i + 1).map_values(|t: Seq<char>| line(kind, t)) =~= pv.take(i as int).map_values(|t: Seq<char>| line(kind, t)).push(line(kind, pv[i as int])));
            i = i + 1;
        }
        assert(pv.take(parts@.len() as int) =~= pv);
    }
}

/// A key the shell reacts to.
#[derive(Debug, Clone, Copy, PartialEq, Eq, Structural)]
pub enum KeyInput {
    /// Control-C.
    Interrupt,
    Enter,
    Char(char),
    Backspace,
    Esc,
    Other,
}

/// What the caller does after a key.
#[derive(Debug)]
pub enum KeyOutcome {
    Nothing,
    /// Cancel the running turn.
    Cancel,
    /// Run this slash command with `handle_slash_command`, when the agent is at hand.
    Command(String),
    /// Start a turn with this prompt.
    Prompt(String),
}

pub enum KeyOutcomeView {
    Nothing,
    Cancel,
    Command(Seq<char>),
    Prompt(Seq<char>),
}

impl View for KeyOutcome {
    type V = KeyOutcomeView;

    open spec fn view(&self) -> KeyOutcomeView {
        match self {
            KeyOutcome::Nothing => KeyOutcomeView::Nothing,
            KeyOutcome::Cancel => KeyOutcomeView::Cancel,
            KeyOutcome::Command(c) => KeyOutcomeView::Command(c@),
            KeyOutcome::Prompt(p) => KeyOutcomeView::Prompt(p@),
        }
    }
}

/// What a key does to the shell.
pub open spec fn key_step(s: ShellView, k: KeyInput) -> (ShellView, KeyOutcomeView) {
    match k {
        KeyInput::Interrupt => if s.thinking {
            (ShellView { lines: s.lines.push(plain("Cancelling..."@)), ..s }, KeyOutcomeView::Cancel)
        } else {
            (ShellView { running: false, ..s }, KeyOutcomeView::Nothing)
        },
        KeyInput::Enter => if s.thinking {
            (s, KeyOutcomeView::Nothing)
        } else {
            let taken = ShellView { input: Seq::empty(), ..s };
            if is_prefix("/"@, s.input) {
                (taken, KeyOutcomeView::Command(s.input))
            } else if !is_blank(s.input) {
                (
                    ShellView {
                        lines: s.lines.push(line(LineKind::User, s.input)),
                        thinking: true,
                        current_response: Seq::empty(),
                        ..taken
                    },
                    KeyOutcomeView::Prompt(s.input),
                )
            } else {
                (taken, KeyOutcomeView::Nothing)
            }
        },
        KeyInput::Char(c) => if !s.thinking {
            (ShellView { input: s.input.push(c), ..s }, KeyOutcomeView::Nothing)
        } else {
            (s, KeyOutcomeView::Nothing)
        },
        KeyInput::Backspace => if !s.thinking && s.input.len() > 0 {
            (ShellView { input: s.input.drop_last(), ..s }, KeyOutcomeView::Nothing)
        } else {
            (s, KeyOutcomeView::Nothing)
        },
        KeyInput::Esc => (ShellView { running: false, ..s }, KeyOutcomeView::Nothing),
        KeyInput::Other => (s, KeyOutcomeView::Nothing),
    }
}

pub open spec fn opt_event_view(ev: Option<SoulEvent>) -> Option<SoulEventView> {
    match ev {
        Some(e) => Some(e@),
        None => None,
    }
}

/// What an event of the running turn (or the end of the event stream, `None`) does to the shell;
/// the flag tells whether the stream is over.
pub open spec fn event_step(s: ShellView, ev: Option<SoulEventView>) -> (ShellView, bool) {
    match ev {
        Some(SoulEventView::Token(t)) => (
            if s.show_thinking_stream { ShellView { current_response: s.current_response + t, ..s } } else { s },
            false,
        ),
        Some(SoulEventView::ToolCall(c)) => (
            ShellView {
                lines: s.lines.push(line(LineKind::Tool, c.function.name + "("@ + c.function.arguments + ")"@)),
                ..s
            },
            false,
        ),
        Some(SoulEventView::ToolResult(_, out)) => (
            ShellView { lines: s.lines + lines_of(LineKind::ToolOutput, out), ..s },
            false,
        ),
        Some(SoulEventView::Plan(p)) => (ShellView { current_response: p, ..s }, false),
        Some(SoulEventView::Done(r)) => (
            ShellView {
                thinking: false,
                lines: s.lines + (if s.current_response.len() > 0 {
                    lines_of(LineKind::Assistant, s.current_response)
                } else if r.len() > 0 {
                    lines_of(LineKind::Assistant, r)
                } else {
                    Seq::empty()
                }),
                current_response: Seq::empty(),
                ..s
            },
            true,
        ),
        Some(SoulEventView::Error(e)) => (
            ShellView {
                thinking: false,
                lines: s.lines.push(line(LineKind::Error, e)),
                current_response: Seq::empty(),
                ..s
            },
            true,
        ),
        Some(SoulEventView::ApprovalNeeded(n)) => (
            ShellView { lines: s.lines.push(line(LineKind::Approval, n)), ..s },
            false,
        ),
        None => (
            if s.thinking {
                ShellView {
                    thinking: false,
                    lines: s.lines.push(line(LineKind::Error, "Soul task ended unexpectedly"@)),
                    ..s
                }
            } else {
                s
            },
            true,
        ),
    }
}

/// What a first prompt given on the command line does to the shell; the flag tells whether a
/// turn starts.
pub open spec fn prompt_step(s: ShellView, prompt: Seq<char>) -> (ShellView, bool) {
    if !is_blank(prompt) {
        (
            ShellView {
                lines: s.lines.push(line(LineKind::User, prompt)),
                thinking: true,
                current_response: Seq::empty(),
                ..s
            },
            true,
        )
    } else {
        (s, false)
    }
}

impl Shell {
    /// Shows a first prompt and tells whether to start a turn with it.
    pub fn start_prompt(&mut self, prompt: &str) -> (start: bool)
        ensures
            (final(self).model(), start) == prompt_step(old(self).model(), prompt@),
            final(self).theme == old(self).theme,
    {
        if !blank(prompt) {
            self.push_line(LineKind::User, String::from_str(prompt));
            self.thinking = true;
            self.current_response = String::new();
            proof { assert(self.model() =~= prompt_step(old(self).model(), prompt@).0); }
            true
        } else {
            false
        }
    }

    /// Handles an event of the running turn, or the end of its event stream (`None`); true when
    /// the stream is over.
    pub fn on_event(&mut self, ev: Option<SoulEvent>) -> (ended: bool)
        ensures
            (final(self).model(), ended) == event_step(old(self).model(), opt_event_view(ev)),
            final(self).theme == old(self).theme,
    {
        let ghost s = self.model();
        match ev {
            Some(SoulEvent::Token(t)) => {
                if self.show_thinking_stream {
                    append_str(&mut self.current_response, t.as_str());
                }
                proof { assert(self.model() =~= event_step(s, opt_event_view(ev)).0); }
                false
            },
            Some(SoulEvent::ToolCall(c)) => {
                let mut t = crate::llm::copy_string(&c.function.name);
                append_str(&mut t, "(");
                append_str(&mut t, c.function.arguments.as_str());
                append_str(&mut t, ")");
                self.push_line(LineKind::Tool, t);
                false
            },
            Some(SoulEvent::ToolResult { call_id: _, output }) => {
                self.push_text_lines(LineKind::ToolOutput, output.as_str());
                false
            },
            Some(SoulEvent::Plan(p)) => {
                self.current_response = p;
                proof { assert(self.model() =~= event_step(s, opt_event_view(ev)).0); }
                false
            },
            Some(SoulEvent::Done(response)) => {
                self.thinking = false;
                if !self.current_response.as_str().is_empty() {
                    let text = crate::llm::copy_string(&self.current_response);
                    self.push_text_lines(LineKind::Assistant, text.as_str());
                } else if !response.as_str().is_empty() {
                    self.push_text_lines(LineKind::Assistant, response.as_str());
                } else {
                    assert(s.lines + Seq::<ShellLineView>::empty() =~= s.lines);
                }
                self.current_response = String::new();
                proof { assert(self.model() =~= event_step(s, opt_event_view(ev)).0); }
                true
            },
            Some(SoulEvent::Error(err)) => {
                self.thinking = false;
                self.push_line(LineKind::Error, err);
                self.current_response = String::new();
                proof { assert(self.model() =~= event_step(s, opt_event_view(ev)).0); }
                true
            },
            Some(SoulEvent::ApprovalNeeded { tool_name }) => {
                self.push_line(LineKind::Approval, tool_name);
                false
            },
            None => {
                if self.thinking {
                    self.thinking = false;
                    self.push_line(LineKind::Error, String::from_str("Soul task ended unexpectedly"));
                    proof { assert(self.model() =~= event_step(s, opt_event_view(ev)).0); }
                }
                true
            },
        }
    }

    /// Handles a key.
    pub fn on_key(&mut self, key: KeyInput) -> (out: KeyOutcome)
        ensures
            (final(self).model(), out@) == key_step(old(self).model(), key),
            final(self).theme == old(self).theme,
    {
        let ghost s = self.model();
        match key {
            KeyInput::Interrupt => {
                if self.thinking {
                    self.say("Cancelling...");
                    KeyOutcome::Cancel
                } else {
                    self.running = false;
                    KeyOutcome::Nothing
                }
            },
            KeyInput::Enter => {
                if self.thinking {
                    return KeyOutcome::Nothing;
                }
                let mut input = String::new();
                core::mem::swap(&mut input, &mut self.input);
                if starts_with(input.as_str(), "/") {
                    proof { assert(self.model() =~= key_step(s, key).0); }
                    KeyOutcome::Command(input)
                } else if !blank(input.as_str()) {
                    self.push_line(LineKind::User, crate::llm::copy_string(&input));
                    self.thinking = true;
                    self.current_response = String::new();
                    proof { assert(self.model() =~= key_step(s, key).0); }
                    KeyOutcome::Prompt(input)
                } else {
                    proof { assert(self.model() =~= key_step(s, key).0); }
                    KeyOutcome::Nothing
                }
            },
            KeyInput::Char(c) => {
                if !self.thinking {
                    push_char(&mut self.input, c);
                }
                proof { assert(self.model() =~= key_step(s, key).0); }
                KeyOutcome::Nothing
            },
            KeyInput::Backspace => {
                if !self.thinking {
                    let n = self.input.as_str().unicode_len();
                    if n > 0 {
                        let shorter = String::from_str(self.input.as_str().substring_char(0, n - 1));
                        self.input = shorter;
                        proof { assert(self.model() =~= key_step(s, key).0); }
                    }
                }
                KeyOutcome::Nothing
            },
            KeyInput::Esc => {
                self.running = false;
                KeyOutcome::Nothing
            },
            KeyInput::Other => KeyOutcome::Nothing,
        }
    }
}

} // verus!
