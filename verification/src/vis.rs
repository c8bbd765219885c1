//! The session visualizer: which session and event are selected, and how keys move the selection.
use vstd::prelude::*;
use crate::slash::{cuttable, short_id};
use crate::text::{append_str, byte_len, byte_prefix};
use crate::wire::{WireEvent, event_ids_cuttable, event_text, format_event};

verus! {

/// A session listed by the visualizer.
#[derive(Debug, Clone)]
pub struct SessionEntry {
    pub id: String,
    pub title: String,
    pub updated_at: String,
    pub path: String,
}

/// Which pane the arrow keys move in.
#[derive(Debug, Clone, Copy, PartialEq, Eq, Structural)]
pub enum Focus {
    Sessions,
    Events,
}

/// A key the visualizer reacts to.
#[derive(Debug, Clone, Copy, PartialEq, Eq, Structural)]
pub enum VisKey {
    Quit,
    Tab,
    Up,
    Down,
    Other,
}

/// The visualizer's state: the sessions, the events of the selected one, the selections.
pub struct Visualizer {
    pub sessions: Vec<SessionEntry>,
    pub selected: usize,
    pub events: Vec<WireEvent>,
    pub event_selected: usize,
    pub running: bool,
    pub focus: Focus,
}

/// Where a key leaves the selections, and whether the newly selected session's events must be
/// loaded.
pub struct VisStep {
    pub selected: nat,
    pub event_selected: nat,
    pub running: bool,
    pub focus: Focus,
    pub load: bool,
}

pub open spec fn vis_key_step(sessions: nat, events: nat, selected: nat, event_selected: nat, running: bool, focus: Focus, key: VisKey) -> VisStep {
    let same = VisStep { selected, event_selected, running, focus, load: false };
    match key {
        VisKey::Quit => VisStep { running: false, ..same },
        VisKey::Tab => VisStep { focus: if focus == Focus::Sessions { Focus::Events } else { Focus::Sessions }, ..same },
        VisKey::Up => if focus == Focus::Sessions {
            if selected > 0 { VisStep { selected: (selected - 1) as nat, load: true, ..same } } else { same }
        } else {
            if event_selected > 0 { VisStep { event_selected: (event_selected - 1) as nat, ..same } } else { same }
        },
        VisKey::Down => if focus == Focus::Sessions {
            if selected + 1 < sessions { VisStep { selected: selected + 1, load: true, ..same } } else { same }
        } else {
            if event_selected + 1 < events { VisStep { event_selected: event_selected + 1, ..same } } else { same }
        },
        VisKey::Other => same,
    }
}

impl Visualizer {
    /// Selections within bounds.
    pub open spec fn wf(&self) -> bool {
        &&& (self.selected < self.sessions@.len() || self.selected == 0)
        &&& (self.event_selected < self.events@.len() || self.event_selected == 0)
    }

    /// An empty visualizer, running, focused on the sessions.
    pub fn new() -> (v: Visualizer)
        ensures
            v.wf(),
            v.sessions@.len() == 0 && v.events@.len() == 0,
            v.selected == 0 && v.event_selected == 0,
            v.running,
            v.focus == Focus::Sessions,
    {
        Visualizer { sessions: Vec::new(), selected: 0, events: Vec::new(), event_selected: 0, running: true, focus: Focus::Sessions }
    }

    /// Shows the events of the selected session, the first one selected.
    pub fn show_events(&mut self, events: Vec<WireEvent>)
        requires
            old(self).wf(),
        ensures
            final(self).wf(),
            final(self).events@ == events@,
            final(self).event_selected == 0,
            final(self).sessions@ == old(self).sessions@,
            final(self).selected == old(self).selected,
            final(self).running == old(self).running,
            final(self).focus == old(self).focus,
    {
        self.events = events;
        self.event_selected = 0;
    }

    /// Handles a key; returns the index of the session whose events are to be loaded, if the
    /// selection moved to another session.
    pub fn on_key(&mut self, key: VisKey) -> (load: Option<usize>)
        requires
            old(self).wf(),
        ensures
            final(self).wf(),
            ({
                let st = vis_key_step(old(self).sessions@.len(), old(self).events@.len(), old(self).selected as nat,
                    old(self).event_selected as nat, old(self).running, old(self).focus, key);
                &&& final(self).selected == st.selected
                &&& final(self).event_selected == st.event_selected
                &&& final(self).running == st.running
                &&& final(self).focus == st.focus
                &&& load == (if st.load { Some(final(self).selected) } else { None })
            }),
            final(self).sessions@ == old(self).sessions@,
            final(self).events@ == old(self).events@,
    {
        match key {
            VisKey::Quit => {
                self.running = false;
                None
            },
            VisKey::Tab => {
                self.focus = match self.focus {
                    Focus::Sessions => Focus::Events,
                    Focus::Events => Focus::Sessions,
                };
                None
            },
            VisKey::Up => match self.focus {
                Focus::Sessions => {
                    if self.selected > 0 {
                        self.selected = self.selected - 1;
                        Some(self.selected)
                    } else {
                        None
                    }
                },
                Focus::Events => {
                    if self.event_selected > 0 {
                        self.event_selected = self.event_selected - 1;
                    }
                    None
                },
            },
            VisKey::Down => match self.focus {
                Focus::Sessions => {
                    let n = self.sessions.len();
                    if self.selected + 1 < n {
                        self.selected = self.selected + 1;
                        Some(self.selected)
                    } else {
                        None
                    }
                },
                Focus::Events => {
                    let n = self.events.len();
                    if self.event_selected + 1 < n {
                        self.event_selected = self.event_selected + 1;
                    }
                    None
                },
            },
            VisKey::Other => None,
        }
    }

    /// The title of the events pane: `Events (title)` with the selected session's title.
    pub fn events_title(&self) -> (t: String)
        ensures
            t@ == "Events ("@ + (if self.selected < self.sessions@.len() { self.sessions@[self.selected as int].title@ } else { Seq::empty() }) + ")"@,
    {
        let mut t = String::from_str("Events (");
        if self.selected < self.sessions.len() {
            append_str(&mut t, self.sessions[self.selected].title.as_str());
        } else {
            assert(t@ + Seq::<char>::empty() =~= t@);
        }
        append_str(&mut t, ")");
        t
    }

    /// The text before a session's title in the list: its shortened id and a space.
    pub fn session_prefix(&self, i: usize) -> (t: String)
        requires
            i < self.sessions@.len(),
            cuttable(self.sessions@[i as int].id@),
        ensures
            t@ == short_id(self.sessions@[i as int].id@) + " "@,
    {
        let id = self.sessions[i].id.as_str();
        let n = byte_len(id);
        let k = if n < 8 { n } else { 8 };
        let mut t = String::from_str(byte_prefix(id, k));
        append_str(&mut t, " ");
        t
    }

    /// The events, each on one line.
    pub fn event_lines(&self) -> (r: Vec<String>)
        requires
            forall|i: int| 0 <= i < self.events@.len() ==> event_ids_cuttable(#[trigger] self.events@[i]),
        ensures
            r@.len() == self.events@.len(),
            forall|i: int| 0 <= i < r@.len() ==> (#[trigger] r@[i])@ == event_text(self.events@[i]),
    {
        let mut r: Vec<String> = Vec::new();
        let mut i: usize = 0;
        while i < self.events.len()
            invariant
                i <= self.events@.len(),
                r@.len() == i,
                forall|j: int| 0 <= j < i ==> (#[trigger] r@[j])@ == event_text(self.events@[j]),
                forall|j: int| 0 <= j < self.events@.len() ==> event_ids_cuttable(#[trigger] self.events@[j]),
            decreases self.events@.len() - i,
        {
            assert(event_ids_cuttable(self.events@[i as int]));
            r.push(format_event(&self.events[i]));
            i = i + 1;
        }
        r
    }
}

/// Law: in the session list, moving up and then down comes back to the session selected before.
pub proof fn lemma_up_then_down(sessions: nat, events: nat, selected: nat, event_selected: nat, running: bool)
    requires
        0 < selected < sessions,
    ensures
        ({
            let up = vis_key_step(sessions, events, selected, event_selected, running, Focus::Sessions, VisKey::Up);
            let down = vis_key_step(sessions, events, up.selected, up.event_selected, up.running, up.focus, VisKey::Down);
            down.selected == selected && up.load && down.load
        }),
{
}

} // verus!
