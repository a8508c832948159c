//! The state of the telemetry viewer: the events received, which one is
//! selected, and what the panes show.

use vstd::prelude::*;
use crate::cognitive::{EventView, TelemetryEvent, event, events_view};
use crate::text::{chars_of, str_eq, substring};

verus! {

/// The viewer's state: the events received, oldest first, and the selection.
pub struct Timeline {
    pub events: Vec<TelemetryEvent>,
    pub selected: Option<usize>,
}

/// The selection after moving down: the next event, wrapping to the first.
pub open spec fn next_selection(sel: Option<usize>, len: nat) -> Option<usize> {
    match sel {
        Some(i) => if i >= (if len >= 1 { len - 1 } else { 0 }) {
            Some(0)
        } else {
            Some((i + 1) as usize)
        },
        None => Some(0),
    }
}

/// The selection after moving up: the previous event, wrapping to the last.
pub open spec fn previous_selection(sel: Option<usize>, len: nat) -> Option<usize> {
    match sel {
        Some(i) => if i == 0 {
            Some((if len >= 1 { len - 1 } else { 0 }) as usize)
        } else {
            Some((i - 1) as usize)
        },
        None => Some(0),
    }
}

/// The selection after an event arrives (`len` counts it): the new event where
/// nothing was selected or the selection followed the last event; else unchanged.
pub open spec fn follow_selection(sel: Option<usize>, len: nat) -> Option<usize> {
    let last = (if len >= 1 { len - 1 } else { 0 }) as usize;
    match sel {
        None => Some(last),
        Some(i) => if i == (if len >= 2 { len - 2 } else { 0 }) {
            Some(last)
        } else {
            Some(i)
        },
    }
}

/// What a key does in the viewer.
#[derive(Debug, PartialEq, Eq, Structural, Clone, Copy)]
pub enum KeyAction {
    Quit,
    Next,
    Previous,
    Ignore,
}

/// The keys the viewer reads.
#[derive(Debug, PartialEq, Eq, Structural, Clone, Copy)]
pub enum KeyInput {
    Char(char),
    Esc,
    Down,
    Up,
    Other,
}

/// The action of a key: `q` or Esc quits, Down or `j` moves down, Up or `k`
/// moves up.
pub open spec fn key_action_of(k: KeyInput) -> KeyAction {
    match k {
        KeyInput::Char('q') | KeyInput::Esc => KeyAction::Quit,
        KeyInput::Down | KeyInput::Char('j') => KeyAction::Next,
        KeyInput::Up | KeyInput::Char('k') => KeyAction::Previous,
        _ => KeyAction::Ignore,
    }
}

/// The action of a key.
pub fn key_action(k: KeyInput) -> (r: KeyAction)
    ensures
        r == key_action_of(k),
{
    match k {
        KeyInput::Char('q') | KeyInput::Esc => KeyAction::Quit,
        KeyInput::Down | KeyInput::Char('j') => KeyAction::Next,
        KeyInput::Up | KeyInput::Char('k') => KeyAction::Previous,
        _ => KeyAction::Ignore,
    }
}

/// The colours of the timeline.
#[derive(Debug, PartialEq, Eq, Structural, Clone, Copy)]
pub enum EventColor {
    Cyan,
    Yellow,
    Green,
    Red,
    DarkGray,
}

/// The colour of an event type.
pub open spec fn color_of(t: Seq<char>) -> EventColor {
    if t == "Reasoning"@ {
        EventColor::Cyan
    } else if t == "Tool Request"@ {
        EventColor::Yellow
    } else if t == "Tool Result"@ {
        EventColor::Green
    } else if t == "Error"@ || t == "Fatal"@ {
        EventColor::Red
    } else {
        EventColor::DarkGray
    }
}

/// The colour in which an event type is shown.
pub fn event_color(event_type: &str) -> (r: EventColor)
    ensures
        r == color_of(event_type@),
{
    if str_eq(event_type, "Reasoning") {
        EventColor::Cyan
    } else if str_eq(event_type, "Tool Request") {
        EventColor::Yellow
    } else if str_eq(event_type, "Tool Result") {
        EventColor::Green
    } else if str_eq(event_type, "Error") || str_eq(event_type, "Fatal") {
        EventColor::Red
    } else {
        EventColor::DarkGray
    }
}

/// The first line of `s`, as `str::lines` gives it: up to the first line
/// feed, without a carriage return right before it; empty for empty text.
pub open spec fn first_line(s: Seq<char>) -> Seq<char> {
    if exists|i: int| 0 <= i < s.len() && s[i] == '\n' {
        let e = choose|i: int| 0 <= i < s.len() && s[i] == '\n' && forall|j: int| 0 <= j < i ==> s[j] != '\n';
        if e > 0 && s[e - 1] == '\r' {
            s.subrange(0, e - 1)
        } else {
            s.subrange(0, e)
        }
    } else {
        s
    }
}

/// The preview of an event's content: the first forty characters of its
/// first line, indented and followed by an ellipsis.
pub open spec fn preview_text(content: Seq<char>) -> Seq<char> {
    let line = first_line(content);
    "  "@ + (if line.len() > 40 { line.subrange(0, 40) } else { line }) + "..."@
}

/// The preview of an event's content.
pub fn preview(content: &str) -> (r: String)
    ensures
        r@ == preview_text(content@),
{
    let v = chars_of(content);
    let mut e: usize = 0;
    while e < v.len() && v[e] != '\n'
        invariant
            e <= v@.len(),
            forall|j: int| 0 <= j < e ==> v@[j] != '\n',
        decreases v.len() - e,
    {
        e = e + 1;
    }
    let end = if e < v.len() {
        assert(forall|j: int| 0 <= j < e ==> v@[j] != '\n');
        proof {
            let c = choose|i: int| 0 <= i < v@.len() && v@[i] == '\n' && forall|j: int| 0 <= j < i ==> v@[j] != '\n';
            assert(c == e as int) by {
                if c < e as int { assert(v@[c] != '\n'); }
                if c > e as int { assert(v@[e as int] != '\n'); }
            }
        }
        if e > 0 && v[e - 1] == '\r' {
            e - 1
        } else {
            e
        }
    } else {
        assert(content@.subrange(0, v@.len() as int) =~= content@);
        e
    };
    let cut = if end > 40 { 40 } else { end };
    let line = substring(content, 0, cut);
    assert(line@ =~= (if first_line(content@).len() > 40 {
        first_line(content@).subrange(0, 40)
    } else {
        first_line(content@)
    }));
    let mut r = String::from_str("  ");
    r.append(line.as_str());
    r.append("...");
    r
}

/// The title of the timeline of an environment.
pub fn timeline_title(env_id: &str) -> (r: String)
    ensures
        r@ == "Timeline: "@ + env_id@,
{
    let mut r = String::from_str("Timeline: ");
    r.append(env_id);
    r
}

/// The event shown when the telemetry stream fails.
pub fn stream_error_event(error: &str) -> (r: TelemetryEvent)
    ensures
        r@ == event("Fatal"@, "gRPC Stream Error: "@ + error@, "Control Plane"@),
{
    let mut content = String::from_str("gRPC Stream Error: ");
    content.append(error);
    TelemetryEvent {
        event_type: String::from_str("Fatal"),
        content,
        agent_name: String::from_str("Control Plane"),
    }
}

/// The event shown when the daemon closes the telemetry stream.
pub fn stream_closed_event() -> (r: TelemetryEvent)
    ensures
        r@ == event("System"@, "Daemon closed the telemetry connection."@, "Control Plane"@),
{
    TelemetryEvent {
        event_type: String::from_str("System"),
        content: String::from_str("Daemon closed the telemetry connection."),
        agent_name: String::from_str("Control Plane"),
    }
}

/// What the inspector pane shows: the selected event's content (nothing
/// where the selection is past the events), or a waiting notice.
pub open spec fn inspector_text_of(events: Seq<EventView>, sel: Option<usize>) -> Seq<char> {
    match sel {
        Some(i) => if i < events.len() {
            events[i as int].content
        } else {
            Seq::empty()
        },
        None => "Awaiting environment telemetry..."@,
    }
}

impl Timeline {
    /// An empty timeline, nothing selected.
    pub fn new() -> (r: Self)
        ensures
            r.events@.len() == 0,
            r.selected is None,
    {
        Timeline { events: Vec::new(), selected: None }
    }

    /// Moves the selection down.
    pub fn next(&mut self)
        ensures
            final(self).events@ == old(self).events@,
            final(self).selected == next_selection(old(self).selected, old(self).events@.len()),
    {
        let last = self.events.len().saturating_sub(1);
        let i = match self.selected {
            Some(i) => if i >= last {
                0
            } else {
                i + 1
            },
            None => 0,
        };
        self.selected = Some(i);
    }

    /// Moves the selection up.
    pub fn previous(&mut self)
        ensures
            final(self).events@ == old(self).events@,
            final(self).selected == previous_selection(old(self).selected, old(self).events@.len()),
    {
        let i = match self.selected {
            Some(i) => if i == 0 {
                self.events.len().saturating_sub(1)
            } else {
                i - 1
            },
            None => 0,
        };
        self.selected = Some(i);
    }

    /// Takes in a new event; the selection follows it where it followed the
    /// last event or nothing was selected.
    pub fn push_event(&mut self, e: TelemetryEvent)
        ensures
            final(self).events@ == old(self).events@.push(e),
            final(self).selected == follow_selection(old(self).selected, old(self).events@.len() + 1),
    {
        self.events.push(e);
        let len = self.events.len();
        match self.selected {
            None => {
                self.selected = Some(len.saturating_sub(1));
            },
            Some(sel) => {
                if sel == len.saturating_sub(2) {
                    self.selected = Some(len.saturating_sub(1));
                }
            },
        }
    }

    /// What the inspector pane shows.
    pub fn inspector_text(&self) -> (r: String)
        ensures
            r@ == inspector_text_of(events_view(self.events@), self.selected),
    {
        match self.selected {
            Some(i) => if i < self.events.len() {
                self.events[i].content.clone()
            } else {
                String::new()
            },
            None => String::from_str("Awaiting environment telemetry..."),
        }
    }
}

/// Moving down then up comes back to the same event, and so does moving up
/// then down, for any selected event.
pub proof fn law_selection_round_trip(i: usize, len: nat)
    requires
        i < len,
        len <= usize::MAX,
    ensures
        previous_selection(next_selection(Some(i), len), len) == Some(i),
        next_selection(previous_selection(Some(i), len), len) == Some(i),
{
}

/// Moving keeps the selection on an event, where there are events.
pub proof fn law_selection_in_range(sel: Option<usize>, len: nat)
    requires
        len > 0,
        len <= usize::MAX,
        sel matches Some(i) ==> i < len,
    ensures
        next_selection(sel, len)->0 < len,
        previous_selection(sel, len)->0 < len,
{
}

/// A selection that follows the last event keeps following it as events arrive.
pub proof fn law_selection_follows_tail(len: nat)
    requires
        len >= 1,
        len + 1 <= usize::MAX,
    ensures
        follow_selection(Some((len - 1) as usize), len + 1) == Some(len as usize),
        follow_selection(None, len + 1) == Some(len as usize),
{
}

/// The arrow keys and their letter twins act alike: Down and `j` move to the
/// next event and no other key does; Up and `k` move to the previous one and
/// no other key does; only `q` and Esc quit.
pub proof fn law_keys_move_as_named(k: KeyInput)
    ensures
        key_action_of(k) == KeyAction::Next <==> (k == KeyInput::Down || k == KeyInput::Char('j')),
        key_action_of(k) == KeyAction::Previous <==> (k == KeyInput::Up || k == KeyInput::Char('k')),
        key_action_of(k) == KeyAction::Quit <==> (k == KeyInput::Esc || k == KeyInput::Char('q')),
        key_action_of(KeyInput::Down) == key_action_of(KeyInput::Char('j')),
        key_action_of(KeyInput::Up) == key_action_of(KeyInput::Char('k')),
{
}

} // verus!
