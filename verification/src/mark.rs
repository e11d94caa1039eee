use vstd::prelude::*;
use vstd::hash_map::StringHashMap;
use vstd::string::*;

use crate::desktop::IpcRequest;

verus! {

/// Settings of the mark plugin. Marks live in memory only.
#[derive(Debug, PartialEq, Eq)]
pub struct MarkPluginConfig {
    /// Toggling the mark of the focused window returns to the window
    /// focused before it.
    pub refocus: bool,
}

impl MarkPluginConfig {
    /// The plugin's settings from the daemon's `mark.refocus` setting.
    pub fn from_config(refocus: bool) -> (r: Option<Self>)
        ensures
            r == Some(MarkPluginConfig { refocus }),
    {
        Some(MarkPluginConfig { refocus })
    }
}

/// What the mark plugin holds.
pub struct MarkState {
    /// Mark name to window id.
    pub marks: Map<Seq<char>, u64>,
    /// The window focused before the last jump to a mark.
    pub previous_window: Option<u64>,
    pub refocus: bool,
}

impl MarkState {
    /// `name` bound to `window`, replacing any earlier binding.
    pub open spec fn bound(self, name: Seq<char>, window: u64) -> MarkState {
        MarkState { marks: self.marks.insert(name, window), ..self }
    }

    /// The binding of `name` removed, if there was one.
    pub open spec fn deleted(self, name: Seq<char>) -> MarkState {
        MarkState { marks: self.marks.remove(name), ..self }
    }

    pub open spec fn with_previous(self, previous_window: Option<u64>) -> MarkState {
        MarkState { previous_window, ..self }
    }
}

/// What the caller has learned for a toggle, handed back after each step.
#[derive(Debug, PartialEq, Eq)]
pub enum ToggleEvent {
    /// The toggle of a mark was asked for.
    Start,
    /// Whether the marked window still exists.
    MarkChecked { window: u64, alive: bool },
    /// The focused window, `None` where there is none (such as on an empty
    /// workspace) or the query failed.
    FocusQueried { window: u64, focused: Option<u64> },
    /// Whether the window focused before the last jump still exists.
    PreviousChecked { window: u64, current: u64, previous: u64, alive: bool },
}

/// What the caller does next for a toggle.
#[derive(Debug, PartialEq, Eq)]
pub enum ToggleAction {
    /// Check that the marked window exists; report `MarkChecked`.
    CheckMark { window: u64 },
    /// Ask which window has focus; report `FocusQueried`.
    QueryFocus { window: u64 },
    /// Check that the previously focused window exists; report `PreviousChecked`.
    CheckPrevious { window: u64, current: u64, previous: u64 },
    /// Focus this window; the toggle ends.
    Focus { window: u64 },
    /// Bind the focused window to the mark (`bind_focused`); the toggle ends.
    BindFocused,
}

/// One step of a toggle of mark `name`: the state after it and what to do next.
pub open spec fn toggle_step(s: MarkState, name: Seq<char>, event: ToggleEvent) -> (MarkState, ToggleAction) {
    match event {
        ToggleEvent::Start => if s.marks.contains_key(name) {
            (s, ToggleAction::CheckMark { window: s.marks[name] })
        } else {
            (s, ToggleAction::BindFocused)
        },
        ToggleEvent::MarkChecked { window, alive } => if alive {
            (s, ToggleAction::QueryFocus { window })
        } else {
            (s, ToggleAction::BindFocused)
        },
        ToggleEvent::FocusQueried { window, focused } => match focused {
            Some(current) => if s.refocus && current == window && s.previous_window is Some {
                (s, ToggleAction::CheckPrevious { window, current, previous: s.previous_window->0 })
            } else {
                (s.with_previous(Some(current)), ToggleAction::Focus { window })
            },
            None => (s.with_previous(None), ToggleAction::Focus { window }),
        },
        ToggleEvent::PreviousChecked { window, current, previous, alive } => if alive {
            (s.with_previous(Some(window)), ToggleAction::Focus { window: previous })
        } else {
            (s.with_previous(Some(current)), ToggleAction::Focus { window })
        },
    }
}

/// A mark command for the caller to run.
#[derive(Debug, PartialEq, Eq)]
pub enum MarkCommand {
    Toggle { name: String },
    Add { name: String },
    /// The mark was deleted; nothing is left to do.
    Deleted,
}

/// Named marks on windows: bind the focused window to a name, jump back to it.
pub struct MarkPlugin {
    marks: StringHashMap<u64>,
    previous_window: Option<u64>,
    refocus: bool,
}

impl View for MarkPlugin {
    type V = MarkState;

    closed spec fn view(&self) -> MarkState {
        MarkState { marks: self.marks@, previous_window: self.previous_window, refocus: self.refocus }
    }
}

impl MarkPlugin {
    pub fn new(config: MarkPluginConfig) -> (r: Self)
        ensures
            r@ == (MarkState { marks: Map::empty(), previous_window: None, refocus: config.refocus }),
    {
        MarkPlugin { marks: StringHashMap::new(), previous_window: None, refocus: config.refocus }
    }

    /// The window bound to `name`.
    pub fn mark(&self, name: &str) -> (r: Option<u64>)
        ensures
            r == if self@.marks.contains_key(name@) { Some(self@.marks[name@]) } else { None },
    {
        match self.marks.get(name) {
            Some(id) => Some(*id),
            None => None,
        }
    }

    /// The window focused before the last jump to a mark.
    pub fn previous_window(&self) -> (r: Option<u64>)
        ensures
            r == self@.previous_window,
    {
        self.previous_window
    }

    pub fn refocus(&self) -> (r: bool)
        ensures
            r == self@.refocus,
    {
        self.refocus
    }

    /// Binds `name` to the focused window, replacing any earlier binding.
    pub fn bind_focused(&mut self, name: &str, focused_window: u64)
        ensures
            final(self)@ == old(self)@.bound(name@, focused_window),
    {
        self.marks.insert(String::from_str(name), focused_window);
    }

    /// Binds `name` to the focused window without looking at the old binding.
    pub fn add(&mut self, name: &str, focused_window: u64)
        ensures
            final(self)@ == old(self)@.bound(name@, focused_window),
    {
        self.bind_focused(name, focused_window)
    }

    /// Removes the binding of `name`; nothing happens where there is none.
    pub fn delete(&mut self, name: &str)
        ensures
            final(self)@ == old(self)@.deleted(name@),
    {
        self.marks.remove(name);
    }

    pub fn update_config(&mut self, config: MarkPluginConfig)
        ensures
            final(self)@ == (MarkState { refocus: config.refocus, ..old(self)@ }),
    {
        self.refocus = config.refocus;
    }

    /// One step of toggling mark `name`: a mark bound to a window that still
    /// exists focuses that window, and otherwise the focused window is bound
    /// to it. With `refocus`, toggling the mark of the window that has focus
    /// returns to the window focused before, where it still exists.
    pub fn toggle(&mut self, name: &str, event: ToggleEvent) -> (r: ToggleAction)
        ensures
            (final(self)@, r) == toggle_step(old(self)@, name@, event),
    {
        match event {
            ToggleEvent::Start => match self.marks.get(name) {
                Some(id) => ToggleAction::CheckMark { window: *id },
                None => ToggleAction::BindFocused,
            },
            ToggleEvent::MarkChecked { window, alive } => {
                if alive {
                    ToggleAction::QueryFocus { window }
                } else {
                    ToggleAction::BindFocused
                }
            },
            ToggleEvent::FocusQueried { window, focused } => match focused {
                Some(current) => {
                    if self.refocus && current == window {
                        match self.previous_window {
                            Some(previous) => {
                                return ToggleAction::CheckPrevious { window, current, previous };
                            },
                            None => {},
                        }
                    }
                    self.previous_window = Some(current);
                    ToggleAction::Focus { window }
                },
                None => {
                    self.previous_window = None;
                    ToggleAction::Focus { window }
                },
            },
            ToggleEvent::PreviousChecked { window, current, previous, alive } => {
                if alive {
                    self.previous_window = Some(window);
                    ToggleAction::Focus { window: previous }
                } else {
                    self.previous_window = Some(current);
                    ToggleAction::Focus { window }
                }
            },
        }
    }

    /// Answers a mark request: a delete is done here; a toggle or an add,
    /// which need the compositor, is handed back. Other requests are not for
    /// this plugin.
    pub fn handle_ipc_request(&mut self, request: &IpcRequest) -> (r: Option<MarkCommand>)
        ensures
            match request {
                IpcRequest::MarkToggle { name } => (r matches Some(MarkCommand::Toggle { name: n }) && n@ == name@)
                    && final(self)@ == old(self)@,
                IpcRequest::MarkAdd { name } => (r matches Some(MarkCommand::Add { name: n }) && n@ == name@)
                    && final(self)@ == old(self)@,
                IpcRequest::MarkDelete { name } => (r matches Some(MarkCommand::Deleted))
                    && final(self)@ == old(self)@.deleted(name@),
                _ => r is None && final(self)@ == old(self)@,
            },
    {
        match request {
            IpcRequest::MarkToggle { name } => Some(MarkCommand::Toggle { name: name.clone() }),
            IpcRequest::MarkAdd { name } => Some(MarkCommand::Add { name: name.clone() }),
            IpcRequest::MarkDelete { name } => {
                self.delete(name.as_str());
                Some(MarkCommand::Deleted)
            },
            _ => None,
        }
    }
}


/// A toggle changes no binding and not the `refocus` setting: marks change
/// only by `add`, `bind_focused` and `delete`.
pub proof fn toggle_keeps_marks(s: MarkState, name: Seq<char>, event: ToggleEvent)
    ensures
        toggle_step(s, name, event).0.marks == s.marks,
        toggle_step(s, name, event).0.refocus == s.refocus,
{
}

/// Toggling an unbound mark binds the focused window to it.
pub proof fn toggle_unbound_mark_binds(s: MarkState, name: Seq<char>)
    requires
        !s.marks.contains_key(name),
    ensures
        toggle_step(s, name, ToggleEvent::Start) == (s, ToggleAction::BindFocused),
{
}

/// Toggling a mark whose window is gone binds the focused window to it.
pub proof fn toggle_dead_mark_rebinds(s: MarkState, name: Seq<char>, focused: u64)
    requires
        s.marks.contains_key(name),
    ensures
        toggle_step(s, name, ToggleEvent::Start).1 == (ToggleAction::CheckMark { window: s.marks[name] }),
        toggle_step(s, name, ToggleEvent::MarkChecked { window: s.marks[name], alive: false }).1
            == ToggleAction::BindFocused,
        s.bound(name, focused).marks[name] == focused,
{
}

/// Toggling a mark whose window exists, while another window (or none) has
/// focus, focuses the marked window and remembers the window that had focus.
pub proof fn toggle_live_mark_focuses(s: MarkState, name: Seq<char>, focused: Option<u64>)
    requires
        s.marks.contains_key(name),
        focused != Some(s.marks[name]),
    ensures
        ({
            let w = s.marks[name];
            &&& toggle_step(s, name, ToggleEvent::Start) == (s, ToggleAction::CheckMark { window: w })
            &&& toggle_step(s, name, ToggleEvent::MarkChecked { window: w, alive: true }) == (s,
                ToggleAction::QueryFocus { window: w })
            &&& toggle_step(s, name, ToggleEvent::FocusQueried { window: w, focused }) == (s.with_previous(
                focused), ToggleAction::Focus { window: w })
        }),
{
}

/// With `refocus`, toggling the mark of the focused window jumps back to the
/// window focused before (where it still exists), and toggling again
/// returns to the marked window: the two toggles restore the state.
pub proof fn refocus_round_trip(s: MarkState, name: Seq<char>, previous: u64)
    requires
        s.refocus,
        s.marks.contains_key(name),
        s.previous_window == Some(previous),
        previous != s.marks[name],
    ensures
        ({
            let w = s.marks[name];
            let (s1, a1) = toggle_step(s, name, ToggleEvent::FocusQueried { window: w, focused: Some(w) });
            let (s2, a2) = toggle_step(s1, name, ToggleEvent::PreviousChecked {
                window: w,
                current: w,
                previous,
                alive: true,
            });
            let (s3, a3) = toggle_step(s2, name, ToggleEvent::FocusQueried { window: w, focused: Some(previous) });
            &&& a1 == (ToggleAction::CheckPrevious { window: w, current: w, previous })
            &&& a2 == (ToggleAction::Focus { window: previous })
            &&& s2.previous_window == Some(w)
            &&& a3 == (ToggleAction::Focus { window: w })
            &&& s3 == s
        }),
{
}

/// `add` replaces any earlier binding of the name.
pub proof fn add_overwrites(s: MarkState, name: Seq<char>, first: u64, second: u64)
    ensures
        s.bound(name, first).bound(name, second) == s.bound(name, second),
        s.bound(name, second).marks[name] == second,
        toggle_step(s.bound(name, second), name, ToggleEvent::Start).1 == (ToggleAction::CheckMark {
            window: second,
        }),
{
    assert(s.bound(name, first).bound(name, second).marks =~= s.bound(name, second).marks);
}

/// Deleting is idempotent, and a deleted mark is bound afresh by a toggle.
pub proof fn delete_idempotent(s: MarkState, name: Seq<char>)
    ensures
        s.deleted(name).deleted(name) == s.deleted(name),
        toggle_step(s.deleted(name), name, ToggleEvent::Start).1 == ToggleAction::BindFocused,
{
    assert(s.deleted(name).deleted(name).marks =~= s.deleted(name).marks);
}


/// Deleting a mark removes that binding and leaves every other mark as it was.
pub proof fn delete_touches_only_name(s: MarkState, name: Seq<char>, other: Seq<char>)
    requires
        other != name,
    ensures
        !s.deleted(name).marks.contains_key(name),
        s.deleted(name).marks.contains_key(other) == s.marks.contains_key(other),
        s.marks.contains_key(other) ==> s.deleted(name).marks[other] == s.marks[other],
        s.deleted(name).previous_window == s.previous_window,
        s.deleted(name).refocus == s.refocus,
{
}

/// Binding a mark sets that binding and leaves every other mark as it was.
pub proof fn bind_touches_only_name(s: MarkState, name: Seq<char>, window: u64, other: Seq<char>)
    requires
        other != name,
    ensures
        s.bound(name, window).marks.contains_key(name),
        s.bound(name, window).marks[name] == window,
        s.bound(name, window).marks.contains_key(other) == s.marks.contains_key(other),
        s.marks.contains_key(other) ==> s.bound(name, window).marks[other] == s.marks[other],
        s.bound(name, window).previous_window == s.previous_window,
        s.bound(name, window).refocus == s.refocus,
{
}

} // verus!
