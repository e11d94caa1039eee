use vstd::prelude::*;

use crate::desktop::{find_window, window_has_id, IpcRequest, NiriEvent, Window, WorkspaceInfo};
use crate::search::{first_index, lemma_first_index_found, lemma_first_index_none, lemma_first_index_spec};
use crate::text::{decimal, is_decimal_of, str_equal};

verus! {

/// Settings of the sticky plugin (it has none).
#[derive(Default, Debug, Clone, Copy)]
pub struct StickyPluginConfig;

impl StickyPluginConfig {
    pub fn from_config() -> (r: Option<Self>)
        ensures
            r is Some,
    {
        Some(StickyPluginConfig)
    }
}

/// What the sticky plugin holds.
pub struct StickyState {
    /// The floating window that follows the focused workspace.
    pub sticky_window_id: Option<u64>,
    /// The window follows across outputs too.
    pub cross_monitor: bool,
}

/// Why a sticky operation failed.
#[derive(PartialEq, Eq, Structural, Clone, Copy, Debug)]
pub enum StickyError {
    /// Only floating windows can be sticky.
    NotFloating,
    /// The focused workspace is not in the workspace list.
    WorkspaceNotFound,
}

/// What the caller has learned while the sticky window follows the focused
/// workspace, handed back after each step.
pub enum FollowEvent {
    /// A workspace gained focus.
    Start,
    /// The windows, fetched for the sticky window.
    Windows { window_id: u64, windows: Vec<Window> },
    /// The focused workspace's name and the workspaces, fetched for the
    /// sticky window on the workspace with id `window_workspace`.
    Workspaces {
        window_id: u64,
        window_workspace: Option<u64>,
        focused_workspace: String,
        workspaces: Vec<WorkspaceInfo>,
    },
}

/// What the caller does next while the sticky window follows.
#[derive(Debug, PartialEq, Eq)]
pub enum FollowAction {
    FetchWindows { window_id: u64 },
    FetchWorkspaces { window_id: u64, window_workspace: Option<u64> },
    /// Move the floating window to the focused output; the step ends.
    MoveFloating { window_id: u64 },
    /// Move the window to the named workspace; the step ends.
    MoveToWorkspace { window_id: u64, workspace: String },
    /// Nothing (more) to do.
    Done,
}

/// A sticky command for the caller to run.
#[derive(Debug, PartialEq, Eq)]
pub enum StickyCommand {
    /// Make the focused window sticky (see `add`).
    Add { cross: bool },
    /// The sticky window was released; nothing is left to do.
    Deleted,
}

/// Matches the workspace whose index, printed in decimal, is `name`.
pub open spec fn workspace_named(name: Seq<char>) -> spec_fn(WorkspaceInfo) -> bool {
    |ws: WorkspaceInfo| decimal(ws.idx as nat) == name
}

/// Matches the workspace with this id.
pub open spec fn workspace_has_id(id: u64) -> spec_fn(WorkspaceInfo) -> bool {
    |ws: WorkspaceInfo| ws.id == id
}

pub open spec fn output_view(o: Option<String>) -> Option<Seq<char>> {
    match o {
        Some(s) => Some(s@),
        None => None,
    }
}

/// The window stays where it is: it is on a workspace of another output
/// than the target workspace.
pub open spec fn on_other_output(workspaces: Seq<WorkspaceInfo>, window_workspace: Option<u64>, target: int) -> bool {
    match window_workspace {
        Some(wid) => match first_index(workspaces, workspace_has_id(wid)) {
            Some(s) => output_view(workspaces[s].output) != output_view(workspaces[target].output),
            None => false,
        },
        None => false,
    }
}


/// One step of `follow_focused_workspace` on `event`: the state before and
/// after it and its result.
pub open spec fn follow_step(
    old: StickyState,
    event: FollowEvent,
    new: StickyState,
    r: Result<FollowAction, StickyError>,
) -> bool {
    match event {
        FollowEvent::Start => new == old && match old.sticky_window_id {
            Some(id) => r == Ok::<FollowAction, StickyError>(FollowAction::FetchWindows { window_id: id }),
            None => r == Ok::<FollowAction, StickyError>(FollowAction::Done),
        },
        FollowEvent::Windows { window_id, windows } => match first_index(windows@, window_has_id(window_id)) {
            None => r == Ok::<FollowAction, StickyError>(FollowAction::Done)
                && new == (StickyState { sticky_window_id: None, cross_monitor: false }),
            Some(i) => if !windows@[i].floating {
                r == Ok::<FollowAction, StickyError>(FollowAction::Done)
                    && new == (StickyState { sticky_window_id: None, cross_monitor: false })
            } else if old.cross_monitor {
                r == Ok::<FollowAction, StickyError>(FollowAction::MoveFloating { window_id })
                    && new == old
            } else {
                r == Ok::<FollowAction, StickyError>(FollowAction::FetchWorkspaces {
                    window_id,
                    window_workspace: windows@[i].workspace_id,
                }) && new == old
            },
        },
        FollowEvent::Workspaces { window_id, window_workspace, focused_workspace, workspaces } => {
            &&& new == old
            &&& match first_index(workspaces@, workspace_named(focused_workspace@)) {
                None => r == Err::<FollowAction, StickyError>(StickyError::WorkspaceNotFound),
                Some(t) => if on_other_output(workspaces@, window_workspace, t) {
                    r == Ok::<FollowAction, StickyError>(FollowAction::Done)
                } else {
                    r == Ok::<FollowAction, StickyError>(FollowAction::MoveToWorkspace {
                        window_id,
                        workspace: focused_workspace,
                    })
                },
            }
        },
    }
}

fn find_workspace_named(workspaces: &Vec<WorkspaceInfo>, name: &str) -> (r: Option<usize>)
    ensures
        match r {
            Some(i) => first_index(workspaces@, workspace_named(name@)) == Some(i as int),
            None => first_index(workspaces@, workspace_named(name@)) is None,
        },
{
    let ghost p = workspace_named(name@);
    let mut i: usize = 0;
    while i < workspaces.len()
        invariant
            i <= workspaces@.len(),
            p == workspace_named(name@),
            forall|j: int| 0 <= j < i ==> !p(#[trigger] workspaces@[j]),
        decreases workspaces@.len() - i,
    {
        if is_decimal_of(name, workspaces[i].idx as u64) {
            proof {
                lemma_first_index_found(workspaces@, p, i as int);
            }
            return Some(i);
        }
        i = i + 1;
    }
    proof {
        lemma_first_index_none(workspaces@, p);
    }
    None
}

fn find_workspace_id(workspaces: &Vec<WorkspaceInfo>, id: u64) -> (r: Option<usize>)
    ensures
        match r {
            Some(i) => first_index(workspaces@, workspace_has_id(id)) == Some(i as int),
            None => first_index(workspaces@, workspace_has_id(id)) is None,
        },
{
    let ghost p = workspace_has_id(id);
    let mut i: usize = 0;
    while i < workspaces.len()
        invariant
            i <= workspaces@.len(),
            p == workspace_has_id(id),
            forall|j: int| 0 <= j < i ==> !p(#[trigger] workspaces@[j]),
        decreases workspaces@.len() - i,
    {
        if workspaces[i].id == id {
            proof {
                lemma_first_index_found(workspaces@, p, i as int);
            }
            return Some(i);
        }
        i = i + 1;
    }
    proof {
        lemma_first_index_none(workspaces@, p);
    }
    None
}

fn same_output(a: &Option<String>, b: &Option<String>) -> (r: bool)
    ensures
        r == (output_view(*a) == output_view(*b)),
{
    match (a, b) {
        (Some(x), Some(y)) => str_equal(x.as_str(), y.as_str()),
        (None, None) => true,
        _ => false,
    }
}

/// A floating window that follows the focused workspace.
pub struct StickyPlugin {
    sticky_window_id: Option<u64>,
    cross_monitor: bool,
}

impl View for StickyPlugin {
    type V = StickyState;

    closed spec fn view(&self) -> StickyState {
        StickyState { sticky_window_id: self.sticky_window_id, cross_monitor: self.cross_monitor }
    }
}

impl StickyPlugin {
    pub fn new() -> (r: Self)
        ensures
            r@ == (StickyState { sticky_window_id: None, cross_monitor: false }),
    {
        StickyPlugin { sticky_window_id: None, cross_monitor: false }
    }

    /// The sticky window.
    pub fn sticky_window_id(&self) -> (r: Option<u64>)
        ensures
            r == self@.sticky_window_id,
    {
        self.sticky_window_id
    }

    /// Whether the sticky window follows across outputs.
    pub fn cross_monitor(&self) -> (r: bool)
        ensures
            r == self@.cross_monitor,
    {
        self.cross_monitor
    }

    /// Makes the focused window sticky; only a floating window can be.
    pub fn add(&mut self, cross: bool, focused: &Window) -> (r: Result<(), StickyError>)
        ensures
            if focused.floating {
                r is Ok && final(self)@ == (StickyState { sticky_window_id: Some(focused.id), cross_monitor: cross })
            } else {
                r == Err::<(), StickyError>(StickyError::NotFloating) && final(self)@ == old(self)@
            },
    {
        if !focused.floating {
            return Err(StickyError::NotFloating);
        }
        self.sticky_window_id = Some(focused.id);
        self.cross_monitor = cross;
        Ok(())
    }

    /// Releases the sticky window.
    pub fn delete(&mut self)
        ensures
            final(self)@ == (StickyState { sticky_window_id: None, cross_monitor: false }),
    {
        self.sticky_window_id = None;
        self.cross_monitor = false;
    }

    /// The plugin has no settings to update.
    pub fn update_config(&mut self, config: StickyPluginConfig)
        ensures
            final(self)@ == old(self)@,
    {
    }

    /// One step of moving the sticky window to the focused workspace.
    ///
    /// A sticky window that no longer exists, or no longer floats, is
    /// released. Across outputs it moves to the focused output. Otherwise it
    /// moves to the focused workspace, unless that workspace is on another
    /// output than the window's own.
    pub fn follow_focused_workspace(&mut self, event: FollowEvent) -> (r: Result<FollowAction, StickyError>)
        ensures
            follow_step(old(self)@, event, final(self)@, r),
    {
        match event {
            FollowEvent::Start => match self.sticky_window_id {
                Some(id) => Ok(FollowAction::FetchWindows { window_id: id }),
                None => Ok(FollowAction::Done),
            },
            FollowEvent::Windows { window_id, windows } => {
                match find_window(windows.as_slice(), window_id) {
                    None => {
                        self.delete();
                        Ok(FollowAction::Done)
                    },
                    Some(i) => {
                        proof {
                            lemma_first_index_spec(windows@, window_has_id(window_id));
                        }
                        if !windows[i].floating {
                            self.delete();
                            return Ok(FollowAction::Done);
                        }
                        if self.cross_monitor {
                            return Ok(FollowAction::MoveFloating { window_id });
                        }
                        Ok(FollowAction::FetchWorkspaces { window_id, window_workspace: windows[i].workspace_id })
                    },
                }
            },
            FollowEvent::Workspaces { window_id, window_workspace, focused_workspace, workspaces } => {
                let target = match find_workspace_named(&workspaces, focused_workspace.as_str()) {
                    Some(t) => t,
                    None => {
                        return Err(StickyError::WorkspaceNotFound);
                    },
                };
                proof {
                    lemma_first_index_spec(workspaces@, workspace_named(focused_workspace@));
                }
                match window_workspace {
                    Some(wid) => match find_workspace_id(&workspaces, wid) {
                        Some(s) => {
                            proof {
                                lemma_first_index_spec(workspaces@, workspace_has_id(wid));
                            }
                            if !same_output(&workspaces[s].output, &workspaces[target].output) {
                                return Ok(FollowAction::Done);
                            }
                        },
                        None => {},
                    },
                    None => {},
                }
                Ok(FollowAction::MoveToWorkspace { window_id, workspace: focused_workspace })
            },
        }
    }

    /// Answers a sticky request: a delete is done here; an add, which needs
    /// the focused window, is handed back. Other requests are not for this plugin.
    pub fn handle_ipc_request(&mut self, request: &IpcRequest) -> (r: Option<StickyCommand>)
        ensures
            match *request {
                IpcRequest::StickyAdd { cross } => r == Some(StickyCommand::Add { cross })
                    && final(self)@ == old(self)@,
                IpcRequest::StickyDelete => r == Some(StickyCommand::Deleted)
                    && final(self)@ == (StickyState { sticky_window_id: None, cross_monitor: false }),
                _ => r is None && final(self)@ == old(self)@,
            },
    {
        match request {
            IpcRequest::StickyAdd { cross } => Some(StickyCommand::Add { cross: *cross }),
            IpcRequest::StickyDelete => {
                self.delete();
                Some(StickyCommand::Deleted)
            },
            _ => None,
        }
    }

    /// Whether the plugin reacts to the event: a workspace gaining focus.
    pub fn is_interested_in_event(&self, event: &NiriEvent) -> (r: bool)
        ensures
            r == (*event matches NiriEvent::WorkspaceActivated { focused: true, .. }),
    {
        match event {
            NiriEvent::WorkspaceActivated { focused: true, .. } => true,
            _ => false,
        }
    }

    /// Whether the event starts a follow (`follow_focused_workspace`).
    pub fn handle_event(&self, event: &NiriEvent) -> (r: bool)
        ensures
            r == (*event matches NiriEvent::WorkspaceActivated { focused: true, .. }),
    {
        self.is_interested_in_event(event)
    }
}


/// A plugin without a sticky window does nothing when a workspace gains focus.
pub proof fn released_plugin_stays_idle(s: StickyState, new: StickyState, r: Result<FollowAction, StickyError>)
    requires
        s.sticky_window_id is None,
        follow_step(s, FollowEvent::Start, new, r),
    ensures
        r == Ok::<FollowAction, StickyError>(FollowAction::Done),
        new == s,
{
}

/// A sticky window that no longer exists, or no longer floats, is released.
pub proof fn lost_window_is_released(
    s: StickyState,
    window_id: u64,
    windows: Vec<Window>,
    new: StickyState,
    r: Result<FollowAction, StickyError>,
)
    requires
        follow_step(s, FollowEvent::Windows { window_id, windows }, new, r),
        forall|j: int| 0 <= j < windows@.len() && (#[trigger] windows@[j]).id == window_id ==> !windows@[j].floating,
    ensures
        r == Ok::<FollowAction, StickyError>(FollowAction::Done),
        new == (StickyState { sticky_window_id: None, cross_monitor: false }),
{
    lemma_first_index_spec(windows@, window_has_id(window_id));
}


/// Following never picks another window: a step keeps the sticky window
/// or releases it.
pub proof fn follow_keeps_or_releases(s: StickyState, event: FollowEvent, new: StickyState, r: Result<FollowAction, StickyError>)
    requires
        follow_step(s, event, new, r),
    ensures
        new == s || new == (StickyState { sticky_window_id: None, cross_monitor: false }),
{
}

/// A sticky window that still exists and floats is kept; across outputs it
/// is moved to the focused output, otherwise the workspaces are looked up next.
pub proof fn live_floating_window_is_kept(
    s: StickyState,
    window_id: u64,
    windows: Vec<Window>,
    i: int,
    new: StickyState,
    r: Result<FollowAction, StickyError>,
)
    requires
        follow_step(s, FollowEvent::Windows { window_id, windows }, new, r),
        0 <= i < windows@.len(),
        windows@[i].id == window_id,
        windows@[i].floating,
        forall|j: int| 0 <= j < windows@.len() && (#[trigger] windows@[j]).id == window_id ==> windows@[j].floating,
    ensures
        new == s,
        s.cross_monitor ==> r == Ok::<FollowAction, StickyError>(FollowAction::MoveFloating { window_id }),
        !s.cross_monitor ==> (r matches Ok(FollowAction::FetchWorkspaces { window_id: w, .. }) && w == window_id),
{
    lemma_first_index_spec(windows@, window_has_id(window_id));
}

/// The sticky window only ever moves to the focused workspace, and only
/// where that workspace is in the list (by its index printed in decimal).
pub proof fn moves_only_to_focused_workspace(
    s: StickyState,
    window_id: u64,
    window_workspace: Option<u64>,
    focused_workspace: String,
    workspaces: Vec<WorkspaceInfo>,
    new: StickyState,
    r: Result<FollowAction, StickyError>,
)
    requires
        follow_step(s, FollowEvent::Workspaces { window_id, window_workspace, focused_workspace, workspaces }, new, r),
    ensures
        new == s,
        r matches Ok(FollowAction::MoveToWorkspace { window_id: w, workspace }) ==> {
            &&& w == window_id
            &&& workspace@ == focused_workspace@
            &&& exists|k: int| 0 <= k < workspaces@.len() && decimal((#[trigger] workspaces@[k]).idx as nat) == focused_workspace@
        },
        (forall|k: int| 0 <= k < workspaces@.len() ==> decimal((#[trigger] workspaces@[k]).idx as nat) != focused_workspace@)
            ==> r == Err::<FollowAction, StickyError>(StickyError::WorkspaceNotFound),
        window_workspace is None && (exists|k: int| 0 <= k < workspaces@.len() && decimal((#[trigger] workspaces@[k]).idx as nat)
            == focused_workspace@) ==> r == Ok::<FollowAction, StickyError>(FollowAction::MoveToWorkspace {
            window_id,
            workspace: focused_workspace,
        }),
{
    lemma_first_index_spec(workspaces@, workspace_named(focused_workspace@));
    if exists|k: int| 0 <= k < workspaces@.len() && decimal((#[trigger] workspaces@[k]).idx as nat) == focused_workspace@ {
        let k = choose|k: int| 0 <= k < workspaces@.len() && decimal((#[trigger] workspaces@[k]).idx as nat) == focused_workspace@;
        assert(workspace_named(focused_workspace@)(workspaces@[k]));
    }
}

} // verus!
