use vstd::prelude::*;

use crate::search::{first_index, lemma_first_index_found, lemma_first_index_none};

verus! {

/// A window as the compositor reports it, reduced to what the plugins read.
#[derive(Debug, PartialEq, Eq)]
pub struct Window {
    pub id: u64,
    pub floating: bool,
    /// Name of the workspace the window is on, where the compositor gives one.
    pub workspace: Option<String>,
    pub workspace_id: Option<u64>,
    /// Column of the window in the scrolling layout (tiled windows only).
    pub column: Option<usize>,
}

impl Window {
    /// A field-by-field copy.
    pub fn duplicate(&self) -> (r: Window)
        ensures
            r == *self,
    {
        let workspace = match &self.workspace {
            Some(s) => Some(s.clone()),
            None => None,
        };
        Window {
            id: self.id,
            floating: self.floating,
            workspace,
            workspace_id: self.workspace_id,
            column: self.column,
        }
    }
}

/// A workspace as the compositor reports it.
#[derive(Debug, PartialEq, Eq)]
pub struct WorkspaceInfo {
    pub id: u64,
    /// Index of the workspace on its output; its decimal form is the
    /// workspace's name in the daemon's configuration.
    pub idx: u8,
    pub output: Option<String>,
    pub is_focused: bool,
}

/// An output (monitor) as the compositor reports it.
#[derive(Debug, PartialEq, Eq)]
pub struct OutputInfo {
    pub name: String,
    /// Height of the output's logical area, when it has one.
    pub logical_height: Option<u32>,
}

/// The compositor events that the plugins react to.
#[allow(inconsistent_fields)]
#[derive(Debug, PartialEq, Eq)]
pub enum NiriEvent {
    WorkspaceActivated { id: u64, focused: bool },
    WindowOpenedOrChanged { id: u64, floating: bool },
    WindowClosed { id: u64 },
    WindowFocusChanged { id: Option<u64> },
    /// Any other event.
    Other,
}

/// The requests of the command line that the plugins answer.
#[derive(Debug, PartialEq, Eq)]
pub enum IpcRequest {
    MarkToggle { name: String },
    MarkDelete { name: String },
    MarkAdd { name: String },
    StickyAdd { cross: bool },
    StickyDelete,
    /// A request meant for another plugin.
    Other,
}

/// Matches the window with this id.
pub open spec fn window_has_id(id: u64) -> spec_fn(Window) -> bool {
    |w: Window| w.id == id
}

/// Finds the first window with the given id.
pub fn find_window(windows: &[Window], id: u64) -> (r: Option<usize>)
    ensures
        match r {
            Some(i) => first_index(windows@, window_has_id(id)) == Some(i as int),
            None => first_index(windows@, window_has_id(id)) is None,
        },
{
    let mut i: usize = 0;
    while i < windows.len()
        invariant
            i <= windows@.len(),
            forall|j: int| 0 <= j < i ==> !window_has_id(id)(#[trigger] windows@[j]),
        decreases windows@.len() - i,
    {
        if windows[i].id == id {
            proof {
                lemma_first_index_found(windows@, window_has_id(id), i as int);
            }
            return Some(i);
        }
        i = i + 1;
    }
    proof {
        lemma_first_index_none(windows@, window_has_id(id));
    }
    None
}

} // verus!
