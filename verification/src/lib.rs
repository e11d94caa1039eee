//! Decision logic of the window-management plugins: marks, sticky windows
//! and per-workspace layout rules, written as verified functions from plain
//! values (windows, workspaces, events) to plain values (actions to perform).

pub mod text;
pub mod desktop;
pub mod search;
pub mod workspace_rule;
pub mod mark;
pub mod sticky;
