use piri::desktop::{IpcRequest, NiriEvent, Window, WorkspaceInfo};
use piri::sticky::{FollowAction, FollowEvent, StickyCommand, StickyError, StickyPlugin, StickyPluginConfig};

fn win(id: u64, floating: bool, workspace_id: Option<u64>) -> Window {
    Window { id, floating, workspace: None, workspace_id, column: None }
}

fn ws(id: u64, idx: u8, output: &str) -> WorkspaceInfo {
    WorkspaceInfo { id, idx, output: Some(output.to_string()), is_focused: false }
}

#[test]
fn config_and_new() {
    assert!(StickyPluginConfig::from_config().is_some());
    let p = StickyPlugin::new();
    assert_eq!(p.sticky_window_id(), None);
    assert!(!p.cross_monitor());
}

#[test]
fn add_requires_floating_window() {
    let mut p = StickyPlugin::new();
    assert_eq!(p.add(true, &win(3, false, None)), Err(StickyError::NotFloating));
    assert_eq!(p.sticky_window_id(), None);
    assert_eq!(p.add(true, &win(3, true, None)), Ok(()));
    assert_eq!(p.sticky_window_id(), Some(3));
    assert!(p.cross_monitor());
}

#[test]
fn delete_releases() {
    let mut p = StickyPlugin::new();
    p.add(true, &win(3, true, None)).unwrap();
    p.delete();
    assert_eq!(p.sticky_window_id(), None);
    assert!(!p.cross_monitor());
    assert_eq!(p.follow_focused_workspace(FollowEvent::Start), Ok(FollowAction::Done));
}

#[test]
fn follow_starts_by_fetching_windows() {
    let mut p = StickyPlugin::new();
    p.add(false, &win(3, true, None)).unwrap();
    assert_eq!(
        p.follow_focused_workspace(FollowEvent::Start),
        Ok(FollowAction::FetchWindows { window_id: 3 })
    );
}

#[test]
fn follow_releases_vanished_window() {
    let mut p = StickyPlugin::new();
    p.add(false, &win(3, true, None)).unwrap();
    let r = p.follow_focused_workspace(FollowEvent::Windows { window_id: 3, windows: vec![win(4, true, None)] });
    assert_eq!(r, Ok(FollowAction::Done));
    assert_eq!(p.sticky_window_id(), None);
}

#[test]
fn follow_releases_window_that_stopped_floating() {
    let mut p = StickyPlugin::new();
    p.add(false, &win(3, true, None)).unwrap();
    let r = p.follow_focused_workspace(FollowEvent::Windows { window_id: 3, windows: vec![win(3, false, Some(1))] });
    assert_eq!(r, Ok(FollowAction::Done));
    assert_eq!(p.sticky_window_id(), None);
}

#[test]
fn follow_across_outputs_moves_floating() {
    let mut p = StickyPlugin::new();
    p.add(true, &win(3, true, None)).unwrap();
    let r = p.follow_focused_workspace(FollowEvent::Windows { window_id: 3, windows: vec![win(3, true, Some(1))] });
    assert_eq!(r, Ok(FollowAction::MoveFloating { window_id: 3 }));
    assert_eq!(p.sticky_window_id(), Some(3));
}

#[test]
fn follow_on_one_output_fetches_workspaces() {
    let mut p = StickyPlugin::new();
    p.add(false, &win(3, true, None)).unwrap();
    let r = p.follow_focused_workspace(FollowEvent::Windows {
        window_id: 3,
        windows: vec![win(2, true, Some(9)), win(3, true, Some(7))],
    });
    assert_eq!(r, Ok(FollowAction::FetchWorkspaces { window_id: 3, window_workspace: Some(7) }));
}

#[test]
fn follow_moves_to_focused_workspace_on_same_output() {
    let mut p = StickyPlugin::new();
    let r = p.follow_focused_workspace(FollowEvent::Workspaces {
        window_id: 3,
        window_workspace: Some(7),
        focused_workspace: "2".to_string(),
        workspaces: vec![ws(7, 1, "DP-1"), ws(8, 2, "DP-1")],
    });
    assert_eq!(r, Ok(FollowAction::MoveToWorkspace { window_id: 3, workspace: "2".to_string() }));
}

#[test]
fn follow_stays_when_focused_workspace_is_on_other_output() {
    let mut p = StickyPlugin::new();
    let r = p.follow_focused_workspace(FollowEvent::Workspaces {
        window_id: 3,
        window_workspace: Some(7),
        focused_workspace: "2".to_string(),
        workspaces: vec![ws(7, 1, "DP-1"), ws(8, 2, "HDMI-1")],
    });
    assert_eq!(r, Ok(FollowAction::Done));
}

#[test]
fn follow_moves_window_without_workspace() {
    let mut p = StickyPlugin::new();
    let r = p.follow_focused_workspace(FollowEvent::Workspaces {
        window_id: 3,
        window_workspace: None,
        focused_workspace: "1".to_string(),
        workspaces: vec![ws(7, 1, "DP-1")],
    });
    assert_eq!(r, Ok(FollowAction::MoveToWorkspace { window_id: 3, workspace: "1".to_string() }));
}

#[test]
fn follow_fails_when_focused_workspace_is_unknown() {
    let mut p = StickyPlugin::new();
    let r = p.follow_focused_workspace(FollowEvent::Workspaces {
        window_id: 3,
        window_workspace: Some(7),
        focused_workspace: "5".to_string(),
        workspaces: vec![ws(7, 1, "DP-1"), ws(8, 2, "DP-1")],
    });
    assert_eq!(r, Err(StickyError::WorkspaceNotFound));
}

#[test]
fn interest_in_focused_workspace_activation_only() {
    let p = StickyPlugin::new();
    assert!(p.is_interested_in_event(&NiriEvent::WorkspaceActivated { id: 1, focused: true }));
    assert!(!p.is_interested_in_event(&NiriEvent::WorkspaceActivated { id: 1, focused: false }));
    assert!(!p.is_interested_in_event(&NiriEvent::WindowClosed { id: 1 }));
    assert!(p.handle_event(&NiriEvent::WorkspaceActivated { id: 1, focused: true }));
    assert!(!p.handle_event(&NiriEvent::Other));
}

#[test]
fn sticky_ipc_requests() {
    let mut p = StickyPlugin::new();
    assert_eq!(p.handle_ipc_request(&IpcRequest::StickyAdd { cross: true }), Some(StickyCommand::Add { cross: true }));
    p.add(true, &win(3, true, None)).unwrap();
    assert_eq!(p.handle_ipc_request(&IpcRequest::StickyDelete), Some(StickyCommand::Deleted));
    assert_eq!(p.sticky_window_id(), None);
    assert_eq!(p.handle_ipc_request(&IpcRequest::MarkAdd { name: "a".to_string() }), None);
    p.update_config(StickyPluginConfig);
    assert_eq!(p.sticky_window_id(), None);
}
