use piri::desktop::IpcRequest;
use piri::mark::{MarkCommand, MarkPlugin, MarkPluginConfig, ToggleAction, ToggleEvent};

fn plugin(refocus: bool) -> MarkPlugin {
    MarkPlugin::new(MarkPluginConfig { refocus })
}

#[test]
fn new_plugin_has_no_marks() {
    let p = plugin(true);
    assert_eq!(p.mark("a"), None);
    assert_eq!(p.previous_window(), None);
    assert!(p.refocus());
}

#[test]
fn from_config_keeps_refocus() {
    assert_eq!(MarkPluginConfig::from_config(true), Some(MarkPluginConfig { refocus: true }));
    assert_eq!(MarkPluginConfig::from_config(false), Some(MarkPluginConfig { refocus: false }));
}

#[test]
fn add_binds_and_overwrites() {
    let mut p = plugin(false);
    p.add("a", 10);
    assert_eq!(p.mark("a"), Some(10));
    p.add("a", 11);
    assert_eq!(p.mark("a"), Some(11));
    p.bind_focused("b", 12);
    assert_eq!(p.mark("b"), Some(12));
    assert_eq!(p.mark("a"), Some(11));
}

#[test]
fn delete_is_idempotent() {
    let mut p = plugin(false);
    p.add("a", 10);
    p.delete("a");
    assert_eq!(p.mark("a"), None);
    p.delete("a");
    assert_eq!(p.mark("a"), None);
    p.delete("never");
    assert_eq!(p.mark("never"), None);
}

#[test]
fn toggle_unbound_mark_binds_focused() {
    let mut p = plugin(false);
    assert_eq!(p.toggle("a", ToggleEvent::Start), ToggleAction::BindFocused);
    assert_eq!(p.previous_window(), None);
}

#[test]
fn toggle_dead_mark_binds_focused() {
    let mut p = plugin(false);
    p.add("a", 10);
    assert_eq!(p.toggle("a", ToggleEvent::Start), ToggleAction::CheckMark { window: 10 });
    assert_eq!(
        p.toggle("a", ToggleEvent::MarkChecked { window: 10, alive: false }),
        ToggleAction::BindFocused
    );
}

#[test]
fn toggle_live_mark_focuses_it_and_remembers_focus() {
    let mut p = plugin(false);
    p.add("a", 10);
    assert_eq!(p.toggle("a", ToggleEvent::Start), ToggleAction::CheckMark { window: 10 });
    assert_eq!(
        p.toggle("a", ToggleEvent::MarkChecked { window: 10, alive: true }),
        ToggleAction::QueryFocus { window: 10 }
    );
    assert_eq!(
        p.toggle("a", ToggleEvent::FocusQueried { window: 10, focused: Some(20) }),
        ToggleAction::Focus { window: 10 }
    );
    assert_eq!(p.previous_window(), Some(20));
    assert_eq!(p.mark("a"), Some(10));
}

#[test]
fn toggle_without_focus_clears_previous() {
    let mut p = plugin(true);
    p.add("a", 10);
    p.toggle("a", ToggleEvent::FocusQueried { window: 10, focused: Some(20) });
    assert_eq!(p.previous_window(), Some(20));
    assert_eq!(
        p.toggle("a", ToggleEvent::FocusQueried { window: 10, focused: None }),
        ToggleAction::Focus { window: 10 }
    );
    assert_eq!(p.previous_window(), None);
}

#[test]
fn refocus_jumps_back_and_forth() {
    let mut p = plugin(true);
    p.add("a", 10);
    p.toggle("a", ToggleEvent::FocusQueried { window: 10, focused: Some(20) });
    // The marked window has focus now: toggling returns to window 20.
    assert_eq!(
        p.toggle("a", ToggleEvent::FocusQueried { window: 10, focused: Some(10) }),
        ToggleAction::CheckPrevious { window: 10, current: 10, previous: 20 }
    );
    assert_eq!(
        p.toggle("a", ToggleEvent::PreviousChecked { window: 10, current: 10, previous: 20, alive: true }),
        ToggleAction::Focus { window: 20 }
    );
    assert_eq!(p.previous_window(), Some(10));
    // Window 20 has focus: toggling goes to the mark again.
    assert_eq!(
        p.toggle("a", ToggleEvent::FocusQueried { window: 10, focused: Some(20) }),
        ToggleAction::Focus { window: 10 }
    );
    assert_eq!(p.previous_window(), Some(20));
}

#[test]
fn refocus_to_closed_window_stays_on_mark() {
    let mut p = plugin(true);
    p.add("a", 10);
    p.toggle("a", ToggleEvent::FocusQueried { window: 10, focused: Some(20) });
    assert_eq!(
        p.toggle("a", ToggleEvent::PreviousChecked { window: 10, current: 10, previous: 20, alive: false }),
        ToggleAction::Focus { window: 10 }
    );
    assert_eq!(p.previous_window(), Some(10));
}

#[test]
fn without_refocus_focused_mark_is_focused_again() {
    let mut p = plugin(false);
    p.add("a", 10);
    p.toggle("a", ToggleEvent::FocusQueried { window: 10, focused: Some(20) });
    assert_eq!(
        p.toggle("a", ToggleEvent::FocusQueried { window: 10, focused: Some(10) }),
        ToggleAction::Focus { window: 10 }
    );
    assert_eq!(p.previous_window(), Some(10));
}

#[test]
fn update_config_changes_refocus_only() {
    let mut p = plugin(false);
    p.add("a", 1);
    p.update_config(MarkPluginConfig { refocus: true });
    assert!(p.refocus());
    assert_eq!(p.mark("a"), Some(1));
}

#[test]
fn ipc_requests_are_routed() {
    let mut p = plugin(false);
    p.add("x", 5);
    assert_eq!(
        p.handle_ipc_request(&IpcRequest::MarkToggle { name: "x".to_string() }),
        Some(MarkCommand::Toggle { name: "x".to_string() })
    );
    assert_eq!(
        p.handle_ipc_request(&IpcRequest::MarkAdd { name: "y".to_string() }),
        Some(MarkCommand::Add { name: "y".to_string() })
    );
    assert_eq!(p.mark("x"), Some(5));
    assert_eq!(
        p.handle_ipc_request(&IpcRequest::MarkDelete { name: "x".to_string() }),
        Some(MarkCommand::Deleted)
    );
    assert_eq!(p.mark("x"), None);
    assert_eq!(p.handle_ipc_request(&IpcRequest::StickyDelete), None);
    assert_eq!(p.handle_ipc_request(&IpcRequest::Other), None);
}
