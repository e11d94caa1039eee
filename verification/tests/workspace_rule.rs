use piri::desktop::{NiriEvent, OutputInfo, Window, WorkspaceInfo};
use piri::workspace_rule::{
    check_and_align_last_column, edge_pulse_target, percent_text, AlignStep, AutoTileMerge, EdgePulseAction, EdgePulseEvent,
    EdgePulseRenderState, EdgePulseSettings, EventRoute, LayoutAction, WidthRuleError, WindowObservation,
    WorkspaceRuleConfig, WorkspaceRulePlugin, WorkspaceRulePluginConfig, WorkspaceRuleSection,
};

type Plugin = WorkspaceRulePlugin<()>;

fn edge(enabled: bool) -> EdgePulseSettings<()> {
    EdgePulseSettings { enabled, show_left: true, show_right: true, style: () }
}

fn widths(lists: &[&[&str]]) -> Vec<Vec<String>> {
    lists.iter().map(|l| l.iter().map(|s| s.to_string()).collect()).collect()
}

fn section(auto_width: Vec<Vec<String>>, auto_maximize: bool, edge_enabled: bool) -> WorkspaceRuleSection<()> {
    WorkspaceRuleSection {
        auto_width,
        auto_tile: false,
        auto_fill: false,
        auto_maximize,
        edge_pulse: edge(edge_enabled),
    }
}

fn rule(auto_tile: bool, auto_fill: bool, auto_maximize: bool) -> WorkspaceRuleConfig<()> {
    WorkspaceRuleConfig { auto_width: Vec::new(), auto_tile, auto_fill, auto_maximize, edge_pulse: edge(false) }
}

fn plugin(default: WorkspaceRuleSection<()>, named: Vec<(String, WorkspaceRuleConfig<()>)>) -> Plugin {
    WorkspaceRulePlugin::new(WorkspaceRulePluginConfig::new(default, named))
}

fn tiled(id: u64, ws: &str, column: usize) -> Window {
    Window { id, floating: false, workspace: Some(ws.to_string()), workspace_id: None, column: Some(column) }
}

fn tiled_in(id: u64, ws_id: u64, column: usize) -> Window {
    Window { id, floating: false, workspace: None, workspace_id: Some(ws_id), column: Some(column) }
}

fn floating_in(id: u64, ws_id: u64) -> Window {
    Window { id, floating: true, workspace: None, workspace_id: Some(ws_id), column: None }
}

#[test]
fn from_config_needs_something_to_do() {
    assert!(WorkspaceRulePluginConfig::from_config(section(Vec::new(), false, false), Vec::new()).is_none());
    assert!(WorkspaceRulePluginConfig::from_config(section(Vec::new(), true, false), Vec::new()).is_some());
    assert!(WorkspaceRulePluginConfig::from_config(section(Vec::new(), false, true), Vec::new()).is_some());
    assert!(WorkspaceRulePluginConfig::from_config(section(widths(&[&["100%"]]), false, false), Vec::new()).is_some());
    // A workspace table counts even when it asks for nothing.
    let c = WorkspaceRulePluginConfig::from_config(
        section(Vec::new(), false, false),
        vec![("main".to_string(), rule(false, false, false))],
    );
    assert!(c.is_some());
}

#[test]
fn getters_fall_back_to_default() {
    let p = plugin(
        section(widths(&[&["100%"]]), true, true),
        vec![("main".to_string(), rule(true, true, false))],
    );
    assert!(p.get_auto_tile("main"));
    assert!(!p.get_auto_tile("other"));
    assert!(p.get_auto_fill("main"));
    assert!(!p.get_auto_fill("other"));
    assert!(!p.get_auto_maximize("main"));
    assert!(p.get_auto_maximize("other"));
    assert_eq!(p.get_auto_width("main").len(), 0);
    assert_eq!(p.get_auto_width("other").len(), 1);
    assert!(!p.get_edge_pulse_config("main").enabled);
    assert!(p.get_edge_pulse_config("other").enabled);
}

#[test]
fn later_workspace_entry_wins() {
    let p = plugin(
        section(Vec::new(), false, false),
        vec![("main".to_string(), rule(true, false, false)), ("main".to_string(), rule(false, true, false))],
    );
    assert!(!p.get_auto_tile("main"));
    assert!(p.get_auto_fill("main"));
}

#[test]
fn filter_tiled_by_name_or_id() {
    let windows = vec![
        tiled(1, "2", 1),
        tiled_in(2, 2, 2),
        floating_in(3, 2),
        tiled(4, "3", 1),
        tiled_in(5, 20, 1),
    ];
    let r = Plugin::filter_tiled_windows_in_workspace(&windows, "2");
    let ids: Vec<u64> = r.iter().map(|w| w.id).collect();
    assert_eq!(ids, vec![1, 2]);
}

#[test]
fn columns_sorted_and_deduplicated() {
    let windows = vec![
        tiled_in(1, 4, 3),
        tiled_in(2, 4, 1),
        tiled_in(3, 4, 3),
        floating_in(4, 4),
        tiled_in(5, 5, 2),
        tiled_in(6, 4, 2),
    ];
    assert_eq!(Plugin::collect_workspace_columns_by_id(&windows, 4), vec![1, 2, 3]);
    assert_eq!(Plugin::collect_workspace_columns_by_id(&windows, 9), Vec::<usize>::new());
}

#[test]
fn percent_text_strips_sign() {
    assert_eq!(percent_text("50%"), Ok("50"));
    assert_eq!(percent_text("33.3%"), Ok("33.3"));
    assert_eq!(percent_text("%"), Ok(""));
    assert_eq!(percent_text("50"), Err(WidthRuleError::MissingPercentSign));
    assert_eq!(percent_text(""), Err(WidthRuleError::MissingPercentSign));
}

#[test]
fn lone_window_is_maximized_once() {
    let mut p = plugin(section(Vec::new(), true, false), Vec::new());
    let windows = vec![tiled(7, "1", 1), floating_in(8, 1)];
    assert_eq!(p.apply_widths("1", &windows), Ok(vec![LayoutAction::MaximizeToEdges { window: 7 }]));
    assert!(p.is_maximized(7));
    assert_eq!(p.apply_widths("1", &windows), Ok(Vec::new()));
    assert!(p.is_maximized(7));
}

#[test]
fn empty_workspace_does_nothing() {
    let mut p = plugin(section(widths(&[&["100%"]]), true, false), Vec::new());
    assert_eq!(p.apply_widths("1", &[]), Ok(Vec::new()));
}

#[test]
fn maximized_windows_restored_without_width_rule() {
    let mut p = plugin(section(Vec::new(), true, false), Vec::new());
    p.apply_widths("1", &[tiled(7, "1", 1)]).unwrap();
    let windows = vec![tiled(7, "1", 1), tiled(9, "1", 2)];
    assert_eq!(p.apply_widths("1", &windows), Ok(vec![LayoutAction::MaximizeToEdges { window: 7 }]));
    assert!(!p.is_maximized(7));
    assert_eq!(p.apply_widths("1", &windows), Ok(Vec::new()));
}

#[test]
fn maximized_windows_forgotten_with_width_rule() {
    let mut p = plugin(section(widths(&[&["100%"], &["40%", "60%"]]), true, false), Vec::new());
    p.apply_widths("1", &[tiled(7, "1", 1)]).unwrap();
    let windows = vec![tiled(9, "1", 2), tiled(7, "1", 1)];
    let r = p.apply_widths("1", &windows);
    assert!(!p.is_maximized(7));
    assert_eq!(
        r,
        Ok(vec![
            LayoutAction::SetWidth { column: 1, window: 7, width: "40%".to_string() },
            LayoutAction::SetWidth { column: 2, window: 9, width: "60%".to_string() },
        ])
    );
}

#[test]
fn widths_per_column_last_width_repeats() {
    let mut p = plugin(section(widths(&[&["100%"], &["50%"], &["20%", "30%"]]), false, false), Vec::new());
    // Three columns; column 2 holds two windows, the later one leads it.
    let windows = vec![tiled(1, "1", 3), tiled(2, "1", 2), tiled(3, "1", 1), tiled(4, "1", 2)];
    assert_eq!(
        p.apply_widths("1", &windows),
        Ok(vec![
            LayoutAction::SetWidth { column: 1, window: 3, width: "20%".to_string() },
            LayoutAction::SetWidth { column: 2, window: 4, width: "30%".to_string() },
            LayoutAction::SetWidth { column: 3, window: 1, width: "30%".to_string() },
        ])
    );
}

#[test]
fn missing_width_rule_does_nothing() {
    let mut p = plugin(section(widths(&[&["100%"]]), false, false), Vec::new());
    let windows = vec![tiled(1, "1", 1), tiled(2, "1", 2)];
    assert_eq!(p.apply_widths("1", &windows), Ok(Vec::new()));
}

#[test]
fn more_than_five_columns_do_nothing() {
    let lists: Vec<Vec<String>> = (0..6).map(|_| vec!["10%".to_string()]).collect();
    let mut p = plugin(section(lists, false, false), Vec::new());
    let windows: Vec<Window> = (1..=6).map(|c| tiled(c as u64, "1", c)).collect();
    assert_eq!(p.apply_widths("1", &windows), Ok(Vec::new()));
}

#[test]
fn empty_width_list_is_an_error() {
    let mut p = plugin(section(vec![vec![]], false, false), Vec::new());
    assert_eq!(p.apply_widths("1", &[tiled(1, "1", 1)]), Err(WidthRuleError::EmptyWidthConfig));
}

#[test]
fn auto_tile_merges_into_lone_column() {
    let p = plugin(section(Vec::new(), false, false), vec![("1".to_string(), rule(true, false, false))]);
    let windows = vec![tiled(1, "1", 1), tiled(2, "1", 2), tiled(3, "1", 2), tiled(4, "1", 3), tiled(9, "1", 4)];
    assert_eq!(p.handle_auto_tile("1", 9, &windows), Some(AutoTileMerge { column: 3, parent: 4 }));
    // The lowest lone column wins, whatever the order of the windows.
    let windows = vec![tiled(6, "1", 5), tiled(1, "1", 1), tiled(4, "1", 3), tiled(9, "1", 4)];
    assert_eq!(p.handle_auto_tile("1", 9, &windows), Some(AutoTileMerge { column: 3, parent: 4 }));
    // The first column never takes a new window.
    let windows = vec![tiled(1, "1", 1), tiled(9, "1", 2)];
    assert_eq!(p.handle_auto_tile("1", 9, &windows), None);
    // Without auto_tile nothing is merged.
    assert_eq!(p.handle_auto_tile("2", 9, &[tiled(4, "2", 3)]), None);
}

#[test]
fn autofill_runs_once_at_a_time() {
    let mut p = plugin(section(Vec::new(), false, false), vec![("1".to_string(), rule(false, true, false))]);
    assert!(!p.autofill_executing());
    assert!(p.try_execute_autofill("1"));
    assert!(p.autofill_executing());
    assert!(!p.try_execute_autofill("1"));
    assert!(p.autofill_executing());
    p.finish_autofill();
    assert!(!p.autofill_executing());
    assert!(p.try_execute_autofill("1"));
    p.finish_autofill();
    assert!(!p.try_execute_autofill("2"));
    assert!(!p.autofill_executing());
}

#[test]
fn align_returns_to_focused_window() {
    assert_eq!(check_and_align_last_column(Some(5)), vec![AlignStep::FocusColumnFirst, AlignStep::FocusWindow { id: 5 }]);
    assert_eq!(check_and_align_last_column(None), vec![AlignStep::FocusColumnFirst, AlignStep::FocusColumnLast]);
}

#[test]
fn window_bookkeeping() {
    let mut p = plugin(section(Vec::new(), true, false), Vec::new());
    let obs = p.handle_window_opened_or_changed(5, false);
    assert_eq!(obs, WindowObservation { id: 5, floating: false, is_new: true, floating_changed: false });
    assert!(!p.has_seen(5));
    let follow = p.register_window(&obs);
    assert!(follow.auto_tile && follow.adjust_widths);
    assert!(p.has_seen(5));
    let obs = p.handle_window_opened_or_changed(5, true);
    assert_eq!(obs, WindowObservation { id: 5, floating: true, is_new: false, floating_changed: true });
    let follow = p.register_window(&obs);
    assert!(!follow.auto_tile && follow.adjust_widths);
    let obs = p.handle_window_opened_or_changed(5, true);
    let follow = p.register_window(&obs);
    assert!(!follow.auto_tile && !follow.adjust_widths);
    assert_eq!(p.floating_state(5), Some(true));
    p.apply_widths("1", &[tiled(6, "1", 1)]).unwrap();
    assert!(p.is_maximized(6));
    p.handle_window_closed(5);
    p.handle_window_closed(6);
    assert!(!p.has_seen(5));
    assert_eq!(p.floating_state(5), None);
    assert!(!p.is_maximized(6));
    let obs = p.handle_window_opened_or_changed(5, true);
    assert!(obs.is_new && !obs.floating_changed);
}

#[test]
fn events_are_routed() {
    let mut p = plugin(section(Vec::new(), false, true), Vec::new());
    assert!(p.is_interested_in_event(&NiriEvent::WindowClosed { id: 1 }));
    assert!(p.is_interested_in_event(&NiriEvent::WorkspaceActivated { id: 1, focused: false }));
    assert!(!p.is_interested_in_event(&NiriEvent::WindowFocusChanged { id: None }));
    assert!(!p.is_interested_in_event(&NiriEvent::Other));
    assert_eq!(
        p.handle_event(&NiriEvent::WindowOpenedOrChanged { id: 3, floating: true }),
        EventRoute::WindowOpenedOrChanged { id: 3, floating: true }
    );
    assert_eq!(p.handle_event(&NiriEvent::WindowClosed { id: 3 }), EventRoute::WindowClosed { id: 3 });
    assert_eq!(
        p.handle_event(&NiriEvent::WindowFocusChanged { id: Some(3) }),
        EventRoute::SyncEdgePulse { workspace_id: None }
    );
    assert_eq!(p.handle_event(&NiriEvent::WindowFocusChanged { id: None }), EventRoute::Ignore);
    assert_eq!(
        p.handle_event(&NiriEvent::WorkspaceActivated { id: 4, focused: false }),
        EventRoute::Ignore
    );
    p.sync_edge_pulse_indicator(EdgePulseEvent::HiddenRendered);
    assert!(p.edge_pulse_last_render().is_some());
    assert_eq!(
        p.handle_event(&NiriEvent::WorkspaceActivated { id: 4, focused: true }),
        EventRoute::SyncEdgePulse { workspace_id: Some(4) }
    );
    assert_eq!(p.edge_pulse_last_render(), None);
}

fn info(id: u64, idx: u8, focused: bool) -> WorkspaceInfo {
    WorkspaceInfo { id, idx, output: None, is_focused: focused }
}

#[test]
fn edge_pulse_resolves_workspace() {
    let mut p = plugin(section(Vec::new(), false, true), Vec::new());
    assert_eq!(
        p.sync_edge_pulse_indicator(EdgePulseEvent::Start { workspace_id: None }),
        EdgePulseAction::FetchWorkspaces { workspace_id: None }
    );
    let workspaces = vec![info(10, 1, false), info(11, 2, true)];
    assert_eq!(
        p.sync_edge_pulse_indicator(EdgePulseEvent::Workspaces { workspace_id: None, workspaces }),
        EdgePulseAction::FetchFocusedWindow { ws_id: 11, ws_name: "2".to_string() }
    );
    let workspaces = vec![info(10, 1, false), info(11, 2, true)];
    assert_eq!(
        p.sync_edge_pulse_indicator(EdgePulseEvent::Workspaces { workspace_id: Some(10), workspaces }),
        EdgePulseAction::FetchFocusedWindow { ws_id: 10, ws_name: "1".to_string() }
    );
    // Unknown workspace: hide.
    let workspaces = vec![info(10, 1, false)];
    assert_eq!(
        p.sync_edge_pulse_indicator(EdgePulseEvent::Workspaces { workspace_id: Some(99), workspaces }),
        EdgePulseAction::RenderHidden
    );
    assert_eq!(p.sync_edge_pulse_indicator(EdgePulseEvent::HiddenRendered), EdgePulseAction::Done);
    assert_eq!(p.edge_pulse_last_render(), Some(EdgePulseRenderState { show_left: false, show_right: false }));
    // Already hidden: nothing to draw.
    let workspaces = vec![info(10, 1, false)];
    assert_eq!(
        p.sync_edge_pulse_indicator(EdgePulseEvent::Workspaces { workspace_id: Some(99), workspaces }),
        EdgePulseAction::Done
    );
}

#[test]
fn edge_pulse_disabled_hides_once() {
    let mut p = plugin(section(Vec::new(), false, true), vec![("3".to_string(), rule(false, false, false))]);
    p.sync_edge_pulse_indicator(EdgePulseEvent::HiddenRendered);
    let workspaces = vec![info(12, 3, true)];
    assert_eq!(
        p.sync_edge_pulse_indicator(EdgePulseEvent::Workspaces { workspace_id: None, workspaces }),
        EdgePulseAction::Done
    );
    let hidden = EdgePulseRenderState { show_left: false, show_right: false };
    assert_eq!(p.edge_pulse_last_render(), Some(hidden));
    // Something else was drawn last: the disabled workspace hides it, once.
    let mut p = plugin(section(Vec::new(), false, true), vec![("3".to_string(), rule(false, false, false))]);
    assert_eq!(
        p.sync_edge_pulse_indicator(EdgePulseEvent::Workspaces { workspace_id: None, workspaces: vec![info(12, 3, true)] }),
        EdgePulseAction::RenderHidden
    );
    assert_eq!(p.sync_edge_pulse_indicator(EdgePulseEvent::HiddenRendered), EdgePulseAction::Done);
    assert_eq!(
        p.sync_edge_pulse_indicator(EdgePulseEvent::Workspaces { workspace_id: None, workspaces: vec![info(12, 3, true)] }),
        EdgePulseAction::Done
    );
}

#[test]
fn render_target_from_focused_output() {
    assert_eq!(edge_pulse_target(None), (None, 1080));
    assert_eq!(
        edge_pulse_target(Some(OutputInfo { name: "DP-1".to_string(), logical_height: Some(1440) })),
        (Some("DP-1".to_string()), 1440)
    );
    assert_eq!(
        edge_pulse_target(Some(OutputInfo { name: "DP-2".to_string(), logical_height: None })),
        (Some("DP-2".to_string()), 1080)
    );
    assert_eq!(
        edge_pulse_target(Some(OutputInfo { name: "X".to_string(), logical_height: Some(u32::MAX) })),
        (Some("X".to_string()), u32::MAX as i32)
    );
}

#[test]
fn edge_pulse_without_focus_hides() {
    let mut p = plugin(section(Vec::new(), false, true), Vec::new());
    assert_eq!(
        p.sync_edge_pulse_indicator(EdgePulseEvent::FocusedWindow {
            ws_id: 1,
            ws_name: "1".to_string(),
            focused: None
        }),
        EdgePulseAction::RenderHidden
    );
    assert_eq!(
        p.sync_edge_pulse_indicator(EdgePulseEvent::FocusedWindow {
            ws_id: 1,
            ws_name: "1".to_string(),
            focused: Some(5)
        }),
        EdgePulseAction::FetchWindows { ws_id: 1, ws_name: "1".to_string(), focused: 5 }
    );
}

fn windows_event(focused: u64, windows: Vec<Window>) -> EdgePulseEvent {
    EdgePulseEvent::Windows { ws_id: 1, ws_name: "1".to_string(), focused, windows }
}

#[test]
fn edge_pulse_single_column_hides() {
    let mut p = plugin(section(Vec::new(), false, true), Vec::new());
    let r = p.sync_edge_pulse_indicator(windows_event(1, vec![tiled_in(1, 1, 1), tiled_in(2, 1, 1), tiled_in(3, 2, 2)]));
    assert_eq!(r, EdgePulseAction::RenderHidden);
}

#[test]
fn edge_pulse_shows_edges_reached() {
    let mut p = plugin(section(Vec::new(), false, true), Vec::new());
    let windows = vec![tiled_in(1, 1, 1), tiled_in(2, 1, 2), tiled_in(3, 1, 3)];
    let r = p.sync_edge_pulse_indicator(windows_event(1, windows));
    let left = EdgePulseRenderState { show_left: true, show_right: false };
    assert_eq!(r, EdgePulseAction::Render { state: left, ws_name: "1".to_string() });
    assert_eq!(p.edge_pulse_last_render(), Some(left));
    // The same again: cached, nothing drawn.
    let windows = vec![tiled_in(1, 1, 1), tiled_in(2, 1, 2), tiled_in(3, 1, 3)];
    assert_eq!(p.sync_edge_pulse_indicator(windows_event(1, windows)), EdgePulseAction::Done);
    // Middle column: neither edge.
    let windows = vec![tiled_in(1, 1, 1), tiled_in(2, 1, 2), tiled_in(3, 1, 3)];
    let none = EdgePulseRenderState { show_left: false, show_right: false };
    assert_eq!(
        p.sync_edge_pulse_indicator(windows_event(2, windows)),
        EdgePulseAction::Render { state: none, ws_name: "1".to_string() }
    );
    // Right edge.
    let windows = vec![tiled_in(1, 1, 1), tiled_in(2, 1, 2), tiled_in(3, 1, 3)];
    let right = EdgePulseRenderState { show_left: false, show_right: true };
    assert_eq!(
        p.sync_edge_pulse_indicator(windows_event(3, windows)),
        EdgePulseAction::Render { state: right, ws_name: "1".to_string() }
    );
}

#[test]
fn edge_pulse_floating_focus_keeps_state() {
    let mut p = plugin(section(Vec::new(), false, true), Vec::new());
    let windows = vec![tiled_in(1, 1, 1), tiled_in(2, 1, 2), floating_in(3, 1)];
    assert_eq!(p.sync_edge_pulse_indicator(windows_event(3, windows)), EdgePulseAction::Done);
    assert_eq!(p.edge_pulse_last_render(), None);
    // A focused window of another workspace hides.
    let windows = vec![tiled_in(1, 1, 1), tiled_in(2, 1, 2), floating_in(3, 2)];
    assert_eq!(p.sync_edge_pulse_indicator(windows_event(3, windows)), EdgePulseAction::RenderHidden);
}

#[test]
fn update_config_forgets_render() {
    let mut p = plugin(section(Vec::new(), false, true), Vec::new());
    p.sync_edge_pulse_indicator(EdgePulseEvent::HiddenRendered);
    p.update_config(WorkspaceRulePluginConfig::new(section(Vec::new(), true, false), Vec::new()));
    assert_eq!(p.edge_pulse_last_render(), None);
    assert!(p.get_auto_maximize("any"));
    assert!(!p.config().default.edge_pulse.enabled);
}

#[test]
fn workspace_switch_forces_redraw() {
    let mut p = plugin(section(Vec::new(), false, true), Vec::new());
    let make = || vec![tiled_in(1, 1, 1), tiled_in(2, 1, 2)];
    let left = EdgePulseRenderState { show_left: true, show_right: false };
    assert_eq!(
        p.sync_edge_pulse_indicator(windows_event(1, make())),
        EdgePulseAction::Render { state: left, ws_name: "1".to_string() }
    );
    assert_eq!(p.sync_edge_pulse_indicator(windows_event(1, make())), EdgePulseAction::Done);
    p.handle_event(&NiriEvent::WorkspaceActivated { id: 1, focused: true });
    assert_eq!(
        p.sync_edge_pulse_indicator(windows_event(1, make())),
        EdgePulseAction::Render { state: left, ws_name: "1".to_string() }
    );
}

#[test]
fn edge_sides_follow_settings() {
    let default = WorkspaceRuleSection {
        auto_width: Vec::new(),
        auto_tile: false,
        auto_fill: false,
        auto_maximize: false,
        edge_pulse: EdgePulseSettings { enabled: true, show_left: false, show_right: true, style: () },
    };
    let mut p = plugin(default, Vec::new());
    let windows = vec![tiled_in(1, 1, 1), tiled_in(2, 1, 2)];
    let none = EdgePulseRenderState { show_left: false, show_right: false };
    assert_eq!(
        p.sync_edge_pulse_indicator(windows_event(1, windows)),
        EdgePulseAction::Render { state: none, ws_name: "1".to_string() }
    );
}
