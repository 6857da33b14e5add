use mj_tui::catalog::ordered_sessions;
use mj_tui::dashboard_state::{
    DashboardAction, DashboardState, Focus, Mode, PaneFlags, PaneSize, PaneSizes, SessionOperation,
    SessionOperationKind,
};
use mj_tui::duplicate::Duplicate;
use mj_tui::panes::{InvalidPaneSizes, SupportPane};
use mj_tui::records::{Config, HarnessKind, SessionRecord, State};

fn session(id: &str) -> SessionRecord {
    SessionRecord {
        id: id.into(),
        title: id.into(),
        bundle_id: "hel".into(),
        target_template_id: "podman".into(),
        last_profile: "codex-1".into(),
        created_at: "2026-08-09T00:00:00Z".into(),
        harness_kind: HarnessKind::Codex,
        active: true,
        failed: false,
        checkpoint: true,
        project_directory: None,
        additional_mounts: Vec::new(),
        resource_allocation: None,
        compatible_profiles: Vec::new(),
        fits: Vec::new(),
    }
}

fn dashboard_with(sessions: Vec<SessionRecord>) -> DashboardState {
    let selected = sessions.first().map(|session| session.id.clone());
    DashboardState {
        config: Config {
            profiles: Vec::new(),
            bundles: Vec::new(),
            targets: Vec::new(),
            subagents_enabled: false,
        },
        state: State {
            sessions,
            mount_history: Vec::new(),
            project_directories: Vec::new(),
            container_sizes: Vec::new(),
        },
        session_details: Vec::new(),
        capacity_details: Vec::new(),
        target_readiness: Vec::new(),
        next_readiness_generation: 1,
        go: None,
        launch_project_directory: None,
        active_workspace_id: Some("default".into()),
        selected_session: selected,
        displaced_session: None,
        operations: Vec::new(),
        focus: Focus::Workspaces,
        pane_sizes: PaneSizes {
            sessions: PaneSize::Standard,
            targets: PaneSize::Standard,
            quota: PaneSize::Standard,
        },
        maximizable: PaneFlags { sessions: true, targets: true, quota: true },
        mode: Mode::Dashboard,
        notice: None,
        preflight_generation: 0,
        next_move_preparation_request_id: 1,
        next_picker_id: 1,
        event_handled: false,
        now: 0,
    }
}

fn dashboard_with_session() -> DashboardState {
    dashboard_with(vec![session("session-1")])
}

fn notice(dashboard: &DashboardState) -> Option<&str> {
    dashboard.notice.as_ref().map(|notice| notice.text.as_str())
}

// --- Pane sizes ---

#[test]
fn alt_z_cycles_the_focused_pane_and_a_new_maximum_demotes_the_old_one() {
    let mut dashboard = dashboard_with_session();
    dashboard.focus = Focus::Sessions;
    dashboard.cycle_focused_pane_size();
    assert_eq!(dashboard.pane_size(SupportPane::Sessions), PaneSize::Maximized);
    assert_eq!(dashboard.focus, Focus::Sessions);

    dashboard.focus = Focus::Targets;
    dashboard.cycle_focused_pane_size();
    assert_eq!(dashboard.pane_size(SupportPane::Targets), PaneSize::Maximized);
    assert_eq!(dashboard.pane_size(SupportPane::Sessions), PaneSize::Standard);
    assert_eq!(dashboard.pane_size(SupportPane::Quota), PaneSize::Standard);

    dashboard.cycle_focused_pane_size();
    assert_eq!(dashboard.pane_size(SupportPane::Targets), PaneSize::Minimized);
    dashboard.cycle_focused_pane_size();
    assert_eq!(dashboard.pane_size(SupportPane::Targets), PaneSize::Standard);
}

#[test]
fn alt_z_skips_a_maximum_that_cannot_grow_the_focused_pane() {
    let mut dashboard = dashboard_with_session();
    dashboard.focus = Focus::Targets;
    dashboard.set_pane_maximize_enabled(PaneFlags { sessions: true, targets: false, quota: true });

    assert!(!dashboard.pane_maximize_enabled(SupportPane::Targets));
    dashboard.cycle_focused_pane_size();
    assert_eq!(dashboard.pane_size(SupportPane::Targets), PaneSize::Minimized);
    assert_eq!(dashboard.focus, Focus::Targets);
}

#[test]
fn pane_sizes_capture_and_restore_a_nondefault_arrangement() {
    let mut dashboard = dashboard_with_session();
    dashboard.set_pane_size(SupportPane::Sessions, PaneSize::Maximized);
    dashboard.set_pane_size(SupportPane::Targets, PaneSize::Minimized);
    let captured = dashboard.pane_sizes();

    dashboard.set_pane_size(SupportPane::Quota, PaneSize::Maximized);
    dashboard.set_pane_maximize_enabled(PaneFlags { sessions: false, targets: true, quota: true });
    dashboard.restore_pane_sizes(captured).unwrap();

    assert_eq!(dashboard.pane_sizes(), captured);
    assert_eq!(dashboard.pane_size(SupportPane::Sessions), PaneSize::Maximized);
    assert_eq!(dashboard.pane_size(SupportPane::Targets), PaneSize::Minimized);
    assert_eq!(dashboard.pane_size(SupportPane::Quota), PaneSize::Standard);
}

#[test]
fn invalid_pane_size_restore_leaves_the_current_arrangement_unchanged() {
    let mut dashboard = dashboard_with_session();
    dashboard.set_pane_size(SupportPane::Targets, PaneSize::Minimized);
    let before = dashboard.pane_sizes();
    let invalid = PaneSizes {
        sessions: PaneSize::Maximized,
        targets: PaneSize::Maximized,
        quota: PaneSize::Standard,
    };

    assert!(dashboard.restore_pane_sizes(invalid).is_err());
    assert_eq!(dashboard.pane_sizes(), before);
}

#[test]
fn alt_z_on_prompt_explains_that_prompt_is_not_resizable() {
    let mut dashboard = dashboard_with_session();
    dashboard.focus = Focus::Prompt;
    dashboard.cycle_focused_pane_size();
    assert_eq!(
        notice(&dashboard),
        Some("Select Sessions, Targets, or Profiles before cycling the pane size.")
    );
    assert_eq!(dashboard.focus, Focus::Prompt);
}

#[test]
fn only_two_maxima_make_sizes_invalid() {
    let all = [PaneSize::Standard, PaneSize::Maximized, PaneSize::Minimized];
    for sessions in all {
        for targets in all {
            for quota in all {
                let sizes = PaneSizes { sessions, targets, quota };
                let maxima = [sessions, targets, quota]
                    .iter()
                    .filter(|size| **size == PaneSize::Maximized)
                    .count();
                let mut dashboard = dashboard_with_session();
                let result = dashboard.restore_pane_sizes(sizes);
                if maxima > 1 {
                    assert_eq!(result, Err(InvalidPaneSizes));
                } else {
                    assert_eq!(result, Ok(()));
                    assert_eq!(dashboard.pane_sizes(), sizes);
                }
            }
        }
    }
}

// --- Operations ---

#[test]
fn remote_operation_cancel_action_carries_the_operation_kind() {
    let mut dashboard = dashboard_with_session();
    dashboard.operations.push(SessionOperation {
        session_id: "session-1".into(),
        kind: SessionOperationKind::Launching,
    });

    assert_eq!(
        dashboard.cancel_operation(),
        DashboardAction::CancelOperation {
            session_id: "session-1".into(),
            kind: SessionOperationKind::Launching,
        }
    );
}

/// The cancel command with nothing in flight says so instead of doing nothing
/// silently.
#[test]
fn cancel_with_nothing_in_flight_shows_a_notice() {
    let mut dashboard = dashboard_with_session();
    dashboard.focus = Focus::Sessions;
    assert_eq!(dashboard.cancel_operation(), DashboardAction::Nothing);
    assert_eq!(notice(&dashboard), Some("Nothing to cancel"));
}

// --- Sessions ---

#[test]
fn sessions_are_ordered_by_creation_sequence_ascending() {
    let mut dashboard = dashboard_with_session();
    dashboard.state.sessions.clear();
    for (id, created) in [
        ("session-z", "2026-08-09T01:00:00Z"),
        ("session-y", "2026-08-09T00:30:00-02:00"),
        ("session-a", "unknown"),
    ] {
        let mut session = session(id);
        session.created_at = created.into();
        dashboard.state.sessions.push(session);
    }
    assert_eq!(
        ordered_sessions(&dashboard.state),
        ["session-z", "session-y", "session-a"]
    );
}

#[test]
fn sessions_made_at_one_moment_are_ordered_by_id() {
    let mut dashboard = dashboard_with(vec![session("b"), session("a"), session("c")]);
    dashboard.state.sessions[2].created_at = "2026-08-09T02:00:00+02:00".into();
    assert_eq!(ordered_sessions(&dashboard.state), ["a", "b", "c"]);
}

fn dashboard_with_two_sessions() -> DashboardState {
    dashboard_with(vec![session("session-1"), session("session-2")])
}

/// A launch that finishes after the user selected another row must not take
/// the selection back, or the next session command (such as close) acts on a
/// session the user did not choose.
#[test]
fn a_finished_launch_leaves_a_selection_the_user_moved_elsewhere() {
    let mut dashboard = dashboard_with_two_sessions();
    // The launch selected its session when it started.
    dashboard.select_active_session("session-1");
    // While it launches, the user picks the other session.
    dashboard.select_active_session("session-2");
    dashboard.focus = Focus::Sessions;

    dashboard.finish_new_session("session-1");

    assert_eq!(dashboard.selected_session_id(), Some("session-2"));
    assert_eq!(dashboard.focus, Focus::Sessions);
}

/// The clamp puts the selection on the first row when a refresh does not
/// carry the selected session. Nobody chose that row, so finishing the launch
/// still opens the session.
#[test]
fn a_finished_launch_opens_the_session_a_refresh_displaced() {
    let mut dashboard = dashboard_with_two_sessions();
    dashboard.select_active_session("session-2");
    let mut refreshed = dashboard.state.duplicate();
    let complete = refreshed.duplicate();
    refreshed.sessions.retain(|session| session.id != "session-2");
    dashboard.set_state(refreshed);
    assert_eq!(dashboard.selected_session_id(), Some("session-1"));
    dashboard.set_state(complete);

    dashboard.finish_new_session("session-2");

    assert_eq!(dashboard.selected_session_id(), Some("session-2"));
    assert_eq!(dashboard.focus, Focus::Prompt);
}

/// When the selection is still on the launching session, finishing the
/// launch opens it for its first prompt.
#[test]
fn a_finished_launch_opens_the_session_the_user_left_selected() {
    let mut dashboard = dashboard_with_two_sessions();
    dashboard.select_active_session("session-1");

    dashboard.finish_new_session("session-1");

    assert_eq!(dashboard.selected_session_id(), Some("session-1"));
    assert_eq!(dashboard.focus, Focus::Prompt);
}
