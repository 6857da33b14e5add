use mj_tui::dashboard_state::{
    DashboardAction, DashboardState, Focus, Mode, PaneFlags, PaneSize, PaneSizes,
};
use mj_tui::drafts::{
    Draft, NewSession, PathInput, ProjectDiscovery, ProjectDiscoveryRequest, ProjectEntry,
    ProjectEntryKind, ProjectTab, Purpose, WizardControl, WizardStep,
};
use mj_tui::geometry::Rect;
use mj_tui::project_screen::{project_layout, ProjectList};
use mj_tui::records::{
    Config, HarnessKind, HostPaths, Profile, State, Target, TargetKind, TargetTemplate,
};

fn dashboard() -> DashboardState {
    DashboardState {
        config: Config {
            profiles: vec![Profile {
                id: "codex-1".into(),
                kind: HarnessKind::Codex,
                enabled: true,
                harness: "Codex".into(),
                weekly: String::new(),
                five_hour: String::new(),
                warning: None,
            }],
            bundles: Vec::new(),
            targets: vec![Target {
                id: "podman".into(),
                template: TargetTemplate {
                    kind: TargetKind::LocalPodman,
                    bare_project: false,
                    guardian: false,
                    ssh_user: String::new(),
                    mount_host: Some("local".into()),
                    project_host: None,
                    size_host: Some("local".into()),
                    settings: String::new(),
                },
            }],
            subagents_enabled: true,
        },
        state: State {
            sessions: Vec::new(),
            mount_history: Vec::new(),
            project_directories: vec![HostPaths {
                host: "local".into(),
                paths: vec!["/work/one".into(), "/work/two".into(), "/work/one".into()],
            }],
            container_sizes: Vec::new(),
        },
        session_details: Vec::new(),
        capacity_details: Vec::new(),
        target_readiness: Vec::new(),
        next_readiness_generation: 1,
        go: None,
        launch_project_directory: Some("/work/two".into()),
        active_workspace_id: None,
        selected_session: None,
        displaced_session: None,
        operations: Vec::new(),
        focus: Focus::Workspaces,
        pane_sizes: PaneSizes {
            sessions: PaneSize::Standard,
            targets: PaneSize::Standard,
            quota: PaneSize::Standard,
        },
        maximizable: PaneFlags { sessions: true, targets: true, quota: true },
        mode: Mode::Dashboard,
        notice: None,
        preflight_generation: 0,
        next_move_preparation_request_id: 1,
        next_picker_id: 7,
        event_handled: false,
        now: 0,
    }
}

/// A dashboard that chooses a project.
fn choosing() -> DashboardState {
    let mut dashboard = dashboard();
    dashboard.begin_new_wizard();
    let mut draft = dashboard.take_draft().expect("the wizard is open");
    dashboard.open_projects(&mut draft);
    dashboard.keep(draft);
    dashboard
}

fn draft(dashboard: &DashboardState) -> &Draft {
    match &dashboard.mode {
        Mode::Wizard(draft) => draft,
        other => panic!("expected the wizard, got {other:?}"),
    }
}

fn part(dashboard: &DashboardState) -> &NewSession {
    match &draft(dashboard).purpose {
        Purpose::New(part) => part,
        Purpose::Resume(_) => panic!("expected a new session"),
    }
}

fn part_mut(dashboard: &mut DashboardState) -> &mut NewSession {
    match &mut dashboard.mode {
        Mode::Wizard(Draft { purpose: Purpose::New(part), .. }) => part,
        other => panic!("expected a new session, got {other:?}"),
    }
}

fn press(dashboard: &mut DashboardState, control: WizardControl) -> DashboardAction {
    let draft = dashboard.take_draft().expect("the wizard is open");
    dashboard.activate_project_control(draft, control)
}

fn entry(name: &str, source: &str, kind: ProjectEntryKind) -> ProjectEntry {
    ProjectEntry {
        name: name.into(),
        source: source.into(),
        description: format!("about {name}"),
        kind,
    }
}

fn found(entries: Vec<ProjectEntry>) -> ProjectDiscovery {
    ProjectDiscovery {
        entries,
        directory: Some("/home/me".into()),
        parent: Some("/home".into()),
        truncated: true,
    }
}

fn sources(dashboard: &DashboardState) -> Vec<&str> {
    part(dashboard)
        .project_picker
        .entries
        .iter()
        .map(|entry| entry.source.as_str())
        .collect()
}

fn taken(dashboard: &mut DashboardState) -> (String, ProjectDiscoveryRequest) {
    match dashboard.take_project_discovery() {
        Some(DashboardAction::DiscoverProjects { context, request }) => (context, request),
        other => panic!("expected a lookup, got {other:?}"),
    }
}

#[test]
fn recent_projects_start_with_the_current_one_and_repeat_none() {
    let dashboard = choosing();
    assert_eq!(draft(&dashboard).step, WizardStep::NewBundle);
    assert_eq!(sources(&dashboard), ["/work/two", "/work/one"]);
    let entries = &part(&dashboard).project_picker.entries;
    assert_eq!(entries[0].name, "two");
    assert_eq!(entries[0].description, "Current project · /work/two");
    assert_eq!(entries[1].description, "/work/one");
    assert_eq!(draft(&dashboard).form.focused, Some(WizardControl::ProjectResults));
}

#[test]
fn a_lookup_is_handed_out_once_and_answered_by_its_context() {
    let mut dashboard = choosing();
    assert_eq!(dashboard.take_project_discovery(), None);
    press(&mut dashboard, WizardControl::ProjectFolders);
    let (first, request) = taken(&mut dashboard);
    assert_eq!(
        request,
        ProjectDiscoveryRequest::Directory { path: String::new(), filter: String::new() }
    );
    assert!(first.starts_with("7:"), "{first}");
    assert_eq!(dashboard.take_project_discovery(), None);
    assert_eq!(dashboard.begin_resume_for("none"), DashboardAction::Nothing);

    // A second lookup replaces the first, whose answer comes too late.
    press(&mut dashboard, WizardControl::ProjectHome);
    let (second, _) = taken(&mut dashboard);
    assert_ne!(first, second);
    dashboard.apply_project_discovery(
        &first,
        Ok(found(vec![entry("late", "/late", ProjectEntryKind::Repository)])),
    );
    assert!(part(&dashboard).project_picker.loading);
    assert!(sources(&dashboard).is_empty());
    dashboard.apply_project_discovery(
        &second,
        Ok(found(vec![entry("folder", "/home/me/folder", ProjectEntryKind::Directory)])),
    );
    let picker = &part(&dashboard).project_picker;
    assert!(!picker.loading);
    assert!(picker.truncated);
    assert_eq!(picker.directory.as_deref(), Some("/home/me"));
    assert_eq!(picker.parent.as_deref(), Some("/home"));
    assert_eq!(sources(&dashboard), ["/home/me/folder"]);
    assert_eq!(draft(&dashboard).form.focused, Some(WizardControl::ProjectResults));
}

#[test]
fn a_failed_lookup_can_be_tried_again() {
    let mut dashboard = choosing();
    press(&mut dashboard, WizardControl::ProjectGithub);
    let (context, request) = taken(&mut dashboard);
    dashboard.apply_project_discovery(&context, Err("rate limited".into()));
    assert_eq!(part(&dashboard).project_picker.error.as_deref(), Some("rate limited"));
    assert_eq!(
        part(&dashboard).render_project_picker(true).list,
        ProjectList::Failure("rate limited".into())
    );
    press(&mut dashboard, WizardControl::ProjectRetry);
    let (again, repeated) = taken(&mut dashboard);
    assert_ne!(context, again);
    assert_eq!(request, repeated);
    assert_eq!(part(&dashboard).project_picker.error, None);
}

#[test]
fn folders_are_opened_and_repositories_used() {
    let mut dashboard = choosing();
    press(&mut dashboard, WizardControl::ProjectFolders);
    let (context, _) = taken(&mut dashboard);
    dashboard.apply_project_discovery(
        &context,
        Ok(found(vec![
            entry("folder", "/home/me/folder", ProjectEntryKind::Directory),
            entry("repo", "/home/me/repo", ProjectEntryKind::Repository),
        ])),
    );
    press(&mut dashboard, WizardControl::ProjectUp);
    assert_eq!(
        taken(&mut dashboard).1,
        ProjectDiscoveryRequest::Directory { path: "/home".into(), filter: String::new() }
    );
    let picker = &mut part_mut(&mut dashboard).project_picker;
    picker.loading = false;
    picker.entries = vec![
        entry("folder", "/home/me/folder", ProjectEntryKind::Directory),
        entry("repo", "/home/me/repo", ProjectEntryKind::Repository),
    ];
    assert_eq!(press(&mut dashboard, WizardControl::ProjectResults), DashboardAction::Nothing);
    assert_eq!(
        taken(&mut dashboard).1,
        ProjectDiscoveryRequest::Directory { path: "/home/me/folder".into(), filter: String::new() }
    );
    let picker = &mut part_mut(&mut dashboard).project_picker;
    picker.loading = false;
    picker.entries = vec![entry("repo", "/home/me/repo", ProjectEntryKind::Repository)];
    assert_eq!(
        press(&mut dashboard, WizardControl::ProjectResults),
        DashboardAction::CreateBundle { sources: vec!["/home/me/repo".into()] }
    );
    assert!(part(&dashboard).bundle_creation_in_flight);
}

#[test]
fn several_repositories_are_collected_and_reordered() {
    let mut dashboard = choosing();
    part_mut(&mut dashboard).project_picker.multiple = true;
    press(&mut dashboard, WizardControl::ProjectResults);
    part_mut(&mut dashboard).project_picker.selected = 1;
    press(&mut dashboard, WizardControl::ProjectResults);
    assert_eq!(part(&dashboard).new_bundle_repositories, ["/work/two", "/work/one"]);
    part_mut(&mut dashboard).new_bundle_selected = 1;
    press(&mut dashboard, WizardControl::ProjectMakePrimary);
    assert_eq!(part(&dashboard).new_bundle_repositories, ["/work/one", "/work/two"]);
    // Choosing one again takes it out.
    part_mut(&mut dashboard).project_picker.selected = 0;
    press(&mut dashboard, WizardControl::ProjectResults);
    assert_eq!(part(&dashboard).new_bundle_repositories, ["/work/one"]);
    let screen = part(&dashboard).render_project_picker(true);
    assert_eq!(screen.basket.len(), 1);
    assert_eq!(screen.basket[0].spans[0].text, "Main  /work/one");
    assert_eq!(screen.buttons.last().map(|button| button.label.as_str()), Some("Use 1 repository"));
    assert_eq!(
        press(&mut dashboard, WizardControl::Next),
        DashboardAction::CreateBundle { sources: vec!["/work/one".into()] }
    );
}

#[test]
fn a_typed_source_can_be_used_on_the_url_tab() {
    let mut dashboard = choosing();
    press(&mut dashboard, WizardControl::ProjectUrl);
    assert_eq!(part(&dashboard).project_picker.tab, ProjectTab::Url);
    assert!(!part(&dashboard).can_use_project());
    assert_eq!(press(&mut dashboard, WizardControl::Next), DashboardAction::Nothing);
    assert_eq!(
        dashboard.notice.as_ref().map(|notice| notice.text.as_str()),
        Some("Repository source cannot be empty.")
    );
    part_mut(&mut dashboard).new_bundle_source = PathInput::from_text(" owner/name ".into());
    assert!(part(&dashboard).can_use_project());
    assert_eq!(
        press(&mut dashboard, WizardControl::Next),
        DashboardAction::CreateBundle { sources: vec!["owner/name".into()] }
    );
}

#[test]
fn a_search_sends_what_is_typed() {
    let mut dashboard = choosing();
    press(&mut dashboard, WizardControl::ProjectGithub);
    assert_eq!(draft(&dashboard).form.focused, Some(WizardControl::ProjectQuery));
    part_mut(&mut dashboard).project_picker.query = PathInput::from_text("  parser ".into());
    press(&mut dashboard, WizardControl::ProjectSearch);
    assert_eq!(
        taken(&mut dashboard).1,
        ProjectDiscoveryRequest::Github { query: "parser".into() }
    );
}

#[test]
fn the_screen_and_the_form_agree_on_the_last_button() {
    let mut dashboard = choosing();
    for tab in [
        WizardControl::ProjectRecent,
        WizardControl::ProjectGithub,
        WizardControl::ProjectFolders,
        WizardControl::ProjectUrl,
    ] {
        press(&mut dashboard, tab);
        let screen = part(&dashboard).render_project_picker(false);
        let controls = part(&dashboard).declare_project_controls();
        let drawn = screen.buttons.last().expect("a button");
        let declared = controls.last().expect("a control");
        assert_eq!(drawn.control, declared.control);
        assert_eq!(drawn.enabled, declared.enabled);
        assert!(screen.several_enabled);
    }
    let screen = part(&dashboard).render_project_picker(false);
    assert_eq!(screen.list, ProjectList::Hidden);
}

#[test]
fn the_rows_of_the_picker_do_not_overlap() {
    let inner = Rect::new(1, 1, 80, 30);
    for tab in [ProjectTab::Recent, ProjectTab::Github, ProjectTab::Folders, ProjectTab::Url] {
        let areas = project_layout(inner, tab, true, 3);
        assert!(areas.status.y < areas.several.y);
        assert!(areas.several.y < areas.basket.y);
        assert!(areas.list.y + areas.list.height <= areas.status.y);
        assert!(areas.buttons.y < inner.y + inner.height);
    }
}
