use mj_tui::activation::Findings;
use mj_tui::changes::{FieldEdit, HistoryKey};
use mj_tui::catalog::bundle_ids_by_recent_creation;
use mj_tui::controls::{ControlKind, Declaration};
use mj_tui::dashboard_state::{
    CreateSession, DashboardAction, DashboardState, Focus, Launch, Mode, MoveSession, PaneFlags,
    PaneSize, PaneSizes, ProjectContext, ResumeSession, SessionOperation, SessionOperationKind,
};
use mj_tui::draft_rules::step_initial;
use mj_tui::drafts::{Draft, MountWizard, NewSession, PathInput, Purpose, Resumption, WizardControl, WizardStep};
use mj_tui::duplicate::Duplicate;
use mj_tui::events::Interaction;
use mj_tui::path_updates::CompletionEvent;
use mj_tui::paths::default_resource_destination;
use mj_tui::picker::COLUMN_GAP;
use mj_tui::readiness::{TARGET_READINESS_FAILURE_TTL, TARGET_READINESS_TTL};
use mj_tui::records::{
    AdditionalMount, Bundle, CapacityDetail, Compatibility, CompatibleProfile, Config,
    ConversionPreview, GoRecipe, GoSetup, HarnessKind, HostPaths, HostSize, HostUsage, MountAccess,
    MoveOperation, MovePreparation, MoveSelection, Profile, QueueDisposition, QueuedCommand,
    QueuedCommandKind, QueuedPrompt, RemoteRepository, ResourceAllocation, ResumePlan,
    SessionDetail, SessionRecord, State, Target, TargetFit, TargetKind,
    TargetTemplate, WorktreeOptions,
};
use mj_tui::resources::{adjust_resources, allocation_cpus, BASELINE_CPUS, BASELINE_MEMORY_BYTES};
use mj_tui::screen::{Button, TextLine};
use mj_tui::shortcuts::{FormReport, ShortcutKey, WizardOutcome};
use mj_tui::wizard_screens::WizardScreen;
use unicode_width::UnicodeWidthStr;

const WORKSPACE: &str = "default";
const GIB: u64 = 1024 * 1024 * 1024;

// --- Records ---

fn profile(id: &str, kind: HarnessKind) -> Profile {
    let harness = match kind {
        HarnessKind::Claude => "Apollo Code",
        HarnessKind::Codex => "Codex",
        HarnessKind::Grok => "Grok",
        HarnessKind::Kimi => "Kimi Code",
        HarnessKind::Muse => "Muse",
    };
    Profile {
        id: id.into(),
        kind,
        enabled: true,
        harness: harness.into(),
        weekly: "refreshing".into(),
        five_hour: String::new(),
        warning: None,
    }
}

fn template(kind: TargetKind) -> TargetTemplate {
    let bare = kind == TargetKind::LocalBare || kind == TargetKind::SshBare;
    let instance = kind == TargetKind::AwsEc2;
    TargetTemplate {
        kind,
        bare_project: bare,
        guardian: bare,
        ssh_user: if instance { "ubuntu".into() } else { String::new() },
        mount_host: if bare { None } else { Some("local".into()) },
        project_host: if bare { Some("local".into()) } else { None },
        size_host: if bare || instance { None } else { Some("local".into()) },
        settings: "image ubuntu:24.04".into(),
    }
}

fn target(id: &str, kind: TargetKind) -> Target {
    Target { id: id.into(), template: template(kind) }
}

fn ssh_bare(id: &str, host: &str) -> Target {
    let mut target = target(id, TargetKind::SshBare);
    target.template.project_host = Some(host.into());
    target.template.settings = format!("host {host}");
    target
}

fn config() -> Config {
    Config {
        profiles: vec![
            profile("apollo-1", HarnessKind::Claude),
            profile("codex-1", HarnessKind::Codex),
            profile("codex-2", HarnessKind::Codex),
        ],
        bundles: vec![Bundle { id: "hel".into(), repositories: 1 }],
        targets: vec![target("podman", TargetKind::LocalPodman)],
        subagents_enabled: true,
    }
}

fn no_state() -> State {
    State {
        sessions: Vec::new(),
        mount_history: Vec::new(),
        project_directories: Vec::new(),
        container_sizes: Vec::new(),
    }
}

fn choice(id: &str, kind: HarnessKind) -> CompatibleProfile {
    CompatibleProfile { id: id.into(), kind }
}

fn stopped_session() -> SessionRecord {
    SessionRecord {
        id: "session-1".into(),
        title: "First session".into(),
        bundle_id: "hel".into(),
        target_template_id: "podman".into(),
        last_profile: "codex-1".into(),
        created_at: "2026-08-09T00:00:00Z".into(),
        harness_kind: HarnessKind::Codex,
        active: false,
        failed: false,
        checkpoint: true,
        project_directory: None,
        additional_mounts: Vec::new(),
        resource_allocation: None,
        compatible_profiles: vec![
            choice("apollo-1", HarnessKind::Claude),
            choice("codex-1", HarnessKind::Codex),
            choice("codex-2", HarnessKind::Codex),
        ],
        fits: vec![TargetFit {
            target_id: "podman".into(),
            fit: Compatibility::Usable(ResumePlan::Rebuilt),
        }],
    }
}

fn running_session() -> SessionRecord {
    let mut session = stopped_session();
    session.active = true;
    session
}

fn bare_unfit() -> TargetFit {
    TargetFit {
        target_id: "bare".into(),
        fit: Compatibility::Unusable("this session's repository came from GitHub".into()),
    }
}

fn dashboard(config: Config, state: State) -> DashboardState {
    DashboardState {
        config,
        state,
        session_details: Vec::new(),
        capacity_details: Vec::new(),
        target_readiness: Vec::new(),
        next_readiness_generation: 1,
        go: None,
        launch_project_directory: None,
        active_workspace_id: Some(WORKSPACE.into()),
        selected_session: None,
        displaced_session: None,
        operations: Vec::new(),
        focus: Focus::Workspaces,
        pane_sizes: PaneSizes {
            sessions: PaneSize::Standard,
            targets: PaneSize::Standard,
            quota: PaneSize::Standard,
        },
        maximizable: PaneFlags { sessions: true, targets: true, quota: true },
        mode: Mode::Dashboard,
        notice: None,
        preflight_generation: 0,
        next_move_preparation_request_id: 1,
        next_picker_id: 1,
        event_handled: false,
        now: 5_000_000_000_000,
    }
}

fn fresh_dashboard() -> DashboardState {
    dashboard(config(), no_state())
}

fn state_with(sessions: Vec<SessionRecord>) -> State {
    let mut state = no_state();
    state.sessions = sessions;
    state
}

fn dashboard_with_session(session: SessionRecord) -> DashboardState {
    let id = session.id.clone();
    let mut dashboard = dashboard(config(), state_with(vec![session]));
    dashboard.selected_session = Some(id);
    dashboard
}

fn local_config() -> Config {
    let mut config = config();
    config.targets = vec![target("local", TargetKind::LocalBare)];
    config
}

fn mount(source: &str, destination: &str, access: MountAccess) -> AdditionalMount {
    AdditionalMount {
        source: source.into(),
        destination: destination.into(),
        access,
    }
}

fn baseline() -> Option<ResourceAllocation> {
    Some(ResourceAllocation::Container {
        cpus: BASELINE_CPUS,
        memory_bytes: BASELINE_MEMORY_BYTES,
    })
}

fn container(cpus: u64, memory_bytes: u64) -> Option<ResourceAllocation> {
    Some(ResourceAllocation::Container { cpus, memory_bytes })
}

fn created(profile: &str, bundle: &str, mounts: Vec<AdditionalMount>) -> CreateSession {
    CreateSession {
        mjolnir_subagents: Some(true),
        create_managed_worktree: false,
        workspace_id: WORKSPACE.into(),
        profile_id: profile.into(),
        project: ProjectContext::Bundle(bundle.into()),
        project_directory: None,
        target_template_id: "podman".into(),
        additional_mounts: mounts,
        resource_allocation: baseline(),
    }
}

fn created_in(profile: &str, target: &str, directory: &str, subagents: Option<bool>) -> CreateSession {
    CreateSession {
        mjolnir_subagents: subagents,
        create_managed_worktree: true,
        workspace_id: WORKSPACE.into(),
        profile_id: profile.into(),
        project: ProjectContext::Directory(directory.into()),
        project_directory: Some(directory.into()),
        target_template_id: target.into(),
        additional_mounts: Vec::new(),
        resource_allocation: None,
    }
}

fn hel_repository() -> RemoteRepository {
    RemoteRepository {
        repository_id: "hel".into(),
        fetch_url: "https://github.com/example/hel.git".into(),
        default_branch: "main".into(),
        push_urls: vec!["https://github.com/example/hel.git".into()],
    }
}

fn worktree(available: bool, default_create: bool) -> WorktreeOptions {
    WorktreeOptions { available, default_create }
}

// --- A small form ---

#[derive(Debug, Clone, Copy, PartialEq)]
enum Key {
    Enter,
    Esc,
    Tab,
    BackTab,
    Up,
    Down,
    Home,
    Backspace,
    Delete,
    Char(char),
}

fn draft(dashboard: &DashboardState) -> &Draft {
    match &dashboard.mode {
        Mode::Wizard(draft) => draft,
        other => panic!("expected a wizard, got {other:?}"),
    }
}

fn draft_mut(dashboard: &mut DashboardState) -> &mut Draft {
    match &mut dashboard.mode {
        Mode::Wizard(draft) => draft,
        other => panic!("expected a wizard, got {other:?}"),
    }
}

fn new_part(dashboard: &DashboardState) -> &NewSession {
    match &draft(dashboard).purpose {
        Purpose::New(part) => part,
        Purpose::Resume(_) => panic!("expected the new-session wizard"),
    }
}

fn new_part_mut(dashboard: &mut DashboardState) -> &mut NewSession {
    match &mut draft_mut(dashboard).purpose {
        Purpose::New(part) => part,
        Purpose::Resume(_) => panic!("expected the new-session wizard"),
    }
}

fn resume_part(dashboard: &DashboardState) -> &Resumption {
    match &draft(dashboard).purpose {
        Purpose::Resume(part) => part,
        Purpose::New(_) => panic!("expected the resume wizard"),
    }
}

fn mounts(dashboard: &DashboardState) -> &MountWizard {
    &draft(dashboard).mounts
}

fn step(dashboard: &DashboardState) -> WizardStep {
    draft(dashboard).step
}

fn notice(dashboard: &DashboardState) -> Option<&str> {
    dashboard.notice.as_ref().map(|notice| notice.text.as_str())
}

fn closed(dashboard: &DashboardState) -> bool {
    matches!(dashboard.mode, Mode::Dashboard)
}

fn focus_on(dashboard: &mut DashboardState, control: WizardControl) {
    draft_mut(dashboard).form.focus(control);
}

/// The control that has the focus: the one it was given to while that can be
/// used, else the first that can.
fn focused(dashboard: &DashboardState) -> Declaration {
    let draft = draft(dashboard);
    let wanted = draft.form.focused.unwrap_or(step_initial(draft.step));
    let controls = dashboard.declare_wizard_controls(draft);
    let found = controls
        .iter()
        .position(|declared| declared.control == wanted && declared.enabled)
        .or_else(|| controls.iter().position(|declared| declared.enabled))
        .expect("some control can be used");
    controls[found]
}

fn field_text(draft: &Draft, control: WizardControl) -> String {
    match (control, &draft.purpose) {
        (WizardControl::MountSource, _) => draft.mounts.source.text.clone(),
        (WizardControl::MountDestination, _) => draft.mounts.destination.text.clone(),
        (WizardControl::ProjectDirectory, Purpose::New(part)) => part.project_directory.text.clone(),
        (WizardControl::NewBundleSource, Purpose::New(part)) => part.new_bundle_source.text.clone(),
        other => panic!("no field {:?}", other.0),
    }
}

fn edit(control: WizardControl, text: String, key: Option<HistoryKey>, changed: bool) -> Interaction {
    Interaction::Edit(
        control,
        FieldEdit { key, input: PathInput { text, completing: false }, changed },
    )
}

/// What is known of the paths of a draft: nothing is wrong with them, and a
/// container has a source under its own name.
fn findings(draft: &Draft) -> Findings {
    let source = draft.mounts.source.text.as_str();
    let name = source.rsplit('/').next().unwrap_or_default();
    Findings {
        source: None,
        destination: None,
        project: None,
        proposal: format!("/mnt/{name}"),
        skips_target: false,
    }
}

/// Hands an event to the wizard, given what the form made of it.
fn report(
    dashboard: &mut DashboardState,
    interaction: Option<Interaction>,
    consumed: bool,
    key: Option<ShortcutKey>,
) -> DashboardAction {
    let report = FormReport {
        release: false,
        repeat: false,
        consumed,
        completion: CompletionEvent::Unrelated,
        interaction,
        key: key.map(|key| (key, false)),
    };
    let findings = findings(draft(dashboard));
    match dashboard.handle_event(report, findings).expect("the draft refers to what there is") {
        WizardOutcome::Acts(action) => action,
        WizardOutcome::Completes(route) => panic!("no popup is open: {route:?}"),
    }
}

fn act(dashboard: &mut DashboardState, interaction: Interaction) -> DashboardAction {
    report(dashboard, Some(interaction), true, None)
}

fn press_enter(dashboard: &mut DashboardState) -> DashboardAction {
    let focus = focused(dashboard);
    match focus.kind {
        ControlKind::ComboBox { selected, expanded: true, .. } => {
            act(dashboard, Interaction::ComboBoxCommit(focus.control, selected))
        }
        ControlKind::Checkbox => {
            let action = dashboard.default_wizard_action(draft(dashboard));
            let usable = dashboard
                .declare_wizard_controls(draft(dashboard))
                .iter()
                .any(|declared| declared.control == action && declared.enabled);
            if usable {
                act(dashboard, Interaction::Activate(action))
            } else {
                report(dashboard, None, true, None)
            }
        }
        _ => {
            // An unusable list leaves Enter to the step's own button.
            let initial = step_initial(step(dashboard));
            let skipped = draft(dashboard).form.focused.unwrap_or(initial) == initial
                && focus.control != initial
                && initial == WizardControl::BundleList;
            let control = if skipped {
                dashboard.default_wizard_action(draft(dashboard))
            } else {
                focus.control
            };
            // A button that cannot be pressed swallows Enter.
            let asked = draft(dashboard).form.focused.unwrap_or(initial);
            if asked == WizardControl::Submit && control != WizardControl::Submit {
                return report(dashboard, None, true, None);
            }
            act(dashboard, Interaction::Activate(control))
        }
    }
}

fn press(dashboard: &mut DashboardState, key: Key) -> DashboardAction {
    if !matches!(dashboard.mode, Mode::Wizard(_)) {
        return DashboardAction::Nothing;
    }
    if draft(dashboard).input_locked() {
        return report(dashboard, Some(Interaction::Cancel), true, None);
    }
    let focus = focused(dashboard);
    let expanded = matches!(focus.kind, ControlKind::ComboBox { expanded: true, .. });
    match key {
        Key::Enter => press_enter(dashboard),
        Key::Esc if expanded => {
            draft_mut(dashboard).mounts.access_combo = None;
            report(dashboard, None, true, None)
        }
        Key::Esc => match draft(dashboard).prepare_dialog_state().escape {
            Some(control) => act(dashboard, Interaction::Activate(control)),
            None => act(dashboard, Interaction::Cancel),
        },
        Key::Tab | Key::BackTab => {
            let enabled: Vec<WizardControl> = dashboard
                .declare_wizard_controls(draft(dashboard))
                .iter()
                .filter(|declared| declared.enabled)
                .map(|declared| declared.control)
                .collect();
            let at = enabled
                .iter()
                .position(|control| *control == focus.control)
                .expect("the focus is on a usable control");
            let next = if key == Key::Tab { at + 1 } else { at + enabled.len() - 1 };
            focus_on(dashboard, enabled[next % enabled.len()]);
            report(dashboard, None, true, None)
        }
        Key::Up | Key::Down | Key::Home => match focus.kind {
            ControlKind::ChoiceList { len, selected } if len > 0 => {
                let row = match key {
                    Key::Up => selected.saturating_sub(1),
                    Key::Down => (selected + 1).min(len - 1),
                    _ => 0,
                };
                act(dashboard, Interaction::Select(focus.control, row))
            }
            ControlKind::ComboBox { len, selected, expanded: true } => {
                let row = if key == Key::Up { selected.saturating_sub(1) } else { (selected + 1).min(len - 1) };
                draft_mut(dashboard).mounts.access_combo = Some(row);
                report(dashboard, None, true, None)
            }
            ControlKind::TextField | ControlKind::PathField { .. } => {
                let text = field_text(draft(dashboard), focus.control);
                let walk = if key == Key::Up { HistoryKey::Up } else { HistoryKey::Down };
                act(dashboard, edit(focus.control, text, Some(walk), false))
            }
            _ => report(dashboard, None, false, Some(ShortcutKey::Other)),
        },
        Key::Backspace | Key::Char(_) => match focus.kind {
            ControlKind::TextField | ControlKind::PathField { .. } => {
                let mut text = field_text(draft(dashboard), focus.control);
                match key {
                    Key::Char(character) => text.push(character),
                    _ => {
                        text.pop();
                    }
                }
                act(dashboard, edit(focus.control, text, None, true))
            }
            ControlKind::Checkbox if key == Key::Char(' ') => {
                act(dashboard, Interaction::Toggle(focus.control))
            }
            _ => {
                let shortcut = match key {
                    Key::Char(character) => ShortcutKey::Char(character),
                    _ => ShortcutKey::Backspace,
                };
                report(dashboard, None, false, Some(shortcut))
            }
        },
        Key::Delete => report(dashboard, None, false, Some(ShortcutKey::Delete)),
    }
}

/// Answers the availability checks of the target step as a healthy host would.
fn complete_ready_targets(dashboard: &mut DashboardState) {
    let on_target = matches!(&dashboard.mode, Mode::Wizard(draft) if draft.step == WizardStep::Target);
    if !on_target {
        return;
    }
    if let Some(DashboardAction::CheckTargetReadiness { generation, target_ids }) =
        dashboard.take_prerequisite_check()
    {
        for id in target_ids {
            dashboard.apply_target_readiness(generation, id, Ok(()));
        }
    }
}

fn ready_key(dashboard: &mut DashboardState, key: Key) -> DashboardAction {
    complete_ready_targets(dashboard);
    let action = press(dashboard, key);
    complete_ready_targets(dashboard);
    action
}

fn ready_open_new_wizard(dashboard: &mut DashboardState) -> DashboardAction {
    complete_ready_targets(dashboard);
    let action = dashboard.begin_new_wizard();
    complete_ready_targets(dashboard);
    action
}

fn ready_keys(dashboard: &mut DashboardState, keys: &[Key]) {
    for key in keys {
        ready_key(dashboard, *key);
    }
}

fn type_text(dashboard: &mut DashboardState, text: &str) {
    for character in text.chars() {
        ready_key(dashboard, Key::Char(character));
    }
}

/// Replaces a field's text in one edit, as pasting over a selection does.
fn paste(dashboard: &mut DashboardState, text: &str) {
    let focus = focused(dashboard);
    if matches!(focus.kind, ControlKind::TextField | ControlKind::PathField { .. }) {
        act(dashboard, edit(focus.control, text.into(), None, true));
    }
}

fn open_resume_wizard(dashboard: &mut DashboardState) -> DashboardAction {
    dashboard.begin_resume_for("session-1")
}

// --- What is on screen ---

fn plain(line: &TextLine) -> String {
    line.spans.iter().map(|span| span.text.as_str()).collect()
}

fn add_lines(shown: &mut Vec<String>, lines: &[TextLine]) {
    shown.extend(lines.iter().map(plain));
}

fn labels(buttons: &[Button]) -> String {
    let list: Vec<&str> = buttons.iter().map(|button| button.label.as_str()).collect();
    list.join("  ")
}

fn shown(dashboard: &DashboardState) -> Vec<String> {
    let refresh = Some("F5".to_string());
    let screen = dashboard.wizard_screen(&refresh, 0).expect("a wizard is shown");
    let mut shown = Vec::new();
    match screen {
        WizardScreen::Review(screen) => {
            shown.push(screen.title);
            add_lines(&mut shown, &screen.lines);
            add_lines(&mut shown, &screen.attachments);
            for checkbox in [&screen.worktree, &screen.subagents, &screen.queue] {
                shown.extend(checkbox.iter().map(|checkbox| checkbox.label.clone()));
            }
            for row in &screen.queue_rows {
                shown.push(format!("{}{}{}", row.number, row.text, row.note));
            }
            shown.push(labels(&screen.buttons));
        }
        WizardScreen::Mounts(screen) => {
            shown.push(screen.title);
            add_lines(&mut shown, &screen.lines);
            shown.push(format!("{} {}", screen.source_label, mounts(dashboard).source.text));
            shown.push(format!("{} {}", screen.destination_label, mounts(dashboard).destination.text));
            shown.push(screen.access_label);
            if screen.access.expanded {
                shown.extend(screen.access.options);
            } else {
                shown.push(screen.access.value);
            }
            shown.push(labels(&screen.buttons));
        }
        WizardScreen::Directory(screen) => {
            shown.push(screen.title);
            add_lines(&mut shown, &screen.intro);
            add_lines(&mut shown, &screen.details);
            shown.push(labels(&screen.buttons));
        }
        WizardScreen::NewBundle(screen) => {
            shown.push(screen.title);
            shown.push(screen.heading);
            add_lines(&mut shown, &screen.rows);
            shown.extend(screen.hint);
            shown.push(screen.label);
            shown.push(new_part(dashboard).new_bundle_source.text.clone());
            shown.push(screen.help);
            shown.push(labels(&screen.tools));
            shown.push(labels(&screen.buttons));
        }
        WizardScreen::Picker(screen) => {
            shown.push(screen.title);
            add_lines(&mut shown, &screen.rows);
            shown.extend(screen.hint);
            add_lines(&mut shown, &screen.help);
            let mut row = labels(&screen.buttons);
            if let Some(pinned) = &screen.navigation.pinned_action {
                row.push_str("  ");
                row.push_str(&pinned.label);
            }
            shown.push(row);
        }
    }
    shown
}

fn shown_text(dashboard: &DashboardState) -> String {
    shown(dashboard).join("\n")
}

fn row_with<'a>(lines: &'a [String], needle: &str) -> &'a String {
    lines
        .iter()
        .find(|line| line.contains(needle))
        .unwrap_or_else(|| panic!("missing row {needle:?} in {lines:?}"))
}

fn cell_column(line: &str, needle: &str) -> usize {
    let at = line
        .find(needle)
        .unwrap_or_else(|| panic!("missing {needle:?} in {line:?}"));
    line[..at].width()
}

// --- New sessions ---

#[test]
fn new_session_wizard_returns_all_three_choices() {
    let mut dashboard = fresh_dashboard();
    assert_eq!(ready_open_new_wizard(&mut dashboard), DashboardAction::Nothing);
    assert_eq!(ready_key(&mut dashboard, Key::Down), DashboardAction::Nothing);
    assert_eq!(ready_key(&mut dashboard, Key::Enter), DashboardAction::Nothing);
    assert_eq!(ready_key(&mut dashboard, Key::Enter), DashboardAction::Nothing);
    assert_eq!(ready_key(&mut dashboard, Key::Enter), DashboardAction::Nothing);
    assert_eq!(
        dashboard.take_prerequisite_check(),
        Some(DashboardAction::PreflightCreateSession(created(
            "codex-1",
            "hel",
            vec![]
        )))
    );
    assert!(matches!(draft(&dashboard).purpose, Purpose::New(_)));
}

#[test]
fn isolated_creation_review_checks_prerequisites_before_enabling_create() {
    let mut dashboard = fresh_dashboard();
    ready_open_new_wizard(&mut dashboard);
    ready_keys(&mut dashboard, &[Key::Enter, Key::Enter, Key::Enter]);
    assert!(matches!(
        dashboard.take_prerequisite_check(),
        Some(DashboardAction::PreflightCreateSession(_))
    ));
    assert!(shown_text(&dashboard).contains("Checking prerequisites…"));
    assert_eq!(ready_key(&mut dashboard, Key::Enter), DashboardAction::Nothing);

    let generation = dashboard.session_preflight_generation();
    dashboard.begin_remote_session_preflight(generation);
    dashboard.apply_remote_session_preflight(generation, Ok(vec![hel_repository()]));
    let action = ready_key(&mut dashboard, Key::Enter);
    assert!(matches!(action, DashboardAction::CreateSession(_)));
    assert!(closed(&dashboard));
}

#[test]
fn isolated_creation_runs_one_check_at_a_time_and_retries_after_failure() {
    let mut dashboard = fresh_dashboard();
    ready_open_new_wizard(&mut dashboard);
    ready_keys(&mut dashboard, &[Key::Enter, Key::Enter, Key::Enter]);
    let original_check = dashboard
        .take_prerequisite_check()
        .expect("opening the review starts its prerequisite check");
    assert!(matches!(original_check, DashboardAction::PreflightCreateSession(_)));
    assert_eq!(
        dashboard.take_prerequisite_check(),
        None,
        "a running check must not start a second resolver worker"
    );
    assert_eq!(ready_key(&mut dashboard, Key::Enter), DashboardAction::Nothing);

    let generation = dashboard.session_preflight_generation();
    dashboard.apply_remote_session_preflight(generation, Err("remote unavailable".into()));
    assert_eq!(
        dashboard.take_prerequisite_check(),
        None,
        "a failed check waits for Retry"
    );
    assert!(shown_text(&dashboard).contains("Retry"));
    assert_eq!(ready_key(&mut dashboard, Key::Enter), DashboardAction::Nothing);
    assert_eq!(
        dashboard.take_prerequisite_check(),
        Some(original_check),
        "Retry starts the same check again"
    );
}

#[test]
fn switching_workspaces_preserves_remote_preflight_in_its_original_workspace() {
    let workspace_b = "workspace-b".to_string();
    let mut dashboard = fresh_dashboard();

    ready_open_new_wizard(&mut dashboard);
    ready_keys(&mut dashboard, &[Key::Enter, Key::Enter, Key::Enter]);
    let Some(DashboardAction::PreflightCreateSession(launch_a)) = dashboard.take_prerequisite_check()
    else {
        panic!("network creation should start a remote preflight");
    };
    assert_eq!(launch_a.workspace_id, WORKSPACE);

    let generation_a = dashboard.session_preflight_generation();
    dashboard.begin_remote_session_preflight(generation_a);
    dashboard.active_workspace_id = Some(workspace_b.clone());
    assert_eq!(generation_a, dashboard.session_preflight_generation());

    dashboard.apply_remote_session_preflight(generation_a, Ok(vec![hel_repository()]));
    let completed = ready_key(&mut dashboard, Key::Enter);
    assert!(matches!(
        completed,
        DashboardAction::CreateSession(launch) if launch.workspace_id == WORKSPACE
    ));
    assert_eq!(dashboard.active_workspace_id, Some(workspace_b.clone()));

    ready_open_new_wizard(&mut dashboard);
    ready_keys(&mut dashboard, &[Key::Enter, Key::Enter, Key::Enter]);
    let Some(DashboardAction::PreflightCreateSession(launch_b)) = dashboard.take_prerequisite_check()
    else {
        panic!("workspace B should start its own remote preflight");
    };
    assert_eq!(launch_b.workspace_id, workspace_b);
}

#[test]
fn new_session_wizard_renders_and_focuses_explicit_navigation_buttons() {
    let mut dashboard = fresh_dashboard();
    ready_open_new_wizard(&mut dashboard);
    let rendered = shown_text(&dashboard);
    assert!(rendered.contains("Cancel"));
    assert!(rendered.contains("Next"));

    ready_key(&mut dashboard, Key::Tab);
    assert_eq!(draft(&dashboard).form.focused, Some(WizardControl::Cancel));
    assert_eq!(ready_key(&mut dashboard, Key::Enter), DashboardAction::Nothing);
    assert!(closed(&dashboard));
}

#[test]
fn opening_session_wizards_prefetches_all_aws_sizes() {
    let aws_config = || {
        let mut config = config();
        config.targets.insert(0, target("aws-a", TargetKind::AwsEc2));
        config.targets.insert(1, target("aws-b", TargetKind::AwsEc2));
        config
    };
    let lookup = DashboardAction::ResolveAwsResourceOptions {
        target_template_ids: vec!["aws-a".into(), "aws-b".into()],
    };
    let mut dashboard = dashboard(aws_config(), no_state());
    assert_eq!(ready_open_new_wizard(&mut dashboard), lookup);
    let aws_b_options = || {
        vec![ResourceAllocation::AwsEc2 {
            instance_type: "m7i.2xlarge".into(),
            vcpus: 8,
            memory_bytes: 32 * GIB,
        }]
    };
    dashboard.apply_aws_resource_options("aws-b", Ok(aws_b_options()));
    let stored = draft(&dashboard)
        .aws_options
        .iter()
        .find(|sizes| sizes.target_id == "aws-b")
        .expect("the sizes are kept");
    assert_eq!(stored.options, aws_b_options());

    let mut dashboard = self::dashboard(aws_config(), state_with(vec![stopped_session()]));
    assert_eq!(open_resume_wizard(&mut dashboard), lookup);
}

#[test]
fn persisted_import_opens_resume_wizard_for_its_id_and_keeps_defaults() {
    let mut config = config();
    config.targets.push(target("z-target", TargetKind::LocalPodman));

    let mut imported = stopped_session();
    imported.id = "imported-session".into();
    imported.last_profile = "codex-2".into();
    imported.target_template_id = "z-target".into();

    let mut dashboard = dashboard(config, no_state());
    dashboard.set_state(state_with(vec![imported]));

    assert_eq!(dashboard.begin_resume_for("imported-session"), DashboardAction::Nothing);
    let part = resume_part(&dashboard);
    assert_eq!(part.session_id, "imported-session");
    let compatible_profiles = dashboard.compatible_profiles(&part.session_id);
    assert_eq!(
        compatible_profiles[draft(&dashboard).profile].id, "codex-2",
        "codex-2 remains the selected profile"
    );
    assert_eq!(
        dashboard.config.targets[draft(&dashboard).target].id,
        "z-target",
        "z-target remains the selected target"
    );
}

#[test]
fn new_session_can_request_a_repository_when_no_bundle_exists() {
    let mut config = config();
    config.bundles.clear();
    let mut dashboard = dashboard(config, no_state());
    ready_open_new_wizard(&mut dashboard);
    ready_keys(&mut dashboard, &[Key::Enter, Key::Enter, Key::Enter]);
    type_text(&mut dashboard, "example/new-repo");
    for _ in 0..4 {
        ready_key(&mut dashboard, Key::Tab);
    }
    assert_eq!(
        ready_key(&mut dashboard, Key::Enter),
        DashboardAction::CreateBundle {
            sources: vec!["example/new-repo".into()],
        }
    );
}

fn dashboard_at_new_bundle_editor() -> DashboardState {
    let mut config = config();
    config.bundles.clear();
    let mut dashboard = dashboard(config, no_state());
    ready_open_new_wizard(&mut dashboard);
    ready_keys(&mut dashboard, &[Key::Enter, Key::Enter, Key::Enter]);
    assert_eq!(step(&dashboard), WizardStep::NewBundle);
    dashboard
}

/// The bundle list holds real bundles only; the creator is a button pinned to
/// the action row's right side.
#[test]
fn bundle_step_pins_the_new_bundle_action_beside_the_list() {
    let mut dashboard = fresh_dashboard();
    dashboard.begin_new();
    ready_keys(&mut dashboard, &[Key::Enter, Key::Enter]);
    assert_eq!(step(&dashboard), WizardStep::Bundle);
    let lines = shown(&dashboard);
    let list = lines.join("\n");
    assert!(list.contains("hel  1 repositories"), "{list}");
    let action_row = lines
        .iter()
        .find(|line| line.contains("New bundle…"))
        .unwrap_or_else(|| panic!("the creator is pinned in the dialog: {list}"));
    assert!(
        action_row.contains("Cancel") && action_row.contains("Next"),
        "the creator belongs to the action row, not the list: {list}"
    );
    let after_next = action_row
        .split("Next")
        .nth(1)
        .unwrap_or_default()
        .contains("New bundle…");
    assert!(
        after_next,
        "the creator sits right of the navigation buttons: {action_row}"
    );

    // Activating the pinned action opens the bundle editor.
    focus_on(&mut dashboard, WizardControl::Add);
    ready_key(&mut dashboard, Key::Enter);
    assert_eq!(step(&dashboard), WizardStep::NewBundle);
}

/// Without bundles there is nothing to select, so the creator is the only way
/// forward: the list is a hint, Next is disabled, and Enter opens the editor.
#[test]
fn bundle_step_without_bundles_routes_everything_to_the_creator() {
    let mut configuration = config();
    configuration.bundles.clear();
    let mut dashboard = dashboard(configuration, no_state());
    dashboard.begin_new();
    ready_keys(&mut dashboard, &[Key::Enter, Key::Enter]);
    assert_eq!(step(&dashboard), WizardStep::Bundle);
    let text = shown_text(&dashboard);
    assert!(text.contains("No bundles yet."), "{text}");
    assert!(text.contains("New bundle…"), "{text}");
    assert_eq!(
        ready_key(&mut dashboard, Key::Enter),
        DashboardAction::Nothing,
        "Enter falls through the empty list to the creator"
    );
    assert_eq!(step(&dashboard), WizardStep::NewBundle);
}

fn focus_create_bundle(dashboard: &mut DashboardState, tabs: usize) {
    for _ in 0..tabs {
        ready_key(dashboard, Key::Tab);
    }
}

#[test]
fn new_bundle_editor_adds_multiple_repositories_and_removes_selected() {
    let mut dashboard = dashboard_at_new_bundle_editor();
    type_text(&mut dashboard, "owner/primary");
    assert_eq!(ready_key(&mut dashboard, Key::Enter), DashboardAction::Nothing);
    type_text(&mut dashboard, "owner/secondary");
    assert_eq!(ready_key(&mut dashboard, Key::Enter), DashboardAction::Nothing);
    assert_eq!(
        new_part(&dashboard).new_bundle_repositories,
        vec!["owner/primary", "owner/secondary"]
    );
    assert!(new_part(&dashboard).new_bundle_source.is_empty());

    // Back-tab from the source selects the list; Delete removes its selected
    // (newest) row and leaves the primary row intact.
    ready_key(&mut dashboard, Key::BackTab);
    ready_key(&mut dashboard, Key::Delete);
    assert_eq!(new_part(&dashboard).new_bundle_repositories, vec!["owner/primary"]);
    assert_eq!(new_part(&dashboard).new_bundle_selected, 0);
}

#[test]
fn new_bundle_editor_creates_from_current_source_without_add() {
    let mut dashboard = dashboard_at_new_bundle_editor();
    type_text(&mut dashboard, "owner/only");
    // Source → Add → Cancel → Back → Create. Remove is disabled while the
    // draft is empty, so the form skips it during focus navigation.
    focus_create_bundle(&mut dashboard, 4);
    assert_eq!(
        ready_key(&mut dashboard, Key::Enter),
        DashboardAction::CreateBundle {
            sources: vec!["owner/only".into()]
        }
    );
    assert!(new_part(&dashboard).bundle_creation_in_flight);
    assert_eq!(new_part(&dashboard).new_bundle_source.text, "owner/only");
}

#[test]
fn new_bundle_editor_preserves_draft_after_failure_for_retry() {
    let mut dashboard = dashboard_at_new_bundle_editor();
    type_text(&mut dashboard, "owner/only");
    focus_create_bundle(&mut dashboard, 4);
    assert_eq!(
        ready_key(&mut dashboard, Key::Enter),
        DashboardAction::CreateBundle {
            sources: vec!["owner/only".into()]
        }
    );
    dashboard.fail_bundle_creation("repository not found");
    assert!(!new_part(&dashboard).bundle_creation_in_flight);
    assert_eq!(new_part(&dashboard).new_bundle_source.text, "owner/only");
    assert_eq!(
        notice(&dashboard),
        Some("Could not create bundle: repository not found")
    );
    assert_eq!(
        ready_key(&mut dashboard, Key::Enter),
        DashboardAction::CreateBundle {
            sources: vec!["owner/only".into()]
        }
    );
}

#[test]
fn new_bundle_editor_submits_all_sources_once_and_advances_after_success() {
    let mut dashboard = dashboard_at_new_bundle_editor();
    type_text(&mut dashboard, "owner/primary");
    ready_key(&mut dashboard, Key::Enter);
    type_text(&mut dashboard, "owner/secondary");
    // Add, Remove, Cancel, Back, Create.
    focus_create_bundle(&mut dashboard, 5);
    assert_eq!(
        ready_key(&mut dashboard, Key::Enter),
        DashboardAction::CreateBundle {
            sources: vec!["owner/primary".into(), "owner/secondary".into()]
        }
    );
    for code in [Key::Enter, Key::Esc, Key::Backspace] {
        assert_eq!(ready_key(&mut dashboard, code), DashboardAction::Nothing);
    }
    assert!(new_part(&dashboard).bundle_creation_in_flight);
    let configured = config();
    let id = configured.bundles[0].id.clone();
    dashboard.apply_created_bundle(configured, &id);
    assert_eq!(step(&dashboard), WizardStep::Review);
    assert!(!new_part(&dashboard).bundle_creation_in_flight);
    let order = bundle_ids_by_recent_creation(&dashboard.config, &dashboard.state);
    assert_eq!(order[new_part(&dashboard).bundle], id);
}

#[test]
fn new_bundle_editor_renders_separate_input_and_help_and_accepts_mouse_add() {
    let mut dashboard = dashboard_at_new_bundle_editor();
    type_text(&mut dashboard, "owner/visible");
    let lines = shown(&dashboard);
    let source_row = lines.iter().position(|line| line.contains("owner/visible")).unwrap();
    let help_row = lines.iter().position(|line| line.contains("Enter adds")).unwrap();
    assert_ne!(source_row, help_row);
    let rendered = lines.join("\n");
    assert!(rendered.contains("New bundle"));
    assert!(rendered.contains("Create bundle"));
    assert!(rendered.contains("GitHub source or local Git path with a network remote"));
    assert!(!rendered.contains("Create repository"));
    assert!(rendered.contains("Add repository"));
    act(&mut dashboard, Interaction::Activate(WizardControl::Add));
    assert_eq!(new_part(&dashboard).new_bundle_repositories, ["owner/visible"]);
    assert!(new_part(&dashboard).new_bundle_source.is_empty());
}

#[test]
fn bare_ssh_new_session_selects_target_then_raw_project_without_attachments() {
    let mut config = config();
    config.targets = vec![ssh_bare("machine", "builder.example.com")];
    let mut state = no_state();
    state.project_directories.push(HostPaths {
        host: "builder.example.com".into(),
        paths: vec!["/srv/older".into(), "/srv/recent".into()],
    });
    let mut dashboard = dashboard(config, state);

    ready_open_new_wizard(&mut dashboard);
    ready_keys(&mut dashboard, &[Key::Enter, Key::Enter]);
    assert_eq!(new_part(&dashboard).project_directory.text, "/srv/older");
    ready_key(&mut dashboard, Key::Down);
    assert_eq!(new_part(&dashboard).project_directory.text, "/srv/recent");
    while !new_part(&dashboard).project_directory.is_empty() {
        ready_key(&mut dashboard, Key::Backspace);
    }
    type_text(&mut dashboard, "/srv/project");
    assert_eq!(
        ready_key(&mut dashboard, Key::Enter),
        DashboardAction::ValidateProjectDirectory {
            target_template_id: "machine".into(),
            directory: "/srv/project".into(),
        }
    );
    dashboard.apply_project_directory_validation(
        "/srv/project",
        Err("remote project directory /srv/project does not exist or is not a directory".into()),
    );
    assert!(shown_text(&dashboard)
        .contains("Error: remote project directory /srv/project does not exist"));

    paste(&mut dashboard, "/srv/repaired");
    assert_eq!(new_part(&dashboard).project_directory.text, "/srv/repaired");
    assert_eq!(new_part(&dashboard).project_directory_error, None);
    assert_eq!(
        ready_key(&mut dashboard, Key::Enter),
        DashboardAction::ValidateProjectDirectory {
            target_template_id: "machine".into(),
            directory: "/srv/repaired".into(),
        }
    );

    let context = dashboard.path_input_context();
    dashboard.apply_resolved_project_directory(
        &context,
        "/srv/repaired",
        Ok(("/srv/repaired".into(), worktree(true, true))),
    );
    let rendered = shown_text(&dashboard);
    assert!(rendered.contains("Project directory: /srv/repaired"));
    assert!(!rendered.contains("Attached directories"));

    assert_eq!(
        ready_key(&mut dashboard, Key::Enter),
        DashboardAction::CreateSession(created_in(
            "apollo-1",
            "machine",
            "/srv/repaired",
            Some(true)
        ))
    );
}

/// The profile table marks a harness that cannot guard risky actions with the
/// warning triangle and explains the marker once below the table.
#[test]
fn profile_picker_marks_harnesses_without_guardian_approvals() {
    let profile_step = |kind: HarnessKind| {
        let mut config = config();
        config.profiles = vec![profile("profile", kind)];
        config.targets = vec![target("localhost", TargetKind::LocalBare)];
        let mut state = no_state();
        state.project_directories.push(HostPaths {
            host: "local".into(),
            paths: vec!["/home/me/project".into()],
        });
        let mut dashboard = dashboard(config, state);
        ready_open_new_wizard(&mut dashboard);
        shown(&dashboard).join(" ")
    };

    for kind in [HarnessKind::Kimi, HarnessKind::Muse] {
        let marked = profile_step(kind);
        assert!(marked.contains('⚠'), "{kind:?}: {marked}");
        assert!(marked.contains("No guardian approval mode"), "{kind:?}: {marked}");
        assert!(
            marked.contains("do not run on a raw, unsandboxed target"),
            "{kind:?}: {marked}"
        );
    }

    for kind in [HarnessKind::Codex, HarnessKind::Claude, HarnessKind::Grok] {
        let quiet = profile_step(kind);
        assert!(!quiet.contains('⚠'), "{kind:?}: {quiet}");
        assert!(!quiet.contains("No guardian approval mode"), "{kind:?}: {quiet}");
    }
}

/// The profile step reads as a table: the marker, profile, harness, and quota
/// columns start at the same cell on the heading and on every row.
#[test]
fn new_session_profile_step_aligns_its_columns() {
    let mut config = config();
    config.profiles.push(profile("kimi-1", HarnessKind::Kimi));
    let mut dashboard = dashboard(config, no_state());
    ready_open_new_wizard(&mut dashboard);
    let lines = shown(&dashboard);

    let headings = row_with(&lines, "PROFILE");
    let apollo = row_with(&lines, "apollo-1");
    let kimi = row_with(&lines, "kimi-1");
    let profile_column = cell_column(headings, "PROFILE");
    for (line, profile) in [(apollo, "apollo-1"), (kimi, "kimi-1")] {
        assert_eq!(cell_column(line, profile), profile_column);
        assert_eq!(cell_column(line, "refreshing"), cell_column(headings, "WEEKLY"));
    }
    assert_eq!(cell_column(apollo, "Apollo Code"), cell_column(headings, "HARNESS"));
    assert_eq!(cell_column(kimi, "Kimi Code"), cell_column(headings, "HARNESS"));

    // The triangle occupies the marker column, then the table gap, then the
    // profile id; only the harness without guardian approvals carries it.
    assert!(!apollo.contains('⚠'));
    assert!(kimi.contains('⚠'));
    assert_eq!(cell_column(kimi, "⚠") + 1 + COLUMN_GAP, profile_column);
}

/// The profile step reports quota as two percentages remaining, one per
/// window, in their own columns and with no reset countdown.
#[test]
fn new_session_profile_step_shows_weekly_and_five_hour_percentages() {
    let mut dashboard = dashboard_with_session(running_session());
    dashboard.config.profiles[0].weekly = "63%".into();
    dashboard.config.profiles[0].five_hour = "40%".into();
    dashboard.begin_new();
    let lines = shown(&dashboard);

    let heading_index = lines
        .iter()
        .position(|line| line.contains("PROFILE"))
        .unwrap_or_else(|| panic!("missing profile heading in {lines:?}"));
    let headings = &lines[heading_index];
    // Profiles are listed in id order, so the reported one is the first row.
    let apollo = &lines[heading_index + 1];
    assert!(apollo.contains("apollo-1"), "{apollo:?}");

    assert_eq!(cell_column(apollo, "63%"), cell_column(headings, "WEEKLY"), "{apollo:?}");
    assert_eq!(cell_column(apollo, "40%"), cell_column(headings, "5H"), "{apollo:?}");
    assert!(!apollo.contains("09:00 Aug 20"), "{apollo:?}");
    assert!(!apollo.contains("resets"), "{apollo:?}");
}

#[test]
fn raw_localhost_uses_local_project_history_and_warns_for_kimi() {
    let mut config = config();
    config.profiles = vec![profile("kimi", HarnessKind::Kimi)];
    config.targets = vec![target("localhost", TargetKind::LocalBare)];
    let mut state = no_state();
    state.project_directories.push(HostPaths {
        host: "local".into(),
        paths: vec!["/home/me/project".into()],
    });
    let mut dashboard = dashboard(config, state);

    ready_open_new_wizard(&mut dashboard);
    assert!(shown_text(&dashboard).contains("No guardian approval mode"));

    ready_keys(&mut dashboard, &[Key::Enter, Key::Enter]);
    assert_eq!(new_part(&dashboard).project_directory.text, "/home/me/project");
    assert_eq!(
        ready_key(&mut dashboard, Key::Enter),
        DashboardAction::ValidateProjectDirectory {
            target_template_id: "localhost".into(),
            directory: "/home/me/project".into(),
        }
    );
    let context = dashboard.path_input_context();
    dashboard.apply_resolved_project_directory(
        &context,
        "/home/me/project",
        Ok(("/home/me/project".into(), worktree(true, true))),
    );
    assert_eq!(
        ready_key(&mut dashboard, Key::Enter),
        DashboardAction::CreateSession(created_in(
            "kimi",
            "localhost",
            "/home/me/project",
            None
        ))
    );
}

#[test]
fn new_session_bundles_are_ordered_by_latest_session_creation() {
    let mut config = config();
    config.bundles.insert(0, Bundle { id: "alpha-unused".into(), repositories: 1 });
    config.bundles.push(Bundle { id: "zebra-recent".into(), repositories: 1 });

    let mut older = stopped_session();
    older.id = "older".into();
    older.created_at = "2026-08-10T12:00:00Z".into();
    let mut recent = stopped_session();
    recent.id = "recent".into();
    recent.bundle_id = "zebra-recent".into();
    recent.created_at = "2026-08-11T12:00:00Z".into();
    let state = state_with(vec![older, recent]);
    assert_eq!(
        bundle_ids_by_recent_creation(&config, &state),
        vec!["zebra-recent", "hel", "alpha-unused"]
    );

    let mut dashboard = dashboard(config, state);
    ready_open_new_wizard(&mut dashboard);
    ready_keys(&mut dashboard, &[Key::Enter, Key::Enter, Key::Enter]);
    assert_eq!(
        dashboard.take_prerequisite_check(),
        Some(DashboardAction::PreflightCreateSession(created(
            "codex-1",
            "zebra-recent",
            vec![]
        )))
    );
}

#[test]
fn new_session_defaults_to_the_most_recent_configured_choices() {
    let mut config = config();
    config.bundles.push(Bundle { id: "recent-project".into(), repositories: 1 });
    config.targets.push(target("recent-target", TargetKind::LocalPodman));
    let mut recent = stopped_session();
    recent.last_profile = "codex-1".into();
    recent.bundle_id = "recent-project".into();
    recent.target_template_id = "recent-target".into();
    recent.created_at = "2026-08-12T12:00:00Z".into();
    let mut dashboard = dashboard(config, state_with(vec![recent]));

    ready_open_new_wizard(&mut dashboard);
    let order = bundle_ids_by_recent_creation(&dashboard.config, &dashboard.state);
    assert_eq!(dashboard.config.profiles[draft(&dashboard).profile].id, "codex-1");
    assert_eq!(order[new_part(&dashboard).bundle], "recent-project");
    assert_eq!(
        dashboard.config.targets[draft(&dashboard).target].id,
        "recent-target"
    );
}

// --- Attachments ---

/// Walk the new-session wizard as far as an open mount editor with the
/// source already typed and the destination filled in.
fn dashboard_at_mount_editor(source: &str) -> DashboardState {
    let mut dashboard = fresh_dashboard();
    ready_open_new_wizard(&mut dashboard);
    ready_keys(
        &mut dashboard,
        &[Key::Down, Key::Enter, Key::Enter, Key::Enter, Key::BackTab, Key::Enter],
    );
    type_text(&mut dashboard, source);
    // Enter on the source fills the default destination and moves on.
    ready_key(&mut dashboard, Key::Enter);
    dashboard
}

/// Open the focused access combobox, move down `steps` choices, and accept.
fn choose_mount_access(dashboard: &mut DashboardState, steps: usize) {
    ready_key(dashboard, Key::Enter);
    assert!(mounts(dashboard).access_combo.is_some());
    for _ in 0..steps {
        ready_key(dashboard, Key::Down);
    }
    ready_key(dashboard, Key::Enter);
    assert!(mounts(dashboard).access_combo.is_none());
}

#[test]
fn a_new_attachment_starts_read_only_and_the_combobox_picks_its_access() {
    let mut dashboard = dashboard_at_mount_editor("/opt/cache");

    ready_key(&mut dashboard, Key::Tab);
    assert_eq!(draft(&dashboard).form.focused, Some(WizardControl::MountAccess));
    assert_eq!(mounts(&dashboard).access, MountAccess::Ro);
    choose_mount_access(&mut dashboard, 2);
    assert_eq!(mounts(&dashboard).access, MountAccess::Rw);

    // Tab past Cancel and Back to the add button, then commit.
    for _ in 0..3 {
        ready_key(&mut dashboard, Key::Tab);
    }
    assert_eq!(
        ready_key(&mut dashboard, Key::Enter),
        DashboardAction::ValidateMountSource {
            target_template_id: "podman".into(),
            source: "/opt/cache".into(),
        }
    );
    dashboard.apply_mount_source_validation("/opt/cache", Ok(None));

    assert_eq!(
        mounts(&dashboard).mounts,
        vec![mount("/opt/cache", "/mnt/cache", MountAccess::Rw)]
    );
    // The next entry starts read-only again.
    assert_eq!(mounts(&dashboard).access, MountAccess::Ro);
}

#[test]
fn a_source_that_cannot_hold_the_overlay_skips_copy_on_write() {
    let mut dashboard = dashboard_at_mount_editor("/nfs/share");

    // Choose copy-on-write before the host reports the filesystem.
    ready_key(&mut dashboard, Key::Tab);
    choose_mount_access(&mut dashboard, 1);
    assert_eq!(mounts(&dashboard).access, MountAccess::Cow);
    for _ in 0..3 {
        ready_key(&mut dashboard, Key::Tab);
    }
    ready_key(&mut dashboard, Key::Enter);
    dashboard
        .apply_mount_source_validation("/nfs/share", Ok(Some("nfs (network filesystem)".into())));
    assert_eq!(
        mounts(&dashboard).mounts,
        vec![mount("/nfs/share", "/mnt/share", MountAccess::Ro)]
    );

    // Reopen the entry: read-only and read-write remain, copy-on-write does not.
    ready_key(&mut dashboard, Key::Enter);
    assert_eq!(mounts(&dashboard).access, MountAccess::Ro);
    assert_eq!(
        mounts(&dashboard).overlay_unavailable(),
        Some("nfs (network filesystem)")
    );
    ready_key(&mut dashboard, Key::Enter);
    ready_key(&mut dashboard, Key::Tab);
    assert_eq!(draft(&dashboard).form.focused, Some(WizardControl::MountAccess));
    assert_eq!(
        mounts(&dashboard).access_choices(),
        vec![MountAccess::Ro, MountAccess::Rw]
    );
    choose_mount_access(&mut dashboard, 1);
    assert_eq!(mounts(&dashboard).access, MountAccess::Rw);

    // The open list offers only the two usable modes.
    ready_key(&mut dashboard, Key::Enter);
    let rendered = shown_text(&dashboard);
    assert!(rendered.contains("rw · writes reach the host directory"));
    assert!(rendered.contains("ro · read-only"));
    assert!(!rendered.contains("cow ·"));

    // Escape closes only the list; the changed mode is an unsaved edit, which
    // the form is told of so that it can ask before discarding it.
    ready_key(&mut dashboard, Key::Esc);
    assert!(mounts(&dashboard).access_combo.is_none());
    assert_eq!(step(&dashboard), WizardStep::Mounts);
    let plan = draft(&dashboard).prepare_dialog_state();
    assert_eq!(plan.escape, Some(WizardControl::Back));
    assert_eq!(
        plan.attachment_editor,
        Some(("/nfs/share".into(), "/mnt/share".into(), MountAccess::Rw))
    );
}

#[test]
fn new_session_mount_wizard_adds_mount_and_preserves_typed_source() {
    let mut dashboard = fresh_dashboard();
    ready_open_new_wizard(&mut dashboard);
    ready_keys(
        &mut dashboard,
        &[Key::Down, Key::Enter, Key::Enter, Key::Enter, Key::BackTab, Key::Enter],
    );
    assert_eq!(step(&dashboard), WizardStep::Mounts);
    let rendered = shown_text(&dashboard);
    assert!(rendered.contains("Source:"), "{rendered}");
    assert_eq!(focused(&dashboard).control, WizardControl::MountSource);
    assert!(rendered.contains("Add directory"), "{rendered}");
    type_text(&mut dashboard, "/opt/ca");
    let partial = dashboard.path_input_context();
    type_text(&mut dashboard, "che");
    // Completions of what was typed before are for nothing now.
    assert_eq!(dashboard.apply_path_completions(&partial), None);
    ready_key(&mut dashboard, Key::Enter);
    assert_eq!(
        ready_key(&mut dashboard, Key::Enter),
        DashboardAction::ValidateMountSource {
            target_template_id: "podman".into(),
            source: "/opt/cache".into(),
        }
    );
    dashboard.apply_mount_source_validation("/opt/cache", Ok(None));

    let attached = || vec![mount("/opt/cache", "/mnt/cache", MountAccess::Ro)];
    assert_eq!(
        dashboard.take_prerequisite_check(),
        Some(DashboardAction::ValidateSessionMounts {
            target_template_id: "podman".into(),
            mounts: attached(),
            launch: Launch::Create(created("codex-1", "hel", attached())),
        })
    );
    assert_eq!(mounts(&dashboard).mounts.len(), 1);
    dashboard.finish_session_mount_preflight();
    assert!(closed(&dashboard));
}

#[test]
fn failed_submit_preflight_reopens_the_invalid_mount() {
    let mut dashboard = dashboard_at_mount_editor("/opt/cache");
    ready_key(&mut dashboard, Key::Enter);
    dashboard.apply_mount_source_validation("/opt/cache", Ok(None));
    assert!(matches!(
        dashboard.take_prerequisite_check(),
        Some(DashboardAction::ValidateSessionMounts { .. })
    ));

    dashboard.apply_session_mount_preflight_failure(
        "/opt/cache",
        "source path /opt/cache does not exist or is not a directory".into(),
    );

    assert_eq!(step(&dashboard), WizardStep::Mounts);
    assert_eq!(mounts(&dashboard).source.text, "/opt/cache");
    assert_eq!(
        mounts(&dashboard).error.as_deref(),
        Some("source path /opt/cache does not exist or is not a directory")
    );

    // The failed check is over, so correcting the directory starts a new one
    // instead of leaving the review waiting.
    dashboard.apply_mount_source_validation("/opt/cache", Ok(None));
    assert!(matches!(
        dashboard.take_prerequisite_check(),
        Some(DashboardAction::ValidateSessionMounts { .. })
    ));
}

#[test]
fn failed_source_validation_does_not_add_new_or_resume_mounts() {
    let fault = "source path /missing does not exist or is not a directory";
    let mut dashboard = fresh_dashboard();
    ready_open_new_wizard(&mut dashboard);
    ready_keys(
        &mut dashboard,
        &[Key::Enter, Key::Enter, Key::Enter, Key::BackTab, Key::Enter],
    );
    type_text(&mut dashboard, "/missing");
    ready_key(&mut dashboard, Key::Enter);
    assert!(matches!(
        ready_key(&mut dashboard, Key::Enter),
        DashboardAction::ValidateMountSource { .. }
    ));
    dashboard.apply_mount_source_validation("/missing", Err(fault.into()));
    assert!(matches!(draft(&dashboard).purpose, Purpose::New(_)));
    assert!(mounts(&dashboard).mounts.is_empty());
    assert_eq!(mounts(&dashboard).source.text, "/missing");
    assert_eq!(draft(&dashboard).form.focused, Some(WizardControl::MountSource));
    assert_eq!(mounts(&dashboard).error.as_deref(), Some(fault));

    let mut dashboard = dashboard_with_session(stopped_session());
    open_resume_wizard(&mut dashboard);
    ready_keys(&mut dashboard, &[Key::Enter, Key::Enter, Key::BackTab, Key::Enter]);
    type_text(&mut dashboard, "/missing");
    ready_key(&mut dashboard, Key::Enter);
    assert!(matches!(
        ready_key(&mut dashboard, Key::Enter),
        DashboardAction::ValidateMountSource { .. }
    ));
    dashboard.apply_mount_source_validation("/missing", Err(fault.into()));
    assert!(matches!(draft(&dashboard).purpose, Purpose::Resume(_)));
    assert!(mounts(&dashboard).mounts.is_empty());
    assert_eq!(mounts(&dashboard).source.text, "/missing");
    assert_eq!(draft(&dashboard).form.focused, Some(WizardControl::MountSource));
}

#[test]
fn home_mount_apply_uses_resolved_source_and_ignores_changed_destination() {
    let mut dashboard = dashboard_at_mount_editor("~/cache");
    assert!(mounts(&dashboard).validate_mount_entry(None, None).is_none());
    let context = dashboard.path_input_context();
    draft_mut(&mut dashboard).mounts.destination.set_value("/mnt/newer");
    dashboard.apply_resolved_mount_source(&context, "~/cache", Ok(("/remote/cache".into(), None)));
    assert!(mounts(&dashboard).mounts.is_empty());
    let context = dashboard.path_input_context();
    dashboard.apply_resolved_mount_source(&context, "~/cache", Ok(("/remote/cache".into(), None)));
    assert_eq!(mounts(&dashboard).mounts[0].source, "/remote/cache");
    assert_eq!(mounts(&dashboard).mounts[0].destination, "/mnt/newer");
}

#[test]
fn container_destination_rejects_home_shorthand() {
    let mut dashboard = dashboard_at_mount_editor("~/cache");
    draft_mut(&mut dashboard).mounts.destination.set_value("~/cache");
    let fault = "~/cache is not an absolute container path".to_string();
    assert!(mounts(&dashboard)
        .validate_mount_entry(None, Some(fault))
        .unwrap()
        .contains("container path"));
}

#[test]
fn aws_resource_destinations_default_under_the_ssh_users_home() {
    assert_eq!(
        default_resource_destination(&template(TargetKind::AwsEc2), "/mnt/cache", &vec![]),
        "/home/ubuntu/mj-resources/cache"
    );
}

// --- Resuming and moving ---

fn resumed(workspace: &str, profile: &str, mounts: Vec<AdditionalMount>) -> ResumeSession {
    ResumeSession {
        workspace_id: workspace.into(),
        session_id: "session-1".into(),
        profile_id: profile.into(),
        target_template_id: "podman".into(),
        additional_mounts: mounts,
        resource_allocation: baseline(),
        discard_queue: false,
    }
}

#[test]
fn resume_can_convert_to_another_harness() {
    let mut dashboard = dashboard_with_session(stopped_session());
    dashboard.active_workspace_id = Some("workspace-origin".into());
    dashboard.capacity_details = vec![CapacityDetail { target_ids: vec!["podman".into()], usage: None }];
    open_resume_wizard(&mut dashboard);
    ready_keys(&mut dashboard, &[Key::Up, Key::Enter, Key::Enter]);
    assert_eq!(
        ready_key(&mut dashboard, Key::Enter),
        DashboardAction::PreflightResumeRepositories(resumed(
            "workspace-origin",
            "apollo-1",
            vec![]
        ))
    );
    assert!(matches!(draft(&dashboard).purpose, Purpose::Resume(_)));
    dashboard.finish_session_mount_preflight();
    assert!(closed(&dashboard));
}

#[test]
fn resume_keeps_the_workspace_where_its_dialog_was_opened() {
    let mut dashboard = dashboard_with_session(stopped_session());
    open_resume_wizard(&mut dashboard);
    dashboard.active_workspace_id = Some("workspace-b".into());

    ready_keys(&mut dashboard, &[Key::Enter, Key::Enter]);
    let DashboardAction::PreflightResumeRepositories(launch) = ready_key(&mut dashboard, Key::Enter)
    else {
        panic!("resume should retain its captured workspace");
    };
    assert_eq!(launch.workspace_id, WORKSPACE);
}

#[test]
fn wizard_back_activation_preserves_the_draft_and_cancel_closes_it() {
    let mut dashboard = fresh_dashboard();
    ready_open_new_wizard(&mut dashboard);
    ready_key(&mut dashboard, Key::Enter);

    // Target step: Tab reaches Cancel, then Back. Activating Back returns to
    // Profile while keeping the wizard open with its draft state.
    ready_keys(&mut dashboard, &[Key::Tab, Key::Tab]);
    assert_eq!(ready_key(&mut dashboard, Key::Enter), DashboardAction::Nothing);
    assert!(matches!(draft(&dashboard).purpose, Purpose::New(_)));
    assert_eq!(step(&dashboard), WizardStep::Profile);

    // The same explicit button path then closes the modal.
    ready_key(&mut dashboard, Key::Tab);
    assert_eq!(ready_key(&mut dashboard, Key::Enter), DashboardAction::Nothing);
    assert!(closed(&dashboard));
}

#[test]
fn resume_back_activation_preserves_the_draft_and_cancel_closes_it() {
    let mut dashboard = dashboard_with_session(stopped_session());
    open_resume_wizard(&mut dashboard);
    ready_key(&mut dashboard, Key::Enter);

    ready_keys(&mut dashboard, &[Key::Tab, Key::Tab]);
    assert_eq!(ready_key(&mut dashboard, Key::Enter), DashboardAction::Nothing);
    assert!(matches!(draft(&dashboard).purpose, Purpose::Resume(_)));
    assert_eq!(step(&dashboard), WizardStep::Profile);

    ready_key(&mut dashboard, Key::Tab);
    assert_eq!(ready_key(&mut dashboard, Key::Enter), DashboardAction::Nothing);
    assert!(closed(&dashboard));
}

#[test]
fn resume_defaults_to_the_session_profile() {
    let mut dashboard = dashboard_with_session(stopped_session());
    open_resume_wizard(&mut dashboard);

    let profiles = dashboard.compatible_profiles(&resume_part(&dashboard).session_id);
    assert_eq!(profiles[draft(&dashboard).profile].id, "codex-1");
}

#[test]
fn resume_defaults_to_the_previously_used_target() {
    let mut dashboard = dashboard_with_session(stopped_session());
    dashboard
        .config
        .targets
        .insert(0, target("alternate", TargetKind::LocalPodman));

    open_resume_wizard(&mut dashboard);

    assert!(matches!(draft(&dashboard).purpose, Purpose::Resume(_)));
    assert_eq!(dashboard.config.targets[draft(&dashboard).target].id, "podman");
}

fn dashboard_with_unfit_target() -> DashboardState {
    let mut session = stopped_session();
    session.fits.push(bare_unfit());
    let mut dashboard = dashboard_with_session(session);
    dashboard.config.targets.insert(0, target("bare", TargetKind::LocalBare));
    dashboard
}

#[test]
fn resume_refuses_a_target_the_session_cannot_use_and_says_why() {
    let mut dashboard = dashboard_with_unfit_target();

    open_resume_wizard(&mut dashboard);
    ready_keys(&mut dashboard, &[Key::Enter, Key::Up]);
    assert_eq!(dashboard.config.targets[draft(&dashboard).target].id, "bare");

    assert_eq!(ready_key(&mut dashboard, Key::Enter), DashboardAction::Nothing);

    assert_eq!(step(&dashboard), WizardStep::Target);
    let text = notice(&dashboard).unwrap_or_default();
    assert!(text.contains("came from GitHub"), "{text}");
}

#[test]
fn resume_marks_an_unusable_target_row_as_disabled() {
    let mut dashboard = dashboard_with_unfit_target();
    open_resume_wizard(&mut dashboard);
    ready_key(&mut dashboard, Key::Enter);

    let rendered = shown_text(&dashboard);
    assert!(rendered.contains("came from GitHub"), "{rendered}");
    assert_eq!(dashboard.enabled_target_rows(draft(&dashboard)), vec![false, true]);
}

fn move_request(action: DashboardAction) -> Option<u64> {
    match action {
        DashboardAction::MoveSession(MoveSession { preparation_request_id, .. }) => {
            preparation_request_id
        }
        other => panic!("expected a move, got {other:?}"),
    }
}

fn open_move_review(dashboard: &mut DashboardState) -> u64 {
    dashboard.focus = Focus::Sessions;
    assert_eq!(dashboard.begin_move(), DashboardAction::Nothing);
    assert_eq!(
        ready_key(dashboard, Key::Enter),
        DashboardAction::Nothing,
        "profile selection advances to the move target"
    );
    let request_id = move_request(ready_key(dashboard, Key::Enter))
        .expect("entering move review should request preparation");
    assert!(resume_part(dashboard).preparing);
    assert_eq!(step(dashboard), WizardStep::Review);
    request_id
}

fn move_preparation() -> MovePreparation {
    MovePreparation {
        selection: MoveSelection {
            session_id: "session-1".into(),
            profile_id: Some("codex-1".into()),
            target_template_id: Some("podman".into()),
            additional_mounts: Some(Vec::new()),
            resource_allocation: None,
            clear_resource_allocation: false,
        },
        active: true,
        in_place: false,
        source_unavailable: false,
        queued_commands: Vec::new(),
        conversion: None,
    }
}

fn conversion_preview() -> ConversionPreview {
    ConversionPreview {
        summary: "Clone https://github.com/example/repo.git (default branch main) into \
                  /workspace/repo on branch mj/session-1"
            .into(),
        warnings: vec![
            "1 staged, 1 unstaged, and 3 untracked files (2.5 MB)".into(),
            "/work/repo stays on this machine and will no longer track this session".into(),
        ],
    }
}

fn normal(text: &str) -> String {
    let words: Vec<&str> = text.split_whitespace().collect();
    words.join(" ")
}

/// The move review is the last thing a person reads before a local checkout
/// leaves this machine, so it has to name the dirty work that travels and the
/// checkout that stays.
#[test]
fn move_review_reports_what_a_local_checkout_conversion_copies_and_leaves_behind() {
    let mut dashboard = dashboard_with_session(running_session());
    let request_id = open_move_review(&mut dashboard);
    let mut preparation = move_preparation();
    preparation.conversion = Some(conversion_preview());
    assert!(dashboard.apply_move_preparation(request_id, preparation));

    let rendered = normal(&shown(&dashboard).join(" "));
    assert!(
        rendered.contains(
            "Clone https://github.com/example/repo.git (default branch main) into /workspace/repo on branch mj/session-1"
        ),
        "{rendered}"
    );
    assert!(
        rendered.contains("1 staged, 1 unstaged, and 3 untracked files (2.5 MB)"),
        "{rendered}"
    );
    assert!(
        rendered.contains("/work/repo stays on this machine and will no longer track this session"),
        "{rendered}"
    );
}

/// A profile-only move on an unchanged target keeps the container, the
/// workspace, and the untracked files, so the review must not promise a fresh
/// environment. The fresh-environment wording still has to appear when the
/// environment really is rebuilt.
#[test]
fn move_review_says_an_in_place_move_keeps_the_environment() {
    for in_place in [false, true] {
        let mut dashboard = dashboard_with_session(running_session());
        let request_id = open_move_review(&mut dashboard);
        let mut preparation = move_preparation();
        preparation.in_place = in_place;
        assert!(dashboard.apply_move_preparation(request_id, preparation));

        let rendered = normal(&shown(&dashboard).join(" "));
        if in_place {
            assert!(
                rendered.contains(
                    "Only the harness and profile are replaced; the environment and workspace are kept."
                ),
                "{rendered}"
            );
            assert!(
                !rendered.contains("fresh environment"),
                "an in-place move must not promise a fresh environment: {rendered}"
            );
        } else {
            assert!(
                rendered.contains(
                    "Active work will be interrupted; the session is restored into a fresh environment."
                ),
                "{rendered}"
            );
            assert!(
                !rendered.contains("Only the harness and profile are replaced"),
                "{rendered}"
            );
        }
    }
}

#[test]
fn resume_dialog_attaches_an_additional_resource() {
    let mut dashboard = dashboard_with_session(stopped_session());
    open_resume_wizard(&mut dashboard);
    ready_keys(&mut dashboard, &[Key::Enter, Key::Enter, Key::BackTab, Key::Enter]);
    type_text(&mut dashboard, "/opt/cache");
    ready_key(&mut dashboard, Key::Enter);
    assert_eq!(
        ready_key(&mut dashboard, Key::Enter),
        DashboardAction::ValidateMountSource {
            target_template_id: "podman".into(),
            source: "/opt/cache".into(),
        }
    );
    dashboard.apply_mount_source_validation("/opt/cache", Ok(None));
    ready_key(&mut dashboard, Key::BackTab);

    let attached = || vec![mount("/opt/cache", "/mnt/cache", MountAccess::Ro)];
    assert_eq!(
        ready_key(&mut dashboard, Key::Enter),
        DashboardAction::ValidateSessionMounts {
            target_template_id: "podman".into(),
            mounts: attached(),
            launch: Launch::PreflightResume(resumed(WORKSPACE, "codex-1", attached())),
        }
    );
}

#[test]
fn resume_dialog_can_remove_a_previous_resource() {
    let mut session = stopped_session();
    session.additional_mounts = vec![mount("/opt/old-cache", "/mnt/old-cache", MountAccess::Cow)];
    let mut dashboard = dashboard_with_session(session);
    open_resume_wizard(&mut dashboard);
    ready_keys(&mut dashboard, &[Key::Enter, Key::Enter, Key::Tab, Key::Delete]);

    assert!(matches!(draft(&dashboard).purpose, Purpose::Resume(_)));
    assert!(mounts(&dashboard).mounts.is_empty());
}

#[test]
fn resume_review_edits_an_existing_attached_directory_in_place() {
    let mut session = stopped_session();
    session.additional_mounts = vec![mount("/opt/cache", "/mnt/cache", MountAccess::Cow)];
    let mut dashboard = dashboard_with_session(session);
    open_resume_wizard(&mut dashboard);
    ready_keys(&mut dashboard, &[Key::Enter, Key::Enter, Key::Tab, Key::Enter]);

    assert_eq!(mounts(&dashboard).source.text, "/opt/cache");
    assert_eq!(mounts(&dashboard).destination.text, "/mnt/cache");
    assert_eq!(mounts(&dashboard).editing_mount, Some(0));

    ready_key(&mut dashboard, Key::Enter);
    assert_eq!(
        ready_key(&mut dashboard, Key::Enter),
        DashboardAction::ValidateMountSource {
            target_template_id: "podman".into(),
            source: "/opt/cache".into(),
        }
    );
    dashboard.apply_mount_source_validation("/opt/cache", Ok(None));
    assert_eq!(step(&dashboard), WizardStep::Review);
    assert_eq!(mounts(&dashboard).mounts.len(), 1);
}

#[test]
fn resume_profile_step_marks_cross_harness_profiles_as_lossy() {
    let mut dashboard = dashboard_with_session(stopped_session());
    open_resume_wizard(&mut dashboard);
    let rendered = shown_text(&dashboard);
    assert!(rendered.contains("(lossy: text-only transcript)"));
    assert!(rendered.contains("Resume · 1/3"));
    assert!(rendered.contains("Lossy: text only; tool calls + reasoning dropped."));

    ready_key(&mut dashboard, Key::Enter);
    assert!(shown_text(&dashboard).contains("Resume · 2/3"));

    ready_key(&mut dashboard, Key::Enter);
    assert!(shown_text(&dashboard).contains("Resume · 3/3"));
}

#[test]
fn restoring_an_archive_names_the_step_and_the_archived_session() {
    let mut dashboard = dashboard_with_session(stopped_session());
    let action = dashboard.begin_archive_restore("wiki-1".into(), "Pomegranate work".into());
    assert_eq!(action, DashboardAction::Nothing);

    let rendered = shown_text(&dashboard);
    assert!(rendered.contains("Restore · 1/3"), "{rendered}");
    assert!(rendered.contains("Pomegranate work"), "{rendered}");
    assert!(!rendered.contains("Resume · 1/3"));

    ready_key(&mut dashboard, Key::Enter);
    let rendered = shown_text(&dashboard);
    assert!(rendered.contains("Restore · 2/3"), "{rendered}");
    assert!(rendered.contains("Pomegranate work"), "{rendered}");

    ready_key(&mut dashboard, Key::Enter);
    let rendered = shown_text(&dashboard);
    assert!(rendered.contains("Restore · 3/3"), "{rendered}");
    assert!(rendered.contains("Pomegranate work"), "{rendered}");
}

#[test]
fn resume_profile_step_aligns_its_columns_and_explains_the_marker() {
    let mut session = stopped_session();
    session.compatible_profiles.push(choice("kimi-1", HarnessKind::Kimi));
    let mut dashboard = dashboard_with_session(session);
    dashboard.config.profiles.push(profile("kimi-1", HarnessKind::Kimi));
    open_resume_wizard(&mut dashboard);
    let lines = shown(&dashboard);

    // The session runs Codex, so the Apollo and Kimi rows carry the note that
    // says the cross-harness resume drops everything but text.
    let headings = row_with(&lines, "PROFILE");
    let (profile_column, harness_column, weekly_column) = (
        cell_column(headings, "PROFILE"),
        cell_column(headings, "HARNESS"),
        cell_column(headings, "WEEKLY"),
    );
    let mut note_column = None;
    for (id, harness, lossy) in [
        ("apollo-1", "Apollo Code", true),
        ("codex-1", "Codex", false),
        ("kimi-1", "Kimi Code", true),
    ] {
        let line = row_with(&lines, id);
        assert_eq!(cell_column(line, id), profile_column, "{id}: {line}");
        assert_eq!(cell_column(line, harness), harness_column, "{id}: {line}");
        assert_eq!(cell_column(line, "refreshing"), weekly_column, "{id}: {line}");
        if lossy {
            let column = cell_column(line, "(lossy: text-only transcript)");
            assert!(column > weekly_column, "{id}: {line}");
            assert_eq!(column, *note_column.get_or_insert(column), "{id}: {line}");
        } else {
            assert!(!line.contains("(lossy"), "{id}: {line}");
        }
    }

    // Only the Kimi row lacks guardian approvals, and the row below the table
    // explains the marker it carries.
    assert!(row_with(&lines, "kimi-1").contains('⚠'));
    assert!(!row_with(&lines, "apollo-1").contains('⚠'));
    assert!(!row_with(&lines, "codex-1").contains('⚠'));
    assert!(
        lines
            .iter()
            .any(|line| line.contains("No guardian approval mode; do not run on a raw")),
        "{lines:?}"
    );
}

#[test]
fn move_wizard_labels_each_step_as_move() {
    let mut dashboard = dashboard_with_session(running_session());
    dashboard.focus = Focus::Sessions;
    assert_eq!(dashboard.begin_move(), DashboardAction::Nothing);

    let rendered = shown_text(&dashboard);
    assert!(rendered.contains("Move · 1/3"));
    assert!(!rendered.contains("Resume · 1/3"));

    ready_key(&mut dashboard, Key::Enter);
    let rendered = shown_text(&dashboard);
    assert!(rendered.contains("Move · 2/3"));
    assert!(!rendered.contains("Resume · 2/3"));

    let preparation_request = ready_key(&mut dashboard, Key::Enter);
    assert!(move_request(preparation_request).is_some());
    let rendered = shown_text(&dashboard);
    assert!(rendered.contains("Move · 3/3"));
    assert!(!rendered.contains("Resume · 3/3"));
    assert!(rendered.contains("Checking move destination"));
}

#[test]
fn taking_move_preparation_closes_only_a_valid_confirmation_handoff() {
    let mut dashboard = dashboard_with_session(running_session());
    let request_id = open_move_review(&mut dashboard);

    // A submission that arrives before preparation is ready must leave the
    // wizard open so the user can wait or reprepare the move.
    assert_eq!(ready_key(&mut dashboard, Key::Enter), DashboardAction::Nothing);
    assert!(dashboard.take_move_preparation("session-1").is_none());
    assert!(matches!(draft(&dashboard).purpose, Purpose::Resume(_)));

    assert!(dashboard.apply_move_preparation(request_id, move_preparation()));

    // A stale action for another session must not consume the confirmation.
    assert!(dashboard.take_move_preparation("other-session").is_none());
    assert_eq!(resume_part(&dashboard).preparation, Some(move_preparation()));

    // Once ready, one click emits execution directly. The controller then
    // takes the retained preparation as the lifecycle handoff.
    assert_eq!(move_request(ready_key(&mut dashboard, Key::Enter)), None);
    assert_eq!(
        dashboard.take_move_preparation("session-1"),
        Some(move_preparation())
    );
    assert!(closed(&dashboard));

    // State/lifecycle replies arriving after handoff must not resurrect the
    // confirmation modal or reapply the consumed preparation.
    let state = dashboard.state.duplicate();
    dashboard.set_state(state);
    assert!(!dashboard.apply_move_preparation(request_id, move_preparation()));
    assert!(closed(&dashboard));
}

#[test]
fn failed_move_preparation_stays_visible_and_retry_requests_preparation() {
    let mut dashboard = dashboard_with_session(running_session());
    let request_id = open_move_review(&mut dashboard);
    assert!(dashboard.set_move_preparation_failed(
        "session-1",
        request_id,
        "destination is unavailable".into(),
    ));

    let part = resume_part(&dashboard);
    assert!(!part.preparing);
    assert!(part.preparation.is_none());
    assert_eq!(
        part.preparation_error.as_deref(),
        Some("destination is unavailable")
    );

    let rendered = shown_text(&dashboard);
    assert!(rendered.contains("Move preparation failed: destination is unavailable"));
    assert!(rendered.contains("Retry"));

    let retry_id = move_request(ready_key(&mut dashboard, Key::Enter))
        .expect("retry should request preparation");
    assert_ne!(retry_id, request_id);
    assert!(resume_part(&dashboard).preparing);
    assert!(resume_part(&dashboard).preparation_error.is_none());

    assert!(!dashboard.apply_move_preparation(request_id, move_preparation()));
    assert!(dashboard.apply_move_preparation(retry_id, move_preparation()));
}

#[test]
fn stale_move_preparation_is_ignored_after_cancel_and_reopen() {
    let mut dashboard = dashboard_with_session(running_session());
    let old_request_id = open_move_review(&mut dashboard);

    ready_key(&mut dashboard, Key::Esc);
    assert!(closed(&dashboard));
    assert!(!dashboard.apply_move_preparation(old_request_id, move_preparation()));
    assert!(!dashboard.set_move_preparation_failed(
        "session-1",
        old_request_id,
        "late failure".into(),
    ));

    let new_request_id = open_move_review(&mut dashboard);
    assert_ne!(new_request_id, old_request_id);
    assert!(!dashboard.apply_move_preparation(old_request_id, move_preparation()));
    assert!(resume_part(&dashboard).preparing);
}

#[test]
fn stale_move_preparation_is_ignored_after_back_and_reentering_review() {
    let mut dashboard = dashboard_with_session(running_session());
    let old_request_id = open_move_review(&mut dashboard);

    // Submit is disabled while loading; Tab reaches Back from the form's
    // fallback focus. Returning to the target picker invalidates the request.
    ready_key(&mut dashboard, Key::Tab);
    assert_eq!(draft(&dashboard).form.focused, Some(WizardControl::Back));
    assert_eq!(ready_key(&mut dashboard, Key::Enter), DashboardAction::Nothing);
    assert_eq!(step(&dashboard), WizardStep::Target);
    assert!(!dashboard.apply_move_preparation(old_request_id, move_preparation()));

    let new_request_id = move_request(ready_key(&mut dashboard, Key::Enter))
        .expect("reentering review should request preparation");
    assert_ne!(new_request_id, old_request_id);
    assert!(resume_part(&dashboard).preparing);
}

#[test]
fn queue_choice_keeps_a_ready_move_confirmation_when_only_prepared_queue_exists() {
    let prepared = || {
        let mut preparation = move_preparation();
        preparation.queued_commands = vec![QueuedCommand {
            kind: QueuedCommandKind::Prompt,
            text: String::new(),
        }];
        preparation
    };
    let mut dashboard = dashboard_with_session(running_session());
    let request_id = open_move_review(&mut dashboard);
    assert!(dashboard.apply_move_preparation(request_id, prepared()));

    // There is no queue in session_details; the prepared queue still owns the
    // review checkbox and changing its disposition must preserve readiness.
    assert_eq!(ready_key(&mut dashboard, Key::Char('q')), DashboardAction::Nothing);
    assert!(!resume_part(&dashboard).discard_queue);
    assert_eq!(resume_part(&dashboard).preparation, Some(prepared()));

    let DashboardAction::MoveSession(launch) = ready_key(&mut dashboard, Key::Enter) else {
        panic!("a ready move is launched");
    };
    assert_eq!(launch.preparation_request_id, None);
    assert_eq!(launch.queue, QueueDisposition::Start);
}

#[test]
fn removing_a_move_attachment_invalidates_and_reprepares_the_review() {
    let mut session = running_session();
    session.additional_mounts = vec![mount("/opt/cache", "/mnt/cache", MountAccess::Cow)];
    let mut dashboard = dashboard_with_session(session);
    let old_request_id = open_move_review(&mut dashboard);
    assert!(dashboard.apply_move_preparation(old_request_id, move_preparation()));

    // Submit wraps to the attachment list; removing the selected directory
    // changes the move selection and immediately starts a fresh preparation.
    ready_key(&mut dashboard, Key::Tab);
    let new_request_id = move_request(ready_key(&mut dashboard, Key::Delete))
        .expect("removing an attachment should reprepare");
    assert_ne!(new_request_id, old_request_id);
    assert!(mounts(&dashboard).mounts.is_empty());
    assert!(resume_part(&dashboard).preparation.is_none());
    assert!(resume_part(&dashboard).preparing);
}

#[test]
fn raw_resume_review_names_the_exact_reused_project_directory() {
    let mut session = stopped_session();
    session.target_template_id = "localhost".into();
    session.project_directory = Some("/mnt/optane/bifrost-fird".into());
    session.bundle_id = "remote-project-a66373eef659f856".into();
    session.fits.push(TargetFit {
        target_id: "localhost".into(),
        fit: Compatibility::Usable(ResumePlan::InPlace),
    });
    let mut config = config();
    config.targets.insert(0, target("localhost", TargetKind::LocalBare));
    let mut dashboard = dashboard(config, state_with(vec![session]));
    open_resume_wizard(&mut dashboard);
    ready_keys(&mut dashboard, &[Key::Enter, Key::Enter]);

    let rendered = shown_text(&dashboard);
    assert!(
        rendered.contains("Project directory: /mnt/optane/bifrost-fird (reused)"),
        "{rendered}"
    );
    assert!(!rendered.contains("Project: remote-project-a66373eef659f856"));
}

#[test]
fn resume_target_next_mouse_release_advances_to_review() {
    let mut session = stopped_session();
    session.target_template_id = "localhost".into();
    session.project_directory = Some("/work/project".into());
    let mut config = config();
    config.targets = vec![target("localhost", TargetKind::LocalBare)];
    let mut dashboard = dashboard(config, state_with(vec![session]));
    open_resume_wizard(&mut dashboard);
    ready_key(&mut dashboard, Key::Enter);
    assert!(shown_text(&dashboard).contains("  Next"));
    act(&mut dashboard, Interaction::Activate(WizardControl::Next));
    assert!(matches!(draft(&dashboard).purpose, Purpose::Resume(_)));
    assert_eq!(step(&dashboard), WizardStep::Review);
}

// --- Sizes ---

#[test]
fn resume_target_step_minus_halves_container_size_through_the_key_path() {
    let mut config = config();
    // Mirror the real config: an EC2 target that sorts before podman.
    config.targets.insert(0, target("aws-runson", TargetKind::AwsEc2));
    let mut dashboard = dashboard(config, state_with(vec![stopped_session()]));

    dashboard.begin_resume_for("session-1");
    assert!(matches!(draft(&dashboard).purpose, Purpose::Resume(_)));
    assert_eq!(step(&dashboard), WizardStep::Profile);

    // 1/3 -> 2/3 target step; podman is the session's target.
    ready_key(&mut dashboard, Key::Enter);
    assert_eq!(step(&dashboard), WizardStep::Target);
    assert_eq!(dashboard.config.targets[draft(&dashboard).target].id, "podman");
    assert_eq!(draft(&dashboard).resource_allocation, container(8, 32 * GIB));

    ready_key(&mut dashboard, Key::Char('-'));
    assert_eq!(draft(&dashboard).resource_allocation, container(4, 16 * GIB));
}

#[test]
fn new_target_step_minus_halves_container_size_when_focus_is_off_content() {
    let mut dashboard = fresh_dashboard();
    ready_open_new_wizard(&mut dashboard);
    assert_eq!(step(&dashboard), WizardStep::Profile);

    ready_key(&mut dashboard, Key::Enter);
    assert_eq!(step(&dashboard), WizardStep::Target);
    assert_eq!(draft(&dashboard).resource_allocation, container(8, 32 * GIB));

    ready_key(&mut dashboard, Key::Tab);
    assert_ne!(draft(&dashboard).form.focused, Some(WizardControl::TargetList));

    ready_key(&mut dashboard, Key::Char('-'));
    assert_eq!(draft(&dashboard).resource_allocation, container(4, 16 * GIB));
}

#[test]
fn new_session_defaults_to_the_latest_size_on_its_host_and_clamps_to_capacity() {
    let mut state = no_state();
    state.container_sizes.push(HostSize {
        host: "local".into(),
        cpus: 24,
        memory_bytes: 96 * GIB,
    });
    let mut dashboard = dashboard(config(), state);
    dashboard.capacity_details = vec![CapacityDetail {
        target_ids: vec!["podman".into()],
        usage: Some(HostUsage { logical_cores: 12, memory_total_bytes: 48 * GIB }),
    }];

    ready_open_new_wizard(&mut dashboard);
    ready_key(&mut dashboard, Key::Enter);
    assert_eq!(draft(&dashboard).resource_allocation, container(12, 48 * GIB));
}

#[test]
fn resume_keeps_the_sessions_size_instead_of_the_hosts_latest_size() {
    let mut session = stopped_session();
    session.resource_allocation = container(4, 16 * GIB);
    let mut state = state_with(vec![session]);
    state.container_sizes.push(HostSize {
        host: "local".into(),
        cpus: 12,
        memory_bytes: 48 * GIB,
    });
    let mut dashboard = dashboard(config(), state);

    dashboard.begin_resume_for("session-1");
    ready_key(&mut dashboard, Key::Enter);
    assert_eq!(draft(&dashboard).resource_allocation, container(4, 16 * GIB));
}

#[test]
fn container_size_controls_clamp_independently_halves_current_ratio_and_reset() {
    let mut allocation = container(8, 32 * GIB);
    let limits = Some((64, 64 * GIB));

    adjust_resources(&mut allocation, None, limits, '+');
    adjust_resources(&mut allocation, None, limits, '+');
    assert_eq!(allocation, container(32, 64 * GIB));

    adjust_resources(&mut allocation, None, limits, '-');
    assert_eq!(allocation, container(16, 32 * GIB));
    adjust_resources(&mut allocation, None, limits, 'r');
    assert_eq!(allocation, container(8, 32 * GIB));

    adjust_resources(&mut allocation, None, limits, 'c');
    assert_eq!(allocation, container(16, 32 * GIB));
    adjust_resources(&mut allocation, None, limits, 'm');
    assert_eq!(allocation, container(16, 48 * GIB));
}

#[test]
fn container_minus_clamps_cpu_at_floor_and_keeps_halving_memory() {
    let mut allocation = container(2, 32 * GIB);
    let limits = Some((64, 64 * GIB));

    adjust_resources(&mut allocation, None, limits, '-');
    assert_eq!(allocation, container(2, 16 * GIB));
    adjust_resources(&mut allocation, None, limits, '-');
    assert_eq!(allocation, container(2, 8 * GIB));
}

#[test]
fn container_minus_clamps_memory_at_floor_and_keeps_halving_cpu() {
    let mut allocation = container(16, 8 * GIB);
    let limits = Some((64, 64 * GIB));

    adjust_resources(&mut allocation, None, limits, '-');
    assert_eq!(allocation, container(8, 8 * GIB));
    adjust_resources(&mut allocation, None, limits, '-');
    assert_eq!(allocation, container(4, 8 * GIB));
}

#[test]
fn container_minus_is_a_no_op_once_both_are_at_their_floors() {
    let mut allocation = container(2, 8 * GIB);
    adjust_resources(&mut allocation, None, Some((64, 64 * GIB)), '-');
    assert_eq!(allocation, container(2, 8 * GIB));
}

#[test]
fn container_minus_leaves_values_already_below_floor_unchanged() {
    let mut allocation = container(1, 4 * GIB);
    adjust_resources(&mut allocation, None, Some((64, 64 * GIB)), '-');
    assert_eq!(allocation, container(1, 4 * GIB));
}

#[test]
fn container_c_clamps_at_cpu_ceiling() {
    let mut allocation = container(60, 32 * GIB);
    adjust_resources(&mut allocation, None, Some((64, 64 * GIB)), 'c');
    assert_eq!(allocation, container(64, 32 * GIB));
}

#[test]
fn container_m_clamps_at_memory_ceiling() {
    let mut allocation = container(8, 60 * GIB);
    adjust_resources(&mut allocation, None, Some((64, 64 * GIB)), 'm');
    assert_eq!(allocation, container(8, 64 * GIB));
}

#[test]
fn ec2_size_controls_use_exact_doubling_steps() {
    let options: Vec<ResourceAllocation> = [8_u64, 16, 32]
        .into_iter()
        .map(|vcpus| ResourceAllocation::AwsEc2 {
            instance_type: format!("family.{vcpus}"),
            vcpus,
            memory_bytes: vcpus * 4 * GIB,
        })
        .collect();
    let mut allocation = Some(options[0].duplicate());
    adjust_resources(&mut allocation, Some(&options), None, '+');
    assert_eq!(allocation_cpus(allocation.as_ref().unwrap()), 16);
    adjust_resources(&mut allocation, Some(&options), None, 'r');
    assert_eq!(allocation_cpus(allocation.as_ref().unwrap()), 8);
}

#[test]
fn revisiting_or_reselecting_a_target_preserves_edited_resources() {
    let mut dashboard = dashboard_with_session(running_session());
    dashboard.begin_new();
    ready_keys(&mut dashboard, &[Key::Enter, Key::Char('-')]);
    let edited = draft(&dashboard).resource_allocation.duplicate();
    ready_key(&mut dashboard, Key::Home);
    assert_eq!(draft(&dashboard).resource_allocation, edited);
    focus_on(&mut dashboard, WizardControl::Back);
    ready_keys(&mut dashboard, &[Key::Enter, Key::Enter]);
    assert_eq!(step(&dashboard), WizardStep::Target);
    assert_eq!(draft(&dashboard).resource_allocation, edited);
}

// --- Project directories ---

#[test]
fn cancelling_a_wizard_invalidates_checks_before_reopening_the_same_form() {
    let mut dashboard = fresh_dashboard();
    ready_open_new_wizard(&mut dashboard);
    let pending = dashboard.session_preflight_generation();
    ready_key(&mut dashboard, Key::Esc);
    ready_open_new_wizard(&mut dashboard);
    assert!(matches!(draft(&dashboard).purpose, Purpose::New(_)));
    assert_ne!(pending, dashboard.session_preflight_generation());
}

#[test]
fn target_next_focuses_the_project_field_and_footer_keys_do_not_edit_it() {
    let mut dashboard = dashboard(local_config(), no_state());
    ready_open_new_wizard(&mut dashboard);
    ready_key(&mut dashboard, Key::Enter);
    for _ in 0..3 {
        ready_key(&mut dashboard, Key::Tab);
    }
    ready_key(&mut dashboard, Key::Enter);
    assert_eq!(focused(&dashboard).control, WizardControl::ProjectDirectory);
    paste(&mut dashboard, "/work/project");
    assert_eq!(new_part(&dashboard).project_directory.text, "/work/project");
    ready_key(&mut dashboard, Key::Tab);
    assert_ne!(focused(&dashboard).control, WizardControl::ProjectDirectory);
    ready_key(&mut dashboard, Key::Char('x'));
    paste(&mut dashboard, "ignored");
    assert_eq!(new_part(&dashboard).project_directory.text, "/work/project");
}

/// A draft on the review of a directory that was typed in.
fn dashboard_at_raw_review(config: Config, directory: &str) -> DashboardState {
    let mut dashboard = dashboard(config, no_state());
    dashboard.begin_new();
    draft_mut(&mut dashboard).step = WizardStep::Review;
    new_part_mut(&mut dashboard).project_directory = PathInput::from_text(directory.into());
    dashboard
}

#[test]
fn raw_review_waits_for_worktree_inspection_and_preserves_explicit_selection() {
    let mut dashboard = dashboard_at_raw_review(local_config(), "/work/main");
    assert!(matches!(
        dashboard.take_prerequisite_check(),
        Some(DashboardAction::ValidateProjectDirectory { .. })
    ));
    let context = dashboard.path_input_context();
    dashboard.apply_resolved_project_directory(
        &context,
        "/work/main",
        Ok(("/work/main".into(), worktree(true, true))),
    );
    assert!(new_part(&dashboard).create_managed_worktree);
    focus_on(&mut dashboard, WizardControl::CreateManagedWorktree);
    ready_key(&mut dashboard, Key::Char(' '));
    assert!(!new_part(&dashboard).create_managed_worktree);
    // Revalidating an unchanged directory keeps the explicit override.
    dashboard.apply_resolved_project_directory(
        &context,
        "/work/main",
        Ok(("/work/main".into(), worktree(true, true))),
    );
    assert!(!new_part(&dashboard).create_managed_worktree);
    focus_on(&mut dashboard, WizardControl::Submit);
    let DashboardAction::CreateSession(launch) = ready_key(&mut dashboard, Key::Enter) else {
        panic!("the session is created");
    };
    assert!(!launch.create_managed_worktree);
    assert_eq!(launch.project_directory.as_deref(), Some("/work/main"));
}

/// Isolated targets provide the workspace themselves, so the review must not
/// show a disabled worktree checkbox at all; a bare project keeps the choice.
#[test]
fn review_hides_the_worktree_choice_for_isolated_targets() {
    let declares_worktree = |dashboard: &DashboardState| {
        dashboard
            .declare_wizard_controls(draft(dashboard))
            .iter()
            .any(|declared| declared.control == WizardControl::CreateManagedWorktree)
    };
    let mut dashboard = fresh_dashboard();
    dashboard.begin_new();
    ready_keys(&mut dashboard, &[Key::Enter, Key::Enter, Key::Enter]);
    assert_eq!(step(&dashboard), WizardStep::Review);
    assert!(!declares_worktree(&dashboard));
    let isolated = shown_text(&dashboard);
    assert!(!isolated.contains("Create managed worktree"), "{isolated}");
    assert!(
        !isolated.contains("isolated workspace"),
        "the checkbox and its explanation are gone together: {isolated}"
    );

    let mut dashboard = dashboard_at_raw_review(local_config(), "/work/main");
    let context = dashboard.path_input_context();
    dashboard.apply_resolved_project_directory(
        &context,
        "/work/main",
        Ok(("/work/main".into(), worktree(true, true))),
    );
    assert!(declares_worktree(&dashboard));
    let bare = shown_text(&dashboard);
    assert!(bare.contains("Create managed worktree"), "{bare}");
}

/// A bare local target plus a Grok profile, so the sub-agent checkbox can be
/// exercised against a harness that never receives the tools.
fn subagent_wizard_config() -> Config {
    let mut configuration = local_config();
    configuration.profiles.push(profile("grok-1", HarnessKind::Grok));
    configuration
}

/// Only two of the harnesses can receive the delegation tools, so only they
/// show the choice. The box follows the global `[subagents] enabled` setting.
#[test]
fn new_session_wizard_shows_subagent_checkbox_only_for_claude_and_codex() {
    for (profile, visible) in [(0_usize, true), (1, true), (3, false)] {
        let mut configuration = subagent_wizard_config();
        configuration.subagents_enabled = true;
        let mut dashboard = dashboard_at_raw_review(configuration, "/work/main");
        draft_mut(&mut dashboard).profile = profile;
        assert!(
            new_part(&dashboard).mjolnir_subagents,
            "the global setting is the default"
        );

        let text = shown_text(&dashboard);
        assert_eq!(
            text.contains("Use Mjolnir sub-agents"),
            visible,
            "profile {profile}:\n{text}"
        );
    }
}

/// The wizard sends the box's value for a harness that receives the tools, and `None` for a
/// harness that cannot receive the tools at all.
#[test]
fn new_session_wizard_sends_subagent_choice() {
    let submit = |profile: usize, toggle: bool| {
        let mut dashboard = dashboard_at_raw_review(subagent_wizard_config(), "/work/main");
        draft_mut(&mut dashboard).profile = profile;
        let context = dashboard.path_input_context();
        dashboard.apply_resolved_project_directory(
            &context,
            "/work/main",
            Ok(("/work/main".into(), worktree(true, false))),
        );
        if toggle {
            focus_on(&mut dashboard, WizardControl::MjolnirSubagents);
            ready_key(&mut dashboard, Key::Char(' '));
        }
        focus_on(&mut dashboard, WizardControl::Submit);
        match ready_key(&mut dashboard, Key::Enter) {
            DashboardAction::CreateSession(launch) => launch.mjolnir_subagents,
            other => panic!("expected a launch, got {other:?}"),
        }
    };

    assert_eq!(submit(0, false), Some(true));
    assert_eq!(submit(0, true), Some(false));
    assert_eq!(submit(1, true), Some(false));
    // Grok never receives the tools, so the wizard expresses no opinion.
    assert_eq!(submit(3, false), None);
}

#[test]
fn worktree_inspection_ignores_old_directories_and_allows_linked_checkout_opt_in() {
    let mut dashboard = dashboard_at_raw_review(local_config(), "/work/main");
    let old_context = dashboard.path_input_context();
    new_part_mut(&mut dashboard).project_directory = PathInput::from_text("/work/linked".into());
    dashboard.apply_resolved_project_directory(
        &old_context,
        "/work/main",
        Ok(("/work/main".into(), worktree(true, true))),
    );
    assert!(new_part(&dashboard).worktree_options.is_none());
    let context = dashboard.path_input_context();
    dashboard.apply_resolved_project_directory(
        &context,
        "/work/linked",
        Ok(("/work/linked".into(), worktree(true, false))),
    );
    assert!(!new_part(&dashboard).create_managed_worktree);
    focus_on(&mut dashboard, WizardControl::CreateManagedWorktree);
    ready_key(&mut dashboard, Key::Char(' '));
    focus_on(&mut dashboard, WizardControl::Submit);
    let DashboardAction::CreateSession(launch) = ready_key(&mut dashboard, Key::Enter) else {
        panic!("the session is created");
    };
    assert!(launch.create_managed_worktree);
}

// --- Availability ---

/// A dashboard on the target step, with the check it began there.
fn dashboard_checking(config: Config) -> (DashboardState, u64, Vec<String>) {
    let mut dashboard = dashboard(config, no_state());
    dashboard.begin_new();
    press(&mut dashboard, Key::Enter);
    let Some(DashboardAction::CheckTargetReadiness { generation, target_ids }) =
        dashboard.take_prerequisite_check()
    else {
        panic!("availability check must start");
    };
    (dashboard, generation, target_ids)
}

#[test]
fn unavailable_target_blocks_launch_and_refresh_allows_recovery() {
    let (mut dashboard, generation, target_ids) = dashboard_checking(config());
    assert_eq!(target_ids, ["podman"]);
    press(&mut dashboard, Key::Enter);
    assert_eq!(step(&dashboard), WizardStep::Target);
    dashboard.apply_target_readiness(generation, "podman".into(), Err("service is stopped".into()));
    let text = shown_text(&dashboard);
    assert!(text.contains("unavailable: service is stopped"), "{text}");
    press(&mut dashboard, Key::Enter);
    assert_eq!(step(&dashboard), WizardStep::Target);
    dashboard.refresh_target_readiness();
    let Some(DashboardAction::CheckTargetReadiness { generation: fresh, .. }) =
        dashboard.take_prerequisite_check()
    else {
        panic!("refresh must recheck");
    };
    dashboard.apply_target_readiness(generation, "podman".into(), Ok(()));
    assert!(dashboard.target_readiness_rejection("podman").is_some());
    dashboard.apply_target_readiness(fresh, "podman".into(), Ok(()));
    press(&mut dashboard, Key::Enter);
    assert_eq!(step(&dashboard), WizardStep::Bundle);
}

#[test]
fn readiness_checks_are_independent_and_ignore_changed_configuration() {
    let mut config = config();
    config.targets.push(ssh_bare("remote", "example.test"));
    let (mut dashboard, generation, target_ids) = dashboard_checking(config);
    assert_eq!(target_ids.len(), 2);
    dashboard.apply_target_readiness(generation, "remote".into(), Ok(()));
    assert!(dashboard.target_readiness_rejection("remote").is_none());
    assert!(dashboard.target_readiness_rejection("podman").is_some());
    dashboard.config.targets[1] = ssh_bare("remote", "changed.test");
    dashboard.apply_target_readiness(generation, "remote".into(), Ok(()));
    assert!(dashboard.target_readiness_rejection("remote").is_some());
    press(&mut dashboard, Key::Esc);
    assert!(!matches!(dashboard.mode, Mode::Wizard(_)));
}

/// Reopening the wizard with the target's template unchanged must reuse the
/// readiness result from the previous open instead of re-probing: the probe
/// is an ssh round trip for non-local targets, so a second open in the same
/// dashboard session should be instant.
#[test]
fn reopening_wizard_with_unchanged_template_reuses_fresh_readiness() {
    let (mut dashboard, generation, target_ids) = dashboard_checking(config());
    assert_eq!(target_ids, ["podman"]);
    dashboard.apply_target_readiness(generation, "podman".into(), Ok(()));
    assert!(dashboard.target_readiness_rejection("podman").is_none());

    press(&mut dashboard, Key::Esc);
    assert!(!matches!(dashboard.mode, Mode::Wizard(_)));

    dashboard.begin_new();
    press(&mut dashboard, Key::Enter);
    assert_eq!(
        dashboard.take_prerequisite_check(),
        None,
        "a fresh readiness result from the previous open must not be re-probed"
    );
    assert!(dashboard.target_readiness_rejection("podman").is_none());
}

/// A target's template changing between wizard opens invalidates the cached
/// readiness result even though it has not gone stale.
#[test]
fn reopening_wizard_after_template_change_reprobes() {
    let (mut dashboard, generation, target_ids) = dashboard_checking(config());
    assert_eq!(target_ids, ["podman"]);
    dashboard.apply_target_readiness(generation, "podman".into(), Ok(()));
    press(&mut dashboard, Key::Esc);
    assert!(!matches!(dashboard.mode, Mode::Wizard(_)));

    dashboard.config.targets[0].template.settings = "image ubuntu:22.04".into();

    dashboard.begin_new();
    press(&mut dashboard, Key::Enter);
    let Some(DashboardAction::CheckTargetReadiness { target_ids, .. }) =
        dashboard.take_prerequisite_check()
    else {
        panic!("a changed template must be re-probed even though a result is cached");
    };
    assert_eq!(target_ids, ["podman"]);
}

/// A readiness result older than [`TARGET_READINESS_TTL`] is treated as
/// missing: the wizard shows the checking state again and rejects Create
/// until a fresh probe completes.
#[test]
fn stale_readiness_result_is_treated_as_missing_and_reprobes() {
    let (mut dashboard, generation, target_ids) = dashboard_checking(config());
    assert_eq!(target_ids, ["podman"]);
    dashboard.apply_target_readiness(generation, "podman".into(), Ok(()));
    assert!(dashboard.target_readiness_rejection("podman").is_none());

    dashboard.target_readiness[0].recorded_at = dashboard.now - TARGET_READINESS_TTL;

    assert_eq!(
        dashboard.target_readiness_rejection("podman"),
        Some("checking availability…".into()),
        "a stale result must reject exactly like a missing one"
    );
    let Some(DashboardAction::CheckTargetReadiness { target_ids, .. }) =
        dashboard.take_prerequisite_check()
    else {
        panic!("a stale result must be re-probed");
    };
    assert_eq!(target_ids, ["podman"]);
}

/// A failed result is kept only briefly: a failure is usually a host that is
/// asleep or a probe that timed out, which the user fixes and retries within
/// minutes, so it is re-probed long before a success would be.
#[test]
fn failed_readiness_result_is_reprobed_after_the_short_failure_ttl() {
    let (mut dashboard, generation, _) = dashboard_checking(config());
    dashboard.apply_target_readiness(generation, "podman".into(), Err("host asleep".into()));
    assert_eq!(
        dashboard.target_readiness_rejection("podman"),
        Some("unavailable: host asleep".into())
    );
    assert!(
        dashboard.take_prerequisite_check().is_none(),
        "a fresh failure is not re-probed on its own"
    );

    dashboard.target_readiness[0].recorded_at = dashboard.now - TARGET_READINESS_FAILURE_TTL;

    assert_eq!(
        dashboard.target_readiness_rejection("podman"),
        Some("checking availability…".into()),
        "an aged failure must reject like a missing entry, not repeat the old error"
    );
    let Some(DashboardAction::CheckTargetReadiness { target_ids, .. }) =
        dashboard.take_prerequisite_check()
    else {
        panic!("an aged failure must be re-probed");
    };
    assert_eq!(target_ids, ["podman"]);
}

// --- What is refused ---

#[test]
fn a_resume_that_cannot_start_says_why() {
    let refused = |change: fn(&mut DashboardState)| {
        let mut dashboard = dashboard_with_session(stopped_session());
        change(&mut dashboard);
        assert_eq!(open_resume_wizard(&mut dashboard), DashboardAction::Nothing);
        assert!(closed(&dashboard));
        notice(&dashboard).map(str::to_string)
    };
    assert_eq!(refused(|dashboard| dashboard.state.sessions.clear()), None);
    assert_eq!(
        refused(|dashboard| dashboard.state.sessions[0].active = true).as_deref(),
        Some("This session is active; press Enter to open it.")
    );
    assert_eq!(
        refused(|dashboard| dashboard.state.sessions[0].checkpoint = false).as_deref(),
        Some("This session has no verified recovery copy to resume.")
    );
    assert_eq!(
        refused(|dashboard| dashboard.state.sessions[0].compatible_profiles.clear()).as_deref(),
        Some("Resume needs a profile and a target template.")
    );
    assert_eq!(
        refused(|dashboard| dashboard.config.targets.clear()).as_deref(),
        Some("Resume needs a profile and a target template.")
    );
    // A failed session counts as active and can be resumed all the same.
    let mut dashboard = dashboard_with_session(running_session());
    dashboard.state.sessions[0].failed = true;
    open_resume_wizard(&mut dashboard);
    assert_eq!(resume_part(&dashboard).session_id, "session-1");
}

#[test]
fn a_move_that_cannot_start_says_why() {
    let refused = |change: fn(&mut DashboardState)| {
        let mut dashboard = dashboard_with_session(running_session());
        change(&mut dashboard);
        assert_eq!(dashboard.begin_move(), DashboardAction::Nothing);
        assert!(closed(&dashboard));
        notice(&dashboard).map(str::to_string)
    };
    assert_eq!(refused(|dashboard| dashboard.selected_session = None), None);
    assert_eq!(
        refused(|dashboard| dashboard.state.sessions[0].active = false).as_deref(),
        Some("Move is available for active sessions only.")
    );
    assert_eq!(
        refused(|dashboard| {
            dashboard.operations.push(SessionOperation {
                session_id: "session-1".into(),
                kind: SessionOperationKind::Suspending,
            });
        })
        .as_deref(),
        Some("This session already has an operation in progress.")
    );
    assert_eq!(
        refused(|dashboard| dashboard.state.sessions[0].compatible_profiles.clear()).as_deref(),
        Some("Move needs a profile and a target template.")
    );
}

fn failed_move() -> MoveOperation {
    MoveOperation {
        selection: MoveSelection {
            session_id: "session-1".into(),
            profile_id: Some("codex-2".into()),
            target_template_id: Some("podman".into()),
            additional_mounts: Some(vec![mount("/opt", "/mnt/opt", MountAccess::Rw)]),
            resource_allocation: container(4, 8 * GIB),
            clear_resource_allocation: false,
        },
        queue: QueueDisposition::Start,
    }
}

#[test]
fn a_failed_move_is_reopened_on_its_destination_or_says_why_not() {
    let mut dashboard = dashboard_with_session(running_session());
    dashboard.begin_move_recovery(failed_move());
    assert!(resume_part(&dashboard).moving);
    assert!(!resume_part(&dashboard).discard_queue);
    assert_eq!(draft(&dashboard).profile, 2);
    assert_eq!(draft(&dashboard).resource_allocation, container(4, 8 * GIB));
    assert_eq!(mounts(&dashboard).mounts.len(), 1);

    let refused = |session: SessionRecord, change: fn(&mut MoveOperation)| {
        let mut dashboard = dashboard_with_session(session);
        let mut operation = failed_move();
        change(&mut operation);
        dashboard.begin_move_recovery(operation);
        assert!(closed(&dashboard));
        let notice = dashboard.notice.expect("a notice");
        assert!(notice.failure);
        notice.text
    };
    assert_eq!(
        refused(running_session(), |operation| operation.selection.session_id = "gone".into()),
        "Move recovery session is no longer available."
    );
    assert_eq!(
        refused(stopped_session(), |_| ()),
        "Move source is stopped; use Resume with previous settings or retry the retained destination."
    );
    assert_eq!(
        refused(running_session(), |operation| operation.selection.profile_id = None),
        "Move recovery has no retained destination profile."
    );
    assert_eq!(
        refused(running_session(), |operation| operation.selection.target_template_id = None),
        "Move recovery has no retained destination target."
    );
    assert_eq!(
        refused(running_session(), |operation| operation.selection.profile_id = Some("p".into())),
        "Move profile p is no longer configured."
    );
    assert_eq!(
        refused(running_session(), |operation| {
            operation.selection.target_template_id = Some("t".into());
        }),
        "Move target t is no longer configured."
    );
}

#[test]
fn a_dashboard_without_profiles_opens_their_settings() {
    let mut dashboard = fresh_dashboard();
    dashboard.config.profiles[0].enabled = false;
    dashboard.config.profiles.truncate(1);
    assert_eq!(dashboard.begin_new(), DashboardAction::Nothing);
    assert_eq!(dashboard.mode, Mode::Settings("profiles".into()));

    let mut dashboard = fresh_dashboard();
    dashboard.config.targets.clear();
    assert_eq!(
        dashboard.begin_archive_restore("wiki".into(), "title".into()),
        DashboardAction::Nothing
    );
    assert_eq!(
        notice(&dashboard),
        Some("Restoring needs a profile and a target template.")
    );
}

#[test]
fn a_quick_launch_skips_the_wizard() {
    let mut dashboard = fresh_dashboard();
    dashboard.go = Some(GoSetup { directory: "/work".into(), recipe: None });
    assert_eq!(dashboard.begin_new(), DashboardAction::ChangeGoSetup);
    let recipe = || GoRecipe {
        id: "recipe".into(),
        target_id: "podman".into(),
        project_directory: None,
        create_managed_worktree: None,
    };
    dashboard.go = Some(GoSetup { directory: "/work".into(), recipe: Some(recipe()) });
    assert_eq!(dashboard.begin_new(), DashboardAction::GoLaunch { recipe: recipe() });

    // The full wizard prepares the project of an isolated target itself.
    ready_open_new_wizard(&mut dashboard);
    ready_key(&mut dashboard, Key::Enter);
    assert_eq!(
        ready_key(&mut dashboard, Key::Enter),
        DashboardAction::GoPrepareProject { target_id: "podman".into() }
    );
    assert!(new_part(&dashboard).bundle_creation_in_flight);
}

#[test]
fn a_created_bundle_that_is_missing_is_named_in_quotes() {
    let mut dashboard = dashboard_at_new_bundle_editor();
    type_text(&mut dashboard, "owner/only");
    focus_create_bundle(&mut dashboard, 4);
    ready_key(&mut dashboard, Key::Enter);
    dashboard.apply_created_bundle(config(), "odd \"name\"\n");
    assert_eq!(
        notice(&dashboard),
        Some("Created bundle \"odd \\\"name\\\"\\n\" was not found.")
    );
    assert_eq!(step(&dashboard), WizardStep::NewBundle);
    assert!(!new_part(&dashboard).bundle_creation_in_flight);
}

#[test]
fn an_instance_waits_for_its_sizes() {
    let mut config = config();
    config.targets = vec![target("aws", TargetKind::AwsEc2)];
    let mut dashboard = dashboard(config, no_state());
    ready_open_new_wizard(&mut dashboard);
    assert_eq!(
        ready_key(&mut dashboard, Key::Enter),
        DashboardAction::ResolveAwsResourceOptions { target_template_ids: vec!["aws".into()] }
    );
    ready_key(&mut dashboard, Key::Enter);
    assert_eq!(notice(&dashboard), Some("EC2 sizes are still loading."));
    assert_eq!(step(&dashboard), WizardStep::Target);
    dashboard.apply_aws_resource_options("aws", Err("no credentials".into()));
    ready_key(&mut dashboard, Key::Enter);
    assert_eq!(notice(&dashboard), Some("no credentials"));
    dashboard.apply_aws_resource_options("other", Err("not asked".into()));
    assert_eq!(draft(&dashboard).sizing_error.as_deref(), Some("no credentials"));
}

#[test]
fn an_archive_is_restored_from_its_review() {
    let mut dashboard = fresh_dashboard();
    dashboard.begin_archive_restore("wiki-1".into(), "Pomegranate work".into());
    ready_keys(&mut dashboard, &[Key::Enter, Key::Enter]);
    assert_eq!(
        ready_key(&mut dashboard, Key::Enter),
        DashboardAction::RestoreArchivedSession {
            workspace_id: WORKSPACE.into(),
            wiki_id: "wiki-1".into(),
            profile_id: "apollo-1".into(),
            target_template_id: "podman".into(),
        }
    );
}

#[test]
fn an_empty_source_and_an_empty_directory_are_refused() {
    let mut dashboard = dashboard_at_new_bundle_editor();
    act(&mut dashboard, Interaction::Activate(WizardControl::NewBundleSource));
    assert_eq!(notice(&dashboard), Some("Repository source cannot be empty."));

    let mut dashboard = fresh_dashboard();
    ready_open_new_wizard(&mut dashboard);
    ready_keys(
        &mut dashboard,
        &[Key::Enter, Key::Enter, Key::Enter, Key::BackTab, Key::Enter, Key::Enter],
    );
    assert_eq!(
        mounts(&dashboard).error.as_deref(),
        Some("Choose or type a directory on the controller.")
    );

    let mut dashboard = self::dashboard(local_config(), no_state());
    ready_open_new_wizard(&mut dashboard);
    ready_keys(&mut dashboard, &[Key::Enter, Key::Enter, Key::Enter]);
    assert_eq!(
        new_part(&dashboard).project_directory_error.as_deref(),
        Some("Project directory cannot be empty.")
    );
}

// --- Promises of the whole ---

#[test]
fn an_answer_for_a_closed_wizard_reaches_no_other() {
    let mut dashboard = fresh_dashboard();
    ready_open_new_wizard(&mut dashboard);
    ready_keys(&mut dashboard, &[Key::Enter, Key::Enter, Key::Enter]);
    let generation = dashboard.session_preflight_generation();
    let context = dashboard.path_input_context();
    ready_key(&mut dashboard, Key::Esc);
    ready_open_new_wizard(&mut dashboard);
    ready_keys(&mut dashboard, &[Key::Enter, Key::Enter, Key::Enter]);
    dashboard.apply_remote_session_preflight(generation, Ok(vec![hel_repository()]));
    assert_eq!(new_part(&dashboard).remote_repositories, None);
    assert_ne!(dashboard.path_input_context(), context);
}

#[test]
fn drafts_are_compared_without_their_forms() {
    let mut one = fresh_dashboard();
    let mut two = fresh_dashboard();
    ready_open_new_wizard(&mut one);
    ready_open_new_wizard(&mut two);
    assert!(draft(&one).same_session(draft(&two)));
    focus_on(&mut two, WizardControl::Cancel);
    assert!(draft(&one).same_session(draft(&two)));
    new_part_mut(&mut two).bundle = 3;
    assert!(!draft(&one).same_session(draft(&two)));
    let mut resumed = dashboard_with_session(stopped_session());
    open_resume_wizard(&mut resumed);
    assert!(!draft(&one).same_session(draft(&resumed)));
    assert!(draft(&resumed).same_session(draft(&resumed)));
}

#[test]
fn walking_the_remembered_directories_leads_back() {
    let mut state = no_state();
    state.project_directories.push(HostPaths {
        host: "local".into(),
        paths: vec!["/a".into(), "/b".into(), "/c".into()],
    });
    let mut dashboard = dashboard(local_config(), state);
    ready_open_new_wizard(&mut dashboard);
    ready_keys(&mut dashboard, &[Key::Enter, Key::Enter]);
    assert_eq!(new_part(&dashboard).project_directory.text, "/a");
    ready_key(&mut dashboard, Key::Up);
    assert_eq!(new_part(&dashboard).project_directory.text, "/c");
    ready_key(&mut dashboard, Key::Down);
    assert_eq!(new_part(&dashboard).project_directory.text, "/a");
}

#[test]
fn a_changed_selection_checks_again() {
    let mut dashboard = fresh_dashboard();
    dashboard.config.bundles.push(Bundle { id: "zed".into(), repositories: 2 });
    ready_open_new_wizard(&mut dashboard);
    ready_keys(&mut dashboard, &[Key::Enter, Key::Enter, Key::Enter]);
    let generation = dashboard.session_preflight_generation();
    dashboard.apply_remote_session_preflight(generation, Ok(vec![hel_repository()]));
    assert!(new_part(&dashboard).remote_repositories.is_some());
    act(&mut dashboard, Interaction::Activate(WizardControl::Back));
    assert_eq!(step(&dashboard), WizardStep::Bundle);
    assert_eq!(new_part(&dashboard).remote_repositories, None);
    ready_keys(&mut dashboard, &[Key::Down, Key::Enter]);
    assert!(matches!(
        dashboard.take_prerequisite_check(),
        Some(DashboardAction::PreflightCreateSession(launch))
            if launch.project == ProjectContext::Bundle("zed".into())
    ));
}

#[test]
fn queued_prompts_are_listed_on_the_review() {
    let mut dashboard = dashboard_with_session(stopped_session());
    dashboard.session_details.push(SessionDetail {
        session_id: "session-1".into(),
        queued_prompts: vec![
            QueuedPrompt { text: "first\nline".into(), attachments: 0 },
            QueuedPrompt { text: " ".into(), attachments: 1 },
            QueuedPrompt { text: "third".into(), attachments: 2 },
        ],
    });
    open_resume_wizard(&mut dashboard);
    ready_keys(&mut dashboard, &[Key::Enter, Key::Enter]);
    let rendered = shown_text(&dashboard);
    assert!(rendered.contains("Start 3 queued commands on resume"), "{rendered}");
    assert!(rendered.contains("  1. first line"), "{rendered}");
    assert!(rendered.contains("  2. [empty command] · 1 attachment"), "{rendered}");
    assert!(rendered.contains("  3. third · 2 attachments"), "{rendered}");
    ready_key(&mut dashboard, Key::Char('q'));
    assert!(shown_text(&dashboard).contains("Discard 3 queued commands on resume"));
    assert!(resume_part(&dashboard).discard_queue);
}

// --- What there is not ---

#[test]
fn an_event_for_what_there_is_not_changes_nothing() {
    let mut dashboard = fresh_dashboard();
    ready_open_new_wizard(&mut dashboard);
    let before = format!("{dashboard:?}");
    let stray = FormReport {
        release: false,
        repeat: false,
        consumed: true,
        completion: CompletionEvent::Unrelated,
        interaction: Some(Interaction::Select(WizardControl::TargetList, 7)),
        key: None,
    };
    let known = findings(draft(&dashboard));
    assert_eq!(dashboard.handle_event(stray, known), None);
    assert_eq!(format!("{dashboard:?}"), before);
}

#[test]
fn a_draft_of_what_is_gone_is_not_shown_and_can_be_closed() {
    let mut dashboard = fresh_dashboard();
    ready_open_new_wizard(&mut dashboard);
    ready_key(&mut dashboard, Key::Enter);
    assert_eq!(step(&dashboard), WizardStep::Target);
    assert!(dashboard.wizard_screen(&None, 0).is_some());
    assert!(dashboard.draft_fits(draft(&dashboard)));
    dashboard.config.targets.clear();
    assert!(!dashboard.draft_fits(draft(&dashboard)));
    assert!(!dashboard.draft_stands(draft(&dashboard)));
    assert_eq!(dashboard.wizard_screen(&None, 0), None);
    let escape = FormReport {
        release: false,
        repeat: false,
        consumed: true,
        completion: CompletionEvent::Unrelated,
        interaction: Some(Interaction::Cancel),
        key: None,
    };
    let known = findings(draft(&dashboard));
    let done = dashboard.handle_event(escape, known);
    assert_eq!(done, Some(WizardOutcome::Acts(DashboardAction::Nothing)));
    assert!(closed(&dashboard));
    assert_eq!(dashboard.wizard_screen(&None, 0), None);
}

#[test]
fn a_profile_that_is_gone_is_shown_as_unknown() {
    let mut dashboard = dashboard_with_session(stopped_session());
    open_resume_wizard(&mut dashboard);
    ready_keys(&mut dashboard, &[Key::Enter, Key::Enter]);
    assert_eq!(step(&dashboard), WizardStep::Review);
    let at = draft(&dashboard).profile;
    let named = dashboard.state.sessions[0].compatible_profiles[at].id.clone();
    assert!(shown_text(&dashboard).contains(&format!("Profile: {named}")));
    dashboard.state.sessions[0].compatible_profiles.clear();
    assert!(!dashboard.draft_fits(draft(&dashboard)));
    assert!(dashboard.draft_stands(draft(&dashboard)));
    assert!(shown_text(&dashboard).contains("Profile: unknown"));
}

// --- Drafts of what is gone ---

fn reported(interaction: Interaction) -> FormReport {
    FormReport {
        release: false,
        repeat: false,
        consumed: true,
        completion: CompletionEvent::Unrelated,
        interaction: Some(interaction),
        key: None,
    }
}

/// The outcome of an interaction, or nothing where the draft does not take it.
fn offer(dashboard: &mut DashboardState, interaction: Interaction) -> Option<WizardOutcome> {
    let findings = findings(draft(dashboard));
    dashboard.handle_event(reported(interaction), findings)
}

fn stranded_directory_step() -> DashboardState {
    let mut dashboard = dashboard(local_config(), no_state());
    ready_open_new_wizard(&mut dashboard);
    ready_keys(&mut dashboard, &[Key::Enter, Key::Enter]);
    assert_eq!(step(&dashboard), WizardStep::ProjectDirectory);
    dashboard.config.targets = vec![target("podman", TargetKind::LocalPodman)];
    assert!(!dashboard.draft_fits(draft(&dashboard)));
    dashboard
}

#[test]
fn a_directory_step_over_a_changed_target_goes_back() {
    let mut dashboard = stranded_directory_step();
    let done = offer(&mut dashboard, Interaction::Activate(WizardControl::Back));
    assert_eq!(done, Some(WizardOutcome::Acts(DashboardAction::Nothing)));
    assert_eq!(step(&dashboard), WizardStep::Target);
}

#[test]
fn a_directory_step_over_a_changed_target_is_typed_in_and_validated() {
    let mut dashboard = stranded_directory_step();
    let typed = edit(WizardControl::ProjectDirectory, "/srv/project".into(), None, true);
    assert!(offer(&mut dashboard, typed).is_some());
    assert_eq!(new_part(&dashboard).project_directory.text, "/srv/project");
    let done = offer(&mut dashboard, Interaction::Activate(WizardControl::Next));
    assert_eq!(
        done,
        Some(WizardOutcome::Acts(DashboardAction::ValidateProjectDirectory {
            target_template_id: "podman".into(),
            directory: "/srv/project".into(),
        }))
    );
}

#[test]
fn a_wizard_whose_targets_are_gone_can_be_closed() {
    for interaction in [Interaction::Cancel, Interaction::Activate(WizardControl::Cancel)] {
        let mut dashboard = stranded_directory_step();
        dashboard.config.targets = Vec::new();
        let generation = dashboard.session_preflight_generation();
        let next = Interaction::Activate(WizardControl::Next);
        assert_eq!(offer(&mut dashboard, next), None);
        assert_eq!(step(&dashboard), WizardStep::ProjectDirectory);
        let done = offer(&mut dashboard, interaction);
        assert_eq!(done, Some(WizardOutcome::Acts(DashboardAction::Nothing)));
        assert!(closed(&dashboard));
        assert_eq!(dashboard.session_preflight_generation(), generation + 1);
    }
}

// --- Targets that are not asked for ---

#[test]
fn a_resume_goes_on_at_once_where_its_target_is_not_asked_for() {
    let mut dashboard = dashboard_with_session(stopped_session());
    open_resume_wizard(&mut dashboard);
    ready_keys(&mut dashboard, &[Key::Enter, Key::Backspace]);
    assert_eq!(step(&dashboard), WizardStep::Profile);
    let mut known = findings(draft(&dashboard));
    known.skips_target = true;
    let report = reported(Interaction::Activate(WizardControl::Next));
    let done = dashboard.handle_event(report, known);
    assert_eq!(done, Some(WizardOutcome::Acts(DashboardAction::Nothing)));
    assert_eq!(step(&dashboard), WizardStep::Review);
    assert_eq!(draft(&dashboard).form.focused, Some(WizardControl::Submit));
}

#[test]
fn a_skipped_target_that_is_refused_says_why() {
    let mut session = stopped_session();
    session.fits = vec![TargetFit {
        target_id: "podman".into(),
        fit: Compatibility::Unusable("the image is gone".into()),
    }];
    let mut dashboard = dashboard_with_session(stopped_session());
    open_resume_wizard(&mut dashboard);
    dashboard.state.sessions = vec![session];
    let mut known = findings(draft(&dashboard));
    known.skips_target = true;
    let report = reported(Interaction::Activate(WizardControl::Next));
    dashboard.handle_event(report, known).expect("the draft refers to what there is");
    assert_eq!(step(&dashboard), WizardStep::Target);
    assert!(notice(&dashboard).is_some());
}

// --- Contexts of other dialogs ---

#[test]
fn dialogs_have_contexts_of_their_own() {
    let mut dashboard = fresh_dashboard();
    let plain = dashboard.path_input_context();
    dashboard.mode = Mode::Other("origin:session-1:hel:".into());
    let origin = dashboard.path_input_context();
    dashboard.mode = Mode::Other("container:session-1:/srv".into());
    let editor = dashboard.path_input_context();
    dashboard.mode = Mode::Other(String::new());
    assert!(origin != editor && origin != plain && editor != plain);
    assert_eq!(dashboard.path_input_context(), plain);
    assert_eq!(dashboard.apply_path_completions(&plain), None);
}

#[test]
fn a_draft_without_its_target_still_has_a_context() {
    let mut dashboard = fresh_dashboard();
    ready_open_new_wizard(&mut dashboard);
    let before = dashboard.path_input_context();
    dashboard.config.targets = Vec::new();
    assert_ne!(dashboard.path_input_context(), before);
}

// --- What the form and the screen are told ---

#[test]
fn a_form_is_told_what_would_be_discarded() {
    let mut dashboard = dashboard(local_config(), no_state());
    ready_open_new_wizard(&mut dashboard);
    ready_keys(&mut dashboard, &[Key::Enter, Key::Enter]);
    paste(&mut dashboard, "/srv/project");
    let plan = draft(&dashboard).prepare_dialog_state();
    assert_eq!(plan.dismissals, [WizardControl::Cancel, WizardControl::Back]);
    assert_eq!(plan.editor_dismissal, WizardControl::Back);
    assert_eq!(plan.project.as_deref(), Some("/srv/project"));
    assert!(plan.attachments.is_empty());
    assert_eq!(plan.escape, None);
}

#[test]
fn a_list_takes_all_of_a_narrow_area() {
    let mut dashboard = fresh_dashboard();
    ready_open_new_wizard(&mut dashboard);
    let screen = dashboard.wizard_screen(&None, 0).expect("a wizard is shown");
    assert_eq!(screen.width_percent(63), 100);
    assert_eq!(screen.width_percent(64), 68);
}

#[test]
fn bundles_without_a_later_session_go_by_id() {
    let mut config = config();
    config.bundles = ["a", "b", "c", "d"]
        .map(|id| Bundle { id: id.into(), repositories: 1 })
        .into();
    let mut first = stopped_session();
    first.bundle_id = "c".into();
    let mut second = stopped_session();
    second.id = "session-2".into();
    second.bundle_id = "b".into();
    let order = bundle_ids_by_recent_creation(&config, &state_with(vec![first, second]));
    assert_eq!(order, ["b", "c", "a", "d"]);
}
