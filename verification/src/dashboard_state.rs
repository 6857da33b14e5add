//! The dashboard's state, and what it asks the rest of the program to do.

use vstd::prelude::*;

use crate::drafts::{Draft, ProjectDiscoveryRequest};
#[allow(unused_imports)]
use crate::drafts::{DraftView, ProjectDiscoveryRequestView};
use crate::duplicate::Duplicate;
use crate::lists::Keyed;
use crate::records::{
    AdditionalMount, CapacityDetail, Config, GoRecipe, GoSetup, QueueDisposition,
    ResourceAllocation, SessionDetail, State, TargetReadiness,
};
#[allow(unused_imports)]
use crate::records::{
    AdditionalMountView, CapacityDetailView, ConfigView, GoRecipeView, GoSetupView,
    ResourceAllocationView, SessionDetailView, StateView, TargetReadinessView,
};

verus! {

// --- Actions ---

/// What is being done to a session.
#[derive(Debug, Clone, Copy, PartialEq, Eq, Structural)]
pub enum SessionOperationKind {
    Launching,
    Resuming,
    Moving,
    Suspending,
}

impl DeepView for SessionOperationKind {
    type V = SessionOperationKind;

    open spec fn deep_view(&self) -> SessionOperationKind {
        *self
    }
}

impl Duplicate for SessionOperationKind {
    fn duplicate(&self) -> (copy: SessionOperationKind) {
        *self
    }
}

/// What a new session works on.
#[derive(Debug, PartialEq, Eq)]
pub enum ProjectContext {
    /// A configured bundle.
    Bundle(String),
    /// The directory itself, under an id derived from this text.
    Directory(String),
}

/// What a [`ProjectContext`] holds.
#[verifier::ext_equal]
pub enum ProjectContextView {
    Bundle(Seq<char>),
    Directory(Seq<char>),
}

impl DeepView for ProjectContext {
    type V = ProjectContextView;

    open spec fn deep_view(&self) -> ProjectContextView {
        match self {
            ProjectContext::Bundle(inner) => ProjectContextView::Bundle(inner.deep_view()),
            ProjectContext::Directory(inner) => ProjectContextView::Directory(inner.deep_view()),
        }
    }
}

impl View for ProjectContext {
    type V = ProjectContextView;

    open spec fn view(&self) -> ProjectContextView {
        self.deep_view()
    }
}

impl Duplicate for ProjectContext {
    fn duplicate(&self) -> (copy: ProjectContext) {
        match self {
            ProjectContext::Bundle(inner) => ProjectContext::Bundle(inner.duplicate()),
            ProjectContext::Directory(inner) => ProjectContext::Directory(inner.duplicate()),
        }
    }
}

/// A session to create.
#[derive(Debug, PartialEq, Eq)]
pub struct CreateSession {
    /// Nothing where the harness has no such choice.
    pub mjolnir_subagents: Option<bool>,
    pub create_managed_worktree: bool,
    pub workspace_id: String,
    pub profile_id: String,
    pub project: ProjectContext,
    pub project_directory: Option<String>,
    pub target_template_id: String,
    pub additional_mounts: Vec<AdditionalMount>,
    pub resource_allocation: Option<ResourceAllocation>,
}

/// What a [`CreateSession`] holds.
#[verifier::ext_equal]
pub struct CreateSessionView {
    pub mjolnir_subagents: Option<bool>,
    pub create_managed_worktree: bool,
    pub workspace_id: Seq<char>,
    pub profile_id: Seq<char>,
    pub project: ProjectContextView,
    pub project_directory: Option<Seq<char>>,
    pub target_template_id: Seq<char>,
    pub additional_mounts: Seq<AdditionalMountView>,
    pub resource_allocation: Option<ResourceAllocationView>,
}

impl DeepView for CreateSession {
    type V = CreateSessionView;

    open spec fn deep_view(&self) -> CreateSessionView {
        CreateSessionView {
            mjolnir_subagents: self.mjolnir_subagents.deep_view(),
            create_managed_worktree: self.create_managed_worktree.deep_view(),
            workspace_id: self.workspace_id.deep_view(),
            profile_id: self.profile_id.deep_view(),
            project: self.project.deep_view(),
            project_directory: self.project_directory.deep_view(),
            target_template_id: self.target_template_id.deep_view(),
            additional_mounts: self.additional_mounts.deep_view(),
            resource_allocation: self.resource_allocation.deep_view(),
        }
    }
}

impl View for CreateSession {
    type V = CreateSessionView;

    open spec fn view(&self) -> CreateSessionView {
        self.deep_view()
    }
}

impl Duplicate for CreateSession {
    fn duplicate(&self) -> (copy: CreateSession) {
        CreateSession {
            mjolnir_subagents: self.mjolnir_subagents.duplicate(),
            create_managed_worktree: self.create_managed_worktree.duplicate(),
            workspace_id: self.workspace_id.duplicate(),
            profile_id: self.profile_id.duplicate(),
            project: self.project.duplicate(),
            project_directory: self.project_directory.duplicate(),
            target_template_id: self.target_template_id.duplicate(),
            additional_mounts: self.additional_mounts.duplicate(),
            resource_allocation: self.resource_allocation.duplicate(),
        }
    }
}

/// A session to resume.
#[derive(Debug, PartialEq, Eq)]
pub struct ResumeSession {
    pub workspace_id: String,
    pub session_id: String,
    pub profile_id: String,
    pub target_template_id: String,
    pub additional_mounts: Vec<AdditionalMount>,
    pub resource_allocation: Option<ResourceAllocation>,
    pub discard_queue: bool,
}

/// What a [`ResumeSession`] holds.
#[verifier::ext_equal]
pub struct ResumeSessionView {
    pub workspace_id: Seq<char>,
    pub session_id: Seq<char>,
    pub profile_id: Seq<char>,
    pub target_template_id: Seq<char>,
    pub additional_mounts: Seq<AdditionalMountView>,
    pub resource_allocation: Option<ResourceAllocationView>,
    pub discard_queue: bool,
}

impl DeepView for ResumeSession {
    type V = ResumeSessionView;

    open spec fn deep_view(&self) -> ResumeSessionView {
        ResumeSessionView {
            workspace_id: self.workspace_id.deep_view(),
            session_id: self.session_id.deep_view(),
            profile_id: self.profile_id.deep_view(),
            target_template_id: self.target_template_id.deep_view(),
            additional_mounts: self.additional_mounts.deep_view(),
            resource_allocation: self.resource_allocation.deep_view(),
            discard_queue: self.discard_queue.deep_view(),
        }
    }
}

impl View for ResumeSession {
    type V = ResumeSessionView;

    open spec fn view(&self) -> ResumeSessionView {
        self.deep_view()
    }
}

impl Duplicate for ResumeSession {
    fn duplicate(&self) -> (copy: ResumeSession) {
        ResumeSession {
            workspace_id: self.workspace_id.duplicate(),
            session_id: self.session_id.duplicate(),
            profile_id: self.profile_id.duplicate(),
            target_template_id: self.target_template_id.duplicate(),
            additional_mounts: self.additional_mounts.duplicate(),
            resource_allocation: self.resource_allocation.duplicate(),
            discard_queue: self.discard_queue.duplicate(),
        }
    }
}

/// A session to move, or a move to prepare.
#[derive(Debug, PartialEq, Eq)]
pub struct MoveSession {
    pub session_id: String,
    pub profile_id: String,
    pub target_template_id: String,
    pub additional_mounts: Vec<AdditionalMount>,
    pub resource_allocation: Option<ResourceAllocation>,
    pub clear_resource_allocation: bool,
    /// The preparation that is asked for; nothing once the move is confirmed.
    pub preparation_request_id: Option<u64>,
    pub queue: QueueDisposition,
}

/// What a [`MoveSession`] holds.
#[verifier::ext_equal]
pub struct MoveSessionView {
    pub session_id: Seq<char>,
    pub profile_id: Seq<char>,
    pub target_template_id: Seq<char>,
    pub additional_mounts: Seq<AdditionalMountView>,
    pub resource_allocation: Option<ResourceAllocationView>,
    pub clear_resource_allocation: bool,
    pub preparation_request_id: Option<u64>,
    pub queue: QueueDisposition,
}

impl DeepView for MoveSession {
    type V = MoveSessionView;

    open spec fn deep_view(&self) -> MoveSessionView {
        MoveSessionView {
            session_id: self.session_id.deep_view(),
            profile_id: self.profile_id.deep_view(),
            target_template_id: self.target_template_id.deep_view(),
            additional_mounts: self.additional_mounts.deep_view(),
            resource_allocation: self.resource_allocation.deep_view(),
            clear_resource_allocation: self.clear_resource_allocation.deep_view(),
            preparation_request_id: self.preparation_request_id.deep_view(),
            queue: self.queue.deep_view(),
        }
    }
}

impl View for MoveSession {
    type V = MoveSessionView;

    open spec fn view(&self) -> MoveSessionView {
        self.deep_view()
    }
}

impl Duplicate for MoveSession {
    fn duplicate(&self) -> (copy: MoveSession) {
        MoveSession {
            session_id: self.session_id.duplicate(),
            profile_id: self.profile_id.duplicate(),
            target_template_id: self.target_template_id.duplicate(),
            additional_mounts: self.additional_mounts.duplicate(),
            resource_allocation: self.resource_allocation.duplicate(),
            clear_resource_allocation: self.clear_resource_allocation.duplicate(),
            preparation_request_id: self.preparation_request_id.duplicate(),
            queue: self.queue.duplicate(),
        }
    }
}

/// What follows once attached directories are found usable.
#[derive(Debug, PartialEq, Eq)]
pub enum Launch {
    /// Create the session.
    Create(CreateSession),
    /// Check the session's repositories, then resume it.
    PreflightResume(ResumeSession),
}

/// What a [`Launch`] holds.
#[verifier::ext_equal]
pub enum LaunchView {
    Create(CreateSessionView),
    PreflightResume(ResumeSessionView),
}

impl DeepView for Launch {
    type V = LaunchView;

    open spec fn deep_view(&self) -> LaunchView {
        match self {
            Launch::Create(inner) => LaunchView::Create(inner.deep_view()),
            Launch::PreflightResume(inner) => LaunchView::PreflightResume(inner.deep_view()),
        }
    }
}

impl View for Launch {
    type V = LaunchView;

    open spec fn view(&self) -> LaunchView {
        self.deep_view()
    }
}

impl Duplicate for Launch {
    fn duplicate(&self) -> (copy: Launch) {
        match self {
            Launch::Create(inner) => Launch::Create(inner.duplicate()),
            Launch::PreflightResume(inner) => Launch::PreflightResume(inner.duplicate()),
        }
    }
}

/// Whose directories complete a path.
#[derive(Debug, PartialEq, Eq)]
pub enum CompletionHost {
    /// The machine the dashboard runs on.
    Controller,
    /// A target's host.
    Target(String),
}

/// What a [`CompletionHost`] holds.
#[verifier::ext_equal]
pub enum CompletionHostView {
    Controller,
    Target(Seq<char>),
}

impl DeepView for CompletionHost {
    type V = CompletionHostView;

    open spec fn deep_view(&self) -> CompletionHostView {
        match self {
            CompletionHost::Controller => CompletionHostView::Controller,
            CompletionHost::Target(inner) => CompletionHostView::Target(inner.deep_view()),
        }
    }
}

impl View for CompletionHost {
    type V = CompletionHostView;

    open spec fn view(&self) -> CompletionHostView {
        self.deep_view()
    }
}

impl Duplicate for CompletionHost {
    fn duplicate(&self) -> (copy: CompletionHost) {
        match self {
            CompletionHost::Controller => CompletionHost::Controller,
            CompletionHost::Target(inner) => CompletionHost::Target(inner.duplicate()),
        }
    }
}

/// Something for the rest of the program to do.
#[derive(Debug, PartialEq, Eq)]
pub enum DashboardAction {
    Nothing,
    /// Launch as set up before.
    GoLaunch {
        recipe: GoRecipe,
    },
    /// Ask how a quick launch is to be set up.
    ChangeGoSetup,
    /// Make a bundle of the directory of a quick launch.
    GoPrepareProject {
        target_id: String,
    },
    CreateBundle {
        sources: Vec<String>,
    },
    ValidateProjectDirectory {
        target_template_id: String,
        directory: String,
    },
    ValidateMountSource {
        target_template_id: String,
        source: String,
    },
    ValidateSessionMounts {
        target_template_id: String,
        mounts: Vec<AdditionalMount>,
        launch: Launch,
    },
    PreflightCreateSession(CreateSession),
    PreflightResumeRepositories(ResumeSession),
    CreateSession(CreateSession),
    MoveSession(MoveSession),
    RestoreArchivedSession {
        workspace_id: String,
        wiki_id: String,
        profile_id: String,
        target_template_id: String,
    },
    ResolveAwsResourceOptions {
        target_template_ids: Vec<String>,
    },
    CheckTargetReadiness {
        generation: u64,
        target_ids: Vec<String>,
    },
    /// List directories that begin like what was typed.
    CompletePath {
        host: CompletionHost,
        prefix: String,
    },
    DiscoverProjects {
        context: String,
        request: ProjectDiscoveryRequest,
    },
    CancelOperation {
        session_id: String,
        kind: SessionOperationKind,
    },
}

/// What a [`DashboardAction`] holds.
#[verifier::ext_equal]
pub enum DashboardActionView {
    Nothing,
    GoLaunch {
        recipe: GoRecipeView,
    },
    ChangeGoSetup,
    GoPrepareProject {
        target_id: Seq<char>,
    },
    CreateBundle {
        sources: Seq<Seq<char>>,
    },
    ValidateProjectDirectory {
        target_template_id: Seq<char>,
        directory: Seq<char>,
    },
    ValidateMountSource {
        target_template_id: Seq<char>,
        source: Seq<char>,
    },
    ValidateSessionMounts {
        target_template_id: Seq<char>,
        mounts: Seq<AdditionalMountView>,
        launch: LaunchView,
    },
    PreflightCreateSession(CreateSessionView),
    PreflightResumeRepositories(ResumeSessionView),
    CreateSession(CreateSessionView),
    MoveSession(MoveSessionView),
    RestoreArchivedSession {
        workspace_id: Seq<char>,
        wiki_id: Seq<char>,
        profile_id: Seq<char>,
        target_template_id: Seq<char>,
    },
    ResolveAwsResourceOptions {
        target_template_ids: Seq<Seq<char>>,
    },
    CheckTargetReadiness {
        generation: u64,
        target_ids: Seq<Seq<char>>,
    },
    CompletePath {
        host: CompletionHostView,
        prefix: Seq<char>,
    },
    DiscoverProjects {
        context: Seq<char>,
        request: ProjectDiscoveryRequestView,
    },
    CancelOperation {
        session_id: Seq<char>,
        kind: SessionOperationKind,
    },
}

impl DeepView for DashboardAction {
    type V = DashboardActionView;

    open spec fn deep_view(&self) -> DashboardActionView {
        match self {
            DashboardAction::Nothing => DashboardActionView::Nothing,
            DashboardAction::GoLaunch { recipe } => DashboardActionView::GoLaunch {
                recipe: recipe.deep_view(),
            },
            DashboardAction::ChangeGoSetup => DashboardActionView::ChangeGoSetup,
            DashboardAction::GoPrepareProject { target_id } => DashboardActionView::GoPrepareProject {
                target_id: target_id.deep_view(),
            },
            DashboardAction::CreateBundle { sources } => DashboardActionView::CreateBundle {
                sources: sources.deep_view(),
            },
            DashboardAction::ValidateProjectDirectory { target_template_id, directory } => DashboardActionView::ValidateProjectDirectory {
                target_template_id: target_template_id.deep_view(),
                directory: directory.deep_view(),
            },
            DashboardAction::ValidateMountSource { target_template_id, source } => DashboardActionView::ValidateMountSource {
                target_template_id: target_template_id.deep_view(),
                source: source.deep_view(),
            },
            DashboardAction::ValidateSessionMounts { target_template_id, mounts, launch } => DashboardActionView::ValidateSessionMounts {
                target_template_id: target_template_id.deep_view(),
                mounts: mounts.deep_view(),
                launch: launch.deep_view(),
            },
            DashboardAction::PreflightCreateSession(inner) => DashboardActionView::PreflightCreateSession(inner.deep_view()),
            DashboardAction::PreflightResumeRepositories(inner) => DashboardActionView::PreflightResumeRepositories(inner.deep_view()),
            DashboardAction::CreateSession(inner) => DashboardActionView::CreateSession(inner.deep_view()),
            DashboardAction::MoveSession(inner) => DashboardActionView::MoveSession(inner.deep_view()),
            DashboardAction::RestoreArchivedSession { workspace_id, wiki_id, profile_id, target_template_id } => DashboardActionView::RestoreArchivedSession {
                workspace_id: workspace_id.deep_view(),
                wiki_id: wiki_id.deep_view(),
                profile_id: profile_id.deep_view(),
                target_template_id: target_template_id.deep_view(),
            },
            DashboardAction::ResolveAwsResourceOptions { target_template_ids } => DashboardActionView::ResolveAwsResourceOptions {
                target_template_ids: target_template_ids.deep_view(),
            },
            DashboardAction::CheckTargetReadiness { generation, target_ids } => DashboardActionView::CheckTargetReadiness {
                generation: generation.deep_view(),
                target_ids: target_ids.deep_view(),
            },
            DashboardAction::CompletePath { host, prefix } => DashboardActionView::CompletePath {
                host: host.deep_view(),
                prefix: prefix.deep_view(),
            },
            DashboardAction::DiscoverProjects { context, request } => DashboardActionView::DiscoverProjects {
                context: context.deep_view(),
                request: request.deep_view(),
            },
            DashboardAction::CancelOperation { session_id, kind } => DashboardActionView::CancelOperation {
                session_id: session_id.deep_view(),
                kind: kind.deep_view(),
            },
        }
    }
}

impl View for DashboardAction {
    type V = DashboardActionView;

    open spec fn view(&self) -> DashboardActionView {
        self.deep_view()
    }
}

impl Duplicate for DashboardAction {
    fn duplicate(&self) -> (copy: DashboardAction) {
        match self {
            DashboardAction::Nothing => DashboardAction::Nothing,
            DashboardAction::GoLaunch { recipe } => DashboardAction::GoLaunch {
                recipe: recipe.duplicate(),
            },
            DashboardAction::ChangeGoSetup => DashboardAction::ChangeGoSetup,
            DashboardAction::GoPrepareProject { target_id } => DashboardAction::GoPrepareProject {
                target_id: target_id.duplicate(),
            },
            DashboardAction::CreateBundle { sources } => DashboardAction::CreateBundle {
                sources: sources.duplicate(),
            },
            DashboardAction::ValidateProjectDirectory { target_template_id, directory } => DashboardAction::ValidateProjectDirectory {
                target_template_id: target_template_id.duplicate(),
                directory: directory.duplicate(),
            },
            DashboardAction::ValidateMountSource { target_template_id, source } => DashboardAction::ValidateMountSource {
                target_template_id: target_template_id.duplicate(),
                source: source.duplicate(),
            },
            DashboardAction::ValidateSessionMounts { target_template_id, mounts, launch } => DashboardAction::ValidateSessionMounts {
                target_template_id: target_template_id.duplicate(),
                mounts: mounts.duplicate(),
                launch: launch.duplicate(),
            },
            DashboardAction::PreflightCreateSession(inner) => DashboardAction::PreflightCreateSession(inner.duplicate()),
            DashboardAction::PreflightResumeRepositories(inner) => DashboardAction::PreflightResumeRepositories(inner.duplicate()),
            DashboardAction::CreateSession(inner) => DashboardAction::CreateSession(inner.duplicate()),
            DashboardAction::MoveSession(inner) => DashboardAction::MoveSession(inner.duplicate()),
            DashboardAction::RestoreArchivedSession { workspace_id, wiki_id, profile_id, target_template_id } => DashboardAction::RestoreArchivedSession {
                workspace_id: workspace_id.duplicate(),
                wiki_id: wiki_id.duplicate(),
                profile_id: profile_id.duplicate(),
                target_template_id: target_template_id.duplicate(),
            },
            DashboardAction::ResolveAwsResourceOptions { target_template_ids } => DashboardAction::ResolveAwsResourceOptions {
                target_template_ids: target_template_ids.duplicate(),
            },
            DashboardAction::CheckTargetReadiness { generation, target_ids } => DashboardAction::CheckTargetReadiness {
                generation: generation.duplicate(),
                target_ids: target_ids.duplicate(),
            },
            DashboardAction::CompletePath { host, prefix } => DashboardAction::CompletePath {
                host: host.duplicate(),
                prefix: prefix.duplicate(),
            },
            DashboardAction::DiscoverProjects { context, request } => DashboardAction::DiscoverProjects {
                context: context.duplicate(),
                request: request.duplicate(),
            },
            DashboardAction::CancelOperation { session_id, kind } => DashboardAction::CancelOperation {
                session_id: session_id.duplicate(),
                kind: kind.duplicate(),
            },
        }
    }
}

// --- State ---

/// The part of the dashboard that has the keyboard.
#[derive(Debug, Clone, Copy, PartialEq, Eq, Structural)]
pub enum Focus {
    Workspaces,
    Sessions,
    Targets,
    Quota,
    Prompt,
}

impl DeepView for Focus {
    type V = Focus;

    open spec fn deep_view(&self) -> Focus {
        *self
    }
}

impl Duplicate for Focus {
    fn duplicate(&self) -> (copy: Focus) {
        *self
    }
}

/// How large a pane is.
#[derive(Debug, Clone, Copy, PartialEq, Eq, Structural)]
pub enum PaneSize {
    Standard,
    Maximized,
    Minimized,
}

impl DeepView for PaneSize {
    type V = PaneSize;

    open spec fn deep_view(&self) -> PaneSize {
        *self
    }
}

impl Duplicate for PaneSize {
    fn duplicate(&self) -> (copy: PaneSize) {
        *self
    }
}

/// How large each pane is.
#[derive(Debug, Clone, Copy, PartialEq, Eq, Structural)]
pub struct PaneSizes {
    pub sessions: PaneSize,
    pub targets: PaneSize,
    pub quota: PaneSize,
}

impl DeepView for PaneSizes {
    type V = PaneSizes;

    open spec fn deep_view(&self) -> PaneSizes {
        *self
    }
}

impl Duplicate for PaneSizes {
    fn duplicate(&self) -> (copy: PaneSizes) {
        *self
    }
}

/// A fact about each pane.
#[derive(Debug, Clone, Copy, PartialEq, Eq, Structural)]
pub struct PaneFlags {
    pub sessions: bool,
    pub targets: bool,
    pub quota: bool,
}

impl DeepView for PaneFlags {
    type V = PaneFlags;

    open spec fn deep_view(&self) -> PaneFlags {
        *self
    }
}

impl Duplicate for PaneFlags {
    fn duplicate(&self) -> (copy: PaneFlags) {
        *self
    }
}

/// An operation of a session that is in progress.
#[derive(Debug, PartialEq, Eq)]
pub struct SessionOperation {
    pub session_id: String,
    pub kind: SessionOperationKind,
}

/// What a [`SessionOperation`] holds.
#[verifier::ext_equal]
pub struct SessionOperationView {
    pub session_id: Seq<char>,
    pub kind: SessionOperationKind,
}

impl DeepView for SessionOperation {
    type V = SessionOperationView;

    open spec fn deep_view(&self) -> SessionOperationView {
        SessionOperationView {
            session_id: self.session_id.deep_view(),
            kind: self.kind.deep_view(),
        }
    }
}

impl View for SessionOperation {
    type V = SessionOperationView;

    open spec fn view(&self) -> SessionOperationView {
        self.deep_view()
    }
}

impl Duplicate for SessionOperation {
    fn duplicate(&self) -> (copy: SessionOperation) {
        SessionOperation {
            session_id: self.session_id.duplicate(),
            kind: self.kind.duplicate(),
        }
    }
}

impl Keyed for SessionOperation {
    open spec fn key_of(view: SessionOperationView) -> Seq<char> {
        view.session_id
    }

    fn key(&self) -> (key: &str) {
        self.session_id.as_str()
    }
}

/// The message at the foot of the dashboard.
#[derive(Debug, PartialEq, Eq)]
pub struct Notice {
    pub text: String,
    pub failure: bool,
}

/// What a [`Notice`] holds.
#[verifier::ext_equal]
pub struct NoticeView {
    pub text: Seq<char>,
    pub failure: bool,
}

impl DeepView for Notice {
    type V = NoticeView;

    open spec fn deep_view(&self) -> NoticeView {
        NoticeView {
            text: self.text.deep_view(),
            failure: self.failure.deep_view(),
        }
    }
}

impl View for Notice {
    type V = NoticeView;

    open spec fn view(&self) -> NoticeView {
        self.deep_view()
    }
}

impl Duplicate for Notice {
    fn duplicate(&self) -> (copy: Notice) {
        Notice {
            text: self.text.duplicate(),
            failure: self.failure.duplicate(),
        }
    }
}

/// What the dashboard shows.
#[derive(Debug, PartialEq, Eq)]
pub enum Mode {
    /// The sessions themselves.
    Dashboard,
    /// A section of the settings.
    Settings(String),
    /// Any other dialog, by what tells its drafts apart: the part that it adds
    /// to the context of a background path operation. It is empty for a dialog
    /// that has no paths.
    Other(String),
    /// A session wizard.
    Wizard(Draft),
}

/// What a [`Mode`] holds.
#[verifier::ext_equal]
pub enum ModeView {
    Dashboard,
    Settings(Seq<char>),
    Other(Seq<char>),
    Wizard(DraftView),
}

impl DeepView for Mode {
    type V = ModeView;

    open spec fn deep_view(&self) -> ModeView {
        match self {
            Mode::Dashboard => ModeView::Dashboard,
            Mode::Settings(inner) => ModeView::Settings(inner.deep_view()),
            Mode::Other(inner) => ModeView::Other(inner.deep_view()),
            Mode::Wizard(inner) => ModeView::Wizard(inner.deep_view()),
        }
    }
}

impl View for Mode {
    type V = ModeView;

    open spec fn view(&self) -> ModeView {
        self.deep_view()
    }
}

impl Duplicate for Mode {
    fn duplicate(&self) -> (copy: Mode) {
        match self {
            Mode::Dashboard => Mode::Dashboard,
            Mode::Settings(inner) => Mode::Settings(inner.duplicate()),
            Mode::Other(inner) => Mode::Other(inner.duplicate()),
            Mode::Wizard(inner) => Mode::Wizard(inner.duplicate()),
        }
    }
}

/// Everything the wizards read and change.
#[derive(Debug, PartialEq, Eq)]
pub struct DashboardState {
    pub config: Config,
    pub state: State,
    pub session_details: Vec<SessionDetail>,
    pub capacity_details: Vec<CapacityDetail>,
    pub target_readiness: Vec<TargetReadiness>,
    pub next_readiness_generation: u64,
    pub go: Option<GoSetup>,
    pub launch_project_directory: Option<String>,
    pub active_workspace_id: Option<String>,
    pub selected_session: Option<String>,
    /// The session that was selected before a refresh did not carry it.
    pub displaced_session: Option<String>,
    /// Sessions with an operation in progress.
    pub operations: Vec<SessionOperation>,
    pub focus: Focus,
    pub pane_sizes: PaneSizes,
    /// Whether each pane has more to show when it is maximized.
    pub maximizable: PaneFlags,
    pub mode: Mode,
    pub notice: Option<Notice>,
    /// Answers to checks begun before this changed are dropped.
    pub preflight_generation: u64,
    pub next_move_preparation_request_id: u64,
    pub next_picker_id: u64,
    /// The last event changed something.
    pub event_handled: bool,
    /// The time, in nanoseconds.
    pub now: u64,
}

/// What a [`DashboardState`] holds.
#[verifier::ext_equal]
pub struct DashboardStateView {
    pub config: ConfigView,
    pub state: StateView,
    pub session_details: Seq<SessionDetailView>,
    pub capacity_details: Seq<CapacityDetailView>,
    pub target_readiness: Seq<TargetReadinessView>,
    pub next_readiness_generation: u64,
    pub go: Option<GoSetupView>,
    pub launch_project_directory: Option<Seq<char>>,
    pub active_workspace_id: Option<Seq<char>>,
    pub selected_session: Option<Seq<char>>,
    pub displaced_session: Option<Seq<char>>,
    pub operations: Seq<SessionOperationView>,
    pub focus: Focus,
    pub pane_sizes: PaneSizes,
    pub maximizable: PaneFlags,
    pub mode: ModeView,
    pub notice: Option<NoticeView>,
    pub preflight_generation: u64,
    pub next_move_preparation_request_id: u64,
    pub next_picker_id: u64,
    pub event_handled: bool,
    pub now: u64,
}

impl DeepView for DashboardState {
    type V = DashboardStateView;

    open spec fn deep_view(&self) -> DashboardStateView {
        DashboardStateView {
            config: self.config.deep_view(),
            state: self.state.deep_view(),
            session_details: self.session_details.deep_view(),
            capacity_details: self.capacity_details.deep_view(),
            target_readiness: self.target_readiness.deep_view(),
            next_readiness_generation: self.next_readiness_generation.deep_view(),
            go: self.go.deep_view(),
            launch_project_directory: self.launch_project_directory.deep_view(),
            active_workspace_id: self.active_workspace_id.deep_view(),
            selected_session: self.selected_session.deep_view(),
            displaced_session: self.displaced_session.deep_view(),
            operations: self.operations.deep_view(),
            focus: self.focus.deep_view(),
            pane_sizes: self.pane_sizes.deep_view(),
            maximizable: self.maximizable.deep_view(),
            mode: self.mode.deep_view(),
            notice: self.notice.deep_view(),
            preflight_generation: self.preflight_generation.deep_view(),
            next_move_preparation_request_id: self.next_move_preparation_request_id.deep_view(),
            next_picker_id: self.next_picker_id.deep_view(),
            event_handled: self.event_handled.deep_view(),
            now: self.now.deep_view(),
        }
    }
}

impl View for DashboardState {
    type V = DashboardStateView;

    open spec fn view(&self) -> DashboardStateView {
        self.deep_view()
    }
}

impl Duplicate for DashboardState {
    fn duplicate(&self) -> (copy: DashboardState) {
        DashboardState {
            config: self.config.duplicate(),
            state: self.state.duplicate(),
            session_details: self.session_details.duplicate(),
            capacity_details: self.capacity_details.duplicate(),
            target_readiness: self.target_readiness.duplicate(),
            next_readiness_generation: self.next_readiness_generation.duplicate(),
            go: self.go.duplicate(),
            launch_project_directory: self.launch_project_directory.duplicate(),
            active_workspace_id: self.active_workspace_id.duplicate(),
            selected_session: self.selected_session.duplicate(),
            displaced_session: self.displaced_session.duplicate(),
            operations: self.operations.duplicate(),
            focus: self.focus.duplicate(),
            pane_sizes: self.pane_sizes.duplicate(),
            maximizable: self.maximizable.duplicate(),
            mode: self.mode.duplicate(),
            notice: self.notice.duplicate(),
            preflight_generation: self.preflight_generation.duplicate(),
            next_move_preparation_request_id: self.next_move_preparation_request_id.duplicate(),
            next_picker_id: self.next_picker_id.duplicate(),
            event_handled: self.event_handled.duplicate(),
            now: self.now.duplicate(),
        }
    }
}

} // verus!
