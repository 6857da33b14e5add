//! The wizard drafts: what a new, resumed or moved session is going to be.

use vstd::prelude::*;

use crate::duplicate::Duplicate;
use crate::lists::Keyed;
use crate::records::{
    AdditionalMount, InspectedDirectory, MountAccess, MovePreparation, RemoteRepository,
    ResourceAllocation, TargetSizes,
};
#[allow(unused_imports)]
use crate::records::{
    AdditionalMountView, InspectedDirectoryView, MovePreparationView, RemoteRepositoryView,
    ResourceAllocationView, TargetSizesView,
};

verus! {

// --- Steps and controls ---

/// The steps of the two session wizards.
#[derive(Debug, Clone, Copy, PartialEq, Eq, Structural)]
pub enum WizardStep {
    Profile,
    Target,
    Bundle,
    ProjectDirectory,
    Review,
    Mounts,
    NewBundle,
}

impl DeepView for WizardStep {
    type V = WizardStep;

    open spec fn deep_view(&self) -> WizardStep {
        *self
    }
}

impl Duplicate for WizardStep {
    fn duplicate(&self) -> (copy: WizardStep) {
        *self
    }
}

/// Stable control identities shared by the new-session and resume wizards.
#[derive(Debug, Clone, Copy, PartialEq, Eq, Structural)]
pub enum WizardControl {
    ProfileList,
    BundleList,
    TargetList,
    ProjectDirectory,
    RecentProject(usize),
    NewBundleRepositories,
    NewBundleSource,
    NewBundleRemove,
    ProjectRecent,
    ProjectGithub,
    ProjectFolders,
    ProjectUrl,
    ProjectQuery,
    ProjectSearch,
    ProjectUp,
    ProjectHome,
    ProjectOpenFolder,
    ProjectRetry,
    ProjectResults,
    ProjectMultiple,
    ProjectMakePrimary,
    MountSource,
    MountDestination,
    MountAccess,
    ReviewAttachments,
    CreateManagedWorktree,
    MjolnirSubagents,
    DiscardQueue,
    Cancel,
    Back,
    Next,
    Add,
    Submit,
}

impl DeepView for WizardControl {
    type V = WizardControl;

    open spec fn deep_view(&self) -> WizardControl {
        *self
    }
}

impl Duplicate for WizardControl {
    fn duplicate(&self) -> (copy: WizardControl) {
        *self
    }
}

/// A draft edit that may invalidate an answer a background task already owes
/// the wizard.
#[derive(Debug, Clone, Copy, PartialEq, Eq, Structural)]
pub enum DraftChange {
    /// A text field in the draft was edited.
    FieldEdit,
    /// A different profile row was selected.
    ProfileSelected,
    /// A different bundle row was selected. Resume has no bundle step.
    BundleSelected,
    /// A different target row was selected.
    TargetSelected,
    /// The attachment editor's access mode was committed.
    ReadOnlyToggled,
    /// The container or instance size was changed from the target step.
    ResourcesAdjusted,
    /// An already attached directory was opened for editing from the review.
    AttachmentOpened,
    /// A fresh attachment editor was opened from the review's Add button.
    AttachmentEditorOpened,
    /// An attached directory was removed from the review.
    AttachmentRemoved,
    /// The review step was left through Back.
    ReviewLeft,
}

impl DeepView for DraftChange {
    type V = DraftChange;

    open spec fn deep_view(&self) -> DraftChange {
        *self
    }
}

impl Duplicate for DraftChange {
    fn duplicate(&self) -> (copy: DraftChange) {
        *self
    }
}

// --- Fields and form ---

/// A text field for a path, with the popup that completes it.
#[derive(Debug, PartialEq, Eq)]
pub struct PathInput {
    pub text: String,
    /// The completion popup is open.
    pub completing: bool,
}

/// What a [`PathInput`] holds.
#[verifier::ext_equal]
pub struct PathInputView {
    pub text: Seq<char>,
    pub completing: bool,
}

impl DeepView for PathInput {
    type V = PathInputView;

    open spec fn deep_view(&self) -> PathInputView {
        PathInputView {
            text: self.text.deep_view(),
            completing: self.completing.deep_view(),
        }
    }
}

impl View for PathInput {
    type V = PathInputView;

    open spec fn view(&self) -> PathInputView {
        self.deep_view()
    }
}

impl Duplicate for PathInput {
    fn duplicate(&self) -> (copy: PathInput) {
        PathInput {
            text: self.text.duplicate(),
            completing: self.completing.duplicate(),
        }
    }
}

/// Something the form is to note about a part of the draft.
#[derive(Debug, PartialEq, Eq)]
pub enum PartRequest {
    /// The attachment editor holds nothing that was typed.
    ForgetAttachmentEditor,
    /// The size is this one.
    TrackResources(Option<ResourceAllocation>),
}

/// What a [`PartRequest`] holds.
#[verifier::ext_equal]
pub enum PartRequestView {
    ForgetAttachmentEditor,
    TrackResources(Option<ResourceAllocationView>),
}

impl DeepView for PartRequest {
    type V = PartRequestView;

    open spec fn deep_view(&self) -> PartRequestView {
        match self {
            PartRequest::ForgetAttachmentEditor => PartRequestView::ForgetAttachmentEditor,
            PartRequest::TrackResources(inner) => PartRequestView::TrackResources(inner.deep_view()),
        }
    }
}

impl View for PartRequest {
    type V = PartRequestView;

    open spec fn view(&self) -> PartRequestView {
        self.deep_view()
    }
}

impl Duplicate for PartRequest {
    fn duplicate(&self) -> (copy: PartRequest) {
        match self {
            PartRequest::ForgetAttachmentEditor => PartRequest::ForgetAttachmentEditor,
            PartRequest::TrackResources(inner) => PartRequest::TrackResources(inner.duplicate()),
        }
    }
}

/// What the wizard asks of its form.
#[derive(Debug, PartialEq, Eq)]
pub struct FormState {
    pub focused: Option<WizardControl>,
    /// A submitted field is being validated.
    pub submission_pending: bool,
    /// In the order they were made.
    pub requests: Vec<PartRequest>,
}

/// What a [`FormState`] holds.
#[verifier::ext_equal]
pub struct FormStateView {
    pub focused: Option<WizardControl>,
    pub submission_pending: bool,
    pub requests: Seq<PartRequestView>,
}

impl DeepView for FormState {
    type V = FormStateView;

    open spec fn deep_view(&self) -> FormStateView {
        FormStateView {
            focused: self.focused.deep_view(),
            submission_pending: self.submission_pending.deep_view(),
            requests: self.requests.deep_view(),
        }
    }
}

impl View for FormState {
    type V = FormStateView;

    open spec fn view(&self) -> FormStateView {
        self.deep_view()
    }
}

impl Duplicate for FormState {
    fn duplicate(&self) -> (copy: FormState) {
        FormState {
            focused: self.focused.duplicate(),
            submission_pending: self.submission_pending.duplicate(),
            requests: self.requests.duplicate(),
        }
    }
}

// --- Attached directories ---

/// A source whose file system cannot hold a copy-on-write overlay.
#[derive(Debug, PartialEq, Eq)]
pub struct ForcedSource {
    pub source: String,
    /// The file system and why, as shown.
    pub reason: String,
}

/// What a [`ForcedSource`] holds.
#[verifier::ext_equal]
pub struct ForcedSourceView {
    pub source: Seq<char>,
    pub reason: Seq<char>,
}

impl DeepView for ForcedSource {
    type V = ForcedSourceView;

    open spec fn deep_view(&self) -> ForcedSourceView {
        ForcedSourceView {
            source: self.source.deep_view(),
            reason: self.reason.deep_view(),
        }
    }
}

impl View for ForcedSource {
    type V = ForcedSourceView;

    open spec fn view(&self) -> ForcedSourceView {
        self.deep_view()
    }
}

impl Duplicate for ForcedSource {
    fn duplicate(&self) -> (copy: ForcedSource) {
        ForcedSource {
            source: self.source.duplicate(),
            reason: self.reason.duplicate(),
        }
    }
}

/// The attached directories and the editor for one of them.
#[derive(Debug, PartialEq, Eq)]
pub struct MountWizard {
    pub source: PathInput,
    pub destination: PathInput,
    pub access: MountAccess,
    /// The highlighted row of the access list, while it is open.
    pub access_combo: Option<usize>,
    pub mounts: Vec<AdditionalMount>,
    /// Sources used before on the host.
    pub history: Vec<String>,
    /// The selected row, of the attachments or of the history.
    pub history_index: usize,
    /// Sources the target's host reported as unable to hold the overlay.
    pub forced_sources: Vec<ForcedSource>,
    pub error: Option<String>,
    /// The attachment under edit, if it is not a new one.
    pub editing_mount: Option<usize>,
}

/// What a [`MountWizard`] holds.
#[verifier::ext_equal]
pub struct MountWizardView {
    pub source: PathInputView,
    pub destination: PathInputView,
    pub access: MountAccess,
    pub access_combo: Option<usize>,
    pub mounts: Seq<AdditionalMountView>,
    pub history: Seq<Seq<char>>,
    pub history_index: usize,
    pub forced_sources: Seq<ForcedSourceView>,
    pub error: Option<Seq<char>>,
    pub editing_mount: Option<usize>,
}

impl DeepView for MountWizard {
    type V = MountWizardView;

    open spec fn deep_view(&self) -> MountWizardView {
        MountWizardView {
            source: self.source.deep_view(),
            destination: self.destination.deep_view(),
            access: self.access.deep_view(),
            access_combo: self.access_combo.deep_view(),
            mounts: self.mounts.deep_view(),
            history: self.history.deep_view(),
            history_index: self.history_index.deep_view(),
            forced_sources: self.forced_sources.deep_view(),
            error: self.error.deep_view(),
            editing_mount: self.editing_mount.deep_view(),
        }
    }
}

impl View for MountWizard {
    type V = MountWizardView;

    open spec fn view(&self) -> MountWizardView {
        self.deep_view()
    }
}

impl Duplicate for MountWizard {
    fn duplicate(&self) -> (copy: MountWizard) {
        MountWizard {
            source: self.source.duplicate(),
            destination: self.destination.duplicate(),
            access: self.access.duplicate(),
            access_combo: self.access_combo.duplicate(),
            mounts: self.mounts.duplicate(),
            history: self.history.duplicate(),
            history_index: self.history_index.duplicate(),
            forced_sources: self.forced_sources.duplicate(),
            error: self.error.duplicate(),
            editing_mount: self.editing_mount.duplicate(),
        }
    }
}

// --- Choosing projects ---

/// Where projects are looked for.
#[derive(Debug, Clone, Copy, PartialEq, Eq, Structural)]
pub enum ProjectTab {
    Recent,
    Github,
    Folders,
    Url,
}

impl DeepView for ProjectTab {
    type V = ProjectTab;

    open spec fn deep_view(&self) -> ProjectTab {
        *self
    }
}

impl Duplicate for ProjectTab {
    fn duplicate(&self) -> (copy: ProjectTab) {
        *self
    }
}

/// What a project entry is.
#[derive(Debug, Clone, Copy, PartialEq, Eq, Structural)]
pub enum ProjectEntryKind {
    Repository,
    Directory,
}

impl DeepView for ProjectEntryKind {
    type V = ProjectEntryKind;

    open spec fn deep_view(&self) -> ProjectEntryKind {
        *self
    }
}

impl Duplicate for ProjectEntryKind {
    fn duplicate(&self) -> (copy: ProjectEntryKind) {
        *self
    }
}

/// One project that can be chosen.
#[derive(Debug, PartialEq, Eq)]
pub struct ProjectEntry {
    pub name: String,
    pub source: String,
    pub description: String,
    pub kind: ProjectEntryKind,
}

/// What a [`ProjectEntry`] holds.
#[verifier::ext_equal]
pub struct ProjectEntryView {
    pub name: Seq<char>,
    pub source: Seq<char>,
    pub description: Seq<char>,
    pub kind: ProjectEntryKind,
}

impl DeepView for ProjectEntry {
    type V = ProjectEntryView;

    open spec fn deep_view(&self) -> ProjectEntryView {
        ProjectEntryView {
            name: self.name.deep_view(),
            source: self.source.deep_view(),
            description: self.description.deep_view(),
            kind: self.kind.deep_view(),
        }
    }
}

impl View for ProjectEntry {
    type V = ProjectEntryView;

    open spec fn view(&self) -> ProjectEntryView {
        self.deep_view()
    }
}

impl Duplicate for ProjectEntry {
    fn duplicate(&self) -> (copy: ProjectEntry) {
        ProjectEntry {
            name: self.name.duplicate(),
            source: self.source.duplicate(),
            description: self.description.duplicate(),
            kind: self.kind.duplicate(),
        }
    }
}

/// Where to look for projects.
#[derive(Debug, PartialEq, Eq)]
pub enum ProjectDiscoveryRequest {
    /// Repositories that match a search.
    Github {
        query: String,
    },
    /// Folders below a directory; the home directory where none is named.
    Directory {
        path: String,
        filter: String,
    },
}

/// What a [`ProjectDiscoveryRequest`] holds.
#[verifier::ext_equal]
pub enum ProjectDiscoveryRequestView {
    Github {
        query: Seq<char>,
    },
    Directory {
        path: Seq<char>,
        filter: Seq<char>,
    },
}

impl DeepView for ProjectDiscoveryRequest {
    type V = ProjectDiscoveryRequestView;

    open spec fn deep_view(&self) -> ProjectDiscoveryRequestView {
        match self {
            ProjectDiscoveryRequest::Github { query } => ProjectDiscoveryRequestView::Github {
                query: query.deep_view(),
            },
            ProjectDiscoveryRequest::Directory { path, filter } => ProjectDiscoveryRequestView::Directory {
                path: path.deep_view(),
                filter: filter.deep_view(),
            },
        }
    }
}

impl View for ProjectDiscoveryRequest {
    type V = ProjectDiscoveryRequestView;

    open spec fn view(&self) -> ProjectDiscoveryRequestView {
        self.deep_view()
    }
}

impl Duplicate for ProjectDiscoveryRequest {
    fn duplicate(&self) -> (copy: ProjectDiscoveryRequest) {
        match self {
            ProjectDiscoveryRequest::Github { query } => ProjectDiscoveryRequest::Github {
                query: query.duplicate(),
            },
            ProjectDiscoveryRequest::Directory { path, filter } => ProjectDiscoveryRequest::Directory {
                path: path.duplicate(),
                filter: filter.duplicate(),
            },
        }
    }
}

/// What was found.
#[derive(Debug, PartialEq, Eq)]
pub struct ProjectDiscovery {
    pub entries: Vec<ProjectEntry>,
    pub directory: Option<String>,
    pub parent: Option<String>,
    /// There was more than is listed.
    pub truncated: bool,
}

/// What a [`ProjectDiscovery`] holds.
#[verifier::ext_equal]
pub struct ProjectDiscoveryView {
    pub entries: Seq<ProjectEntryView>,
    pub directory: Option<Seq<char>>,
    pub parent: Option<Seq<char>>,
    pub truncated: bool,
}

impl DeepView for ProjectDiscovery {
    type V = ProjectDiscoveryView;

    open spec fn deep_view(&self) -> ProjectDiscoveryView {
        ProjectDiscoveryView {
            entries: self.entries.deep_view(),
            directory: self.directory.deep_view(),
            parent: self.parent.deep_view(),
            truncated: self.truncated.deep_view(),
        }
    }
}

impl View for ProjectDiscovery {
    type V = ProjectDiscoveryView;

    open spec fn view(&self) -> ProjectDiscoveryView {
        self.deep_view()
    }
}

impl Duplicate for ProjectDiscovery {
    fn duplicate(&self) -> (copy: ProjectDiscovery) {
        ProjectDiscovery {
            entries: self.entries.duplicate(),
            directory: self.directory.duplicate(),
            parent: self.parent.duplicate(),
            truncated: self.truncated.duplicate(),
        }
    }
}

/// The project chooser of a new session.
#[derive(Debug, PartialEq, Eq)]
pub struct ProjectPicker {
    pub tab: ProjectTab,
    pub query: PathInput,
    pub folder_filter: PathInput,
    pub entries: Vec<ProjectEntry>,
    pub selected: usize,
    pub directory: Option<String>,
    pub parent: Option<String>,
    pub truncated: bool,
    pub error: Option<String>,
    pub creation_error: Option<String>,
    /// Several repositories are used together.
    pub multiple: bool,
    pub loading: bool,
    pub request: Option<ProjectDiscoveryRequest>,
    /// The request has yet to be handed out.
    pub pending: bool,
    /// The next answer may take the focus.
    pub focus_results: bool,
    pub id: u64,
    pub generation: u64,
}

/// What a [`ProjectPicker`] holds.
#[verifier::ext_equal]
pub struct ProjectPickerView {
    pub tab: ProjectTab,
    pub query: PathInputView,
    pub folder_filter: PathInputView,
    pub entries: Seq<ProjectEntryView>,
    pub selected: usize,
    pub directory: Option<Seq<char>>,
    pub parent: Option<Seq<char>>,
    pub truncated: bool,
    pub error: Option<Seq<char>>,
    pub creation_error: Option<Seq<char>>,
    pub multiple: bool,
    pub loading: bool,
    pub request: Option<ProjectDiscoveryRequestView>,
    pub pending: bool,
    pub focus_results: bool,
    pub id: u64,
    pub generation: u64,
}

impl DeepView for ProjectPicker {
    type V = ProjectPickerView;

    open spec fn deep_view(&self) -> ProjectPickerView {
        ProjectPickerView {
            tab: self.tab.deep_view(),
            query: self.query.deep_view(),
            folder_filter: self.folder_filter.deep_view(),
            entries: self.entries.deep_view(),
            selected: self.selected.deep_view(),
            directory: self.directory.deep_view(),
            parent: self.parent.deep_view(),
            truncated: self.truncated.deep_view(),
            error: self.error.deep_view(),
            creation_error: self.creation_error.deep_view(),
            multiple: self.multiple.deep_view(),
            loading: self.loading.deep_view(),
            request: self.request.deep_view(),
            pending: self.pending.deep_view(),
            focus_results: self.focus_results.deep_view(),
            id: self.id.deep_view(),
            generation: self.generation.deep_view(),
        }
    }
}

impl View for ProjectPicker {
    type V = ProjectPickerView;

    open spec fn view(&self) -> ProjectPickerView {
        self.deep_view()
    }
}

impl Duplicate for ProjectPicker {
    fn duplicate(&self) -> (copy: ProjectPicker) {
        ProjectPicker {
            tab: self.tab.duplicate(),
            query: self.query.duplicate(),
            folder_filter: self.folder_filter.duplicate(),
            entries: self.entries.duplicate(),
            selected: self.selected.duplicate(),
            directory: self.directory.duplicate(),
            parent: self.parent.duplicate(),
            truncated: self.truncated.duplicate(),
            error: self.error.duplicate(),
            creation_error: self.creation_error.duplicate(),
            multiple: self.multiple.duplicate(),
            loading: self.loading.duplicate(),
            request: self.request.duplicate(),
            pending: self.pending.duplicate(),
            focus_results: self.focus_results.duplicate(),
            id: self.id.duplicate(),
            generation: self.generation.duplicate(),
        }
    }
}

// --- Drafts ---

/// What the resume wizard will start. The controls are the same either way, but
/// a record is resumed from its checkpoint while an archived session is
/// restored into a new session carrying a summary of its transcript.
#[derive(Debug, Clone, Copy, PartialEq, Eq, Structural)]
pub enum ResumeSource {
    Session,
    Archive,
}

impl DeepView for ResumeSource {
    type V = ResumeSource;

    open spec fn deep_view(&self) -> ResumeSource {
        *self
    }
}

impl Duplicate for ResumeSource {
    fn duplicate(&self) -> (copy: ResumeSource) {
        *self
    }
}

/// What only a new session has.
#[derive(Debug, PartialEq, Eq)]
pub struct NewSession {
    pub worktree_options: Option<InspectedDirectory>,
    pub create_managed_worktree: bool,
    /// Whether this session gets Mjolnir's delegation tools instead of its
    /// harness's own.
    pub mjolnir_subagents: bool,
    pub bundle: usize,
    pub new_bundle_selected: usize,
    pub new_bundle_repositories: Vec<String>,
    pub new_bundle_source: PathInput,
    pub bundle_creation_in_flight: bool,
    pub project_directory: PathInput,
    pub project_directory_error: Option<String>,
    pub project_history: Vec<String>,
    pub project_history_index: usize,
    /// Where the repositories are cloned from, once the prerequisite check has
    /// found out.
    pub remote_repositories: Option<Vec<RemoteRepository>>,
    /// Covers the whole prerequisite check: attached directories, then network
    /// sources.
    pub remote_preflight_in_flight: bool,
    pub remote_preflight_error: Option<String>,
    pub project_picker: ProjectPicker,
}

/// What a [`NewSession`] holds.
#[verifier::ext_equal]
pub struct NewSessionView {
    pub worktree_options: Option<InspectedDirectoryView>,
    pub create_managed_worktree: bool,
    pub mjolnir_subagents: bool,
    pub bundle: usize,
    pub new_bundle_selected: usize,
    pub new_bundle_repositories: Seq<Seq<char>>,
    pub new_bundle_source: PathInputView,
    pub bundle_creation_in_flight: bool,
    pub project_directory: PathInputView,
    pub project_directory_error: Option<Seq<char>>,
    pub project_history: Seq<Seq<char>>,
    pub project_history_index: usize,
    pub remote_repositories: Option<Seq<RemoteRepositoryView>>,
    pub remote_preflight_in_flight: bool,
    pub remote_preflight_error: Option<Seq<char>>,
    pub project_picker: ProjectPickerView,
}

impl DeepView for NewSession {
    type V = NewSessionView;

    open spec fn deep_view(&self) -> NewSessionView {
        NewSessionView {
            worktree_options: self.worktree_options.deep_view(),
            create_managed_worktree: self.create_managed_worktree.deep_view(),
            mjolnir_subagents: self.mjolnir_subagents.deep_view(),
            bundle: self.bundle.deep_view(),
            new_bundle_selected: self.new_bundle_selected.deep_view(),
            new_bundle_repositories: self.new_bundle_repositories.deep_view(),
            new_bundle_source: self.new_bundle_source.deep_view(),
            bundle_creation_in_flight: self.bundle_creation_in_flight.deep_view(),
            project_directory: self.project_directory.deep_view(),
            project_directory_error: self.project_directory_error.deep_view(),
            project_history: self.project_history.deep_view(),
            project_history_index: self.project_history_index.deep_view(),
            remote_repositories: self.remote_repositories.deep_view(),
            remote_preflight_in_flight: self.remote_preflight_in_flight.deep_view(),
            remote_preflight_error: self.remote_preflight_error.deep_view(),
            project_picker: self.project_picker.deep_view(),
        }
    }
}

impl View for NewSession {
    type V = NewSessionView;

    open spec fn view(&self) -> NewSessionView {
        self.deep_view()
    }
}

impl Duplicate for NewSession {
    fn duplicate(&self) -> (copy: NewSession) {
        NewSession {
            worktree_options: self.worktree_options.duplicate(),
            create_managed_worktree: self.create_managed_worktree.duplicate(),
            mjolnir_subagents: self.mjolnir_subagents.duplicate(),
            bundle: self.bundle.duplicate(),
            new_bundle_selected: self.new_bundle_selected.duplicate(),
            new_bundle_repositories: self.new_bundle_repositories.duplicate(),
            new_bundle_source: self.new_bundle_source.duplicate(),
            bundle_creation_in_flight: self.bundle_creation_in_flight.duplicate(),
            project_directory: self.project_directory.duplicate(),
            project_directory_error: self.project_directory_error.duplicate(),
            project_history: self.project_history.duplicate(),
            project_history_index: self.project_history_index.duplicate(),
            remote_repositories: self.remote_repositories.duplicate(),
            remote_preflight_in_flight: self.remote_preflight_in_flight.duplicate(),
            remote_preflight_error: self.remote_preflight_error.duplicate(),
            project_picker: self.project_picker.duplicate(),
        }
    }
}

/// What only a resumed or moved session has.
#[derive(Debug, PartialEq, Eq)]
pub struct Resumption {
    /// The session being resumed or moved, or the archived one being restored.
    pub session_id: String,
    pub source: ResumeSource,
    pub title: String,
    /// The session is moved rather than resumed.
    pub moving: bool,
    pub preparation: Option<MovePreparation>,
    pub preparing: bool,
    /// The preparation request owned by this draft. Cleared whenever the draft
    /// changes or leaves the review.
    pub preparation_request_id: Option<u64>,
    /// A failed preparation stays visible so that a retry is explicit.
    pub preparation_error: Option<String>,
    pub discard_queue: bool,
}

/// What a [`Resumption`] holds.
#[verifier::ext_equal]
pub struct ResumptionView {
    pub session_id: Seq<char>,
    pub source: ResumeSource,
    pub title: Seq<char>,
    pub moving: bool,
    pub preparation: Option<MovePreparationView>,
    pub preparing: bool,
    pub preparation_request_id: Option<u64>,
    pub preparation_error: Option<Seq<char>>,
    pub discard_queue: bool,
}

impl DeepView for Resumption {
    type V = ResumptionView;

    open spec fn deep_view(&self) -> ResumptionView {
        ResumptionView {
            session_id: self.session_id.deep_view(),
            source: self.source.deep_view(),
            title: self.title.deep_view(),
            moving: self.moving.deep_view(),
            preparation: self.preparation.deep_view(),
            preparing: self.preparing.deep_view(),
            preparation_request_id: self.preparation_request_id.deep_view(),
            preparation_error: self.preparation_error.deep_view(),
            discard_queue: self.discard_queue.deep_view(),
        }
    }
}

impl View for Resumption {
    type V = ResumptionView;

    open spec fn view(&self) -> ResumptionView {
        self.deep_view()
    }
}

impl Duplicate for Resumption {
    fn duplicate(&self) -> (copy: Resumption) {
        Resumption {
            session_id: self.session_id.duplicate(),
            source: self.source.duplicate(),
            title: self.title.duplicate(),
            moving: self.moving.duplicate(),
            preparation: self.preparation.duplicate(),
            preparing: self.preparing.duplicate(),
            preparation_request_id: self.preparation_request_id.duplicate(),
            preparation_error: self.preparation_error.duplicate(),
            discard_queue: self.discard_queue.duplicate(),
        }
    }
}

/// What the draft is for.
#[derive(Debug, PartialEq, Eq)]
pub enum Purpose {
    New(NewSession),
    Resume(Resumption),
}

/// What a [`Purpose`] holds.
#[verifier::ext_equal]
pub enum PurposeView {
    New(NewSessionView),
    Resume(ResumptionView),
}

impl DeepView for Purpose {
    type V = PurposeView;

    open spec fn deep_view(&self) -> PurposeView {
        match self {
            Purpose::New(inner) => PurposeView::New(inner.deep_view()),
            Purpose::Resume(inner) => PurposeView::Resume(inner.deep_view()),
        }
    }
}

impl View for Purpose {
    type V = PurposeView;

    open spec fn view(&self) -> PurposeView {
        self.deep_view()
    }
}

impl Duplicate for Purpose {
    fn duplicate(&self) -> (copy: Purpose) {
        match self {
            Purpose::New(inner) => Purpose::New(inner.duplicate()),
            Purpose::Resume(inner) => Purpose::Resume(inner.duplicate()),
        }
    }
}

/// A session that is being put together.
#[derive(Debug, PartialEq, Eq)]
pub struct Draft {
    /// The session stays in this workspace even if the visible tab changes.
    pub workspace_id: String,
    pub step: WizardStep,
    pub profile: usize,
    pub target: usize,
    pub mounts: MountWizard,
    pub resource_allocation: Option<ResourceAllocation>,
    pub aws_options: Vec<TargetSizes>,
    pub sizing_error: Option<String>,
    pub form: FormState,
    pub purpose: Purpose,
}

/// What a [`Draft`] holds.
#[verifier::ext_equal]
pub struct DraftView {
    pub workspace_id: Seq<char>,
    pub step: WizardStep,
    pub profile: usize,
    pub target: usize,
    pub mounts: MountWizardView,
    pub resource_allocation: Option<ResourceAllocationView>,
    pub aws_options: Seq<TargetSizesView>,
    pub sizing_error: Option<Seq<char>>,
    pub form: FormStateView,
    pub purpose: PurposeView,
}

impl DeepView for Draft {
    type V = DraftView;

    open spec fn deep_view(&self) -> DraftView {
        DraftView {
            workspace_id: self.workspace_id.deep_view(),
            step: self.step.deep_view(),
            profile: self.profile.deep_view(),
            target: self.target.deep_view(),
            mounts: self.mounts.deep_view(),
            resource_allocation: self.resource_allocation.deep_view(),
            aws_options: self.aws_options.deep_view(),
            sizing_error: self.sizing_error.deep_view(),
            form: self.form.deep_view(),
            purpose: self.purpose.deep_view(),
        }
    }
}

impl View for Draft {
    type V = DraftView;

    open spec fn view(&self) -> DraftView {
        self.deep_view()
    }
}

impl Duplicate for Draft {
    fn duplicate(&self) -> (copy: Draft) {
        Draft {
            workspace_id: self.workspace_id.duplicate(),
            step: self.step.duplicate(),
            profile: self.profile.duplicate(),
            target: self.target.duplicate(),
            mounts: self.mounts.duplicate(),
            resource_allocation: self.resource_allocation.duplicate(),
            aws_options: self.aws_options.duplicate(),
            sizing_error: self.sizing_error.duplicate(),
            form: self.form.duplicate(),
            purpose: self.purpose.duplicate(),
        }
    }
}

impl Keyed for ForcedSource {
    open spec fn key_of(view: ForcedSourceView) -> Seq<char> {
        view.source
    }

    fn key(&self) -> (key: &str) {
        self.source.as_str()
    }
}

} // verus!
