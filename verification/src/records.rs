//! What the dashboard knows: configuration, sessions, and what is owed to it.

use vstd::prelude::*;

use crate::duplicate::Duplicate;
use crate::lists::Keyed;

verus! {

// --- Configuration ---

/// A program that runs a session.
#[derive(Debug, Clone, Copy, PartialEq, Eq, Structural)]
pub enum HarnessKind {
    Claude,
    Codex,
    Grok,
    Kimi,
    Muse,
}

impl DeepView for HarnessKind {
    type V = HarnessKind;

    open spec fn deep_view(&self) -> HarnessKind {
        *self
    }
}

impl Duplicate for HarnessKind {
    fn duplicate(&self) -> (copy: HarnessKind) {
        *self
    }
}

/// Where a session runs.
#[derive(Debug, Clone, Copy, PartialEq, Eq, Structural)]
pub enum TargetKind {
    LocalBare,
    LocalPodman,
    LocalDocker,
    AppleContainer,
    AwsEc2,
    SshBare,
    SshPodman,
    SshDocker,
}

impl DeepView for TargetKind {
    type V = TargetKind;

    open spec fn deep_view(&self) -> TargetKind {
        *self
    }
}

impl Duplicate for TargetKind {
    fn duplicate(&self) -> (copy: TargetKind) {
        *self
    }
}

/// One configured place to run sessions.
#[derive(Debug, PartialEq, Eq)]
pub struct TargetTemplate {
    pub kind: TargetKind,
    /// Sessions work in a directory of the user rather than in a bundle.
    pub bare_project: bool,
    /// Sessions rely on the harness's own approval mode.
    pub guardian: bool,
    /// The user that an instance is reached as.
    pub ssh_user: String,
    /// The host whose directories can be attached, if any can.
    pub mount_host: Option<String>,
    /// The host whose project directories are remembered.
    pub project_host: Option<String>,
    /// The host whose container sizes are remembered.
    pub size_host: Option<String>,
    /// Everything else, written out.
    pub settings: String,
}

/// What a [`TargetTemplate`] holds.
#[verifier::ext_equal]
pub struct TargetTemplateView {
    pub kind: TargetKind,
    pub bare_project: bool,
    pub guardian: bool,
    pub ssh_user: Seq<char>,
    pub mount_host: Option<Seq<char>>,
    pub project_host: Option<Seq<char>>,
    pub size_host: Option<Seq<char>>,
    pub settings: Seq<char>,
}

impl DeepView for TargetTemplate {
    type V = TargetTemplateView;

    open spec fn deep_view(&self) -> TargetTemplateView {
        TargetTemplateView {
            kind: self.kind.deep_view(),
            bare_project: self.bare_project.deep_view(),
            guardian: self.guardian.deep_view(),
            ssh_user: self.ssh_user.deep_view(),
            mount_host: self.mount_host.deep_view(),
            project_host: self.project_host.deep_view(),
            size_host: self.size_host.deep_view(),
            settings: self.settings.deep_view(),
        }
    }
}

impl View for TargetTemplate {
    type V = TargetTemplateView;

    open spec fn view(&self) -> TargetTemplateView {
        self.deep_view()
    }
}

impl Duplicate for TargetTemplate {
    fn duplicate(&self) -> (copy: TargetTemplate) {
        TargetTemplate {
            kind: self.kind.duplicate(),
            bare_project: self.bare_project.duplicate(),
            guardian: self.guardian.duplicate(),
            ssh_user: self.ssh_user.duplicate(),
            mount_host: self.mount_host.duplicate(),
            project_host: self.project_host.duplicate(),
            size_host: self.size_host.duplicate(),
            settings: self.settings.duplicate(),
        }
    }
}

/// A target template under its id.
#[derive(Debug, PartialEq, Eq)]
pub struct Target {
    pub id: String,
    pub template: TargetTemplate,
}

/// What a [`Target`] holds.
#[verifier::ext_equal]
pub struct TargetView {
    pub id: Seq<char>,
    pub template: TargetTemplateView,
}

impl DeepView for Target {
    type V = TargetView;

    open spec fn deep_view(&self) -> TargetView {
        TargetView {
            id: self.id.deep_view(),
            template: self.template.deep_view(),
        }
    }
}

impl View for Target {
    type V = TargetView;

    open spec fn view(&self) -> TargetView {
        self.deep_view()
    }
}

impl Duplicate for Target {
    fn duplicate(&self) -> (copy: Target) {
        Target {
            id: self.id.duplicate(),
            template: self.template.duplicate(),
        }
    }
}

/// A harness profile under its id.
#[derive(Debug, PartialEq, Eq)]
pub struct Profile {
    pub id: String,
    pub kind: HarnessKind,
    pub enabled: bool,
    /// How the harness is named in lists.
    pub harness: String,
    /// Share of the weekly quota that is used, as shown.
    pub weekly: String,
    /// Share of the five-hour quota that is used, as shown.
    pub five_hour: String,
    /// What to warn of when the harness runs unsandboxed.
    pub warning: Option<String>,
}

/// What a [`Profile`] holds.
#[verifier::ext_equal]
pub struct ProfileView {
    pub id: Seq<char>,
    pub kind: HarnessKind,
    pub enabled: bool,
    pub harness: Seq<char>,
    pub weekly: Seq<char>,
    pub five_hour: Seq<char>,
    pub warning: Option<Seq<char>>,
}

impl DeepView for Profile {
    type V = ProfileView;

    open spec fn deep_view(&self) -> ProfileView {
        ProfileView {
            id: self.id.deep_view(),
            kind: self.kind.deep_view(),
            enabled: self.enabled.deep_view(),
            harness: self.harness.deep_view(),
            weekly: self.weekly.deep_view(),
            five_hour: self.five_hour.deep_view(),
            warning: self.warning.deep_view(),
        }
    }
}

impl View for Profile {
    type V = ProfileView;

    open spec fn view(&self) -> ProfileView {
        self.deep_view()
    }
}

impl Duplicate for Profile {
    fn duplicate(&self) -> (copy: Profile) {
        Profile {
            id: self.id.duplicate(),
            kind: self.kind.duplicate(),
            enabled: self.enabled.duplicate(),
            harness: self.harness.duplicate(),
            weekly: self.weekly.duplicate(),
            five_hour: self.five_hour.duplicate(),
            warning: self.warning.duplicate(),
        }
    }
}

/// A project bundle under its id.
#[derive(Debug, PartialEq, Eq)]
pub struct Bundle {
    pub id: String,
    /// How many repositories the bundle has.
    pub repositories: usize,
}

/// What a [`Bundle`] holds.
#[verifier::ext_equal]
pub struct BundleView {
    pub id: Seq<char>,
    pub repositories: usize,
}

impl DeepView for Bundle {
    type V = BundleView;

    open spec fn deep_view(&self) -> BundleView {
        BundleView {
            id: self.id.deep_view(),
            repositories: self.repositories.deep_view(),
        }
    }
}

impl View for Bundle {
    type V = BundleView;

    open spec fn view(&self) -> BundleView {
        self.deep_view()
    }
}

impl Duplicate for Bundle {
    fn duplicate(&self) -> (copy: Bundle) {
        Bundle {
            id: self.id.duplicate(),
            repositories: self.repositories.duplicate(),
        }
    }
}

/// What the user configured. Every list is in the order of its ids.
#[derive(Debug, PartialEq, Eq)]
pub struct Config {
    pub profiles: Vec<Profile>,
    pub bundles: Vec<Bundle>,
    pub targets: Vec<Target>,
    /// New sessions get delegation tools unless told otherwise.
    pub subagents_enabled: bool,
}

/// What a [`Config`] holds.
#[verifier::ext_equal]
pub struct ConfigView {
    pub profiles: Seq<ProfileView>,
    pub bundles: Seq<BundleView>,
    pub targets: Seq<TargetView>,
    pub subagents_enabled: bool,
}

impl DeepView for Config {
    type V = ConfigView;

    open spec fn deep_view(&self) -> ConfigView {
        ConfigView {
            profiles: self.profiles.deep_view(),
            bundles: self.bundles.deep_view(),
            targets: self.targets.deep_view(),
            subagents_enabled: self.subagents_enabled.deep_view(),
        }
    }
}

impl View for Config {
    type V = ConfigView;

    open spec fn view(&self) -> ConfigView {
        self.deep_view()
    }
}

impl Duplicate for Config {
    fn duplicate(&self) -> (copy: Config) {
        Config {
            profiles: self.profiles.duplicate(),
            bundles: self.bundles.duplicate(),
            targets: self.targets.duplicate(),
            subagents_enabled: self.subagents_enabled.duplicate(),
        }
    }
}

// --- Sessions ---

/// What a session may do with an attached directory.
#[derive(Debug, Clone, Copy, PartialEq, Eq, Structural)]
pub enum MountAccess {
    /// Read it.
    Ro,
    /// Read it, and write to a private copy.
    Cow,
    /// Read and write it.
    Rw,
}

impl DeepView for MountAccess {
    type V = MountAccess;

    open spec fn deep_view(&self) -> MountAccess {
        *self
    }
}

impl Duplicate for MountAccess {
    fn duplicate(&self) -> (copy: MountAccess) {
        *self
    }
}

/// A directory attached to a session.
#[derive(Debug, PartialEq, Eq)]
pub struct AdditionalMount {
    pub source: String,
    pub destination: String,
    pub access: MountAccess,
}

/// What a [`AdditionalMount`] holds.
#[verifier::ext_equal]
pub struct AdditionalMountView {
    pub source: Seq<char>,
    pub destination: Seq<char>,
    pub access: MountAccess,
}

impl DeepView for AdditionalMount {
    type V = AdditionalMountView;

    open spec fn deep_view(&self) -> AdditionalMountView {
        AdditionalMountView {
            source: self.source.deep_view(),
            destination: self.destination.deep_view(),
            access: self.access.deep_view(),
        }
    }
}

impl View for AdditionalMount {
    type V = AdditionalMountView;

    open spec fn view(&self) -> AdditionalMountView {
        self.deep_view()
    }
}

impl Duplicate for AdditionalMount {
    fn duplicate(&self) -> (copy: AdditionalMount) {
        AdditionalMount {
            source: self.source.duplicate(),
            destination: self.destination.duplicate(),
            access: self.access.duplicate(),
        }
    }
}

/// How large a session is.
#[derive(Debug, PartialEq, Eq)]
pub enum ResourceAllocation {
    /// A container of a given size.
    Container {
        cpus: u64,
        memory_bytes: u64,
    },
    /// An instance of a given type.
    AwsEc2 {
        instance_type: String,
        vcpus: u64,
        memory_bytes: u64,
    },
}

/// What a [`ResourceAllocation`] holds.
#[verifier::ext_equal]
pub enum ResourceAllocationView {
    Container {
        cpus: u64,
        memory_bytes: u64,
    },
    AwsEc2 {
        instance_type: Seq<char>,
        vcpus: u64,
        memory_bytes: u64,
    },
}

impl DeepView for ResourceAllocation {
    type V = ResourceAllocationView;

    open spec fn deep_view(&self) -> ResourceAllocationView {
        match self {
            ResourceAllocation::Container { cpus, memory_bytes } => ResourceAllocationView::Container {
                cpus: cpus.deep_view(),
                memory_bytes: memory_bytes.deep_view(),
            },
            ResourceAllocation::AwsEc2 { instance_type, vcpus, memory_bytes } => ResourceAllocationView::AwsEc2 {
                instance_type: instance_type.deep_view(),
                vcpus: vcpus.deep_view(),
                memory_bytes: memory_bytes.deep_view(),
            },
        }
    }
}

impl View for ResourceAllocation {
    type V = ResourceAllocationView;

    open spec fn view(&self) -> ResourceAllocationView {
        self.deep_view()
    }
}

impl Duplicate for ResourceAllocation {
    fn duplicate(&self) -> (copy: ResourceAllocation) {
        match self {
            ResourceAllocation::Container { cpus, memory_bytes } => ResourceAllocation::Container {
                cpus: cpus.duplicate(),
                memory_bytes: memory_bytes.duplicate(),
            },
            ResourceAllocation::AwsEc2 { instance_type, vcpus, memory_bytes } => ResourceAllocation::AwsEc2 {
                instance_type: instance_type.duplicate(),
                vcpus: vcpus.duplicate(),
                memory_bytes: memory_bytes.duplicate(),
            },
        }
    }
}

/// How a session resumes on a target.
#[derive(Debug, Clone, Copy, PartialEq, Eq, Structural)]
pub enum ResumePlan {
    /// In the project directory it already has.
    InPlace,
    /// In an environment made for it.
    Rebuilt,
}

impl DeepView for ResumePlan {
    type V = ResumePlan;

    open spec fn deep_view(&self) -> ResumePlan {
        *self
    }
}

impl Duplicate for ResumePlan {
    fn duplicate(&self) -> (copy: ResumePlan) {
        *self
    }
}

/// Whether a session can resume on a target.
#[derive(Debug, PartialEq, Eq)]
pub enum Compatibility {
    Usable(ResumePlan),
    /// Why it cannot.
    Unusable(String),
}

/// What a [`Compatibility`] holds.
#[verifier::ext_equal]
pub enum CompatibilityView {
    Usable(ResumePlan),
    Unusable(Seq<char>),
}

impl DeepView for Compatibility {
    type V = CompatibilityView;

    open spec fn deep_view(&self) -> CompatibilityView {
        match self {
            Compatibility::Usable(inner) => CompatibilityView::Usable(inner.deep_view()),
            Compatibility::Unusable(inner) => CompatibilityView::Unusable(inner.deep_view()),
        }
    }
}

impl View for Compatibility {
    type V = CompatibilityView;

    open spec fn view(&self) -> CompatibilityView {
        self.deep_view()
    }
}

impl Duplicate for Compatibility {
    fn duplicate(&self) -> (copy: Compatibility) {
        match self {
            Compatibility::Usable(inner) => Compatibility::Usable(inner.duplicate()),
            Compatibility::Unusable(inner) => Compatibility::Unusable(inner.duplicate()),
        }
    }
}

/// What resuming on one target would take.
#[derive(Debug, PartialEq, Eq)]
pub struct TargetFit {
    pub target_id: String,
    pub fit: Compatibility,
}

/// What a [`TargetFit`] holds.
#[verifier::ext_equal]
pub struct TargetFitView {
    pub target_id: Seq<char>,
    pub fit: CompatibilityView,
}

impl DeepView for TargetFit {
    type V = TargetFitView;

    open spec fn deep_view(&self) -> TargetFitView {
        TargetFitView {
            target_id: self.target_id.deep_view(),
            fit: self.fit.deep_view(),
        }
    }
}

impl View for TargetFit {
    type V = TargetFitView;

    open spec fn view(&self) -> TargetFitView {
        self.deep_view()
    }
}

impl Duplicate for TargetFit {
    fn duplicate(&self) -> (copy: TargetFit) {
        TargetFit {
            target_id: self.target_id.duplicate(),
            fit: self.fit.duplicate(),
        }
    }
}

/// A profile that a session can resume with.
#[derive(Debug, PartialEq, Eq)]
pub struct CompatibleProfile {
    pub id: String,
    pub kind: HarnessKind,
}

/// What a [`CompatibleProfile`] holds.
#[verifier::ext_equal]
pub struct CompatibleProfileView {
    pub id: Seq<char>,
    pub kind: HarnessKind,
}

impl DeepView for CompatibleProfile {
    type V = CompatibleProfileView;

    open spec fn deep_view(&self) -> CompatibleProfileView {
        CompatibleProfileView {
            id: self.id.deep_view(),
            kind: self.kind.deep_view(),
        }
    }
}

impl View for CompatibleProfile {
    type V = CompatibleProfileView;

    open spec fn view(&self) -> CompatibleProfileView {
        self.deep_view()
    }
}

impl Duplicate for CompatibleProfile {
    fn duplicate(&self) -> (copy: CompatibleProfile) {
        CompatibleProfile {
            id: self.id.duplicate(),
            kind: self.kind.duplicate(),
        }
    }
}

/// One recorded session.
#[derive(Debug, PartialEq, Eq)]
pub struct SessionRecord {
    pub id: String,
    pub title: String,
    pub bundle_id: String,
    pub target_template_id: String,
    pub last_profile: String,
    /// When the session was created, as RFC 3339 text.
    pub created_at: String,
    pub harness_kind: HarnessKind,
    /// The session is running, or failed while running.
    pub active: bool,
    /// The session ended in an error.
    pub failed: bool,
    /// There is a verified recovery copy.
    pub checkpoint: bool,
    pub project_directory: Option<String>,
    pub additional_mounts: Vec<AdditionalMount>,
    pub resource_allocation: Option<ResourceAllocation>,
    pub compatible_profiles: Vec<CompatibleProfile>,
    /// What is known of resuming on each target.
    pub fits: Vec<TargetFit>,
}

/// What a [`SessionRecord`] holds.
#[verifier::ext_equal]
pub struct SessionRecordView {
    pub id: Seq<char>,
    pub title: Seq<char>,
    pub bundle_id: Seq<char>,
    pub target_template_id: Seq<char>,
    pub last_profile: Seq<char>,
    pub created_at: Seq<char>,
    pub harness_kind: HarnessKind,
    pub active: bool,
    pub failed: bool,
    pub checkpoint: bool,
    pub project_directory: Option<Seq<char>>,
    pub additional_mounts: Seq<AdditionalMountView>,
    pub resource_allocation: Option<ResourceAllocationView>,
    pub compatible_profiles: Seq<CompatibleProfileView>,
    pub fits: Seq<TargetFitView>,
}

impl DeepView for SessionRecord {
    type V = SessionRecordView;

    open spec fn deep_view(&self) -> SessionRecordView {
        SessionRecordView {
            id: self.id.deep_view(),
            title: self.title.deep_view(),
            bundle_id: self.bundle_id.deep_view(),
            target_template_id: self.target_template_id.deep_view(),
            last_profile: self.last_profile.deep_view(),
            created_at: self.created_at.deep_view(),
            harness_kind: self.harness_kind.deep_view(),
            active: self.active.deep_view(),
            failed: self.failed.deep_view(),
            checkpoint: self.checkpoint.deep_view(),
            project_directory: self.project_directory.deep_view(),
            additional_mounts: self.additional_mounts.deep_view(),
            resource_allocation: self.resource_allocation.deep_view(),
            compatible_profiles: self.compatible_profiles.deep_view(),
            fits: self.fits.deep_view(),
        }
    }
}

impl View for SessionRecord {
    type V = SessionRecordView;

    open spec fn view(&self) -> SessionRecordView {
        self.deep_view()
    }
}

impl Duplicate for SessionRecord {
    fn duplicate(&self) -> (copy: SessionRecord) {
        SessionRecord {
            id: self.id.duplicate(),
            title: self.title.duplicate(),
            bundle_id: self.bundle_id.duplicate(),
            target_template_id: self.target_template_id.duplicate(),
            last_profile: self.last_profile.duplicate(),
            created_at: self.created_at.duplicate(),
            harness_kind: self.harness_kind.duplicate(),
            active: self.active.duplicate(),
            failed: self.failed.duplicate(),
            checkpoint: self.checkpoint.duplicate(),
            project_directory: self.project_directory.duplicate(),
            additional_mounts: self.additional_mounts.duplicate(),
            resource_allocation: self.resource_allocation.duplicate(),
            compatible_profiles: self.compatible_profiles.duplicate(),
            fits: self.fits.duplicate(),
        }
    }
}

/// The directories remembered for a host.
#[derive(Debug, PartialEq, Eq)]
pub struct HostPaths {
    pub host: String,
    pub paths: Vec<String>,
}

/// What a [`HostPaths`] holds.
#[verifier::ext_equal]
pub struct HostPathsView {
    pub host: Seq<char>,
    pub paths: Seq<Seq<char>>,
}

impl DeepView for HostPaths {
    type V = HostPathsView;

    open spec fn deep_view(&self) -> HostPathsView {
        HostPathsView {
            host: self.host.deep_view(),
            paths: self.paths.deep_view(),
        }
    }
}

impl View for HostPaths {
    type V = HostPathsView;

    open spec fn view(&self) -> HostPathsView {
        self.deep_view()
    }
}

impl Duplicate for HostPaths {
    fn duplicate(&self) -> (copy: HostPaths) {
        HostPaths {
            host: self.host.duplicate(),
            paths: self.paths.duplicate(),
        }
    }
}

/// The container size last used on a host.
#[derive(Debug, PartialEq, Eq)]
pub struct HostSize {
    pub host: String,
    pub cpus: u64,
    pub memory_bytes: u64,
}

/// What a [`HostSize`] holds.
#[verifier::ext_equal]
pub struct HostSizeView {
    pub host: Seq<char>,
    pub cpus: u64,
    pub memory_bytes: u64,
}

impl DeepView for HostSize {
    type V = HostSizeView;

    open spec fn deep_view(&self) -> HostSizeView {
        HostSizeView {
            host: self.host.deep_view(),
            cpus: self.cpus.deep_view(),
            memory_bytes: self.memory_bytes.deep_view(),
        }
    }
}

impl View for HostSize {
    type V = HostSizeView;

    open spec fn view(&self) -> HostSizeView {
        self.deep_view()
    }
}

impl Duplicate for HostSize {
    fn duplicate(&self) -> (copy: HostSize) {
        HostSize {
            host: self.host.duplicate(),
            cpus: self.cpus.duplicate(),
            memory_bytes: self.memory_bytes.duplicate(),
        }
    }
}

/// What is recorded across runs.
#[derive(Debug, PartialEq, Eq)]
pub struct State {
    /// In the order of their ids.
    pub sessions: Vec<SessionRecord>,
    pub mount_history: Vec<HostPaths>,
    pub project_directories: Vec<HostPaths>,
    pub container_sizes: Vec<HostSize>,
}

/// What a [`State`] holds.
#[verifier::ext_equal]
pub struct StateView {
    pub sessions: Seq<SessionRecordView>,
    pub mount_history: Seq<HostPathsView>,
    pub project_directories: Seq<HostPathsView>,
    pub container_sizes: Seq<HostSizeView>,
}

impl DeepView for State {
    type V = StateView;

    open spec fn deep_view(&self) -> StateView {
        StateView {
            sessions: self.sessions.deep_view(),
            mount_history: self.mount_history.deep_view(),
            project_directories: self.project_directories.deep_view(),
            container_sizes: self.container_sizes.deep_view(),
        }
    }
}

impl View for State {
    type V = StateView;

    open spec fn view(&self) -> StateView {
        self.deep_view()
    }
}

impl Duplicate for State {
    fn duplicate(&self) -> (copy: State) {
        State {
            sessions: self.sessions.duplicate(),
            mount_history: self.mount_history.duplicate(),
            project_directories: self.project_directories.duplicate(),
            container_sizes: self.container_sizes.duplicate(),
        }
    }
}

/// A prompt waiting for its session.
#[derive(Debug, PartialEq, Eq)]
pub struct QueuedPrompt {
    pub text: String,
    /// How many files go with it.
    pub attachments: usize,
}

/// What a [`QueuedPrompt`] holds.
#[verifier::ext_equal]
pub struct QueuedPromptView {
    pub text: Seq<char>,
    pub attachments: usize,
}

impl DeepView for QueuedPrompt {
    type V = QueuedPromptView;

    open spec fn deep_view(&self) -> QueuedPromptView {
        QueuedPromptView {
            text: self.text.deep_view(),
            attachments: self.attachments.deep_view(),
        }
    }
}

impl View for QueuedPrompt {
    type V = QueuedPromptView;

    open spec fn view(&self) -> QueuedPromptView {
        self.deep_view()
    }
}

impl Duplicate for QueuedPrompt {
    fn duplicate(&self) -> (copy: QueuedPrompt) {
        QueuedPrompt {
            text: self.text.duplicate(),
            attachments: self.attachments.duplicate(),
        }
    }
}

/// What a running session reported.
#[derive(Debug, PartialEq, Eq)]
pub struct SessionDetail {
    pub session_id: String,
    pub queued_prompts: Vec<QueuedPrompt>,
}

/// What a [`SessionDetail`] holds.
#[verifier::ext_equal]
pub struct SessionDetailView {
    pub session_id: Seq<char>,
    pub queued_prompts: Seq<QueuedPromptView>,
}

impl DeepView for SessionDetail {
    type V = SessionDetailView;

    open spec fn deep_view(&self) -> SessionDetailView {
        SessionDetailView {
            session_id: self.session_id.deep_view(),
            queued_prompts: self.queued_prompts.deep_view(),
        }
    }
}

impl View for SessionDetail {
    type V = SessionDetailView;

    open spec fn view(&self) -> SessionDetailView {
        self.deep_view()
    }
}

impl Duplicate for SessionDetail {
    fn duplicate(&self) -> (copy: SessionDetail) {
        SessionDetail {
            session_id: self.session_id.duplicate(),
            queued_prompts: self.queued_prompts.duplicate(),
        }
    }
}

/// What a host has in all.
#[derive(Debug, PartialEq, Eq)]
pub struct HostUsage {
    pub logical_cores: u64,
    pub memory_total_bytes: u64,
}

/// What a [`HostUsage`] holds.
#[verifier::ext_equal]
pub struct HostUsageView {
    pub logical_cores: u64,
    pub memory_total_bytes: u64,
}

impl DeepView for HostUsage {
    type V = HostUsageView;

    open spec fn deep_view(&self) -> HostUsageView {
        HostUsageView {
            logical_cores: self.logical_cores.deep_view(),
            memory_total_bytes: self.memory_total_bytes.deep_view(),
        }
    }
}

impl View for HostUsage {
    type V = HostUsageView;

    open spec fn view(&self) -> HostUsageView {
        self.deep_view()
    }
}

impl Duplicate for HostUsage {
    fn duplicate(&self) -> (copy: HostUsage) {
        HostUsage {
            logical_cores: self.logical_cores.duplicate(),
            memory_total_bytes: self.memory_total_bytes.duplicate(),
        }
    }
}

/// What is known of the host behind some targets.
#[derive(Debug, PartialEq, Eq)]
pub struct CapacityDetail {
    pub target_ids: Vec<String>,
    pub usage: Option<HostUsage>,
}

/// What a [`CapacityDetail`] holds.
#[verifier::ext_equal]
pub struct CapacityDetailView {
    pub target_ids: Seq<Seq<char>>,
    pub usage: Option<HostUsageView>,
}

impl DeepView for CapacityDetail {
    type V = CapacityDetailView;

    open spec fn deep_view(&self) -> CapacityDetailView {
        CapacityDetailView {
            target_ids: self.target_ids.deep_view(),
            usage: self.usage.deep_view(),
        }
    }
}

impl View for CapacityDetail {
    type V = CapacityDetailView;

    open spec fn view(&self) -> CapacityDetailView {
        self.deep_view()
    }
}

impl Duplicate for CapacityDetail {
    fn duplicate(&self) -> (copy: CapacityDetail) {
        CapacityDetail {
            target_ids: self.target_ids.duplicate(),
            usage: self.usage.duplicate(),
        }
    }
}

// --- Moving a session ---

/// What happens to queued work after a move.
#[derive(Debug, Clone, Copy, PartialEq, Eq, Structural)]
pub enum QueueDisposition {
    Discard,
    Start,
}

impl DeepView for QueueDisposition {
    type V = QueueDisposition;

    open spec fn deep_view(&self) -> QueueDisposition {
        *self
    }
}

impl Duplicate for QueueDisposition {
    fn duplicate(&self) -> (copy: QueueDisposition) {
        *self
    }
}

/// The destination of a move.
#[derive(Debug, PartialEq, Eq)]
pub struct MoveSelection {
    pub session_id: String,
    pub profile_id: Option<String>,
    pub target_template_id: Option<String>,
    pub additional_mounts: Option<Vec<AdditionalMount>>,
    pub resource_allocation: Option<ResourceAllocation>,
    pub clear_resource_allocation: bool,
}

/// What a [`MoveSelection`] holds.
#[verifier::ext_equal]
pub struct MoveSelectionView {
    pub session_id: Seq<char>,
    pub profile_id: Option<Seq<char>>,
    pub target_template_id: Option<Seq<char>>,
    pub additional_mounts: Option<Seq<AdditionalMountView>>,
    pub resource_allocation: Option<ResourceAllocationView>,
    pub clear_resource_allocation: bool,
}

impl DeepView for MoveSelection {
    type V = MoveSelectionView;

    open spec fn deep_view(&self) -> MoveSelectionView {
        MoveSelectionView {
            session_id: self.session_id.deep_view(),
            profile_id: self.profile_id.deep_view(),
            target_template_id: self.target_template_id.deep_view(),
            additional_mounts: self.additional_mounts.deep_view(),
            resource_allocation: self.resource_allocation.deep_view(),
            clear_resource_allocation: self.clear_resource_allocation.deep_view(),
        }
    }
}

impl View for MoveSelection {
    type V = MoveSelectionView;

    open spec fn view(&self) -> MoveSelectionView {
        self.deep_view()
    }
}

impl Duplicate for MoveSelection {
    fn duplicate(&self) -> (copy: MoveSelection) {
        MoveSelection {
            session_id: self.session_id.duplicate(),
            profile_id: self.profile_id.duplicate(),
            target_template_id: self.target_template_id.duplicate(),
            additional_mounts: self.additional_mounts.duplicate(),
            resource_allocation: self.resource_allocation.duplicate(),
            clear_resource_allocation: self.clear_resource_allocation.duplicate(),
        }
    }
}

/// A move that was begun and kept for a retry.
#[derive(Debug, PartialEq, Eq)]
pub struct MoveOperation {
    pub selection: MoveSelection,
    pub queue: QueueDisposition,
}

/// What a [`MoveOperation`] holds.
#[verifier::ext_equal]
pub struct MoveOperationView {
    pub selection: MoveSelectionView,
    pub queue: QueueDisposition,
}

impl DeepView for MoveOperation {
    type V = MoveOperationView;

    open spec fn deep_view(&self) -> MoveOperationView {
        MoveOperationView {
            selection: self.selection.deep_view(),
            queue: self.queue.deep_view(),
        }
    }
}

impl View for MoveOperation {
    type V = MoveOperationView;

    open spec fn view(&self) -> MoveOperationView {
        self.deep_view()
    }
}

impl Duplicate for MoveOperation {
    fn duplicate(&self) -> (copy: MoveOperation) {
        MoveOperation {
            selection: self.selection.duplicate(),
            queue: self.queue.duplicate(),
        }
    }
}

/// What a queued command does.
#[derive(Debug, Clone, Copy, PartialEq, Eq, Structural)]
pub enum QueuedCommandKind {
    Prompt,
    SetConfig,
}

impl DeepView for QueuedCommandKind {
    type V = QueuedCommandKind;

    open spec fn deep_view(&self) -> QueuedCommandKind {
        *self
    }
}

impl Duplicate for QueuedCommandKind {
    fn duplicate(&self) -> (copy: QueuedCommandKind) {
        *self
    }
}

/// A queued command as it would be carried over.
#[derive(Debug, PartialEq, Eq)]
pub struct QueuedCommand {
    pub kind: QueuedCommandKind,
    pub text: String,
}

/// What a [`QueuedCommand`] holds.
#[verifier::ext_equal]
pub struct QueuedCommandView {
    pub kind: QueuedCommandKind,
    pub text: Seq<char>,
}

impl DeepView for QueuedCommand {
    type V = QueuedCommandView;

    open spec fn deep_view(&self) -> QueuedCommandView {
        QueuedCommandView {
            kind: self.kind.deep_view(),
            text: self.text.deep_view(),
        }
    }
}

impl View for QueuedCommand {
    type V = QueuedCommandView;

    open spec fn view(&self) -> QueuedCommandView {
        self.deep_view()
    }
}

impl Duplicate for QueuedCommand {
    fn duplicate(&self) -> (copy: QueuedCommand) {
        QueuedCommand {
            kind: self.kind.duplicate(),
            text: self.text.duplicate(),
        }
    }
}

/// What a move out of a local checkout takes along.
#[derive(Debug, PartialEq, Eq)]
pub struct ConversionPreview {
    pub summary: String,
    pub warnings: Vec<String>,
}

/// What a [`ConversionPreview`] holds.
#[verifier::ext_equal]
pub struct ConversionPreviewView {
    pub summary: Seq<char>,
    pub warnings: Seq<Seq<char>>,
}

impl DeepView for ConversionPreview {
    type V = ConversionPreviewView;

    open spec fn deep_view(&self) -> ConversionPreviewView {
        ConversionPreviewView {
            summary: self.summary.deep_view(),
            warnings: self.warnings.deep_view(),
        }
    }
}

impl View for ConversionPreview {
    type V = ConversionPreviewView;

    open spec fn view(&self) -> ConversionPreviewView {
        self.deep_view()
    }
}

impl Duplicate for ConversionPreview {
    fn duplicate(&self) -> (copy: ConversionPreview) {
        ConversionPreview {
            summary: self.summary.duplicate(),
            warnings: self.warnings.duplicate(),
        }
    }
}

/// What a move to the reviewed destination would do.
#[derive(Debug, PartialEq, Eq)]
pub struct MovePreparation {
    pub selection: MoveSelection,
    /// Work in progress would be interrupted.
    pub active: bool,
    /// Only the harness and the profile change.
    pub in_place: bool,
    pub source_unavailable: bool,
    pub queued_commands: Vec<QueuedCommand>,
    pub conversion: Option<ConversionPreview>,
}

/// What a [`MovePreparation`] holds.
#[verifier::ext_equal]
pub struct MovePreparationView {
    pub selection: MoveSelectionView,
    pub active: bool,
    pub in_place: bool,
    pub source_unavailable: bool,
    pub queued_commands: Seq<QueuedCommandView>,
    pub conversion: Option<ConversionPreviewView>,
}

impl DeepView for MovePreparation {
    type V = MovePreparationView;

    open spec fn deep_view(&self) -> MovePreparationView {
        MovePreparationView {
            selection: self.selection.deep_view(),
            active: self.active.deep_view(),
            in_place: self.in_place.deep_view(),
            source_unavailable: self.source_unavailable.deep_view(),
            queued_commands: self.queued_commands.deep_view(),
            conversion: self.conversion.deep_view(),
        }
    }
}

impl View for MovePreparation {
    type V = MovePreparationView;

    open spec fn view(&self) -> MovePreparationView {
        self.deep_view()
    }
}

impl Duplicate for MovePreparation {
    fn duplicate(&self) -> (copy: MovePreparation) {
        MovePreparation {
            selection: self.selection.duplicate(),
            active: self.active.duplicate(),
            in_place: self.in_place.duplicate(),
            source_unavailable: self.source_unavailable.duplicate(),
            queued_commands: self.queued_commands.duplicate(),
            conversion: self.conversion.duplicate(),
        }
    }
}

// --- Creating a session ---

/// Where a repository of a bundle is cloned from.
#[derive(Debug, PartialEq, Eq)]
pub struct RemoteRepository {
    pub repository_id: String,
    pub fetch_url: String,
    pub default_branch: String,
    pub push_urls: Vec<String>,
}

/// What a [`RemoteRepository`] holds.
#[verifier::ext_equal]
pub struct RemoteRepositoryView {
    pub repository_id: Seq<char>,
    pub fetch_url: Seq<char>,
    pub default_branch: Seq<char>,
    pub push_urls: Seq<Seq<char>>,
}

impl DeepView for RemoteRepository {
    type V = RemoteRepositoryView;

    open spec fn deep_view(&self) -> RemoteRepositoryView {
        RemoteRepositoryView {
            repository_id: self.repository_id.deep_view(),
            fetch_url: self.fetch_url.deep_view(),
            default_branch: self.default_branch.deep_view(),
            push_urls: self.push_urls.deep_view(),
        }
    }
}

impl View for RemoteRepository {
    type V = RemoteRepositoryView;

    open spec fn view(&self) -> RemoteRepositoryView {
        self.deep_view()
    }
}

impl Duplicate for RemoteRepository {
    fn duplicate(&self) -> (copy: RemoteRepository) {
        RemoteRepository {
            repository_id: self.repository_id.duplicate(),
            fetch_url: self.fetch_url.duplicate(),
            default_branch: self.default_branch.duplicate(),
            push_urls: self.push_urls.duplicate(),
        }
    }
}

/// Whether a directory can have a managed worktree.
#[derive(Debug, PartialEq, Eq)]
pub struct WorktreeOptions {
    pub available: bool,
    pub default_create: bool,
}

/// What a [`WorktreeOptions`] holds.
#[verifier::ext_equal]
pub struct WorktreeOptionsView {
    pub available: bool,
    pub default_create: bool,
}

impl DeepView for WorktreeOptions {
    type V = WorktreeOptionsView;

    open spec fn deep_view(&self) -> WorktreeOptionsView {
        WorktreeOptionsView {
            available: self.available.deep_view(),
            default_create: self.default_create.deep_view(),
        }
    }
}

impl View for WorktreeOptions {
    type V = WorktreeOptionsView;

    open spec fn view(&self) -> WorktreeOptionsView {
        self.deep_view()
    }
}

impl Duplicate for WorktreeOptions {
    fn duplicate(&self) -> (copy: WorktreeOptions) {
        WorktreeOptions {
            available: self.available.duplicate(),
            default_create: self.default_create.duplicate(),
        }
    }
}

/// What was found out about a project directory.
#[derive(Debug, PartialEq, Eq)]
pub struct InspectedDirectory {
    pub target_id: String,
    pub directory: String,
    pub options: WorktreeOptions,
}

/// What a [`InspectedDirectory`] holds.
#[verifier::ext_equal]
pub struct InspectedDirectoryView {
    pub target_id: Seq<char>,
    pub directory: Seq<char>,
    pub options: WorktreeOptionsView,
}

impl DeepView for InspectedDirectory {
    type V = InspectedDirectoryView;

    open spec fn deep_view(&self) -> InspectedDirectoryView {
        InspectedDirectoryView {
            target_id: self.target_id.deep_view(),
            directory: self.directory.deep_view(),
            options: self.options.deep_view(),
        }
    }
}

impl View for InspectedDirectory {
    type V = InspectedDirectoryView;

    open spec fn view(&self) -> InspectedDirectoryView {
        self.deep_view()
    }
}

impl Duplicate for InspectedDirectory {
    fn duplicate(&self) -> (copy: InspectedDirectory) {
        InspectedDirectory {
            target_id: self.target_id.duplicate(),
            directory: self.directory.duplicate(),
            options: self.options.duplicate(),
        }
    }
}

/// How the last quick launch was set up.
#[derive(Debug, PartialEq, Eq)]
pub struct GoRecipe {
    pub id: String,
    pub target_id: String,
    pub project_directory: Option<String>,
    pub create_managed_worktree: Option<bool>,
}

/// What a [`GoRecipe`] holds.
#[verifier::ext_equal]
pub struct GoRecipeView {
    pub id: Seq<char>,
    pub target_id: Seq<char>,
    pub project_directory: Option<Seq<char>>,
    pub create_managed_worktree: Option<bool>,
}

impl DeepView for GoRecipe {
    type V = GoRecipeView;

    open spec fn deep_view(&self) -> GoRecipeView {
        GoRecipeView {
            id: self.id.deep_view(),
            target_id: self.target_id.deep_view(),
            project_directory: self.project_directory.deep_view(),
            create_managed_worktree: self.create_managed_worktree.deep_view(),
        }
    }
}

impl View for GoRecipe {
    type V = GoRecipeView;

    open spec fn view(&self) -> GoRecipeView {
        self.deep_view()
    }
}

impl Duplicate for GoRecipe {
    fn duplicate(&self) -> (copy: GoRecipe) {
        GoRecipe {
            id: self.id.duplicate(),
            target_id: self.target_id.duplicate(),
            project_directory: self.project_directory.duplicate(),
            create_managed_worktree: self.create_managed_worktree.duplicate(),
        }
    }
}

/// A quick launch from a directory.
#[derive(Debug, PartialEq, Eq)]
pub struct GoSetup {
    pub directory: String,
    pub recipe: Option<GoRecipe>,
}

/// What a [`GoSetup`] holds.
#[verifier::ext_equal]
pub struct GoSetupView {
    pub directory: Seq<char>,
    pub recipe: Option<GoRecipeView>,
}

impl DeepView for GoSetup {
    type V = GoSetupView;

    open spec fn deep_view(&self) -> GoSetupView {
        GoSetupView {
            directory: self.directory.deep_view(),
            recipe: self.recipe.deep_view(),
        }
    }
}

impl View for GoSetup {
    type V = GoSetupView;

    open spec fn view(&self) -> GoSetupView {
        self.deep_view()
    }
}

impl Duplicate for GoSetup {
    fn duplicate(&self) -> (copy: GoSetup) {
        GoSetup {
            directory: self.directory.duplicate(),
            recipe: self.recipe.duplicate(),
        }
    }
}

/// The instance sizes a target offers.
#[derive(Debug, PartialEq, Eq)]
pub struct TargetSizes {
    pub target_id: String,
    pub options: Vec<ResourceAllocation>,
}

/// What a [`TargetSizes`] holds.
#[verifier::ext_equal]
pub struct TargetSizesView {
    pub target_id: Seq<char>,
    pub options: Seq<ResourceAllocationView>,
}

impl DeepView for TargetSizes {
    type V = TargetSizesView;

    open spec fn deep_view(&self) -> TargetSizesView {
        TargetSizesView {
            target_id: self.target_id.deep_view(),
            options: self.options.deep_view(),
        }
    }
}

impl View for TargetSizes {
    type V = TargetSizesView;

    open spec fn view(&self) -> TargetSizesView {
        self.deep_view()
    }
}

impl Duplicate for TargetSizes {
    fn duplicate(&self) -> (copy: TargetSizes) {
        TargetSizes {
            target_id: self.target_id.duplicate(),
            options: self.options.duplicate(),
        }
    }
}

// --- Target readiness ---

/// What a readiness probe found.
#[derive(Debug, PartialEq, Eq)]
pub enum ProbeOutcome {
    Ready,
    /// Why the target cannot be used.
    Unavailable(String),
}

/// What a [`ProbeOutcome`] holds.
#[verifier::ext_equal]
pub enum ProbeOutcomeView {
    Ready,
    Unavailable(Seq<char>),
}

impl DeepView for ProbeOutcome {
    type V = ProbeOutcomeView;

    open spec fn deep_view(&self) -> ProbeOutcomeView {
        match self {
            ProbeOutcome::Ready => ProbeOutcomeView::Ready,
            ProbeOutcome::Unavailable(inner) => ProbeOutcomeView::Unavailable(inner.deep_view()),
        }
    }
}

impl View for ProbeOutcome {
    type V = ProbeOutcomeView;

    open spec fn view(&self) -> ProbeOutcomeView {
        self.deep_view()
    }
}

impl Duplicate for ProbeOutcome {
    fn duplicate(&self) -> (copy: ProbeOutcome) {
        match self {
            ProbeOutcome::Ready => ProbeOutcome::Ready,
            ProbeOutcome::Unavailable(inner) => ProbeOutcome::Unavailable(inner.duplicate()),
        }
    }
}

/// A readiness probe of one target.
#[derive(Debug, PartialEq, Eq)]
pub struct TargetReadiness {
    pub target_id: String,
    /// The template the probe was made for.
    pub template: TargetTemplate,
    pub generation: u64,
    /// Nothing while the probe is under way.
    pub outcome: Option<ProbeOutcome>,
    /// When the outcome was stored, in nanoseconds. Only meaningful once there
    /// is one; a probe under way is never stale, so it is never requested
    /// again.
    pub recorded_at: u64,
}

/// What a [`TargetReadiness`] holds.
#[verifier::ext_equal]
pub struct TargetReadinessView {
    pub target_id: Seq<char>,
    pub template: TargetTemplateView,
    pub generation: u64,
    pub outcome: Option<ProbeOutcomeView>,
    pub recorded_at: u64,
}

impl DeepView for TargetReadiness {
    type V = TargetReadinessView;

    open spec fn deep_view(&self) -> TargetReadinessView {
        TargetReadinessView {
            target_id: self.target_id.deep_view(),
            template: self.template.deep_view(),
            generation: self.generation.deep_view(),
            outcome: self.outcome.deep_view(),
            recorded_at: self.recorded_at.deep_view(),
        }
    }
}

impl View for TargetReadiness {
    type V = TargetReadinessView;

    open spec fn view(&self) -> TargetReadinessView {
        self.deep_view()
    }
}

impl Duplicate for TargetReadiness {
    fn duplicate(&self) -> (copy: TargetReadiness) {
        TargetReadiness {
            target_id: self.target_id.duplicate(),
            template: self.template.duplicate(),
            generation: self.generation.duplicate(),
            outcome: self.outcome.duplicate(),
            recorded_at: self.recorded_at.duplicate(),
        }
    }
}

// --- Looking things up ---

impl Keyed for Target {
    open spec fn key_of(view: TargetView) -> Seq<char> {
        view.id
    }

    fn key(&self) -> (key: &str) {
        self.id.as_str()
    }
}

impl Keyed for Profile {
    open spec fn key_of(view: ProfileView) -> Seq<char> {
        view.id
    }

    fn key(&self) -> (key: &str) {
        self.id.as_str()
    }
}

impl Keyed for Bundle {
    open spec fn key_of(view: BundleView) -> Seq<char> {
        view.id
    }

    fn key(&self) -> (key: &str) {
        self.id.as_str()
    }
}

impl Keyed for SessionRecord {
    open spec fn key_of(view: SessionRecordView) -> Seq<char> {
        view.id
    }

    fn key(&self) -> (key: &str) {
        self.id.as_str()
    }
}

impl Keyed for HostPaths {
    open spec fn key_of(view: HostPathsView) -> Seq<char> {
        view.host
    }

    fn key(&self) -> (key: &str) {
        self.host.as_str()
    }
}

impl Keyed for HostSize {
    open spec fn key_of(view: HostSizeView) -> Seq<char> {
        view.host
    }

    fn key(&self) -> (key: &str) {
        self.host.as_str()
    }
}

impl Keyed for SessionDetail {
    open spec fn key_of(view: SessionDetailView) -> Seq<char> {
        view.session_id
    }

    fn key(&self) -> (key: &str) {
        self.session_id.as_str()
    }
}

impl Keyed for TargetFit {
    open spec fn key_of(view: TargetFitView) -> Seq<char> {
        view.target_id
    }

    fn key(&self) -> (key: &str) {
        self.target_id.as_str()
    }
}

impl Keyed for CompatibleProfile {
    open spec fn key_of(view: CompatibleProfileView) -> Seq<char> {
        view.id
    }

    fn key(&self) -> (key: &str) {
        self.id.as_str()
    }
}

impl Keyed for TargetReadiness {
    open spec fn key_of(view: TargetReadinessView) -> Seq<char> {
        view.target_id
    }

    fn key(&self) -> (key: &str) {
        self.target_id.as_str()
    }
}

impl Keyed for TargetSizes {
    open spec fn key_of(view: TargetSizesView) -> Seq<char> {
        view.target_id
    }

    fn key(&self) -> (key: &str) {
        self.target_id.as_str()
    }
}

} // verus!
