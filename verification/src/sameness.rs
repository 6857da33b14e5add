//! When two drafts are the same.

use vstd::prelude::*;

use crate::drafts::{
    Draft, ForcedSource, MountWizard, NewSession, PathInput, Purpose, ResumeSource, Resumption,
};
#[allow(unused_imports)]
use crate::drafts::{DraftView, NewSessionView, ProjectPickerView, PurposeView};
use crate::duplicate::same_text;
#[allow(unused_imports)]
use crate::duplicate::{group_views, views};
use crate::records::{
    AdditionalMount, ConversionPreview, InspectedDirectory, MountAccess, MovePreparation, MoveSelection, QueuedCommand, QueuedCommandKind, RemoteRepository, ResourceAllocation, TargetSizes, WorktreeOptions,
};

verus! {

/// A value that can be compared with everything it holds.
pub trait Same: DeepView + Sized {
    fn same(&self, other: &Self) -> (r: bool)
        ensures
            r == (self.deep_view() == other.deep_view()),
    ;
}

impl Same for bool {
    fn same(&self, other: &bool) -> (r: bool) {
        *self == *other
    }
}

impl Same for u64 {
    fn same(&self, other: &u64) -> (r: bool) {
        *self == *other
    }
}

impl Same for usize {
    fn same(&self, other: &usize) -> (r: bool) {
        *self == *other
    }
}

impl Same for String {
    fn same(&self, other: &String) -> (r: bool) {
        same_text(self.as_str(), other.as_str())
    }
}

impl<T: Same> Same for Option<T> {
    fn same(&self, other: &Option<T>) -> (r: bool) {
        match (self, other) {
            (Some(a), Some(b)) => a.same(b),
            (None, None) => true,
            _ => false,
        }
    }
}

impl<T: Same> Same for Vec<T> {
    fn same(&self, other: &Vec<T>) -> (r: bool) {
        broadcast use group_views;

        let ghost a = self.deep_view();
        let ghost b = other.deep_view();
        if self.len() != other.len() {
            assert(a.len() != b.len());
            return false;
        }
        let mut i: usize = 0;
        while i < self.len()
            invariant
                i <= self.len() == other.len(),
                a == self.deep_view(),
                b == other.deep_view(),
                a == views(self@),
                b == views(other@),
                forall|j: int| 0 <= j < i ==> #[trigger] a[j] == b[j],
            decreases self.len() - i,
        {
            assert(a[i as int] == self@[i as int].deep_view());
            assert(b[i as int] == other@[i as int].deep_view());
            if !self[i].same(&other[i]) {
                return false;
            }
            i = i + 1;
        }
        assert(a =~= b);
        true
    }
}

impl Same for WorktreeOptions {
    fn same(&self, other: &WorktreeOptions) -> (r: bool) {
        self.available.same(&other.available) && self.default_create.same(&other.default_create)
    }
}

impl Same for InspectedDirectory {
    fn same(&self, other: &InspectedDirectory) -> (r: bool) {
        self.target_id.same(&other.target_id) && self.directory.same(&other.directory) && self.options.same(&other.options)
    }
}

impl Same for PathInput {
    fn same(&self, other: &PathInput) -> (r: bool) {
        self.text.same(&other.text) && self.completing.same(&other.completing)
    }
}

impl Same for RemoteRepository {
    fn same(&self, other: &RemoteRepository) -> (r: bool) {
        self.repository_id.same(&other.repository_id) && self.fetch_url.same(&other.fetch_url) && self.default_branch.same(&other.default_branch) && self.push_urls.same(&other.push_urls)
    }
}

impl Same for ResumeSource {
    fn same(&self, other: &ResumeSource) -> (r: bool) {
        *self == *other
    }
}

impl Same for MountAccess {
    fn same(&self, other: &MountAccess) -> (r: bool) {
        *self == *other
    }
}

impl Same for AdditionalMount {
    fn same(&self, other: &AdditionalMount) -> (r: bool) {
        self.source.same(&other.source) && self.destination.same(&other.destination) && self.access.same(&other.access)
    }
}

impl Same for ResourceAllocation {
    fn same(&self, other: &ResourceAllocation) -> (r: bool) {
        match (self, other) {
            (ResourceAllocation::Container { cpus: a0, memory_bytes: a1 }, ResourceAllocation::Container { cpus: b0, memory_bytes: b1 }) => a0.same(b0) && a1.same(b1),
            (ResourceAllocation::AwsEc2 { instance_type: a0, vcpus: a1, memory_bytes: a2 }, ResourceAllocation::AwsEc2 { instance_type: b0, vcpus: b1, memory_bytes: b2 }) => a0.same(b0) && a1.same(b1) && a2.same(b2),
            _ => false,
        }
    }
}

impl Same for MoveSelection {
    fn same(&self, other: &MoveSelection) -> (r: bool) {
        self.session_id.same(&other.session_id) && self.profile_id.same(&other.profile_id) && self.target_template_id.same(&other.target_template_id) && self.additional_mounts.same(&other.additional_mounts) && self.resource_allocation.same(&other.resource_allocation) && self.clear_resource_allocation.same(&other.clear_resource_allocation)
    }
}

impl Same for QueuedCommandKind {
    fn same(&self, other: &QueuedCommandKind) -> (r: bool) {
        *self == *other
    }
}

impl Same for QueuedCommand {
    fn same(&self, other: &QueuedCommand) -> (r: bool) {
        self.kind.same(&other.kind) && self.text.same(&other.text)
    }
}

impl Same for ConversionPreview {
    fn same(&self, other: &ConversionPreview) -> (r: bool) {
        self.summary.same(&other.summary) && self.warnings.same(&other.warnings)
    }
}

impl Same for MovePreparation {
    fn same(&self, other: &MovePreparation) -> (r: bool) {
        self.selection.same(&other.selection) && self.active.same(&other.active) && self.in_place.same(&other.in_place) && self.source_unavailable.same(&other.source_unavailable) && self.queued_commands.same(&other.queued_commands) && self.conversion.same(&other.conversion)
    }
}

impl Same for ForcedSource {
    fn same(&self, other: &ForcedSource) -> (r: bool) {
        self.source.same(&other.source) && self.reason.same(&other.reason)
    }
}

impl Same for MountWizard {
    fn same(&self, other: &MountWizard) -> (r: bool) {
        self.source.same(&other.source) && self.destination.same(&other.destination) && self.access.same(&other.access) && self.access_combo.same(&other.access_combo) && self.mounts.same(&other.mounts) && self.history.same(&other.history) && self.history_index.same(&other.history_index) && self.forced_sources.same(&other.forced_sources) && self.error.same(&other.error) && self.editing_mount.same(&other.editing_mount)
    }
}

impl Same for TargetSizes {
    fn same(&self, other: &TargetSizes) -> (r: bool) {
        self.target_id.same(&other.target_id) && self.options.same(&other.options)
    }
}

// --- Drafts ---

impl NewSessionView {
    /// The part without the state of its project picker.
    pub open spec fn content(self, picker: ProjectPickerView) -> NewSessionView {
        NewSessionView { project_picker: picker, ..self }
    }
}

impl DraftView {
    /// The two drafts describe the same session: they differ at most in what
    /// their forms and project pickers hold.
    pub open spec fn same_session(self, other: DraftView) -> bool {
        let renewed = DraftView { form: other.form, ..self };
        match (self.purpose, other.purpose) {
            (PurposeView::New(a), PurposeView::New(b)) => renewed.with_new(
                a.content(b.project_picker),
            ) == other,
            _ => renewed == other,
        }
    }
}

/// Two drafts are of the same session exactly where they agree in everything
/// that is asked for: what they choose and what they attach. What their forms
/// hold, and what a project picker is looking at, makes no difference.
pub proof fn law_same_session_compares(a: DraftView, b: DraftView)
    ensures
        a.same_session(b) ==> {
            &&& a.profile == b.profile && a.target == b.target && a.step == b.step
            &&& a.workspace_id == b.workspace_id && a.mounts == b.mounts
            &&& a.resource_allocation == b.resource_allocation
            &&& a.purpose is New <==> b.purpose is New
            &&& a.purpose matches PurposeView::New(x) ==> {
                &&& x.bundle == b.new_part().bundle
                &&& x.project_directory == b.new_part().project_directory
                &&& x.new_bundle_repositories == b.new_part().new_bundle_repositories
                &&& x.mjolnir_subagents == b.new_part().mjolnir_subagents
                &&& x.create_managed_worktree == b.new_part().create_managed_worktree
            }
            &&& a.purpose is Resume ==> a.purpose == b.purpose
        },
        a.same_session(DraftView { form: b.form, ..a }),
        a.purpose matches PurposeView::New(x) ==> a.same_session(
            a.with_new(NewSessionView { project_picker: b.new_part().project_picker, ..x }),
        ),
{
}

/// Being the same session does not depend on which of two drafts comes first,
/// and carries over.
pub proof fn law_same_session(a: DraftView, b: DraftView, c: DraftView)
    ensures
        a.same_session(a),
        a.same_session(b) ==> b.same_session(a),
        a.same_session(b) && b.same_session(c) ==> a.same_session(c),
{
}

impl NewSession {
    fn same_content(&self, other: &NewSession) -> (r: bool)
        ensures
            r == (self@.content(other@.project_picker) == other@),
    {
        self.worktree_options.same(&other.worktree_options)
            && self.create_managed_worktree.same(&other.create_managed_worktree)
            && self.mjolnir_subagents.same(&other.mjolnir_subagents)
            && self.bundle.same(&other.bundle)
            && self.new_bundle_selected.same(&other.new_bundle_selected)
            && self.new_bundle_repositories.same(&other.new_bundle_repositories)
            && self.new_bundle_source.same(&other.new_bundle_source)
            && self.bundle_creation_in_flight.same(&other.bundle_creation_in_flight)
            && self.project_directory.same(&other.project_directory)
            && self.project_directory_error.same(&other.project_directory_error)
            && self.project_history.same(&other.project_history)
            && self.project_history_index.same(&other.project_history_index)
            && self.remote_repositories.same(&other.remote_repositories)
            && self.remote_preflight_in_flight.same(&other.remote_preflight_in_flight)
            && self.remote_preflight_error.same(&other.remote_preflight_error)
    }
}

impl Resumption {
    fn same_content(&self, other: &Resumption) -> (r: bool)
        ensures
            r == (self@ == other@),
    {
        self.session_id.same(&other.session_id)
            && self.source.same(&other.source)
            && self.title.same(&other.title)
            && self.moving.same(&other.moving)
            && self.preparation.same(&other.preparation)
            && self.preparing.same(&other.preparing)
            && self.preparation_request_id.same(&other.preparation_request_id)
            && self.preparation_error.same(&other.preparation_error)
            && self.discard_queue.same(&other.discard_queue)
    }
}

impl Draft {
    /// Whether the two drafts describe the same session, whatever their forms
    /// hold.
    pub fn same_session(&self, other: &Draft) -> (r: bool)
        ensures
            r == self@.same_session(other@),
    {
        let shared = self.workspace_id.same(&other.workspace_id) && self.step == other.step
            && self.profile == other.profile && self.target == other.target && self.mounts.same(
            &other.mounts,
        ) && self.resource_allocation.same(&other.resource_allocation) && self.aws_options.same(
            &other.aws_options,
        ) && self.sizing_error.same(&other.sizing_error);
        match (&self.purpose, &other.purpose) {
            (Purpose::New(a), Purpose::New(b)) => shared && a.same_content(b),
            (Purpose::Resume(a), Purpose::Resume(b)) => shared && a.same_content(b),
            _ => false,
        }
    }
}

} // verus!
