//! Path fields: who completes them, and what answers about paths change.

use vstd::prelude::*;

use crate::dashboard_state::{CompletionHost, DashboardAction, DashboardState, Mode};
#[allow(unused_imports)]
use crate::dashboard_state::{
    CompletionHostView, DashboardActionView, DashboardStateView, ModeView,
};
use crate::drafts::{Draft, NewSession, PartRequest, Purpose, WizardControl, WizardStep};
#[allow(unused_imports)]
use crate::drafts::{
    DraftView, MountWizardView, NewSessionView, PartRequestView, PathInputView, PurposeView,
};
#[allow(unused_imports)]
use crate::duplicate::group_views;
use crate::duplicate::{owned, same_text, Duplicate};
#[allow(unused_imports)]
use crate::mounts::{field, without_overlay};
use crate::readiness::{same_optional, same_template};
use crate::records::{InspectedDirectory, MountAccess, Target, WorktreeOptions};
#[allow(unused_imports)]
use crate::records::{InspectedDirectoryView, TargetView, WorktreeOptionsView};
use crate::text::trim;
#[allow(unused_imports)]
use crate::text::trimmed;

verus! {

// --- Which draft an answer is for ---

/// The part of a draft that a path answer depends on.
#[derive(Debug, PartialEq, Eq)]
pub struct DraftContext {
    /// The session that is resumed; nothing for a new one.
    pub session_id: Option<String>,
    /// The target, where there is one in its place.
    pub target: Option<Target>,
    pub step: WizardStep,
    pub project_directory: Option<String>,
    pub new_bundle_source: Option<String>,
    pub source: String,
    pub destination: String,
    pub access: MountAccess,
}

/// What a [`DraftContext`] holds.
#[verifier::ext_equal]
pub struct DraftContextView {
    pub session_id: Option<Seq<char>>,
    pub target: Option<TargetView>,
    pub step: WizardStep,
    pub project_directory: Option<Seq<char>>,
    pub new_bundle_source: Option<Seq<char>>,
    pub source: Seq<char>,
    pub destination: Seq<char>,
    pub access: MountAccess,
}

impl DeepView for DraftContext {
    type V = DraftContextView;

    open spec fn deep_view(&self) -> DraftContextView {
        DraftContextView {
            session_id: self.session_id.deep_view(),
            target: self.target.deep_view(),
            step: self.step.deep_view(),
            project_directory: self.project_directory.deep_view(),
            new_bundle_source: self.new_bundle_source.deep_view(),
            source: self.source.deep_view(),
            destination: self.destination.deep_view(),
            access: self.access.deep_view(),
        }
    }
}

impl View for DraftContext {
    type V = DraftContextView;

    open spec fn view(&self) -> DraftContextView {
        self.deep_view()
    }
}

impl Duplicate for DraftContext {
    fn duplicate(&self) -> (copy: DraftContext) {
        DraftContext {
            session_id: self.session_id.duplicate(),
            target: self.target.duplicate(),
            step: self.step.duplicate(),
            project_directory: self.project_directory.duplicate(),
            new_bundle_source: self.new_bundle_source.duplicate(),
            source: self.source.duplicate(),
            destination: self.destination.duplicate(),
            access: self.access.duplicate(),
        }
    }
}

/// Identifies the draft a background path operation is allowed to update.
#[derive(Debug, PartialEq, Eq)]
pub struct PathContext {
    pub generation: u64,
    pub draft: Option<DraftContext>,
    /// What a dialog that is no session wizard adds.
    pub dialog: String,
}

/// What a [`PathContext`] holds.
#[verifier::ext_equal]
pub struct PathContextView {
    pub generation: u64,
    pub draft: Option<DraftContextView>,
    pub dialog: Seq<char>,
}

impl DeepView for PathContext {
    type V = PathContextView;

    open spec fn deep_view(&self) -> PathContextView {
        PathContextView {
            generation: self.generation.deep_view(),
            draft: self.draft.deep_view(),
            dialog: self.dialog.deep_view(),
        }
    }
}

impl View for PathContext {
    type V = PathContextView;

    open spec fn view(&self) -> PathContextView {
        self.deep_view()
    }
}

impl Duplicate for PathContext {
    fn duplicate(&self) -> (copy: PathContext) {
        PathContext {
            generation: self.generation.duplicate(),
            draft: self.draft.duplicate(),
            dialog: self.dialog.duplicate(),
        }
    }
}

/// A path field of the wizards.
#[derive(Debug, Clone, Copy, PartialEq, Eq, Structural)]
pub enum PathFieldId {
    MountSource,
    ProjectDirectory,
    NewBundleSource,
}

impl DeepView for PathFieldId {
    type V = PathFieldId;

    open spec fn deep_view(&self) -> PathFieldId {
        *self
    }
}

impl Duplicate for PathFieldId {
    fn duplicate(&self) -> (copy: PathFieldId) {
        *self
    }
}

impl DashboardStateView {
    /// The draft a background path operation is allowed to update.
    pub open spec fn path_context(self) -> PathContextView {
        PathContextView {
            generation: self.preflight_generation,
            draft: match self.mode {
                ModeView::Wizard(draft) => Some(
                    DraftContextView {
                        session_id: match draft.purpose {
                            PurposeView::Resume(part) => Some(part.session_id),
                            PurposeView::New(_) => None,
                        },
                        target: if draft.target < self.config.targets.len() {
                            Some(self.target(draft.target))
                        } else {
                            None
                        },
                        step: draft.step,
                        project_directory: match draft.purpose {
                            PurposeView::New(part) => Some(part.project_directory.text),
                            PurposeView::Resume(_) => None,
                        },
                        new_bundle_source: match draft.purpose {
                            PurposeView::New(part) => Some(part.new_bundle_source.text),
                            PurposeView::Resume(_) => None,
                        },
                        source: draft.mounts.source.text,
                        destination: draft.mounts.destination.text,
                        access: draft.mounts.access,
                    },
                ),
                _ => None,
            },
            dialog: match self.mode {
                ModeView::Other(dialog) => dialog,
                _ => ""@,
            },
        }
    }
}

/// An answer for one dialog is for no other: dialogs that differ in what they
/// add have contexts that differ.
pub proof fn law_dialogs_told_apart(state: DashboardStateView, a: Seq<char>, b: Seq<char>)
    requires
        a != b,
    ensures
        (DashboardStateView { mode: ModeView::Other(a), ..state }).path_context() != (
        DashboardStateView { mode: ModeView::Other(b), ..state }).path_context(),
{
}

/// An answer for a wizard that was closed meanwhile is for no draft opened
/// since.
pub proof fn law_closing_changes_context(state: DashboardStateView, draft: DraftView)
    ensures
        state.closed().showing(draft).path_context() != state.path_context(),
{
}

fn same_draft_context(a: &DraftContext, b: &DraftContext) -> (same: bool)
    ensures
        same == (a@ == b@),
{
    let same_target = match (&a.target, &b.target) {
        (Some(x), Some(y)) => same_text(x.id.as_str(), y.id.as_str()) && same_template(
            &x.template,
            &y.template,
        ),
        (None, None) => true,
        _ => false,
    };
    same_target && same_optional(&a.session_id, &b.session_id) && a.step == b.step
        && same_optional(&a.project_directory, &b.project_directory) && same_optional(
        &a.new_bundle_source,
        &b.new_bundle_source,
    ) && same_text(a.source.as_str(), b.source.as_str()) && same_text(
        a.destination.as_str(),
        b.destination.as_str(),
    ) && a.access == b.access
}

/// Whether two answers are for one draft.
pub fn same_context(a: &PathContext, b: &PathContext) -> (same: bool)
    ensures
        same == (a@ == b@),
{
    a.generation == b.generation && match (&a.draft, &b.draft) {
        (Some(x), Some(y)) => same_draft_context(x, y),
        (None, None) => true,
        _ => false,
    } && same_text(a.dialog.as_str(), b.dialog.as_str())
}

impl DashboardState {
    /// Identifies the draft a background path operation is allowed to update.
    pub fn path_input_context(&self) -> (context: PathContext)
        ensures
            context@ == self@.path_context(),
    {
        broadcast use group_views;

        let draft = match &self.mode {
            Mode::Wizard(draft) => {
                let (session_id, project_directory, new_bundle_source) = match &draft.purpose {
                    Purpose::New(part) => (
                        None,
                        Some(part.project_directory.text.duplicate()),
                        Some(part.new_bundle_source.text.duplicate()),
                    ),
                    Purpose::Resume(part) => (Some(part.session_id.duplicate()), None, None),
                };
                Some(
                    DraftContext {
                        session_id,
                        target: if draft.target < self.config.targets.len() {
                            Some(self.config.targets[draft.target].duplicate())
                        } else {
                            None
                        },
                        step: draft.step,
                        project_directory,
                        new_bundle_source,
                        source: draft.mounts.source.text.duplicate(),
                        destination: draft.mounts.destination.text.duplicate(),
                        access: draft.mounts.access,
                    },
                )
            },
            _ => None,
        };
        let dialog = match &self.mode {
            Mode::Other(dialog) => dialog.duplicate(),
            _ => owned(""),
        };
        PathContext { generation: self.preflight_generation, draft, dialog }
    }

    fn in_context(&self, context: &PathContext) -> (r: bool)
        ensures
            r == (context@ == self@.path_context()),
    {
        same_context(&self.path_input_context(), context)
    }
}

// --- Completing paths ---

/// What is to be done with an event that may concern a completion popup.
#[derive(Debug, PartialEq, Eq)]
pub enum CompletionRoute {
    /// The event is none of the popup's; the wizard handles it.
    Pass,
    /// Nothing is to be done.
    Ignore,
    /// Ask for completions of a field's text.
    Request { field: PathFieldId, host: CompletionHost },
    /// Take the chosen row of a field's popup.
    Commit { field: PathFieldId, row: usize, host: CompletionHost },
    /// Close a field's popup.
    Dismiss { field: PathFieldId },
    /// Highlight a row of a field's popup.
    Highlight { field: PathFieldId, row: usize },
}

/// What a [`CompletionRoute`] holds.
#[verifier::ext_equal]
pub enum CompletionRouteView {
    Pass,
    Ignore,
    Request { field: PathFieldId, host: CompletionHostView },
    Commit { field: PathFieldId, row: usize, host: CompletionHostView },
    Dismiss { field: PathFieldId },
    Highlight { field: PathFieldId, row: usize },
}

impl View for CompletionRoute {
    type V = CompletionRouteView;

    open spec fn view(&self) -> CompletionRouteView {
        match self {
            CompletionRoute::Pass => CompletionRouteView::Pass,
            CompletionRoute::Ignore => CompletionRouteView::Ignore,
            CompletionRoute::Request { field, host } => CompletionRouteView::Request {
                field: *field,
                host: host@,
            },
            CompletionRoute::Commit { field, row, host } => CompletionRouteView::Commit {
                field: *field,
                row: *row,
                host: host@,
            },
            CompletionRoute::Dismiss { field } => CompletionRouteView::Dismiss { field: *field },
            CompletionRoute::Highlight { field, row } => CompletionRouteView::Highlight {
                field: *field,
                row: *row,
            },
        }
    }
}

/// What a form reports that may concern a completion popup.
#[derive(Debug, Clone, Copy, PartialEq, Eq, Structural)]
pub enum CompletionEvent {
    Complete,
    Commit { row: usize },
    Dismiss,
    Select { row: usize },
    Unrelated,
}

/// The path field that a control is.
pub open spec fn path_field(draft: DraftView, control: Option<WizardControl>) -> Option<
    PathFieldId,
> {
    match control {
        Some(WizardControl::MountSource) => Some(PathFieldId::MountSource),
        Some(WizardControl::ProjectDirectory) if draft.purpose is New => Some(
            PathFieldId::ProjectDirectory,
        ),
        Some(WizardControl::NewBundleSource) if draft.purpose is New => Some(
            PathFieldId::NewBundleSource,
        ),
        _ => None,
    }
}

impl DraftView {
    pub open spec fn path_input(self, id: PathFieldId) -> PathInputView {
        match id {
            PathFieldId::MountSource => self.mounts.source,
            PathFieldId::ProjectDirectory => self.new_part().project_directory,
            PathFieldId::NewBundleSource => self.new_part().new_bundle_source,
        }
    }

    /// The event has a field completed on the draft's target.
    pub open spec fn completes_on_target(self, event: CompletionEvent) -> bool {
        &&& event is Complete || event is Commit
        &&& path_field(self, self.form.focused) matches Some(field) && field
            != PathFieldId::NewBundleSource
    }

    /// The event is none of a completion popup's.
    pub open spec fn passes_popups(self, event: CompletionEvent) -> bool {
        match event {
            CompletionEvent::Unrelated => true,
            CompletionEvent::Select { .. } => path_field(self, self.form.focused) matches Some(
                field,
            ) ==> !self.path_input(field).completing,
            _ => false,
        }
    }

    /// The draft with no popup open but that of the focused field: Tab moves
    /// focus before the form reports the dismissal, and a popup over a field
    /// nobody is editing is noise.
    pub open spec fn popups_settled(self) -> DraftView {
        let kept = path_field(self, self.form.focused);
        let mounts = if kept == Some(PathFieldId::MountSource) {
            self.mounts
        } else {
            MountWizardView {
                source: PathInputView { completing: false, ..self.mounts.source },
                ..self.mounts
            }
        };
        let settled = DraftView { mounts, ..self };
        match self.purpose {
            PurposeView::Resume(_) => settled,
            PurposeView::New(part) => settled.with_new(
                NewSessionView {
                    project_directory: PathInputView {
                        completing: part.project_directory.completing && kept == Some(
                            PathFieldId::ProjectDirectory,
                        ),
                        ..part.project_directory
                    },
                    new_bundle_source: PathInputView {
                        completing: part.new_bundle_source.completing && kept == Some(
                            PathFieldId::NewBundleSource,
                        ),
                        ..part.new_bundle_source
                    },
                    ..part
                },
            ),
        }
    }
}

impl DashboardStateView {
    /// What is to be done with an event that may concern the popup of the
    /// focused field.
    pub open spec fn completion_route(self, draft: DraftView, event: CompletionEvent) -> CompletionRouteView {
        match (event, path_field(draft, draft.form.focused)) {
            (CompletionEvent::Unrelated, _) => CompletionRouteView::Pass,
            (CompletionEvent::Complete, Some(field)) => CompletionRouteView::Request {
                field,
                host: self.completion_host(draft, field),
            },
            (CompletionEvent::Commit { row }, Some(field)) => CompletionRouteView::Commit {
                field,
                row,
                host: self.completion_host(draft, field),
            },
            (CompletionEvent::Dismiss, Some(field)) => CompletionRouteView::Dismiss { field },
            (CompletionEvent::Select { row }, Some(field)) => if draft.path_input(
                field,
            ).completing {
                CompletionRouteView::Highlight { field, row }
            } else {
                CompletionRouteView::Pass
            },
            (CompletionEvent::Select { .. }, None) => CompletionRouteView::Pass,
            (_, None) => CompletionRouteView::Ignore,
        }
    }

    /// The field that takes a completion reply made for `context`.
    pub open spec fn completed_field(self, context: PathContextView) -> Option<PathFieldId> {
        match self.mode {
            ModeView::Wizard(draft) if context == self.path_context() => path_field(
                draft,
                draft.form.focused,
            ),
            _ => None,
        }
    }

    /// The target is there that a completion is looked up on.
    pub open spec fn can_complete(self, draft: DraftView, event: CompletionEvent) -> bool {
        draft.completes_on_target(event) ==> self.has_target(draft)
    }

    /// Whose directories complete a field: repositories are found on this
    /// machine, everything else on the target's host.
    pub open spec fn completion_host(self, draft: DraftView, field: PathFieldId) -> CompletionHostView {
        if field == PathFieldId::NewBundleSource {
            CompletionHostView::Controller
        } else {
            CompletionHostView::Target(self.target(draft.target).id)
        }
    }
}

/// Repositories are completed with the directories of this machine, and every
/// other path with those of the selected target.
pub proof fn law_completed_on_its_host(state: DashboardStateView, draft: DraftView)
    requires
        draft.purpose is New,
    ensures
        ({
            let target = CompletionHostView::Target(state.config.targets[draft.target as int].id);
            let source = draft.focusing(WizardControl::NewBundleSource);
            let directory = draft.focusing(WizardControl::ProjectDirectory);
            let mount = draft.focusing(WizardControl::MountSource);
            &&& state.completion_route(source, CompletionEvent::Complete)
                == CompletionRouteView::Request {
                field: PathFieldId::NewBundleSource,
                host: CompletionHostView::Controller,
            }
            &&& state.completion_route(directory, CompletionEvent::Complete)
                == CompletionRouteView::Request {
                field: PathFieldId::ProjectDirectory,
                host: target,
            }
            &&& state.completion_route(mount, CompletionEvent::Complete)
                == CompletionRouteView::Request { field: PathFieldId::MountSource, host: target }
        }),
{
}

/// A completion reply is for the field with the focus, in the draft that asked
/// for it, and for nothing else.
pub proof fn law_completion_for_focused_field(
    state: DashboardStateView,
    draft: DraftView,
    context: PathContextView,
)
    requires
        state.mode == ModeView::Wizard(draft),
    ensures
        context != state.path_context() ==> state.completed_field(context) is None,
        context == state.path_context() ==> {
            let field = state.completed_field(context);
            let focus = draft.form.focused;
            &&& field == Some(PathFieldId::MountSource) <==> focus == Some(
                WizardControl::MountSource,
            )
            &&& field == Some(PathFieldId::ProjectDirectory) <==> focus == Some(
                WizardControl::ProjectDirectory,
            ) && draft.purpose is New
            &&& field == Some(PathFieldId::NewBundleSource) <==> focus == Some(
                WizardControl::NewBundleSource,
            ) && draft.purpose is New
        },
{
}

/// Settling popups changes no text, and closes every popup but that of the
/// focused field.
pub proof fn law_settling_keeps_texts(draft: DraftView)
    ensures
        ({
            let after = draft.popups_settled();
            let focus = draft.form.focused;
            &&& after.mounts.source.text == draft.mounts.source.text
            &&& after.mounts.destination == draft.mounts.destination
            &&& after.mounts.mounts == draft.mounts.mounts
            &&& after.step == draft.step && after.target == draft.target
            &&& focus == Some(WizardControl::MountSource) ==> after.mounts.source
                == draft.mounts.source
            &&& focus != Some(WizardControl::MountSource) ==> !after.mounts.source.completing
            &&& draft.purpose matches PurposeView::New(part) ==> {
                &&& after.purpose matches PurposeView::New(kept)
                &&& kept.project_directory.text == part.project_directory.text
                &&& kept.new_bundle_source.text == part.new_bundle_source.text
                &&& kept.bundle == part.bundle
                &&& focus == Some(WizardControl::ProjectDirectory) ==> kept.project_directory
                    == part.project_directory
                &&& focus != Some(WizardControl::ProjectDirectory)
                    ==> !kept.project_directory.completing
                &&& focus == Some(WizardControl::NewBundleSource) ==> kept.new_bundle_source
                    == part.new_bundle_source
                &&& focus != Some(WizardControl::NewBundleSource)
                    ==> !kept.new_bundle_source.completing
            }
            &&& draft.purpose is Resume ==> after.purpose == draft.purpose
        }),
{
}

fn focused_path_field(draft: &Draft) -> (field: Option<PathFieldId>)
    ensures
        field == path_field(draft@, draft@.form.focused),
{
    let new = match &draft.purpose {
        Purpose::New(_) => true,
        Purpose::Resume(_) => false,
    };
    match draft.form.focused {
        Some(WizardControl::MountSource) => Some(PathFieldId::MountSource),
        Some(WizardControl::ProjectDirectory) => if new {
            Some(PathFieldId::ProjectDirectory)
        } else {
            None
        },
        Some(WizardControl::NewBundleSource) => if new {
            Some(PathFieldId::NewBundleSource)
        } else {
            None
        },
        _ => None,
    }
}

/// Whether the event has a field completed on the draft's target.
pub(crate) fn completes_on_target(draft: &Draft, event: CompletionEvent) -> (r: bool)
    ensures
        r == draft@.completes_on_target(event),
{
    let asks = match event {
        CompletionEvent::Complete | CompletionEvent::Commit { .. } => true,
        _ => false,
    };
    match focused_path_field(draft) {
        Some(field) => asks && field != PathFieldId::NewBundleSource,
        None => false,
    }
}

/// Whether the event is none of a completion popup's.
pub(crate) fn passes_popups(draft: &Draft, event: CompletionEvent) -> (r: bool)
    ensures
        r == draft@.passes_popups(event),
{
    match event {
        CompletionEvent::Unrelated => true,
        CompletionEvent::Select { .. } => match focused_path_field(draft) {
            Some(field) => !field_completing(draft, field),
            None => true,
        },
        _ => false,
    }
}

/// Closes the popup of every wizard path field that is not focused.
pub fn dismiss_unfocused_wizard_completions(draft: &mut Draft)
    ensures
        final(draft)@ == old(draft)@.popups_settled(),
{
    let kept = focused_path_field(draft);
    let keeps_source = match kept {
        Some(PathFieldId::MountSource) => true,
        _ => false,
    };
    let keeps_directory = match kept {
        Some(PathFieldId::ProjectDirectory) => true,
        _ => false,
    };
    let keeps_repository = match kept {
        Some(PathFieldId::NewBundleSource) => true,
        _ => false,
    };
    if !keeps_source {
        draft.mounts.source.dismiss_completion();
    }
    match &mut draft.purpose {
        Purpose::New(part) => {
            if !keeps_directory {
                part.project_directory.dismiss_completion();
            }
            if !keeps_repository {
                part.new_bundle_source.dismiss_completion();
            }
        },
        Purpose::Resume(_) => {},
    }
}

fn field_completing(draft: &Draft, field: PathFieldId) -> (r: bool)
    requires
        field == PathFieldId::MountSource || draft@.purpose is New,
    ensures
        r == draft@.path_input(field).completing,
{
    match (field, &draft.purpose) {
        (PathFieldId::MountSource, _) => draft.mounts.source.completing,
        (PathFieldId::ProjectDirectory, Purpose::New(part)) => part.project_directory.completing,
        (PathFieldId::NewBundleSource, Purpose::New(part)) => part.new_bundle_source.completing,
        (_, Purpose::Resume(_)) => false,
    }
}

impl DashboardState {
    fn field_host(&self, draft: &Draft, field: PathFieldId) -> (host: CompletionHost)
        requires
            field != PathFieldId::NewBundleSource ==> self@.has_target(draft@),
        ensures
            host@ == self@.completion_host(draft@, field),
    {
        broadcast use group_views;

        if field == PathFieldId::NewBundleSource {
            CompletionHost::Controller
        } else {
            CompletionHost::Target(self.config.targets[draft.target].id.duplicate())
        }
    }

    /// Decides what an event does to the completion popups, so no screen
    /// repeats the popup's key handling. A list elsewhere on the screen still
    /// owns its own selection, so only a field with an open popup takes one.
    pub fn route_path_completion(&self, draft: &mut Draft, event: CompletionEvent) -> (route:
        CompletionRoute)
        requires
            self@.can_complete(old(draft)@, event),
        ensures
            final(draft)@ == old(draft)@.popups_settled(),
            route@ == self@.completion_route(old(draft)@, event),
    {
        dismiss_unfocused_wizard_completions(draft);
        match event {
            CompletionEvent::Unrelated => CompletionRoute::Pass,
            CompletionEvent::Complete => match focused_path_field(draft) {
                Some(field) => CompletionRoute::Request {
                    field,
                    host: self.field_host(draft, field),
                },
                None => CompletionRoute::Ignore,
            },
            CompletionEvent::Commit { row } => match focused_path_field(draft) {
                Some(field) => CompletionRoute::Commit {
                    field,
                    row,
                    host: self.field_host(draft, field),
                },
                None => CompletionRoute::Ignore,
            },
            CompletionEvent::Dismiss => match focused_path_field(draft) {
                Some(field) => CompletionRoute::Dismiss { field },
                None => CompletionRoute::Ignore,
            },
            CompletionEvent::Select { row } => match focused_path_field(draft) {
                Some(field) => if field_completing(draft, field) {
                    CompletionRoute::Highlight { field, row }
                } else {
                    CompletionRoute::Pass
                },
                None => CompletionRoute::Pass,
            },
        }
    }

    /// The field that takes a completion reply made for `context`. A reply
    /// for a draft the screen has moved on from is dropped: typed input always
    /// outranks a suggestion.
    pub fn apply_path_completions(&self, context: &PathContext) -> (field: Option<PathFieldId>)
        ensures
            field == self@.completed_field(context@),
    {
        if !self.in_context(context) {
            return None;
        }
        match &self.mode {
            Mode::Wizard(draft) => focused_path_field(draft),
            _ => None,
        }
    }
}

// --- Attached directories ---

impl DraftView {
    /// The draft waits for the host's answer about this source.
    pub open spec fn validating(self, source: Seq<char>) -> bool {
        self.step == WizardStep::Mounts && self.mounts.source.text == source
    }

    /// The draft with its entry accepted and selected on the review. A source
    /// whose file system cannot hold the overlay is remembered, so that the
    /// entry is attached without it.
    pub open spec fn mount_accepted(self, source: Seq<char>, forced: Option<Seq<char>>) -> DraftView {
        let settled = match forced {
            Some(reason) => MountWizardView {
                forced_sources: self.mounts.forced(trimmed(source), reason),
                access: without_overlay(self.mounts.access),
                ..self.mounts
            },
            None => self.mounts,
        };
        let added = settled.entry_added();
        DraftView {
            mounts: MountWizardView {
                history_index: (added.mounts.len() - 1) as usize,
                ..added
            },
            form: self.form.submitting(false).asking(
                PartRequestView::ForgetAttachmentEditor,
            ).focusing(WizardControl::ReviewAttachments),
            step: WizardStep::Review,
            ..self
        }
    }

    /// The draft whose project directory could not be looked at.
    pub open spec fn inspection_failed(self, error: Seq<char>) -> DraftView {
        let part = self.new_part();
        self.with_new(
            NewSessionView {
                remote_preflight_in_flight: false,
                remote_preflight_error: if self.step == WizardStep::Review {
                    Some(error)
                } else {
                    part.remote_preflight_error
                },
                ..part
            },
        )
    }

    /// The draft with what is wrong with its entry.
    pub open spec fn mount_rejected(self, error: Seq<char>) -> DraftView {
        DraftView {
            mounts: MountWizardView { error: Some(error), ..self.mounts },
            form: self.form.submitting(false).focusing(WizardControl::MountSource),
            ..self
        }
    }
}

impl DashboardStateView {
    /// What a change of the attached directories comes to. It needs a new
    /// prerequisite check, and a corrected directory must not leave its
    /// earlier failure on the review; a move is prepared anew.
    pub open spec fn mounts_changed(self, draft: DraftView) -> (
        DashboardStateView,
        DashboardActionView,
    ) {
        match draft.purpose {
            PurposeView::New(_) => {
                let (state, unchecked) = self.checks_discarded(draft);
                (state.showing(unchecked), DashboardActionView::Nothing)
            },
            PurposeView::Resume(_) => self.review_entered(draft),
        }
    }

    /// What the host's answer about a source comes to.
    pub open spec fn mount_validated(
        self,
        source: Seq<char>,
        result: Result<Option<Seq<char>>, Seq<char>>,
    ) -> (DashboardStateView, DashboardActionView) {
        match self.mode {
            ModeView::Wizard(draft) if draft.validating(source) => match result {
                Err(error) => (
                    self.showing(draft.mount_rejected(error)),
                    DashboardActionView::Nothing,
                ),
                Ok(forced) => self.mounts_changed(draft.mount_accepted(source, forced)),
            },
            _ => (self, DashboardActionView::Nothing),
        }
    }

    /// What the host's answer about a source comes to, for the draft that
    /// asked.
    pub open spec fn mount_resolved(
        self,
        context: PathContextView,
        source: Seq<char>,
        result: Result<(Seq<char>, Option<Seq<char>>), Seq<char>>,
    ) -> (DashboardStateView, DashboardActionView) {
        if context != self.path_context() {
            (self, DashboardActionView::Nothing)
        } else {
            match result {
                Err(error) => self.mount_validated(source, Err(error)),
                Ok((resolved, forced)) => match self.mode {
                    ModeView::Wizard(draft) => self.showing(
                        DraftView {
                            mounts: MountWizardView { source: field(resolved), ..draft.mounts },
                            ..draft
                        },
                    ).mount_validated(resolved, Ok(forced)),
                    _ => (self, DashboardActionView::Nothing),
                },
            }
        }
    }
}

/// An accepted entry comes back to the review with the last attachment
/// selected, the editor empty, and every other attachment as it was.
pub proof fn law_accepted_mount_reviewed(
    draft: DraftView,
    source: Seq<char>,
    forced: Option<Seq<char>>,
)
    requires
        draft.mounts.edit_valid(),
        draft.mounts.mounts.len() < usize::MAX,
    ensures
        ({
            let after = draft.mount_accepted(source, forced);
            let before = draft.mounts.mounts;
            &&& after.step == WizardStep::Review
            &&& after.form.focused == Some(WizardControl::ReviewAttachments)
            &&& !after.form.submission_pending
            &&& after.mounts.mounts.len() == before.len() + if draft.mounts.editing_mount is Some {
                0int
            } else {
                1int
            }
            &&& after.mounts.history_index == after.mounts.mounts.len() - 1
            &&& forall|i: int|
                0 <= i < before.len() && draft.mounts.editing_mount != Some(i as usize)
                    ==> #[trigger] after.mounts.mounts[i] == before[i]
            &&& after.mounts.source.text.len() == 0 && after.mounts.destination.text.len() == 0
            &&& after.mounts.error is None && after.mounts.editing_mount is None
            &&& after.target == draft.target && after.purpose == draft.purpose
            &&& after.resource_allocation == draft.resource_allocation
        }),
{
}

/// An answer about a source counts only while that source is being attached. A
/// refusal keeps the entry and says why; nothing is attached.
pub proof fn law_source_answer_taken(
    state: DashboardStateView,
    draft: DraftView,
    source: Seq<char>,
    error: Seq<char>,
    forced: Option<Seq<char>>,
)
    requires
        state.mode == ModeView::Wizard(draft),
    ensures
        draft.step != WizardStep::Mounts || draft.mounts.source.text != source ==> {
            &&& state.mount_validated(source, Err(error)) == (state, DashboardActionView::Nothing)
            &&& state.mount_validated(source, Ok(forced)) == (state, DashboardActionView::Nothing)
        },
        draft.step == WizardStep::Mounts && draft.mounts.source.text == source ==> {
            let (after, action) = state.mount_validated(source, Err(error));
            &&& action == DashboardActionView::Nothing
            &&& after.mode matches ModeView::Wizard(kept)
            &&& kept.mounts.error == Some(error) && kept.mounts.mounts == draft.mounts.mounts
            &&& kept.mounts.source == draft.mounts.source
            &&& kept.mounts.destination == draft.mounts.destination
            &&& kept.step == WizardStep::Mounts && !kept.form.submission_pending
            &&& kept.form.focused == Some(WizardControl::MountSource)
        },
        draft.step == WizardStep::Mounts && draft.mounts.source.text == source && draft.purpose
            is New ==> {
            let (after, action) = state.mount_validated(source, Ok(forced));
            &&& action == DashboardActionView::Nothing
            &&& after.mode matches ModeView::Wizard(kept)
            &&& kept.mounts.mounts == draft.mount_accepted(source, forced).mounts.mounts
            &&& kept.step == WizardStep::Review
            &&& kept.new_part().remote_repositories is None
            &&& kept.new_part().remote_preflight_error is None
            &&& after.preflight_generation != state.preflight_generation
        },
{
}

/// An answer for another draft than the one on screen changes nothing.
pub proof fn law_foreign_answer_ignored(
    state: DashboardStateView,
    context: PathContextView,
    path: Seq<char>,
    source: Result<(Seq<char>, Option<Seq<char>>), Seq<char>>,
    directory: Result<(Seq<char>, WorktreeOptionsView), Seq<char>>,
)
    requires
        context != state.path_context(),
    ensures
        state.mount_resolved(context, path, source) == (state, DashboardActionView::Nothing),
        state.directory_resolved(context, path, directory) == state,
{
}

/// A source is attached as the host resolved it.
pub proof fn law_resolved_source_attached(
    state: DashboardStateView,
    draft: DraftView,
    source: Seq<char>,
    resolved: Seq<char>,
    forced: Option<Seq<char>>,
)
    requires
        state.mode == ModeView::Wizard(draft),
        draft.step == WizardStep::Mounts,
        draft.mounts.editing_mount is None,
        draft.purpose is New,
    ensures
        state.mount_resolved(
            state.path_context(),
            source,
            Ok((resolved, forced)),
        ).0.mode matches ModeView::Wizard(kept) && {
            let count = draft.mounts.mounts.len();
            &&& kept.mounts.mounts.len() == count + 1
            &&& kept.mounts.mounts[count as int].source == resolved
            &&& kept.mounts.mounts[count as int].destination == draft.mounts.destination.text
            &&& forced is None ==> kept.mounts.mounts[count as int].access == draft.mounts.access
            &&& forced is Some && draft.mounts.access == MountAccess::Cow
                ==> kept.mounts.mounts[count as int].access == MountAccess::Ro
        },
{
}

/// A directory that was accepted is one of the draft's, at the place and with
/// the access that were typed, unless the overlay had to go.
pub proof fn law_accepted_mount_attached(
    draft: DraftView,
    source: Seq<char>,
    forced: Option<Seq<char>>,
)
    requires
        draft.validating(source),
        draft.mounts.edit_valid(),
    ensures
        ({
            let after = draft.mount_accepted(source, forced).mounts;
            let index = match draft.mounts.editing_mount {
                Some(i) => i as int,
                None => draft.mounts.mounts.len() as int,
            };
            &&& 0 <= index < after.mounts.len()
            &&& after.mounts[index].source == source
            &&& after.mounts[index].destination == draft.mounts.destination.text
            &&& after.mounts[index].access == if forced is Some {
                without_overlay(draft.mounts.access)
            } else {
                draft.mounts.access
            }
            &&& after.selection_valid()
        }),
{
}

impl Draft {
    /// Attach what the entry names, and go to the review with it selected.
    fn accept_mount(&mut self, source: &str, forced: Option<String>)
        requires
            old(self)@.in_order(),
            old(self)@.mounts.edit_valid(),
        ensures
            final(self)@ == old(self)@.mount_accepted(source@, forced.deep_view()),
            final(self)@.in_order(),
    {
        self.form.set_submission_pending(false);
        if let Some(reason) = forced {
            self.mounts.remember_forced(trim(source), reason);
            self.mounts.forbid_overlay();
        }
        self.mounts.add_validated_mount();
        self.form.request(PartRequest::ForgetAttachmentEditor);
        let len = self.mounts.mounts.len();
        assert(self@.mounts.mounts.len() == len);
        self.mounts.history_index = len - 1;
        self.form.focus(WizardControl::ReviewAttachments);
        self.step = WizardStep::Review;
    }

    /// Say what is wrong with the entry.
    fn reject_mount(&mut self, error: String)
        ensures
            final(self)@ == old(self)@.mount_rejected(error@),
    {
        self.form.set_submission_pending(false);
        self.mounts.error = Some(error);
        self.form.focus(WizardControl::MountSource);
    }
}

impl DashboardState {
    /// Review a draft whose attached directories changed.
    fn review_changed_mounts(&mut self, draft: Draft) -> (action: DashboardAction)
        requires
            draft@.awaits_preparation() ==> old(self)@.fits(draft@),
        ensures
            (final(self)@, action@) == old(self)@.mounts_changed(draft@),
            old(self)@.fits(draft@) ==> final(self)@.well_formed(),
    {
        let mut draft = draft;
        let new = match &draft.purpose {
            Purpose::New(_) => true,
            Purpose::Resume(_) => false,
        };
        if new {
            self.invalidate_new_remote_preflight(&mut draft);
            self.keep(draft);
            return DashboardAction::Nothing;
        }
        self.request_move_preparation_for_review(draft)
    }

    /// Apply the host's answer about one mount source. A source whose
    /// filesystem cannot hold the overlay is remembered, so the entry is
    /// attached read-only and the editor locks the choice from then on.
    pub fn apply_mount_source_validation(
        &mut self,
        source: &str,
        result: Result<Option<String>, String>,
    ) -> (action: DashboardAction)
        requires
            old(self)@.well_formed(),
        ensures
            (final(self)@, action@) == old(self)@.mount_validated(
                source@,
                match result {
                    Ok(forced) => Ok(forced.deep_view()),
                    Err(error) => Err(error@),
                },
            ),
            final(self)@.well_formed(),
    {
        let waiting = match &self.mode {
            Mode::Wizard(draft) => draft.step == WizardStep::Mounts && same_text(
                draft.mounts.source.text.as_str(),
                source,
            ),
            _ => false,
        };
        if !waiting {
            return DashboardAction::Nothing;
        }
        if let Some(mut draft) = self.take_draft() {
            match result {
                Err(error) => {
                    draft.reject_mount(error);
                    self.keep(draft);
                    return DashboardAction::Nothing;
                },
                Ok(forced) => draft.accept_mount(source, forced),
            }
            return self.review_changed_mounts(draft);
        }
        DashboardAction::Nothing
    }

    /// Apply the host's answer about one mount source to the draft that
    /// asked, with the source spelled as the host resolved it.
    pub fn apply_resolved_mount_source(
        &mut self,
        context: &PathContext,
        source: &str,
        result: Result<(String, Option<String>), String>,
    ) -> (action: DashboardAction)
        requires
            old(self)@.well_formed(),
        ensures
            (final(self)@, action@) == old(self)@.mount_resolved(
                context@,
                source@,
                match result {
                    Ok((resolved, forced)) => Ok((resolved@, forced.deep_view())),
                    Err(error) => Err(error@),
                },
            ),
            final(self)@.well_formed(),
    {
        if !self.in_context(context) {
            return DashboardAction::Nothing;
        }
        match result {
            Err(error) => self.apply_mount_source_validation(source, Err(error)),
            Ok((resolved, forced)) => {
                match &mut self.mode {
                    Mode::Wizard(draft) => {
                        draft.mounts.source.set_value(resolved.as_str());
                    },
                    _ => {
                        return DashboardAction::Nothing;
                    },
                }
                self.apply_mount_source_validation(resolved.as_str(), Ok(forced))
            },
        }
    }
}

// --- Project directories ---

impl DashboardStateView {
    /// The state with the host's answer about the typed project directory.
    pub open spec fn directory_validated(
        self,
        directory: Seq<char>,
        result: Result<(), Seq<char>>,
    ) -> DashboardStateView {
        match self.mode {
            ModeView::Wizard(draft) if draft.purpose is New && (draft.step
                == WizardStep::ProjectDirectory || draft.step == WizardStep::Review) && trimmed(
                draft.new_part().project_directory.text,
            ) == directory => {
                let answered = DraftView { form: draft.form.submitting(false), ..draft };
                match result {
                    Ok(_) => self.showing(
                        answered.with_new(
                            NewSessionView { project_directory_error: None, ..draft.new_part() },
                        ).at_step(WizardStep::Review),
                    ),
                    Err(error) => self.showing(
                        answered.with_new(
                            NewSessionView {
                                project_directory_error: Some(error),
                                ..draft.new_part()
                            },
                        ),
                    ),
                }
            },
            _ => self,
        }
    }

    /// Whether a session in an inspected directory gets a managed worktree:
    /// as chosen before for the same directory, else as the directory or the
    /// quick launch suggests; never where none can be made.
    pub open spec fn worktree_choice(
        self,
        part: NewSessionView,
        target_id: Seq<char>,
        directory: Seq<char>,
        options: WorktreeOptionsView,
    ) -> bool {
        let known = part.worktree_options matches Some(before) && before.target_id == target_id
            && before.directory == directory;
        options.available && if known {
            part.create_managed_worktree
        } else {
            match self.go {
                None => options.default_create,
                Some(go) => match go.recipe {
                    Some(recipe) => recipe.create_managed_worktree == Some(true),
                    None => false,
                },
            }
        }
    }

    /// The draft with what a look at its project directory found.
    pub open spec fn directory_inspected(
        self,
        draft: DraftView,
        resolved: Seq<char>,
        options: WorktreeOptionsView,
    ) -> DraftView {
        let part = draft.new_part();
        let target_id = self.target(draft.target).id;
        draft.with_new(
            NewSessionView {
                create_managed_worktree: self.worktree_choice(part, target_id, resolved, options),
                worktree_options: Some(
                    InspectedDirectoryView { target_id, directory: resolved, options },
                ),
                remote_preflight_in_flight: false,
                remote_preflight_error: None,
                project_directory: field(resolved),
                ..part
            },
        )
    }

    /// The state with what was found out about the typed project directory,
    /// for the draft that asked.
    pub open spec fn directory_resolved(
        self,
        context: PathContextView,
        directory: Seq<char>,
        result: Result<(Seq<char>, WorktreeOptionsView), Seq<char>>,
    ) -> DashboardStateView {
        if context != self.path_context() {
            self
        } else {
            match result {
                Ok((resolved, options)) => match self.mode {
                    ModeView::Wizard(draft) if draft.purpose is New => self.showing(
                        self.directory_inspected(draft, resolved, options),
                    ).directory_validated(resolved, Ok(())),
                    _ => self,
                },
                Err(error) => match self.mode {
                    ModeView::Wizard(draft) if draft.purpose is New => self.showing(
                        draft.inspection_failed(error),
                    ).directory_validated(directory, Err(error)),
                    _ => self,
                },
            }
        }
    }
}

/// An answer about the typed directory counts only while it is typed: a good
/// one leads to the review, a bad one stays and says why.
pub proof fn law_directory_answer_taken(
    state: DashboardStateView,
    draft: DraftView,
    directory: Seq<char>,
    result: Result<(), Seq<char>>,
)
    requires
        state.mode == ModeView::Wizard(draft),
        draft.purpose is New,
    ensures
        ({
            let typed = trimmed(draft.new_part().project_directory.text);
            let awaited = typed == directory && (draft.step == WizardStep::ProjectDirectory
                || draft.step == WizardStep::Review);
            let after = state.directory_validated(directory, result);
            &&& !awaited ==> after == state
            &&& awaited ==> {
                &&& after.mode matches ModeView::Wizard(kept)
                &&& kept.new_part().project_directory == draft.new_part().project_directory
                &&& kept.target == draft.target && kept.profile == draft.profile
                &&& !kept.form.submission_pending
                &&& result is Ok ==> {
                    &&& kept.step == WizardStep::Review
                    &&& kept.new_part().project_directory_error is None
                }
                &&& result matches Err(error) ==> {
                    &&& kept.step == draft.step
                    &&& kept.new_part().project_directory_error == Some(error)
                }
            }
        }),
{
}

/// A worktree is made only where one can be. For a directory that is looked at
/// for the first time the quick launch decides if there is one, and otherwise
/// what the directory suggests.
pub proof fn law_worktree_suggested(
    state: DashboardStateView,
    part: NewSessionView,
    target_id: Seq<char>,
    directory: Seq<char>,
    options: WorktreeOptionsView,
)
    ensures
        !options.available ==> !state.worktree_choice(part, target_id, directory, options),
        part.worktree_options is None && options.available && state.go is None
            ==> state.worktree_choice(part, target_id, directory, options)
            == options.default_create,
        part.worktree_options is None && options.available ==> (state.go matches Some(go)
            ==> state.worktree_choice(part, target_id, directory, options) == (
        go.recipe matches Some(recipe) && recipe.create_managed_worktree == Some(true))),
{
}

/// What a look at a directory found is kept for that directory on that target,
/// and the directory is shown as it was resolved.
pub proof fn law_found_options_kept(
    state: DashboardStateView,
    draft: DraftView,
    resolved: Seq<char>,
    options: WorktreeOptionsView,
)
    requires
        draft.purpose is New,
    ensures
        ({
            let after = state.directory_inspected(draft, resolved, options).new_part();
            &&& after.project_directory.text == resolved
            &&& after.worktree_options matches Some(found)
            &&& found.directory == resolved && found.options == options
            &&& found.target_id == state.config.targets[draft.target as int].id
            &&& !after.remote_preflight_in_flight && after.remote_preflight_error is None
            &&& after.bundle == draft.new_part().bundle
            &&& after.mjolnir_subagents == draft.new_part().mjolnir_subagents
        }),
        state.directory_inspected(draft, resolved, options).mounts == draft.mounts,
        state.directory_inspected(draft, resolved, options).target == draft.target,
{
}

/// A directory that could not be looked at stays typed; the review says why.
pub proof fn law_failed_look_noted(draft: DraftView, error: Seq<char>)
    requires
        draft.purpose is New,
    ensures
        ({
            let after = draft.inspection_failed(error);
            &&& !after.new_part().remote_preflight_in_flight
            &&& draft.step == WizardStep::Review ==> after.new_part().remote_preflight_error
                == Some(error)
            &&& draft.step != WizardStep::Review ==> after.new_part().remote_preflight_error
                == draft.new_part().remote_preflight_error
            &&& after.new_part().project_directory == draft.new_part().project_directory
            &&& after.step == draft.step && after.mounts == draft.mounts
        }),
{
}

/// A worktree that was asked for explicitly stays asked for when the same
/// directory is inspected again, as long as one can be made.
pub proof fn law_worktree_choice_kept(
    state: DashboardStateView,
    part: NewSessionView,
    target_id: Seq<char>,
    directory: Seq<char>,
    options: WorktreeOptionsView,
)
    requires
        part.worktree_options matches Some(before) && before.target_id == target_id
            && before.directory == directory,
        options.available,
    ensures
        state.worktree_choice(part, target_id, directory, options) == part.create_managed_worktree,
{
}

impl DashboardState {
    /// Take in the host's answer about the typed project directory.
    pub fn apply_project_directory_validation(
        &mut self,
        directory: &str,
        result: Result<(), String>,
    )
        ensures
            final(self)@ == old(self)@.directory_validated(
                directory@,
                match result {
                    Ok(_) => Ok(()),
                    Err(error) => Err(error@),
                },
            ),
            old(self)@.well_formed() ==> final(self)@.well_formed(),
    {
        let waiting = match &self.mode {
            Mode::Wizard(draft) => match &draft.purpose {
                Purpose::New(part) => (draft.step == WizardStep::ProjectDirectory || draft.step
                    == WizardStep::Review) && same_text(
                    part.project_directory.trimmed_text().as_str(),
                    directory,
                ),
                Purpose::Resume(_) => false,
            },
            _ => false,
        };
        if !waiting {
            return;
        }
        if let Some(mut draft) = self.take_draft() {
            draft.form.set_submission_pending(false);
            match result {
                Ok(_) => {
                    match &mut draft.purpose {
                        Purpose::New(part) => {
                            part.project_directory_error = None;
                        },
                        Purpose::Resume(_) => {},
                    }
                    draft.go_to_step(WizardStep::Review);
                },
                Err(error) => {
                    match &mut draft.purpose {
                        Purpose::New(part) => {
                            part.project_directory_error = Some(error);
                        },
                        Purpose::Resume(_) => {},
                    }
                },
            }
            self.keep(draft);
        }
    }

    fn settle_worktree(
        &self,
        part: &NewSession,
        target_id: &str,
        directory: &str,
        options: &WorktreeOptions,
    ) -> (create: bool)
        ensures
            create == self@.worktree_choice(part@, target_id@, directory@, options@),
    {
        let known = match &part.worktree_options {
            Some(before) => same_text(before.target_id.as_str(), target_id) && same_text(
                before.directory.as_str(),
                directory,
            ),
            None => false,
        };
        if !options.available {
            return false;
        }
        if known {
            return part.create_managed_worktree;
        }
        match &self.go {
            None => options.default_create,
            Some(go) => match &go.recipe {
                Some(recipe) => match recipe.create_managed_worktree {
                    Some(create) => create,
                    None => false,
                },
                None => false,
            },
        }
    }

    /// Keep what a look at the draft's project directory found.
    fn keep_inspection(&mut self, draft: Draft, resolved: &str, options: WorktreeOptions)
        requires
            old(self)@.fits(draft@),
            draft@.purpose is New,
        ensures
            final(self)@ == old(self)@.showing(
                old(self)@.directory_inspected(draft@, resolved@, options@),
            ),
            final(self)@.well_formed(),
    {
        broadcast use group_views;

        let mut draft = draft;
        let target_id = self.config.targets[draft.target].id.duplicate();
        match &mut draft.purpose {
            Purpose::New(part) => {
                part.create_managed_worktree = self.settle_worktree(
                    part,
                    target_id.as_str(),
                    resolved,
                    &options,
                );
                part.worktree_options = Some(
                    InspectedDirectory { target_id, directory: resolved.to_string(), options },
                );
                part.remote_preflight_in_flight = false;
                part.remote_preflight_error = None;
                part.project_directory.set_value(resolved);
            },
            Purpose::Resume(_) => {},
        }
        self.keep(draft);
    }

    /// Keep why the draft's project directory could not be looked at.
    fn keep_inspection_error(&mut self, draft: Draft, error: &str)
        requires
            old(self)@.fits(draft@),
            draft@.purpose is New,
        ensures
            final(self)@ == old(self)@.showing(draft@.inspection_failed(error@)),
            final(self)@.well_formed(),
    {
        let mut draft = draft;
        let reviewing = draft.step == WizardStep::Review;
        match &mut draft.purpose {
            Purpose::New(part) => {
                part.remote_preflight_in_flight = false;
                if reviewing {
                    part.remote_preflight_error = Some(error.to_string());
                }
            },
            Purpose::Resume(_) => {},
        }
        self.keep(draft);
    }

    /// Take in what was found out about the typed project directory, for the
    /// draft that asked.
    pub fn apply_resolved_project_directory(
        &mut self,
        context: &PathContext,
        directory: &str,
        result: Result<(String, WorktreeOptions), String>,
    )
        requires
            old(self)@.well_formed(),
        ensures
            final(self)@ == old(self)@.directory_resolved(
                context@,
                directory@,
                match result {
                    Ok((resolved, options)) => Ok((resolved@, options@)),
                    Err(error) => Err(error@),
                },
            ),
            final(self)@.well_formed(),
    {
        broadcast use group_views;

        if !self.in_context(context) {
            return;
        }
        let new = match &self.mode {
            Mode::Wizard(draft) => match &draft.purpose {
                Purpose::New(_) => true,
                Purpose::Resume(_) => false,
            },
            _ => false,
        };
        match result {
            Ok((resolved, options)) => {
                if !new {
                    return;
                }
                if let Some(draft) = self.take_draft() {
                    self.keep_inspection(draft, resolved.as_str(), options);
                }
                self.apply_project_directory_validation(resolved.as_str(), Ok(()));
            },
            Err(error) => {
                if !new {
                    return;
                }
                if let Some(draft) = self.take_draft() {
                    self.keep_inspection_error(draft, error.as_str());
                }
                self.apply_project_directory_validation(directory, Err(error));
            },
        }
    }
}

} // verus!
