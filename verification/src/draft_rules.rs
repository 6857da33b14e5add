//! What can be done to a draft by itself.

use vstd::prelude::*;

use crate::drafts::{
    Draft, FormState, NewSession, PartRequest, Purpose, Resumption, WizardControl, WizardStep,
};
#[allow(unused_imports)]
use crate::drafts::{
    DraftView, FormStateView, NewSessionView, PartRequestView, PathInputView, PurposeView,
    ResumptionView,
};
#[allow(unused_imports)]
use crate::duplicate::group_views;
use crate::duplicate::{same_text, Duplicate};
use crate::mounts::{prepare_mount_editor, prepare_selected_mount_editor};
use crate::records::{AdditionalMount, MountAccess, WorktreeOptions};
#[allow(unused_imports)]
use crate::records::WorktreeOptionsView;
#[allow(unused_imports)]
use crate::text::trimmed;

verus! {

// --- The form ---

/// The control a step starts on.
pub open spec fn first_control(step: WizardStep) -> WizardControl {
    match step {
        WizardStep::Profile => WizardControl::ProfileList,
        WizardStep::Target => WizardControl::TargetList,
        WizardStep::Bundle => WizardControl::BundleList,
        WizardStep::ProjectDirectory => WizardControl::ProjectDirectory,
        WizardStep::NewBundle => WizardControl::NewBundleSource,
        WizardStep::Mounts => WizardControl::MountSource,
        WizardStep::Review => WizardControl::Submit,
    }
}

pub fn step_initial(step: WizardStep) -> (control: WizardControl)
    ensures
        control == first_control(step),
{
    match step {
        WizardStep::Profile => WizardControl::ProfileList,
        WizardStep::Target => WizardControl::TargetList,
        WizardStep::Bundle => WizardControl::BundleList,
        WizardStep::ProjectDirectory => WizardControl::ProjectDirectory,
        WizardStep::NewBundle => WizardControl::NewBundleSource,
        WizardStep::Mounts => WizardControl::MountSource,
        WizardStep::Review => WizardControl::Submit,
    }
}

impl FormStateView {
    pub open spec fn focusing(self, control: WizardControl) -> FormStateView {
        FormStateView { focused: Some(control), ..self }
    }

    pub open spec fn asking(self, request: PartRequestView) -> FormStateView {
        FormStateView { requests: self.requests.push(request), ..self }
    }

    pub open spec fn submitting(self, pending: bool) -> FormStateView {
        FormStateView { submission_pending: pending, ..self }
    }
}

impl FormState {
    pub open spec fn fresh() -> FormStateView {
        FormStateView { focused: None, submission_pending: false, requests: seq![] }
    }

    pub fn new() -> (form: FormState)
        ensures
            form@ == FormState::fresh(),
    {
        broadcast use group_views;

        FormState { focused: None, submission_pending: false, requests: Vec::new() }
    }

    pub fn focus(&mut self, control: WizardControl)
        ensures
            final(self)@ == old(self)@.focusing(control),
    {
        self.focused = Some(control);
    }

    pub fn request(&mut self, request: PartRequest)
        ensures
            final(self)@ == old(self)@.asking(request@),
    {
        broadcast use group_views;

        self.requests.push(request);
    }

    pub fn set_submission_pending(&mut self, pending: bool)
        ensures
            final(self)@ == old(self)@.submitting(pending),
    {
        self.submission_pending = pending;
    }
}

// --- Steps ---

impl DraftView {
    /// The draft on another step, with the step's first control focused.
    pub open spec fn at_step(self, step: WizardStep) -> DraftView {
        DraftView { step, form: self.form.focusing(first_control(step)), ..self }
    }

    pub open spec fn focusing(self, control: WizardControl) -> DraftView {
        DraftView { form: self.form.focusing(control), ..self }
    }

    /// The draft with the attachment editor open and nothing noted of it.
    pub open spec fn editor_opened(self) -> DraftView {
        DraftView {
            form: self.form.asking(PartRequestView::ForgetAttachmentEditor).focusing(
                WizardControl::MountSource,
            ),
            ..self
        }
    }

    /// The draft with an empty attachment editor open.
    pub open spec fn fresh_editor(self) -> DraftView {
        (DraftView {
            mounts: self.mounts.emptied(),
            step: WizardStep::Mounts,
            ..self
        }).editor_opened()
    }

    /// The draft with the selected attachment in the editor, if there is one.
    pub open spec fn selected_editor(self) -> DraftView {
        (if self.mounts.mounts.len() > 0 {
            DraftView {
                mounts: self.mounts.editing_selected(),
                step: WizardStep::Mounts,
                ..self
            }
        } else {
            self
        }).editor_opened()
    }

    pub open spec fn new_part(self) -> NewSessionView {
        self.purpose->New_0
    }

    pub open spec fn resume_part(self) -> ResumptionView {
        self.purpose->Resume_0
    }

    pub open spec fn with_new(self, part: NewSessionView) -> DraftView {
        DraftView { purpose: PurposeView::New(part), ..self }
    }

    pub open spec fn with_resume(self, part: ResumptionView) -> DraftView {
        DraftView { purpose: PurposeView::Resume(part), ..self }
    }
}

impl Draft {
    pub fn go_to_step(&mut self, step: WizardStep)
        ensures
            final(self)@ == old(self)@.at_step(step),
    {
        self.step = step;
        self.form.focus(step_initial(step));
    }

    fn open_mount_editor(&mut self)
        ensures
            final(self)@ == old(self)@.editor_opened(),
    {
        self.form.request(PartRequest::ForgetAttachmentEditor);
        self.form.focus(WizardControl::MountSource);
    }

    /// Open an empty attachment editor.
    pub fn begin_mount_editor(&mut self)
        ensures
            final(self)@ == old(self)@.fresh_editor(),
    {
        prepare_mount_editor(&mut self.mounts);
        self.step = WizardStep::Mounts;
        self.open_mount_editor();
    }

    /// Open the selected attachment in the editor.
    pub fn edit_selected_mount(&mut self)
        requires
            old(self)@.mounts.selection_valid(),
        ensures
            final(self)@ == old(self)@.selected_editor(),
    {
        if prepare_selected_mount_editor(&mut self.mounts) {
            self.step = WizardStep::Mounts;
        }
        self.open_mount_editor();
    }
}

// --- What a new session needs ---

impl NewSessionView {
    /// The worktree options known for the chosen target and directory.
    pub open spec fn options_for(self, target_id: Seq<char>) -> Option<WorktreeOptionsView> {
        match self.worktree_options {
            Some(found) if found.target_id == target_id && found.directory == trimmed(
                self.project_directory.text,
            ) => Some(found.options),
            _ => None,
        }
    }

    /// The draft without the answers of a prerequisite check.
    pub open spec fn unchecked(self) -> NewSessionView {
        NewSessionView {
            remote_repositories: None,
            remote_preflight_in_flight: false,
            remote_preflight_error: None,
            ..self
        }
    }

    /// The repositories that would make up the bundle: those listed, and the
    /// one that is typed in.
    pub open spec fn bundle_sources(self) -> Seq<Seq<char>> {
        let current = trimmed(self.new_bundle_source.text);
        if current.len() == 0 {
            self.new_bundle_repositories
        } else {
            self.new_bundle_repositories.push(current)
        }
    }

    /// The typed repository added to the list.
    pub open spec fn source_added(self) -> NewSessionView {
        NewSessionView {
            new_bundle_repositories: self.new_bundle_repositories.push(
                trimmed(self.new_bundle_source.text),
            ),
            new_bundle_selected: self.new_bundle_repositories.len() as usize,
            new_bundle_source: PathInputView { text: seq![], ..self.new_bundle_source },
            ..self
        }
    }

    pub open spec fn selected_repository(self) -> int {
        let last = self.new_bundle_repositories.len() - 1;
        if self.new_bundle_selected > last {
            last
        } else {
            self.new_bundle_selected as int
        }
    }

    /// The list without the selected repository.
    pub open spec fn repository_removed(self) -> NewSessionView {
        let left = self.new_bundle_repositories.len() - 1;
        NewSessionView {
            new_bundle_repositories: self.new_bundle_repositories.remove(
                self.selected_repository(),
            ),
            new_bundle_selected: (if left == 0 {
                0
            } else if self.new_bundle_selected > left - 1 {
                left - 1
            } else {
                self.new_bundle_selected as int
            }) as usize,
            ..self
        }
    }
}

/// A step is entered on the control it is there for, and nothing else of the
/// draft changes.
pub proof fn law_step_entered(draft: DraftView, step: WizardStep)
    ensures
        ({
            let after = draft.at_step(step);
            &&& after.step == step
            &&& after.workspace_id == draft.workspace_id && after.purpose == draft.purpose
            &&& after.profile == draft.profile && after.target == draft.target
            &&& after.mounts == draft.mounts && after.sizing_error == draft.sizing_error
            &&& after.resource_allocation == draft.resource_allocation
            &&& after.aws_options == draft.aws_options
            &&& after.form.requests == draft.form.requests
            &&& after.form.submission_pending == draft.form.submission_pending
        }),
        draft.at_step(WizardStep::Profile).form.focused == Some(WizardControl::ProfileList),
        draft.at_step(WizardStep::Target).form.focused == Some(WizardControl::TargetList),
        draft.at_step(WizardStep::Bundle).form.focused == Some(WizardControl::BundleList),
        draft.at_step(WizardStep::ProjectDirectory).form.focused == Some(
            WizardControl::ProjectDirectory,
        ),
        draft.at_step(WizardStep::NewBundle).form.focused == Some(WizardControl::NewBundleSource),
        draft.at_step(WizardStep::Mounts).form.focused == Some(WizardControl::MountSource),
        draft.at_step(WizardStep::Review).form.focused == Some(WizardControl::Submit),
{
}

/// The editor opens on the typed source with nothing left from an entry
/// before: empty, or with the selected attachment as it stands in the list.
/// The list itself stays.
pub proof fn law_editor_opens(draft: DraftView)
    ensures
        ({
            let after = draft.fresh_editor();
            &&& after.step == WizardStep::Mounts
            &&& after.form.focused == Some(WizardControl::MountSource)
            &&& after.form.requests.last() == PartRequestView::ForgetAttachmentEditor
            &&& after.mounts.mounts == draft.mounts.mounts
            &&& after.mounts.source.text.len() == 0 && after.mounts.destination.text.len() == 0
            &&& after.mounts.editing_mount is None
            &&& after.target == draft.target && after.purpose == draft.purpose
        }),
        draft.mounts.mounts.len() > 0 ==> {
            let after = draft.selected_editor();
            let row = draft.mounts.history_index;
            &&& after.step == WizardStep::Mounts
            &&& after.form.focused == Some(WizardControl::MountSource)
            &&& after.form.requests.last() == PartRequestView::ForgetAttachmentEditor
            &&& after.mounts.mounts == draft.mounts.mounts
            &&& after.mounts.source.text == draft.mounts.mounts[row as int].source
            &&& after.mounts.destination.text == draft.mounts.mounts[row as int].destination
            &&& after.mounts.editing_mount == Some(row)
            &&& after.target == draft.target && after.purpose == draft.purpose
        },
        draft.mounts.mounts.len() == 0 ==> draft.selected_editor().step == draft.step,
{
}

/// What is known of a directory counts only for that directory on that target.
pub proof fn law_options_of_same_place(part: NewSessionView, target_id: Seq<char>)
    ensures
        part.options_for(target_id) matches Some(options) ==> {
            &&& part.worktree_options matches Some(found)
            &&& found.options == options
            &&& found.target_id == target_id
            &&& found.directory == trimmed(part.project_directory.text)
        },
        part.worktree_options matches Some(found) && found.target_id == target_id
            && found.directory == trimmed(part.project_directory.text) ==> part.options_for(
            target_id,
        ) is Some,
{
}

/// A bundle is made of the listed repositories, in their order, and of the
/// typed one after them if something is typed.
pub proof fn law_bundle_made_of_listed(part: NewSessionView)
    ensures
        ({
            let sources = part.bundle_sources();
            let listed = part.new_bundle_repositories;
            let typed = trimmed(part.new_bundle_source.text);
            &&& sources.len() == listed.len() + if typed.len() > 0 {
                1int
            } else {
                0int
            }
            &&& forall|i: int| 0 <= i < listed.len() ==> #[trigger] sources[i] == listed[i]
            &&& typed.len() > 0 ==> sources.last() == typed
        }),
{
}

/// Adding puts the typed repository after all others, selects it, and empties
/// the field.
pub proof fn law_repository_added_last(part: NewSessionView)
    requires
        part.new_bundle_repositories.len() <= usize::MAX,
    ensures
        ({
            let after = part.source_added();
            let before = part.new_bundle_repositories;
            &&& after.new_bundle_repositories.len() == before.len() + 1
            &&& forall|i: int|
                0 <= i < before.len() ==> #[trigger] after.new_bundle_repositories[i] == before[i]
            &&& after.new_bundle_repositories[before.len() as int] == trimmed(
                part.new_bundle_source.text,
            )
            &&& after.new_bundle_selected == before.len()
            &&& after.new_bundle_source.text.len() == 0
            &&& after.bundle == part.bundle && after.project_directory == part.project_directory
        }),
{
}

/// Removing takes out the repository of the selected row, or the last one
/// where the selection is beyond it; the others keep their order, and the
/// selection stays on its row or on the last there is.
pub proof fn law_repository_removal_takes_selected(part: NewSessionView, row: int)
    requires
        0 <= row < part.new_bundle_repositories.len() <= usize::MAX,
        row == part.new_bundle_selected || part.new_bundle_selected
            >= part.new_bundle_repositories.len() && row == part.new_bundle_repositories.len() - 1,
    ensures
        ({
            let after = part.repository_removed();
            let before = part.new_bundle_repositories;
            let left = after.new_bundle_repositories;
            &&& left.len() == before.len() - 1
            &&& forall|i: int| 0 <= i < row ==> #[trigger] left[i] == before[i]
            &&& forall|i: int| row <= i < left.len() ==> #[trigger] left[i] == before[i + 1]
            &&& row < left.len() ==> after.new_bundle_selected == row
            &&& row == left.len() && row > 0 ==> after.new_bundle_selected == row - 1
            &&& left.len() == 0 ==> after.new_bundle_selected == 0
            &&& after.new_bundle_source == part.new_bundle_source && after.bundle == part.bundle
        }),
{
}

/// Discarding answers keeps what was chosen.
pub proof fn law_discarding_keeps_choices(part: NewSessionView, moved: ResumptionView)
    ensures
        ({
            let after = part.unchecked();
            &&& after.remote_repositories is None && after.remote_preflight_error is None
            &&& !after.remote_preflight_in_flight
            &&& after.bundle == part.bundle && after.project_directory == part.project_directory
            &&& after.create_managed_worktree == part.create_managed_worktree
            &&& after.mjolnir_subagents == part.mjolnir_subagents
            &&& after.worktree_options == part.worktree_options
            &&& after.new_bundle_repositories == part.new_bundle_repositories
        }),
        ({
            let after = moved.unprepared();
            &&& moved.moving ==> after.preparation is None && !after.preparing
                && after.preparation_request_id is None && after.preparation_error is None
            &&& !moved.moving ==> after == moved
            &&& after.session_id == moved.session_id && after.source == moved.source
            &&& after.title == moved.title && after.moving == moved.moving
            &&& after.discard_queue == moved.discard_queue
        }),
{
}

/// Adding a repository and then submitting sends what submitting at once
/// would have sent.
pub proof fn law_adding_keeps_sources(part: NewSessionView)
    requires
        trimmed(part.new_bundle_source.text).len() > 0,
    ensures
        part.source_added().bundle_sources() == part.bundle_sources(),
{
    assert(trimmed(Seq::<char>::empty()) =~= Seq::empty());
}

impl NewSession {
    /// The worktree options known for the chosen target and directory.
    pub fn selected_worktree_options(&self, target_id: &str) -> (options: Option<&WorktreeOptions>)
        ensures
            options.is_some() == self@.options_for(target_id@).is_some(),
            options matches Some(found) ==> self@.options_for(target_id@) == Some(found@),
    {
        let directory = self.project_directory.trimmed_text();
        match &self.worktree_options {
            Some(found) => if same_text(found.target_id.as_str(), target_id) && same_text(
                found.directory.as_str(),
                directory.as_str(),
            ) {
                Some(&found.options)
            } else {
                None
            },
            None => None,
        }
    }

    /// Whether a managed worktree can be made where the session would work.
    pub fn worktree_available(&self, target_id: &str) -> (r: bool)
        ensures
            r == (self@.options_for(target_id@) matches Some(options) && options.available),
    {
        match self.selected_worktree_options(target_id) {
            Some(options) => options.available,
            None => false,
        }
    }

    pub fn discard_checks(&mut self)
        ensures
            final(self)@ == old(self)@.unchecked(),
    {
        self.remote_repositories = None;
        self.remote_preflight_in_flight = false;
        self.remote_preflight_error = None;
    }

    /// Add the typed repository to the list. Answers false when nothing is
    /// typed.
    pub fn add_new_bundle_repository(&mut self) -> (added: bool)
        ensures
            added == (trimmed(old(self)@.new_bundle_source.text).len() > 0),
            final(self)@ == if added {
                old(self)@.source_added()
            } else {
                old(self)@
            },
    {
        broadcast use group_views;

        let source = self.new_bundle_source.trimmed_text();
        if source.as_str().unicode_len() == 0 {
            return false;
        }
        self.new_bundle_selected = self.new_bundle_repositories.len();
        self.new_bundle_repositories.push(source);
        self.new_bundle_source.clear();
        true
    }

    /// Remove the selected repository from the list. Answers false when the
    /// list is empty.
    pub fn remove_selected_new_bundle_repository(&mut self) -> (removed: bool)
        ensures
            removed == (old(self)@.new_bundle_repositories.len() > 0),
            final(self)@ == if removed {
                old(self)@.repository_removed()
            } else {
                old(self)@
            },
    {
        broadcast use group_views;

        let len = self.new_bundle_repositories.len();
        if len == 0 {
            return false;
        }
        let index = if self.new_bundle_selected > len - 1 {
            len - 1
        } else {
            self.new_bundle_selected
        };
        let gone = self.new_bundle_repositories.remove(index);
        if len == 1 {
            self.new_bundle_selected = 0;
        } else if self.new_bundle_selected > len - 2 {
            self.new_bundle_selected = len - 2;
        }
        true
    }

    /// The repositories that would make up the bundle.
    pub fn new_bundle_sources_for_submit(&self) -> (sources: Vec<String>)
        ensures
            sources.deep_view() == self@.bundle_sources(),
    {
        broadcast use group_views;

        let mut sources = self.new_bundle_repositories.duplicate();
        let current = self.new_bundle_source.trimmed_text();
        if current.as_str().unicode_len() > 0 {
            sources.push(current);
        }
        sources
    }
}

// --- What a move needs ---

impl ResumptionView {
    /// The draft without the answers of a move preparation. A plain resume
    /// has none to discard.
    pub open spec fn unprepared(self) -> ResumptionView {
        if self.moving {
            ResumptionView {
                preparation: None,
                preparing: false,
                preparation_request_id: None,
                preparation_error: None,
                ..self
            }
        } else {
            self
        }
    }

    /// The draft takes the answer to preparation request `request_id` for
    /// `session_id`: it is a move on its review step, waiting for just that
    /// answer.
    pub open spec fn awaits(self, step: WizardStep, session_id: Seq<char>, request_id: u64) -> bool {
        &&& self.moving
        &&& self.session_id == session_id
        &&& step == WizardStep::Review
        &&& self.preparing
        &&& self.preparation_request_id == Some(request_id)
    }
}

impl Resumption {
    pub fn invalidate_move_preparation(&mut self)
        ensures
            final(self)@ == old(self)@.unprepared(),
    {
        if self.moving {
            self.preparation = None;
            self.preparing = false;
            self.preparation_request_id = None;
            self.preparation_error = None;
        }
    }

    pub fn awaits_preparation(&self, step: WizardStep, session_id: &str, request_id: u64) -> (r:
        bool)
        ensures
            r == self@.awaits(step, session_id@, request_id),
    {
        self.moving && same_text(self.session_id.as_str(), session_id) && step
            == WizardStep::Review && self.preparing && match self.preparation_request_id {
            Some(id) => id == request_id,
            None => false,
        }
    }
}

/// An answer that a change of the draft made stale is not taken any more.
pub proof fn law_unprepared_awaits_nothing(
    part: ResumptionView,
    step: WizardStep,
    session_id: Seq<char>,
    request_id: u64,
)
    ensures
        !part.unprepared().awaits(step, session_id, request_id),
{
}

// --- What a dialog keeps track of ---

/// What the form is told of a draft before it is drawn, so that it can ask
/// before discarding what was entered.
pub struct DialogPlan {
    /// What Escape does, where it does not cancel.
    pub escape: Option<WizardControl>,
    /// What discards what was entered.
    pub dismissals: Vec<WizardControl>,
    /// What discards only what was entered in the attachment editor.
    pub editor_dismissal: WizardControl,
    pub attachments: Vec<AdditionalMount>,
    /// The text fields of the attachment editor and its access mode.
    pub attachment_editor: Option<(String, String, MountAccess)>,
    pub project: Option<String>,
    pub repositories: Option<(String, Vec<String>)>,
    pub queued_work: Option<bool>,
}

impl Draft {
    /// What the form is told of this draft.
    pub fn prepare_dialog_state(&self) -> (plan: DialogPlan)
        ensures
            plan.escape == if self.step == WizardStep::Mounts || self.step == WizardStep::NewBundle {
                Some(WizardControl::Back)
            } else {
                None
            },
            plan.dismissals@ == seq![WizardControl::Cancel, WizardControl::Back],
            plan.editor_dismissal == WizardControl::Back,
            plan.attachments.deep_view() == self@.mounts.mounts,
            plan.attachment_editor.deep_view() == if self.step == WizardStep::Mounts {
                Some((self@.mounts.source.text, self@.mounts.destination.text, self@.mounts.access))
            } else {
                None
            },
            plan.project.deep_view() == if self@.purpose is New && self.step
                == WizardStep::ProjectDirectory {
                Some(self@.new_part().project_directory.text)
            } else {
                None
            },
            plan.repositories.deep_view() == if self@.purpose is New && self.step
                == WizardStep::NewBundle {
                Some(
                    (
                        self@.new_part().new_bundle_source.text,
                        self@.new_part().new_bundle_repositories,
                    ),
                )
            } else {
                None
            },
            plan.queued_work == if self@.purpose is Resume {
                Some(self@.resume_part().discard_queue)
            } else {
                None
            },
    {
        let escape = if self.step == WizardStep::Mounts || self.step == WizardStep::NewBundle {
            Some(WizardControl::Back)
        } else {
            None
        };
        let attachment_editor = if self.step == WizardStep::Mounts {
            Some(
                (
                    self.mounts.source.text.duplicate(),
                    self.mounts.destination.text.duplicate(),
                    self.mounts.access,
                ),
            )
        } else {
            None
        };
        let dismissals = vec![WizardControl::Cancel, WizardControl::Back];
        let editor_dismissal = WizardControl::Back;
        let attachments = self.mounts.mounts.duplicate();
        match &self.purpose {
            Purpose::New(part) => DialogPlan {
                escape,
                dismissals,
                editor_dismissal,
                attachments,
                attachment_editor,
                project: if self.step == WizardStep::ProjectDirectory {
                    Some(part.project_directory.text.duplicate())
                } else {
                    None
                },
                repositories: if self.step == WizardStep::NewBundle {
                    Some(
                        (
                            part.new_bundle_source.text.duplicate(),
                            part.new_bundle_repositories.duplicate(),
                        ),
                    )
                } else {
                    None
                },
                queued_work: None,
            },
            Purpose::Resume(part) => DialogPlan {
                escape,
                dismissals,
                editor_dismissal,
                attachments,
                attachment_editor,
                project: None,
                repositories: None,
                queued_work: Some(part.discard_queue),
            },
        }
    }
}

} // verus!
