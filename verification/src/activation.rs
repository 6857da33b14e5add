//! What the buttons of a wizard do.

use vstd::prelude::*;

use crate::dashboard_state::{DashboardAction, DashboardState};
#[allow(unused_imports)]
use crate::dashboard_state::{DashboardActionView, DashboardStateView, ModeView};
use crate::drafts::{
    Draft, DraftChange, PartRequest, PathInput, Purpose, WizardControl, WizardStep,
};
#[allow(unused_imports)]
use crate::drafts::{DraftView, MountWizardView, PartRequestView, PathInputView, PurposeView};
#[allow(unused_imports)]
use crate::duplicate::group_views;
use crate::duplicate::{owned, Duplicate};
#[allow(unused_imports)]
use crate::mounts::{access_row, field, law_access_row_finds_access, offered_access};
use crate::paths::default_resource_destination;
#[allow(unused_imports)]
use crate::paths::{resource_destination, same_path};
#[allow(unused_imports)]
use crate::records::MountAccess;

verus! {

/// What was found out for a draft: what is wrong with the paths that are typed
/// in, by themselves, where a source would go, and whether a resume has to ask
/// for its target.
#[derive(Debug, PartialEq, Eq)]
pub struct Findings {
    /// What is wrong with the source of an attachment.
    pub source: Option<String>,
    /// What is wrong with its destination.
    pub destination: Option<String>,
    /// What is wrong with the project directory.
    pub project: Option<String>,
    /// Where a container would have the source by default.
    pub proposal: String,
    /// Whether a resume goes on from its target without asking for it.
    pub skips_target: bool,
}

/// What [`Findings`] hold.
#[verifier::ext_equal]
pub struct FindingsView {
    pub source: Option<Seq<char>>,
    pub destination: Option<Seq<char>>,
    pub project: Option<Seq<char>>,
    pub proposal: Seq<char>,
    pub skips_target: bool,
}

impl View for Findings {
    type V = FindingsView;

    open spec fn view(&self) -> FindingsView {
        FindingsView {
            source: self.source.deep_view(),
            destination: self.destination.deep_view(),
            project: self.project.deep_view(),
            proposal: self.proposal@,
            skips_target: self.skips_target,
        }
    }
}

// --- The attachment editor ---

impl DraftView {
    /// The draft with an error in the attachment editor.
    pub open spec fn mount_faulted(self, error: Seq<char>) -> DraftView {
        DraftView { mounts: MountWizardView { error: Some(error), ..self.mounts }, ..self }
    }

    /// The draft with the list of access modes open.
    pub open spec fn access_opened(self) -> DraftView {
        DraftView {
            mounts: MountWizardView {
                access_combo: Some(
                    access_row(
                        offered_access(self.mounts.overlay_barrier().is_some()),
                        self.mounts.access,
                    ) as usize,
                ),
                ..self.mounts
            },
            ..self
        }
    }

    /// The draft back on its review with the attachment editor emptied.
    pub open spec fn editor_left(self) -> DraftView {
        (DraftView {
            mounts: MountWizardView {
                source: field(seq![]),
                destination: PathInputView { text: seq![], ..self.mounts.destination },
                error: None,
                ..self.mounts
            },
            form: self.form.asking(PartRequestView::ForgetAttachmentEditor),
            step: WizardStep::Review,
            ..self
        }).focusing(WizardControl::Add)
    }
}

impl DashboardStateView {
    /// What coming back to the review takes: a move asks for its preparation
    /// again, because the draft it was prepared for has changed.
    pub open spec fn reviewed_again(self, draft: DraftView) -> (
        DashboardStateView,
        DashboardActionView,
    ) {
        match draft.purpose {
            PurposeView::New(_) => (self.showing(draft), DashboardActionView::Nothing),
            PurposeView::Resume(_) => self.review_entered(draft),
        }
    }

    /// The draft with a destination for its attachment, and the destination
    /// focused.
    pub open spec fn source_entered(self, draft: DraftView, proposal: Seq<char>) -> DraftView {
        let mounts = draft.mounts;
        (DraftView {
            mounts: MountWizardView {
                destination: if mounts.destination.text.len() == 0 {
                    field(
                        resource_destination(
                            self.template(draft.target),
                            proposal,
                            mounts.mounts,
                        ),
                    )
                } else {
                    mounts.destination
                },
                ..mounts
            },
            ..draft
        }).focusing(WizardControl::MountDestination)
    }

    /// What checking the attachment comes to: an entry with nothing wrong in
    /// its form has its source validated.
    pub open spec fn mount_checked(self, draft: DraftView, findings: FindingsView) -> (
        DashboardStateView,
        DashboardActionView,
    ) {
        match draft.mounts.entry_fault(findings.source, findings.destination) {
            Some(error) => (
                self.showing(draft.mount_faulted(error).focusing(WizardControl::MountSource)),
                DashboardActionView::Nothing,
            ),
            None => (
                self.showing(DraftView { form: draft.form.submitting(true), ..draft }),
                DashboardActionView::ValidateMountSource {
                    target_template_id: self.target(draft.target).id,
                    source: draft.mounts.source.text,
                },
            ),
        }
    }

    /// What a control of the attachment editor needs is there: a target to
    /// attach to, and what a move is prepared with anew.
    pub open spec fn can_use_mount(self, draft: DraftView, id: WizardControl) -> bool {
        match id {
            WizardControl::MountSource | WizardControl::MountDestination | WizardControl::Add => {
                self.has_target(draft)
            },
            WizardControl::Back => draft.awaits_preparation() ==> self.fits(draft),
            _ => true,
        }
    }

    /// What a control of the attachment editor does.
    pub open spec fn mount_activated(
        self,
        draft: DraftView,
        id: WizardControl,
        findings: FindingsView,
    ) -> (DashboardStateView, DashboardActionView) {
        let nothing = DashboardActionView::Nothing;
        match id {
            WizardControl::MountSource => if draft.mounts.source.text.len() == 0 {
                (
                    self.showing(
                        draft.mount_faulted("Choose or type a directory on the controller."@),
                    ),
                    nothing,
                )
            } else {
                (self.showing(self.source_entered(draft, findings.proposal)), nothing)
            },
            WizardControl::MountAccess => (self.showing(draft.access_opened()), nothing),
            WizardControl::MountDestination | WizardControl::Add => self.mount_checked(
                draft,
                findings,
            ),
            WizardControl::Cancel => (self.closed(), nothing),
            WizardControl::Back => self.reviewed_again(draft.editor_left()),
            _ => (self.showing(draft), nothing),
        }
    }
}

/// A destination that is typed stays; without one, the place for the proposed
/// name is typed in. Either way it is the destination's turn.
pub proof fn law_destination_proposed(
    state: DashboardStateView,
    draft: DraftView,
    proposal: Seq<char>,
)
    ensures
        ({
            let after = state.source_entered(draft, proposal);
            &&& after.form.focused == Some(WizardControl::MountDestination)
            &&& draft.mounts.destination.text.len() > 0 ==> after.mounts == draft.mounts
            &&& draft.mounts.destination.text.len() == 0 ==> after.mounts.destination.text
                == resource_destination(
                state.config.targets[draft.target as int].template,
                proposal,
                draft.mounts.mounts,
            )
            &&& after.mounts.source == draft.mounts.source
            &&& after.mounts.mounts == draft.mounts.mounts && after.step == draft.step
        }),
{
}

/// An entry in good form has its source looked at on the target it is for. One
/// with a fault, or for a place that another attachment takes, is not; the
/// editor says why, and the list stays.
pub proof fn law_entry_looked_at(
    state: DashboardStateView,
    draft: DraftView,
    findings: FindingsView,
)
    ensures
        ({
            let (after, action) = state.mount_checked(draft, findings);
            let clash = exists|i: int|
                0 <= i < draft.mounts.mounts.len() && draft.mounts.editing_mount != Some(i as usize)
                    && same_path(
                    (#[trigger] draft.mounts.mounts[i]).destination,
                    draft.mounts.destination.text,
                );
            let good = findings.source is None && findings.destination is None && !clash;
            &&& after.mode matches ModeView::Wizard(kept)
            &&& kept.mounts.mounts == draft.mounts.mounts
            &&& kept.mounts.source == draft.mounts.source
            &&& kept.mounts.destination == draft.mounts.destination
            &&& good ==> {
                &&& action matches DashboardActionView::ValidateMountSource {
                    target_template_id,
                    source,
                }
                &&& source == draft.mounts.source.text
                &&& target_template_id == state.config.targets[draft.target as int].id
                &&& kept.form.submission_pending
            }
            &&& !good ==> {
                &&& action == DashboardActionView::Nothing
                &&& kept.mounts.error is Some
                &&& kept.form.focused == Some(WizardControl::MountSource)
            }
            &&& findings.source is Some ==> kept.mounts.error == findings.source
            &&& findings.source is None && findings.destination is Some ==> kept.mounts.error
                == findings.destination
        }),
{
}

/// Without a source the editor asks for one; with one its place is next.
pub proof fn law_source_asked_for(
    state: DashboardStateView,
    draft: DraftView,
    findings: FindingsView,
)
    ensures
        ({
            let (after, action) = state.mount_activated(
                draft,
                WizardControl::MountSource,
                findings,
            );
            &&& action == DashboardActionView::Nothing
            &&& after.mode matches ModeView::Wizard(kept)
            &&& draft.mounts.source.text.len() == 0 ==> kept.mounts.error is Some && kept.form
                == draft.form
            &&& draft.mounts.source.text.len() > 0 ==> kept.form.focused == Some(
                WizardControl::MountDestination,
            )
        }),
{
}

/// Leaving the attachment editor leaves the list as it is and nothing of the
/// entry, and comes back to the review.
pub proof fn law_editor_left(draft: DraftView)
    ensures
        ({
            let after = draft.editor_left();
            &&& after.step == WizardStep::Review
            &&& after.form.focused == Some(WizardControl::Add)
            &&& after.mounts.mounts == draft.mounts.mounts
            &&& after.mounts.source.text.len() == 0 && after.mounts.destination.text.len() == 0
            &&& after.mounts.error is None
            &&& after.target == draft.target && after.purpose == draft.purpose
            &&& after.form.requests.last() == PartRequestView::ForgetAttachmentEditor
        }),
{
}

/// The list of access modes opens on the mode that the entry has.
pub proof fn law_access_list_opens(draft: DraftView)
    ensures
        ({
            let choices = offered_access(draft.mounts.overlay_barrier() is Some);
            let after = draft.access_opened();
            &&& after.mounts.access_combo matches Some(row)
            &&& choices.contains(draft.mounts.access) ==> row < choices.len() && choices[row as int]
                == draft.mounts.access
            &&& after.mounts.access == draft.mounts.access
            &&& after.mounts.mounts == draft.mounts.mounts
        }),
{
    let unavailable = draft.mounts.overlay_barrier() is Some;
    if !unavailable || draft.mounts.access != MountAccess::Cow {
        law_access_row_finds_access(unavailable, draft.mounts.access);
    }
}

impl DashboardState {
    /// Put a draft back on its review.
    pub fn reenter_review(&mut self, draft: Draft) -> (action: DashboardAction)
        requires
            draft@.awaits_preparation() ==> old(self)@.fits(draft@),
        ensures
            (final(self)@, action@) == old(self)@.reviewed_again(draft@),
            old(self)@.fits(draft@) ==> final(self)@.well_formed(),
    {
        let resumes = match &draft.purpose {
            Purpose::New(_) => false,
            Purpose::Resume(_) => true,
        };
        if resumes {
            return self.request_move_preparation_for_review(draft);
        }
        self.keep(draft);
        DashboardAction::Nothing
    }

    fn enter_source(&self, draft: &mut Draft, proposal: &str)
        requires
            old(draft).target < self.config.targets.len(),
        ensures
            final(draft)@ == self@.source_entered(old(draft)@, proposal@),
    {
        broadcast use group_views;

        if draft.mounts.destination.is_empty() {
            let target = &self.config.targets[draft.target];
            assert(self@.target(draft.target) == target@);
            let destination = default_resource_destination(
                &target.template,
                proposal,
                &draft.mounts.mounts,
            );
            draft.mounts.destination = PathInput::from_text(destination);
        }
        draft.form.focus(WizardControl::MountDestination);
    }

    /// Have the attachment's source validated, or say what is wrong with the
    /// entry.
    pub fn validate_wizard_mount(&mut self, draft: Draft, findings: Findings) -> (action:
        DashboardAction)
        requires
            old(self)@.has_target(draft@),
        ensures
            (final(self)@, action@) == old(self)@.mount_checked(draft@, findings@),
            old(self)@.fits(draft@) ==> final(self)@.well_formed(),
    {
        broadcast use group_views;

        let mut draft = draft;
        match draft.mounts.validate_mount_entry(findings.source, findings.destination) {
            Some(error) => {
                draft.mounts.error = Some(error);
                draft.form.focus(WizardControl::MountSource);
                self.keep(draft);
                DashboardAction::Nothing
            },
            None => {
                let source = draft.mounts.source.text.duplicate();
                let target = &self.config.targets[draft.target];
                assert(self@.target(draft.target) == target@);
                let target_template_id = target.id.duplicate();
                draft.form.set_submission_pending(true);
                self.keep(draft);
                DashboardAction::ValidateMountSource { target_template_id, source }
            },
        }
    }

    fn leave_editor(draft: &mut Draft)
        ensures
            final(draft)@ == old(draft)@.editor_left(),
    {
        draft.mounts.source.clear();
        draft.mounts.destination.clear();
        draft.mounts.error = None;
        draft.mounts.source.dismiss_completion();
        draft.form.request(PartRequest::ForgetAttachmentEditor);
        draft.step = WizardStep::Review;
        draft.form.focus(WizardControl::Add);
    }

    /// Do what a control of the attachment editor does.
    pub fn activate_wizard_mount(
        &mut self,
        id: WizardControl,
        draft: Draft,
        findings: Findings,
    ) -> (action: DashboardAction)
        requires
            old(self)@.can_use_mount(draft@, id),
            draft.step == WizardStep::Mounts,
        ensures
            (final(self)@, action@) == old(self)@.mount_activated(draft@, id, findings@),
            old(self)@.fits(draft@) ==> final(self)@.well_formed(),
    {
        let mut draft = draft;
        match id {
            WizardControl::MountSource => {
                if draft.mounts.source.is_empty() {
                    draft.mounts.error = Some(
                        owned("Choose or type a directory on the controller."),
                    );
                } else {
                    self.enter_source(&mut draft, findings.proposal.as_str());
                }
            },
            WizardControl::MountAccess => {
                draft.mounts.open_mount_access();
            },
            WizardControl::MountDestination | WizardControl::Add => {
                return self.validate_wizard_mount(draft, findings);
            },
            WizardControl::Cancel => {
                self.cancel_modal();
                return DashboardAction::Nothing;
            },
            WizardControl::Back => {
                DashboardState::leave_editor(&mut draft);
                return self.reenter_review(draft);
            },
            _ => {},
        }
        self.keep(draft);
        DashboardAction::Nothing
    }
}

// --- The review ---

impl DashboardStateView {
    /// The step that Back leaves the review for: a bare target reviews a
    /// directory, every other new session a bundle; a resume has neither.
    pub open spec fn step_before_review(self, draft: DraftView) -> WizardStep {
        if draft.purpose is Resume {
            WizardStep::Target
        } else if self.template(draft.target).bare_project {
            WizardStep::ProjectDirectory
        } else {
            WizardStep::Bundle
        }
    }

    /// What submitting the review comes to.
    pub open spec fn review_submitted(self, draft: DraftView) -> (
        DashboardStateView,
        DashboardActionView,
    ) {
        match draft.purpose {
            PurposeView::New(_) => self.create_submitted(draft),
            PurposeView::Resume(_) => self.resume_submitted(draft),
        }
    }

    /// The draft that a control of the review leaves, other than the button
    /// that submits it.
    pub open spec fn review_left(self, draft: DraftView, id: WizardControl) -> DraftView {
        match id {
            WizardControl::ReviewAttachments => draft.change_noted(
                DraftChange::AttachmentOpened,
            ).selected_editor(),
            WizardControl::Back => draft.change_noted(DraftChange::ReviewLeft).at_step(
                self.step_before_review(draft),
            ),
            WizardControl::Add => if self.template(draft.target).mount_host is Some {
                draft.change_noted(DraftChange::AttachmentEditorOpened).fresh_editor()
            } else {
                draft
            },
            _ => draft,
        }
    }

    /// What a control of the review needs is there: all of it to submit the
    /// draft, a target to attach to or to tell the step before, and the
    /// attachment that is opened.
    pub open spec fn can_use_review(self, draft: DraftView, id: WizardControl) -> bool {
        match id {
            WizardControl::Submit => self.fits(draft),
            WizardControl::ReviewAttachments => draft.mounts.selection_valid(),
            WizardControl::Add => self.has_target(draft),
            WizardControl::Back => draft.purpose is New ==> self.has_target(draft),
            _ => true,
        }
    }

    /// What a control of the review does.
    pub open spec fn review_activated(self, draft: DraftView, id: WizardControl) -> (
        DashboardStateView,
        DashboardActionView,
    ) {
        let nothing = DashboardActionView::Nothing;
        let left = self.review_left(draft, id);
        match id {
            WizardControl::Cancel => (self.closed(), nothing),
            WizardControl::Submit => self.review_submitted(draft),
            WizardControl::ReviewAttachments => (
                self.noting_change(draft, DraftChange::AttachmentOpened).showing(left),
                nothing,
            ),
            WizardControl::Back => (
                self.noting_change(draft, DraftChange::ReviewLeft).showing(left),
                nothing,
            ),
            _ => (self.showing(left), nothing),
        }
    }
}

/// Back from the review leads to the step that came before it: the directory
/// of a bare target, the bundle of any other new session, and the target of a
/// resume or a move.
pub proof fn law_back_from_review(state: DashboardStateView, draft: DraftView)
    ensures
        ({
            let (after, action) = state.review_activated(draft, WizardControl::Back);
            &&& action == DashboardActionView::Nothing
            &&& after.mode matches ModeView::Wizard(kept)
            &&& draft.purpose is Resume ==> kept.step == WizardStep::Target
            &&& draft.purpose is New ==> kept.step
                == if state.config.targets[draft.target as int].template.bare_project {
                WizardStep::ProjectDirectory
            } else {
                WizardStep::Bundle
            }
            &&& kept.mounts == draft.mounts && kept.target == draft.target
            &&& kept.profile == draft.profile
            &&& draft.purpose is New ==> kept.new_part().remote_repositories is None
        }),
{
}

/// Adding opens an empty editor where something can be attached, and does
/// nothing elsewhere; opening an attachment opens the selected one.
pub proof fn law_review_opens_editor(state: DashboardStateView, draft: DraftView)
    requires
        draft.mounts.selection_valid(),
    ensures
        ({
            let after = state.review_activated(draft, WizardControl::Add).0;
            let open = state.config.targets[draft.target as int].template.mount_host is Some;
            &&& after.mode matches ModeView::Wizard(kept)
            &&& open ==> kept.step == WizardStep::Mounts && kept.mounts.editing_mount is None
                && kept.mounts.source.text.len() == 0
            &&& !open ==> kept == draft
            &&& kept.mounts.mounts == draft.mounts.mounts
        }),
        draft.mounts.mounts.len() > 0 ==> {
            let after = state.review_activated(draft, WizardControl::ReviewAttachments).0;
            let row = draft.mounts.history_index;
            &&& after.mode matches ModeView::Wizard(kept)
            &&& kept.step == WizardStep::Mounts && kept.mounts.editing_mount == Some(row)
            &&& kept.mounts.source.text == draft.mounts.mounts[row as int].source
            &&& kept.mounts.destination.text == draft.mounts.mounts[row as int].destination
            &&& kept.mounts.mounts == draft.mounts.mounts
        },
{
}

impl DashboardState {
    fn review_back_step(&self, draft: &Draft) -> (step: WizardStep)
        requires
            draft@.purpose is New ==> self@.has_target(draft@),
        ensures
            step == self@.step_before_review(draft@),
    {
        broadcast use group_views;

        match &draft.purpose {
            Purpose::New(_) => {
                let target = &self.config.targets[draft.target];
                assert(self@.target(draft.target) == target@);
                if target.template.bare_project {
                    WizardStep::ProjectDirectory
                } else {
                    WizardStep::Bundle
                }
            },
            Purpose::Resume(_) => WizardStep::Target,
        }
    }

    /// Whether directories can be attached on the draft's target.
    pub fn can_attach(&self, draft: &Draft) -> (r: bool)
        requires
            draft.target < self.config.targets.len(),
        ensures
            r == (self@.template(draft.target).mount_host is Some),
    {
        broadcast use group_views;

        let target = &self.config.targets[draft.target];
        assert(self@.target(draft.target) == target@);
        target.template.mount_host.is_some()
    }

    /// Act on the review's primary button.
    pub fn submit_review(&mut self, draft: Draft) -> (action: DashboardAction)
        requires
            old(self)@.fits(draft@),
            draft.step == WizardStep::Review,
        ensures
            (final(self)@, action@) == old(self)@.review_submitted(draft@),
            final(self)@.well_formed(),
    {
        let resumes = match &draft.purpose {
            Purpose::New(_) => false,
            Purpose::Resume(_) => true,
        };
        if resumes {
            self.preflight_resume_session_action(draft)
        } else {
            self.preflight_create_session_action(draft)
        }
    }

    /// Open the selected attachment in the editor.
    fn open_attachment(&mut self, draft: Draft)
        requires
            draft.step == WizardStep::Review,
            draft@.mounts.selection_valid(),
        ensures
            final(self)@ == old(self)@.review_activated(
                draft@,
                WizardControl::ReviewAttachments,
            ).0,
            old(self)@.fits(draft@) ==> final(self)@.well_formed(),
    {
        let mut draft = draft;
        self.note_draft_change(&mut draft, DraftChange::AttachmentOpened);
        draft.edit_selected_mount();
        self.keep(draft);
    }

    /// Open the editor for a new attachment, where the target takes any.
    fn open_new_attachment(&mut self, draft: Draft)
        requires
            old(self)@.has_target(draft@),
            draft.step == WizardStep::Review,
        ensures
            final(self)@ == old(self)@.review_activated(draft@, WizardControl::Add).0,
            old(self)@.fits(draft@) ==> final(self)@.well_formed(),
    {
        let mut draft = draft;
        if self.can_attach(&draft) {
            self.note_draft_change(&mut draft, DraftChange::AttachmentEditorOpened);
            draft.begin_mount_editor();
        }
        self.keep(draft);
    }

    /// Go back from the review to the step before it.
    fn leave_review(&mut self, draft: Draft)
        requires
            draft@.purpose is New ==> old(self)@.has_target(draft@),
            draft.step == WizardStep::Review,
        ensures
            final(self)@ == old(self)@.review_activated(draft@, WizardControl::Back).0,
            old(self)@.fits(draft@) ==> final(self)@.well_formed(),
    {
        let mut draft = draft;
        let step = self.review_back_step(&draft);
        self.note_draft_change(&mut draft, DraftChange::ReviewLeft);
        draft.go_to_step(step);
        self.keep(draft);
    }

    /// Do what a control of the review does.
    pub fn activate_wizard_review(&mut self, id: WizardControl, draft: Draft) -> (action:
        DashboardAction)
        requires
            old(self)@.can_use_review(draft@, id),
            draft.step == WizardStep::Review,
        ensures
            (final(self)@, action@) == old(self)@.review_activated(draft@, id),
            old(self)@.fits(draft@) ==> final(self)@.well_formed(),
    {
        match id {
            WizardControl::ReviewAttachments => self.open_attachment(draft),
            WizardControl::Cancel => self.cancel_modal(),
            WizardControl::Back => self.leave_review(draft),
            WizardControl::Add => self.open_new_attachment(draft),
            WizardControl::Submit => {
                return self.submit_review(draft);
            },
            _ => self.keep(draft),
        }
        DashboardAction::Nothing
    }
}

} // verus!
