//! What the events of a wizard's form do.

use vstd::prelude::*;

use crate::activation::Findings;
#[allow(unused_imports)]
use crate::activation::FindingsView;
#[allow(unused_imports)]
use crate::catalog::enabled_choices;
use crate::changes::FieldEdit;
#[allow(unused_imports)]
use crate::changes::FieldEditView;
use crate::dashboard_state::{DashboardAction, DashboardState};
#[allow(unused_imports)]
use crate::dashboard_state::{DashboardActionView, DashboardStateView, ModeView};
use crate::drafts::{Draft, DraftChange, NewSession, Purpose, WizardControl, WizardStep};
#[allow(unused_imports)]
use crate::drafts::{DraftView, MountWizardView, NewSessionView, PurposeView, ResumptionView};
#[allow(unused_imports)]
use crate::duplicate::group_views;
#[allow(unused_imports)]
use crate::mounts::offered_access;
#[allow(unused_imports)]
use crate::records::{HarnessKind, MountAccess};
#[allow(unused_imports)]
use crate::text::trimmed;

verus! {

// --- The bundle editor ---

/// The control belongs to the project picker.
pub open spec fn picks_projects(id: WizardControl) -> bool {
    match id {
        WizardControl::ProjectRecent
        | WizardControl::ProjectGithub
        | WizardControl::ProjectFolders
        | WizardControl::ProjectUrl
        | WizardControl::ProjectQuery
        | WizardControl::ProjectSearch
        | WizardControl::ProjectUp
        | WizardControl::ProjectHome
        | WizardControl::ProjectOpenFolder
        | WizardControl::ProjectRetry
        | WizardControl::ProjectResults
        | WizardControl::ProjectMakePrimary => true,
        _ => false,
    }
}

fn is_project_control(id: WizardControl) -> (r: bool)
    ensures
        r == picks_projects(id),
{
    match id {
        WizardControl::ProjectRecent
        | WizardControl::ProjectGithub
        | WizardControl::ProjectFolders
        | WizardControl::ProjectUrl
        | WizardControl::ProjectQuery
        | WizardControl::ProjectSearch
        | WizardControl::ProjectUp
        | WizardControl::ProjectHome
        | WizardControl::ProjectOpenFolder
        | WizardControl::ProjectRetry
        | WizardControl::ProjectResults
        | WizardControl::ProjectMakePrimary => true,
        _ => false,
    }
}

impl DashboardStateView {
    /// What a control of the bundle editor does. None does anything while a
    /// bundle is being created.
    pub open spec fn bundle_activated(self, draft: DraftView, id: WizardControl) -> (
        DashboardStateView,
        DashboardActionView,
    ) {
        let nothing = DashboardActionView::Nothing;
        if draft.new_part().bundle_creation_in_flight {
            (self.showing(draft), nothing)
        } else if picks_projects(id) {
            self.project_activated(draft, id)
        } else {
            self.bundle_edited(draft, id)
        }
    }

    /// What a control of the bundle editor does that picks no project.
    pub open spec fn bundle_edited(self, draft: DraftView, id: WizardControl) -> (
        DashboardStateView,
        DashboardActionView,
    ) {
        let nothing = DashboardActionView::Nothing;
        match id {
            WizardControl::Cancel => (self.closed(), nothing),
            WizardControl::NewBundleSource | WizardControl::Add => (
                self.repository_added(draft.focusing(id)),
                nothing,
            ),
            WizardControl::Next => self.bundle_submitted(draft.focusing(WizardControl::Next)),
            _ => (self.showing(draft.repository_list_used(id)), nothing),
        }
    }
}

impl DraftView {
    /// The draft after a control of the bundle editor that concerns the draft
    /// alone.
    pub open spec fn repository_list_used(self, id: WizardControl) -> DraftView {
        match id {
            WizardControl::Back => self.at_step(WizardStep::Bundle),
            WizardControl::NewBundleRepositories => self.focusing(id),
            WizardControl::NewBundleRemove => self.focusing(id).repository_removed(),
            _ => self,
        }
    }
}

impl Draft {
    fn use_repository_list(&mut self, id: WizardControl)
        requires
            old(self)@.purpose is New,
        ensures
            final(self)@ == old(self)@.repository_list_used(id),
    {
        match id {
            WizardControl::Back => self.go_to_step(WizardStep::Bundle),
            WizardControl::NewBundleRepositories => self.form.focus(id),
            WizardControl::NewBundleRemove => {
                self.form.focus(id);
                self.remove_repository();
            },
            _ => {},
        }
    }
}

impl DashboardState {
    /// Do what a control of the bundle editor does.
    pub fn activate_new_bundle_control(&mut self, draft: Draft, id: WizardControl) -> (action:
        DashboardAction)
        requires
            draft@.purpose is New,
        ensures
            (final(self)@, action@) == old(self)@.bundle_activated(draft@, id),
            old(self)@.fits(draft@) ==> final(self)@.well_formed(),
    {
        let in_flight = match &draft.purpose {
            Purpose::New(part) => part.bundle_creation_in_flight,
            Purpose::Resume(_) => true,
        };
        if in_flight {
            self.keep(draft);
            return DashboardAction::Nothing;
        }
        if is_project_control(id) {
            return self.activate_project_control(draft, id);
        }
        self.edit_bundle(draft, id)
    }

    fn edit_bundle(&mut self, draft: Draft, id: WizardControl) -> (action: DashboardAction)
        requires
            draft@.purpose is New,
        ensures
            (final(self)@, action@) == old(self)@.bundle_edited(draft@, id),
            old(self)@.fits(draft@) ==> final(self)@.well_formed(),
    {
        let mut draft = draft;
        match id {
            WizardControl::Cancel => self.cancel_modal(),
            WizardControl::NewBundleSource | WizardControl::Add => {
                draft.form.focus(id);
                self.add_or_report_new_bundle_repository(draft);
            },
            WizardControl::Next => {
                draft.form.focus(WizardControl::Next);
                return self.submit_new_bundle(draft);
            },
            _ => {
                draft.use_repository_list(id);
                self.keep(draft);
            },
        }
        DashboardAction::Nothing
    }
}

// --- Buttons ---

/// The step that Back leads to.
pub open spec fn previous_step(step: WizardStep) -> WizardStep {
    match step {
        WizardStep::Target => WizardStep::Profile,
        WizardStep::Bundle | WizardStep::ProjectDirectory => WizardStep::Target,
        other => other,
    }
}

impl DashboardStateView {
    /// What going on from a step comes to.
    pub open spec fn advanced(self, draft: DraftView, skips_target: bool) -> (
        DashboardStateView,
        DashboardActionView,
    ) {
        match draft.purpose {
            PurposeView::New(_) => self.new_advanced(draft),
            PurposeView::Resume(_) => self.resume_advanced(draft, skips_target),
        }
    }

    /// What a control of the project directory's step does: a remembered
    /// directory is typed in, and everything else has the directory
    /// validated.
    pub open spec fn directory_activated(
        self,
        draft: DraftView,
        id: WizardControl,
        findings: FindingsView,
    ) -> (DashboardStateView, DashboardActionView) {
        match id {
            WizardControl::RecentProject(row) => (
                self.showing(
                    if row < draft.new_part().project_history.len() {
                        draft.with_new(draft.new_part().directory_recalled(row as int))
                    } else {
                        draft
                    },
                ),
                DashboardActionView::Nothing,
            ),
            _ => self.project_validated(draft, findings.project),
        }
    }

    /// What a control of a wizard does.
    pub open spec fn activated(
        self,
        draft: DraftView,
        id: WizardControl,
        findings: FindingsView,
    ) -> (DashboardStateView, DashboardActionView) {
        let nothing = DashboardActionView::Nothing;
        if id == WizardControl::Cancel {
            (self.closed(), nothing)
        } else if draft.step == WizardStep::Mounts {
            self.mount_activated(draft, id, findings)
        } else if draft.step == WizardStep::Review {
            self.review_activated(draft, id)
        } else if draft.purpose is New && draft.step == WizardStep::NewBundle {
            self.bundle_activated(draft, id)
        } else if draft.purpose is New && draft.step == WizardStep::Bundle && id
            == WizardControl::Add {
            let (invalidated, unchecked) = self.checks_discarded(draft);
            (invalidated.showing(unchecked.at_step(WizardStep::NewBundle)), nothing)
        } else if id == WizardControl::Back {
            (self.showing(draft.at_step(previous_step(draft.step))), nothing)
        } else if draft.purpose is New && draft.step == WizardStep::ProjectDirectory {
            self.directory_activated(draft, id, findings)
        } else {
            self.advanced(draft, findings.skips_target)
        }
    }

    /// The draft can be gone on with from its step: a target is there, unless
    /// a bundle was just chosen, and all that a move is prepared with.
    pub open spec fn can_advance(self, draft: DraftView) -> bool {
        match draft.purpose {
            PurposeView::New(_) => {
                ||| draft.step == WizardStep::Bundle
                ||| self.has_target(draft) && (draft.step == WizardStep::Profile || draft.step
                    == WizardStep::Target)
            },
            PurposeView::Resume(_) => self.can_advance_resume(draft),
        }
    }

    /// What a control of a wizard needs is there. Closing the wizard needs
    /// nothing, and going back needs it only from the review and from the
    /// attachment editor.
    pub open spec fn can_use(self, draft: DraftView, id: WizardControl) -> bool {
        if id == WizardControl::Cancel {
            true
        } else if draft.step == WizardStep::Mounts {
            self.can_use_mount(draft, id)
        } else if draft.step == WizardStep::Review {
            self.can_use_review(draft, id)
        } else if draft.purpose is New && draft.step == WizardStep::NewBundle {
            true
        } else if draft.purpose is New && draft.step == WizardStep::Bundle && id
            == WizardControl::Add {
            true
        } else if id == WizardControl::Back {
            true
        } else if draft.purpose is New && draft.step == WizardStep::ProjectDirectory {
            self.has_target(draft)
        } else {
            self.can_advance(draft)
        }
    }

    /// The control leaves the dashboard well formed: going on from the bundle
    /// list needs a bundle that is in it.
    pub open spec fn can_activate(self, draft: DraftView, id: WizardControl) -> bool {
        draft.purpose is New && draft.step == WizardStep::Bundle && id != WizardControl::Cancel
            && id != WizardControl::Add && id != WizardControl::Back ==> self.has_target(draft)
            ==> self.bundle_chosen(draft)
    }
}

/// Closing needs no more than the button: whatever the step, nothing is asked
/// for, and what was asked for before is not answered any more.
pub proof fn law_cancel_closes(
    state: DashboardStateView,
    draft: DraftView,
    findings: FindingsView,
)
    ensures
        ({
            let (after, action) = state.activated(draft, WizardControl::Cancel, findings);
            &&& action == DashboardActionView::Nothing
            &&& after.mode == ModeView::Dashboard
            &&& after.preflight_generation != state.preflight_generation
            &&& after.state == state.state && after.config == state.config
        }),
        state.interacted(draft, InteractionView::Cancel, findings) == state.activated(
            draft,
            WizardControl::Cancel,
            findings,
        ),
{
}

/// Back leads from the target to the profile and from a project to the target,
/// and changes nothing that was chosen.
pub proof fn law_back_one_step(
    state: DashboardStateView,
    draft: DraftView,
    findings: FindingsView,
)
    requires
        draft.step == WizardStep::Profile || draft.step == WizardStep::Target || draft.step
            == WizardStep::Bundle || draft.step == WizardStep::ProjectDirectory,
    ensures
        ({
            let (after, action) = state.activated(draft, WizardControl::Back, findings);
            &&& action == DashboardActionView::Nothing
            &&& after.mode matches ModeView::Wizard(kept)
            &&& draft.step == WizardStep::Profile ==> kept.step == WizardStep::Profile
            &&& draft.step == WizardStep::Target ==> kept.step == WizardStep::Profile
            &&& draft.step == WizardStep::Bundle || draft.step == WizardStep::ProjectDirectory
                ==> kept.step == WizardStep::Target
            &&& kept.profile == draft.profile && kept.target == draft.target
            &&& kept.mounts == draft.mounts && kept.purpose == draft.purpose
            &&& kept.resource_allocation == draft.resource_allocation
        }),
{
}

/// Adding a bundle opens the bundle editor, with the checks to be done again.
pub proof fn law_bundle_editor_opens(
    state: DashboardStateView,
    draft: DraftView,
    findings: FindingsView,
)
    requires
        draft.purpose is New,
        draft.step == WizardStep::Bundle,
    ensures
        ({
            let (after, action) = state.activated(draft, WizardControl::Add, findings);
            &&& action == DashboardActionView::Nothing
            &&& after.mode matches ModeView::Wizard(kept)
            &&& kept.step == WizardStep::NewBundle
            &&& kept.form.focused == Some(WizardControl::NewBundleSource)
            &&& kept.new_part().remote_repositories is None
            &&& kept.new_part().bundle == draft.new_part().bundle
            &&& kept.target == draft.target && kept.mounts == draft.mounts
        }),
{
}

/// Nothing of a bundle that is being made can be changed.
pub proof fn law_bundle_in_flight_locked(
    state: DashboardStateView,
    draft: DraftView,
    id: WizardControl,
)
    requires
        draft.purpose is New,
        draft.new_part().bundle_creation_in_flight,
    ensures
        state.bundle_activated(draft, id).0.mode == ModeView::Wizard(draft),
        state.bundle_activated(draft, id).1 == DashboardActionView::Nothing,
{
}

/// What the buttons of the bundle editor do: Back leads to the bundles, adding
/// adds, removing removes, and Next asks for the bundle.
pub proof fn law_bundle_buttons(state: DashboardStateView, draft: DraftView)
    requires
        draft.purpose is New,
        !draft.new_part().bundle_creation_in_flight,
        draft.new_part().new_bundle_repositories.len() <= usize::MAX,
    ensures
        state.bundle_activated(draft, WizardControl::Back).0.mode matches ModeView::Wizard(kept)
            && kept.step == WizardStep::Bundle && kept.purpose == draft.purpose,
        ({
            let typed = trimmed(draft.new_part().new_bundle_source.text);
            let listed = draft.new_part().new_bundle_repositories;
            &&& typed.len() > 0 ==> {
                &&& state.bundle_activated(draft, WizardControl::Add).0.mode matches ModeView::Wizard(
                    kept,
                )
                &&& kept.new_part().new_bundle_repositories == listed.push(typed)
                &&& kept.step == draft.step
            }
            &&& listed.len() > 0 ==> {
                &&& state.bundle_activated(
                    draft,
                    WizardControl::NewBundleRemove,
                ).0.mode matches ModeView::Wizard(kept)
                &&& kept.new_part().new_bundle_repositories.len() == listed.len() - 1
                &&& kept.step == draft.step
            }
            &&& listed.len() > 0 || typed.len() > 0 ==> state.bundle_activated(
                draft,
                WizardControl::Next,
            ).1 is CreateBundle
            &&& state.bundle_activated(draft, WizardControl::Add).1 == DashboardActionView::Nothing
        }),
{
}

/// A remembered directory that is chosen is typed in; the others stay listed.
pub proof fn law_remembered_directory_chosen(
    state: DashboardStateView,
    draft: DraftView,
    row: usize,
    findings: FindingsView,
)
    requires
        draft.purpose is New,
        draft.step == WizardStep::ProjectDirectory,
    ensures
        ({
            let (after, action) = state.activated(
                draft,
                WizardControl::RecentProject(row),
                findings,
            );
            let known = draft.new_part().project_history;
            &&& action == DashboardActionView::Nothing
            &&& after.mode matches ModeView::Wizard(kept)
            &&& row < known.len() ==> kept.new_part().project_directory.text == known[row as int]
            &&& row >= known.len() ==> kept == draft
            &&& kept.new_part().project_history == known && kept.step == draft.step
        }),
{
}

impl DashboardState {
    fn recall_project(&mut self, draft: Draft, row: usize)
        requires
            draft@.purpose is New,
        ensures
            final(self)@ == old(self)@.showing(
                if row < draft@.new_part().project_history.len() {
                    draft@.with_new(draft@.new_part().directory_recalled(row as int))
                } else {
                    draft@
                },
            ),
            old(self)@.fits(draft@) ==> final(self)@.well_formed(),
    {
        broadcast use group_views;

        let mut draft = draft;
        match &mut draft.purpose {
            Purpose::New(part) => {
                if row < part.project_history.len() {
                    part.recall_directory(row);
                }
            },
            Purpose::Resume(_) => {},
        }
        self.keep(draft);
    }

    fn activate_directory_control(&mut self, draft: Draft, id: WizardControl, findings: Findings) -> (
    action: DashboardAction)
        requires
            old(self)@.has_target(draft@),
            draft@.purpose is New,
        ensures
            (final(self)@, action@) == old(self)@.directory_activated(draft@, id, findings@),
            old(self)@.fits(draft@) ==> final(self)@.well_formed(),
    {
        match id {
            WizardControl::RecentProject(row) => {
                self.recall_project(draft, row);
                DashboardAction::Nothing
            },
            _ => self.validate_new_project(draft, findings.project),
        }
    }

    fn open_bundle_editor(&mut self, draft: Draft)
        requires
            draft@.purpose is New,
        ensures
            ({
                let (invalidated, unchecked) = old(self)@.checks_discarded(draft@);
                final(self)@ == invalidated.showing(unchecked.at_step(WizardStep::NewBundle))
            }),
            old(self)@.fits(draft@) ==> final(self)@.well_formed(),
    {
        let mut draft = draft;
        self.invalidate_new_remote_preflight(&mut draft);
        draft.go_to_step(WizardStep::NewBundle);
        self.keep(draft);
    }

    fn advance(&mut self, draft: Draft, skips_target: bool) -> (action: DashboardAction)
        requires
            old(self)@.can_advance(draft@),
        ensures
            (final(self)@, action@) == old(self)@.advanced(draft@, skips_target),
            old(self)@.fits(draft@) && (draft.step == WizardStep::Bundle
                ==> old(self)@.bundle_chosen(draft@)) ==> final(self)@.well_formed(),
    {
        let resumes = match &draft.purpose {
            Purpose::New(_) => false,
            Purpose::Resume(_) => true,
        };
        if resumes {
            self.advance_resume_wizard(draft, skips_target)
        } else {
            self.advance_new_wizard(draft)
        }
    }

    fn go_back(&mut self, draft: Draft)
        ensures
            final(self)@ == old(self)@.showing(draft@.at_step(previous_step(draft@.step))),
            old(self)@.fits(draft@) ==> final(self)@.well_formed(),
    {
        let mut draft = draft;
        let step = match draft.step {
            WizardStep::Target => WizardStep::Profile,
            WizardStep::Bundle | WizardStep::ProjectDirectory => WizardStep::Target,
            other => other,
        };
        draft.go_to_step(step);
        self.keep(draft);
    }

    /// Do what a control of a wizard does.
    pub fn activate_wizard_control(&mut self, draft: Draft, id: WizardControl, findings: Findings) -> (
    action: DashboardAction)
        requires
            old(self)@.can_use(draft@, id),
        ensures
            (final(self)@, action@) == old(self)@.activated(draft@, id, findings@),
            old(self)@.fits(draft@) && old(self)@.can_activate(draft@, id)
                ==> final(self)@.well_formed(),
    {
        if id == WizardControl::Cancel {
            self.cancel_modal();
            return DashboardAction::Nothing;
        }
        if draft.step == WizardStep::Mounts {
            return self.activate_wizard_mount(id, draft, findings);
        }
        if draft.step == WizardStep::Review {
            return self.activate_wizard_review(id, draft);
        }
        let creates = match &draft.purpose {
            Purpose::New(_) => true,
            Purpose::Resume(_) => false,
        };
        if creates && draft.step == WizardStep::NewBundle {
            return self.activate_new_bundle_control(draft, id);
        }
        if creates && draft.step == WizardStep::Bundle && id == WizardControl::Add {
            self.open_bundle_editor(draft);
            return DashboardAction::Nothing;
        }
        if id == WizardControl::Back {
            self.go_back(draft);
            return DashboardAction::Nothing;
        }
        if creates && draft.step == WizardStep::ProjectDirectory {
            return self.activate_directory_control(draft, id, findings);
        }
        self.advance(draft, findings.skips_target)
    }
}

// --- Interactions ---

/// What the form made of an event.
#[derive(Debug, PartialEq, Eq)]
pub enum Interaction {
    Cancel,
    Activate(WizardControl),
    Edit(WizardControl, FieldEdit),
    ComboBoxCommit(WizardControl, usize),
    Select(WizardControl, usize),
    Toggle(WizardControl),
}

/// What an [`Interaction`] holds.
#[verifier::ext_equal]
pub enum InteractionView {
    Cancel,
    Activate(WizardControl),
    Edit(WizardControl, FieldEditView),
    ComboBoxCommit(WizardControl, usize),
    Select(WizardControl, usize),
    Toggle(WizardControl),
}

impl View for Interaction {
    type V = InteractionView;

    open spec fn view(&self) -> InteractionView {
        match self {
            Interaction::Cancel => InteractionView::Cancel,
            Interaction::Activate(id) => InteractionView::Activate(*id),
            Interaction::Edit(id, edit) => InteractionView::Edit(*id, edit@),
            Interaction::ComboBoxCommit(id, row) => InteractionView::ComboBoxCommit(*id, *row),
            Interaction::Select(id, row) => InteractionView::Select(*id, *row),
            Interaction::Toggle(id) => InteractionView::Toggle(*id),
        }
    }
}

/// The row, or the last row of a list where it is beyond that.
pub open spec fn row_within(row: usize, len: nat) -> usize {
    if len == 0 {
        0
    } else if row > len - 1 {
        (len - 1) as usize
    } else {
        row
    }
}

fn clamp_row(row: usize, len: usize) -> (clamped: usize)
    ensures
        clamped == row_within(row, len as nat),
{
    if len == 0 {
        0
    } else if row > len - 1 {
        len - 1
    } else {
        row
    }
}

impl DraftView {
    /// The remembered project directory that was recalled last is in its list.
    pub open spec fn recalls_listed(self) -> bool {
        self.purpose matches PurposeView::New(part) ==> part.project_history.len() > 0
            ==> part.project_history_index < part.project_history.len()
    }

    /// The draft with the access mode of a row taken.
    pub open spec fn access_committed(self, row: usize) -> DraftView {
        let choices = offered_access(self.mounts.overlay_barrier().is_some());
        (DraftView {
            mounts: MountWizardView {
                access: if row < choices.len() {
                    choices[row as int]
                } else {
                    self.mounts.access
                },
                access_combo: None,
                ..self.mounts
            },
            ..self
        }).focusing(WizardControl::MountAccess)
    }

    /// The draft with an attachment of its review selected.
    pub open spec fn attachment_selected(self, row: usize) -> DraftView {
        let next = row_within(row, self.mounts.mounts.len());
        (DraftView {
            mounts: MountWizardView { history_index: next, ..self.mounts },
            ..self
        }).focusing(WizardControl::ReviewAttachments)
    }

    /// The draft with a row selected of a list that it holds itself.
    pub open spec fn own_row_selected(self, id: WizardControl, row: usize) -> DraftView {
        match id {
            WizardControl::ReviewAttachments => self.attachment_selected(row),
            WizardControl::NewBundleRepositories if self.purpose is New => {
                self.repository_selected(row)
            },
            _ => self,
        }
    }

    /// The draft with a repository of its new bundle selected.
    pub open spec fn repository_selected(self, row: usize) -> DraftView {
        let part = self.new_part();
        let next = row_within(row, part.new_bundle_repositories.len());
        self.with_new(NewSessionView { new_bundle_selected: next, ..part }).focusing(
            WizardControl::NewBundleRepositories,
        )
    }
}

impl DashboardStateView {
    /// Whether the size is settled at once for a target that was just
    /// selected. A new session always does; a resume only for a target that
    /// the session can use, so that the size it has is not overwritten with
    /// one it will never use.
    pub open spec fn prepares_on_select(self, draft: DraftView) -> bool {
        match draft.purpose {
            PurposeView::New(_) => true,
            PurposeView::Resume(part) => self.resume_rejection(
                part.session_id,
                self.target(draft.target).id,
            ) is None,
        }
    }

    /// What selecting a target comes to.
    pub open spec fn target_selected(self, draft: DraftView, row: usize) -> (
        DashboardStateView,
        DashboardActionView,
    ) {
        if draft.target == row {
            (self.showing(draft), DashboardActionView::Nothing)
        } else {
            let noted = self.noting_change(draft, DraftChange::TargetSelected);
            let moved = DraftView {
                target: row,
                ..draft.change_noted(DraftChange::TargetSelected)
            };
            if noted.prepares_on_select(moved) {
                (noted.showing(noted.target_prepared(moved)), noted.preparation_action(moved))
            } else {
                (noted.showing(moved), DashboardActionView::Nothing)
            }
        }
    }

    /// What selecting a bundle comes to.
    pub open spec fn bundle_selected(self, draft: DraftView, row: usize) -> DashboardStateView {
        if draft.new_part().bundle == row {
            self.showing(draft)
        } else {
            let noted = draft.change_noted(DraftChange::BundleSelected);
            self.noting_change(draft, DraftChange::BundleSelected).showing(
                noted.with_new(NewSessionView { bundle: row, ..noted.new_part() }),
            )
        }
    }

    /// What selecting a row of a list comes to.
    pub open spec fn row_selected(self, draft: DraftView, id: WizardControl, row: usize) -> (
        DashboardStateView,
        DashboardActionView,
    ) {
        let nothing = DashboardActionView::Nothing;
        match id {
            WizardControl::ProfileList => (
                self.noting_change(draft, DraftChange::ProfileSelected).showing(
                    DraftView {
                        profile: row,
                        ..draft.change_noted(DraftChange::ProfileSelected)
                    },
                ),
                nothing,
            ),
            WizardControl::TargetList => self.target_selected(draft, row),
            WizardControl::BundleList if draft.purpose is New => (
                self.bundle_selected(draft, row),
                nothing,
            ),
            _ => (self.showing(draft.own_row_selected(id, row)), nothing),
        }
    }

    /// The checkbox can be used: a managed worktree where the chosen
    /// directory allows one, delegation where the harness takes its tools.
    pub open spec fn can_toggle(self, draft: DraftView, id: WizardControl) -> bool {
        match (draft.purpose, id) {
            (PurposeView::New(part), WizardControl::CreateManagedWorktree) => {
                part.options_for(self.target(draft.target).id) matches Some(options)
                    && options.available
            },
            (PurposeView::New(_), WizardControl::MjolnirSubagents) => self.subagent_choice(draft),
            (PurposeView::Resume(_), WizardControl::DiscardQueue) => true,
            _ => false,
        }
    }

    /// What toggling a checkbox comes to.
    pub open spec fn toggled(self, draft: DraftView, id: WizardControl) -> DashboardStateView {
        if self.can_toggle(draft, id) {
            match draft.purpose {
                PurposeView::New(part) => self.handled_where(true).showing(
                    draft.with_new(
                        if id == WizardControl::CreateManagedWorktree {
                            NewSessionView {
                                create_managed_worktree: !part.create_managed_worktree,
                                ..part
                            }
                        } else {
                            NewSessionView { mjolnir_subagents: !part.mjolnir_subagents, ..part }
                        },
                    ),
                ),
                PurposeView::Resume(part) => self.showing(
                    draft.with_resume(
                        ResumptionView { discard_queue: !part.discard_queue, ..part },
                    ),
                ),
            }
        } else {
            self.showing(draft)
        }
    }

    /// What editing a field comes to.
    pub open spec fn edited(self, draft: DraftView, id: WizardControl, edit: FieldEditView) -> DashboardStateView {
        let noted = draft.change_noted(DraftChange::FieldEdit);
        self.handled_where(noted.edit_changes(id, edit)).showing(noted.field_edited(id, edit))
    }

    /// What an interaction with the form comes to.
    pub open spec fn interacted(
        self,
        draft: DraftView,
        interaction: InteractionView,
        findings: FindingsView,
    ) -> (DashboardStateView, DashboardActionView) {
        let nothing = DashboardActionView::Nothing;
        match interaction {
            InteractionView::Cancel => (self.closed(), nothing),
            InteractionView::Activate(id) => self.activated(draft, id, findings),
            InteractionView::Edit(id, edit) => (self.edited(draft, id, edit), nothing),
            InteractionView::ComboBoxCommit(id, row) => if id == WizardControl::MountAccess {
                (
                    self.noting_change(draft, DraftChange::ReadOnlyToggled).showing(
                        draft.change_noted(DraftChange::ReadOnlyToggled).access_committed(row),
                    ),
                    nothing,
                )
            } else {
                (self.showing(draft), nothing)
            },
            InteractionView::Select(id, row) => self.row_selected(draft, id, row),
            InteractionView::Toggle(id) => (self.toggled(draft, id), nothing),
        }
    }

    /// What an interaction needs is there. Closing the dialog needs nothing.
    pub open spec fn can_interact(self, draft: DraftView, interaction: InteractionView) -> bool {
        match interaction {
            InteractionView::Activate(id) => self.can_use(draft, id),
            InteractionView::Edit(_, _) => draft.recalls_listed(),
            InteractionView::Select(WizardControl::TargetList, row) => row
                < self.config.targets.len(),
            InteractionView::Toggle(id) => match (draft.purpose, id) {
                (PurposeView::New(_), WizardControl::CreateManagedWorktree) => self.has_target(
                    draft,
                ),
                (PurposeView::New(_), WizardControl::MjolnirSubagents) => draft.profile
                    < enabled_choices(self.config.profiles).len(),
                _ => true,
            },
            _ => true,
        }
    }

    /// The interaction names a row that its list has, on the step that has
    /// the list.
    pub open spec fn sound(self, draft: DraftView, interaction: InteractionView) -> bool {
        match interaction {
            InteractionView::Activate(id) => self.can_activate(draft, id),
            InteractionView::Select(WizardControl::ProfileList, row) => match draft.purpose {
                PurposeView::New(_) => row < enabled_choices(self.config.profiles).len(),
                PurposeView::Resume(part) => row < self.resume_choices(part).len(),
            },
            InteractionView::Select(WizardControl::TargetList, _) => draft.step
                == WizardStep::Target,
            InteractionView::Select(WizardControl::BundleList, _) => draft.step
                == WizardStep::Bundle || draft.purpose is Resume,
            _ => true,
        }
    }
}

/// Selecting a row selects that row, or the last where there are fewer, and
/// focuses its list.
pub proof fn law_listed_row_selected(draft: DraftView, row: usize)
    ensures
        draft.mounts.mounts.len() <= usize::MAX ==> {
            let after = draft.attachment_selected(row);
            let count = draft.mounts.mounts.len();
            &&& row < count ==> after.mounts.history_index == row
            &&& row >= count && count > 0 ==> after.mounts.history_index == count - 1
            &&& count > 0 ==> after.mounts.selection_valid()
            &&& after.mounts.mounts == draft.mounts.mounts
            &&& after.form.focused == Some(WizardControl::ReviewAttachments)
            &&& after.purpose == draft.purpose
        },
        draft.purpose is New && draft.new_part().new_bundle_repositories.len() <= usize::MAX ==> {
            let after = draft.repository_selected(row);
            let count = draft.new_part().new_bundle_repositories.len();
            &&& row < count ==> after.new_part().new_bundle_selected == row
            &&& row >= count && count > 0 ==> after.new_part().new_bundle_selected == count - 1
            &&& after.new_part().new_bundle_repositories
                == draft.new_part().new_bundle_repositories
            &&& after.form.focused == Some(WizardControl::NewBundleRepositories)
        },
{
}

/// Selecting in one list changes that choice alone, and a profile, a target or
/// a bundle that is selected is the one of its row.
pub proof fn law_row_chosen(state: DashboardStateView, draft: DraftView, row: usize)
    ensures
        ({
            let (after, action) = state.row_selected(draft, WizardControl::ProfileList, row);
            &&& action == DashboardActionView::Nothing
            &&& after.mode matches ModeView::Wizard(kept)
            &&& kept.profile == row
            &&& kept.target == draft.target && kept.mounts == draft.mounts
            &&& kept.resource_allocation == draft.resource_allocation && kept.step == draft.step
            &&& draft.moves() ==> kept.resume_part().preparation is None
        }),
        ({
            let (after, action) = state.row_selected(draft, WizardControl::TargetList, row);
            &&& after.mode matches ModeView::Wizard(kept)
            &&& kept.target == row
            &&& kept.profile == draft.profile && kept.mounts.mounts == draft.mounts.mounts
            &&& kept.step == draft.step
            &&& draft.target == row ==> kept == draft && action == DashboardActionView::Nothing
            &&& draft.target != row && draft.moves() ==> kept.resume_part().preparation is None
            &&& draft.target != row && draft.purpose is New ==> {
                &&& kept.new_part().remote_repositories is None
                &&& after.preflight_generation != state.preflight_generation
            }
        }),
        draft.purpose is New ==> {
            let (after, action) = state.row_selected(draft, WizardControl::BundleList, row);
            &&& action == DashboardActionView::Nothing
            &&& after.mode matches ModeView::Wizard(kept)
            &&& kept.new_part().bundle == row
            &&& kept.target == draft.target && kept.profile == draft.profile
            &&& kept.mounts == draft.mounts && kept.step == draft.step
            &&& draft.new_part().bundle == row ==> kept == draft
            &&& draft.new_part().bundle != row ==> kept.new_part().remote_repositories is None
        },
{
}

/// A session that cannot use a selected target keeps the size it has.
pub proof fn law_unusable_target_keeps_size(
    state: DashboardStateView,
    draft: DraftView,
    row: usize,
)
    requires
        draft.purpose is Resume,
        row != draft.target,
        state.resume_rejection(
            draft.resume_part().session_id,
            state.config.targets[row as int].id,
        ) is Some,
    ensures
        state.target_selected(draft, row).0.mode matches ModeView::Wizard(kept)
            && kept.resource_allocation == draft.resource_allocation,
        state.target_selected(draft, row).1 == DashboardActionView::Nothing,
{
}

/// A row of the access modes gives the entry the mode of that row, and closes
/// the list.
pub proof fn law_access_taken(
    state: DashboardStateView,
    draft: DraftView,
    row: usize,
    findings: FindingsView,
)
    ensures
        ({
            let (after, action) = state.interacted(
                draft,
                InteractionView::ComboBoxCommit(WizardControl::MountAccess, row),
                findings,
            );
            let overlay = draft.mounts.overlay_barrier() is None;
            &&& action == DashboardActionView::Nothing
            &&& after.mode matches ModeView::Wizard(kept)
            &&& row == 0 ==> kept.mounts.access == MountAccess::Ro
            &&& overlay && row == 1 ==> kept.mounts.access == MountAccess::Cow
            &&& overlay && row == 2 ==> kept.mounts.access == MountAccess::Rw
            &&& !overlay && row == 1 ==> kept.mounts.access == MountAccess::Rw
            &&& row > 2 ==> kept.mounts.access == draft.mounts.access
            &&& kept.mounts.access_combo is None
            &&& kept.mounts.mounts == draft.mounts.mounts
            &&& kept.mounts.source == draft.mounts.source
        }),
{
}

/// A checkbox that can be used changes over, and only it; one that cannot
/// stays.
pub proof fn law_toggle_changes_over(state: DashboardStateView, draft: DraftView)
    ensures
        draft.purpose matches PurposeView::New(part) ==> {
            let target = state.config.targets[draft.target as int];
            let open = part.worktree_options matches Some(found) && found.target_id == target.id
                && found.directory == trimmed(part.project_directory.text)
                && found.options.available;
            &&& state.toggled(
                draft,
                WizardControl::CreateManagedWorktree,
            ).mode matches ModeView::Wizard(kept)
            &&& kept.new_part().create_managed_worktree == (open
                != part.create_managed_worktree)
            &&& kept.new_part().mjolnir_subagents == part.mjolnir_subagents
            &&& kept.mounts == draft.mounts && kept.new_part().bundle == part.bundle
        },
        draft.purpose matches PurposeView::New(part) ==> {
            let kind = enabled_choices(state.config.profiles)[draft.profile as int].kind;
            let open = kind == HarnessKind::Claude || kind == HarnessKind::Codex;
            &&& state.toggled(draft, WizardControl::MjolnirSubagents).mode matches ModeView::Wizard(
                kept,
            )
            &&& kept.new_part().mjolnir_subagents == (open != part.mjolnir_subagents)
            &&& kept.new_part().create_managed_worktree == part.create_managed_worktree
            &&& kept.mounts == draft.mounts && kept.new_part().bundle == part.bundle
        },
        draft.purpose matches PurposeView::Resume(part) ==> {
            &&& state.toggled(draft, WizardControl::DiscardQueue).mode matches ModeView::Wizard(
                kept,
            )
            &&& kept.resume_part().discard_queue == !part.discard_queue
            &&& kept.resume_part().preparation == part.preparation
            &&& kept.resume_part().session_id == part.session_id && kept.mounts == draft.mounts
        },
{
}

/// Editing a field of a move drops its preparation: the draft it was prepared
/// for is another.
pub proof fn law_edit_unprepares(
    state: DashboardStateView,
    draft: DraftView,
    id: WizardControl,
    edit: FieldEditView,
)
    requires
        draft.moves(),
    ensures
        state.edited(draft, id, edit).mode matches ModeView::Wizard(kept)
            && kept.resume_part().preparation is None,
{
}

impl NewSession {
    fn select_repository(&mut self, row: usize)
        ensures
            final(self)@ == (NewSessionView {
                new_bundle_selected: row_within(row, old(self)@.new_bundle_repositories.len()),
                ..old(self)@
            }),
    {
        broadcast use group_views;

        self.new_bundle_selected = clamp_row(row, self.new_bundle_repositories.len());
    }
}

impl Draft {
    fn select_own_row(&mut self, id: WizardControl, row: usize)
        ensures
            final(self)@ == old(self)@.own_row_selected(id, row),
    {
        broadcast use group_views;

        if id == WizardControl::ReviewAttachments {
            self.mounts.history_index = clamp_row(row, self.mounts.mounts.len());
            self.form.focus(id);
        } else if id == WizardControl::NewBundleRepositories {
            if let Purpose::New(part) = &mut self.purpose {
                part.select_repository(row);
                self.form.focus(id);
            }
        }
    }
}

impl DashboardState {
    fn prepares_target_on_select(&self, draft: &Draft) -> (r: bool)
        requires
            draft.target < self.config.targets.len(),
        ensures
            r == self@.prepares_on_select(draft@),
    {
        broadcast use group_views;

        match &draft.purpose {
            Purpose::New(_) => true,
            Purpose::Resume(part) => {
                let target = &self.config.targets[draft.target];
                assert(self@.target(draft.target) == target@);
                self.resume_target_rejection(
                    part.session_id.as_str(),
                    target.id.as_str(),
                ).is_none()
            },
        }
    }

    fn select_target(&mut self, draft: Draft, row: usize) -> (action: DashboardAction)
        requires
            row < old(self)@.config.targets.len(),
        ensures
            (final(self)@, action@) == old(self)@.target_selected(draft@, row),
            old(self)@.fits(draft@) && draft.step == WizardStep::Target
                ==> final(self)@.well_formed(),
    {
        broadcast use group_views;

        let mut draft = draft;
        if draft.target == row {
            self.keep(draft);
            return DashboardAction::Nothing;
        }
        self.note_draft_change(&mut draft, DraftChange::TargetSelected);
        draft.target = row;
        if self.prepares_target_on_select(&draft) {
            let action = self.prepare_wizard_target(&mut draft);
            self.keep(draft);
            return action;
        }
        self.keep(draft);
        DashboardAction::Nothing
    }

    fn select_bundle(&mut self, draft: Draft, row: usize)
        requires
            draft@.purpose is New,
        ensures
            final(self)@ == old(self)@.bundle_selected(draft@, row),
            old(self)@.fits(draft@) && draft.step == WizardStep::Bundle
                ==> final(self)@.well_formed(),
    {
        let mut draft = draft;
        let same = match &draft.purpose {
            Purpose::New(part) => part.bundle == row,
            Purpose::Resume(_) => true,
        };
        if !same {
            self.note_draft_change(&mut draft, DraftChange::BundleSelected);
            match &mut draft.purpose {
                Purpose::New(part) => {
                    part.bundle = row;
                },
                Purpose::Resume(_) => {},
            }
        }
        self.keep(draft);
    }

    fn select_profile(&mut self, draft: Draft, row: usize)
        ensures
            final(self)@ == old(self)@.row_selected(draft@, WizardControl::ProfileList, row).0,
            old(self)@.fits(draft@) && old(self)@.sound(
                draft@,
                InteractionView::Select(WizardControl::ProfileList, row),
            ) ==> final(self)@.well_formed(),
    {
        let mut draft = draft;
        self.note_draft_change(&mut draft, DraftChange::ProfileSelected);
        draft.profile = row;
        self.keep(draft);
    }

    fn show_own_row(&mut self, draft: Draft, id: WizardControl, row: usize)
        ensures
            final(self)@ == old(self)@.showing(draft@.own_row_selected(id, row)),
            old(self)@.fits(draft@) ==> final(self)@.well_formed(),
    {
        let mut draft = draft;
        draft.select_own_row(id, row);
        self.keep(draft);
    }

    fn select_row(&mut self, draft: Draft, id: WizardControl, row: usize) -> (action:
        DashboardAction)
        requires
            id == WizardControl::TargetList ==> row < old(self)@.config.targets.len(),
        ensures
            (final(self)@, action@) == old(self)@.row_selected(draft@, id, row),
            old(self)@.fits(draft@) && old(self)@.sound(draft@, InteractionView::Select(id, row))
                ==> final(self)@.well_formed(),
    {
        let creates = match &draft.purpose {
            Purpose::New(_) => true,
            Purpose::Resume(_) => false,
        };
        match id {
            WizardControl::ProfileList => self.select_profile(draft, row),
            WizardControl::TargetList => {
                return self.select_target(draft, row);
            },
            WizardControl::BundleList if creates => self.select_bundle(draft, row),
            _ => self.show_own_row(draft, id, row),
        }
        DashboardAction::Nothing
    }

    fn toggle_applies(&self, draft: &Draft, id: WizardControl) -> (r: bool)
        requires
            self@.can_interact(draft@, InteractionView::Toggle(id)),
        ensures
            r == self@.can_toggle(draft@, id),
    {
        broadcast use group_views;

        match &draft.purpose {
            Purpose::New(part) => match id {
                WizardControl::CreateManagedWorktree => {
                    let target = &self.config.targets[draft.target];
                    assert(self@.target(draft.target) == target@);
                    part.worktree_available(target.id.as_str())
                },
                WizardControl::MjolnirSubagents => self.subagent_choice_applies(draft),
                _ => false,
            },
            Purpose::Resume(_) => id == WizardControl::DiscardQueue,
        }
    }

    pub(crate) fn toggle(&mut self, draft: Draft, id: WizardControl)
        requires
            old(self)@.can_interact(draft@, InteractionView::Toggle(id)),
        ensures
            final(self)@ == old(self)@.toggled(draft@, id),
            old(self)@.fits(draft@) ==> final(self)@.well_formed(),
    {
        let mut draft = draft;
        if self.toggle_applies(&draft, id) {
            match &mut draft.purpose {
                Purpose::New(part) => {
                    if id == WizardControl::CreateManagedWorktree {
                        part.create_managed_worktree = !part.create_managed_worktree;
                    } else {
                        part.mjolnir_subagents = !part.mjolnir_subagents;
                    }
                    self.event_handled = true;
                },
                Purpose::Resume(part) => {
                    part.discard_queue = !part.discard_queue;
                },
            }
        }
        self.keep(draft);
    }

    /// Edit a field of the draft.
    pub fn apply_wizard_field_edit(&mut self, draft: Draft, id: WizardControl, edit: FieldEdit)
        requires
            draft@.recalls_listed(),
        ensures
            final(self)@ == old(self)@.edited(draft@, id, edit@),
            old(self)@.fits(draft@) ==> final(self)@.well_formed(),
    {
        let mut draft = draft;
        self.note_draft_change(&mut draft, DraftChange::FieldEdit);
        if draft.edit_field(id, edit) {
            self.event_handled = true;
        }
        self.keep(draft);
    }

    /// Take the access that was picked for the entry.
    fn commit_access(&mut self, draft: Draft, row: usize)
        ensures
            final(self)@ == old(self)@.noting_change(draft@, DraftChange::ReadOnlyToggled).showing(
                draft@.change_noted(DraftChange::ReadOnlyToggled).access_committed(row),
            ),
            old(self)@.fits(draft@) ==> final(self)@.well_formed(),
    {
        let mut draft = draft;
        self.note_draft_change(&mut draft, DraftChange::ReadOnlyToggled);
        draft.mounts.commit_mount_access(row);
        draft.form.focus(WizardControl::MountAccess);
        self.keep(draft);
    }

    /// Do what an interaction with the form asks for.
    pub fn apply_wizard_interaction(
        &mut self,
        draft: Draft,
        interaction: Interaction,
        findings: Findings,
    ) -> (action: DashboardAction)
        requires
            old(self)@.can_interact(draft@, interaction@),
        ensures
            (final(self)@, action@) == old(self)@.interacted(draft@, interaction@, findings@),
            old(self)@.fits(draft@) && old(self)@.sound(draft@, interaction@)
                ==> final(self)@.well_formed(),
    {
        match interaction {
            Interaction::Cancel => self.cancel_modal(),
            Interaction::Activate(id) => {
                return self.activate_wizard_control(draft, id, findings);
            },
            Interaction::Edit(id, edit) => self.apply_wizard_field_edit(draft, id, edit),
            Interaction::ComboBoxCommit(id, row) => {
                if id == WizardControl::MountAccess {
                    self.commit_access(draft, row);
                } else {
                    self.keep(draft);
                }
            },
            Interaction::Select(id, row) => {
                return self.select_row(draft, id, row);
            },
            Interaction::Toggle(id) => self.toggle(draft, id),
        }
        DashboardAction::Nothing
    }
}

} // verus!
