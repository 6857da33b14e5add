//! Keys that a wizard takes itself, and the way of an event through it.

use vstd::prelude::*;

use crate::activation::Findings;
#[allow(unused_imports)]
use crate::activation::FindingsView;
use crate::dashboard_state::{DashboardAction, DashboardState};
#[allow(unused_imports)]
use crate::dashboard_state::{DashboardActionView, DashboardStateView, ModeView};
use crate::drafts::{Draft, DraftChange, PartRequest, Purpose, WizardControl, WizardStep};
#[allow(unused_imports)]
use crate::drafts::{DraftView, PartRequestView, PurposeView};
#[allow(unused_imports)]
use crate::duplicate::group_views;
use crate::duplicate::Duplicate;
use crate::events::Interaction;
#[allow(unused_imports)]
use crate::events::InteractionView;
use crate::mounts::remove_selected_mount;
use crate::path_updates::{CompletionEvent, CompletionRoute};
#[allow(unused_imports)]
use crate::path_updates::CompletionRouteView;

verus! {

/// A key that the form left to the wizard.
#[derive(Debug, Clone, Copy, PartialEq, Eq, Structural)]
pub enum ShortcutKey {
    Backspace,
    Delete,
    Char(char),
    Other,
}

/// The keys that change the size of the target.
pub open spec fn sizes_target(key: char) -> bool {
    key == '+' || key == '-' || key == 'r' || key == 'c' || key == 'm'
}

/// The control is the list of a picker.
pub open spec fn is_picker(control: Option<WizardControl>) -> bool {
    ||| control == Some(WizardControl::ProfileList)
    ||| control == Some(WizardControl::TargetList)
    ||| control == Some(WizardControl::BundleList)
}

pub(crate) fn is_size_key(key: char) -> (r: bool)
    ensures
        r == sizes_target(key),
{
    key == '+' || key == '-' || key == 'r' || key == 'c' || key == 'm'
}

pub(crate) fn picker_focused(control: Option<WizardControl>) -> (r: bool)
    ensures
        r == is_picker(control),
{
    match control {
        Some(control) => control == WizardControl::ProfileList || control
            == WizardControl::TargetList || control == WizardControl::BundleList,
        None => false,
    }
}

impl DraftView {
    pub open spec fn tracking_size(self) -> DraftView {
        DraftView {
            form: self.form.asking(PartRequestView::TrackResources(self.resource_allocation)),
            ..self
        }
    }

    /// The draft without the selected attachment.
    pub open spec fn attachment_removed(self) -> DraftView {
        let noted = self.change_noted(DraftChange::AttachmentRemoved);
        let removed = DraftView { mounts: noted.mounts.selected_removed(), ..noted };
        if removed.mounts.mounts.len() == 0 {
            removed.focusing(WizardControl::Submit)
        } else {
            removed
        }
    }

    /// The draft moves a session.
    pub open spec fn moves(self) -> bool {
        self.purpose matches PurposeView::Resume(part) && part.moving
    }

    /// The draft takes no input while its bundle is made.
    pub open spec fn locked(self) -> bool {
        self.purpose matches PurposeView::New(part) && part.bundle_creation_in_flight
    }

    /// The key removes a repository of the new bundle.
    pub open spec fn removes_repository(self, key: ShortcutKey) -> bool {
        &&& key == ShortcutKey::Delete
        &&& self.step == WizardStep::NewBundle
        &&& self.form.focused == Some(WizardControl::NewBundleRepositories)
        &&& self.purpose matches PurposeView::New(part) && !part.bundle_creation_in_flight
    }
}

impl DashboardStateView {
    /// The draft after a key that changes the size of its target.
    pub open spec fn size_changed(self, draft: DraftView, key: char) -> DraftView {
        self.resources_adjusted(
            draft.change_noted(DraftChange::ResourcesAdjusted).tracking_size(),
            key,
        ).tracking_size()
    }

    /// What a key does that the form left to the wizard.
    pub open spec fn shortcut_taken(
        self,
        draft: DraftView,
        key: ShortcutKey,
        modified: bool,
        findings: FindingsView,
    ) -> (DashboardStateView, DashboardActionView) {
        let nothing = DashboardActionView::Nothing;
        if modified {
            (self.showing(draft), nothing)
        } else if key == ShortcutKey::Backspace && is_picker(draft.form.focused) {
            self.activated(draft, WizardControl::Back, findings)
        } else if key == ShortcutKey::Delete && draft.form.focused == Some(
            WizardControl::ReviewAttachments,
        ) {
            self.noting_change(draft, DraftChange::AttachmentRemoved).reviewed_again(
                draft.attachment_removed(),
            )
        } else {
            match key {
                ShortcutKey::Char(letter) if draft.step == WizardStep::Target && sizes_target(
                    letter,
                ) => (self.showing(self.size_changed(draft, letter)), nothing),
                _ => if draft.removes_repository(key) {
                    (self.showing(draft.repository_removed()), nothing)
                } else if self.queue_key(draft, key) {
                    (self.toggled(draft, WizardControl::DiscardQueue), nothing)
                } else {
                    (self.showing(draft), nothing)
                },
            }
        }
    }

    /// What a key needs that the form left to the wizard is there: as much as
    /// going back where it does that, the attachment that is removed, and the
    /// target whose size is changed.
    pub open spec fn can_press(self, draft: DraftView, key: ShortcutKey, modified: bool) -> bool {
        if modified {
            true
        } else if key == ShortcutKey::Backspace && is_picker(draft.form.focused) {
            self.can_use(draft, WizardControl::Back)
        } else if key == ShortcutKey::Delete && draft.form.focused == Some(
            WizardControl::ReviewAttachments,
        ) {
            &&& draft.step == WizardStep::Review
            &&& draft.mounts.selection_valid()
            &&& draft.moves() ==> self.fits(draft)
        } else {
            match key {
                ShortcutKey::Char(letter) if draft.step == WizardStep::Target && sizes_target(
                    letter,
                ) => self.has_target(draft),
                _ => true,
            }
        }
    }

    /// The key decides about queued work: there is some, and the review that
    /// says what becomes of it is on screen.
    pub open spec fn queue_key(self, draft: DraftView, key: ShortcutKey) -> bool {
        &&& key == ShortcutKey::Char('q')
        &&& draft.step == WizardStep::Review
        &&& draft.purpose matches PurposeView::Resume(part) && self.queue_choice_for(part) is Some
    }
}

/// Delete on the attachments of the review takes out the selected one and no
/// other.
pub proof fn law_delete_removes_selected(
    state: DashboardStateView,
    draft: DraftView,
    findings: FindingsView,
)
    requires
        draft.form.focused == Some(WizardControl::ReviewAttachments),
        0 < draft.mounts.mounts.len(),
        draft.mounts.history_index < draft.mounts.mounts.len(),
        draft.purpose is New,
    ensures
        ({
            let (after, action) = state.shortcut_taken(
                draft,
                ShortcutKey::Delete,
                false,
                findings,
            );
            let before = draft.mounts.mounts;
            let row = draft.mounts.history_index as int;
            &&& action == DashboardActionView::Nothing
            &&& after.mode matches ModeView::Wizard(kept)
            &&& kept.mounts.mounts.len() == before.len() - 1
            &&& forall|j: int| 0 <= j < row ==> #[trigger] kept.mounts.mounts[j] == before[j]
            &&& forall|j: int|
                row <= j < kept.mounts.mounts.len() ==> #[trigger] kept.mounts.mounts[j] == before[j
                    + 1]
            &&& before.len() == 1 ==> kept.form.focused == Some(WizardControl::Submit)
            &&& before.len() > 1 ==> kept.form.focused == Some(WizardControl::ReviewAttachments)
            &&& kept.step == draft.step && kept.target == draft.target
            &&& kept.purpose == draft.purpose
        }),
{
}

/// Removing an attachment of a move takes out the selected one, and the move
/// is to be prepared anew.
pub proof fn law_removal_unprepares(draft: DraftView)
    requires
        draft.moves(),
        0 < draft.mounts.mounts.len(),
        draft.mounts.history_index < draft.mounts.mounts.len(),
    ensures
        ({
            let after = draft.attachment_removed();
            let row = draft.mounts.history_index as int;
            &&& after.resume_part().preparation is None
            &&& after.mounts.mounts.len() == draft.mounts.mounts.len() - 1
            &&& forall|j: int|
                0 <= j < row ==> #[trigger] after.mounts.mounts[j] == draft.mounts.mounts[j]
            &&& forall|j: int|
                row <= j < after.mounts.mounts.len() ==> #[trigger] after.mounts.mounts[j]
                    == draft.mounts.mounts[j + 1]
        }),
{
}

/// With a modifier held no key does anything.
pub proof fn law_modified_key_does_nothing(
    state: DashboardStateView,
    draft: DraftView,
    key: ShortcutKey,
    findings: FindingsView,
)
    ensures
        state.shortcut_taken(draft, key, true, findings).0.mode == ModeView::Wizard(draft),
        state.shortcut_taken(draft, key, true, findings).1 == DashboardActionView::Nothing,
{
}

/// Backspace on the list of a picker goes back, as the button does.
pub proof fn law_backspace_goes_back(
    state: DashboardStateView,
    draft: DraftView,
    findings: FindingsView,
)
    requires
        draft.form.focused == Some(WizardControl::ProfileList) || draft.form.focused == Some(
            WizardControl::TargetList,
        ) || draft.form.focused == Some(WizardControl::BundleList),
        draft.step == WizardStep::Target || draft.step == WizardStep::Bundle,
    ensures
        ({
            let (after, action) = state.shortcut_taken(
                draft,
                ShortcutKey::Backspace,
                false,
                findings,
            );
            &&& action == DashboardActionView::Nothing
            &&& after.mode matches ModeView::Wizard(kept)
            &&& draft.step == WizardStep::Target ==> kept.step == WizardStep::Profile
            &&& draft.step == WizardStep::Bundle ==> kept.step == WizardStep::Target
            &&& kept.purpose == draft.purpose && kept.target == draft.target
        }),
{
}

/// A key changes the size of the target only on the target's step, and only
/// plus, minus, r, c and m do.
pub proof fn law_size_keys(
    state: DashboardStateView,
    draft: DraftView,
    letter: char,
    findings: FindingsView,
)
    requires
        draft.form.focused != Some(WizardControl::ReviewAttachments),
    ensures
        ({
            let (after, action) = state.shortcut_taken(
                draft,
                ShortcutKey::Char(letter),
                false,
                findings,
            );
            let sizes = draft.step == WizardStep::Target && (letter == '+' || letter == '-'
                || letter == 'r' || letter == 'c' || letter == 'm');
            &&& action == DashboardActionView::Nothing
            &&& after.mode matches ModeView::Wizard(kept)
            &&& kept.mounts == draft.mounts && kept.target == draft.target
            &&& kept.profile == draft.profile && kept.step == draft.step
            &&& !sizes ==> kept.resource_allocation == draft.resource_allocation
            &&& sizes ==> kept.resource_allocation == state.resources_adjusted(
                draft,
                letter,
            ).resource_allocation
            &&& sizes && draft.moves() ==> kept.resume_part().preparation is None
        }),
{
}

/// Delete on the repositories of a new bundle takes one out.
pub proof fn law_delete_removes_repository(
    state: DashboardStateView,
    draft: DraftView,
    findings: FindingsView,
)
    requires
        draft.purpose is New,
        draft.step == WizardStep::NewBundle,
        draft.form.focused == Some(WizardControl::NewBundleRepositories),
        0 < draft.new_part().new_bundle_repositories.len() <= usize::MAX,
        !draft.new_part().bundle_creation_in_flight,
        draft.new_part().new_bundle_selected < draft.new_part().new_bundle_repositories.len(),
    ensures
        state.shortcut_taken(draft, ShortcutKey::Delete, false, findings).0.mode matches ModeView::Wizard(
            kept,
        ) && {
            let row = draft.new_part().new_bundle_selected as int;
            let before = draft.new_part().new_bundle_repositories;
            let left = kept.new_part().new_bundle_repositories;
            &&& left.len() == before.len() - 1
            &&& forall|j: int| 0 <= j < row ==> #[trigger] left[j] == before[j]
            &&& forall|j: int| row <= j < left.len() ==> #[trigger] left[j] == before[j + 1]
        },
{
}

/// While a bundle is made, and when a key is let go, nothing happens.
pub proof fn law_locked_draft_ignores_events(
    state: DashboardStateView,
    draft: DraftView,
    report: FormReport,
    findings: FindingsView,
)
    requires
        report.release || (draft.purpose matches PurposeView::New(part)
            && part.bundle_creation_in_flight),
    ensures
        state.event_handled_by(draft, report, findings).0.mode == ModeView::Wizard(draft),
        state.event_handled_by(draft, report, findings).1 == WizardOutcomeView::Acts(
            DashboardActionView::Nothing,
        ),
{
}

/// A key that the form took, or that repeats, is not the wizard's.
pub proof fn law_taken_key_not_used_twice(
    state: DashboardStateView,
    draft: DraftView,
    report: FormReport,
    findings: FindingsView,
)
    requires
        report.interaction is None,
        report.consumed || report.repeat || report.key is None,
    ensures
        state.event_taken(draft, report, findings).0.mode == ModeView::Wizard(draft),
        state.event_taken(draft, report, findings).1 == DashboardActionView::Nothing,
{
}

/// Whether queued work starts or is dropped is decided after the move was
/// prepared: pressing the key keeps the preparation, and pressing it again
/// takes the decision back.
pub proof fn law_queue_key_keeps_preparation(
    state: DashboardStateView,
    draft: DraftView,
    findings: FindingsView,
)
    requires
        state.queue_key(draft, ShortcutKey::Char('q')),
    ensures
        ({
            let (after, action) = state.shortcut_taken(
                draft,
                ShortcutKey::Char('q'),
                false,
                findings,
            );
            &&& action == DashboardActionView::Nothing
            &&& after.mode matches ModeView::Wizard(changed)
            &&& changed.resume_part().preparation == draft.resume_part().preparation
            &&& changed.resume_part().discard_queue == !draft.resume_part().discard_queue
            &&& after.shortcut_taken(changed, ShortcutKey::Char('q'), false, findings).0
                == state.showing(draft)
        }),
{
}

impl Draft {
    fn track_size(&mut self)
        ensures
            final(self)@ == old(self)@.tracking_size(),
    {
        let size = self.resource_allocation.duplicate();
        self.form.request(PartRequest::TrackResources(size));
    }

    fn repository_under_key(&self, key: ShortcutKey) -> (r: bool)
        ensures
            r == self@.removes_repository(key),
    {
        let listed = match self.form.focused {
            Some(control) => control == WizardControl::NewBundleRepositories,
            None => false,
        };
        let idle = match &self.purpose {
            Purpose::New(part) => !part.bundle_creation_in_flight,
            Purpose::Resume(_) => false,
        };
        key == ShortcutKey::Delete && self.step == WizardStep::NewBundle && listed && idle
    }
}

impl DashboardState {
    fn remove_attachment(&mut self, draft: Draft) -> (action: DashboardAction)
        requires
            draft.step == WizardStep::Review,
            draft@.mounts.selection_valid(),
            draft@.moves() ==> old(self)@.fits(draft@),
        ensures
            (final(self)@, action@) == old(self)@.noting_change(
                draft@,
                DraftChange::AttachmentRemoved,
            ).reviewed_again(draft@.attachment_removed()),
            old(self)@.fits(draft@) ==> final(self)@.well_formed(),
    {
        broadcast use group_views;

        let mut draft = draft;
        self.note_draft_change(&mut draft, DraftChange::AttachmentRemoved);
        remove_selected_mount(&mut draft.mounts);
        if draft.mounts.mounts.len() == 0 {
            draft.form.focus(WizardControl::Submit);
        }
        self.reenter_review(draft)
    }

    fn change_size(&mut self, draft: Draft, key: char)
        requires
            old(self)@.has_target(draft@),
        ensures
            final(self)@ == old(self)@.showing(old(self)@.size_changed(draft@, key)),
            old(self)@.fits(draft@) ==> final(self)@.well_formed(),
    {
        let mut draft = draft;
        self.note_draft_change(&mut draft, DraftChange::ResourcesAdjusted);
        draft.track_size();
        self.adjust_wizard_resources(&mut draft, key);
        draft.track_size();
        self.keep(draft);
    }

    fn decides_queue(&self, draft: &Draft, key: ShortcutKey) -> (r: bool)
        ensures
            r == self@.queue_key(draft@, key),
    {
        let waiting = match &draft.purpose {
            Purpose::Resume(part) => self.has_queued_work(part),
            Purpose::New(_) => false,
        };
        key == ShortcutKey::Char('q') && draft.step == WizardStep::Review && waiting
    }

    /// Do what a key does that the form left to the wizard.
    pub fn handle_wizard_shortcut(
        &mut self,
        key: ShortcutKey,
        modified: bool,
        draft: Draft,
        findings: Findings,
    ) -> (action: DashboardAction)
        requires
            old(self)@.can_press(draft@, key, modified),
        ensures
            (final(self)@, action@) == old(self)@.shortcut_taken(draft@, key, modified, findings@),
            old(self)@.fits(draft@) ==> final(self)@.well_formed(),
    {
        let mut draft = draft;
        if modified {
            self.keep(draft);
            return DashboardAction::Nothing;
        }
        if key == ShortcutKey::Backspace && picker_focused(draft.form.focused) {
            return self.activate_wizard_control(draft, WizardControl::Back, findings);
        }
        let attachments = match draft.form.focused {
            Some(control) => control == WizardControl::ReviewAttachments,
            None => false,
        };
        if key == ShortcutKey::Delete && attachments {
            return self.remove_attachment(draft);
        }
        if let ShortcutKey::Char(letter) = key {
            if draft.step == WizardStep::Target && is_size_key(letter) {
                self.change_size(draft, letter);
                return DashboardAction::Nothing;
            }
        }
        if draft.repository_under_key(key) {
            draft.remove_repository();
        } else if self.decides_queue(&draft, key) {
            self.toggle(draft, WizardControl::DiscardQueue);
            return DashboardAction::Nothing;
        }
        self.keep(draft);
        DashboardAction::Nothing
    }
}

// --- The way of an event ---

/// What became of an event in the form of a wizard.
#[derive(Debug, PartialEq, Eq)]
pub struct FormReport {
    /// The event is the release of a key.
    pub release: bool,
    /// The event is the repeat of a key.
    pub repeat: bool,
    /// The form took the event.
    pub consumed: bool,
    pub completion: CompletionEvent,
    pub interaction: Option<Interaction>,
    /// The key, and whether it was pressed with a modifier.
    pub key: Option<(ShortcutKey, bool)>,
}

/// What [`DashboardState::handle_wizard_event`] leaves to its caller.
#[derive(Debug, PartialEq, Eq)]
pub enum WizardOutcome {
    Acts(DashboardAction),
    Completes(CompletionRoute),
}

/// What a [`WizardOutcome`] holds.
#[verifier::ext_equal]
pub enum WizardOutcomeView {
    Acts(DashboardActionView),
    Completes(CompletionRouteView),
}

impl View for WizardOutcome {
    type V = WizardOutcomeView;

    open spec fn view(&self) -> WizardOutcomeView {
        match self {
            WizardOutcome::Acts(action) => WizardOutcomeView::Acts(action@),
            WizardOutcome::Completes(route) => WizardOutcomeView::Completes(route@),
        }
    }
}

impl FormReport {
    pub open spec fn interaction_view(self) -> Option<InteractionView> {
        match self.interaction {
            Some(interaction) => Some(interaction@),
            None => None,
        }
    }
}

impl DashboardStateView {
    /// What an event comes to that is none of a completion popup's.
    pub open spec fn event_taken(self, draft: DraftView, report: FormReport, findings: FindingsView) -> (
        DashboardStateView,
        DashboardActionView,
    ) {
        match report.interaction_view() {
            Some(interaction) => self.interacted(draft, interaction, findings),
            None => match report.key {
                Some((key, modified)) if !report.consumed && !report.repeat => self.shortcut_taken(
                    draft,
                    key,
                    modified,
                    findings,
                ),
                _ => (self.showing(draft), DashboardActionView::Nothing),
            },
        }
    }

    /// What an event comes to. The popups of fields that lost the focus
    /// close, an open popup takes its events first, then the form's
    /// interaction counts, and a key is left to the wizard only where the
    /// form did not take it.
    pub open spec fn event_handled_by(
        self,
        draft: DraftView,
        report: FormReport,
        findings: FindingsView,
    ) -> (DashboardStateView, WizardOutcomeView) {
        if draft.locked() || report.release {
            (self.showing(draft), WizardOutcomeView::Acts(DashboardActionView::Nothing))
        } else {
            let noted = DashboardStateView { event_handled: report.consumed, ..self };
            let settled = draft.popups_settled();
            match noted.completion_route(draft, report.completion) {
                CompletionRouteView::Pass => {
                    let (after, action) = noted.event_taken(settled, report, findings);
                    (after, WizardOutcomeView::Acts(action))
                },
                route => (noted.showing(settled), WizardOutcomeView::Completes(route)),
            }
        }
    }

    /// What an event needs that is none of a completion popup's is there.
    pub open spec fn can_take(self, draft: DraftView, report: FormReport) -> bool {
        match report.interaction_view() {
            Some(interaction) => self.can_interact(draft, interaction),
            None => match report.key {
                Some((key, modified)) if !report.consumed && !report.repeat => self.can_press(
                    draft,
                    key,
                    modified,
                ),
                _ => true,
            },
        }
    }

    /// What an event needs is there. An event that nothing is made of needs
    /// nothing.
    pub open spec fn admits(self, draft: DraftView, report: FormReport) -> bool {
        draft.locked() || report.release || {
            &&& self.can_complete(draft, report.completion)
            &&& draft.passes_popups(report.completion) ==> self.can_take(draft, report)
        }
    }
}

/// Closing popups, and noting that an event was taken, changes nothing that a
/// draft is held against.
proof fn lemma_settling_keeps_fit(state: DashboardStateView, draft: DraftView, handled: bool)
    ensures
        ({
            let noted = DashboardStateView { event_handled: handled, ..state };
            let settled = draft.popups_settled();
            &&& noted.fits(settled) == state.fits(draft)
            &&& noted.has_target(settled) == state.has_target(draft)
            &&& settled.recalls_listed() == draft.recalls_listed()
            &&& settled.awaits_preparation() == draft.awaits_preparation()
            &&& settled.moves() == draft.moves()
            &&& settled.mounts.selection_valid() == draft.mounts.selection_valid()
            &&& noted.bundle_chosen(settled) == state.bundle_chosen(draft)
        }),
{
}

proof fn lemma_settling_keeps_use(
    state: DashboardStateView,
    draft: DraftView,
    handled: bool,
    id: WizardControl,
)
    ensures
        (DashboardStateView { event_handled: handled, ..state }).can_use(
            draft.popups_settled(),
            id,
        ) == state.can_use(draft, id),
{
    lemma_settling_keeps_fit(state, draft, handled);
}

proof fn lemma_settling_keeps_needs(
    state: DashboardStateView,
    draft: DraftView,
    report: FormReport,
)
    ensures
        ({
            let noted = DashboardStateView { event_handled: report.consumed, ..state };
            let settled = draft.popups_settled();
            &&& noted.can_take(settled, report) == state.can_take(draft, report)
            &&& report.interaction_view() matches Some(interaction) ==> noted.sound(
                settled,
                interaction,
            ) == state.sound(draft, interaction)
        }),
{
    lemma_settling_keeps_fit(state, draft, report.consumed);
    lemma_settling_keeps_use(state, draft, report.consumed, WizardControl::Back);
    if let Some(InteractionView::Activate(id)) = report.interaction_view() {
        lemma_settling_keeps_use(state, draft, report.consumed, id);
    }
}

impl Draft {
    /// Whether the draft takes no input now.
    pub fn input_locked(&self) -> (r: bool)
        ensures
            r == self@.locked(),
    {
        match &self.purpose {
            Purpose::New(part) => part.bundle_creation_in_flight,
            Purpose::Resume(_) => false,
        }
    }
}

impl DashboardState {
    fn take_event(&mut self, draft: Draft, report: FormReport, findings: Findings) -> (action:
        DashboardAction)
        requires
            old(self)@.can_take(draft@, report),
        ensures
            (final(self)@, action@) == old(self)@.event_taken(draft@, report, findings@),
            old(self)@.fits(draft@) && (report.interaction_view() matches Some(interaction)
                ==> old(self)@.sound(draft@, interaction)) ==> final(self)@.well_formed(),
    {
        if let Some(interaction) = report.interaction {
            return self.apply_wizard_interaction(draft, interaction, findings);
        }
        if let Some((key, modified)) = report.key {
            if !report.consumed && !report.repeat {
                return self.handle_wizard_shortcut(key, modified, draft, findings);
            }
        }
        self.keep(draft);
        DashboardAction::Nothing
    }

    /// Handle an event of a wizard, given what its form made of it.
    pub fn handle_wizard_event(&mut self, draft: Draft, report: FormReport, findings: Findings) -> (
    outcome: WizardOutcome)
        requires
            old(self)@.admits(draft@, report),
        ensures
            (final(self)@, outcome@) == old(self)@.event_handled_by(draft@, report, findings@),
            old(self)@.fits(draft@) && (report.interaction_view() matches Some(interaction)
                ==> old(self)@.sound(draft@, interaction)) ==> final(self)@.well_formed(),
    {
        let ghost start = draft@;
        let mut draft = draft;
        if draft.input_locked() || report.release {
            self.keep(draft);
            return WizardOutcome::Acts(DashboardAction::Nothing);
        }
        self.event_handled = report.consumed;
        let ghost noted = self@;
        let route = self.route_path_completion(&mut draft, report.completion);
        match route {
            CompletionRoute::Pass => {
                proof {
                    lemma_settling_keeps_fit(old(self)@, start, report.consumed);
                    lemma_settling_keeps_needs(old(self)@, start, report);
                }
                let action = self.take_event(draft, report, findings);
                WizardOutcome::Acts(action)
            },
            other => {
                self.keep(draft);
                WizardOutcome::Completes(other)
            },
        }
    }
}

} // verus!
