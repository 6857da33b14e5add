//! The wizard that is on screen: what it shows, and what it makes of an event.

use vstd::prelude::*;

use crate::activation::Findings;
#[allow(unused_imports)]
use crate::activation::FindingsView;
use crate::catalog::{bundle_ids_by_recent_creation, enabled_profiles};
#[allow(unused_imports)]
use crate::catalog::{bundle_order, enabled_choices};
use crate::dashboard_state::{DashboardState, Mode};
#[allow(unused_imports)]
use crate::dashboard_state::{DashboardActionView, DashboardStateView, ModeView};
use crate::drafts::{Draft, MountWizard, NewSession, Purpose, WizardControl, WizardStep};
#[allow(unused_imports)]
use crate::drafts::{DraftView, PurposeView};
#[allow(unused_imports)]
use crate::duplicate::group_views;
use crate::events::Interaction;
#[allow(unused_imports)]
use crate::events::{previous_step, InteractionView};
#[allow(unused_imports)]
use crate::path_updates::CompletionEvent;
use crate::path_updates::{completes_on_target, passes_popups};
use crate::records::{Config, State, TargetKind};
use crate::shortcuts::{is_size_key, picker_focused, FormReport, ShortcutKey, WizardOutcome};
#[allow(unused_imports)]
use crate::shortcuts::WizardOutcomeView;
use crate::tables::is_table;
use crate::wizard_screens::WizardScreen;
#[allow(unused_imports)]
use crate::wizard_screens::WizardScreenView;

verus! {

impl MountWizard {
    fn edits_listed(&self) -> (r: bool)
        ensures
            r == self@.edit_valid(),
    {
        broadcast use group_views;

        match self.editing_mount {
            Some(i) => i < self.mounts.len(),
            None => true,
        }
    }

    fn selects_listed(&self) -> (r: bool)
        ensures
            r == self@.selection_valid(),
    {
        broadcast use group_views;

        self.mounts.len() == 0 || self.history_index < self.mounts.len()
    }
}

impl Config {
    /// Whether profiles, bundles and targets are in the order of their ids.
    pub fn tables_in_order(&self) -> (r: bool)
        ensures
            r == self@.in_order(),
    {
        is_table(&self.profiles) && is_table(&self.bundles) && is_table(&self.targets)
    }
}

impl State {
    /// Whether sessions, and what is remembered of hosts, are in order.
    pub fn tables_in_order(&self) -> (r: bool)
        ensures
            r == self@.in_order(),
    {
        is_table(&self.sessions) && is_table(&self.mount_history) && is_table(
            &self.project_directories,
        ) && is_table(&self.container_sizes)
    }
}

impl Draft {
    fn creates(&self) -> (r: bool)
        ensures
            r == (self@.purpose is New),
    {
        match &self.purpose {
            Purpose::New(_) => true,
            Purpose::Resume(_) => false,
        }
    }

    fn moves(&self) -> (r: bool)
        ensures
            r == self@.moves(),
    {
        match &self.purpose {
            Purpose::New(_) => false,
            Purpose::Resume(part) => part.moving,
        }
    }

    fn awaits_preparation(&self) -> (r: bool)
        ensures
            r == self@.awaits_preparation(),
    {
        match &self.purpose {
            Purpose::New(_) => false,
            Purpose::Resume(part) => part.moving && !part.preparing && part.preparation.is_none(),
        }
    }

    fn tables_in_order(&self) -> (r: bool)
        ensures
            r == self@.in_order(),
    {
        is_table(&self.aws_options) && is_table(&self.mounts.forced_sources)
    }
}

impl NewSession {
    fn recalls_listed(&self) -> (r: bool)
        ensures
            r == (self@.project_history.len() > 0 ==> self@.project_history_index
                < self@.project_history.len()),
    {
        broadcast use group_views;

        self.project_history.len() == 0 || self.project_history_index < self.project_history.len()
    }
}

impl DashboardState {
    fn bundle_listed(&self, part: &NewSession) -> (r: bool)
        ensures
            r == (part@.bundle < bundle_order(self@.config, self@.state).len()),
    {
        broadcast use group_views;

        part.bundle < bundle_ids_by_recent_creation(&self.config, &self.state).len()
    }

    /// Whether the dashboard's tables are in the order of their keys.
    pub fn tables_in_order(&self) -> (r: bool)
        ensures
            r == self@.in_order(),
    {
        self.config.tables_in_order() && self.state.tables_in_order() && is_table(
            &self.session_details,
        ) && is_table(&self.target_readiness) && is_table(&self.operations)
    }

    /// Whether a draft refers only to what there is, and that is in order.
    pub fn draft_fits(&self, draft: &Draft) -> (r: bool)
        ensures
            r == self@.fits(draft@),
    {
        broadcast use group_views;

        if !self.tables_in_order() || !draft.tables_in_order() {
            return false;
        }
        if draft.target >= self.config.targets.len() {
            return false;
        }
        let target = &self.config.targets[draft.target];
        assert(self@.target(draft.target) == target@);
        let bare = target.template.bare_project;
        let step = draft.step;
        if step == WizardStep::Mounts && !draft.mounts.edits_listed() {
            return false;
        }
        if !self.profile_row_listed(draft, draft.profile) {
            return false;
        }
        match &draft.purpose {
            Purpose::New(part) => part.recalls_listed() && (step != WizardStep::ProjectDirectory
                || bare) && ((step != WizardStep::Review && step != WizardStep::Mounts) || bare
                || self.bundle_listed(part)),
            Purpose::Resume(_) => step == WizardStep::Profile || step == WizardStep::Target || step
                == WizardStep::Review || step == WizardStep::Mounts,
        }
    }

    fn profile_row_listed(&self, draft: &Draft, row: usize) -> (r: bool)
        ensures
            r == match draft@.purpose {
                PurposeView::New(_) => row < enabled_choices(self@.config.profiles).len(),
                PurposeView::Resume(part) => row < self@.resume_choices(part).len(),
            },
    {
        broadcast use group_views;

        match &draft.purpose {
            Purpose::New(_) => row < enabled_profiles(&self.config).len(),
            Purpose::Resume(part) => row < self.resume_wizard_profiles(part).len(),
        }
    }

    /// Whether the controls of the draft's step are about what there is.
    pub fn draft_stands(&self, draft: &Draft) -> (r: bool)
        ensures
            r == self@.step_stands(draft@),
    {
        broadcast use group_views;

        let step = draft.step;
        let reviewed = step == WizardStep::Review;
        if (reviewed || step == WizardStep::Target) && draft.target >= self.config.targets.len() {
            return false;
        }
        match &draft.purpose {
            Purpose::New(part) => {
                if !reviewed {
                    return true;
                }
                let target = &self.config.targets[draft.target];
                assert(self@.target(draft.target) == target@);
                self.profile_row_listed(draft, draft.profile) && (target.template.bare_project
                    || self.bundle_listed(part))
            },
            Purpose::Resume(_) => reviewed || step == WizardStep::Profile || step
                == WizardStep::Target || step == WizardStep::Mounts,
        }
    }

    fn draft_drawable(&self, draft: &Draft, refresh_key: &Option<String>) -> (r: bool)
        ensures
            r == self@.drawable(draft@, refresh_key.deep_view()),
    {
        broadcast use group_views;

        let step = draft.step;
        if !self.draft_stands(draft) {
            return false;
        }
        if step == WizardStep::ProjectDirectory || step == WizardStep::Mounts {
            if draft.target >= self.config.targets.len() {
                return false;
            }
            let target = &self.config.targets[draft.target];
            assert(self@.target(draft.target) == target@);
            let bare = target.template.kind == TargetKind::LocalBare || target.template.kind
                == TargetKind::SshBare;
            return step == WizardStep::ProjectDirectory || !bare;
        }
        if step == WizardStep::Profile || step == WizardStep::Bundle || step == WizardStep::Target {
            return self.rows_countable(draft, refresh_key);
        }
        true
    }

    fn target_listed(&self, draft: &Draft) -> (r: bool)
        ensures
            r == self@.has_target(draft@),
    {
        broadcast use group_views;

        draft.target < self.config.targets.len()
    }

    fn names_listed(&self, draft: &Draft, interaction: &Interaction) -> (r: bool)
        ensures
            r == self@.sound(draft@, interaction@),
    {
        broadcast use group_views;

        match interaction {
            Interaction::Activate(id) => match &draft.purpose {
                Purpose::New(part) => {
                    if draft.step != WizardStep::Bundle || *id == WizardControl::Cancel || *id
                        == WizardControl::Add || *id == WizardControl::Back {
                        return true;
                    }
                    if !self.target_listed(draft) {
                        return true;
                    }
                    let target = &self.config.targets[draft.target];
                    assert(self@.target(draft.target) == target@);
                    target.template.bare_project || self.bundle_listed(part)
                },
                Purpose::Resume(_) => true,
            },
            Interaction::Select(WizardControl::ProfileList, row) => self.profile_row_listed(
                draft,
                *row,
            ),
            Interaction::Select(WizardControl::TargetList, _) => draft.step == WizardStep::Target,
            Interaction::Select(WizardControl::BundleList, _) => match &draft.purpose {
                Purpose::New(_) => draft.step == WizardStep::Bundle,
                Purpose::Resume(_) => true,
            },
            _ => true,
        }
    }

    fn mount_usable(&self, draft: &Draft, id: WizardControl) -> (r: bool)
        ensures
            r == self@.can_use_mount(draft@, id),
    {
        match id {
            WizardControl::MountSource | WizardControl::MountDestination | WizardControl::Add => {
                self.target_listed(draft)
            },
            WizardControl::Back => !draft.awaits_preparation() || self.draft_fits(draft),
            _ => true,
        }
    }

    fn review_usable(&self, draft: &Draft, id: WizardControl) -> (r: bool)
        ensures
            r == self@.can_use_review(draft@, id),
    {
        match id {
            WizardControl::Submit => self.draft_fits(draft),
            WizardControl::ReviewAttachments => draft.mounts.selects_listed(),
            WizardControl::Add => self.target_listed(draft),
            WizardControl::Back => !draft.creates() || self.target_listed(draft),
            _ => true,
        }
    }

    fn can_go_on(&self, draft: &Draft) -> (r: bool)
        ensures
            r == self@.can_advance(draft@),
    {
        let step = draft.step;
        if draft.creates() && step == WizardStep::Bundle {
            return true;
        }
        (step == WizardStep::Profile || step == WizardStep::Target) && self.target_listed(draft)
            && (!draft.awaits_preparation() || self.draft_fits(draft))
    }

    fn usable(&self, draft: &Draft, id: WizardControl) -> (r: bool)
        ensures
            r == self@.can_use(draft@, id),
    {
        let step = draft.step;
        if id == WizardControl::Cancel {
            return true;
        }
        if step == WizardStep::Mounts {
            return self.mount_usable(draft, id);
        }
        if step == WizardStep::Review {
            return self.review_usable(draft, id);
        }
        let creates = draft.creates();
        if creates && (step == WizardStep::NewBundle || (step == WizardStep::Bundle && id
            == WizardControl::Add)) || id == WizardControl::Back {
            return true;
        }
        if creates && step == WizardStep::ProjectDirectory {
            return self.target_listed(draft);
        }
        self.can_go_on(draft)
    }

    fn interaction_fits(&self, draft: &Draft, interaction: &Interaction) -> (r: bool)
        ensures
            r == self@.can_interact(draft@, interaction@),
    {
        broadcast use group_views;

        match interaction {
            Interaction::Activate(id) => self.usable(draft, *id),
            Interaction::Edit(_, _) => match &draft.purpose {
                Purpose::New(part) => part.recalls_listed(),
                Purpose::Resume(_) => true,
            },
            Interaction::Select(WizardControl::TargetList, row) => *row
                < self.config.targets.len(),
            Interaction::Toggle(id) => {
                if !draft.creates() {
                    return true;
                }
                match *id {
                    WizardControl::CreateManagedWorktree => self.target_listed(draft),
                    WizardControl::MjolnirSubagents => draft.profile < enabled_profiles(
                        &self.config,
                    ).len(),
                    _ => true,
                }
            },
            _ => true,
        }
    }

    fn key_fits(&self, draft: &Draft, key: ShortcutKey, modified: bool) -> (r: bool)
        ensures
            r == self@.can_press(draft@, key, modified),
    {
        if modified {
            return true;
        }
        let focused = draft.form.focused;
        if key == ShortcutKey::Backspace && picker_focused(focused) {
            return self.usable(draft, WizardControl::Back);
        }
        let attachments = match focused {
            Some(control) => control == WizardControl::ReviewAttachments,
            None => false,
        };
        if key == ShortcutKey::Delete && attachments {
            return draft.step == WizardStep::Review && draft.mounts.selects_listed() && (
            !draft.moves() || self.draft_fits(draft));
        }
        match key {
            ShortcutKey::Char(letter) => draft.step != WizardStep::Target || !is_size_key(letter)
                || self.target_listed(draft),
            _ => true,
        }
    }

    fn event_fits(&self, draft: &Draft, report: &FormReport) -> (r: bool)
        ensures
            r == self@.can_take(draft@, *report),
    {
        match &report.interaction {
            Some(interaction) => self.interaction_fits(draft, interaction),
            None => match report.key {
                Some((key, modified)) => report.consumed || report.repeat || self.key_fits(
                    draft,
                    key,
                    modified,
                ),
                None => true,
            },
        }
    }

    fn report_fits(&self, draft: &Draft, report: &FormReport) -> (r: bool)
        ensures
            r == (self@.admits(draft@, *report) && (report.interaction_view() matches Some(
                interaction,
            ) ==> self@.sound(draft@, interaction))),
    {
        let sound = match &report.interaction {
            Some(interaction) => self.names_listed(draft, interaction),
            None => true,
        };
        let idle = draft.input_locked() || report.release;
        let completes = !completes_on_target(draft, report.completion) || self.target_listed(draft);
        let taken = !passes_popups(draft, report.completion) || self.event_fits(draft, report);
        sound && (idle || (completes && taken))
    }
}

impl DashboardStateView {
    /// The dashboard without its dialog.
    pub open spec fn undialogued(self) -> DashboardStateView {
        DashboardStateView { mode: ModeView::Dashboard, ..self }
    }

    /// The draft on screen takes this report: what the report needs is there,
    /// and it names only rows that there are.
    pub open spec fn takes(self, report: FormReport) -> bool {
        &&& self.mode matches ModeView::Wizard(draft)
        &&& self.undialogued().admits(draft, report)
        &&& report.interaction_view() matches Some(interaction) ==> self.undialogued().sound(
            draft,
            interaction,
        )
    }

    /// The draft on screen can be drawn.
    pub open spec fn shows(self, refresh_key: Option<Seq<char>>) -> bool {
        self.mode matches ModeView::Wizard(draft) && self.drawable(draft, refresh_key)
    }

    /// What the draft on screen shows.
    pub open spec fn shown(self, refresh_key: Option<Seq<char>>, popup_rows: u16) -> Option<
        WizardScreenView,
    > {
        if self.shows(refresh_key) {
            let draft = self.mode->Wizard_0;
            Some(
                match draft.purpose {
                    PurposeView::New(_) => self.new_screen(draft, refresh_key, popup_rows),
                    PurposeView::Resume(_) => self.resume_screen(draft, refresh_key),
                },
            )
        } else {
            None
        }
    }
}

/// A wizard alone is shown, and it is shown as what its draft is for.
pub proof fn law_wizard_shown(
    state: DashboardStateView,
    refresh_key: Option<Seq<char>>,
    popup_rows: u16,
)
    ensures
        state.mode !is Wizard ==> state.shown(refresh_key, popup_rows) is None,
        state.mode matches ModeView::Wizard(draft) ==> (state.drawable(draft, refresh_key) ==> {
            &&& draft.purpose is New ==> state.shown(refresh_key, popup_rows) == Some(
                state.new_screen(draft, refresh_key, popup_rows),
            )
            &&& draft.purpose is Resume ==> state.shown(refresh_key, popup_rows) == Some(
                state.resume_screen(draft, refresh_key),
            )
        }),
{
}

/// A wizard that takes input can be closed, whatever its draft refers to.
pub proof fn law_wizard_can_be_closed(
    state: DashboardStateView,
    draft: DraftView,
    report: FormReport,
    findings: FindingsView,
)
    requires
        state.mode == ModeView::Wizard(draft),
        !draft.locked() && !report.release && report.completion == CompletionEvent::Unrelated,
        report.interaction_view() == Some(InteractionView::Cancel) || report.interaction_view()
            == Some(InteractionView::Activate(WizardControl::Cancel)),
    ensures
        state.takes(report),
        state.undialogued().event_handled_by(draft, report, findings) == (
            (DashboardStateView { event_handled: report.consumed, ..state }).closed(),
            WizardOutcomeView::Acts(DashboardActionView::Nothing),
        ),
{
}

/// From every step but the review and the attachment editor the wizard can go
/// back, whatever its draft refers to.
pub proof fn law_wizard_can_go_back(
    state: DashboardStateView,
    draft: DraftView,
    report: FormReport,
    findings: FindingsView,
)
    requires
        state.mode == ModeView::Wizard(draft),
        !draft.locked() && !report.release && report.completion == CompletionEvent::Unrelated,
        report.interaction_view() == Some(InteractionView::Activate(WizardControl::Back)),
        draft.step != WizardStep::Review && draft.step != WizardStep::Mounts,
    ensures
        state.takes(report),
        state.undialogued().event_handled_by(draft, report, findings).0 == (DashboardStateView {
            event_handled: report.consumed,
            ..state
        }).showing(
            draft.popups_settled().at_step(
                if draft.purpose is New && draft.step == WizardStep::NewBundle {
                    WizardStep::Bundle
                } else {
                    previous_step(draft.step)
                },
            ),
        ),
{
}

impl DashboardState {
    /// Handle an event of the wizard on screen, given what its form made of
    /// it. A report that needs or names what is not there, or that comes with
    /// no wizard open, is for nothing. Whatever is gone, the wizard can be
    /// closed.
    pub fn handle_event(&mut self, report: FormReport, findings: Findings) -> (outcome: Option<
        WizardOutcome,
    >)
        ensures
            outcome is Some <==> old(self)@.takes(report),
            match outcome {
                Some(done) => (final(self)@, done@) == old(self)@.undialogued().event_handled_by(
                    old(self)@.mode->Wizard_0,
                    report,
                    findings@,
                ),
                None => final(self)@ == old(self)@,
            },
            old(self)@.well_formed() ==> final(self)@.well_formed(),
    {
        match self.take_draft() {
            Some(draft) => {
                if self.report_fits(&draft, &report) {
                    Some(self.handle_wizard_event(draft, report, findings))
                } else {
                    self.keep(draft);
                    None
                }
            },
            None => None,
        }
    }

    /// Lays out what the wizard on screen shows, if there is one.
    pub fn wizard_screen(&self, refresh_key: &Option<String>, popup_rows: u16) -> (screen: Option<
        WizardScreen,
    >)
        ensures
            self@.shown(refresh_key.deep_view(), popup_rows) == match screen {
                Some(shown) => Some(shown@),
                None => None,
            },
    {
        broadcast use group_views;

        match &self.mode {
            Mode::Wizard(draft) => {
                if !self.draft_drawable(draft, refresh_key) {
                    return None;
                }
                match &draft.purpose {
                    Purpose::New(part) => Some(
                        self.render_new_wizard(draft, part, refresh_key, popup_rows),
                    ),
                    Purpose::Resume(part) => Some(
                        self.render_resume_wizard(draft, part, refresh_key),
                    ),
                }
            },
            _ => None,
        }
    }
}

} // verus!
