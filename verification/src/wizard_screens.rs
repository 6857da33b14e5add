//! What each step of the two wizards shows.

use vstd::prelude::*;

use crate::catalog::{bundle_ids_by_recent_creation, enabled_profiles};
#[allow(unused_imports)]
use crate::catalog::{bundle_order, enabled_choices};
use crate::dashboard_state::DashboardState;
#[allow(unused_imports)]
use crate::dashboard_state::DashboardStateView;
use crate::decimal::decimal_text;
#[allow(unused_imports)]
use crate::decimal::decimal;
use crate::drafts::{
    Draft, NewSession, Purpose, ResumeSource, Resumption, WizardControl, WizardStep,
};
#[allow(unused_imports)]
use crate::drafts::{DraftView, PurposeView, ResumptionView};
use crate::duplicate::{joined, owned, same_text, Duplicate};
#[allow(unused_imports)]
use crate::duplicate::{group_views, views};
use crate::form_screens::{BundleScreen, DirectoryScreen, MountScreen};
#[allow(unused_imports)]
use crate::form_screens::{attaches, BundleScreenView, DirectoryScreenView, MountScreenView};
use crate::lists::find;
#[allow(unused_imports)]
use crate::lists::lookup;
use crate::picker::{
    guardian_footnote, guardian_warning_marker, needs_guardian_warning, profile_table,
    render_picker, PickerCell, PickerChoice, PickerNavigation, PickerScreen,
};
#[allow(unused_imports)]
use crate::picker::{
    cell, disabled_row, footnote, headed, marker_cell, picker_screen, table_row, text_row,
    unguarded, PickerChoiceView, PickerNavigationView, PickerScreenView,
};
use crate::records::{Bundle, CompatibleProfile, Profile, Target, TargetKind};
#[allow(unused_imports)]
use crate::records::{CompatibleProfileView, HarnessKind, ProfileView, TargetView};
use crate::resources::{resource_allocation_label, target_label};
#[allow(unused_imports)]
use crate::resources::{allocation_label_text, target_label_text};
use crate::review::ReviewScreen;
#[allow(unused_imports)]
use crate::review::ReviewScreenView;
use crate::review_pages::resume_wizard_title;
#[allow(unused_imports)]
use crate::review_pages::resume_title;
use crate::screen::{add_line, add_spans, add_text, no_lines, Button, TextLine, Tone};
#[allow(unused_imports)]
use crate::screen::{labelled, line, TextLineView};

verus! {

/// The step has a list to pick from.
pub open spec fn picks(step: WizardStep) -> bool {
    step == WizardStep::Profile || step == WizardStep::Bundle || step == WizardStep::Target
}

// --- Rows ---

impl DashboardStateView {
    /// A row of a profile table.
    pub open spec fn profile_row(self, choice: CompatibleProfileView) -> PickerChoiceView {
        let profile = lookup::<Profile>(self.config.profiles, choice.id);
        let told = |text: spec_fn(ProfileView) -> Seq<char>|
            match profile {
                Some(found) => text(found),
                None => ""@,
            };
        table_row(
            Seq::empty().push(marker_cell(unguarded(choice.kind))).push(
                cell(choice.id, Tone::Plain),
            ).push(cell(told(|p: ProfileView| p.harness), Tone::Plain)).push(
                cell(told(|p: ProfileView| p.weekly), Tone::Plain),
            ).push(cell(told(|p: ProfileView| p.five_hour), Tone::Plain)),
        )
    }

    /// A row of the profile table of a resume: a profile of another harness
    /// takes over the text alone.
    pub open spec fn resume_profile_row(self, part: ResumptionView, choice: CompatibleProfileView) -> PickerChoiceView {
        let row = self.profile_row(choice);
        if self.session(part.session_id) matches Some(session) && session.harness_kind
            != choice.kind {
            PickerChoiceView {
                cells: row.cells.push(cell("(lossy: text-only transcript)"@, Tone::Plain)),
                ..row
            }
        } else {
            row
        }
    }

    /// A row of the bundle list.
    pub open spec fn bundle_row(self, id: Seq<char>) -> PickerChoiceView {
        text_row(
            id + "  "@ + decimal(
                match lookup::<Bundle>(self.config.bundles, id) {
                    Some(bundle) => bundle.repositories as nat,
                    None => 0,
                },
            ) + " repositories"@,
        )
    }

    /// The size behind the selected target.
    pub open spec fn size_text(self, draft: DraftView, target: TargetView) -> Seq<char> {
        if target.id == self.target(draft.target).id {
            allocation_label_text(draft.resource_allocation, draft.sizing_error)
        } else {
            ""@
        }
    }

    /// A row of the target list: a target that cannot be used is greyed out
    /// with the reason.
    pub open spec fn target_row(self, draft: DraftView, target: TargetView) -> PickerChoiceView {
        let named = target.id + "  "@ + target_label_text(target.template.kind);
        let sized = named + self.size_text(draft, target);
        match (draft.purpose, self.target_rejection(draft, target.id)) {
            (_, None) => text_row(sized),
            (PurposeView::New(_), Some(reason)) => disabled_row(sized + " · "@ + reason),
            (PurposeView::Resume(_), Some(reason)) => disabled_row(named + "  · "@ + reason),
        }
    }

    /// The profiles that a draft offers.
    pub open spec fn offered_profiles(self, draft: DraftView) -> Seq<CompatibleProfileView> {
        match draft.purpose {
            PurposeView::New(_) => enabled_choices(self.config.profiles),
            PurposeView::Resume(part) => self.resume_choices(part),
        }
    }

    pub open spec fn profile_rows(self, draft: DraftView) -> Seq<PickerChoiceView> {
        let profiles = self.offered_profiles(draft);
        Seq::new(
            profiles.len(),
            |i: int|
                match draft.purpose {
                    PurposeView::New(_) => self.profile_row(profiles[i]),
                    PurposeView::Resume(part) => self.resume_profile_row(part, profiles[i]),
                },
        )
    }

    /// The rows of a step with a list.
    pub open spec fn step_choices(self, draft: DraftView) -> Seq<PickerChoiceView> {
        match draft.step {
            WizardStep::Profile => headed(self.profile_rows(draft)),
            WizardStep::Bundle => {
                let bundles = bundle_order(self.config, self.state);
                Seq::new(bundles.len(), |i: int| self.bundle_row(bundles[i]))
            },
            _ => Seq::new(
                self.config.targets.len(),
                |i: int| self.target_row(draft, self.config.targets[i]),
            ),
        }
    }

    /// Some profile on offer has a harness that cannot guard risky actions.
    pub open spec fn warns_of_profiles(self, draft: DraftView) -> bool {
        exists|i: int|
            0 <= i < self.offered_profiles(draft).len() && unguarded(
                (#[trigger] self.offered_profiles(draft)[i]).kind,
            )
    }

    /// The help below the list of a step. An archived session has no record
    /// to read a name from, so the title the index kept is shown.
    pub open spec fn step_help(self, draft: DraftView, refresh_key: Option<Seq<char>>) -> Seq<
        TextLineView,
    > {
        let list = match draft.purpose {
            PurposeView::Resume(part) if part.source == ResumeSource::Archive => {
                Seq::empty().push(line("Restoring: "@ + part.title, Tone::Muted))
            },
            _ => Seq::empty(),
        };
        if draft.step == WizardStep::Target {
            list.push(line(resource_keys(refresh_key), Tone::Muted))
        } else {
            let list = list.push(
                line("↑/↓ select · Tab moves focus · Enter activates"@, Tone::Muted),
            );
            let list = if draft.purpose is Resume {
                list.push(line("Lossy: text only; tool calls + reasoning dropped."@, Tone::Muted))
            } else {
                list
            };
            if draft.step == WizardStep::Profile && self.warns_of_profiles(draft) {
                list.push(footnote())
            } else {
                list
            }
        }
    }

    /// The title of a step with a list.
    pub open spec fn step_title(self, draft: DraftView) -> Seq<char> {
        match draft.purpose {
            PurposeView::New(_) => match draft.step {
                WizardStep::Profile => " New session · 1/4 profile "@,
                WizardStep::Bundle => " New session · 3/4 project bundle "@,
                _ => " New session · 2/4 target "@,
            },
            PurposeView::Resume(part) => match draft.step {
                WizardStep::Profile => resume_title(
                    part,
                    "1/3 profile (cross-harness supported)"@,
                    "1/3 profile (cross-harness supported)"@,
                ),
                _ => resume_title(part, "2/3 new target"@, "2/3 new target"@),
            },
        }
    }

    /// The step can be left forwards. Without a bundle there is nothing to
    /// review; the pinned action is the only way forward.
    pub open spec fn can_go_on(self, draft: DraftView) -> bool {
        match draft.step {
            WizardStep::Profile => true,
            WizardStep::Bundle => self.config.bundles.len() > 0,
            _ => self.target_settled(draft),
        }
    }

    pub open spec fn step_navigation(self, draft: DraftView) -> PickerNavigationView {
        let bundles = draft.step == WizardStep::Bundle;
        PickerNavigationView {
            has_back: draft.step != WizardStep::Profile,
            selected: match draft.step {
                WizardStep::Profile => draft.profile,
                WizardStep::Bundle => draft.new_part().bundle,
                _ => draft.target,
            },
            control: match draft.step {
                WizardStep::Profile => WizardControl::ProfileList,
                WizardStep::Bundle => WizardControl::BundleList,
                _ => WizardControl::TargetList,
            },
            next_enabled: self.can_go_on(draft),
            pinned_action: if bundles {
                Some(labelled(WizardControl::Add, "New bundle…"@, true))
            } else {
                None
            },
            empty_hint: if bundles && self.config.bundles.len() == 0 {
                Some("No bundles yet."@)
            } else {
                None
            },
        }
    }

    /// What a step with a list shows.
    pub open spec fn step_picker(self, draft: DraftView, refresh_key: Option<Seq<char>>) -> PickerScreenView {
        picker_screen(
            self.step_title(draft),
            self.step_choices(draft),
            self.step_help(draft, refresh_key),
            self.step_navigation(draft),
        )
    }
}

/// The Target step's resource keys, with the live refresh binding for the
/// recheck rather than a key that may not exist any more.
pub open spec fn resource_keys(refresh_key: Option<Seq<char>>) -> Seq<char> {
    match refresh_key {
        Some(key) => "+ double · - halve · c +8 CPU · m +50% memory · r reset"@ + " · "@ + key
            + " recheck"@,
        None => "+ double · - halve · c +8 CPU · m +50% memory · r reset"@,
    }
}

pub fn resource_help(refresh_key: &Option<String>) -> (text: String)
    ensures
        text@ == resource_keys(refresh_key.deep_view()),
{
    let base = "+ double · - halve · c +8 CPU · m +50% memory · r reset";
    match refresh_key {
        Some(key) => {
            let mut text = joined(base, " · ");
            text.append(key.as_str());
            text.append(" recheck");
            text
        },
        None => owned(base),
    }
}

impl DashboardState {
    /// A row of a profile table.
    pub fn profile_choice(&self, choice: &CompatibleProfile) -> (row: PickerChoice)
        ensures
            row@ == self@.profile_row(choice@),
    {
        broadcast use group_views;

        let (harness, weekly, five_hour) = match find(&self.config.profiles, choice.id.as_str()) {
            Some(profile) => (
                profile.harness.duplicate(),
                profile.weekly.duplicate(),
                profile.five_hour.duplicate(),
            ),
            None => (owned(""), owned(""), owned("")),
        };
        let mut cells: Vec<PickerCell> = Vec::new();
        cells.push(guardian_warning_marker(choice.kind));
        cells.push(PickerCell::text(choice.id.duplicate()));
        cells.push(PickerCell::text(harness));
        cells.push(PickerCell::text(weekly));
        cells.push(PickerCell::text(five_hour));
        PickerChoice::table(cells)
    }

    fn resume_profile_choice(&self, part: &Resumption, choice: &CompatibleProfile) -> (row:
        PickerChoice)
        ensures
            row@ == self@.resume_profile_row(part@, choice@),
    {
        let row = self.profile_choice(choice);
        let lossy = match find(&self.state.sessions, part.session_id.as_str()) {
            Some(session) => session.harness_kind != choice.kind,
            None => false,
        };
        if lossy {
            row.with_note("(lossy: text-only transcript)")
        } else {
            row
        }
    }

    fn bundle_choice(&self, id: &str) -> (row: PickerChoice)
        ensures
            row@ == self@.bundle_row(id@),
    {
        let count = match find(&self.config.bundles, id) {
            Some(bundle) => bundle.repositories,
            None => 0,
        };
        let mut text = joined(id, "  ");
        text.append(decimal_text(count as u128).as_str());
        text.append(" repositories");
        PickerChoice::text(text)
    }

    fn target_choice(&self, draft: &Draft, target: &Target) -> (row: PickerChoice)
        requires
            draft.target < self.config.targets.len(),
        ensures
            row@ == self@.target_row(draft@, target@),
    {
        broadcast use group_views;

        let chosen = &self.config.targets[draft.target];
        assert(self@.target(draft.target) == chosen@);
        let mut named = joined(target.id.as_str(), "  ");
        named.append(target_label(target.template.kind));
        let size = if same_text(target.id.as_str(), chosen.id.as_str()) {
            resource_allocation_label(
                &draft.resource_allocation,
                match &draft.sizing_error {
                    Some(error) => Some(error.as_str()),
                    None => None,
                },
            )
        } else {
            owned("")
        };
        assert(size@ == self@.size_text(draft@, target@));
        let resumes = match &draft.purpose {
            Purpose::New(_) => false,
            Purpose::Resume(_) => true,
        };
        match self.draft_target_rejection(draft, target.id.as_str()) {
            None => {
                named.append(size.as_str());
                PickerChoice::text(named)
            },
            Some(reason) => {
                if resumes {
                    named.append("  · ");
                } else {
                    named.append(size.as_str());
                    named.append(" · ");
                }
                named.append(reason.as_str());
                PickerChoice::disabled(named)
            },
        }
    }

    fn profiles_on_offer(&self, draft: &Draft) -> (profiles: Vec<CompatibleProfile>)
        ensures
            profiles.deep_view() == self@.offered_profiles(draft@),
    {
        match &draft.purpose {
            Purpose::New(_) => enabled_profiles(&self.config),
            Purpose::Resume(part) => self.resume_wizard_profiles(part),
        }
    }

    fn profile_choices(&self, draft: &Draft, profiles: &Vec<CompatibleProfile>) -> (rows: Vec<
        PickerChoice,
    >)
        requires
            profiles.deep_view() == self@.offered_profiles(draft@),
        ensures
            rows.deep_view() == self@.profile_rows(draft@),
    {
        broadcast use group_views;

        let ghost all = profiles.deep_view();
        let ghost goal = self@.profile_rows(draft@);
        let mut rows: Vec<PickerChoice> = Vec::new();
        let mut i: usize = 0;
        while i < profiles.len()
            invariant
                i <= profiles.len(),
                all == views(profiles@),
                all == self@.offered_profiles(draft@),
                goal == self@.profile_rows(draft@),
                rows.len() == i,
                forall|j: int| 0 <= j < i ==> (#[trigger] rows@[j])@ == goal[j],
            decreases profiles.len() - i,
        {
            assert(all[i as int] == profiles@[i as int]@);
            let row = match &draft.purpose {
                Purpose::New(_) => self.profile_choice(&profiles[i]),
                Purpose::Resume(part) => self.resume_profile_choice(
                    part,
                    &profiles[i],
                ),
            };
            rows.push(row);
            i = i + 1;
        }
        assert(rows.deep_view() =~= goal);
        rows
    }

    fn bundle_choices(&self) -> (rows: Vec<PickerChoice>)
        ensures
            rows.deep_view() == Seq::new(
                bundle_order(self@.config, self@.state).len(),
                |i: int| self@.bundle_row(bundle_order(self@.config, self@.state)[i]),
            ),
    {
        broadcast use group_views;

        let bundles = bundle_ids_by_recent_creation(&self.config, &self.state);
        let ghost all = bundles.deep_view();
        let mut rows: Vec<PickerChoice> = Vec::new();
        let mut i: usize = 0;
        while i < bundles.len()
            invariant
                i <= bundles.len(),
                all == views(bundles@),
                rows.len() == i,
                forall|j: int| 0 <= j < i ==> (#[trigger] rows@[j])@ == self@.bundle_row(all[j]),
            decreases bundles.len() - i,
        {
            assert(all[i as int] == bundles@[i as int]@);
            rows.push(self.bundle_choice(bundles[i].as_str()));
            i = i + 1;
        }
        rows
    }

    fn target_choices(&self, draft: &Draft) -> (rows: Vec<PickerChoice>)
        requires
            draft.target < self.config.targets.len(),
        ensures
            rows.deep_view() == Seq::new(
                self@.config.targets.len(),
                |i: int| self@.target_row(draft@, self@.config.targets[i]),
            ),
    {
        broadcast use group_views;

        let ghost all = self@.config.targets;
        let mut rows: Vec<PickerChoice> = Vec::new();
        let mut i: usize = 0;
        while i < self.config.targets.len()
            invariant
                i <= self.config.targets.len(),
                draft.target < self.config.targets.len(),
                all == self@.config.targets,
                all == views(self.config.targets@),
                rows.len() == i,
                forall|j: int|
                    0 <= j < i ==> (#[trigger] rows@[j])@ == self@.target_row(draft@, all[j]),
            decreases self.config.targets.len() - i,
        {
            assert(all[i as int] == self.config.targets@[i as int]@);
            rows.push(self.target_choice(draft, &self.config.targets[i]));
            i = i + 1;
        }
        rows
    }

    fn any_unguarded(&self, draft: &Draft, profiles: &Vec<CompatibleProfile>) -> (r: bool)
        requires
            profiles.deep_view() == self@.offered_profiles(draft@),
        ensures
            r == self@.warns_of_profiles(draft@),
    {
        broadcast use group_views;

        let ghost all = self@.offered_profiles(draft@);
        let mut i: usize = 0;
        while i < profiles.len()
            invariant
                i <= profiles.len(),
                all == self@.offered_profiles(draft@),
                all == views(profiles@),
                forall|j: int| 0 <= j < i ==> !unguarded((#[trigger] all[j]).kind),
            decreases profiles.len() - i,
        {
            assert(all[i as int] == profiles@[i as int]@);
            if needs_guardian_warning(profiles[i].kind) {
                assert(unguarded(self@.offered_profiles(draft@)[i as int].kind));
                return true;
            }
            i = i + 1;
        }
        false
    }

    fn help_lines(
        &self,
        draft: &Draft,
        profiles: &Vec<CompatibleProfile>,
        refresh_key: &Option<String>,
    ) -> (list: Vec<TextLine>)
        requires
            profiles.deep_view() == self@.offered_profiles(draft@),
        ensures
            list.deep_view() == self@.step_help(draft@, refresh_key.deep_view()),
    {
        let warns = self.any_unguarded(draft, profiles);
        let mut list = no_lines();
        let mut resumes = false;
        if let Purpose::Resume(part) = &draft.purpose {
            resumes = true;
            if part.source == ResumeSource::Archive {
                add_line(&mut list, joined("Restoring: ", part.title.as_str()), Tone::Muted);
            }
        }
        if draft.step == WizardStep::Target {
            add_line(&mut list, resource_help(refresh_key), Tone::Muted);
            return list;
        }
        add_text(&mut list, "↑/↓ select · Tab moves focus · Enter activates", Tone::Muted);
        if resumes {
            add_text(&mut list, "Lossy: text only; tool calls + reasoning dropped.", Tone::Muted);
        }
        if draft.step == WizardStep::Profile && warns {
            add_spans(&mut list, guardian_footnote());
        }
        list
    }

    fn title_of_step(&self, draft: &Draft) -> (title: String)
        ensures
            title@ == self@.step_title(draft@),
    {
        match &draft.purpose {
            Purpose::New(_) => owned(
                match draft.step {
                    WizardStep::Profile => " New session · 1/4 profile ",
                    WizardStep::Bundle => " New session · 3/4 project bundle ",
                    _ => " New session · 2/4 target ",
                },
            ),
            Purpose::Resume(part) => match draft.step {
                WizardStep::Profile => resume_wizard_title(
                    part,
                    "1/3 profile (cross-harness supported)",
                    "1/3 profile (cross-harness supported)",
                ),
                _ => resume_wizard_title(part, "2/3 new target", "2/3 new target"),
            },
        }
    }

    fn navigation_of_step(&self, draft: &Draft) -> (navigation: PickerNavigation)
        requires
            picks(draft.step),
            draft.step == WizardStep::Target ==> draft.target < self.config.targets.len(),
            draft.step == WizardStep::Bundle ==> draft@.purpose is New,
        ensures
            navigation@ == self@.step_navigation(draft@),
    {
        broadcast use group_views;

        let bundles = draft.step == WizardStep::Bundle;
        let some_bundle = self.config.bundles.len() > 0;
        let chosen_bundle = match &draft.purpose {
            Purpose::New(part) => part.bundle,
            Purpose::Resume(_) => 0,
        };
        let next_enabled = match draft.step {
            WizardStep::Profile => true,
            WizardStep::Bundle => some_bundle,
            _ => self.target_advance_enabled(draft),
        };
        PickerNavigation {
            has_back: draft.step != WizardStep::Profile,
            selected: match draft.step {
                WizardStep::Profile => draft.profile,
                WizardStep::Bundle => chosen_bundle,
                _ => draft.target,
            },
            control: match draft.step {
                WizardStep::Profile => WizardControl::ProfileList,
                WizardStep::Bundle => WizardControl::BundleList,
                _ => WizardControl::TargetList,
            },
            next_enabled,
            pinned_action: if bundles {
                Some(
                    Button {
                        control: WizardControl::Add,
                        label: owned("New bundle…"),
                        enabled: true,
                    },
                )
            } else {
                None
            },
            empty_hint: if bundles && !some_bundle {
                Some(owned("No bundles yet."))
            } else {
                None
            },
        }
    }

    fn choices_of_step(&self, draft: &Draft, profiles: &Vec<CompatibleProfile>) -> (choices: Vec<
        PickerChoice,
    >)
        requires
            picks(draft.step),
            draft.step == WizardStep::Target ==> draft.target < self.config.targets.len(),
            profiles.deep_view() == self@.offered_profiles(draft@),
        ensures
            choices.deep_view() == self@.step_choices(draft@),
    {
        match draft.step {
            WizardStep::Profile => profile_table(self.profile_choices(draft, profiles)),
            WizardStep::Bundle => self.bundle_choices(),
            _ => self.target_choices(draft),
        }
    }

    /// Whether the rows of a step with a list can be counted on screen.
    pub(crate) fn rows_countable(&self, draft: &Draft, refresh_key: &Option<String>) -> (r: bool)
        requires
            picks(draft.step),
            draft.step == WizardStep::Target ==> draft.target < self.config.targets.len(),
        ensures
            r == self@.countable(draft@, refresh_key.deep_view()),
    {
        broadcast use group_views;

        let profiles = self.profiles_on_offer(draft);
        let choices = self.choices_of_step(draft, &profiles);
        let help = self.help_lines(draft, &profiles, refresh_key);
        choices.len() % 65536 + help.len() % 65536 + 6 <= 65535
    }

    fn render_step_picker(&self, draft: &Draft, refresh_key: &Option<String>) -> (screen:
        PickerScreen)
        requires
            picks(draft.step),
            draft.step == WizardStep::Target ==> draft.target < self.config.targets.len(),
            draft.step == WizardStep::Bundle ==> draft@.purpose is New,
            self@.countable(draft@, refresh_key.deep_view()),
        ensures
            screen@ == self@.step_picker(draft@, refresh_key.deep_view()),
    {
        broadcast use group_views;

        let profiles = self.profiles_on_offer(draft);
        let choices = self.choices_of_step(draft, &profiles);
        let help = self.help_lines(draft, &profiles, refresh_key);
        let title = self.title_of_step(draft);
        let navigation = self.navigation_of_step(draft);
        render_picker(title.as_str(), &choices, help, navigation)
    }
}

// --- Screens ---

/// What a step shows.
#[derive(Debug, PartialEq, Eq)]
pub enum WizardScreen {
    Review(ReviewScreen),
    Mounts(MountScreen),
    Directory(DirectoryScreen),
    NewBundle(BundleScreen),
    Picker(PickerScreen),
}

/// What a [`WizardScreen`] holds.
#[verifier::ext_equal]
pub enum WizardScreenView {
    Review(ReviewScreenView),
    Mounts(MountScreenView),
    Directory(DirectoryScreenView),
    NewBundle(BundleScreenView),
    Picker(PickerScreenView),
}

impl View for WizardScreen {
    type V = WizardScreenView;

    open spec fn view(&self) -> WizardScreenView {
        match self {
            WizardScreen::Review(screen) => WizardScreenView::Review(screen@),
            WizardScreen::Mounts(screen) => WizardScreenView::Mounts(screen@),
            WizardScreen::Directory(screen) => WizardScreenView::Directory(screen@),
            WizardScreen::NewBundle(screen) => WizardScreenView::NewBundle(screen@),
            WizardScreen::Picker(screen) => WizardScreenView::Picker(screen@),
        }
    }
}

impl WizardScreenView {
    /// How much of an area's width the screen takes, in hundredths. A list
    /// takes all of a narrow one.
    pub open spec fn width_percent(self, area_width: u16) -> u16 {
        match self {
            WizardScreenView::Review(_) | WizardScreenView::Mounts(_) => 84,
            WizardScreenView::Directory(_) | WizardScreenView::NewBundle(_) => 76,
            WizardScreenView::Picker(_) => if area_width < 64 {
                100
            } else {
                68
            },
        }
    }
}

impl WizardScreen {
    /// How much of an area's width the screen takes, in hundredths.
    pub fn width_percent(&self, area_width: u16) -> (percent: u16)
        ensures
            percent == self@.width_percent(area_width),
    {
        match self {
            WizardScreen::Review(_) | WizardScreen::Mounts(_) => 84,
            WizardScreen::Directory(_) | WizardScreen::NewBundle(_) => 76,
            WizardScreen::Picker(_) => if area_width < 64 {
                100
            } else {
                68
            },
        }
    }
}

impl DashboardStateView {
    /// The step's list has few enough rows to be measured.
    pub open spec fn countable(self, draft: DraftView, refresh_key: Option<Seq<char>>) -> bool {
        self.step_choices(draft).len() % 65536 + self.step_help(draft, refresh_key).len() % 65536
            + 6 <= 65535
    }

    /// What the step shows is there: its target where it names one, and one
    /// that takes directories where some are attached.
    pub open spec fn drawable(self, draft: DraftView, refresh_key: Option<Seq<char>>) -> bool {
        &&& self.step_stands(draft)
        &&& draft.step == WizardStep::ProjectDirectory || draft.step == WizardStep::Mounts
            ==> draft.target < self.config.targets.len()
        &&& draft.step == WizardStep::Mounts ==> attaches(self.template(draft.target).kind)
        &&& picks(draft.step) ==> self.countable(draft, refresh_key)
    }

    /// What a step of a new session shows, beside a completion popup of
    /// `popup_rows` rows.
    pub open spec fn new_screen(
        self,
        draft: DraftView,
        refresh_key: Option<Seq<char>>,
        popup_rows: u16,
    ) -> WizardScreenView {
        let part = draft.new_part();
        let target = self.target(draft.target);
        let focused = draft.form.focused;
        match draft.step {
            WizardStep::Review => WizardScreenView::Review(self.new_review(draft).screen(focused)),
            WizardStep::ProjectDirectory => WizardScreenView::Directory(
                part.directory_screen(
                    target.template.kind == TargetKind::LocalBare,
                    focused,
                    popup_rows,
                ),
            ),
            WizardStep::Mounts => WizardScreenView::Mounts(draft.mounts.screen(target, focused)),
            WizardStep::NewBundle => WizardScreenView::NewBundle(part.bundle_screen()),
            _ => WizardScreenView::Picker(self.step_picker(draft, refresh_key)),
        }
    }

    /// What a step of a resume, a move or a restored archive shows.
    pub open spec fn resume_screen(self, draft: DraftView, refresh_key: Option<Seq<char>>) -> WizardScreenView {
        let focused = draft.form.focused;
        match draft.step {
            WizardStep::Review => WizardScreenView::Review(
                self.resume_review(draft).screen(focused),
            ),
            WizardStep::Mounts => WizardScreenView::Mounts(
                draft.mounts.screen(self.target(draft.target), focused),
            ),
            _ => WizardScreenView::Picker(self.step_picker(draft, refresh_key)),
        }
    }
}

impl DashboardState {
    fn mount_screen(&self, draft: &Draft) -> (screen: MountScreen)
        requires
            draft.target < self.config.targets.len(),
            attaches(self@.template(draft.target).kind),
        ensures
            screen@ == draft@.mounts.screen(self@.target(draft.target), draft@.form.focused),
    {
        broadcast use group_views;

        let target = &self.config.targets[draft.target];
        assert(self@.target(draft.target) == target@);
        draft.mounts.render_mount_wizard(target, draft.form.focused)
    }

    /// Lays out what a step of a new session shows.
    pub fn render_new_wizard(
        &self,
        draft: &Draft,
        part: &NewSession,
        refresh_key: &Option<String>,
        popup_rows: u16,
    ) -> (screen: WizardScreen)
        requires
            draft@.purpose == PurposeView::New(part@),
            self@.drawable(draft@, refresh_key.deep_view()),
        ensures
            screen@ == self@.new_screen(draft@, refresh_key.deep_view(), popup_rows),
    {
        broadcast use group_views;

        match draft.step {
            WizardStep::Review => WizardScreen::Review(
                self.new_review_page(draft, part).render_review_wizard(draft.form.focused),
            ),
            WizardStep::ProjectDirectory => {
                let target = &self.config.targets[draft.target];
                assert(self@.target(draft.target) == target@);
                let local = target.template.kind == TargetKind::LocalBare;
                WizardScreen::Directory(
                    part.render_project_directory(local, draft.form.focused, popup_rows),
                )
            },
            WizardStep::Mounts => WizardScreen::Mounts(self.mount_screen(draft)),
            WizardStep::NewBundle => WizardScreen::NewBundle(part.render_new_bundle()),
            _ => WizardScreen::Picker(self.render_step_picker(draft, refresh_key)),
        }
    }

    /// Lays out what a step of a resume, a move or a restored archive shows.
    pub fn render_resume_wizard(
        &self,
        draft: &Draft,
        part: &Resumption,
        refresh_key: &Option<String>,
    ) -> (screen: WizardScreen)
        requires
            draft@.purpose == PurposeView::Resume(part@),
            self@.drawable(draft@, refresh_key.deep_view()),
        ensures
            screen@ == self@.resume_screen(draft@, refresh_key.deep_view()),
    {
        broadcast use group_views;

        match draft.step {
            WizardStep::Review => {
                let page = self.resume_review_page(draft, part);
                proof {
                    assert(page@.queued_entries.len() == 0 || page@.prepared_entries.len() == 0);
                    assert(page@.queued_entries.len() == page.queued_entries.len());
                    assert(page@.prepared_entries.len() == page.prepared_entries.len());
                }
                WizardScreen::Review(page.render_review_wizard(draft.form.focused))
            },
            WizardStep::Mounts => WizardScreen::Mounts(self.mount_screen(draft)),
            _ => WizardScreen::Picker(self.render_step_picker(draft, refresh_key)),
        }
    }
}

/// Every profile on offer has a row under the headings, in its order and by
/// its name, marked where its harness cannot guard risky actions.
pub proof fn law_profiles_listed(state: DashboardStateView, draft: DraftView, i: int)
    requires
        draft.step == WizardStep::Profile,
        0 <= i < state.offered_profiles(draft).len(),
    ensures
        ({
            let rows = state.step_choices(draft);
            let profile = state.offered_profiles(draft)[i];
            let row = rows[i + 1];
            &&& rows.len() == state.offered_profiles(draft).len() + 1
            &&& rows[0].heading && !row.heading && !row.disabled
            &&& row.cells.len() >= 5
            &&& row.cells[1].text == profile.id
            &&& row.cells[0].text == if profile.kind == HarnessKind::Kimi || profile.kind
                == HarnessKind::Muse {
                "⚠"@
            } else {
                ""@
            }
            &&& draft.purpose is New ==> row.cells.len() == 5
            &&& draft.purpose matches PurposeView::Resume(part) ==> {
                let lossy = state.session(part.session_id) matches Some(session)
                    && session.harness_kind != profile.kind;
                &&& lossy ==> row.cells.len() == 6 && row.cells[5].text
                    == "(lossy: text-only transcript)"@
                &&& !lossy ==> row.cells.len() == 5
            }
        }),
{
}

/// A new session is offered the enabled profiles, a resume those that its
/// session can go on with, and a restored archive the enabled ones again.
pub proof fn law_profiles_offered(state: DashboardStateView, draft: DraftView)
    ensures
        draft.purpose is New ==> state.offered_profiles(draft) == enabled_choices(
            state.config.profiles,
        ),
        draft.purpose matches PurposeView::Resume(part) ==> {
            &&& part.source == ResumeSource::Archive ==> state.offered_profiles(draft)
                == enabled_choices(state.config.profiles)
            &&& part.source == ResumeSource::Session ==> (state.session(
                part.session_id,
            ) matches Some(session) ==> state.offered_profiles(draft)
                == session.compatible_profiles)
        },
{
}

/// Every bundle has a row, in the order they are offered in, with its id and
/// the number of its repositories.
pub proof fn law_bundles_listed(state: DashboardStateView, draft: DraftView, i: int)
    requires
        draft.step == WizardStep::Bundle,
        0 <= i < bundle_order(state.config, state.state).len(),
    ensures
        ({
            let rows = state.step_choices(draft);
            let id = bundle_order(state.config, state.state)[i];
            &&& rows.len() == bundle_order(state.config, state.state).len()
            &&& !rows[i].disabled && !rows[i].heading && rows[i].cells.len() == 1
            &&& id.is_prefix_of(rows[i].cells[0].text)
            &&& lookup::<Bundle>(state.config.bundles, id) matches Some(bundle)
                ==> rows[i].cells[0].text == id + "  "@ + decimal(bundle.repositories as nat)
                + " repositories"@
        }),
{
    let id = bundle_order(state.config, state.state)[i];
    let text = state.bundle_row(id).cells[0].text;
    assert(text.take(id.len() as int) =~= id);
}

/// Every target has a row, in its order and by its name. One that cannot be
/// used is greyed out and says why, and the selected one shows its size.
pub proof fn law_targets_listed(state: DashboardStateView, draft: DraftView, i: int)
    requires
        draft.step == WizardStep::Target,
        0 <= i < state.config.targets.len(),
    ensures
        ({
            let rows = state.step_choices(draft);
            let target = state.config.targets[i];
            let refusal = state.target_rejection(draft, target.id);
            let text = rows[i].cells[0].text;
            let named = target.id + "  "@ + target_label_text(target.template.kind);
            &&& rows.len() == state.config.targets.len()
            &&& rows[i].disabled == (refusal is Some)
            &&& named.is_prefix_of(text)
            &&& refusal matches Some(reason) ==> reason.is_suffix_of(text)
            &&& refusal is None && i == draft.target ==> text == named + allocation_label_text(
                draft.resource_allocation,
                draft.sizing_error,
            )
        }),
{
    let target = state.config.targets[i];
    let named = target.id + "  "@ + target_label_text(target.template.kind);
    let text = state.target_row(draft, target).cells[0].text;
    assert(text.take(named.len() as int) =~= named);
    if let Some(reason) = state.target_rejection(draft, target.id) {
        assert(reason.is_suffix_of(text));
    }
}

/// A list shows what is selected in the draft, can be left backwards from the
/// second step on, and forwards where what is selected can be gone on with.
pub proof fn law_list_navigation(state: DashboardStateView, draft: DraftView)
    ensures
        ({
            let navigation = state.step_navigation(draft);
            &&& draft.step == WizardStep::Profile ==> {
                &&& !navigation.has_back && navigation.next_enabled
                &&& navigation.selected == draft.profile
                &&& navigation.control == WizardControl::ProfileList
            }
            &&& draft.step == WizardStep::Target ==> {
                let target = state.config.targets[draft.target as int];
                &&& navigation.has_back && navigation.selected == draft.target
                &&& navigation.control == WizardControl::TargetList
                &&& navigation.next_enabled <==> {
                    &&& state.target_rejection(draft, target.id) is None
                    &&& target.template.kind == TargetKind::AwsEc2 ==> draft.resource_allocation
                        is Some
                }
            }
            &&& draft.step == WizardStep::Bundle ==> {
                &&& navigation.has_back && navigation.selected == draft.new_part().bundle
                &&& navigation.control == WizardControl::BundleList
                &&& navigation.next_enabled <==> state.config.bundles.len() > 0
            }
        }),
{
}

/// A list takes the whole width of a narrow area, and every screen takes more
/// than half of any.
pub proof fn law_screen_width(screen: WizardScreenView, area_width: u16)
    ensures
        screen is Picker && area_width < 64 ==> screen.width_percent(area_width) == 100,
        50 < screen.width_percent(area_width) <= 100,
{
}

/// Each step has the screen that it is for.
/// Each step has the screen that it is for.
pub proof fn law_step_has_screen(
    state: DashboardStateView,
    draft: DraftView,
    refresh_key: Option<Seq<char>>,
    popup_rows: u16,
)
    ensures
        draft.purpose is New ==> {
            let screen = state.new_screen(draft, refresh_key, popup_rows);
            &&& draft.step == WizardStep::Review ==> screen is Review
            &&& draft.step == WizardStep::ProjectDirectory ==> screen is Directory
            &&& draft.step == WizardStep::Mounts ==> screen is Mounts
            &&& draft.step == WizardStep::NewBundle ==> screen is NewBundle
            &&& draft.step == WizardStep::Profile || draft.step == WizardStep::Target || draft.step
                == WizardStep::Bundle ==> screen is Picker
        },
        draft.purpose is Resume ==> {
            let screen = state.resume_screen(draft, refresh_key);
            &&& draft.step == WizardStep::Review ==> screen is Review
            &&& draft.step == WizardStep::Mounts ==> screen is Mounts
            &&& draft.step == WizardStep::Profile || draft.step == WizardStep::Target ==> screen
                is Picker
        },
{
}

/// A step of a new session whose only way forward is the pinned action has
/// that action enabled.
/// A step of a new session whose only way forward is the pinned action has
/// that action enabled.
pub proof fn law_bundle_step_has_way_forward(state: DashboardStateView, draft: DraftView)
    requires
        draft.step == WizardStep::Bundle,
    ensures
        ({
            let navigation = state.step_navigation(draft);
            navigation.next_enabled || (navigation.pinned_action matches Some(action)
                && action.enabled)
        }),
{
}

/// A target that is greyed out in the list cannot be gone on with while it is
/// the selected one.
pub proof fn law_greyed_target_refused(state: DashboardStateView, draft: DraftView)
    requires
        draft.step == WizardStep::Target,
        draft.target < state.config.targets.len(),
        state.step_choices(draft)[draft.target as int].disabled,
    ensures
        !state.step_navigation(draft).next_enabled,
{
}

} // verus!
