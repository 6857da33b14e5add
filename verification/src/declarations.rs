//! The controls that each step of a wizard declares.

use vstd::prelude::*;

use crate::catalog::enabled_profiles;
#[allow(unused_imports)]
use crate::catalog::enabled_choices;
use crate::controls::{
    declare, declare_button, declare_button_where, declare_where, ControlKind, Declaration,
};
#[allow(unused_imports)]
use crate::controls::{button, declared, with_control};
use crate::dashboard_state::DashboardState;
#[allow(unused_imports)]
use crate::dashboard_state::DashboardStateView;
use crate::drafts::{Draft, MountWizard, NewSession, Purpose, WizardControl, WizardStep};
#[allow(unused_imports)]
use crate::drafts::{DraftView, MountWizardView, NewSessionView, PurposeView};
#[allow(unused_imports)]
use crate::duplicate::{group_views, views};
#[allow(unused_imports)]
use crate::form_screens::shown_history;
use crate::mounts::access_index;
#[allow(unused_imports)]
use crate::mounts::{access_row, offered_access};
#[allow(unused_imports)]
use crate::records::TargetKind;
use crate::review::ReviewPage;
#[allow(unused_imports)]
use crate::review::ReviewPageView;
use crate::text::is_blank;
#[allow(unused_imports)]
use crate::text::trimmed;

verus! {

// --- Buttons of the steps ---

/// The list followed by the buttons that move between steps.
pub open spec fn with_steps(list: Seq<Declaration>, has_back: bool, next_enabled: bool) -> Seq<
    Declaration,
> {
    with_control(
        list.push(button(WizardControl::Cancel, true)),
        has_back,
        button(WizardControl::Back, true),
    ).push(button(WizardControl::Next, next_enabled))
}

pub fn declare_wizard_buttons(list: &mut Vec<Declaration>, has_back: bool, next_enabled: bool)
    ensures
        final(list)@ == with_steps(old(list)@, has_back, next_enabled),
{
    declare_button(list, WizardControl::Cancel, true);
    declare_button_where(list, has_back, WizardControl::Back, true);
    declare_button(list, WizardControl::Next, next_enabled);
}

// --- The attachment editor ---

impl MountWizardView {
    /// The list of access modes as a control.
    pub open spec fn access_control(self) -> ControlKind {
        let choices = offered_access(self.overlay_barrier().is_some());
        ControlKind::ComboBox {
            len: choices.len() as usize,
            selected: match self.access_combo {
                Some(row) => row,
                None => access_row(choices, self.access) as usize,
            },
            expanded: self.access_combo is Some,
        }
    }

    /// The controls of the attachment editor.
    pub open spec fn editor_controls(self) -> Seq<Declaration> {
        Seq::empty().push(
            declared(
                WizardControl::MountSource,
                ControlKind::PathField { completing: self.source.completing },
                true,
            ),
        ).push(declared(WizardControl::MountDestination, ControlKind::TextField, true)).push(
            declared(WizardControl::MountAccess, self.access_control(), true),
        ).push(button(WizardControl::Cancel, true)).push(button(WizardControl::Back, true)).push(
            button(WizardControl::Add, true),
        )
    }
}

impl MountWizard {
    /// The list of access modes as a control.
    pub fn access_combo_kind(&self) -> (kind: ControlKind)
        ensures
            kind == self@.access_control(),
    {
        let choices = self.access_choices();
        ControlKind::ComboBox {
            len: choices.len(),
            selected: match self.access_combo {
                Some(row) => row,
                None => access_index(&choices, self.access),
            },
            expanded: self.access_combo.is_some(),
        }
    }

    /// The controls of the attachment editor. Enter presses the last.
    pub fn declare_mount_controls(&self) -> (list: Vec<Declaration>)
        ensures
            list@ == self@.editor_controls(),
    {
        let access = self.access_combo_kind();
        let mut list: Vec<Declaration> = Vec::new();
        declare(
            &mut list,
            WizardControl::MountSource,
            ControlKind::PathField { completing: self.source.completing },
            true,
        );
        declare(&mut list, WizardControl::MountDestination, ControlKind::TextField, true);
        declare(&mut list, WizardControl::MountAccess, access, true);
        declare_button(&mut list, WizardControl::Cancel, true);
        declare_button(&mut list, WizardControl::Back, true);
        declare_button(&mut list, WizardControl::Add, true);
        list
    }
}

// --- The review ---

impl ReviewPageView {
    /// The controls of a review.
    pub open spec fn controls(self) -> Seq<Declaration> {
        let list = with_control(
            Seq::empty(),
            self.mounts.len() > 0,
            declared(
                WizardControl::ReviewAttachments,
                ControlKind::ChoiceList {
                    len: self.mounts.len() as usize,
                    selected: self.selected_mount,
                },
                true,
            ),
        );
        let list = with_control(
            list,
            self.worktree is Some,
            declared(
                WizardControl::CreateManagedWorktree,
                ControlKind::Checkbox,
                (self.worktree matches Some(choice) && choice.available),
            ),
        );
        let list = with_control(
            list,
            self.subagents is Some,
            declared(WizardControl::MjolnirSubagents, ControlKind::Checkbox, true),
        );
        let list = with_control(
            list,
            self.queue is Some,
            declared(WizardControl::DiscardQueue, ControlKind::Checkbox, true),
        );
        with_control(
            list.push(button(WizardControl::Cancel, true)).push(button(WizardControl::Back, true)),
            self.can_attach(),
            button(WizardControl::Add, true),
        ).push(button(WizardControl::Submit, self.can_submit()))
    }
}

impl ReviewPage {
    /// The controls of a review. Enter presses the last.
    pub fn declare_review_controls(&self) -> (list: Vec<Declaration>)
        ensures
            list@ == self@.controls(),
    {
        broadcast use group_views;

        let attached = self.mounts.len();
        let available = match &self.worktree {
            Some(choice) => choice.available,
            None => false,
        };
        let attaches = self.attaches();
        let submits = self.submits();
        let mut list: Vec<Declaration> = Vec::new();
        declare_where(
            &mut list,
            attached > 0,
            WizardControl::ReviewAttachments,
            ControlKind::ChoiceList { len: attached, selected: self.selected_mount },
            true,
        );
        declare_where(
            &mut list,
            self.worktree.is_some(),
            WizardControl::CreateManagedWorktree,
            ControlKind::Checkbox,
            available,
        );
        declare_where(
            &mut list,
            self.subagents.is_some(),
            WizardControl::MjolnirSubagents,
            ControlKind::Checkbox,
            true,
        );
        declare_where(
            &mut list,
            self.queue.is_some(),
            WizardControl::DiscardQueue,
            ControlKind::Checkbox,
            true,
        );
        declare_button(&mut list, WizardControl::Cancel, true);
        declare_button(&mut list, WizardControl::Back, true);
        declare_button_where(&mut list, attaches, WizardControl::Add, true);
        declare_button(&mut list, WizardControl::Submit, submits);
        list
    }
}

/// The controls of a review are those of what it asks about: the attachments
/// where there are some, each checkbox where its choice is offered, and the
/// button that adds where something can be attached. A worktree can be asked
/// for only where one can be made.
pub proof fn law_review_controls(page: ReviewPageView)
    ensures
        ({
            let controls = page.controls();
            let has = |control: WizardControl|
                exists|i: int| 0 <= i < controls.len() && (#[trigger] controls[i]).control == control;
            &&& has(WizardControl::Cancel) && has(WizardControl::Back) && has(WizardControl::Submit)
            &&& has(WizardControl::ReviewAttachments) <==> page.mounts.len() > 0
            &&& has(WizardControl::CreateManagedWorktree) <==> page.worktree is Some
            &&& has(WizardControl::MjolnirSubagents) <==> page.subagents is Some
            &&& has(WizardControl::DiscardQueue) <==> page.queue is Some
            &&& has(WizardControl::Add) <==> page.target.template.mount_host is Some
            &&& forall|i: int|
                0 <= i < controls.len() && (#[trigger] controls[i]).control
                    == WizardControl::CreateManagedWorktree ==> controls[i].enabled == (
                page.worktree matches Some(choice) && choice.available)
        }),
{
    lemma_review_controls(page);
}

proof fn lemma_review_controls(page: ReviewPageView)
    ensures
        ({
            let controls = page.controls();
            let listed: int = if page.mounts.len() > 0 {
                1
            } else {
                0
            };
            let worktree: int = listed + if page.worktree is Some {
                1int
            } else {
                0
            };
            let subagents: int = worktree + if page.subagents is Some {
                1int
            } else {
                0
            };
            let queue: int = subagents + if page.queue is Some {
                1int
            } else {
                0
            };
            let attaches: int = if page.can_attach() {
                1
            } else {
                0
            };
            &&& controls.len() == queue + 3 + attaches
            &&& listed == 1 ==> controls[0].control == WizardControl::ReviewAttachments
            &&& worktree > listed ==> controls[listed].control
                == WizardControl::CreateManagedWorktree
            &&& subagents > worktree ==> controls[worktree].control
                == WizardControl::MjolnirSubagents
            &&& queue > subagents ==> controls[subagents].control == WizardControl::DiscardQueue
            &&& controls[queue].control == WizardControl::Cancel
            &&& controls[queue + 1].control == WizardControl::Back
            &&& attaches == 1 ==> controls[queue + 2].control == WizardControl::Add
            &&& controls.last().control == WizardControl::Submit
        }),
{
}

/// The review's last button and the last control of its form agree on whether
/// it can be submitted.
pub proof fn law_submit_button_agrees(page: ReviewPageView)
    ensures
        page.controls().last().control == page.buttons().last().control,
        page.controls().last().enabled == page.buttons().last().enabled,
{
}

// --- The project directory ---

/// The buttons of the remembered directories that are shown.
pub open spec fn recent_controls(list: Seq<Declaration>, count: nat) -> Seq<Declaration>
    decreases count,
{
    if count == 0 {
        list
    } else {
        recent_controls(list, (count - 1) as nat).push(
            button(WizardControl::RecentProject((count - 1) as usize), true),
        )
    }
}

impl NewSessionView {
    /// The controls of the project directory's step.
    pub open spec fn directory_controls(self) -> Seq<Declaration> {
        with_steps(
            recent_controls(
                Seq::empty().push(
                    declared(
                        WizardControl::ProjectDirectory,
                        ControlKind::PathField { completing: self.project_directory.completing },
                        true,
                    ),
                ),
                shown_history(self.project_history).len(),
            ),
            true,
            true,
        )
    }
}

impl NewSession {
    fn declare_directory_controls(&self) -> (list: Vec<Declaration>)
        ensures
            list@ == self@.directory_controls(),
    {
        broadcast use group_views;

        let count = if self.project_history.len() > 5 {
            5
        } else {
            self.project_history.len()
        };
        let mut list: Vec<Declaration> = Vec::new();
        declare(
            &mut list,
            WizardControl::ProjectDirectory,
            ControlKind::PathField { completing: self.project_directory.completing },
            true,
        );
        let ghost first = list@;
        let mut i: usize = 0;
        while i < count
            invariant
                i <= count,
                list@ == recent_controls(first, i as nat),
            decreases count - i,
        {
            declare_button(&mut list, WizardControl::RecentProject(i), true);
            i = i + 1;
        }
        declare_wizard_buttons(&mut list, true, true);
        list
    }
}

// --- The bundle editor ---

impl NewSessionView {
    /// The controls of the bundle editor, in order.
    pub open spec fn editor_controls(self) -> Seq<Declaration> {
        let ready = !self.bundle_creation_in_flight;
        let listed = self.new_bundle_repositories.len();
        with_control(
            Seq::empty(),
            listed > 0,
            declared(
                WizardControl::NewBundleRepositories,
                ControlKind::ChoiceList { len: listed as usize, selected: self.new_bundle_selected },
                ready,
            ),
        ).push(
            declared(
                WizardControl::NewBundleSource,
                ControlKind::PathField { completing: self.new_bundle_source.completing },
                true,
            ),
        ).push(
            button(WizardControl::Add, ready && trimmed(self.new_bundle_source.text).len() > 0),
        ).push(button(WizardControl::NewBundleRemove, ready && listed > 0)).push(
            button(WizardControl::Cancel, ready),
        ).push(button(WizardControl::Back, ready)).push(
            button(WizardControl::Next, ready && self.bundle_sources().len() > 0),
        )
    }
}

impl NewSession {
    fn declare_editor_controls(&self) -> (list: Vec<Declaration>)
        ensures
            list@ == self@.editor_controls(),
    {
        broadcast use group_views;

        let ready = !self.bundle_creation_in_flight;
        let listed = self.new_bundle_repositories.len();
        let typed = !is_blank(self.new_bundle_source.text.as_str());
        let submits = self.new_bundle_sources_for_submit().len() > 0;
        let mut list: Vec<Declaration> = Vec::new();
        declare_where(
            &mut list,
            listed > 0,
            WizardControl::NewBundleRepositories,
            ControlKind::ChoiceList { len: listed, selected: self.new_bundle_selected },
            ready,
        );
        declare(
            &mut list,
            WizardControl::NewBundleSource,
            ControlKind::PathField { completing: self.new_bundle_source.completing },
            true,
        );
        declare_button(&mut list, WizardControl::Add, ready && typed);
        declare_button(&mut list, WizardControl::NewBundleRemove, ready && listed > 0);
        declare_button(&mut list, WizardControl::Cancel, ready);
        declare_button(&mut list, WizardControl::Back, ready);
        declare_button(&mut list, WizardControl::Next, ready && submits);
        list
    }
}

/// The bundle editor's buttons and the last controls of its form agree on
/// what can be pressed.
pub proof fn law_editor_buttons_agree(part: NewSessionView, i: int)
    requires
        0 <= i < 3,
    ensures
        ({
            let controls = part.editor_controls();
            let control = controls[controls.len() - 3 + i];
            let drawn = part.bundle_screen().buttons[i];
            control.control == drawn.control && control.enabled == drawn.enabled
        }),
{
}

// --- Every step ---

impl DashboardStateView {
    /// What the controls of the draft's step are about is there, and the step
    /// is one that its kind has.
    pub open spec fn step_stands(self, draft: DraftView) -> bool {
        let reviewed = draft.step == WizardStep::Review;
        &&& reviewed || draft.step == WizardStep::Target ==> draft.target
            < self.config.targets.len()
        &&& match draft.purpose {
            PurposeView::New(_) => reviewed ==> draft.profile < enabled_choices(
                self.config.profiles,
            ).len() && self.bundle_chosen(draft),
            PurposeView::Resume(_) => reviewed || draft.step == WizardStep::Profile || draft.step
                == WizardStep::Target || draft.step == WizardStep::Mounts,
        }
    }

    /// The review of a draft.
    pub open spec fn review_of(self, draft: DraftView) -> ReviewPageView {
        match draft.purpose {
            PurposeView::New(_) => self.new_review(draft),
            PurposeView::Resume(_) => self.resume_review(draft),
        }
    }

    /// The controls of the draft's step, in order.
    pub open spec fn step_controls(self, draft: DraftView) -> Seq<Declaration> {
        match draft.step {
            WizardStep::Profile => with_steps(
                Seq::empty().push(
                    declared(
                        WizardControl::ProfileList,
                        ControlKind::ChoiceList {
                            len: self.offered_profiles(draft).len() as usize,
                            selected: draft.profile,
                        },
                        true,
                    ),
                ),
                false,
                true,
            ),
            WizardStep::Target => with_steps(
                Seq::empty().push(
                    declared(
                        WizardControl::TargetList,
                        ControlKind::ChoiceList {
                            len: self.config.targets.len() as usize,
                            selected: draft.target,
                        },
                        true,
                    ),
                ),
                true,
                self.target_settled(draft),
            ),
            WizardStep::Mounts => draft.mounts.editor_controls(),
            WizardStep::Review => self.review_of(draft).controls(),
            WizardStep::Bundle => self.bundle_step_controls(draft.new_part()),
            WizardStep::NewBundle => draft.new_part().editor_controls(),
            WizardStep::ProjectDirectory => draft.new_part().directory_controls(),
        }
    }

    /// The controls of the bundle list's step. Without a bundle there is
    /// nothing to select, so the creator is the only way forward.
    pub open spec fn bundle_step_controls(self, part: NewSessionView) -> Seq<Declaration> {
        let count = self.config.bundles.len();
        Seq::empty().push(
            declared(
                WizardControl::BundleList,
                ControlKind::ChoiceList { len: count as usize, selected: part.bundle },
                count > 0,
            ),
        ).push(button(WizardControl::Cancel, true)).push(button(WizardControl::Back, true)).push(
            button(WizardControl::Add, true),
        ).push(button(WizardControl::Next, count > 0))
    }

    /// The rows of the target list that can be used.
    pub open spec fn usable_targets(self, draft: DraftView) -> Seq<bool> {
        Seq::new(
            self.config.targets.len(),
            |i: int| self.target_rejection(draft, self.config.targets[i].id) is None,
        )
    }

    /// The button that Enter presses where the focus has no use for it.
    pub open spec fn default_action(self, draft: DraftView) -> WizardControl {
        match draft.step {
            WizardStep::Mounts => WizardControl::Add,
            WizardStep::Review => WizardControl::Submit,
            WizardStep::Bundle => if self.config.bundles.len() == 0 {
                WizardControl::Add
            } else {
                WizardControl::Next
            },
            _ => WizardControl::Next,
        }
    }
}

/// Every step can be closed; each list has as many rows as it has things to
/// offer and starts on the selected one, and going on is possible exactly where
/// what is selected can be gone on with.
pub proof fn law_list_step_controls(state: DashboardStateView, draft: DraftView)
    requires
        state.config.targets.len() <= usize::MAX,
        state.offered_profiles(draft).len() <= usize::MAX,
    ensures
        ({
            let controls = state.step_controls(draft);
            let target = state.config.targets[draft.target as int];
            &&& draft.step == WizardStep::Profile ==> {
                &&& controls[0].control == WizardControl::ProfileList
                &&& controls[0].kind matches ControlKind::ChoiceList { len, selected }
                &&& len == state.offered_profiles(draft).len() && selected == draft.profile
                &&& controls.len() == 3
                &&& controls[1].control == WizardControl::Cancel && controls[1].enabled
                &&& controls[2].control == WizardControl::Next && controls[2].enabled
            }
            &&& draft.step == WizardStep::Target ==> {
                &&& controls[0].control == WizardControl::TargetList
                &&& controls[0].kind matches ControlKind::ChoiceList { len, selected }
                &&& len == state.config.targets.len() && selected == draft.target
                &&& controls.len() == 4
                &&& controls[1].control == WizardControl::Cancel && controls[1].enabled
                &&& controls[2].control == WizardControl::Back && controls[2].enabled
                &&& controls[3].control == WizardControl::Next
                &&& controls[3].enabled <==> {
                    &&& state.target_rejection(draft, target.id) is None
                    &&& target.template.kind == TargetKind::AwsEc2 ==> draft.resource_allocation
                        is Some
                }
            }
        }),
{
}

/// Each remembered directory that is shown has a button of its own, under its
/// number, and at most five are.
pub proof fn law_remembered_directory_buttons(part: NewSessionView, i: int)
    requires
        0 <= i < part.project_history.len(),
        i < 5,
    ensures
        part.directory_controls()[i + 1].control == WizardControl::RecentProject(i as usize),
        part.directory_controls()[i + 1].enabled,
        part.project_history.len() <= 5 ==> part.directory_controls().len()
            == part.project_history.len() + 4,
        part.project_history.len() > 5 ==> part.directory_controls().len() == 9,
{
    let start = Seq::empty().push(
        declared(
            WizardControl::ProjectDirectory,
            ControlKind::PathField { completing: part.project_directory.completing },
            true,
        ),
    );
    lemma_recent_controls(start, shown_history(part.project_history).len(), i);
}

proof fn lemma_recent_controls(list: Seq<Declaration>, count: nat, i: int)
    requires
        0 <= i < count <= usize::MAX,
    ensures
        recent_controls(list, count).len() == list.len() + count,
        recent_controls(list, count)[list.len() + i] == button(
            WizardControl::RecentProject(i as usize),
            true,
        ),
    decreases count,
{
    if i < count - 1 {
        lemma_recent_controls(list, (count - 1) as nat, i);
    } else if count > 1 {
        lemma_recent_controls(list, (count - 1) as nat, 0);
    } else {
        assert(recent_controls(list, 0) == list);
    }
}

/// A row of the target list is enabled just where it is not greyed out.
pub proof fn law_enabled_rows_agree(state: DashboardStateView, draft: DraftView, i: int)
    requires
        draft.step == WizardStep::Target,
        0 <= i < state.config.targets.len(),
    ensures
        state.usable_targets(draft)[i] == !state.step_choices(draft)[i].disabled,
{
}

/// On the bundle list's step Enter always leads somewhere: its button is one
/// of the step's, and it is enabled.
pub proof fn law_bundle_enter_leads_on(state: DashboardStateView, draft: DraftView)
    requires
        draft.step == WizardStep::Bundle,
    ensures
        state.step_controls(draft).contains(button(state.default_action(draft), true)),
{
    let controls = state.step_controls(draft);
    if state.config.bundles.len() == 0 {
        assert(controls[3] == button(WizardControl::Add, true));
    } else {
        assert(controls[4] == button(WizardControl::Next, true));
    }
}

impl DashboardState {
    fn profile_count(&self, draft: &Draft) -> (count: usize)
        ensures
            count == self@.offered_profiles(draft@).len(),
    {
        broadcast use group_views;

        match &draft.purpose {
            Purpose::New(_) => enabled_profiles(&self.config).len(),
            Purpose::Resume(part) => self.resume_wizard_profiles(part).len(),
        }
    }

    fn page_of(&self, draft: &Draft) -> (page: ReviewPage)
        requires
            self@.step_stands(draft@),
            draft.step == WizardStep::Review,
        ensures
            page@ == self@.review_of(draft@),
    {
        match &draft.purpose {
            Purpose::New(part) => self.new_review_page(draft, part),
            Purpose::Resume(part) => self.resume_review_page(draft, part),
        }
    }

    fn declare_bundle_step(&self, part: &NewSession) -> (list: Vec<Declaration>)
        ensures
            list@ == self@.bundle_step_controls(part@),
    {
        broadcast use group_views;

        let count = self.config.bundles.len();
        let mut list: Vec<Declaration> = Vec::new();
        declare(
            &mut list,
            WizardControl::BundleList,
            ControlKind::ChoiceList { len: count, selected: part.bundle },
            count > 0,
        );
        declare_button(&mut list, WizardControl::Cancel, true);
        declare_button(&mut list, WizardControl::Back, true);
        declare_button(&mut list, WizardControl::Add, true);
        declare_button(&mut list, WizardControl::Next, count > 0);
        list
    }

    fn declare_extra_step(&self, draft: &Draft) -> (list: Vec<Declaration>)
        requires
            draft@.purpose is New,
            draft.step == WizardStep::Bundle || draft.step == WizardStep::NewBundle || draft.step
                == WizardStep::ProjectDirectory,
        ensures
            list@ == self@.step_controls(draft@),
    {
        match &draft.purpose {
            Purpose::New(part) => match draft.step {
                WizardStep::Bundle => self.declare_bundle_step(part),
                WizardStep::NewBundle => part.declare_editor_controls(),
                _ => part.declare_directory_controls(),
            },
            Purpose::Resume(_) => Vec::new(),
        }
    }

    /// The controls of the draft's step, in order.
    pub fn declare_wizard_controls(&self, draft: &Draft) -> (list: Vec<Declaration>)
        requires
            self@.step_stands(draft@),
        ensures
            list@ == self@.step_controls(draft@),
    {
        broadcast use group_views;

        let targets = self.config.targets.len();
        match draft.step {
            WizardStep::Profile => {
                let len = self.profile_count(draft);
                let mut list: Vec<Declaration> = Vec::new();
                declare(
                    &mut list,
                    WizardControl::ProfileList,
                    ControlKind::ChoiceList { len, selected: draft.profile },
                    true,
                );
                declare_wizard_buttons(&mut list, false, true);
                list
            },
            WizardStep::Target => {
                let enabled = self.target_advance_enabled(draft);
                let mut list: Vec<Declaration> = Vec::new();
                declare(
                    &mut list,
                    WizardControl::TargetList,
                    ControlKind::ChoiceList { len: targets, selected: draft.target },
                    true,
                );
                declare_wizard_buttons(&mut list, true, enabled);
                list
            },
            WizardStep::Mounts => draft.mounts.declare_mount_controls(),
            WizardStep::Review => self.page_of(draft).declare_review_controls(),
            _ => self.declare_extra_step(draft),
        }
    }

    /// The rows of the target list that can be used.
    pub fn enabled_target_rows(&self, draft: &Draft) -> (rows: Vec<bool>)
        ensures
            rows@ == self@.usable_targets(draft@),
    {
        broadcast use group_views;

        let ghost all = self@.config.targets;
        let mut rows: Vec<bool> = Vec::new();
        let mut i: usize = 0;
        while i < self.config.targets.len()
            invariant
                i <= self.config.targets.len(),
                all == self@.config.targets,
                all == views(self.config.targets@),
                rows.len() == i,
                forall|j: int|
                    0 <= j < i ==> #[trigger] rows@[j] == (self@.target_rejection(
                        draft@,
                        all[j].id,
                    ) is None),
            decreases self.config.targets.len() - i,
        {
            assert(all[i as int] == self.config.targets@[i as int]@);
            rows.push(
                self.draft_target_rejection(
                    draft,
                    self.config.targets[i].id.as_str(),
                ).is_none(),
            );
            i = i + 1;
        }
        assert(rows@ =~= self@.usable_targets(draft@));
        rows
    }

    /// The button that Enter presses where the focus has no use for it.
    pub fn default_wizard_action(&self, draft: &Draft) -> (control: WizardControl)
        ensures
            control == self@.default_action(draft@),
    {
        broadcast use group_views;

        match draft.step {
            WizardStep::Mounts => WizardControl::Add,
            WizardStep::Review => WizardControl::Submit,
            WizardStep::Bundle => if self.config.bundles.len() == 0 {
                WizardControl::Add
            } else {
                WizardControl::Next
            },
            _ => WizardControl::Next,
        }
    }
}

} // verus!
