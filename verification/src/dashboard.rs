//! What every part of the dashboard can ask of its state.

use vstd::prelude::*;

use crate::catalog::enabled_profiles;
#[allow(unused_imports)]
use crate::catalog::{bundle_order, enabled_choices};
use crate::dashboard_state::{DashboardState, Mode, Notice};
#[allow(unused_imports)]
use crate::dashboard_state::SessionOperation;
#[allow(unused_imports)]
use crate::dashboard_state::{DashboardStateView, ModeView, NoticeView};
use crate::drafts::{Draft, ResumeSource, Resumption, WizardStep};
#[allow(unused_imports)]
use crate::drafts::ForcedSource;
#[allow(unused_imports)]
use crate::drafts::{DraftView, PurposeView, ResumptionView};
use crate::duplicate::{same_text, Duplicate};
#[allow(unused_imports)]
use crate::duplicate::{group_views, views};
use crate::lists::find;
#[allow(unused_imports)]
use crate::lists::{first_where, lemma_first_found, lemma_none_found, lookup};
use crate::records::{CompatibleProfile, HostPaths, SessionRecord, TargetKind};
#[allow(unused_imports)]
use crate::records::{
    Bundle, CapacityDetailView, CompatibleProfileView, ConfigView, HostPathsView, HostSize,
    Profile, SessionDetail, SessionRecordView, StateView, Target, TargetReadiness, TargetSizes,
    TargetTemplateView, TargetView,
};
#[allow(unused_imports)]
use crate::tables::keys_increase;

verus! {

/// The number after `n`; the first again after the last.
pub open spec fn following(n: u64) -> u64 {
    if n == u64::MAX {
        0
    } else {
        (n + 1) as u64
    }
}

pub fn following_number(n: u64) -> (next: u64)
    ensures
        next == following(n),
{
    if n == u64::MAX {
        0
    } else {
        n + 1
    }
}

impl ConfigView {
    /// Profiles, bundles and targets are in the order of their ids, and no id
    /// occurs twice.
    pub open spec fn in_order(self) -> bool {
        &&& keys_increase::<Profile>(self.profiles)
        &&& keys_increase::<Bundle>(self.bundles)
        &&& keys_increase::<Target>(self.targets)
    }
}

impl StateView {
    /// Sessions are in the order of their ids, and what is remembered of hosts
    /// in the order of the hosts; none occurs twice.
    pub open spec fn in_order(self) -> bool {
        &&& keys_increase::<SessionRecord>(self.sessions)
        &&& keys_increase::<HostPaths>(self.mount_history)
        &&& keys_increase::<HostPaths>(self.project_directories)
        &&& keys_increase::<HostSize>(self.container_sizes)
    }
}

impl DraftView {
    /// The sizes are in the order of their targets, and the sources that
    /// cannot hold an overlay in theirs; none occurs twice.
    pub open spec fn in_order(self) -> bool {
        &&& keys_increase::<TargetSizes>(self.aws_options)
        &&& keys_increase::<ForcedSource>(self.mounts.forced_sources)
    }
}

impl DashboardStateView {
    // --- Looking up ---

    pub open spec fn target(self, index: usize) -> TargetView {
        self.config.targets[index as int]
    }

    pub open spec fn template(self, index: usize) -> TargetTemplateView {
        self.config.targets[index as int].template
    }

    pub open spec fn session(self, id: Seq<char>) -> Option<SessionRecordView> {
        lookup::<SessionRecord>(self.state.sessions, id)
    }

    /// The profiles that a recorded session can resume with.
    pub open spec fn compatible(self, session_id: Seq<char>) -> Seq<CompatibleProfileView> {
        match self.session(session_id) {
            Some(session) => session.compatible_profiles,
            None => seq![],
        }
    }

    /// The profiles the resume wizard offers. A record's resume is limited to
    /// the profiles compatible with it; an archived session has no record, so
    /// every enabled profile can carry its summary.
    pub open spec fn resume_choices(self, part: ResumptionView) -> Seq<CompatibleProfileView> {
        match part.source {
            ResumeSource::Session => self.compatible(part.session_id),
            ResumeSource::Archive => enabled_choices(self.config.profiles),
        }
    }

    /// What the host behind a target has: its processors and its memory.
    pub open spec fn host_limits(self, target_id: Seq<char>) -> Option<(u64, u64)> {
        match first_where(self.capacity_details, serves(target_id)) {
            Some(detail) => match detail.usage {
                Some(usage) => Some((usage.logical_cores, usage.memory_total_bytes)),
                None => None,
            },
            None => None,
        }
    }

    // --- Drafts that fit ---

    /// The draft's target is in its list.
    pub open spec fn has_target(self, draft: DraftView) -> bool {
        draft.target < self.config.targets.len()
    }

    /// Every table of the dashboard is in the order of its keys, and no key
    /// occurs twice.
    pub open spec fn in_order(self) -> bool {
        &&& self.config.in_order()
        &&& self.state.in_order()
        &&& keys_increase::<SessionDetail>(self.session_details)
        &&& keys_increase::<TargetReadiness>(self.target_readiness)
        &&& keys_increase::<SessionOperation>(self.operations)
    }

    /// The draft refers only to what there is: its target and its profile are
    /// in their lists, and it is on a step that its kind has. What it is held
    /// against is in order, and so are its own tables.
    pub open spec fn fits(self, draft: DraftView) -> bool {
        &&& self.in_order()
        &&& draft.in_order()
        &&& draft.target < self.config.targets.len()
        &&& draft.step == WizardStep::Mounts ==> draft.mounts.edit_valid()
        &&& match draft.purpose {
            PurposeView::New(part) => {
                &&& draft.profile < enabled_choices(self.config.profiles).len()
                &&& part.project_history.len() > 0 ==> part.project_history_index
                    < part.project_history.len()
                &&& draft.step == WizardStep::ProjectDirectory ==> self.template(
                    draft.target,
                ).bare_project
                &&& (draft.step == WizardStep::Review || draft.step == WizardStep::Mounts)
                    && !self.template(draft.target).bare_project ==> part.bundle < bundle_order(
                    self.config,
                    self.state,
                ).len()
            },
            PurposeView::Resume(part) => {
                &&& draft.profile < self.resume_choices(part).len()
                &&& draft.step == WizardStep::Profile || draft.step == WizardStep::Target
                    || draft.step == WizardStep::Review || draft.step == WizardStep::Mounts
            },
        }
    }

    /// The tables are in order, and the draft on screen, if there is one,
    /// fits.
    pub open spec fn well_formed(self) -> bool {
        &&& self.in_order()
        &&& self.mode matches ModeView::Wizard(draft) ==> self.fits(draft)
    }

    // --- Changing what is shown ---

    pub open spec fn showing(self, draft: DraftView) -> DashboardStateView {
        DashboardStateView { mode: ModeView::Wizard(draft), ..self }
    }

    pub open spec fn noting(self, text: Seq<char>) -> DashboardStateView {
        DashboardStateView { notice: Some(NoticeView { text, failure: false }), ..self }
    }

    pub open spec fn noting_failure(self, text: Seq<char>) -> DashboardStateView {
        DashboardStateView { notice: Some(NoticeView { text, failure: true }), ..self }
    }

    /// Answers to checks begun before are dropped from now on.
    pub open spec fn preflight_invalidated(self) -> DashboardStateView {
        DashboardStateView { preflight_generation: following(self.preflight_generation), ..self }
    }

    /// The dashboard with its dialog closed. What the dialog asked for in the
    /// background is not answered any more.
    pub open spec fn closed(self) -> DashboardStateView {
        (DashboardStateView { mode: ModeView::Dashboard, ..self }).preflight_invalidated()
    }
}

/// The directories remembered for a host.
pub open spec fn remembered(list: Seq<HostPathsView>, host: Option<Seq<char>>) -> Seq<Seq<char>> {
    match host {
        Some(name) => match lookup::<HostPaths>(list, name) {
            Some(entry) => entry.paths,
            None => seq![],
        },
        None => seq![],
    }
}

/// The directories remembered for a host.
pub fn remembered_paths(list: &Vec<HostPaths>, host: &Option<String>) -> (paths: Vec<String>)
    ensures
        paths.deep_view() == remembered(list.deep_view(), host.deep_view()),
{
    broadcast use group_views;

    match host {
        Some(name) => match find(list, name.as_str()) {
            Some(entry) => entry.paths.duplicate(),
            None => Vec::new(),
        },
        None => Vec::new(),
    }
}

/// Holding the host behind a target.
pub open spec fn serves(target_id: Seq<char>) -> spec_fn(CapacityDetailView) -> bool {
    |detail: CapacityDetailView| detail.target_ids.contains(target_id)
}

/// Only an instance waits for its size; every other target can do without.
pub open spec fn size_settled(draft: DraftView, kind: TargetKind) -> bool {
    draft.resource_allocation.is_some() || kind != TargetKind::AwsEc2
}

/// Whether a list of texts has one of them.
pub fn has_text(list: &Vec<String>, text: &str) -> (found: bool)
    ensures
        found == list.deep_view().contains(text@),
{
    broadcast use group_views;

    let mut i: usize = 0;
    while i < list.len()
        invariant
            i <= list.len(),
            forall|j: int| 0 <= j < i ==> (#[trigger] list@[j])@ != text@,
        decreases list.len() - i,
    {
        if same_text(list[i].as_str(), text) {
            assert(list.deep_view()[i as int] == text@);
            return true;
        }
        i = i + 1;
    }
    proof {
        if list.deep_view().contains(text@) {
            let j = choose|j: int|
                0 <= j < list.deep_view().len() && list.deep_view()[j] == text@;
            assert(list@[j]@ == text@);
        }
    }
    false
}

/// Numbers that are handed out one after the other differ.
pub proof fn law_following_differs(n: u64)
    ensures
        following(n) != n,
        n < u64::MAX ==> following(n) == n + 1,
        n == u64::MAX ==> following(n) == 0,
{
}

/// What a host has is told by the first of the details that serves the target,
/// where it is known there.
pub proof fn law_host_limits_of_target(state: DashboardStateView, target_id: Seq<char>, i: int)
    requires
        0 <= i < state.capacity_details.len(),
        state.capacity_details[i].target_ids.contains(target_id),
        forall|j: int|
            0 <= j < i ==> !(#[trigger] state.capacity_details[j]).target_ids.contains(target_id),
    ensures
        state.capacity_details[i].usage matches Some(usage) ==> state.host_limits(target_id)
            == Some((usage.logical_cores, usage.memory_total_bytes)),
        state.capacity_details[i].usage is None ==> state.host_limits(target_id) is None,
{
    let wanted = serves(target_id);
    assert forall|j: int| 0 <= j < i implies !wanted(#[trigger] state.capacity_details[j]) by {}
    lemma_first_found(state.capacity_details, wanted, i);
}

/// Where no detail serves the target, nothing is known of its host.
pub proof fn law_host_limits_unknown(state: DashboardStateView, target_id: Seq<char>)
    requires
        forall|j: int|
            0 <= j < state.capacity_details.len() ==> !(
            #[trigger] state.capacity_details[j]).target_ids.contains(target_id),
    ensures
        state.host_limits(target_id) is None,
{
    let wanted = serves(target_id);
    assert forall|j: int| 0 <= j < state.capacity_details.len() implies !wanted(
        #[trigger] state.capacity_details[j],
    ) by {}
    lemma_none_found(state.capacity_details, wanted);
}

/// A notice is shown as it is worded, as a failure where it is one; closing a
/// dialog shows the dashboard again.
pub proof fn law_notice_shown(state: DashboardStateView, text: Seq<char>)
    ensures
        state.noting(text).notice matches Some(notice) && notice.text == text && !notice.failure,
        state.noting_failure(text).notice matches Some(notice) && notice.text == text
            && notice.failure,
        state.noting(text).mode == state.mode,
        state.closed().mode == ModeView::Dashboard,
        state.closed().preflight_generation != state.preflight_generation,
        state.closed().notice == state.notice,
{
}

/// A notice, a dropped check and a closed dialog leave a well-formed
/// dashboard well formed, and so does any draft that fits.
pub proof fn law_notices_keep_well_formed(
    state: DashboardStateView,
    text: Seq<char>,
    draft: DraftView,
)
    requires
        state.well_formed(),
    ensures
        state.noting(text).well_formed(),
        state.noting_failure(text).well_formed(),
        state.preflight_invalidated().well_formed(),
        state.closed().well_formed(),
        state.fits(draft) ==> state.showing(draft).well_formed(),
{
}

impl DashboardState {
    pub fn set_notice(&mut self, text: String)
        ensures
            final(self)@ == old(self)@.noting(text@),
    {
        self.notice = Some(Notice { text, failure: false });
    }

    pub fn set_failure_notice(&mut self, text: String)
        ensures
            final(self)@ == old(self)@.noting_failure(text@),
    {
        self.notice = Some(Notice { text, failure: true });
    }

    /// Answers to checks begun before are dropped from now on.
    pub fn invalidate_session_preflight(&mut self)
        ensures
            final(self)@ == old(self)@.preflight_invalidated(),
    {
        self.preflight_generation = following_number(self.preflight_generation);
    }

    pub fn session_preflight_generation(&self) -> (generation: u64)
        ensures
            generation == self@.preflight_generation,
    {
        self.preflight_generation
    }

    /// Close the dialog.
    pub fn cancel_modal(&mut self)
        ensures
            final(self)@ == old(self)@.closed(),
    {
        self.mode = Mode::Dashboard;
        self.invalidate_session_preflight();
    }

    /// Puts a wizard draft on screen.
    pub fn keep(&mut self, draft: Draft)
        ensures
            final(self)@ == old(self)@.showing(draft@),
    {
        self.mode = Mode::Wizard(draft);
    }

    /// Takes the draft off the screen, leaving the dashboard.
    pub fn take_draft(&mut self) -> (draft: Option<Draft>)
        ensures
            match draft {
                Some(taken) => {
                    &&& old(self)@.mode == ModeView::Wizard(taken@)
                    &&& final(self)@ == (DashboardStateView {
                        mode: ModeView::Dashboard,
                        ..old(self)@
                    })
                },
                None => !(old(self)@.mode is Wizard) && final(self)@ == old(self)@,
            },
    {
        let mut mode = Mode::Dashboard;
        std::mem::swap(&mut mode, &mut self.mode);
        match mode {
            Mode::Wizard(draft) => Some(draft),
            other => {
                self.mode = other;
                None
            },
        }
    }

    /// The profiles that a recorded session can resume with.
    pub fn compatible_profiles(&self, session_id: &str) -> (choices: Vec<CompatibleProfile>)
        ensures
            choices.deep_view() == self@.compatible(session_id@),
    {
        broadcast use group_views;

        match find(&self.state.sessions, session_id) {
            Some(session) => session.compatible_profiles.duplicate(),
            None => Vec::new(),
        }
    }

    /// The profiles the resume wizard offers.
    pub fn resume_wizard_profiles(&self, part: &Resumption) -> (choices: Vec<CompatibleProfile>)
        ensures
            choices.deep_view() == self@.resume_choices(part@),
    {
        match part.source {
            ResumeSource::Session => self.compatible_profiles(part.session_id.as_str()),
            ResumeSource::Archive => enabled_profiles(&self.config),
        }
    }

    /// What the host behind a target has: its processors and its memory.
    pub fn host_limits(&self, target_id: &str) -> (limits: Option<(u64, u64)>)
        ensures
            limits == self@.host_limits(target_id@),
    {
        broadcast use group_views;

        let ghost all = self@.capacity_details;
        let ghost wanted = serves(target_id@);
        let mut i: usize = 0;
        while i < self.capacity_details.len()
            invariant
                i <= self.capacity_details.len(),
                all == self@.capacity_details,
                all == views(self.capacity_details@),
                wanted == serves(target_id@),
                forall|j: int| 0 <= j < i ==> !wanted(#[trigger] all[j]),
            decreases self.capacity_details.len() - i,
        {
            let detail = &self.capacity_details[i];
            assert(all[i as int] == detail@);
            if has_text(&detail.target_ids, target_id) {
                proof {
                    lemma_first_found(all, wanted, i as int);
                }
                return match &detail.usage {
                    Some(usage) => Some((usage.logical_cores, usage.memory_total_bytes)),
                    None => None,
                };
            }
            i = i + 1;
        }
        proof {
            lemma_none_found(all, wanted);
        }
        None
    }
}

} // verus!
