//! Opening the session wizards.

use vstd::prelude::*;

use crate::catalog::{
    bundle_ids_by_recent_creation, enabled_profiles, most_recent_configured_session,
};
#[allow(unused_imports)]
use crate::catalog::{bundle_order, enabled_choices, most_recent, recent_session, reusable};
use crate::dashboard::following_number;
#[allow(unused_imports)]
use crate::dashboard::following;
use crate::dashboard_state::{DashboardAction, DashboardState, Mode, SessionOperation};
#[allow(unused_imports)]
use crate::dashboard_state::{DashboardActionView, DashboardStateView, ModeView};
use crate::drafts::{
    Draft, FormState, MountWizard, NewSession, PathInput, ProjectPicker, ProjectTab, Purpose,
    ResumeSource, Resumption, WizardStep,
};
#[allow(unused_imports)]
use crate::drafts::{
    DraftView, ForcedSource, MountWizardView, NewSessionView, ProjectPickerView, PurposeView,
    ResumptionView,
};
#[allow(unused_imports)]
use crate::duplicate::{group_views, views};
use crate::duplicate::{joined, owned, Duplicate};
use crate::lists::{find, position_of};
#[allow(unused_imports)]
use crate::lists::{
    key_position, law_lookup_finds_first, law_selected_in_order, lookup, selected, Keyed,
};
#[allow(unused_imports)]
use crate::mounts::field;
use crate::records::{
    AdditionalMount, CompatibleProfile, MoveOperation, MoveSelection, QueueDisposition,
    ResourceAllocation, SessionRecord, Target, TargetKind,
};
#[allow(unused_imports)]
use crate::records::{
    AdditionalMountView, MoveOperationView, MoveSelectionView, ResourceAllocationView,
    SessionRecordView, TargetSizes, TargetView,
};
#[allow(unused_imports)]
use crate::resume::same_attachments;
#[allow(unused_imports)]
use crate::tables::lemma_empty_table;

verus! {

// --- Where a draft starts ---

/// A position, or the first one where there is none.
pub open spec fn or_first(position: Option<int>) -> usize {
    match position {
        Some(i) => i as usize,
        None => 0,
    }
}

fn position_or_first(position: Option<usize>) -> (index: usize)
    ensures
        index == match position {
            Some(i) => i,
            None => 0,
        },
{
    match position {
        Some(i) => i,
        None => 0,
    }
}

/// A project chooser that has not been opened.
pub open spec fn fresh_picker(id: u64) -> ProjectPickerView {
    ProjectPickerView {
        tab: ProjectTab::Recent,
        query: field(seq![]),
        folder_filter: field(seq![]),
        entries: seq![],
        selected: 0,
        directory: None,
        parent: None,
        truncated: false,
        error: None,
        creation_error: None,
        multiple: false,
        loading: false,
        request: None,
        pending: false,
        focus_results: false,
        id,
        generation: 0,
    }
}

impl DashboardStateView {
    pub open spec fn workspace(self) -> Seq<char> {
        match self.active_workspace_id {
            Some(id) => id,
            None => seq![],
        }
    }

    /// There is a profile and a target to start a session with.
    pub open spec fn can_create(self) -> bool {
        enabled_choices(self.config.profiles).len() > 0 && self.config.targets.len() > 0
    }

    /// The target to start from: that of the most recent session, else the
    /// local one, else the first.
    pub open spec fn initial_target(self) -> usize {
        let recent = match recent_session(self.config, self.state) {
            Some(session) => key_position::<Target>(
                self.config.targets,
                session.target_template_id,
            ),
            None => None,
        };
        match recent {
            Some(i) => i as usize,
            None => or_first(key_position::<Target>(self.config.targets, "localhost"@)),
        }
    }

    /// The draft of a new session, on the choices of the most recent session
    /// that can still be made.
    pub open spec fn new_draft(self) -> DraftView {
        let recent = recent_session(self.config, self.state);
        DraftView {
            workspace_id: self.workspace(),
            step: WizardStep::Profile,
            profile: match recent {
                Some(session) => or_first(
                    key_position::<CompatibleProfile>(
                        enabled_choices(self.config.profiles),
                        session.last_profile,
                    ),
                ),
                None => 0,
            },
            target: self.initial_target(),
            mounts: MountWizard::fresh(seq![]),
            resource_allocation: None,
            aws_options: seq![],
            sizing_error: None,
            form: FormState::fresh(),
            purpose: PurposeView::New(
                NewSessionView {
                    worktree_options: None,
                    create_managed_worktree: false,
                    mjolnir_subagents: self.config.subagents_enabled,
                    bundle: match recent {
                        Some(session) => or_first(
                            key_position::<String>(
                                bundle_order(self.config, self.state),
                                session.bundle_id,
                            ),
                        ),
                        None => 0,
                    },
                    new_bundle_selected: 0,
                    new_bundle_repositories: seq![],
                    new_bundle_source: field(seq![]),
                    bundle_creation_in_flight: false,
                    project_directory: field(seq![]),
                    project_directory_error: None,
                    project_history: seq![],
                    project_history_index: 0,
                    remote_repositories: None,
                    remote_preflight_in_flight: false,
                    remote_preflight_error: None,
                    project_picker: fresh_picker(self.next_picker_id),
                },
            ),
        }
    }

    /// The draft of a resumed or moved session.
    pub open spec fn resume_draft(
        self,
        part: ResumptionView,
        profile: usize,
        target: usize,
        mounts: Seq<AdditionalMountView>,
        allocation: Option<ResourceAllocationView>,
    ) -> DraftView {
        DraftView {
            workspace_id: self.workspace(),
            step: WizardStep::Profile,
            profile,
            target,
            mounts: MountWizardView { mounts, ..MountWizard::fresh(seq![]) },
            resource_allocation: allocation,
            aws_options: seq![],
            sizing_error: None,
            form: FormState::fresh(),
            purpose: PurposeView::Resume(part),
        }
    }

    /// Look up the sizes of every target that offers instances.
    pub open spec fn size_lookup(self) -> DashboardActionView {
        let ids = instance_targets(self.config.targets);
        if ids.len() == 0 {
            DashboardActionView::Nothing
        } else {
            DashboardActionView::ResolveAwsResourceOptions { target_template_ids: ids }
        }
    }
}

/// The targets that offer instances.
pub open spec fn instance_targets(targets: Seq<TargetView>) -> Seq<Seq<char>> {
    selected(
        targets,
        |target: TargetView| target.template.kind == TargetKind::AwsEc2,
        |target: TargetView| target.id,
    )
}

/// What a draft that resumes or moves a recorded session holds of it.
pub open spec fn session_part(
    session: SessionRecordView,
    moving: bool,
    discard_queue: bool,
) -> ResumptionView {
    ResumptionView {
        session_id: session.id,
        source: ResumeSource::Session,
        title: session.title,
        moving,
        preparation: None,
        preparing: false,
        preparation_request_id: None,
        preparation_error: None,
        discard_queue,
    }
}

fn session_resumption(session: &SessionRecord, moving: bool, discard_queue: bool) -> (part:
    Resumption)
    ensures
        part@ == session_part(session@, moving, discard_queue),
{
    Resumption {
        session_id: session.id.duplicate(),
        source: ResumeSource::Session,
        title: session.title.duplicate(),
        moving,
        preparation: None,
        preparing: false,
        preparation_request_id: None,
        preparation_error: None,
        discard_queue,
    }
}

impl ProjectPicker {
    pub fn new(id: u64) -> (picker: ProjectPicker)
        ensures
            picker@ == fresh_picker(id),
    {
        broadcast use group_views;

        ProjectPicker {
            tab: ProjectTab::Recent,
            query: PathInput::new(),
            folder_filter: PathInput::new(),
            entries: Vec::new(),
            selected: 0,
            directory: None,
            parent: None,
            truncated: false,
            error: None,
            creation_error: None,
            multiple: false,
            loading: false,
            request: None,
            pending: false,
            focus_results: false,
            id,
            generation: 0,
        }
    }
}

// --- Opening ---

impl DashboardStateView {
    /// What beginning a new session comes to: launching as set up before, asking
    /// how to set up, or the wizard.
    pub open spec fn new_begun(self) -> (DashboardStateView, DashboardActionView) {
        match self.go {
            Some(go) => match go.recipe {
                Some(recipe) => (self, DashboardActionView::GoLaunch { recipe }),
                None => (self, DashboardActionView::ChangeGoSetup),
            },
            None => self.new_wizard_opened(),
        }
    }

    pub open spec fn new_wizard_opened(self) -> (DashboardStateView, DashboardActionView) {
        if !self.can_create() {
            (
                DashboardStateView { mode: ModeView::Settings("profiles"@), ..self },
                DashboardActionView::Nothing,
            )
        } else {
            (
                (DashboardStateView {
                    next_picker_id: following(self.next_picker_id),
                    ..self
                }).showing(self.new_draft()),
                self.size_lookup(),
            )
        }
    }

    /// What opening the wizard for a recorded session comes to: the wizard,
    /// or why there is none.
    pub open spec fn resume_opened(self, session_id: Seq<char>) -> (
        DashboardStateView,
        DashboardActionView,
    ) {
        match self.session(session_id) {
            None => (self, DashboardActionView::Nothing),
            Some(session) => if session.active && !session.failed {
                (
                    self.noting("This session is active; press Enter to open it."@),
                    DashboardActionView::Nothing,
                )
            } else if !session.checkpoint {
                (
                    self.noting("This session has no verified recovery copy to resume."@),
                    DashboardActionView::Nothing,
                )
            } else if self.compatible(session.id).len() == 0 || self.config.targets.len() == 0 {
                (
                    self.noting("Resume needs a profile and a target template."@),
                    DashboardActionView::Nothing,
                )
            } else {
                (
                    self.showing(
                        self.resume_draft(
                            session_part(session, false, false),
                            self.session_profile(session),
                            self.session_target(session),
                            session.additional_mounts,
                            None,
                        ),
                    ),
                    self.size_lookup(),
                )
            },
        }
    }

    /// The profile a session last ran with, if it still can, else the first.
    pub open spec fn session_profile(self, session: SessionRecordView) -> usize {
        or_first(
            key_position::<CompatibleProfile>(self.compatible(session.id), session.last_profile),
        )
    }

    /// The target a session ran on, if it is still configured, else the
    /// first.
    pub open spec fn session_target(self, session: SessionRecordView) -> usize {
        or_first(key_position::<Target>(self.config.targets, session.target_template_id))
    }

    pub open spec fn archive_opened(self, wiki_id: Seq<char>, title: Seq<char>) -> (
        DashboardStateView,
        DashboardActionView,
    ) {
        if !self.can_create() {
            (
                self.noting("Restoring needs a profile and a target template."@),
                DashboardActionView::Nothing,
            )
        } else {
            (
                self.showing(
                    self.resume_draft(
                        ResumptionView {
                            session_id: wiki_id,
                            source: ResumeSource::Archive,
                            title,
                            moving: false,
                            preparation: None,
                            preparing: false,
                            preparation_request_id: None,
                            preparation_error: None,
                            discard_queue: false,
                        },
                        0,
                        0,
                        seq![],
                        None,
                    ),
                ),
                self.size_lookup(),
            )
        }
    }

    /// What opening the move wizard for the selected session comes to. The
    /// safe default is to leave pending work idle.
    pub open spec fn move_opened(self) -> (DashboardStateView, DashboardActionView) {
        let found = match self.selected_session {
            Some(id) => self.session(id),
            None => None,
        };
        match found {
            None => (self, DashboardActionView::Nothing),
            Some(session) => if !session.active {
                (
                    self.noting("Move is available for active sessions only."@),
                    DashboardActionView::Nothing,
                )
            } else if lookup::<SessionOperation>(self.operations, session.id) is Some {
                (
                    self.noting("This session already has an operation in progress."@),
                    DashboardActionView::Nothing,
                )
            } else if self.compatible(session.id).len() == 0 || self.config.targets.len() == 0 {
                (
                    self.noting("Move needs a profile and a target template."@),
                    DashboardActionView::Nothing,
                )
            } else {
                (
                    self.showing(
                        self.resume_draft(
                            session_part(session, true, true),
                            self.session_profile(session),
                            self.session_target(session),
                            session.additional_mounts,
                            session.resource_allocation,
                        ),
                    ),
                    self.size_lookup(),
                )
            },
        }
    }

    /// The profile and the target that a failed move was to, or why it cannot
    /// be there any more.
    pub open spec fn retained_places(
        self,
        session: SessionRecordView,
        selection: MoveSelectionView,
    ) -> Result<(usize, usize), Seq<char>> {
        match (selection.profile_id, selection.target_template_id) {
            (None, _) => Err("Move recovery has no retained destination profile."@),
            (_, None) => Err("Move recovery has no retained destination target."@),
            (Some(profile_id), Some(target_id)) => match (
                key_position::<CompatibleProfile>(self.compatible(session.id), profile_id),
                key_position::<Target>(self.config.targets, target_id),
            ) {
                (None, _) => Err("Move profile "@ + profile_id + " is no longer configured."@),
                (_, None) => Err("Move target "@ + target_id + " is no longer configured."@),
                (Some(profile), Some(target)) => Ok((profile as usize, target as usize)),
            },
        }
    }

    /// What reopening a failed move comes to: the wizard on the destination
    /// that failed, or why that is not possible any more.
    pub open spec fn recovery_opened(self, operation: MoveOperationView) -> DashboardStateView {
        let selection = operation.selection;
        match self.session(selection.session_id) {
            None => self.noting_failure("Move recovery session is no longer available."@),
            Some(session) => if !session.active {
                self.noting_failure(
                    "Move source is stopped; use Resume with previous settings or retry the retained destination."@,
                )
            } else {
                match self.retained_places(session, selection) {
                    Err(reason) => self.noting_failure(reason),
                    Ok((profile, target)) => self.showing(
                        self.resume_draft(
                            session_part(
                                session,
                                true,
                                operation.queue == QueueDisposition::Discard,
                            ),
                            profile,
                            target,
                            match selection.additional_mounts {
                                Some(mounts) => mounts,
                                None => session.additional_mounts,
                            },
                            match selection.resource_allocation {
                                Some(size) => Some(size),
                                None => session.resource_allocation,
                            },
                        ),
                    ),
                }
            },
        }
    }
}

/// The index names the thing with the key where there is one, and is the
/// first otherwise.
pub open spec fn points_at<T: Keyed>(index: usize, list: Seq<T::V>, key: Seq<char>) -> bool {
    &&& (exists|i: int| 0 <= i < list.len() && T::key_of(#[trigger] list[i]) == key) ==> index
        < list.len() && T::key_of(list[index as int]) == key
    &&& (forall|i: int| 0 <= i < list.len() ==> T::key_of(#[trigger] list[i]) != key) ==> index == 0
}

proof fn lemma_points_at<T: Keyed>(list: Seq<T::V>, key: Seq<char>)
    requires
        list.len() <= usize::MAX,
    ensures
        points_at::<T>(or_first(key_position::<T>(list, key)), list, key),
{
    law_lookup_finds_first::<T>(list, key);
}

/// A resume opens on the session that was asked for: its attached directories
/// are all there, its last profile and its target are chosen where they still
/// can be, and nothing of its queue is dropped.
pub proof fn law_resume_opens_on_session(
    state: DashboardStateView,
    session_id: Seq<char>,
    session: SessionRecordView,
)
    requires
        state.session(session_id) == Some(session),
        !session.active || session.failed,
        session.checkpoint,
        0 < state.compatible(session.id).len() <= usize::MAX,
        0 < state.config.targets.len() <= usize::MAX,
    ensures
        state.resume_opened(session_id).0.mode matches ModeView::Wizard(draft) && {
            &&& session.id == session_id
            &&& draft.step == WizardStep::Profile
            &&& draft.purpose matches PurposeView::Resume(part)
            &&& part.session_id == session_id && part.title == session.title
            &&& part.source == ResumeSource::Session
            &&& !part.moving && !part.discard_queue && part.preparation is None
            &&& same_attachments(draft.mounts.mounts, session.additional_mounts)
            &&& points_at::<CompatibleProfile>(
                draft.profile,
                state.compatible(session_id),
                session.last_profile,
            )
            &&& points_at::<Target>(
                draft.target,
                state.config.targets,
                session.target_template_id,
            )
        },
{
    law_lookup_finds_first::<SessionRecord>(state.state.sessions, session_id);
    lemma_points_at::<CompatibleProfile>(state.compatible(session.id), session.last_profile);
    lemma_points_at::<Target>(state.config.targets, session.target_template_id);
}

/// A session that runs, has no recovery copy, or has nothing to run with is
/// not resumed; the screen stays, and where there is such a session a notice
/// says why.
pub proof fn law_resume_refused(state: DashboardStateView, session_id: Seq<char>)
    requires
        match state.session(session_id) {
            None => true,
            Some(session) => {
                ||| session.active && !session.failed
                ||| !session.checkpoint
                ||| state.compatible(session.id).len() == 0
                ||| state.config.targets.len() == 0
            },
        },
    ensures
        ({
            let (after, action) = state.resume_opened(session_id);
            &&& action == DashboardActionView::Nothing
            &&& after.mode == state.mode
            &&& after.state == state.state && after.config == state.config
            &&& state.session(session_id) is None ==> after == state
            &&& state.session(session_id) is Some ==> after.notice is Some
        }),
{
}

/// A move opens on the selected session: all of its attached directories and
/// its size are taken along, its last profile and its target are chosen where
/// they still can be, and pending work is left idle.
pub proof fn law_move_opens_on_session(
    state: DashboardStateView,
    session_id: Seq<char>,
    session: SessionRecordView,
)
    requires
        state.selected_session == Some(session_id),
        state.session(session_id) == Some(session),
        session.active,
        lookup::<SessionOperation>(state.operations, session_id) is None,
        0 < state.compatible(session_id).len() <= usize::MAX,
        0 < state.config.targets.len() <= usize::MAX,
    ensures
        state.move_opened().0.mode matches ModeView::Wizard(draft) && {
            &&& draft.step == WizardStep::Profile
            &&& draft.purpose matches PurposeView::Resume(part)
            &&& part.session_id == session_id && part.title == session.title
            &&& part.source == ResumeSource::Session
            &&& part.moving && part.discard_queue
            &&& part.preparation is None && !part.preparing
            &&& same_attachments(draft.mounts.mounts, session.additional_mounts)
            &&& draft.resource_allocation == session.resource_allocation
            &&& points_at::<CompatibleProfile>(
                draft.profile,
                state.compatible(session_id),
                session.last_profile,
            )
            &&& points_at::<Target>(
                draft.target,
                state.config.targets,
                session.target_template_id,
            )
        },
{
    law_lookup_finds_first::<SessionRecord>(state.state.sessions, session_id);
    lemma_points_at::<CompatibleProfile>(state.compatible(session.id), session.last_profile);
    lemma_points_at::<Target>(state.config.targets, session.target_template_id);
}

/// Only a session that runs, and that nothing is being done to, is moved.
pub proof fn law_move_refused(state: DashboardStateView)
    requires
        match state.selected_session {
            None => true,
            Some(id) => match state.session(id) {
                None => true,
                Some(session) => {
                    ||| !session.active
                    ||| lookup::<SessionOperation>(state.operations, session.id) is Some
                    ||| state.compatible(session.id).len() == 0
                    ||| state.config.targets.len() == 0
                },
            },
        },
    ensures
        state.move_opened().0.mode == state.mode,
        state.move_opened().1 == DashboardActionView::Nothing,
{
}

/// A failed move reopens on the destination that failed, with the directories,
/// the size and the queue that it was to have, or else those of the session.
pub proof fn law_recovery_reopens_move(
    state: DashboardStateView,
    operation: MoveOperationView,
    session: SessionRecordView,
    profile: int,
    target: int,
)
    requires
        state.session(operation.selection.session_id) == Some(session),
        session.active,
        0 <= profile < state.compatible(session.id).len() <= usize::MAX,
        0 <= target < state.config.targets.len() <= usize::MAX,
        operation.selection.profile_id == Some(state.compatible(session.id)[profile].id),
        operation.selection.target_template_id == Some(state.config.targets[target].id),
    ensures
        state.recovery_opened(operation).mode matches ModeView::Wizard(draft) && {
            let selection = operation.selection;
            &&& draft.purpose matches PurposeView::Resume(part)
            &&& part.session_id == selection.session_id
            &&& part.moving && part.source == ResumeSource::Session
            &&& part.discard_queue == (operation.queue == QueueDisposition::Discard)
            &&& draft.profile < state.compatible(session.id).len()
            &&& Some(state.compatible(session.id)[draft.profile as int].id) == selection.profile_id
            &&& draft.target < state.config.targets.len()
            &&& Some(state.config.targets[draft.target as int].id) == selection.target_template_id
            &&& selection.additional_mounts matches Some(mounts) ==> same_attachments(
                draft.mounts.mounts,
                mounts,
            )
            &&& selection.additional_mounts is None ==> same_attachments(
                draft.mounts.mounts,
                session.additional_mounts,
            )
            &&& selection.resource_allocation is Some ==> draft.resource_allocation
                == selection.resource_allocation
            &&& selection.resource_allocation is None ==> draft.resource_allocation
                == session.resource_allocation
        },
{
    let selection = operation.selection;
    law_lookup_finds_first::<SessionRecord>(state.state.sessions, selection.session_id);
    law_lookup_finds_first::<CompatibleProfile>(
        state.compatible(session.id),
        selection.profile_id->0,
    );
    law_lookup_finds_first::<Target>(state.config.targets, selection.target_template_id->0);
}

/// A failed move of what is gone is not reopened: the screen stays, with a
/// failure.
pub proof fn law_recovery_refused(
    state: DashboardStateView,
    operation: MoveOperationView,
)
    requires
        match state.session(operation.selection.session_id) {
            None => true,
            Some(session) => {
                ||| !session.active
                ||| operation.selection.profile_id is None
                ||| operation.selection.target_template_id is None
                ||| operation.selection.profile_id matches Some(id) && forall|i: int|
                    0 <= i < state.compatible(session.id).len() ==> (#[trigger] state.compatible(
                        session.id,
                    )[i]).id != id
                ||| operation.selection.target_template_id matches Some(id) && forall|i: int|
                    0 <= i < state.config.targets.len() ==> (#[trigger] state.config.targets[i]).id
                        != id
            },
        },
    ensures
        state.recovery_opened(operation).mode == state.mode,
        state.recovery_opened(operation).notice matches Some(notice) && notice.failure,
{
    if let Some(session) = state.session(operation.selection.session_id) {
        if let Some(id) = operation.selection.profile_id {
            law_lookup_finds_first::<CompatibleProfile>(state.compatible(session.id), id);
        }
        if let Some(id) = operation.selection.target_template_id {
            law_lookup_finds_first::<Target>(state.config.targets, id);
        }
    }
}

/// A restored archive opens with nothing attached, on the first profile and
/// the first target.
pub proof fn law_archive_opens(state: DashboardStateView, wiki_id: Seq<char>, title: Seq<char>)
    requires
        enabled_choices(state.config.profiles).len() > 0,
        state.config.targets.len() > 0,
    ensures
        state.archive_opened(wiki_id, title).0.mode matches ModeView::Wizard(draft) && {
            &&& draft.purpose matches PurposeView::Resume(part)
            &&& part.session_id == wiki_id && part.title == title
            &&& part.source == ResumeSource::Archive && !part.moving && !part.discard_queue
            &&& draft.profile == 0 && draft.target == 0
            &&& draft.mounts.mounts.len() == 0
            &&& draft.step == WizardStep::Profile
        },
{
}

/// A new session opens empty, on the profile, the target and the bundle of the
/// most recent session that can be gone on from. Without one it opens on the
/// first profile and bundle, and on the target called localhost if there is
/// one.
pub proof fn law_new_session_opens(state: DashboardStateView)
    requires
        enabled_choices(state.config.profiles).len() > 0,
        state.config.targets.len() > 0,
        enabled_choices(state.config.profiles).len() <= usize::MAX,
        state.config.targets.len() <= usize::MAX,
        bundle_order(state.config, state.state).len() <= usize::MAX,
    ensures
        state.new_wizard_opened().0.mode matches ModeView::Wizard(draft) && {
            let choices = enabled_choices(state.config.profiles);
            let bundles = bundle_order(state.config, state.state);
            &&& draft.step == WizardStep::Profile
            &&& draft.mounts.mounts.len() == 0
            &&& draft.resource_allocation is None
            &&& draft.purpose matches PurposeView::New(part)
            &&& part.project_directory.text.len() == 0
            &&& part.new_bundle_repositories.len() == 0
            &&& part.remote_repositories is None && !part.remote_preflight_in_flight
            &&& part.mjolnir_subagents == state.config.subagents_enabled
            &&& match recent_session(state.config, state.state) {
                Some(session) => {
                    &&& points_at::<CompatibleProfile>(draft.profile, choices, session.last_profile)
                    &&& points_at::<String>(part.bundle, bundles, session.bundle_id)
                    &&& draft.target < state.config.targets.len()
                    &&& state.config.targets[draft.target as int].id == session.target_template_id
                },
                None => {
                    &&& draft.profile == 0 && part.bundle == 0
                    &&& points_at::<Target>(draft.target, state.config.targets, "localhost"@)
                },
            }
        },
        state.new_wizard_opened().0.next_picker_id != state.next_picker_id,
{
    lemma_points_at::<Target>(state.config.targets, "localhost"@);
    if let Some(session) = recent_session(state.config, state.state) {
        let i = choose|i: int| most_recent(state.config, state.state.sessions, i);
        assert(most_recent(state.config, state.state.sessions, i));
        assert(reusable(state.config, session));
        lemma_points_at::<CompatibleProfile>(
            enabled_choices(state.config.profiles),
            session.last_profile,
        );
        lemma_points_at::<String>(bundle_order(state.config, state.state), session.bundle_id);
        law_lookup_finds_first::<Target>(state.config.targets, session.target_template_id);
    }
}

/// Every wizard opens in the active workspace, with nothing attached by itself
/// and nothing asked for but the sizes that its targets offer.
pub proof fn law_wizard_opens_in_workspace(
    state: DashboardStateView,
    session_id: Seq<char>,
    title: Seq<char>,
)
    requires
        state.mode !is Wizard,
    ensures
        ({
            let here = |draft: DraftView|
                {
                    &&& state.active_workspace_id matches Some(id) ==> draft.workspace_id == id
                    &&& state.active_workspace_id is None ==> draft.workspace_id.len() == 0
                    &&& draft.mounts.source.text.len() == 0 && draft.mounts.editing_mount is None
                    &&& draft.mounts.history_index == 0 && draft.mounts.error is None
                    &&& draft.aws_options.len() == 0 && draft.sizing_error is None
                    &&& !draft.form.submission_pending
                };
            let (created, create) = state.new_wizard_opened();
            let (resumed, resume) = state.resume_opened(session_id);
            let (restored, restore) = state.archive_opened(session_id, title);
            let (moved, move_action) = state.move_opened();
            &&& created.mode matches ModeView::Wizard(draft) ==> here(draft) && create
                == state.size_lookup()
            &&& resumed.mode matches ModeView::Wizard(draft) ==> here(draft) && resume
                == state.size_lookup() && draft.resource_allocation is None
            &&& restored.mode matches ModeView::Wizard(draft) ==> here(draft) && restore
                == state.size_lookup() && draft.resource_allocation is None
            &&& moved.mode matches ModeView::Wizard(draft) ==> here(draft) && move_action
                == state.size_lookup()
        }),
{
}

/// An archive is not restored without a profile and a target; a notice says
/// why.
pub proof fn law_archive_needs_setup(
    state: DashboardStateView,
    wiki_id: Seq<char>,
    title: Seq<char>,
)
    requires
        enabled_choices(state.config.profiles).len() == 0 || state.config.targets.len() == 0,
    ensures
        state.archive_opened(wiki_id, title).0.mode == state.mode,
        state.archive_opened(wiki_id, title).0.notice is Some,
        state.archive_opened(wiki_id, title).1 == DashboardActionView::Nothing,
{
}

/// A quick launch goes by its recipe without a wizard, and asks for a set-up
/// where it has none; anything else begins with the wizard.
pub proof fn law_quick_launch_skips_wizard(state: DashboardStateView)
    ensures
        state.go matches Some(go) ==> {
            &&& state.new_begun().0 == state
            &&& go.recipe matches Some(recipe) ==> state.new_begun().1
                == DashboardActionView::GoLaunch { recipe }
            &&& go.recipe is None ==> state.new_begun().1 == DashboardActionView::ChangeGoSetup
        },
        state.go is None ==> state.new_begun() == state.new_wizard_opened(),
{
}

/// No wizard opens without a profile and a target: the settings of the
/// profiles do.
/// No wizard opens without a profile and a target: the settings of the
/// profiles do.
pub proof fn law_new_session_needs_setup(state: DashboardStateView)
    requires
        enabled_choices(state.config.profiles).len() == 0 || state.config.targets.len() == 0,
    ensures
        state.new_wizard_opened().0.mode == ModeView::Settings("profiles"@),
        state.new_wizard_opened().1 == DashboardActionView::Nothing,
{
}

/// The sizes of every target that offers instances are looked up, in their
/// order, and of no other.
pub proof fn law_sizes_looked_up(state: DashboardStateView, i: int)
    requires
        0 <= i < state.config.targets.len(),
    ensures
        state.config.targets[i].template.kind == TargetKind::AwsEc2 ==> {
            &&& state.size_lookup() matches DashboardActionView::ResolveAwsResourceOptions {
                target_template_ids,
            }
            &&& target_template_ids.contains(state.config.targets[i].id)
        },
        state.size_lookup() matches DashboardActionView::ResolveAwsResourceOptions {
            target_template_ids,
        } ==> target_template_ids == state.config.targets.filter(
            |target: TargetView| target.template.kind == TargetKind::AwsEc2,
        ).map_values(|target: TargetView| target.id),
{
    let targets = state.config.targets;
    let wanted = |target: TargetView| target.template.kind == TargetKind::AwsEc2;
    let named = |target: TargetView| target.id;
    law_selected_in_order(targets, wanted, named);
    let kept = targets.filter(wanted);
    if wanted(targets[i]) {
        targets.lemma_filter_contains(wanted, i);
        assert(kept.contains(targets[i]));
        let k = choose|k: int| 0 <= k < kept.len() && kept[k] == targets[i];
        assert(kept.map_values(named)[k] == targets[i].id);
    }
}

impl DashboardState {
    fn resolve_all_aws_resource_options_action(&self) -> (action: DashboardAction)
        ensures
            action@ == self@.size_lookup(),
    {
        broadcast use group_views;

        let ghost all = self@.config.targets;
        let mut ids: Vec<String> = Vec::new();
        let mut i: usize = 0;
        assert(all.take(0) =~= Seq::empty());
        while i < self.config.targets.len()
            invariant
                i <= self.config.targets.len(),
                all == self@.config.targets,
                all == views(self.config.targets@),
                ids.deep_view() == instance_targets(all.take(i as int)),
            decreases self.config.targets.len() - i,
        {
            broadcast use group_views;

            let target = &self.config.targets[i];
            assert(all.take(i + 1).drop_last() =~= all.take(i as int));
            assert(all.take(i + 1).last() == target@);
            if target.template.kind == TargetKind::AwsEc2 {
                ids.push(target.id.duplicate());
            }
            i = i + 1;
        }
        assert(all.take(all.len() as int) =~= all);
        if ids.len() == 0 {
            DashboardAction::Nothing
        } else {
            DashboardAction::ResolveAwsResourceOptions { target_template_ids: ids }
        }
    }

    fn workspace_id(&self) -> (id: String)
        ensures
            id@ == self@.workspace(),
    {
        match &self.active_workspace_id {
            Some(id) => id.duplicate(),
            None => String::new(),
        }
    }

    /// Begin a new session: launch as set up before, ask how to set up, or
    /// open the wizard.
    pub fn begin_new(&mut self) -> (action: DashboardAction)
        ensures
            (final(self)@, action@) == old(self)@.new_begun(),
            old(self)@.well_formed() ==> final(self)@.well_formed(),
    {
        match &self.go {
            Some(go) => match &go.recipe {
                Some(recipe) => {
                    return DashboardAction::GoLaunch { recipe: recipe.duplicate() };
                },
                None => {
                    return DashboardAction::ChangeGoSetup;
                },
            },
            None => {},
        }
        self.begin_new_wizard()
    }

    /// Open the new-session wizard on the choices made most recently.
    pub fn begin_new_wizard(&mut self) -> (action: DashboardAction)
        ensures
            (final(self)@, action@) == old(self)@.new_wizard_opened(),
            old(self)@.in_order() ==> final(self)@.well_formed(),
    {
        broadcast use group_views;

        let ghost start = self@;
        let profiles = enabled_profiles(&self.config);
        if profiles.len() == 0 || self.config.targets.len() == 0 {
            self.mode = Mode::Settings(owned("profiles"));
            return DashboardAction::Nothing;
        }
        let recent = most_recent_configured_session(&self.config, &self.state);
        let bundles = bundle_ids_by_recent_creation(&self.config, &self.state);
        let local = position_or_first(position_of(&self.config.targets, "localhost"));
        let (profile, bundle, target) = match recent {
            Some(session) => (
                position_or_first(position_of(&profiles, session.last_profile.as_str())),
                position_or_first(position_of(&bundles, session.bundle_id.as_str())),
                match position_of(&self.config.targets, session.target_template_id.as_str()) {
                    Some(i) => i,
                    None => local,
                },
            ),
            None => (0, 0, local),
        };
        let draft = Draft {
            workspace_id: self.workspace_id(),
            step: WizardStep::Profile,
            profile,
            target,
            mounts: MountWizard::new(Vec::new()),
            resource_allocation: None,
            aws_options: Vec::new(),
            sizing_error: None,
            form: FormState::new(),
            purpose: Purpose::New(
                NewSession {
                    worktree_options: None,
                    create_managed_worktree: false,
                    mjolnir_subagents: self.config.subagents_enabled,
                    bundle,
                    new_bundle_selected: 0,
                    new_bundle_repositories: Vec::new(),
                    new_bundle_source: PathInput::new(),
                    bundle_creation_in_flight: false,
                    project_directory: PathInput::new(),
                    project_directory_error: None,
                    project_history: Vec::new(),
                    project_history_index: 0,
                    remote_repositories: None,
                    remote_preflight_in_flight: false,
                    remote_preflight_error: None,
                    project_picker: ProjectPicker::new(self.next_picker_id),
                },
            ),
        };
        assert(draft@ == start.new_draft());
        proof {
            lemma_empty_table::<TargetSizes>();
            lemma_empty_table::<ForcedSource>();
        }
        self.next_picker_id = following_number(self.next_picker_id);
        let action = self.resolve_all_aws_resource_options_action();
        self.keep(draft);
        action
    }

    fn make_resume_draft(
        &self,
        part: Resumption,
        profile: usize,
        target: usize,
        mounts: Vec<AdditionalMount>,
        allocation: Option<ResourceAllocation>,
    ) -> (draft: Draft)
        ensures
            draft@ == self@.resume_draft(
                part@,
                profile,
                target,
                mounts.deep_view(),
                allocation.deep_view(),
            ),
    {
        broadcast use group_views;

        Draft {
            workspace_id: self.workspace_id(),
            step: WizardStep::Profile,
            profile,
            target,
            mounts: MountWizard::with_mounts(Vec::new(), mounts),
            resource_allocation: allocation,
            aws_options: Vec::new(),
            sizing_error: None,
            form: FormState::new(),
            purpose: Purpose::Resume(part),
        }
    }

    fn lacks_choices(&self, session: &SessionRecord) -> (r: bool)
        ensures
            r == (self@.compatible(session@.id).len() == 0 || self@.config.targets.len() == 0),
    {
        broadcast use group_views;

        self.compatible_profiles(session.id.as_str()).len() == 0 || self.config.targets.len() == 0
    }

    fn session_places(&self, session: &SessionRecord) -> (places: (usize, usize))
        requires
            self@.compatible(session@.id).len() > 0,
            self@.config.targets.len() > 0,
        ensures
            places.0 == self@.session_profile(session@),
            places.0 < self@.compatible(session@.id).len(),
            places.1 == self@.session_target(session@),
            places.1 < self@.config.targets.len(),
    {
        broadcast use group_views;

        let profiles = self.compatible_profiles(session.id.as_str());
        let profile = position_or_first(position_of(&profiles, session.last_profile.as_str()));
        let target = position_or_first(
            position_of(&self.config.targets, session.target_template_id.as_str()),
        );
        (profile, target)
    }

    fn retained_places(&self, session: &SessionRecord, selection: &MoveSelection) -> (places:
        Result<(usize, usize), String>)
        ensures
            match places {
                Ok(found) => {
                    &&& self@.retained_places(session@, selection@) == Ok::<_, Seq<char>>(found)
                    &&& found.0 < self@.compatible(session@.id).len()
                    &&& found.1 < self@.config.targets.len()
                },
                Err(reason) => self@.retained_places(session@, selection@) == Err::<
                    (usize, usize),
                    _,
                >(reason@),
            },
    {
        broadcast use group_views;

        let (profile_id, target_id) = match (&selection.profile_id, &selection.target_template_id) {
            (None, _) => {
                return Err(owned("Move recovery has no retained destination profile."));
            },
            (_, None) => {
                return Err(owned("Move recovery has no retained destination target."));
            },
            (Some(profile_id), Some(target_id)) => (profile_id, target_id),
        };
        let profiles = self.compatible_profiles(session.id.as_str());
        let profile = match position_of(&profiles, profile_id.as_str()) {
            Some(i) => i,
            None => {
                let mut text = joined("Move profile ", profile_id.as_str());
                text.append(" is no longer configured.");
                return Err(text);
            },
        };
        let target = match position_of(&self.config.targets, target_id.as_str()) {
            Some(i) => i,
            None => {
                let mut text = joined("Move target ", target_id.as_str());
                text.append(" is no longer configured.");
                return Err(text);
            },
        };
        Ok((profile, target))
    }

    fn show_resume(
        &mut self,
        part: Resumption,
        profile: usize,
        target: usize,
        mounts: Vec<AdditionalMount>,
        allocation: Option<ResourceAllocation>,
    )
        requires
            target < old(self)@.config.targets.len(),
            profile < old(self)@.resume_choices(part@).len(),
        ensures
            final(self)@ == old(self)@.showing(
                old(self)@.resume_draft(
                    part@,
                    profile,
                    target,
                    mounts.deep_view(),
                    allocation.deep_view(),
                ),
            ),
            old(self)@.in_order() ==> final(self)@.well_formed(),
    {
        proof {
            lemma_empty_table::<TargetSizes>();
            lemma_empty_table::<ForcedSource>();
        }
        let draft = self.make_resume_draft(part, profile, target, mounts, allocation);
        self.keep(draft);
    }

    /// Open the resume wizard for one session by id. The dashboard reaches
    /// this for a failed but checkpointed session; the resume dialog reaches it
    /// for a stopped one.
    pub fn begin_resume_for(&mut self, session_id: &str) -> (action: DashboardAction)
        ensures
            (final(self)@, action@) == old(self)@.resume_opened(session_id@),
            old(self)@.well_formed() ==> final(self)@.well_formed(),
    {
        let session = match find(&self.state.sessions, session_id) {
            Some(found) => found.duplicate(),
            None => {
                return DashboardAction::Nothing;
            },
        };
        if session.active && !session.failed {
            self.set_notice(owned("This session is active; press Enter to open it."));
            return DashboardAction::Nothing;
        }
        if !session.checkpoint {
            self.set_notice(owned("This session has no verified recovery copy to resume."));
            return DashboardAction::Nothing;
        }
        if self.lacks_choices(&session) {
            self.set_notice(owned("Resume needs a profile and a target template."));
            return DashboardAction::Nothing;
        }
        let (profile, target) = self.session_places(&session);
        let part = session_resumption(&session, false, false);
        let action = self.resolve_all_aws_resource_options_action();
        self.show_resume(part, profile, target, session.additional_mounts, None);
        action
    }

    /// Open the resume wizard for an archived SessionWiki session. There is no
    /// record to read a profile or target from, so the wizard opens on the
    /// first of each and the person chooses.
    pub fn begin_archive_restore(&mut self, wiki_id: String, title: String) -> (action:
        DashboardAction)
        ensures
            (final(self)@, action@) == old(self)@.archive_opened(wiki_id@, title@),
            old(self)@.well_formed() ==> final(self)@.well_formed(),
    {
        broadcast use group_views;

        let profiles = enabled_profiles(&self.config);
        if profiles.len() == 0 || self.config.targets.len() == 0 {
            self.set_notice(owned("Restoring needs a profile and a target template."));
            return DashboardAction::Nothing;
        }
        let part = Resumption {
            session_id: wiki_id,
            source: ResumeSource::Archive,
            title,
            moving: false,
            preparation: None,
            preparing: false,
            preparation_request_id: None,
            preparation_error: None,
            discard_queue: false,
        };
        let action = self.resolve_all_aws_resource_options_action();
        self.show_resume(part, 0, 0, Vec::new(), None);
        action
    }

    fn selected_record(&self) -> (session: Option<SessionRecord>)
        ensures
            session.deep_view() == match self@.selected_session {
                Some(id) => self@.session(id),
                None => None,
            },
    {
        match &self.selected_session {
            None => None,
            Some(id) => match find(&self.state.sessions, id.as_str()) {
                Some(found) => Some(found.duplicate()),
                None => None,
            },
        }
    }

    /// Open the resume controls for an active session as a Move operation.
    /// The source workspace and session identity are fixed; only the
    /// destination profile, target, sizing, and attachments are editable.
    pub fn begin_move(&mut self) -> (action: DashboardAction)
        ensures
            (final(self)@, action@) == old(self)@.move_opened(),
            old(self)@.well_formed() ==> final(self)@.well_formed(),
    {
        let session = match self.selected_record() {
            Some(session) => session,
            None => {
                return DashboardAction::Nothing;
            },
        };
        if !session.active {
            self.set_notice(owned("Move is available for active sessions only."));
            return DashboardAction::Nothing;
        }
        if find(&self.operations, session.id.as_str()).is_some() {
            self.set_notice(owned("This session already has an operation in progress."));
            return DashboardAction::Nothing;
        }
        if self.lacks_choices(&session) {
            self.set_notice(owned("Move needs a profile and a target template."));
            return DashboardAction::Nothing;
        }
        let (profile, target) = self.session_places(&session);
        let part = session_resumption(&session, true, true);
        let action = self.resolve_all_aws_resource_options_action();
        self.show_resume(
            part,
            profile,
            target,
            session.additional_mounts,
            session.resource_allocation,
        );
        action
    }

    /// Open the Move wizard for a retained failure while the source is still
    /// live. The failed destination is prefilled so the user can inspect the
    /// exact interruption and queue choice before retrying it.
    pub fn begin_move_recovery(&mut self, operation: MoveOperation)
        ensures
            final(self)@ == old(self)@.recovery_opened(operation@),
            old(self)@.well_formed() ==> final(self)@.well_formed(),
    {
        let selection = operation.selection;
        let session = match find(&self.state.sessions, selection.session_id.as_str()) {
            Some(found) => found.duplicate(),
            None => {
                self.set_failure_notice(owned("Move recovery session is no longer available."));
                return;
            },
        };
        if !session.active {
            self.set_failure_notice(
                owned(
                    "Move source is stopped; use Resume with previous settings or retry the retained destination.",
                ),
            );
            return;
        }
        match self.retained_places(&session, &selection) {
            Err(reason) => {
                self.set_failure_notice(reason);
            },
            Ok((profile, target)) => {
                let discards = operation.queue == QueueDisposition::Discard;
                let part = session_resumption(&session, true, discards);
                let mounts = match selection.additional_mounts {
                    Some(mounts) => mounts,
                    None => session.additional_mounts,
                };
                let allocation = match selection.resource_allocation {
                    Some(size) => Some(size),
                    None => session.resource_allocation,
                };
                self.show_resume(part, profile, target, mounts, allocation);
            },
        }
    }
}

} // verus!
