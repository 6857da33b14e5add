//! The steps of creating a session, and the checks before it.

use vstd::prelude::*;

use crate::catalog::{bundle_ids_by_recent_creation, enabled_profiles, supports_delegation_tools};
#[allow(unused_imports)]
use crate::catalog::{bundle_order, delegates, enabled_choices};
use crate::dashboard::remembered_paths;
#[allow(unused_imports)]
use crate::dashboard::{remembered, size_settled};
use crate::dashboard_state::{
    CreateSession, DashboardAction, DashboardState, Launch, Mode, ProjectContext,
};
#[allow(unused_imports)]
use crate::dashboard_state::{
    CreateSessionView, DashboardActionView, DashboardStateView, LaunchView, ModeView,
    ProjectContextView,
};
use crate::drafts::{Draft, NewSession, PathInput, Purpose, WizardStep};
#[allow(unused_imports)]
use crate::drafts::{DraftView, MountWizardView, NewSessionView, PurposeView, WizardControl};
#[allow(unused_imports)]
use crate::duplicate::group_views;
use crate::duplicate::{joined, owned, same_text, Duplicate};
use crate::lists::position_of;
#[allow(unused_imports)]
use crate::lists::{key_position, law_lookup_finds_first, lookup};
#[allow(unused_imports)]
use crate::mounts::field;
use crate::records::{Config, GoSetup, ResourceAllocation, TargetKind};
#[allow(unused_imports)]
use crate::records::{
    ConfigView, GoSetupView, HarnessKind, HostPaths, HostPathsView, ResourceAllocationView,
    TargetSizes, TargetSizesView,
};
#[allow(unused_imports)]
use crate::resume::same_attachments;
#[allow(unused_imports)]
use crate::tables::law_stored_read_back;
#[allow(unused_imports)]
use crate::text::trimmed;

verus! {

/// A text in quotation marks, with what cannot stand there escaped.
pub uninterp spec fn quoted(text: Seq<char>) -> Seq<char>;

/// The `Debug` form of `str`, as `format!` writes it: the text in quotation
/// marks. How characters are escaped is the standard library's and is not
/// stated here; it is a function of the text alone.
#[verifier::external_body]
fn quoted_text(text: &str) -> (quoted_form: String)
    ensures
        quoted_form@ == quoted(text@),
{
    format!("{text:?}")
}

// --- The session to create ---

impl DashboardStateView {
    /// The harness of the profile the draft has selected can take delegation
    /// tools, so the choice applies.
    pub open spec fn subagent_choice(self, draft: DraftView) -> bool {
        delegates(enabled_choices(self.config.profiles)[draft.profile as int].kind)
    }

    /// The session that a new-session draft describes.
    pub open spec fn session_request(self, draft: DraftView) -> CreateSessionView {
        let part = draft.new_part();
        let target = self.target(draft.target);
        let raw = target.template.bare_project;
        CreateSessionView {
            mjolnir_subagents: if self.subagent_choice(draft) {
                Some(part.mjolnir_subagents)
            } else {
                None
            },
            create_managed_worktree: raw && part.create_managed_worktree && (part.options_for(
                target.id,
            ) matches Some(options) && options.available),
            workspace_id: draft.workspace_id,
            profile_id: enabled_choices(self.config.profiles)[draft.profile as int].id,
            project: if raw {
                ProjectContextView::Directory(part.project_directory.text)
            } else {
                ProjectContextView::Bundle(
                    bundle_order(self.config, self.state)[part.bundle as int],
                )
            },
            project_directory: if raw {
                Some(trimmed(part.project_directory.text))
            } else {
                None
            },
            target_template_id: target.id,
            additional_mounts: if raw {
                seq![]
            } else {
                draft.mounts.mounts
            },
            resource_allocation: draft.resource_allocation,
        }
    }

    /// The draft names a bundle where its target needs one.
    pub open spec fn bundle_chosen(self, draft: DraftView) -> bool {
        !self.template(draft.target).bare_project ==> draft.new_part().bundle < bundle_order(
            self.config,
            self.state,
        ).len()
    }
}

impl DashboardState {
    /// Only two of the harnesses receive the delegation tools, so only their
    /// profiles get the choice.
    pub fn subagent_choice_applies(&self, draft: &Draft) -> (r: bool)
        requires
            draft.profile < enabled_choices(self@.config.profiles).len(),
        ensures
            r == self@.subagent_choice(draft@),
    {
        broadcast use group_views;

        let profiles = enabled_profiles(&self.config);
        assert(profiles.deep_view()[draft.profile as int] == profiles@[draft.profile as int]@);
        supports_delegation_tools(profiles[draft.profile].kind)
    }

    fn create_session_action_without_closing(&self, draft: &Draft, part: &NewSession) -> (request:
        CreateSession)
        requires
            self@.fits(draft@),
            draft@.purpose == PurposeView::New(part@),
            self@.bundle_chosen(draft@),
        ensures
            request@ == self@.session_request(draft@),
    {
        broadcast use group_views;

        let target = &self.config.targets[draft.target];
        assert(self@.target(draft.target) == target@);
        let raw = target.template.bare_project;
        let profiles = enabled_profiles(&self.config);
        assert(profiles.deep_view()[draft.profile as int] == profiles@[draft.profile as int]@);
        let subagents = if self.subagent_choice_applies(draft) {
            Some(part.mjolnir_subagents)
        } else {
            None
        };
        let project = if raw {
            ProjectContext::Directory(part.project_directory.text.duplicate())
        } else {
            let bundles = bundle_ids_by_recent_creation(&self.config, &self.state);
            assert(bundles.deep_view()[part.bundle as int] == bundles@[part.bundle as int]@);
            ProjectContext::Bundle(bundles[part.bundle].duplicate())
        };
        CreateSession {
            mjolnir_subagents: subagents,
            create_managed_worktree: raw && part.create_managed_worktree
                && part.worktree_available(target.id.as_str()),
            workspace_id: draft.workspace_id.duplicate(),
            profile_id: profiles[draft.profile].id.duplicate(),
            project,
            project_directory: if raw {
                Some(part.project_directory.trimmed_text())
            } else {
                None
            },
            target_template_id: target.id.duplicate(),
            additional_mounts: if raw {
                Vec::new()
            } else {
                draft.mounts.mounts.duplicate()
            },
            resource_allocation: draft.resource_allocation.duplicate(),
        }
    }
}

// --- Going through the steps ---

impl DashboardStateView {
    /// What validating the project directory comes to, given what is wrong
    /// with its form.
    pub open spec fn project_validated(self, draft: DraftView, fault: Option<Seq<char>>) -> (
        DashboardStateView,
        DashboardActionView,
    ) {
        let part = draft.new_part();
        let directory = trimmed(part.project_directory.text);
        let refusal = part.directory_refusal(fault);
        let checked = draft.with_new(NewSessionView { project_directory_error: refusal, ..part });
        match refusal {
            Some(_) => (self.showing(checked), DashboardActionView::Nothing),
            None => (
                self.showing(DraftView { form: draft.form.submitting(true), ..checked }),
                DashboardActionView::ValidateProjectDirectory {
                    target_template_id: self.target(draft.target).id,
                    directory,
                },
            ),
        }
    }

    /// The draft with the size of its target settled, unless it already has a
    /// size, and what that takes.
    pub open spec fn entering_target(self, draft: DraftView) -> (DraftView, DashboardActionView) {
        let moved = draft.at_step(WizardStep::Target);
        if draft.resource_allocation.is_some() {
            (moved, DashboardActionView::Nothing)
        } else {
            (self.target_prepared(moved), self.preparation_action(moved))
        }
    }

    /// The directory that a quick launch works in on a target.
    pub open spec fn go_directory(self, go: GoSetupView, draft: DraftView) -> Seq<char> {
        let target = self.target(draft.target);
        if target.template.kind == TargetKind::LocalBare {
            go.directory
        } else {
            match go.recipe {
                Some(recipe) if recipe.target_id == target.id => match recipe.project_directory {
                    Some(directory) => directory,
                    None => seq![],
                },
                _ => seq![],
            }
        }
    }

    /// The draft on the step that chooses its project: a directory on a bare
    /// target, a bundle on every other.
    pub open spec fn at_project(self, draft: DraftView) -> DraftView {
        let part = draft.new_part();
        let template = self.template(draft.target);
        if template.bare_project {
            let history = remembered(self.state.project_directories, template.project_host);
            let typed = match self.go {
                Some(go) => field(self.go_directory(go, draft)),
                None => if part.project_directory.text.len() == 0 && history.len() > 0 {
                    field(history[0])
                } else {
                    part.project_directory
                },
            };
            (DraftView {
                mounts: MountWizardView { history: seq![], ..draft.mounts },
                ..draft
            }).with_new(
                NewSessionView {
                    project_directory: typed,
                    project_history: history,
                    project_history_index: 0,
                    ..part
                },
            ).at_step(WizardStep::ProjectDirectory)
        } else {
            (DraftView {
                mounts: MountWizardView {
                    history: remembered(self.state.mount_history, template.mount_host),
                    ..draft.mounts
                },
                ..draft
            }).at_step(WizardStep::Bundle)
        }
    }

    /// Why the draft cannot go on from its target.
    pub open spec fn target_refusal(self, draft: DraftView) -> Option<Seq<char>> {
        match self.target_rejection(draft, self.target(draft.target).id) {
            Some(reason) => Some(reason),
            None => if size_settled(draft, self.template(draft.target).kind) {
                None
            } else {
                match draft.sizing_error {
                    Some(error) => Some(error),
                    None => Some("EC2 sizes are still loading."@),
                }
            },
        }
    }

    /// What going on from a step of a new session comes to.
    pub open spec fn new_advanced(self, draft: DraftView) -> (
        DashboardStateView,
        DashboardActionView,
    ) {
        match draft.step {
            WizardStep::Profile => {
                let (moved, action) = self.entering_target(draft);
                (self.showing(moved), action)
            },
            WizardStep::Bundle => (
                self.showing(draft.at_step(WizardStep::Review)),
                DashboardActionView::Nothing,
            ),
            _ => match self.target_refusal(draft) {
                Some(reason) => (
                    self.noting(reason).showing(draft),
                    DashboardActionView::Nothing,
                ),
                None => if self.go is Some && !self.template(draft.target).bare_project {
                    (
                        self.showing(
                            (DraftView { step: WizardStep::Bundle, ..draft }).with_new(
                                NewSessionView {
                                    bundle_creation_in_flight: true,
                                    ..draft.new_part()
                                },
                            ),
                        ),
                        DashboardActionView::GoPrepareProject {
                            target_id: self.target(draft.target).id,
                        },
                    )
                } else {
                    (self.showing(self.at_project(draft)), DashboardActionView::Nothing)
                },
            },
        }
    }
}

impl NewSessionView {
    /// What is wrong with the typed project directory, given what is wrong
    /// with its form.
    pub open spec fn directory_refusal(self, fault: Option<Seq<char>>) -> Option<Seq<char>> {
        if trimmed(self.project_directory.text).len() == 0 {
            Some("Project directory cannot be empty."@)
        } else {
            fault
        }
    }
}

impl NewSession {
    /// Notes what is wrong with the typed project directory, and gives it back
    /// where nothing is.
    fn check_directory(&mut self, fault: Option<String>) -> (directory: Option<String>)
        ensures
            final(self)@ == (NewSessionView {
                project_directory_error: old(self)@.directory_refusal(fault.deep_view()),
                ..old(self)@
            }),
            directory.deep_view() == if old(self)@.directory_refusal(fault.deep_view()) is Some {
                None
            } else {
                Some(trimmed(old(self)@.project_directory.text))
            },
    {
        let directory = self.project_directory.trimmed_text();
        self.project_directory_error = if directory.as_str().unicode_len() == 0 {
            Some(owned("Project directory cannot be empty."))
        } else {
            fault
        };
        if self.project_directory_error.is_some() {
            None
        } else {
            Some(directory)
        }
    }
}

impl DashboardState {
    /// Have the typed project directory validated on the target, given what
    /// is wrong with its form.
    pub fn validate_new_project(&mut self, draft: Draft, fault: Option<String>) -> (action:
        DashboardAction)
        requires
            old(self)@.has_target(draft@),
            draft@.purpose is New,
        ensures
            (final(self)@, action@) == old(self)@.project_validated(draft@, fault.deep_view()),
            old(self)@.fits(draft@) ==> final(self)@.well_formed(),
    {
        broadcast use group_views;

        let mut draft = draft;
        let target = &self.config.targets[draft.target];
        assert(self@.target(draft.target) == target@);
        let target_template_id = target.id.duplicate();
        let directory = match &mut draft.purpose {
            Purpose::New(part) => part.check_directory(fault),
            Purpose::Resume(_) => None,
        };
        match directory {
            Some(directory) => {
                draft.form.set_submission_pending(true);
                self.keep(draft);
                DashboardAction::ValidateProjectDirectory { target_template_id, directory }
            },
            None => {
                self.keep(draft);
                DashboardAction::Nothing
            },
        }
    }

    /// Take the draft to its target step, settling the target's size.
    pub fn enter_target_step(&self, draft: &mut Draft) -> (action: DashboardAction)
        requires
            old(draft).target < self.config.targets.len(),
        ensures
            (final(draft)@, action@) == self@.entering_target(old(draft)@),
    {
        draft.go_to_step(WizardStep::Target);
        if draft.resource_allocation.is_some() {
            DashboardAction::Nothing
        } else {
            self.prepare_wizard_target(draft)
        }
    }

    /// Why the draft cannot go on from its target.
    pub fn target_step_refusal(&self, draft: &Draft) -> (reason: Option<String>)
        requires
            draft.target < self.config.targets.len(),
        ensures
            reason.deep_view() == self@.target_refusal(draft@),
    {
        broadcast use group_views;

        let target = &self.config.targets[draft.target];
        assert(self@.target(draft.target) == target@);
        let rejection = self.draft_target_rejection(draft, target.id.as_str());
        if rejection.is_some() {
            return rejection;
        }
        if target.template.kind == TargetKind::AwsEc2 && draft.resource_allocation.is_none() {
            return match &draft.sizing_error {
                Some(error) => Some(error.duplicate()),
                None => Some(owned("EC2 sizes are still loading.")),
            };
        }
        None
    }

    fn quick_directory(&self, go: &GoSetup, target_index: usize, Ghost(draft): Ghost<DraftView>) -> (
    directory: String)
        requires
            target_index < self.config.targets.len(),
            draft.target == target_index,
        ensures
            directory@ == self@.go_directory(go@, draft),
    {
        broadcast use group_views;

        let target = &self.config.targets[target_index];
        assert(self@.target(target_index) == target@);
        if target.template.kind == TargetKind::LocalBare {
            return go.directory.duplicate();
        }
        match &go.recipe {
            Some(recipe) => if same_text(recipe.target_id.as_str(), target.id.as_str()) {
                match &recipe.project_directory {
                    Some(directory) => directory.duplicate(),
                    None => String::new(),
                }
            } else {
                String::new()
            },
            None => String::new(),
        }
    }

    fn enter_project_step(&self, draft: &mut Draft)
        requires
            old(draft).target < self.config.targets.len(),
            old(draft)@.purpose is New,
        ensures
            final(draft)@ == self@.at_project(old(draft)@),
    {
        broadcast use group_views;

        let ghost start = draft@;
        let index = draft.target;
        let template = &self.config.targets[index].template;
        assert(self@.template(index) == template@);
        if template.bare_project {
            draft.mounts.history = Vec::new();
            let history = remembered_paths(
                &self.state.project_directories,
                &template.project_host,
            );
            match &mut draft.purpose {
                Purpose::New(part) => {
                    match &self.go {
                        Some(go) => {
                            part.project_directory = PathInput::from_text(
                                self.quick_directory(go, index, Ghost(start)),
                            );
                        },
                        None => {
                            if part.project_directory.is_empty() && history.len() > 0 {
                                part.project_directory = PathInput::from_text(
                                    history[0].duplicate(),
                                );
                            }
                        },
                    }
                    part.project_history = history;
                    part.project_history_index = 0;
                },
                Purpose::Resume(_) => {},
            }
            draft.go_to_step(WizardStep::ProjectDirectory);
        } else {
            draft.mounts.history = remembered_paths(
                &self.state.mount_history,
                &template.mount_host,
            );
            draft.go_to_step(WizardStep::Bundle);
        }
    }

    /// Go on from the target step: to the preparation of the project that
    /// was asked for, or to the step that names one.
    fn advance_from_target(&mut self, draft: Draft) -> (action: DashboardAction)
        requires
            old(self)@.has_target(draft@),
            draft@.purpose is New,
            draft.step == WizardStep::Target,
        ensures
            (final(self)@, action@) == old(self)@.new_advanced(draft@),
            old(self)@.fits(draft@) ==> final(self)@.well_formed(),
    {
        let mut draft = draft;
        if let Some(reason) = self.target_step_refusal(&draft) {
            self.set_notice(reason);
            self.keep(draft);
            return DashboardAction::Nothing;
        }
        let index = draft.target;
        if self.go.is_some() && !self.config.targets[index].template.bare_project {
            let target_id = self.config.targets[index].id.duplicate();
            draft.step = WizardStep::Bundle;
            match &mut draft.purpose {
                Purpose::New(part) => {
                    part.bundle_creation_in_flight = true;
                },
                Purpose::Resume(_) => {},
            }
            self.keep(draft);
            return DashboardAction::GoPrepareProject { target_id };
        }
        self.enter_project_step(&mut draft);
        self.keep(draft);
        DashboardAction::Nothing
    }

    /// Go on from the profile, the target or the bundle of a new session.
    pub fn advance_new_wizard(&mut self, draft: Draft) -> (action: DashboardAction)
        requires
            draft.step == WizardStep::Bundle || old(self)@.has_target(draft@),
            draft@.purpose is New,
            draft.step == WizardStep::Profile || draft.step == WizardStep::Target || draft.step
                == WizardStep::Bundle,
        ensures
            (final(self)@, action@) == old(self)@.new_advanced(draft@),
            old(self)@.fits(draft@) && (draft.step == WizardStep::Bundle
                ==> old(self)@.bundle_chosen(draft@)) ==> final(self)@.well_formed(),
    {
        let mut draft = draft;
        match draft.step {
            WizardStep::Profile => {
                let action = self.enter_target_step(&mut draft);
                self.keep(draft);
                action
            },
            WizardStep::Bundle => {
                draft.go_to_step(WizardStep::Review);
                self.keep(draft);
                DashboardAction::Nothing
            },
            _ => self.advance_from_target(draft),
        }
    }
}

// --- Checks before a session is created ---

impl DashboardStateView {
    /// The state and the draft with the answers of a prerequisite check
    /// discarded, and answers still under way dropped.
    pub open spec fn checks_discarded(self, draft: DraftView) -> (DashboardStateView, DraftView) {
        (self.preflight_invalidated(), draft.with_new(draft.new_part().unchecked()))
    }

    /// The check a creation review needs and has not begun: a bare target
    /// wants its directory inspected; any other wants its attached
    /// directories checked, then its network sources.
    pub open spec fn owed_check(self, draft: DraftView) -> Option<DashboardActionView> {
        let part = draft.new_part();
        let target = self.target(draft.target);
        if draft.step != WizardStep::Review || part.remote_preflight_in_flight
            || part.remote_repositories is Some || part.remote_preflight_error is Some {
            None
        } else if target.template.bare_project {
            if part.options_for(target.id) is Some {
                None
            } else {
                Some(
                    DashboardActionView::ValidateProjectDirectory {
                        target_template_id: target.id,
                        directory: trimmed(part.project_directory.text),
                    },
                )
            }
        } else if draft.mounts.mounts.len() == 0 {
            Some(DashboardActionView::PreflightCreateSession(self.session_request(draft)))
        } else {
            Some(
                DashboardActionView::ValidateSessionMounts {
                    target_template_id: target.id,
                    mounts: draft.mounts.mounts,
                    launch: LaunchView::Create(self.session_request(draft)),
                },
            )
        }
    }

    /// The state once the next owed check is begun, and that check.
    pub open spec fn check_taken(self) -> (DashboardStateView, Option<DashboardActionView>) {
        match self.mode {
            ModeView::Wizard(draft) => if draft.step == WizardStep::Target {
                self.checking_targets()
            } else if draft.purpose is New {
                match self.owed_check(draft) {
                    Some(check) => (
                        self.showing(
                            draft.with_new(
                                NewSessionView {
                                    remote_preflight_in_flight: true,
                                    ..draft.new_part()
                                },
                            ),
                        ),
                        Some(check),
                    ),
                    None => (self, None),
                }
            } else {
                (self, None)
            },
            _ => (self, None),
        }
    }

    /// What submitting the creation review comes to. An isolated session is
    /// created only from a completed prerequisite check; retrying clears the
    /// failure so that the check starts again.
    pub open spec fn create_submitted(self, draft: DraftView) -> (
        DashboardStateView,
        DashboardActionView,
    ) {
        let part = draft.new_part();
        let target = self.target(draft.target);
        let retrying = self.showing(
            draft.with_new(NewSessionView { remote_preflight_error: None, ..part }),
        );
        let create = DashboardActionView::CreateSession(self.session_request(draft));
        if !target.template.bare_project {
            if part.remote_repositories is Some && part.remote_preflight_error is None {
                (self.closed(), create)
            } else {
                (retrying, DashboardActionView::Nothing)
            }
        } else if part.options_for(target.id) is None {
            (retrying, DashboardActionView::Nothing)
        } else if draft.mounts.mounts.len() == 0 {
            (self.closed(), create)
        } else {
            (
                self.showing(draft),
                DashboardActionView::ValidateSessionMounts {
                    target_template_id: target.id,
                    mounts: draft.mounts.mounts,
                    launch: LaunchView::Create(self.session_request(draft)),
                },
            )
        }
    }
}

/// A session is asked for with what its draft holds: its workspace, its
/// profile, its target and its size, and the decision about delegation where
/// its harness has one.
pub proof fn law_creation_carries_draft(state: DashboardStateView, draft: DraftView)
    requires
        draft.purpose is New,
    ensures
        ({
            let request = state.session_request(draft);
            let profile = enabled_choices(state.config.profiles)[draft.profile as int];
            &&& request.workspace_id == draft.workspace_id
            &&& request.profile_id == profile.id
            &&& request.target_template_id == state.config.targets[draft.target as int].id
            &&& request.resource_allocation == draft.resource_allocation
            &&& request.mjolnir_subagents matches Some(wanted) ==> wanted
                == draft.new_part().mjolnir_subagents
            &&& request.mjolnir_subagents is Some <==> profile.kind == HarnessKind::Claude
                || profile.kind == HarnessKind::Codex
        }),
{
}

/// A session with a machine of its own gets the selected bundle and every
/// attached directory; no directory of the host, and no worktree there.
pub proof fn law_isolated_creation_takes_attachments(state: DashboardStateView, draft: DraftView)
    requires
        draft.purpose is New,
        !state.config.targets[draft.target as int].template.bare_project,
    ensures
        ({
            let request = state.session_request(draft);
            &&& same_attachments(request.additional_mounts, draft.mounts.mounts)
            &&& request.project == ProjectContextView::Bundle(
                bundle_order(state.config, state.state)[draft.new_part().bundle as int],
            )
            &&& request.project_directory is None
            &&& !request.create_managed_worktree
        }),
{
}

/// A session on the host itself works in the typed directory and has nothing
/// attached. It gets a worktree of its own exactly where one was asked for and
/// that very directory, on that very target, was found to allow one.
pub proof fn law_bare_creation_works_in_directory(state: DashboardStateView, draft: DraftView)
    requires
        draft.purpose is New,
        state.config.targets[draft.target as int].template.bare_project,
    ensures
        ({
            let request = state.session_request(draft);
            let part = draft.new_part();
            let typed = part.project_directory.text;
            &&& request.project == ProjectContextView::Directory(typed)
            &&& request.project_directory == Some(trimmed(typed))
            &&& request.additional_mounts.len() == 0
            &&& request.create_managed_worktree <==> {
                &&& part.create_managed_worktree
                &&& part.worktree_options matches Some(found) && {
                    &&& found.target_id == state.config.targets[draft.target as int].id
                    &&& found.directory == trimmed(typed)
                    &&& found.options.available
                }
            }
        }),
{
}

/// Submitting a review whose checks have passed asks for the session that the
/// draft describes, and closes the wizard; before that nothing is created.
pub proof fn law_creation_once_checked(state: DashboardStateView, draft: DraftView)
    requires
        draft.purpose is New,
    ensures
        ({
            let part = draft.new_part();
            let target = state.config.targets[draft.target as int];
            let (after, action) = state.create_submitted(draft);
            let checked = if target.template.bare_project {
                &&& draft.mounts.mounts.len() == 0
                &&& part.worktree_options matches Some(found) && found.target_id == target.id
                    && found.directory == trimmed(part.project_directory.text)
            } else {
                part.remote_repositories is Some && part.remote_preflight_error is None
            };
            &&& action is CreateSession <==> checked
            &&& action matches DashboardActionView::CreateSession(request) ==> {
                &&& request == state.session_request(draft)
                &&& after.mode == ModeView::Dashboard
                &&& after.preflight_generation != state.preflight_generation
            }
            &&& !checked ==> {
                &&& after.mode matches ModeView::Wizard(kept)
                &&& kept.step == draft.step && kept.profile == draft.profile
                &&& kept.target == draft.target && kept.mounts == draft.mounts
                &&& kept.resource_allocation == draft.resource_allocation
            }
        }),
{
}

/// The check that a review has done concerns what it would create: the typed
/// directory on a bare target, and otherwise the session asked for, with all
/// of its attached directories where it has some.
pub proof fn law_check_concerns_draft(state: DashboardStateView, draft: DraftView)
    requires
        state.mode == ModeView::Wizard(draft),
        draft.purpose is New,
        draft.step == WizardStep::Review,
    ensures
        ({
            let part = draft.new_part();
            let target = state.config.targets[draft.target as int];
            let (after, check) = state.check_taken();
            let settled = {
                ||| part.remote_preflight_in_flight
                ||| part.remote_repositories is Some
                ||| part.remote_preflight_error is Some
                ||| target.template.bare_project && {
                    &&& part.worktree_options matches Some(found)
                    &&& found.target_id == target.id
                    &&& found.directory == trimmed(part.project_directory.text)
                }
            };
            &&& check is None <==> settled
            &&& check is None ==> after == state
            &&& check is Some ==> {
                &&& after.mode matches ModeView::Wizard(kept)
                &&& kept.new_part().remote_preflight_in_flight
                &&& kept.mounts == draft.mounts && kept.target == draft.target
                &&& kept.profile == draft.profile && kept.step == WizardStep::Review
                &&& kept.new_part().bundle == part.bundle
                &&& kept.new_part().project_directory == part.project_directory
            }
            &&& check matches Some(begun) ==> {
                if target.template.bare_project {
                    &&& begun matches DashboardActionView::ValidateProjectDirectory {
                        target_template_id,
                        directory,
                    }
                    &&& target_template_id == target.id
                    &&& directory == trimmed(part.project_directory.text)
                } else if draft.mounts.mounts.len() == 0 {
                    begun == DashboardActionView::PreflightCreateSession(
                        state.session_request(draft),
                    )
                } else {
                    &&& begun matches DashboardActionView::ValidateSessionMounts {
                        target_template_id,
                        mounts,
                        launch,
                    }
                    &&& target_template_id == target.id
                    &&& same_attachments(mounts, draft.mounts.mounts)
                    &&& launch == LaunchView::Create(state.session_request(draft))
                }
            }
        }),
{
}

/// On the target's step the targets are checked, and nothing else is; what is
/// no wizard has nothing checked.
pub proof fn law_target_step_checks_targets(state: DashboardStateView)
    ensures
        state.mode matches ModeView::Wizard(draft) ==> draft.step == WizardStep::Target
            ==> state.check_taken() == state.checking_targets(),
        state.mode !is Wizard ==> state.check_taken() == (state, None::<DashboardActionView>),
{
}

/// A typed directory in good form is looked at on the target it is meant for;
/// one that is empty, or has a fault, is not, and the step says why.
pub proof fn law_typed_directory_looked_at(
    state: DashboardStateView,
    draft: DraftView,
    fault: Option<Seq<char>>,
)
    requires
        draft.purpose is New,
    ensures
        ({
            let typed = trimmed(draft.new_part().project_directory.text);
            let (after, action) = state.project_validated(draft, fault);
            &&& typed.len() > 0 && fault is None ==> {
                &&& action matches DashboardActionView::ValidateProjectDirectory {
                    target_template_id,
                    directory,
                }
                &&& directory == typed
                &&& target_template_id == state.config.targets[draft.target as int].id
            }
            &&& typed.len() == 0 || fault is Some ==> action == DashboardActionView::Nothing
            &&& after.mode matches ModeView::Wizard(kept)
            &&& kept.step == draft.step
            &&& kept.new_part().project_directory == draft.new_part().project_directory
            &&& kept.new_part().project_directory_error is Some <==> typed.len() == 0 || fault
                is Some
            &&& typed.len() > 0 ==> kept.new_part().project_directory_error == fault
            &&& typed.len() > 0 && fault is None ==> kept.form.submission_pending
        }),
{
}

/// Going on goes one step at a time, from the profile to the target, from
/// there to the project, and from a bundle to the review. What was chosen
/// before is kept.
pub proof fn law_new_session_steps(state: DashboardStateView, draft: DraftView)
    requires
        draft.purpose is New,
        draft.step == WizardStep::Profile || draft.step == WizardStep::Target || draft.step
            == WizardStep::Bundle,
    ensures
        state.new_advanced(draft).0.mode matches ModeView::Wizard(moved) && {
            let bare = state.config.targets[draft.target as int].template.bare_project;
            let refused = state.target_refusal(draft) is Some;
            &&& moved.step == match draft.step {
                WizardStep::Profile => WizardStep::Target,
                WizardStep::Bundle => WizardStep::Review,
                _ => if refused {
                    WizardStep::Target
                } else if bare {
                    WizardStep::ProjectDirectory
                } else {
                    WizardStep::Bundle
                },
            }
            &&& draft.step == WizardStep::Target && refused ==> state.new_advanced(draft).0.notice
                is Some
            &&& moved.profile == draft.profile && moved.target == draft.target
            &&& moved.workspace_id == draft.workspace_id
            &&& moved.mounts.mounts == draft.mounts.mounts
            &&& moved.purpose is New && moved.new_part().bundle == draft.new_part().bundle
            &&& draft.resource_allocation is Some ==> moved.resource_allocation
                == draft.resource_allocation
        },
{
}

/// The target's step is entered with the size the draft has, or else with the
/// one its target starts with; sizes that are missing are looked up.
pub proof fn law_target_step_sizes(state: DashboardStateView, draft: DraftView)
    ensures
        ({
            let (moved, action) = state.entering_target(draft);
            let kind = state.config.targets[draft.target as int].template.kind;
            &&& moved.step == WizardStep::Target && moved.target == draft.target
            &&& moved.form.focused == Some(WizardControl::TargetList)
            &&& draft.resource_allocation is Some ==> moved.resource_allocation
                == draft.resource_allocation && action == DashboardActionView::Nothing
            &&& draft.resource_allocation is None ==> {
                &&& moved.resource_allocation == state.target_prepared(draft).resource_allocation
                &&& kind != TargetKind::AwsEc2 ==> action == DashboardActionView::Nothing
                &&& kind == TargetKind::AwsEc2 && draft.aws_options.len() == 0 ==> action
                    is ResolveAwsResourceOptions
            }
            &&& moved.profile == draft.profile && moved.mounts == draft.mounts
            &&& moved.purpose == draft.purpose
        }),
{
    let target = state.config.targets[draft.target as int];
    law_lookup_finds_first::<TargetSizes>(draft.aws_options, target.id);
}

/// A target is gone on from only where it can be used, and an instance only
/// with a size.
/// A target is gone on from only where it can be used, and an instance only
/// with a size.
pub proof fn law_target_needs_size(state: DashboardStateView, draft: DraftView)
    ensures
        state.target_refusal(draft) is None ==> {
            &&& state.target_rejection(draft, state.config.targets[draft.target as int].id) is None
            &&& state.config.targets[draft.target as int].template.kind == TargetKind::AwsEc2
                ==> draft.resource_allocation is Some
        },
        state.target_rejection(draft, state.config.targets[draft.target as int].id) is None && (
        draft.resource_allocation is Some || state.config.targets[draft.target as int].template.kind
            != TargetKind::AwsEc2) ==> state.target_refusal(draft) is None,
{
}

/// On a bare target the directory that was typed stays; where none was, the
/// first that is remembered for the host is proposed. A quick launch works in
/// the directory it was begun in on this machine, and elsewhere in the one it
/// worked in before, if it was that target.
pub proof fn law_directory_proposed(state: DashboardStateView, draft: DraftView)
    requires
        draft.purpose is New,
        state.config.targets[draft.target as int].template.bare_project,
    ensures
        ({
            let target = state.config.targets[draft.target as int];
            let typed = draft.new_part().project_directory.text;
            let moved = state.at_project(draft);
            let proposed = moved.new_part().project_directory.text;
            let known = remembered(state.state.project_directories, target.template.project_host);
            &&& moved.step == WizardStep::ProjectDirectory
            &&& moved.new_part().project_history == known
            &&& state.go is None && typed.len() > 0 ==> proposed == typed
            &&& state.go is None && typed.len() == 0 && known.len() > 0 ==> proposed == known[0]
            &&& state.go is None && typed.len() == 0 && known.len() == 0 ==> proposed.len() == 0
            &&& state.go matches Some(go) ==> {
                &&& target.template.kind == TargetKind::LocalBare ==> proposed == go.directory
                &&& target.template.kind != TargetKind::LocalBare ==> match go.recipe {
                    Some(recipe) => if recipe.target_id == target.id {
                        match recipe.project_directory {
                            Some(directory) => proposed == directory,
                            None => proposed.len() == 0,
                        }
                    } else {
                        proposed.len() == 0
                    },
                    None => proposed.len() == 0,
                }
            }
        }),
{
}

/// What is remembered for a host is what its own entry holds, and nothing for
/// a host without one.
pub proof fn law_remembered_for_host(list: Seq<HostPathsView>, host: Seq<char>, i: int)
    requires
        0 <= i < list.len(),
        list[i].host == host,
        forall|j: int| 0 <= j < i ==> (#[trigger] list[j]).host != host,
    ensures
        remembered(list, Some(host)) == list[i].paths,
        remembered(list, None).len() == 0,
{
    law_lookup_finds_first::<HostPaths>(list, host);
}

/// A bundle that was made is the one the draft goes to its review with; the
/// checks are to be done again.
pub proof fn law_made_bundle_chosen(
    state: DashboardStateView,
    draft: DraftView,
    config: ConfigView,
    bundle_id: Seq<char>,
    i: int,
)
    requires
        state.mode == ModeView::Wizard(draft),
        draft.purpose is New,
        draft.new_part().bundle_creation_in_flight,
        0 <= i < bundle_order(config, state.state).len() <= usize::MAX,
        bundle_order(config, state.state)[i] == bundle_id,
    ensures
        ({
            let after = state.bundle_created(config, bundle_id);
            &&& after.config == config
            &&& after.preflight_generation != state.preflight_generation
            &&& after.mode matches ModeView::Wizard(landed)
            &&& landed.step == WizardStep::Review
            &&& landed.purpose matches PurposeView::New(part)
            &&& part.bundle < bundle_order(config, state.state).len()
            &&& bundle_order(config, state.state)[part.bundle as int] == bundle_id
            &&& !part.bundle_creation_in_flight
            &&& part.remote_repositories is None && part.remote_preflight_error is None
            &&& landed.target == draft.target && landed.profile == draft.profile
            &&& landed.mounts == draft.mounts
        }),
{
    law_lookup_finds_first::<String>(bundle_order(config, state.state), bundle_id);
}

/// A bundle that was made and is not configured, or could not be made, leaves
/// the draft where it is, ready for another try, with a notice.
pub proof fn law_missing_bundle_noted(
    state: DashboardStateView,
    draft: DraftView,
    config: ConfigView,
    bundle_id: Seq<char>,
    error: Seq<char>,
)
    requires
        state.mode == ModeView::Wizard(draft),
        draft.purpose is New,
        draft.new_part().bundle_creation_in_flight,
    ensures
        !bundle_order(config, state.state).contains(bundle_id) ==> {
            let after = state.bundle_created(config, bundle_id);
            &&& after.notice is Some
            &&& after.mode matches ModeView::Wizard(kept)
            &&& kept.step == draft.step && kept.new_part().bundle == draft.new_part().bundle
            &&& !kept.new_part().bundle_creation_in_flight
        },
        ({
            let after = state.bundle_failed(error);
            &&& after.notice is Some
            &&& after.mode matches ModeView::Wizard(kept)
            &&& kept.step == draft.step
            &&& kept.new_part().new_bundle_repositories == draft.new_part().new_bundle_repositories
            &&& kept.new_part().new_bundle_source == draft.new_part().new_bundle_source
            &&& !kept.new_part().bundle_creation_in_flight
        }),
{
    let order = bundle_order(config, state.state);
    law_lookup_finds_first::<String>(order, bundle_id);
    if let Some(i) = key_position::<String>(order, bundle_id) {
        assert(order[i] == bundle_id);
    }
}

/// Sizes that were found reach the draft on screen, and nothing where there is
/// none.
pub proof fn law_found_sizes_reach_draft(
    state: DashboardStateView,
    target_id: Seq<char>,
    options: Seq<ResourceAllocationView>,
)
    ensures
        state.mode matches ModeView::Wizard(draft) ==> {
            let after = state.sizes_resolved(target_id, Ok(options));
            &&& after.mode matches ModeView::Wizard(kept)
            &&& lookup::<TargetSizes>(kept.aws_options, target_id) matches Some(sizes)
            &&& sizes.options == options
            &&& kept.target == draft.target && kept.purpose == draft.purpose
        },
        state.mode !is Wizard ==> state.sizes_resolved(target_id, Ok(options)) == state,
{
    if let ModeView::Wizard(draft) = state.mode {
        law_stored_read_back::<TargetSizes>(
            draft.aws_options,
            TargetSizesView { target_id, options },
            target_id,
        );
    }
}

/// A bundle that no draft waits for changes the configuration alone.
pub proof fn law_unawaited_bundle_ignored(
    state: DashboardStateView,
    config: ConfigView,
    bundle_id: Seq<char>,
)
    requires
        state.mode matches ModeView::Wizard(draft) ==> draft.purpose matches PurposeView::New(part)
            ==> !part.bundle_creation_in_flight,
    ensures
        state.bundle_created(config, bundle_id).mode == state.mode,
        state.bundle_created(config, bundle_id).config == config,
        state.bundle_created(config, bundle_id).state == state.state,
{
}

/// A review that was handed its check is owed none until the answer comes: a
/// check runs one at a time.
pub proof fn law_one_check_at_a_time(state: DashboardStateView)
    requires
        state.mode matches ModeView::Wizard(draft) && draft.purpose is New && draft.step
            == WizardStep::Review,
    ensures
        state.check_taken().1 is Some ==> state.check_taken().0.check_taken().1 is None,
{
}

/// An isolated session is created from its review only once the prerequisite
/// check has found its repositories.
pub proof fn law_isolated_creation_is_checked(state: DashboardStateView, draft: DraftView)
    requires
        draft.purpose is New,
        draft.target < state.config.targets.len(),
        !state.template(draft.target).bare_project,
    ensures
        state.create_submitted(draft).1 is CreateSession ==> draft.new_part().remote_repositories
            is Some && draft.new_part().remote_preflight_error is None,
{
}

/// Retrying a failed check makes the review owe it again.
pub proof fn law_retry_owes_check(state: DashboardStateView, draft: DraftView)
    requires
        draft.purpose is New,
        draft.step == WizardStep::Review,
        draft.target < state.config.targets.len(),
        !state.template(draft.target).bare_project,
        draft.new_part().remote_preflight_error is Some,
        draft.new_part().remote_repositories is None,
        !draft.new_part().remote_preflight_in_flight,
    ensures
        state.create_submitted(draft).0.check_taken().1 is Some,
{
}

impl DashboardState {
    /// Discard the answers of a prerequisite check: what would be created has
    /// changed.
    pub fn invalidate_new_remote_preflight(&mut self, draft: &mut Draft)
        requires
            old(draft)@.purpose is New,
        ensures
            (final(self)@, final(draft)@) == old(self)@.checks_discarded(old(draft)@),
    {
        self.invalidate_session_preflight();
        match &mut draft.purpose {
            Purpose::New(part) => {
                part.discard_checks();
            },
            Purpose::Resume(_) => {},
        }
    }

    /// Create launches an isolated session only from a completed prerequisite
    /// check. Retry clears the failure so [`Self::take_prerequisite_check`]
    /// starts the check again.
    pub fn preflight_create_session_action(&mut self, draft: Draft) -> (action: DashboardAction)
        requires
            old(self)@.fits(draft@),
            draft@.purpose is New,
            draft.step == WizardStep::Review,
        ensures
            (final(self)@, action@) == old(self)@.create_submitted(draft@),
            final(self)@.well_formed(),
    {
        broadcast use group_views;

        let mut draft = draft;
        let target = &self.config.targets[draft.target];
        assert(self@.target(draft.target) == target@);
        let raw = target.template.bare_project;
        let (ready, request) = match &draft.purpose {
            Purpose::New(part) => (
                if raw {
                    part.selected_worktree_options(target.id.as_str()).is_some()
                } else {
                    part.remote_repositories.is_some() && part.remote_preflight_error.is_none()
                },
                Some(self.create_session_action_without_closing(&draft, part)),
            ),
            Purpose::Resume(_) => (false, None),
        };
        if ready {
            if let Some(request) = request {
                if raw && draft.mounts.mounts.len() > 0 {
                    let action = DashboardAction::ValidateSessionMounts {
                        target_template_id: target.id.duplicate(),
                        mounts: draft.mounts.mounts.duplicate(),
                        launch: Launch::Create(request),
                    };
                    self.keep(draft);
                    return action;
                }
                self.cancel_modal();
                return DashboardAction::CreateSession(request);
            }
        }
        match &mut draft.purpose {
            Purpose::New(part) => {
                part.remote_preflight_error = None;
            },
            Purpose::Resume(_) => {},
        }
        self.keep(draft);
        DashboardAction::Nothing
    }

    fn review_check(&self, draft: &Draft, part: &NewSession) -> (check: Option<DashboardAction>)
        requires
            self@.fits(draft@),
            draft@.purpose == PurposeView::New(part@),
        ensures
            check.deep_view() == self@.owed_check(draft@),
    {
        broadcast use group_views;

        if draft.step != WizardStep::Review || part.remote_preflight_in_flight
            || part.remote_repositories.is_some() || part.remote_preflight_error.is_some() {
            return None;
        }
        let target = &self.config.targets[draft.target];
        assert(self@.target(draft.target) == target@);
        if target.template.bare_project {
            if part.selected_worktree_options(target.id.as_str()).is_some() {
                return None;
            }
            return Some(
                DashboardAction::ValidateProjectDirectory {
                    target_template_id: target.id.duplicate(),
                    directory: part.project_directory.trimmed_text(),
                },
            );
        }
        let request = self.create_session_action_without_closing(draft, part);
        if draft.mounts.mounts.len() == 0 {
            Some(DashboardAction::PreflightCreateSession(request))
        } else {
            Some(
                DashboardAction::ValidateSessionMounts {
                    target_template_id: target.id.duplicate(),
                    mounts: draft.mounts.mounts.duplicate(),
                    launch: Launch::Create(request),
                },
            )
        }
    }

    /// Starts the check that the draft on screen needs before it can go on:
    /// its targets' readiness on the target step; on an isolated creation
    /// review its attached directories first, then its network sources. The
    /// dashboard loop asks after every event and background update, so a
    /// review never waits on a check that nothing started, whichever path
    /// opened it.
    pub fn take_prerequisite_check(&mut self) -> (check: Option<DashboardAction>)
        requires
            old(self)@.well_formed(),
        ensures
            (final(self)@, check.deep_view()) == old(self)@.check_taken(),
            final(self)@.well_formed(),
    {
        let on_target = match &self.mode {
            Mode::Wizard(draft) => draft.step == WizardStep::Target,
            _ => false,
        };
        if on_target {
            return self.begin_target_readiness_checks();
        }
        let check = match &self.mode {
            Mode::Wizard(draft) => match &draft.purpose {
                Purpose::New(part) => self.review_check(draft, part),
                Purpose::Resume(_) => None,
            },
            _ => None,
        };
        if check.is_some() {
            if let Some(mut draft) = self.take_draft() {
                match &mut draft.purpose {
                    Purpose::New(part) => {
                        part.remote_preflight_in_flight = true;
                    },
                    Purpose::Resume(_) => {},
                }
                self.keep(draft);
            }
        }
        check
    }
}

// --- Answers ---

impl DraftView {
    /// The draft at its review, with the bundle at `index` chosen.
    pub open spec fn reviewing_bundle(self, index: usize) -> DraftView {
        DraftView {
            step: WizardStep::Review,
            ..self.with_new(NewSessionView { bundle: index, ..self.new_part() })
        }
    }
}

impl DashboardStateView {
    /// The state once the draft has the bundle it asked for, if the
    /// configuration lists it.
    pub open spec fn bundle_landed(self, draft: DraftView, bundle_id: Seq<char>) -> DashboardStateView {
        match key_position::<String>(bundle_order(self.config, self.state), bundle_id) {
            None => self.noting(
                "Created bundle "@ + quoted(bundle_id) + " was not found."@,
            ).showing(draft),
            Some(index) => {
                let (invalidated, unchecked) = self.checks_discarded(draft);
                invalidated.noting("Created bundle "@ + bundle_id + "."@).showing(
                    unchecked.reviewing_bundle(index as usize),
                )
            },
        }
    }

    /// The state once a bundle was created: the draft that asked for it goes
    /// on to its review.
    pub open spec fn bundle_created(self, config: ConfigView, bundle_id: Seq<char>) -> DashboardStateView {
        let renewed = DashboardStateView { config, ..self };
        match self.mode {
            ModeView::Wizard(draft) if draft.purpose is New
                && draft.new_part().bundle_creation_in_flight => renewed.bundle_landed(
                draft.with_new(
                    NewSessionView { bundle_creation_in_flight: false, ..draft.new_part() },
                ),
                bundle_id,
            ),
            _ => renewed,
        }
    }

    /// The state once creating a bundle failed: the draft stays as it was,
    /// ready for another try.
    pub open spec fn bundle_failed(self, error: Seq<char>) -> DashboardStateView {
        let reopened = match self.mode {
            ModeView::Wizard(draft) if draft.purpose is New
                && draft.new_part().bundle_creation_in_flight => self.showing(
                draft.with_new(
                    NewSessionView { bundle_creation_in_flight: false, ..draft.new_part() },
                ),
            ),
            _ => self,
        };
        reopened.noting("Could not create bundle: "@ + error)
    }

    /// The state with the sizes that a target offers.
    pub open spec fn sizes_resolved(
        self,
        target_id: Seq<char>,
        result: Result<Seq<ResourceAllocationView>, Seq<char>>,
    ) -> DashboardStateView {
        match self.mode {
            ModeView::Wizard(draft) => self.showing(
                self.with_aws_options(draft, target_id, result),
            ),
            _ => self,
        }
    }
}

impl DashboardState {
    /// Take the draft on to its review with the bundle at `index`.
    fn choose_created_bundle(&mut self, draft: Draft, index: usize, bundle_id: &str)
        requires
            draft@.purpose is New,
        ensures
            final(self)@ == ({
                let (invalidated, unchecked) = old(self)@.checks_discarded(draft@);
                invalidated.noting("Created bundle "@ + bundle_id@ + "."@).showing(
                    unchecked.reviewing_bundle(index),
                )
            }),
    {
        let mut draft = draft;
        self.invalidate_new_remote_preflight(&mut draft);
        match &mut draft.purpose {
            Purpose::New(part) => {
                part.bundle = index;
            },
            Purpose::Resume(_) => {},
        }
        draft.step = WizardStep::Review;
        let mut text = joined("Created bundle ", bundle_id);
        text.append(".");
        self.set_notice(text);
        self.keep(draft);
    }

    /// Say that the created bundle is not among the configured ones.
    fn note_missing_bundle(&mut self, bundle_id: &str)
        ensures
            final(self)@ == old(self)@.noting(
                "Created bundle "@ + quoted(bundle_id@) + " was not found."@,
            ),
    {
        let mut text = joined("Created bundle ", quoted_text(bundle_id).as_str());
        text.append(" was not found.");
        self.set_notice(text);
    }

    /// Choose the created bundle for the draft that asked for it, if the
    /// configuration lists it.
    fn land_created_bundle(&mut self, draft: Draft, bundle_id: &str)
        requires
            draft@.purpose is New,
        ensures
            final(self)@ == old(self)@.bundle_landed(draft@, bundle_id@),
            old(self)@.fits(draft@) ==> final(self)@.well_formed(),
    {
        let bundles = bundle_ids_by_recent_creation(&self.config, &self.state);
        match position_of(&bundles, bundle_id) {
            None => {
                self.note_missing_bundle(bundle_id);
                self.keep(draft);
            },
            Some(index) => self.choose_created_bundle(draft, index, bundle_id),
        }
    }

    /// Take in the configuration with a bundle that was created for the
    /// draft, and go on to its review.
    pub fn apply_created_bundle(&mut self, config: Config, bundle_id: &str) -> (action:
        DashboardAction)
        ensures
            final(self)@ == old(self)@.bundle_created(config@, bundle_id@),
            action@ == DashboardActionView::Nothing,
            (DashboardStateView { config: config@, ..old(self)@ }).well_formed()
                ==> final(self)@.well_formed(),
    {
        broadcast use group_views;

        self.config = config;
        let waiting = match &self.mode {
            Mode::Wizard(draft) => match &draft.purpose {
                Purpose::New(part) => part.bundle_creation_in_flight,
                Purpose::Resume(_) => false,
            },
            _ => false,
        };
        if !waiting {
            return DashboardAction::Nothing;
        }
        if let Some(mut draft) = self.take_draft() {
            match &mut draft.purpose {
                Purpose::New(part) => {
                    part.bundle_creation_in_flight = false;
                },
                Purpose::Resume(_) => {},
            }
            self.land_created_bundle(draft, bundle_id);
        }
        DashboardAction::Nothing
    }

    /// Reopens the new-bundle editor after its asynchronous create failed.
    /// The draft remains untouched so the user can correct and retry it.
    pub fn fail_bundle_creation(&mut self, error: &str)
        ensures
            final(self)@ == old(self)@.bundle_failed(error@),
            old(self)@.well_formed() ==> final(self)@.well_formed(),
    {
        if let Mode::Wizard(draft) = &mut self.mode {
            if let Purpose::New(part) = &mut draft.purpose {
                if part.bundle_creation_in_flight {
                    part.bundle_creation_in_flight = false;
                }
            }
        }
        self.set_notice(joined("Could not create bundle: ", error));
    }

    /// Take in the sizes that a target offers.
    pub fn apply_aws_resource_options(
        &mut self,
        target_id: &str,
        result: Result<Vec<ResourceAllocation>, String>,
    )
        requires
            old(self)@.well_formed(),
        ensures
            final(self)@ == old(self)@.sizes_resolved(
                target_id@,
                match result {
                    Ok(options) => Ok(options.deep_view()),
                    Err(error) => Err(error@),
                },
            ),
            final(self)@.well_formed(),
    {
        if let Some(mut draft) = self.take_draft() {
            self.apply_wizard_aws_options(&mut draft, target_id, result);
            self.keep(draft);
        }
    }
}

} // verus!
