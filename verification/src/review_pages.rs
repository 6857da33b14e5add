//! What the reviews of new, resumed, moved and restored sessions say.

use vstd::prelude::*;

use crate::catalog::{bundle_ids_by_recent_creation, enabled_profiles};
#[allow(unused_imports)]
use crate::catalog::{bundle_order, enabled_choices};
use crate::dashboard_state::DashboardState;
#[allow(unused_imports)]
use crate::dashboard_state::{DashboardStateView, ProjectContextView};
use crate::drafts::{Draft, NewSession, ResumeSource, Resumption};
#[allow(unused_imports)]
use crate::drafts::{DraftView, PurposeView, ResumptionView};
use crate::duplicate::{joined, owned, Duplicate};
#[allow(unused_imports)]
use crate::duplicate::group_views;
use crate::lists::find;
#[allow(unused_imports)]
use crate::lists::lookup;
use crate::records::{
    Compatibility, Profile, QueuedPrompt, ResumePlan, SessionDetail, TargetFit, TargetKind,
    TargetTemplate,
};
#[allow(unused_imports)]
use crate::records::{
    CompatibilityView, ProfileView, QueueDisposition, QueuedPromptView, SessionRecordView,
    TargetTemplateView,
};
use crate::review::{QueueChoice, ReviewPage, WorktreeChoice};
#[allow(unused_imports)]
use crate::review::{QueueChoiceView, ReviewPageView, WorktreeChoiceView};
#[allow(unused_imports)]
use crate::text::trimmed;

verus! {

// --- Reviews ---

impl DashboardStateView {
    /// What to warn of: a target that relies on the harness's own approval
    /// mode, and a harness that has none.
    pub open spec fn unsandboxed_warning(self, template: TargetTemplateView, profile_id: Seq<char>) -> Option<
        Seq<char>,
    > {
        if template.kind == TargetKind::LocalBare || template.guardian {
            match lookup::<Profile>(self.config.profiles, profile_id) {
                Some(profile) => profile.warning,
                None => None,
            }
        } else {
            None
        }
    }

    /// The review of a new session.
    pub open spec fn new_review(self, draft: DraftView) -> ReviewPageView {
        let part = draft.new_part();
        let target = self.target(draft.target);
        let raw = target.template.bare_project;
        let options = part.options_for(target.id);
        let profile_id = enabled_choices(self.config.profiles)[draft.profile as int].id;
        ReviewPageView {
            worktree: if raw {
                Some(
                    WorktreeChoiceView {
                        checked: part.create_managed_worktree,
                        available: (options matches Some(found) && found.available),
                    },
                )
            } else {
                None
            },
            subagents: if self.subagent_choice(draft) {
                Some(part.mjolnir_subagents)
            } else {
                None
            },
            profile_id,
            project_label: if raw {
                "Project directory"@
            } else {
                "Project"@
            },
            project: if raw {
                trimmed(part.project_directory.text)
            } else {
                bundle_order(self.config, self.state)[part.bundle as int]
            },
            project_note: ""@,
            target,
            allocation: draft.resource_allocation,
            mounts: draft.mounts.mounts,
            selected_mount: draft.mounts.history_index,
            title: " New session · 4/4 review "@,
            submit_label: if part.remote_preflight_error is Some {
                "Retry"@
            } else {
                "Create"@
            },
            moving: false,
            preparing: false,
            preparation_error: None,
            submit_enabled: !raw || options is Some || part.remote_preflight_error is Some,
            active_interruption: false,
            in_place_move: false,
            source_unavailable: false,
            clear_resource_allocation: false,
            queue: None,
            queued_entries: Seq::empty(),
            prepared_entries: Seq::empty(),
            remote_repositories: part.remote_repositories,
            remote_preflight_in_flight: part.remote_preflight_in_flight,
            remote_preflight_error: part.remote_preflight_error,
            local_changes_excluded: !raw,
            conversion: None,
            warning: self.unsandboxed_warning(target.template, profile_id),
        }
    }

    /// The project directory that a session is resumed in where it stays in
    /// place on the target.
    pub open spec fn reused_directory(self, session_id: Seq<char>, target_id: Seq<char>) -> Option<
        Seq<char>,
    > {
        match self.session(session_id) {
            Some(session) => match lookup::<TargetFit>(session.fits, target_id) {
                Some(entry) => if entry.fit == CompatibilityView::Usable(ResumePlan::InPlace) {
                    session.project_directory
                } else {
                    None
                },
                None => None,
            },
            None => None,
        }
    }

    /// The prompts that wait for a session.
    pub open spec fn waiting_prompts(self, session_id: Seq<char>) -> Seq<QueuedPromptView> {
        match lookup::<SessionDetail>(self.session_details, session_id) {
            Some(detail) => detail.queued_prompts,
            None => Seq::empty(),
        }
    }

    /// The choice about queued work, where there is any: what the preparation
    /// found, or what waits for the session.
    pub open spec fn queue_choice_for(self, part: ResumptionView) -> Option<QueueChoiceView> {
        let count = match part.preparation {
            Some(preparation) => preparation.queued_commands.len(),
            None => self.waiting_prompts(part.session_id).len(),
        };
        if count > 0 {
            Some(QueueChoiceView { count: count as usize, discard: part.discard_queue })
        } else {
            None
        }
    }

    /// The destination has a size of its own, so that the source's size does
    /// not come along.
    pub open spec fn size_replaced(self, draft: DraftView) -> bool {
        let part = draft.resume_part();
        let kind = self.template(draft.target).kind;
        match part.preparation {
            Some(preparation) => preparation.selection.clear_resource_allocation,
            None => part.moving && (self.session(part.session_id) matches Some(session)
                && session.resource_allocation is Some) && (kind == TargetKind::LocalBare || kind
                == TargetKind::SshBare),
        }
    }

    /// The name of the profile that a resume lands on, while it is on offer.
    pub open spec fn shown_profile(self, draft: DraftView) -> Seq<char> {
        let choices = self.resume_choices(draft.resume_part());
        if draft.profile < choices.len() {
            choices[draft.profile as int].id
        } else {
            "unknown"@
        }
    }

    /// The review of a resume, a move, or a restored archive.
    pub open spec fn resume_review(self, draft: DraftView) -> ReviewPageView {
        let part = draft.resume_part();
        let target = self.target(draft.target);
        let profile_id = self.shown_profile(draft);
        let reused = self.reused_directory(part.session_id, target.id);
        ReviewPageView {
            worktree: None,
            subagents: None,
            profile_id,
            project_label: match (part.source, reused) {
                (ResumeSource::Archive, _) => "Archived session"@,
                (ResumeSource::Session, Some(_)) => "Project directory"@,
                (ResumeSource::Session, None) => "Project"@,
            },
            project: match (part.source, reused) {
                (ResumeSource::Archive, _) => part.title,
                (ResumeSource::Session, Some(directory)) => directory,
                (ResumeSource::Session, None) => match self.session(part.session_id) {
                    Some(session) => session.bundle_id,
                    None => "unknown"@,
                },
            },
            project_note: if part.source == ResumeSource::Session && reused is Some {
                " (reused)"@
            } else {
                ""@
            },
            target,
            allocation: draft.resource_allocation,
            mounts: draft.mounts.mounts,
            selected_mount: draft.mounts.history_index,
            title: resume_title(part, "3/3 review"@, "3/3 confirm"@),
            submit_label: if part.moving && part.preparation_error is Some {
                "Retry"@
            } else if part.moving {
                "Move"@
            } else if part.source == ResumeSource::Archive {
                "Restore"@
            } else {
                "Resume"@
            },
            moving: part.moving,
            preparing: part.preparing,
            preparation_error: part.preparation_error,
            submit_enabled: !part.moving || part.preparation is Some || part.preparation_error
                is Some,
            active_interruption: match part.preparation {
                Some(preparation) => preparation.active,
                None => part.moving,
            },
            in_place_move: (part.preparation matches Some(preparation) && preparation.in_place),
            source_unavailable: (part.preparation matches Some(preparation)
                && preparation.source_unavailable),
            clear_resource_allocation: self.size_replaced(draft),
            queue: self.queue_choice_for(part),
            queued_entries: if part.preparation is Some {
                Seq::empty()
            } else {
                self.waiting_prompts(part.session_id)
            },
            prepared_entries: match part.preparation {
                Some(preparation) => preparation.queued_commands,
                None => Seq::empty(),
            },
            remote_repositories: None,
            remote_preflight_in_flight: false,
            remote_preflight_error: None,
            local_changes_excluded: false,
            conversion: match part.preparation {
                Some(preparation) => preparation.conversion,
                None => None,
            },
            warning: self.unsandboxed_warning(target.template, profile_id),
        }
    }
}

/// The title bar of one step of the resume wizard. The same three steps start
/// a resumed session, a moved one, and a session restored from an archived
/// transcript, so the first word says which.
pub open spec fn resume_title(part: ResumptionView, step: Seq<char>, moving_step: Seq<char>) -> Seq<
    char,
> {
    if part.moving {
        " Move · "@ + moving_step + " "@
    } else if part.source == ResumeSource::Archive {
        " Restore · "@ + step + " "@
    } else {
        " Resume · "@ + step + " "@
    }
}

/// The review of a new session shows what creating it asks for: the profile,
/// the target, the size, the project, the attachments of an isolated session,
/// and the choices as they will be carried out.
pub proof fn law_new_review_shows_request(state: DashboardStateView, draft: DraftView)
    requires
        draft.purpose is New,
    ensures
        ({
            let page = state.new_review(draft);
            let request = state.session_request(draft);
            let bare = state.config.targets[draft.target as int].template.bare_project;
            &&& page.profile_id == request.profile_id
            &&& page.target.id == request.target_template_id
            &&& page.allocation == request.resource_allocation
            &&& page.subagents == request.mjolnir_subagents
            &&& !bare ==> page.mounts == request.additional_mounts
            &&& !bare ==> request.project == ProjectContextView::Bundle(page.project)
            &&& bare ==> request.project_directory == Some(page.project)
            &&& page.worktree is Some <==> bare
            &&& page.worktree matches Some(choice) ==> request.create_managed_worktree == (
            choice.checked && choice.available)
            &&& page.worktree is None ==> !request.create_managed_worktree
            &&& page.queue is None && !page.moving
        }),
{
}

/// The review of a resume or a move shows what submitting it asks for.
pub proof fn law_resume_review_shows_request(state: DashboardStateView, draft: DraftView)
    requires
        draft.purpose is Resume,
        draft.profile < state.resume_choices(draft.resume_part()).len(),
    ensures
        ({
            let page = state.resume_review(draft);
            let resume = state.resume_request(draft);
            let moved = state.move_request(draft, None);
            &&& page.profile_id == resume.profile_id && page.profile_id == moved.profile_id
            &&& page.target.id == resume.target_template_id
            &&& page.target.id == moved.target_template_id
            &&& page.mounts == resume.additional_mounts
            &&& page.mounts == moved.additional_mounts
            &&& page.allocation == resume.resource_allocation
            &&& page.allocation == moved.resource_allocation
            &&& page.queue matches Some(queue) ==> {
                &&& queue.discard == resume.discard_queue
                &&& queue.discard <==> moved.queue == QueueDisposition::Discard
            }
            &&& page.moving == draft.resume_part().moving
        }),
{
}

/// The review of a resume names the project it goes on with: the session's
/// bundle, or its directory where it stays in place, and an archive by its
/// title.
pub proof fn law_resumed_project_named(
    state: DashboardStateView,
    draft: DraftView,
    session: SessionRecordView,
)
    requires
        draft.purpose is Resume,
        state.session(draft.resume_part().session_id) == Some(session),
    ensures
        ({
            let page = state.resume_review(draft);
            let part = draft.resume_part();
            let target_id = state.config.targets[draft.target as int].id;
            let in_place = lookup::<TargetFit>(session.fits, target_id) matches Some(entry)
                && entry.fit == CompatibilityView::Usable(ResumePlan::InPlace);
            let reused = in_place && session.project_directory is Some;
            &&& part.source == ResumeSource::Archive ==> page.project == part.title
            &&& part.source == ResumeSource::Session && reused ==> Some(page.project)
                == session.project_directory && page.project_note == " (reused)"@
            &&& part.source == ResumeSource::Session && !reused ==> page.project
                == session.bundle_id && page.project_note == ""@
        }),
{
}

/// The size of the source is given up where the preparation says so, and
/// before there is one where a sized session moves to a bare machine.
pub proof fn law_size_given_up(
    state: DashboardStateView,
    draft: DraftView,
    session: SessionRecordView,
)
    requires
        draft.purpose is Resume,
        state.session(draft.resume_part().session_id) == Some(session),
    ensures
        ({
            let part = draft.resume_part();
            let kind = state.config.targets[draft.target as int].template.kind;
            let told = state.resume_review(draft).clear_resource_allocation;
            &&& part.preparation matches Some(preparation) ==> told
                == preparation.selection.clear_resource_allocation
            &&& part.preparation is None ==> told == (part.moving && session.resource_allocation
                is Some && (kind == TargetKind::LocalBare || kind == TargetKind::SshBare))
        }),
{
}

/// Queued work is asked about exactly where there is some: what the
/// preparation found, or what waits for the session before there is one.
pub proof fn law_queue_asked_about(state: DashboardStateView, part: ResumptionView)
    requires
        state.waiting_prompts(part.session_id).len() <= usize::MAX,
        part.preparation matches Some(preparation) ==> preparation.queued_commands.len()
            <= usize::MAX,
    ensures
        ({
            let choice = state.queue_choice_for(part);
            &&& part.preparation matches Some(preparation) ==> {
                &&& choice is Some <==> preparation.queued_commands.len() > 0
                &&& choice matches Some(queue) ==> queue.count == preparation.queued_commands.len()
            }
            &&& part.preparation is None ==> {
                &&& choice is Some <==> state.waiting_prompts(part.session_id).len() > 0
                &&& choice matches Some(queue) ==> queue.count == state.waiting_prompts(
                    part.session_id,
                ).len()
            }
            &&& choice matches Some(queue) ==> queue.discard == part.discard_queue
        }),
{
}

/// A profile's warning is shown where its harness would work on this machine
/// itself or on a target that asks for it, and nowhere else.
pub proof fn law_warning_where_unguarded(
    state: DashboardStateView,
    template: TargetTemplateView,
    profile: ProfileView,
)
    requires
        lookup::<Profile>(state.config.profiles, profile.id) == Some(profile),
    ensures
        template.kind == TargetKind::LocalBare || template.guardian ==> state.unsandboxed_warning(
            template,
            profile.id,
        ) == profile.warning,
        template.kind != TargetKind::LocalBare && !template.guardian ==> state.unsandboxed_warning(
            template,
            profile.id,
        ) is None,
{
}

/// The title says which of the three a wizard is.
pub proof fn law_title_tells_apart(part: ResumptionView, step: Seq<char>)
    ensures
        part.moving ==> " Move · "@.is_prefix_of(resume_title(part, step, step)),
        !part.moving && part.source == ResumeSource::Archive ==> " Restore · "@.is_prefix_of(
            resume_title(part, step, step),
        ),
        !part.moving && part.source == ResumeSource::Session ==> " Resume · "@.is_prefix_of(
            resume_title(part, step, step),
        ),
{
    let word = if part.moving {
        " Move · "@
    } else if part.source == ResumeSource::Archive {
        " Restore · "@
    } else {
        " Resume · "@
    };
    assert(resume_title(part, step, step) == word + step + " "@);
    assert((word + step + " "@).take(word.len() as int) =~= word);
}

/// A move is never submitted before it is prepared, or has failed to be.
/// A move is never submitted before it is prepared, or has failed to be.
pub proof fn law_unprepared_move_waits(state: DashboardStateView, draft: DraftView)
    requires
        draft.purpose is Resume,
        draft.resume_part().moving,
        draft.resume_part().preparation is None,
        draft.resume_part().preparation_error is None,
    ensures
        !state.resume_review(draft).can_submit(),
{
}

/// A bundle is reviewed for creation only after its check: until then Create
/// is disabled.
pub proof fn law_new_review_waits(state: DashboardStateView, draft: DraftView)
    requires
        draft.purpose is New,
        !state.template(draft.target).bare_project,
        draft.new_part().remote_repositories is None,
        draft.new_part().remote_preflight_error is None,
    ensures
        !state.new_review(draft).can_submit(),
{
}

pub fn resume_wizard_title(part: &Resumption, step: &str, moving_step: &str) -> (title: String)
    ensures
        title@ == resume_title(part@, step@, moving_step@),
{
    let mut title = if part.moving {
        joined(" Move · ", moving_step)
    } else {
        match part.source {
            ResumeSource::Archive => joined(" Restore · ", step),
            ResumeSource::Session => joined(" Resume · ", step),
        }
    };
    title.append(" ");
    title
}

impl DashboardState {
    fn guardian_warning(&self, template: &TargetTemplate, profile_id: &str) -> (warning: Option<
        String,
    >)
        ensures
            warning.deep_view() == self@.unsandboxed_warning(template@, profile_id@),
    {
        if template.kind == TargetKind::LocalBare || template.guardian {
            match find(&self.config.profiles, profile_id) {
                Some(profile) => profile.warning.duplicate(),
                None => None,
            }
        } else {
            None
        }
    }

    fn chosen_bundle(&self, part: &NewSession) -> (id: String)
        requires
            part@.bundle < bundle_order(self@.config, self@.state).len(),
        ensures
            id@ == bundle_order(self@.config, self@.state)[part@.bundle as int],
    {
        broadcast use group_views;

        let bundles = bundle_ids_by_recent_creation(&self.config, &self.state);
        assert(bundles.deep_view()[part.bundle as int] == bundles@[part.bundle as int]@);
        bundles[part.bundle].duplicate()
    }

    fn chosen_profile(&self, profile: usize) -> (id: String)
        requires
            profile < enabled_choices(self@.config.profiles).len(),
        ensures
            id@ == enabled_choices(self@.config.profiles)[profile as int].id,
    {
        broadcast use group_views;

        let profiles = enabled_profiles(&self.config);
        assert(profiles.deep_view()[profile as int] == profiles@[profile as int]@);
        profiles[profile].id.duplicate()
    }

    /// The review of a new session.
    pub fn new_review_page(&self, draft: &Draft, part: &NewSession) -> (page: ReviewPage)
        requires
            draft.target < self.config.targets.len(),
            draft.profile < enabled_choices(self@.config.profiles).len(),
            draft@.purpose == PurposeView::New(part@),
            self@.bundle_chosen(draft@),
        ensures
            page@ == self@.new_review(draft@),
    {
        broadcast use group_views;

        let target = &self.config.targets[draft.target];
        assert(self@.target(draft.target) == target@);
        let raw = target.template.bare_project;
        let available = part.worktree_available(target.id.as_str());
        let inspected = part.selected_worktree_options(target.id.as_str()).is_some();
        let failed = part.remote_preflight_error.is_some();
        let profile_id = self.chosen_profile(draft.profile);
        let warning = self.guardian_warning(&target.template, profile_id.as_str());
        let subagents = if self.subagent_choice_applies(draft) {
            Some(part.mjolnir_subagents)
        } else {
            None
        };
        let project = if raw {
            part.project_directory.trimmed_text()
        } else {
            self.chosen_bundle(part)
        };
        ReviewPage {
            worktree: if raw {
                Some(WorktreeChoice { checked: part.create_managed_worktree, available })
            } else {
                None
            },
            subagents,
            profile_id,
            project_label: owned(
                if raw {
                    "Project directory"
                } else {
                    "Project"
                },
            ),
            project,
            project_note: owned(""),
            target: target.duplicate(),
            allocation: draft.resource_allocation.duplicate(),
            mounts: draft.mounts.mounts.duplicate(),
            selected_mount: draft.mounts.history_index,
            title: owned(" New session · 4/4 review "),
            submit_label: owned(
                if failed {
                    "Retry"
                } else {
                    "Create"
                },
            ),
            moving: false,
            preparing: false,
            preparation_error: None,
            submit_enabled: !raw || inspected || failed,
            active_interruption: false,
            in_place_move: false,
            source_unavailable: false,
            clear_resource_allocation: false,
            queue: None,
            queued_entries: Vec::new(),
            prepared_entries: Vec::new(),
            remote_repositories: part.remote_repositories.duplicate(),
            remote_preflight_in_flight: part.remote_preflight_in_flight,
            remote_preflight_error: part.remote_preflight_error.duplicate(),
            local_changes_excluded: !raw,
            conversion: None,
            warning,
        }
    }

    fn kept_directory(&self, session_id: &str, target_id: &str) -> (directory: Option<String>)
        ensures
            directory.deep_view() == self@.reused_directory(session_id@, target_id@),
    {
        match find(&self.state.sessions, session_id) {
            Some(session) => match find(&session.fits, target_id) {
                Some(entry) => match &entry.fit {
                    Compatibility::Usable(ResumePlan::InPlace) => {
                        session.project_directory.duplicate()
                    },
                    _ => None,
                },
                None => None,
            },
            None => None,
        }
    }

    fn prompts_for(&self, session_id: &str) -> (prompts: Vec<QueuedPrompt>)
        ensures
            prompts.deep_view() == self@.waiting_prompts(session_id@),
    {
        broadcast use group_views;

        match find(&self.session_details, session_id) {
            Some(detail) => detail.queued_prompts.duplicate(),
            None => Vec::new(),
        }
    }

    fn queue_choice(&self, part: &Resumption) -> (choice: Option<QueueChoice>)
        ensures
            choice.deep_view() == self@.queue_choice_for(part@),
    {
        broadcast use group_views;

        let count = match &part.preparation {
            Some(preparation) => preparation.queued_commands.len(),
            None => self.prompts_for(part.session_id.as_str()).len(),
        };
        if count > 0 {
            Some(QueueChoice { count, discard: part.discard_queue })
        } else {
            None
        }
    }

    /// Whether there is queued work to decide about.
    pub fn has_queued_work(&self, part: &Resumption) -> (r: bool)
        ensures
            r == (self@.queue_choice_for(part@) is Some),
    {
        self.queue_choice(part).is_some()
    }

    fn replaces_size(&self, draft: &Draft, part: &Resumption) -> (r: bool)
        requires
            draft.target < self.config.targets.len(),
            draft@.purpose == PurposeView::Resume(part@),
        ensures
            r == self@.size_replaced(draft@),
    {
        broadcast use group_views;

        let target = &self.config.targets[draft.target];
        assert(self@.target(draft.target) == target@);
        match &part.preparation {
            Some(preparation) => preparation.selection.clear_resource_allocation,
            None => {
                let sized = match find(&self.state.sessions, part.session_id.as_str()) {
                    Some(session) => session.resource_allocation.is_some(),
                    None => false,
                };
                part.moving && sized && (target.template.kind == TargetKind::LocalBare
                    || target.template.kind == TargetKind::SshBare)
            },
        }
    }

    fn resumed_project(&self, part: &Resumption, reused: &Option<String>) -> (texts: (
        &'static str,
        String,
        &'static str,
    ))
        ensures
            texts.0@ == match (part@.source, reused.deep_view()) {
                (ResumeSource::Archive, _) => "Archived session"@,
                (ResumeSource::Session, Some(_)) => "Project directory"@,
                (ResumeSource::Session, None) => "Project"@,
            },
            texts.1@ == match (part@.source, reused.deep_view()) {
                (ResumeSource::Archive, _) => part@.title,
                (ResumeSource::Session, Some(directory)) => directory,
                (ResumeSource::Session, None) => match self@.session(part@.session_id) {
                    Some(session) => session.bundle_id,
                    None => "unknown"@,
                },
            },
            texts.2@ == if part@.source == ResumeSource::Session && reused is Some {
                " (reused)"@
            } else {
                ""@
            },
    {
        match part.source {
            ResumeSource::Archive => ("Archived session", part.title.duplicate(), ""),
            ResumeSource::Session => match reused {
                Some(directory) => ("Project directory", directory.duplicate(), " (reused)"),
                None => {
                    let bundle = match find(&self.state.sessions, part.session_id.as_str()) {
                        Some(session) => session.bundle_id.duplicate(),
                        None => owned("unknown"),
                    };
                    ("Project", bundle, "")
                },
            },
        }
    }

    fn resumed_profile(&self, draft: &Draft, part: &Resumption) -> (id: String)
        requires
            draft@.purpose == PurposeView::Resume(part@),
        ensures
            id@ == self@.shown_profile(draft@),
    {
        broadcast use group_views;

        let profiles = self.resume_wizard_profiles(part);
        if draft.profile < profiles.len() {
            assert(profiles.deep_view()[draft.profile as int] == profiles@[draft.profile as int]@);
            profiles[draft.profile].id.duplicate()
        } else {
            owned("unknown")
        }
    }

    /// The review of a resume, a move, or a restored archive.
    pub fn resume_review_page(&self, draft: &Draft, part: &Resumption) -> (page: ReviewPage)
        requires
            draft.target < self.config.targets.len(),
            draft@.purpose == PurposeView::Resume(part@),
        ensures
            page@ == self@.resume_review(draft@),
    {
        broadcast use group_views;

        let target = &self.config.targets[draft.target];
        assert(self@.target(draft.target) == target@);
        let profile_id = self.resumed_profile(draft, part);
        let warning = self.guardian_warning(&target.template, profile_id.as_str());
        let reused = self.kept_directory(part.session_id.as_str(), target.id.as_str());
        let (project_label, project, project_note) = self.resumed_project(part, &reused);
        let clear_resource_allocation = self.replaces_size(draft, part);
        let queue = self.queue_choice(part);
        let retries = part.moving && part.preparation_error.is_some();
        let submit_label = if retries {
            "Retry"
        } else if part.moving {
            "Move"
        } else if part.source == ResumeSource::Archive {
            "Restore"
        } else {
            "Resume"
        };
        let title = resume_wizard_title(part, "3/3 review", "3/3 confirm");
        let submit_enabled = !part.moving || part.preparation.is_some()
            || part.preparation_error.is_some();
        let allocation = draft.resource_allocation.duplicate();
        let mounts = draft.mounts.mounts.duplicate();
        match &part.preparation {
            Some(preparation) => ReviewPage {
                worktree: None,
                subagents: None,
                profile_id,
                project_label: owned(project_label),
                project,
                project_note: owned(project_note),
                target: target.duplicate(),
                allocation,
                mounts,
                selected_mount: draft.mounts.history_index,
                title,
                submit_label: owned(submit_label),
                moving: part.moving,
                preparing: part.preparing,
                preparation_error: part.preparation_error.duplicate(),
                submit_enabled,
                active_interruption: preparation.active,
                in_place_move: preparation.in_place,
                source_unavailable: preparation.source_unavailable,
                clear_resource_allocation,
                queue,
                queued_entries: Vec::new(),
                prepared_entries: preparation.queued_commands.duplicate(),
                remote_repositories: None,
                remote_preflight_in_flight: false,
                remote_preflight_error: None,
                local_changes_excluded: false,
                conversion: preparation.conversion.duplicate(),
                warning,
            },
            None => ReviewPage {
                worktree: None,
                subagents: None,
                profile_id,
                project_label: owned(project_label),
                project,
                project_note: owned(project_note),
                target: target.duplicate(),
                allocation,
                mounts,
                selected_mount: draft.mounts.history_index,
                title,
                submit_label: owned(submit_label),
                moving: part.moving,
                preparing: part.preparing,
                preparation_error: part.preparation_error.duplicate(),
                submit_enabled,
                active_interruption: part.moving,
                in_place_move: false,
                source_unavailable: false,
                clear_resource_allocation,
                queue,
                queued_entries: self.prompts_for(part.session_id.as_str()),
                prepared_entries: Vec::new(),
                remote_repositories: None,
                remote_preflight_in_flight: false,
                remote_preflight_error: None,
                local_changes_excluded: false,
                conversion: None,
                warning,
            },
        }
    }
}

} // verus!
