//! The steps of resuming or moving a session, and the answers they wait for.

use vstd::prelude::*;

use crate::dashboard::{following_number, remembered_paths};
#[allow(unused_imports)]
use crate::catalog::enabled_choices;
#[allow(unused_imports)]
use crate::dashboard::{following, remembered};
use crate::dashboard_state::{
    DashboardAction, DashboardState, Launch, Mode, MoveSession, ResumeSession,
};
#[allow(unused_imports)]
use crate::dashboard_state::{
    DashboardActionView, DashboardStateView, LaunchView, ModeView, MoveSessionView,
    ResumeSessionView,
};
use crate::drafts::{Draft, Purpose, ResumeSource, Resumption, WizardControl, WizardStep};
#[allow(unused_imports)]
use crate::drafts::{DraftView, MountWizardView, NewSessionView, PurposeView, ResumptionView};
use crate::duplicate::{same_text, Duplicate};
#[allow(unused_imports)]
use crate::duplicate::{group_views, views};
#[allow(unused_imports)]
use crate::lists::{first_position, lemma_first_found, lemma_none_found};
use crate::mounts::prepare_selected_mount_editor;
use crate::paths::paths_match;
#[allow(unused_imports)]
use crate::paths::same_path;
use crate::records::{
    AdditionalMount, MovePreparation, QueueDisposition, RemoteRepository, TargetKind,
};
#[allow(unused_imports)]
use crate::records::{AdditionalMountView, MovePreparationView, RemoteRepositoryView};

verus! {

// --- What a resume or a move asks for ---

/// A target whose sessions have no size of their own.
pub open spec fn unsized_target(kind: TargetKind) -> bool {
    kind == TargetKind::LocalBare || kind == TargetKind::SshBare
}

pub open spec fn queue_choice(discard: bool) -> QueueDisposition {
    if discard {
        QueueDisposition::Discard
    } else {
        QueueDisposition::Start
    }
}

impl DraftView {
    /// The draft moves a session, and its preparation was neither made nor
    /// asked for.
    pub open spec fn awaits_preparation(self) -> bool {
        self.purpose matches PurposeView::Resume(part) && part.moving && !part.preparing
            && part.preparation is None
    }
}

impl DashboardStateView {
    /// The profile this resume or move lands on.
    pub open spec fn destination_profile(self, draft: DraftView) -> Seq<char> {
        self.resume_choices(draft.resume_part())[draft.profile as int].id
    }

    /// The move that a draft describes; with a request id, the preparation of
    /// that move.
    pub open spec fn move_request(self, draft: DraftView, request_id: Option<u64>) -> MoveSessionView {
        let part = draft.resume_part();
        let target = self.target(draft.target);
        MoveSessionView {
            session_id: part.session_id,
            profile_id: self.destination_profile(draft),
            target_template_id: target.id,
            additional_mounts: draft.mounts.mounts,
            resource_allocation: draft.resource_allocation,
            clear_resource_allocation: unsized_target(target.template.kind),
            preparation_request_id: request_id,
            queue: queue_choice(part.discard_queue),
        }
    }

    /// The resume that a draft describes.
    pub open spec fn resume_request(self, draft: DraftView) -> ResumeSessionView {
        let part = draft.resume_part();
        ResumeSessionView {
            workspace_id: draft.workspace_id,
            session_id: part.session_id,
            profile_id: self.destination_profile(draft),
            target_template_id: self.target(draft.target).id,
            additional_mounts: draft.mounts.mounts,
            resource_allocation: draft.resource_allocation,
            discard_queue: part.discard_queue,
        }
    }

    /// What asking for a move's preparation comes to: a request of its own
    /// number, which the draft then waits for.
    pub open spec fn preparation_started(self, draft: DraftView) -> (
        DashboardStateView,
        DashboardActionView,
    ) {
        let request_id = following(self.next_move_preparation_request_id);
        (
            (DashboardStateView {
                next_move_preparation_request_id: request_id,
                ..self
            }).showing(
                draft.with_resume(
                    ResumptionView {
                        preparation_request_id: Some(request_id),
                        preparing: true,
                        preparation_error: None,
                        ..draft.resume_part()
                    },
                ),
            ),
            DashboardActionView::MoveSession(self.move_request(draft, Some(request_id))),
        )
    }

    /// What entering the review of a draft comes to: a move asks for its
    /// preparation unless it has one or waits for one.
    pub open spec fn review_entered(self, draft: DraftView) -> (
        DashboardStateView,
        DashboardActionView,
    ) {
        if draft.awaits_preparation() {
            self.preparation_started(draft)
        } else {
            (self.showing(draft), DashboardActionView::Nothing)
        }
    }

    /// A resume can be gone on with from the draft's step: its target is there,
    /// and so is all that a move is prepared with.
    pub open spec fn can_advance_resume(self, draft: DraftView) -> bool {
        &&& draft.step == WizardStep::Profile || draft.step == WizardStep::Target
        &&& self.has_target(draft)
        &&& draft.awaits_preparation() ==> self.fits(draft)
    }

    /// What going on from the target of a resume comes to.
    pub open spec fn resume_target_left(self, draft: DraftView) -> (
        DashboardStateView,
        DashboardActionView,
    ) {
        match self.target_refusal(draft) {
            Some(reason) => (self.noting(reason).showing(draft), DashboardActionView::Nothing),
            None => self.review_entered(
                (DraftView {
                    mounts: MountWizardView {
                        history: remembered(
                            self.state.mount_history,
                            self.template(draft.target).mount_host,
                        ),
                        history_index: 0,
                        ..draft.mounts
                    },
                    ..draft
                }).at_step(WizardStep::Review),
            ),
        }
    }

    /// What going on from a step of a resume comes to. Where the target does
    /// not have to be asked for, its step is gone on from at once.
    pub open spec fn resume_advanced(self, draft: DraftView, skips_target: bool) -> (
        DashboardStateView,
        DashboardActionView,
    ) {
        if draft.step != WizardStep::Profile {
            self.resume_target_left(draft)
        } else if skips_target {
            self.resume_target_left(DraftView { step: WizardStep::Target, ..draft })
        } else {
            let (moved, action) = self.entering_target(draft);
            (self.showing(moved), action)
        }
    }

    /// What submitting the review comes to. A move is sent once it is
    /// prepared; an archive is restored at once; a resume has its attached
    /// directories checked, then its repositories.
    pub open spec fn resume_submitted(self, draft: DraftView) -> (
        DashboardStateView,
        DashboardActionView,
    ) {
        let part = draft.resume_part();
        let target = self.target(draft.target);
        if part.moving {
            if part.preparing {
                (self.showing(draft), DashboardActionView::Nothing)
            } else if part.preparation is None {
                self.preparation_started(draft)
            } else {
                (
                    self.showing(draft),
                    DashboardActionView::MoveSession(self.move_request(draft, None)),
                )
            }
        } else if part.source == ResumeSource::Archive {
            (
                self.showing(draft),
                DashboardActionView::RestoreArchivedSession {
                    workspace_id: draft.workspace_id,
                    wiki_id: part.session_id,
                    profile_id: self.destination_profile(draft),
                    target_template_id: target.id,
                },
            )
        } else if draft.mounts.mounts.len() == 0 {
            (
                self.showing(draft),
                DashboardActionView::PreflightResumeRepositories(self.resume_request(draft)),
            )
        } else {
            (
                self.showing(draft),
                DashboardActionView::ValidateSessionMounts {
                    target_template_id: target.id,
                    mounts: draft.mounts.mounts,
                    launch: LaunchView::PreflightResume(self.resume_request(draft)),
                },
            )
        }
    }
}

/// A target that does not have to be asked for is never shown: going on from
/// the profile ends on the review, or says why the target is refused.
pub proof fn law_skipped_target_reviewed(state: DashboardStateView, draft: DraftView)
    requires
        draft.purpose is Resume,
        draft.step == WizardStep::Profile,
    ensures
        ({
            let asked = DraftView { step: WizardStep::Target, ..draft };
            let (after, action) = state.resume_advanced(draft, true);
            &&& (after, action) == state.resume_advanced(asked, true)
            &&& match state.target_refusal(asked) {
                Some(reason) => after == state.noting(reason).showing(asked) && action
                    == DashboardActionView::Nothing,
                None => after.mode matches ModeView::Wizard(reviewed) && reviewed.step
                    == WizardStep::Review,
            }
        }),
{
}

/// The review of a move asks for its preparation unless it has one or waits
/// for one; a plain resume asks for none.
pub proof fn law_review_asks_preparation(state: DashboardStateView, draft: DraftView)
    requires
        draft.purpose is Resume,
    ensures
        ({
            let part = draft.resume_part();
            let (after, action) = state.review_entered(draft);
            let asks = part.moving && !part.preparing && part.preparation is None;
            &&& asks ==> action is MoveSession
            &&& !asks ==> action == DashboardActionView::Nothing && after.mode == ModeView::Wizard(
                draft,
            )
        }),
{
}

/// Going on from the profile asks for the target, and keeps what was chosen.
pub proof fn law_resume_profile_left(state: DashboardStateView, draft: DraftView)
    requires
        draft.purpose is Resume,
        draft.step == WizardStep::Profile,
    ensures
        state.resume_advanced(draft, false).0.mode matches ModeView::Wizard(moved) && {
            &&& moved.step == WizardStep::Target
            &&& moved.profile == draft.profile && moved.target == draft.target
            &&& moved.mounts == draft.mounts && moved.purpose == draft.purpose
            &&& draft.resource_allocation is Some ==> moved.resource_allocation
                == draft.resource_allocation
        },
{
}

/// The two lists attach the same directories in the same way, in the same
/// order.
/// The two lists attach the same directories in the same way, in the same
/// order.
pub open spec fn same_attachments(
    a: Seq<AdditionalMountView>,
    b: Seq<AdditionalMountView>,
) -> bool {
    &&& a.len() == b.len()
    &&& forall|i: int|
        0 <= i < a.len() ==> (#[trigger] a[i]).source == b[i].source && a[i].destination
            == b[i].destination && a[i].access == b[i].access
}

/// The request moves the session of the draft to the target and the profile
/// that the draft shows, with every directory that it lists and the size that
/// it has. Only a bare machine clears the size.
pub open spec fn moves_as_shown(
    request: MoveSessionView,
    state: DashboardStateView,
    draft: DraftView,
) -> bool {
    let target = state.config.targets[draft.target as int];
    &&& draft.purpose matches PurposeView::Resume(part)
    &&& request.session_id == part.session_id
    &&& request.target_template_id == target.id
    &&& part.source == ResumeSource::Session ==> request.profile_id == state.compatible(
        part.session_id,
    )[draft.profile as int].id
    &&& same_attachments(request.additional_mounts, draft.mounts.mounts)
    &&& request.resource_allocation == draft.resource_allocation
    &&& request.clear_resource_allocation == (target.template.kind == TargetKind::LocalBare
        || target.template.kind == TargetKind::SshBare)
    &&& part.discard_queue ==> request.queue == QueueDisposition::Discard
    &&& !part.discard_queue ==> request.queue == QueueDisposition::Start
}

/// Every move that a draft asks for, to prepare it or to make it, is the one
/// that the draft shows: none of its directories is dropped, added or changed.
pub proof fn law_move_carries_draft(
    state: DashboardStateView,
    draft: DraftView,
    skips_target: bool,
)
    requires
        draft.purpose is Resume,
    ensures
        state.preparation_started(draft).1 matches DashboardActionView::MoveSession(request)
            && moves_as_shown(request, state, draft) && request.preparation_request_id is Some,
        state.review_entered(draft).1 matches DashboardActionView::MoveSession(request)
            ==> moves_as_shown(request, state, draft) && request.preparation_request_id is Some,
        state.resume_submitted(draft).1 matches DashboardActionView::MoveSession(request)
            ==> moves_as_shown(request, state, draft),
        state.resume_advanced(draft, skips_target).1 matches DashboardActionView::MoveSession(
            request,
        ) ==> moves_as_shown(request, state, draft) && request.preparation_request_id is Some,
{
}

/// What asking for a preparation leaves on screen waits for the answer to that
/// very request, which has a number of its own; the draft is the one that was
/// sent.
pub proof fn law_preparation_awaited(state: DashboardStateView, draft: DraftView)
    requires
        draft.purpose is Resume,
        draft.resume_part().moving,
        draft.step == WizardStep::Review,
    ensures
        ({
            let (after, action) = state.preparation_started(draft);
            &&& action matches DashboardActionView::MoveSession(request)
            &&& request.preparation_request_id matches Some(id)
            &&& id != state.next_move_preparation_request_id
            &&& after.next_move_preparation_request_id == id
            &&& after.awaits_preparation(draft.resume_part().session_id, id)
            &&& after.mode matches ModeView::Wizard(waiting) && waiting.mounts == draft.mounts
                && waiting.target == draft.target && waiting.profile == draft.profile
                && waiting.step == draft.step && waiting.resource_allocation
                == draft.resource_allocation
            &&& after.config == state.config && after.state == state.state
        }),
{
}

/// A move whose preparation came back is sent at the next submit, as it stands
/// and without another request for a preparation.
pub proof fn law_prepared_move_sent(state: DashboardStateView, draft: DraftView)
    requires
        draft.purpose is Resume,
        draft.resume_part().moving,
        !draft.resume_part().preparing,
        draft.resume_part().preparation is Some,
    ensures
        state.resume_submitted(draft).1 matches DashboardActionView::MoveSession(request)
            && request.preparation_request_id is None && moves_as_shown(request, state, draft),
        state.resume_submitted(draft).0 == state.showing(draft),
{
}

/// A resume is asked for with what its draft shows. Where directories are
/// attached they are checked first, all of them and on the draft's target.
pub proof fn law_resume_carries_draft(state: DashboardStateView, draft: DraftView)
    requires
        draft.purpose is Resume,
        !draft.resume_part().moving,
        draft.resume_part().source == ResumeSource::Session,
    ensures
        ({
            let part = draft.resume_part();
            let target = state.config.targets[draft.target as int].id;
            let asks = |request: ResumeSessionView|
                {
                    &&& request.session_id == part.session_id
                    &&& request.workspace_id == draft.workspace_id
                    &&& request.profile_id == state.compatible(
                        part.session_id,
                    )[draft.profile as int].id
                    &&& request.target_template_id == target
                    &&& same_attachments(request.additional_mounts, draft.mounts.mounts)
                    &&& request.resource_allocation == draft.resource_allocation
                    &&& request.discard_queue == part.discard_queue
                };
            &&& state.resume_submitted(draft).0 == state.showing(draft)
            &&& draft.mounts.mounts.len() == 0 ==> {
                &&& state.resume_submitted(
                    draft,
                ).1 matches DashboardActionView::PreflightResumeRepositories(request)
                &&& asks(request)
            }
            &&& draft.mounts.mounts.len() > 0 ==> {
                &&& state.resume_submitted(draft).1 matches DashboardActionView::ValidateSessionMounts {
                    target_template_id,
                    mounts,
                    launch: LaunchView::PreflightResume(request),
                }
                &&& target_template_id == target
                &&& same_attachments(mounts, draft.mounts.mounts)
                &&& asks(request)
            }
        }),
{
}

/// An archive is restored with the chosen profile on the chosen target, and
/// nothing is checked first.
pub proof fn law_archive_restored_as_shown(state: DashboardStateView, draft: DraftView)
    requires
        draft.purpose is Resume,
        !draft.resume_part().moving,
        draft.resume_part().source == ResumeSource::Archive,
    ensures
        state.resume_submitted(draft).1 matches DashboardActionView::RestoreArchivedSession {
            workspace_id,
            wiki_id,
            profile_id,
            target_template_id,
        } && workspace_id == draft.workspace_id && wiki_id == draft.resume_part().session_id
            && profile_id == enabled_choices(state.config.profiles)[draft.profile as int].id
            && target_template_id == state.config.targets[draft.target as int].id,
{
}

/// Going on from the target of a resume keeps the session, its profile, its
/// size and its attached directories, and offers the directories remembered
/// for the target's host.
pub proof fn law_resume_review_keeps_draft(state: DashboardStateView, draft: DraftView)
    requires
        draft.purpose is Resume,
        draft.step == WizardStep::Target,
        state.target_refusal(draft) is None,
    ensures
        state.resume_target_left(draft).0.mode matches ModeView::Wizard(after) && {
            &&& after.step == WizardStep::Review
            &&& after.target == draft.target && after.profile == draft.profile
            &&& after.resource_allocation == draft.resource_allocation
            &&& same_attachments(after.mounts.mounts, draft.mounts.mounts)
            &&& after.mounts.history_index == 0
            &&& after.resume_part().session_id == draft.resume_part().session_id
            &&& after.resume_part().discard_queue == draft.resume_part().discard_queue
            &&& after.resume_part().moving == draft.resume_part().moving
        },
{
}

/// A move is sent only once its preparation has come back for the draft as
/// it stands.
pub proof fn law_move_needs_preparation(state: DashboardStateView, draft: DraftView)
    requires
        draft.purpose is Resume,
        draft.resume_part().moving,
    ensures
        state.resume_submitted(draft).1 matches DashboardActionView::MoveSession(request)
            ==> request.preparation_request_id is None ==> draft.resume_part().preparation is Some
            && !draft.resume_part().preparing,
{
}

/// A preparation is asked for once: entering the review again while one is
/// under way or at hand asks for nothing.
pub proof fn law_preparation_asked_once(state: DashboardStateView, draft: DraftView)
    requires
        draft.purpose is Resume,
        draft.resume_part().moving,
        !draft.resume_part().preparing,
        draft.resume_part().preparation is None,
    ensures
        ({
            let (after, action) = state.review_entered(draft);
            &&& action is MoveSession
            &&& after.mode matches ModeView::Wizard(waiting) && after.review_entered(waiting).1
                == DashboardActionView::Nothing
        }),
{
}

impl DashboardState {
    fn move_session(
        &self,
        draft: &Draft,
        part: &Resumption,
        profile_id: String,
        request_id: Option<u64>,
    ) -> (request: MoveSession)
        requires
            self@.fits(draft@),
            draft@.purpose == PurposeView::Resume(part@),
            profile_id@ == self@.destination_profile(draft@),
        ensures
            request@ == self@.move_request(draft@, request_id),
    {
        broadcast use group_views;

        let target = &self.config.targets[draft.target];
        assert(self@.target(draft.target) == target@);
        MoveSession {
            session_id: part.session_id.duplicate(),
            profile_id,
            target_template_id: target.id.duplicate(),
            additional_mounts: draft.mounts.mounts.duplicate(),
            resource_allocation: draft.resource_allocation.duplicate(),
            clear_resource_allocation: target.template.kind == TargetKind::LocalBare
                || target.template.kind == TargetKind::SshBare,
            preparation_request_id: request_id,
            queue: if part.discard_queue {
                QueueDisposition::Discard
            } else {
                QueueDisposition::Start
            },
        }
    }

    /// The profile this resume or move lands on.
    fn destination_profile(&self, draft: &Draft, part: &Resumption) -> (id: String)
        requires
            self@.fits(draft@),
            draft@.purpose == PurposeView::Resume(part@),
        ensures
            id@ == self@.destination_profile(draft@),
    {
        broadcast use group_views;

        let choices = self.resume_wizard_profiles(part);
        assert(choices.deep_view()[draft.profile as int] == choices@[draft.profile as int]@);
        choices[draft.profile].id.duplicate()
    }

    fn start_move_preparation(&mut self, draft: Draft) -> (action: DashboardAction)
        requires
            old(self)@.fits(draft@),
            draft@.purpose is Resume,
        ensures
            (final(self)@, action@) == old(self)@.preparation_started(draft@),
            final(self)@.well_formed(),
    {
        let mut draft = draft;
        let request_id = following_number(self.next_move_preparation_request_id);
        let action = match &draft.purpose {
            Purpose::Resume(part) => {
                let profile_id = self.destination_profile(&draft, part);
                DashboardAction::MoveSession(
                    self.move_session(&draft, part, profile_id, Some(request_id)),
                )
            },
            Purpose::New(_) => DashboardAction::Nothing,
        };
        self.next_move_preparation_request_id = request_id;
        match &mut draft.purpose {
            Purpose::Resume(part) => {
                part.preparation_request_id = Some(request_id);
                part.preparing = true;
                part.preparation_error = None;
            },
            Purpose::New(_) => {},
        }
        self.keep(draft);
        action
    }

    /// Ask for the preparation of a move that is about to be reviewed, unless
    /// there is one or it is under way.
    pub fn request_move_preparation_for_review(&mut self, draft: Draft) -> (action: DashboardAction)
        requires
            draft@.purpose is Resume,
            draft@.awaits_preparation() ==> old(self)@.fits(draft@),
        ensures
            (final(self)@, action@) == old(self)@.review_entered(draft@),
            old(self)@.fits(draft@) ==> final(self)@.well_formed(),
    {
        let settled = match &draft.purpose {
            Purpose::Resume(part) => !part.moving || part.preparing || part.preparation.is_some(),
            Purpose::New(_) => true,
        };
        if settled {
            self.keep(draft);
            return DashboardAction::Nothing;
        }
        self.start_move_preparation(draft)
    }

    /// Go on from the profile or the target of a resume, given whether the
    /// target does not have to be asked for.
    pub fn advance_resume_wizard(&mut self, draft: Draft, skips_target: bool) -> (action:
        DashboardAction)
        requires
            old(self)@.can_advance_resume(draft@),
            draft@.purpose is Resume,
        ensures
            (final(self)@, action@) == old(self)@.resume_advanced(draft@, skips_target),
            old(self)@.fits(draft@) ==> final(self)@.well_formed(),
    {
        let mut draft = draft;
        if draft.step == WizardStep::Profile {
            if !skips_target {
                let action = self.enter_target_step(&mut draft);
                self.keep(draft);
                return action;
            }
            draft.step = WizardStep::Target;
        }
        self.leave_resume_target(draft)
    }

    fn leave_resume_target(&mut self, draft: Draft) -> (action: DashboardAction)
        requires
            old(self)@.can_advance_resume(draft@),
            draft@.purpose is Resume,
            draft.step == WizardStep::Target,
        ensures
            (final(self)@, action@) == old(self)@.resume_target_left(draft@),
            old(self)@.fits(draft@) ==> final(self)@.well_formed(),
    {
        broadcast use group_views;

        let mut draft = draft;
        if let Some(reason) = self.target_step_refusal(&draft) {
            self.set_notice(reason);
            self.keep(draft);
            return DashboardAction::Nothing;
        }
        draft.mounts.history = remembered_paths(
            &self.state.mount_history,
            &self.config.targets[draft.target].template.mount_host,
        );
        draft.mounts.history_index = 0;
        draft.go_to_step(WizardStep::Review);
        self.request_move_preparation_for_review(draft)
    }

    /// Submit the review of a resume or a move.
    pub fn preflight_resume_session_action(&mut self, draft: Draft) -> (action: DashboardAction)
        requires
            old(self)@.fits(draft@),
            draft@.purpose is Resume,
        ensures
            (final(self)@, action@) == old(self)@.resume_submitted(draft@),
            final(self)@.well_formed(),
    {
        broadcast use group_views;

        let target = &self.config.targets[draft.target];
        assert(self@.target(draft.target) == target@);
        let starts = match &draft.purpose {
            Purpose::Resume(part) => part.moving && !part.preparing && part.preparation.is_none(),
            Purpose::New(_) => false,
        };
        if starts {
            return self.start_move_preparation(draft);
        }
        let action = match &draft.purpose {
            Purpose::New(_) => DashboardAction::Nothing,
            Purpose::Resume(part) => {
                let profile_id = self.destination_profile(&draft, part);
                if part.moving {
                    if part.preparing {
                        DashboardAction::Nothing
                    } else {
                        DashboardAction::MoveSession(
                            self.move_session(&draft, part, profile_id, None),
                        )
                    }
                } else if part.source == ResumeSource::Archive {
                    // A restored archive has no checkpoint and no repositories
                    // to preflight: it starts as a new session and the summary
                    // follows.
                    DashboardAction::RestoreArchivedSession {
                        workspace_id: draft.workspace_id.duplicate(),
                        wiki_id: part.session_id.duplicate(),
                        profile_id,
                        target_template_id: target.id.duplicate(),
                    }
                } else {
                    let launch = ResumeSession {
                        workspace_id: draft.workspace_id.duplicate(),
                        session_id: part.session_id.duplicate(),
                        profile_id,
                        target_template_id: target.id.duplicate(),
                        additional_mounts: draft.mounts.mounts.duplicate(),
                        resource_allocation: draft.resource_allocation.duplicate(),
                        discard_queue: part.discard_queue,
                    };
                    if draft.mounts.mounts.len() == 0 {
                        DashboardAction::PreflightResumeRepositories(launch)
                    } else {
                        DashboardAction::ValidateSessionMounts {
                            target_template_id: target.id.duplicate(),
                            mounts: draft.mounts.mounts.duplicate(),
                            launch: Launch::PreflightResume(launch),
                        }
                    }
                }
            },
        };
        self.keep(draft);
        action
    }
}

// --- Answers to a move's preparation ---

impl DashboardStateView {
    /// The draft on screen waits for the answer to this preparation.
    pub open spec fn awaits_preparation(self, session_id: Seq<char>, request_id: u64) -> bool {
        self.mode matches ModeView::Wizard(draft) && draft.purpose is Resume
            && draft.resume_part().awaits(draft.step, session_id, request_id)
    }

    /// The state with a preparation that arrived.
    pub open spec fn prepared(self, preparation: MovePreparationView) -> DashboardStateView {
        let draft = self.mode->Wizard_0;
        self.showing(
            (DraftView {
                resource_allocation: preparation.selection.resource_allocation,
                ..draft
            }).with_resume(
                ResumptionView {
                    preparation: Some(preparation),
                    preparing: false,
                    preparation_error: None,
                    ..draft.resume_part()
                },
            ),
        )
    }

    /// The state with a preparation that failed.
    pub open spec fn unpreparable(self, error: Seq<char>) -> DashboardStateView {
        let draft = self.mode->Wizard_0;
        self.showing(
            draft.with_resume(
                ResumptionView {
                    preparation: None,
                    preparing: false,
                    preparation_request_id: None,
                    preparation_error: Some(error),
                    ..draft.resume_part()
                },
            ),
        )
    }

    /// The preparation at hand for moving a session.
    pub open spec fn preparation_for(self, session_id: Seq<char>) -> Option<MovePreparationView> {
        match self.mode {
            ModeView::Wizard(draft) if draft.purpose is Resume && draft.resume_part().moving
                && draft.resume_part().session_id == session_id => draft.resume_part().preparation,
            _ => None,
        }
    }
}

/// An answer to another request than the one waited for changes nothing: the
/// draft it was made for is gone.
pub proof fn law_stale_preparation_ignored(
    state: DashboardStateView,
    session_id: Seq<char>,
    awaited: u64,
    answered: u64,
)
    requires
        state.awaits_preparation(session_id, awaited),
        awaited != answered,
    ensures
        !state.awaits_preparation(session_id, answered),
{
}

/// The draft waits for a preparation only on its review, only for its own
/// session, and only for the request it made.
pub proof fn law_awaited_preparation(
    state: DashboardStateView,
    session_id: Seq<char>,
    request_id: u64,
)
    ensures
        state.awaits_preparation(session_id, request_id) <==> {
            &&& state.mode matches ModeView::Wizard(draft)
            &&& draft.step == WizardStep::Review
            &&& draft.purpose matches PurposeView::Resume(part)
            &&& part.moving && part.preparing
            &&& part.session_id == session_id
            &&& part.preparation_request_id == Some(request_id)
        },
{
}

/// A preparation that arrived is kept with the size it settled on, and ends
/// the wait; one that failed is dropped with its error, and ends it too. What
/// is moved does not change.
pub proof fn law_preparation_answer_kept(
    state: DashboardStateView,
    draft: DraftView,
    preparation: MovePreparationView,
    error: Seq<char>,
)
    requires
        state.mode == ModeView::Wizard(draft),
        draft.purpose is Resume,
    ensures
        state.prepared(preparation).mode matches ModeView::Wizard(after) && {
            &&& after.resume_part().preparation == Some(preparation)
            &&& !after.resume_part().preparing
            &&& after.resume_part().preparation_error is None
            &&& after.resource_allocation == preparation.selection.resource_allocation
            &&& after.mounts == draft.mounts && after.target == draft.target
            &&& after.profile == draft.profile && after.step == draft.step
            &&& after.resume_part().session_id == draft.resume_part().session_id
            &&& after.resume_part().discard_queue == draft.resume_part().discard_queue
        },
        state.unpreparable(error).mode matches ModeView::Wizard(after) && {
            &&& after.resume_part().preparation is None
            &&& !after.resume_part().preparing
            &&& after.resume_part().preparation_request_id is None
            &&& after.resume_part().preparation_error == Some(error)
            &&& after.mounts == draft.mounts && after.target == draft.target
            &&& after.profile == draft.profile && after.step == draft.step
            &&& after.resource_allocation == draft.resource_allocation
        },
{
}

/// Only the wizard that moves the session hands out its preparation, and only
/// one that it has.
pub proof fn law_preparation_handed_out(state: DashboardStateView, session_id: Seq<char>)
    ensures
        state.preparation_for(session_id) matches Some(preparation) ==> {
            &&& state.mode matches ModeView::Wizard(draft)
            &&& draft.purpose matches PurposeView::Resume(part)
            &&& part.moving && part.session_id == session_id
            &&& part.preparation == Some(preparation)
        },
        state.mode matches ModeView::Wizard(draft) ==> draft.purpose matches PurposeView::Resume(
            part,
        ) ==> part.moving && part.session_id == session_id ==> state.preparation_for(session_id)
            == part.preparation,
{
}

impl DashboardState {
    /// Take in the preparation of the move on screen. Answers whether it was
    /// the one waited for.
    pub fn apply_move_preparation(&mut self, request_id: u64, preparation: MovePreparation) -> (
    taken: bool)
        ensures
            taken == old(self)@.awaits_preparation(preparation@.selection.session_id, request_id),
            final(self)@ == if taken {
                old(self)@.prepared(preparation@)
            } else {
                old(self)@
            },
            old(self)@.well_formed() ==> final(self)@.well_formed(),
    {
        let awaited = match &self.mode {
            Mode::Wizard(draft) => match &draft.purpose {
                Purpose::Resume(part) => part.awaits_preparation(
                    draft.step,
                    preparation.selection.session_id.as_str(),
                    request_id,
                ),
                Purpose::New(_) => false,
            },
            _ => false,
        };
        if !awaited {
            return false;
        }
        if let Some(mut draft) = self.take_draft() {
            draft.resource_allocation = preparation.selection.resource_allocation.duplicate();
            match &mut draft.purpose {
                Purpose::Resume(part) => {
                    part.preparation = Some(preparation);
                    part.preparing = false;
                    part.preparation_error = None;
                },
                Purpose::New(_) => {},
            }
            self.keep(draft);
        }
        true
    }

    /// Take in that the preparation of the move on screen failed. Answers
    /// whether it was the one waited for.
    pub fn set_move_preparation_failed(
        &mut self,
        session_id: &str,
        request_id: u64,
        error: String,
    ) -> (taken: bool)
        ensures
            taken == old(self)@.awaits_preparation(session_id@, request_id),
            final(self)@ == if taken {
                old(self)@.unpreparable(error@)
            } else {
                old(self)@
            },
            old(self)@.well_formed() ==> final(self)@.well_formed(),
    {
        let awaited = match &self.mode {
            Mode::Wizard(draft) => match &draft.purpose {
                Purpose::Resume(part) => part.awaits_preparation(
                    draft.step,
                    session_id,
                    request_id,
                ),
                Purpose::New(_) => false,
            },
            _ => false,
        };
        if !awaited {
            return false;
        }
        if let Some(mut draft) = self.take_draft() {
            match &mut draft.purpose {
                Purpose::Resume(part) => {
                    part.preparing = false;
                    part.preparation = None;
                    part.preparation_request_id = None;
                    part.preparation_error = Some(error);
                },
                Purpose::New(_) => {},
            }
            self.keep(draft);
        }
        true
    }

    /// Hand out the preparation of a confirmed move and close the wizard. The
    /// wizard stays open when there is none.
    pub fn take_move_preparation(&mut self, session_id: &str) -> (preparation: Option<
        MovePreparation,
    >)
        ensures
            preparation.deep_view() == old(self)@.preparation_for(session_id@),
            final(self)@ == if preparation is Some {
                old(self)@.closed()
            } else {
                old(self)@
            },
            old(self)@.well_formed() ==> final(self)@.well_formed(),
    {
        let preparation = match &self.mode {
            Mode::Wizard(draft) => match &draft.purpose {
                Purpose::Resume(part) => if part.moving && same_text(
                    part.session_id.as_str(),
                    session_id,
                ) {
                    part.preparation.duplicate()
                } else {
                    None
                },
                Purpose::New(_) => None,
            },
            _ => None,
        };
        if preparation.is_some() {
            self.cancel_modal();
        }
        preparation
    }
}

// --- Answers to the checks of a session ---

/// Coming from the same place.
pub open spec fn comes_from(source: Seq<char>) -> spec_fn(AdditionalMountView) -> bool {
    |mount: AdditionalMountView| same_path(mount.source, source)
}

impl DraftView {
    /// The draft with the attached directory from `source` opened in the
    /// editor, if it has one.
    pub open spec fn mount_reopened(self, source: Seq<char>) -> DraftView {
        match first_position(self.mounts.mounts, comes_from(source)) {
            Some(i) => DraftView {
                mounts: (MountWizardView {
                    history_index: i as usize,
                    ..self.mounts
                }).editing_selected(),
                step: WizardStep::Mounts,
                ..self
            },
            None => self,
        }
    }

    /// The draft once an attached directory was found unusable. The check has
    /// ended; keeping its failure on the review means that leaving the editor
    /// does not start the same failing check again.
    pub open spec fn mount_refused(self, source: Seq<char>, error: Seq<char>) -> DraftView {
        let reopened = self.mount_reopened(source);
        let shown = DraftView {
            mounts: MountWizardView { error: Some(error), ..reopened.mounts },
            ..reopened
        };
        match shown.purpose {
            PurposeView::New(part) => shown.with_new(
                NewSessionView {
                    remote_preflight_in_flight: false,
                    remote_preflight_error: Some(error),
                    ..part
                },
            ),
            PurposeView::Resume(_) => shown,
        }
    }
}

/// A directory that was found unusable is opened in the editor with the
/// error: the first attached one from that place. Which directories are
/// attached does not change.
pub proof fn law_refused_mount_reopened(
    draft: DraftView,
    source: Seq<char>,
    error: Seq<char>,
    i: int,
)
    requires
        0 <= i < draft.mounts.mounts.len() <= usize::MAX,
        same_path(draft.mounts.mounts[i].source, source),
        forall|j: int|
            0 <= j < i ==> !same_path((#[trigger] draft.mounts.mounts[j]).source, source),
    ensures
        ({
            let after = draft.mount_refused(source, error);
            &&& after.step == WizardStep::Mounts
            &&& after.mounts.error == Some(error)
            &&& after.mounts.editing_mount == Some(i as usize)
            &&& after.mounts.source.text == draft.mounts.mounts[i].source
            &&& after.mounts.destination.text == draft.mounts.mounts[i].destination
            &&& after.mounts.mounts == draft.mounts.mounts
            &&& after.purpose matches PurposeView::New(part) ==> part.remote_preflight_error
                == Some(error) && !part.remote_preflight_in_flight
        }),
{
    let wanted = comes_from(source);
    assert forall|j: int| 0 <= j < i implies !wanted(#[trigger] draft.mounts.mounts[j]) by {}
    lemma_first_found(draft.mounts.mounts, wanted, i);
}

/// Where none of the attached directories is from that place, only the error
/// is shown.
pub proof fn law_unknown_mount_refused(draft: DraftView, source: Seq<char>, error: Seq<char>)
    requires
        forall|j: int|
            0 <= j < draft.mounts.mounts.len() ==> !same_path(
                (#[trigger] draft.mounts.mounts[j]).source,
                source,
            ),
    ensures
        ({
            let after = draft.mount_refused(source, error);
            &&& after.step == draft.step
            &&& after.mounts == (MountWizardView { error: Some(error), ..draft.mounts })
        }),
{
    let wanted = comes_from(source);
    assert forall|j: int| 0 <= j < draft.mounts.mounts.len() implies !wanted(
        #[trigger] draft.mounts.mounts[j],
    ) by {}
    lemma_none_found(draft.mounts.mounts, wanted);
}

fn mount_position(mounts: &Vec<AdditionalMount>, source: &str) -> (found: Option<usize>)
    ensures
        match found {
            Some(i) => i < mounts.len() && first_position(mounts.deep_view(), comes_from(source@))
                == Some(i as int),
            None => first_position(mounts.deep_view(), comes_from(source@)) is None,
        },
{
    broadcast use group_views;

    let ghost all = mounts.deep_view();
    let ghost wanted = comes_from(source@);
    let mut i: usize = 0;
    while i < mounts.len()
        invariant
            i <= mounts.len(),
            all == views(mounts@),
            wanted == comes_from(source@),
            forall|j: int| 0 <= j < i ==> !wanted(#[trigger] all[j]),
        decreases mounts.len() - i,
    {
        assert(all[i as int] == mounts@[i as int]@);
        if paths_match(mounts[i].source.as_str(), source) {
            proof {
                lemma_first_found(all, wanted, i as int);
            }
            return Some(i);
        }
        i = i + 1;
    }
    proof {
        lemma_none_found(all, wanted);
    }
    None
}

impl DashboardStateView {
    /// The state with a prerequisite check that has begun.
    pub open spec fn remote_check_begun(self, generation: u64) -> DashboardStateView {
        match self.mode {
            ModeView::Wizard(draft) if draft.purpose is New && generation
                == self.preflight_generation => self.showing(
                draft.with_new(
                    NewSessionView {
                        remote_preflight_in_flight: true,
                        ..draft.new_part().unchecked()
                    },
                ),
            ),
            _ => self,
        }
    }

    /// The state with the answer of a prerequisite check, unless the check
    /// was begun for another draft.
    pub open spec fn remote_check_ended(
        self,
        generation: u64,
        result: Result<Seq<RemoteRepositoryView>, Seq<char>>,
    ) -> DashboardStateView {
        match self.mode {
            ModeView::Wizard(draft) if draft.purpose is New && generation
                == self.preflight_generation => {
                let part = draft.new_part();
                let answered = match result {
                    Ok(repositories) => NewSessionView {
                        remote_preflight_in_flight: false,
                        remote_repositories: Some(repositories),
                        remote_preflight_error: None,
                        ..part
                    },
                    Err(error) => NewSessionView {
                        remote_preflight_in_flight: false,
                        remote_repositories: None,
                        remote_preflight_error: Some(error),
                        ..part
                    },
                };
                self.showing(draft.with_new(answered).focusing(WizardControl::Submit))
            },
            _ => self,
        }
    }
}

/// The answer to the check of the draft on screen ends the check: what it
/// found is kept, or why it failed, and never both. It changes nothing of what
/// is created.
pub proof fn law_check_answer_kept(
    state: DashboardStateView,
    draft: DraftView,
    repositories: Seq<RemoteRepositoryView>,
    error: Seq<char>,
)
    requires
        state.mode == ModeView::Wizard(draft),
        draft.purpose is New,
    ensures
        state.remote_check_ended(
            state.preflight_generation,
            Ok(repositories),
        ).mode matches ModeView::Wizard(after) && {
            &&& after.new_part().remote_repositories == Some(repositories)
            &&& after.new_part().remote_preflight_error is None
            &&& !after.new_part().remote_preflight_in_flight
            &&& after.mounts == draft.mounts && after.target == draft.target
            &&& after.profile == draft.profile && after.step == draft.step
            &&& after.form.focused == Some(WizardControl::Submit)
        },
        state.remote_check_ended(
            state.preflight_generation,
            Err(error),
        ).mode matches ModeView::Wizard(after) && {
            &&& after.new_part().remote_repositories is None
            &&& after.new_part().remote_preflight_error == Some(error)
            &&& !after.new_part().remote_preflight_in_flight
            &&& after.mounts == draft.mounts && after.target == draft.target
            &&& after.profile == draft.profile && after.step == draft.step
        },
        state.remote_check_begun(state.preflight_generation).mode matches ModeView::Wizard(after)
            && {
            &&& after.new_part().remote_preflight_in_flight
            &&& after.new_part().remote_repositories is None
            &&& after.new_part().remote_preflight_error is None
            &&& after.mounts == draft.mounts && after.target == draft.target
        },
{
}

/// A check that was begun for another draft neither begins nor ends anything.
pub proof fn law_stale_check_ignored(
    state: DashboardStateView,
    generation: u64,
    result: Result<Seq<RemoteRepositoryView>, Seq<char>>,
)
    requires
        generation != state.preflight_generation,
    ensures
        state.remote_check_ended(generation, result) == state,
        state.remote_check_begun(generation) == state,
{
}

/// Closing a wizard drops the answer to its check: it does not reach the
/// wizard opened next.
pub proof fn law_closing_drops_checks(
    state: DashboardStateView,
    draft: DraftView,
    result: Result<Seq<RemoteRepositoryView>, Seq<char>>,
)
    ensures
        ({
            let reopened = state.closed().showing(draft);
            reopened.remote_check_ended(state.preflight_generation, result) == reopened
        }),
{
}

impl DashboardState {
    /// Show that an attached directory was found unusable, with the directory
    /// opened in the editor.
    pub fn apply_session_mount_preflight_failure(&mut self, source: &str, error: String)
        ensures
            final(self)@ == match old(self)@.mode {
                ModeView::Wizard(draft) => old(self)@.showing(draft.mount_refused(source@, error@)),
                _ => old(self)@,
            },
            old(self)@.well_formed() && (old(self)@.mode matches ModeView::Wizard(draft)
                ==> draft.purpose is New ==> old(self)@.bundle_chosen(draft))
                ==> final(self)@.well_formed(),
    {
        if let Some(mut draft) = self.take_draft() {
            let ghost start = draft@;
            if let Some(index) = mount_position(&draft.mounts.mounts, source) {
                draft.mounts.history_index = index;
                if prepare_selected_mount_editor(&mut draft.mounts) {
                    draft.step = WizardStep::Mounts;
                }
            }
            match &mut draft.purpose {
                Purpose::New(part) => {
                    part.remote_preflight_in_flight = false;
                    part.remote_preflight_error = Some(error.duplicate());
                },
                Purpose::Resume(_) => {},
            }
            draft.mounts.error = Some(error);
            self.keep(draft);
        }
    }

    /// The attached directories are usable and the session is under way.
    pub fn finish_session_mount_preflight(&mut self)
        ensures
            final(self)@ == old(self)@.closed(),
            old(self)@.in_order() ==> final(self)@.well_formed(),
    {
        self.cancel_modal();
    }

    /// Mark the new-session review as waiting for its network clone plan.
    /// The modal stays open so the result can be reviewed before creation.
    pub fn begin_remote_session_preflight(&mut self, generation: u64)
        ensures
            final(self)@ == old(self)@.remote_check_begun(generation),
            old(self)@.well_formed() ==> final(self)@.well_formed(),
    {
        if generation != self.preflight_generation {
            return;
        }
        if let Mode::Wizard(draft) = &mut self.mode {
            if let Purpose::New(part) = &mut draft.purpose {
                part.remote_preflight_in_flight = true;
                part.remote_preflight_error = None;
                part.remote_repositories = None;
            }
        }
    }

    /// Apply a completed network clone plan, retaining an error in the modal
    /// when the configured bundle cannot be used as an isolated source.
    pub fn apply_remote_session_preflight(
        &mut self,
        generation: u64,
        result: Result<Vec<RemoteRepository>, String>,
    )
        ensures
            final(self)@ == old(self)@.remote_check_ended(
                generation,
                match result {
                    Ok(repositories) => Ok(repositories.deep_view()),
                    Err(error) => Err(error@),
                },
            ),
            old(self)@.well_formed() ==> final(self)@.well_formed(),
    {
        if generation != self.preflight_generation {
            return;
        }
        if let Mode::Wizard(draft) = &mut self.mode {
            if let Purpose::New(part) = &mut draft.purpose {
                part.remote_preflight_in_flight = false;
                match result {
                    Ok(repositories) => {
                        part.remote_repositories = Some(repositories);
                        part.remote_preflight_error = None;
                    },
                    Err(error) => {
                        part.remote_repositories = None;
                        part.remote_preflight_error = Some(error);
                    },
                }
                draft.form.focus(WizardControl::Submit);
            }
        }
    }
}

} // verus!
