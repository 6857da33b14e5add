//! Which targets can be used, and how large a session on one is.

use vstd::prelude::*;

use crate::dashboard::following_number;
#[allow(unused_imports)]
use crate::dashboard::{following, size_settled};
use crate::dashboard_state::{DashboardAction, DashboardState};
#[allow(unused_imports)]
use crate::dashboard_state::{DashboardActionView, DashboardStateView};
use crate::drafts::{Draft, Purpose};
#[allow(unused_imports)]
use crate::drafts::{DraftView, PurposeView};
#[allow(unused_imports)]
use crate::duplicate::{group_views, views};
use crate::duplicate::{joined, owned, same_text, Duplicate};
use crate::lists::{find, position_of};
#[allow(unused_imports)]
use crate::lists::{has_key, key_position, law_lookup_finds_first, lemma_position_fits, lookup};
use crate::records::{
    Compatibility, HostSize, ProbeOutcome, ResourceAllocation, Target, TargetFit, TargetKind,
    TargetReadiness, TargetSizes, TargetTemplate,
};
#[allow(unused_imports)]
use crate::records::{
    CompatibilityView, ProbeOutcomeView, ResourceAllocationView, SessionRecordView,
    TargetReadinessView, TargetSizesView, TargetTemplateView, TargetView,
};
use crate::resources::{
    adjust_resources, clamp_resources, preferred_aws_option, store_sizes, BASELINE_CPUS,
    BASELINE_MEMORY_BYTES,
};
#[allow(unused_imports)]
use crate::resources::{adjusted, clamped_size, preferred_option, with_sizes};
use crate::tables::store;
#[allow(unused_imports)]
use crate::tables::{
    keys_increase, law_one_entry_per_key, law_stored_keeps_order, law_stored_read_back,
    lemma_empty_table, lemma_front_keeps_order, lemma_replaced_keeps_order, stored,
};

verus! {

/// How long a stored readiness result stays usable across wizard opens
/// before it is treated as missing and re-probed. Each non-local probe is an
/// ssh round trip (about 2 seconds), so this keeps repeated wizard opens in
/// the same dashboard session from re-probing every time while still
/// catching a target that went unavailable a while ago. In nanoseconds.
pub const TARGET_READINESS_TTL: u64 = 1_800_000_000_000;

/// How long a failed readiness result is kept. Failures are usually
/// transient (a sleeping host, a VPN that is down, an expired cloud session,
/// a probe that timed out) and the user fixes them within minutes, so they
/// are re-probed much sooner than successes; the re-probe only costs the
/// user whose target is already broken. In nanoseconds.
pub const TARGET_READINESS_FAILURE_TTL: u64 = 60_000_000_000;

// --- Readiness ---

impl TargetReadinessView {
    /// The result is too old to be used. A probe under way never is.
    pub open spec fn stale(self, now: u64) -> bool {
        let age = if now >= self.recorded_at {
            now - self.recorded_at
        } else {
            0
        };
        match self.outcome {
            None => false,
            Some(ProbeOutcomeView::Ready) => age >= TARGET_READINESS_TTL,
            Some(ProbeOutcomeView::Unavailable(_)) => age >= TARGET_READINESS_FAILURE_TTL,
        }
    }

    /// The probe is of the template as it now is, and recent enough.
    pub open spec fn current(self, template: TargetTemplateView, now: u64) -> bool {
        self.template == template && !self.stale(now)
    }
}

impl TargetReadiness {
    fn is_stale(&self, now: u64) -> (stale: bool)
        ensures
            stale == self@.stale(now),
    {
        let age: u64 = if now >= self.recorded_at {
            now - self.recorded_at
        } else {
            0
        };
        match &self.outcome {
            None => false,
            Some(ProbeOutcome::Ready) => age >= TARGET_READINESS_TTL,
            Some(ProbeOutcome::Unavailable(_)) => age >= TARGET_READINESS_FAILURE_TTL,
        }
    }

    fn is_current(&self, template: &TargetTemplate, now: u64) -> (r: bool)
        ensures
            r == self@.current(template@, now),
    {
        same_template(&self.template, template) && !self.is_stale(now)
    }
}

pub(crate) fn same_optional(a: &Option<String>, b: &Option<String>) -> (same: bool)
    ensures
        same == (a.deep_view() == b.deep_view()),
{
    match (a, b) {
        (Some(x), Some(y)) => same_text(x.as_str(), y.as_str()),
        (None, None) => true,
        _ => false,
    }
}

pub(crate) fn same_template(a: &TargetTemplate, b: &TargetTemplate) -> (same: bool)
    ensures
        same == (a@ == b@),
{
    a.kind == b.kind && a.bare_project == b.bare_project && a.guardian == b.guardian && same_text(
        a.ssh_user.as_str(),
        b.ssh_user.as_str(),
    ) && same_optional(&a.mount_host, &b.mount_host) && same_optional(
        &a.project_host,
        &b.project_host,
    ) && same_optional(&a.size_host, &b.size_host) && same_text(
        a.settings.as_str(),
        b.settings.as_str(),
    )
}

/// The target has to be probed: it is not this machine itself, and there is
/// no recent result for the template as it is.
pub open spec fn needs_probe(
    readiness: Seq<TargetReadinessView>,
    target: TargetView,
    now: u64,
) -> bool {
    &&& target.template.kind != TargetKind::LocalBare
    &&& !(lookup::<TargetReadiness>(readiness, target.id) matches Some(probe) && probe.current(
        target.template,
        now,
    ))
}

/// The list with a probe of the target under way.
pub open spec fn with_probe(
    readiness: Seq<TargetReadinessView>,
    target: TargetView,
    generation: u64,
    now: u64,
) -> Seq<TargetReadinessView> {
    stored::<TargetReadiness>(
        readiness,
        TargetReadinessView {
            target_id: target.id,
            template: target.template,
            generation,
            outcome: None,
            recorded_at: now,
        },
    )
}

/// The list with a probe under way of every target that needs one.
pub open spec fn probes_begun(
    readiness: Seq<TargetReadinessView>,
    targets: Seq<TargetView>,
    generation: u64,
    now: u64,
) -> Seq<TargetReadinessView>
    decreases targets.len(),
{
    if targets.len() == 0 {
        readiness
    } else {
        let before = probes_begun(readiness, targets.drop_last(), generation, now);
        if needs_probe(before, targets.last(), now) {
            with_probe(before, targets.last(), generation, now)
        } else {
            before
        }
    }
}

/// The targets that are probed.
pub open spec fn probed_ids(
    readiness: Seq<TargetReadinessView>,
    targets: Seq<TargetView>,
    generation: u64,
    now: u64,
) -> Seq<Seq<char>>
    decreases targets.len(),
{
    if targets.len() == 0 {
        seq![]
    } else {
        let before = probes_begun(readiness, targets.drop_last(), generation, now);
        let ids = probed_ids(readiness, targets.drop_last(), generation, now);
        if needs_probe(before, targets.last(), now) {
            ids.push(targets.last().id)
        } else {
            ids
        }
    }
}

proof fn lemma_probe_found(
    readiness: Seq<TargetReadinessView>,
    target: TargetView,
    generation: u64,
    now: u64,
    other: Seq<char>,
)
    ensures
        ({
            let after = with_probe(readiness, target, generation, now);
            &&& lookup::<TargetReadiness>(after, target.id) matches Some(probe)
                && probe.current(target.template, now)
            &&& other != target.id ==> lookup::<TargetReadiness>(after, other) == lookup::<
                TargetReadiness,
            >(readiness, other)
        }),
{
    law_stored_read_back::<TargetReadiness>(
        readiness,
        TargetReadinessView {
            target_id: target.id,
            template: target.template,
            generation,
            outcome: None,
            recorded_at: now,
        },
        other,
    );
}

/// The probes stay in the order of their targets.
pub proof fn law_probes_keep_order(
    readiness: Seq<TargetReadinessView>,
    targets: Seq<TargetView>,
    generation: u64,
    now: u64,
)
    requires
        keys_increase::<TargetReadiness>(readiness),
    ensures
        keys_increase::<TargetReadiness>(probes_begun(readiness, targets, generation, now)),
    decreases targets.len(),
{
    if targets.len() > 0 {
        let front = targets.drop_last();
        let target = targets.last();
        law_probes_keep_order(readiness, front, generation, now);
        law_stored_keeps_order::<TargetReadiness>(
            probes_begun(readiness, front, generation, now),
            TargetReadinessView {
                target_id: target.id,
                template: target.template,
                generation,
                outcome: None,
                recorded_at: now,
            },
        );
    }
}

/// Once probes are begun, no target needs another one: a probe under way is
/// not requested again.
pub proof fn law_probes_not_repeated(
    readiness: Seq<TargetReadinessView>,
    targets: Seq<TargetView>,
    generation: u64,
    now: u64,
    i: int,
)
    requires
        keys_increase::<Target>(targets),
        0 <= i < targets.len(),
    ensures
        !needs_probe(probes_begun(readiness, targets, generation, now), targets[i], now),
    decreases targets.len(),
{
    let front = targets.drop_last();
    let before = probes_begun(readiness, front, generation, now);
    let last = targets.last();
    lemma_probe_found(before, last, generation, now, targets[i].id);
    if i < front.len() {
        lemma_front_keeps_order::<Target>(targets);
        law_probes_not_repeated(readiness, front, generation, now, i);
        law_one_entry_per_key::<Target>(targets, i);
        law_one_entry_per_key::<Target>(targets, targets.len() - 1);
    }
}

/// While probes are begun for several targets, every target stays as it was
/// unless it is one of them.
pub proof fn law_probes_leave_others(
    readiness: Seq<TargetReadinessView>,
    targets: Seq<TargetView>,
    generation: u64,
    now: u64,
    other: Seq<char>,
)
    requires
        forall|i: int| 0 <= i < targets.len() ==> (#[trigger] targets[i]).id != other,
    ensures
        lookup::<TargetReadiness>(probes_begun(readiness, targets, generation, now), other)
            == lookup::<TargetReadiness>(readiness, other),
    decreases targets.len(),
{
    if targets.len() > 0 {
        let front = targets.drop_last();
        assert forall|i: int| 0 <= i < front.len() implies (#[trigger] front[i]).id != other by {
            assert(front[i] == targets[i]);
        }
        law_probes_leave_others(readiness, front, generation, now, other);
        assert(targets[targets.len() - 1].id != other);
        lemma_probe_found(
            probes_begun(readiness, front, generation, now),
            targets.last(),
            generation,
            now,
            other,
        );
    }
}

/// A target found available is taken to be so for half an hour, one found
/// unavailable for a minute; a probe under way is waited for.
pub proof fn law_result_kept_for(probe: TargetReadinessView, now: u64)
    requires
        probe.recorded_at <= now,
    ensures
        probe.outcome is None ==> !probe.stale(now),
        probe.outcome == Some(ProbeOutcomeView::Ready) ==> (probe.stale(now) <==> now
            - probe.recorded_at >= 30 * 60 * 1_000_000_000),
        probe.outcome matches Some(ProbeOutcomeView::Unavailable(_)) ==> (probe.stale(now) <==> now
            - probe.recorded_at >= 60 * 1_000_000_000),
{
}

/// This machine itself is never probed. Any other target is probed unless
/// what is recorded of it is of the template as it is and not too old.
pub proof fn law_probe_needed(
    readiness: Seq<TargetReadinessView>,
    target: TargetView,
    now: u64,
    i: int,
)
    requires
        0 <= i < readiness.len(),
        readiness[i].target_id == target.id,
        forall|j: int| 0 <= j < i ==> (#[trigger] readiness[j]).target_id != target.id,
    ensures
        needs_probe(readiness, target, now) <==> target.template.kind != TargetKind::LocalBare && (
        readiness[i].template != target.template || readiness[i].stale(now)),
{
    law_lookup_finds_first::<TargetReadiness>(readiness, target.id);
}

/// A target nothing is recorded of is probed, unless it is this machine.
pub proof fn law_unknown_target_probed(
    readiness: Seq<TargetReadinessView>,
    target: TargetView,
    now: u64,
)
    requires
        forall|j: int| 0 <= j < readiness.len() ==> (#[trigger] readiness[j]).target_id
            != target.id,
    ensures
        needs_probe(readiness, target, now) <==> target.template.kind != TargetKind::LocalBare,
{
    law_lookup_finds_first::<TargetReadiness>(readiness, target.id);
}

/// Exactly the targets that need a probe are asked about, in their order.
pub proof fn law_needed_probes_asked(
    readiness: Seq<TargetReadinessView>,
    targets: Seq<TargetView>,
    generation: u64,
    now: u64,
)
    requires
        keys_increase::<Target>(targets),
    ensures
        probed_ids(readiness, targets, generation, now) == targets.filter(
            |target: TargetView| needs_probe(readiness, target, now),
        ).map_values(|target: TargetView| target.id),
    decreases targets.len(),
{
    let needed = |target: TargetView| needs_probe(readiness, target, now);
    let named = |target: TargetView| target.id;
    reveal(Seq::filter);
    if targets.len() > 0 {
        let front = targets.drop_last();
        let last = targets.last();
        lemma_front_keeps_order::<Target>(targets);
        law_needed_probes_asked(readiness, front, generation, now);
        assert forall|i: int| 0 <= i < front.len() implies (#[trigger] front[i]).id != last.id by {
            law_one_entry_per_key::<Target>(targets, i);
            law_one_entry_per_key::<Target>(targets, targets.len() - 1);
            assert(front[i] == targets[i]);
        }
        law_probes_leave_others(readiness, front, generation, now, last.id);
        if needed(last) {
            assert(front.filter(needed).push(last).map_values(named) =~= front.filter(
                needed,
            ).map_values(named).push(last.id));
        }
    } else {
        assert(targets.filter(needed).map_values(named) =~= Seq::empty());
    }
}

/// Every target that is asked about is waited for under the number of the
/// question.
pub proof fn law_asked_probe_awaited(
    readiness: Seq<TargetReadinessView>,
    targets: Seq<TargetView>,
    generation: u64,
    now: u64,
    i: int,
)
    requires
        keys_increase::<Target>(targets),
        0 <= i < targets.len(),
        needs_probe(readiness, targets[i], now),
    ensures
        lookup::<TargetReadiness>(
            probes_begun(readiness, targets, generation, now),
            targets[i].id,
        ) matches Some(probe) && {
            &&& probe.outcome is None && probe.generation == generation
            &&& probe.template == targets[i].template && probe.recorded_at == now
        },
    decreases targets.len(),
{
    let front = targets.drop_last();
    let last = targets.last();
    let begun = probes_begun(readiness, front, generation, now);
    lemma_front_keeps_order::<Target>(targets);
    if i < front.len() {
        assert(front[i] == targets[i]);
        law_one_entry_per_key::<Target>(targets, i);
        law_one_entry_per_key::<Target>(targets, targets.len() - 1);
        law_asked_probe_awaited(readiness, front, generation, now, i);
        lemma_probe_found(begun, last, generation, now, targets[i].id);
    } else {
        assert forall|j: int| 0 <= j < front.len() implies (#[trigger] front[j]).id != last.id by {
            law_one_entry_per_key::<Target>(targets, j);
            law_one_entry_per_key::<Target>(targets, targets.len() - 1);
            assert(front[j] == targets[j]);
        }
        law_probes_leave_others(readiness, front, generation, now, last.id);
        law_stored_read_back::<TargetReadiness>(
            begun,
            TargetReadinessView {
                target_id: last.id,
                template: last.template,
                generation,
                outcome: None,
                recorded_at: now,
            },
            last.id,
        );
    }
}

impl DashboardStateView {
    /// Why a target cannot be used now: it is not known to be available.
    pub open spec fn readiness_rejection(self, target_id: Seq<char>) -> Option<Seq<char>> {
        match lookup::<Target>(self.config.targets, target_id) {
            None => None,
            Some(target) => if target.template.kind == TargetKind::LocalBare {
                None
            } else {
                match lookup::<TargetReadiness>(self.target_readiness, target_id) {
                    Some(probe) if probe.current(target.template, self.now) => match probe.outcome {
                        Some(ProbeOutcomeView::Ready) => None,
                        Some(ProbeOutcomeView::Unavailable(reason)) => Some(
                            "unavailable: "@ + reason,
                        ),
                        None => Some("checking availability…"@),
                    },
                    _ => Some("checking availability…"@),
                }
            },
        }
    }

    /// Why a session cannot resume on a target: the target is not available,
    /// or the session and the target do not go together.
    pub open spec fn resume_rejection(self, session_id: Seq<char>, target_id: Seq<char>) -> Option<
        Seq<char>,
    > {
        match self.readiness_rejection(target_id) {
            Some(reason) => Some(reason),
            None => match self.session(session_id) {
                None => None,
                Some(session) => match lookup::<TargetFit>(session.fits, target_id) {
                    Some(entry) => match entry.fit {
                        CompatibilityView::Usable(_) => None,
                        CompatibilityView::Unusable(reason) => Some(reason),
                    },
                    None => None,
                },
            },
        }
    }

    /// Why the draft cannot use a target.
    pub open spec fn target_rejection(self, draft: DraftView, target_id: Seq<char>) -> Option<
        Seq<char>,
    > {
        match draft.purpose {
            PurposeView::New(_) => self.readiness_rejection(target_id),
            PurposeView::Resume(part) => self.resume_rejection(part.session_id, target_id),
        }
    }

    /// The draft can go on from its target: the target can be used and its
    /// size is settled.
    pub open spec fn target_settled(self, draft: DraftView) -> bool {
        self.target_rejection(draft, self.target(draft.target).id) is None && size_settled(
            draft,
            self.template(draft.target).kind,
        )
    }

    /// The state with the result of a probe, unless it is not the one that is
    /// waited for or the target changed meanwhile.
    pub open spec fn with_readiness(
        self,
        generation: u64,
        target_id: Seq<char>,
        outcome: ProbeOutcomeView,
    ) -> DashboardStateView {
        match key_position::<TargetReadiness>(self.target_readiness, target_id) {
            None => self,
            Some(i) => {
                let probe = self.target_readiness[i];
                if probe.generation == generation && (lookup::<Target>(
                    self.config.targets,
                    target_id,
                ) matches Some(target) && target.template == probe.template) {
                    DashboardStateView {
                        target_readiness: self.target_readiness.update(
                            i,
                            TargetReadinessView {
                                outcome: Some(outcome),
                                recorded_at: self.now,
                                ..probe
                            },
                        ),
                        ..self
                    }
                } else {
                    self
                }
            },
        }
    }

    /// The state with a probe under way of every target that needs one, and
    /// what to ask for.
    pub open spec fn checking_targets(self) -> (DashboardStateView, Option<DashboardActionView>) {
        let generation = self.next_readiness_generation;
        let ids = probed_ids(self.target_readiness, self.config.targets, generation, self.now);
        if ids.len() == 0 {
            (self, None)
        } else {
            (
                DashboardStateView {
                    target_readiness: probes_begun(
                        self.target_readiness,
                        self.config.targets,
                        generation,
                        self.now,
                    ),
                    next_readiness_generation: following(generation),
                    ..self
                },
                Some(DashboardActionView::CheckTargetReadiness { generation, target_ids: ids }),
            )
        }
    }
}

/// A configured target other than this machine can be used exactly where it
/// was found available, as it is configured now and not too long ago. One that
/// was found unavailable says why, and any other is being found out about.
pub proof fn law_usable_once_found_ready(
    state: DashboardStateView,
    target: TargetView,
    probe: TargetReadinessView,
)
    requires
        lookup::<Target>(state.config.targets, target.id) == Some(target),
        target.template.kind != TargetKind::LocalBare,
        lookup::<TargetReadiness>(state.target_readiness, target.id) == Some(probe),
    ensures
        ({
            let fresh = probe.template == target.template && !probe.stale(state.now);
            let refusal = state.readiness_rejection(target.id);
            &&& refusal is None <==> fresh && probe.outcome == Some(ProbeOutcomeView::Ready)
            &&& !fresh || probe.outcome is None ==> refusal == Some("checking availability…"@)
            &&& probe.outcome matches Some(ProbeOutcomeView::Unavailable(reason)) ==> fresh
                ==> refusal == Some("unavailable: "@ + reason)
        }),
{
}

/// This machine can always be used.
pub proof fn law_local_target_usable(state: DashboardStateView, target: TargetView)
    requires
        lookup::<Target>(state.config.targets, target.id) == Some(target),
        target.template.kind == TargetKind::LocalBare,
    ensures
        state.readiness_rejection(target.id) is None,
{
}

/// A session resumes only on a target that is available and that it goes
/// together with; where it does not, it says why.
pub proof fn law_resume_target_fits(
    state: DashboardStateView,
    session: SessionRecordView,
    target_id: Seq<char>,
)
    requires
        state.session(session.id) == Some(session),
    ensures
        ({
            let refusal = state.resume_rejection(session.id, target_id);
            let fit = lookup::<TargetFit>(session.fits, target_id);
            &&& state.readiness_rejection(target_id) is Some ==> refusal
                == state.readiness_rejection(target_id)
            &&& state.readiness_rejection(target_id) is None ==> {
                &&& fit is None ==> refusal is None
                &&& fit matches Some(entry) ==> {
                    &&& entry.fit is Usable ==> refusal is None
                    &&& entry.fit matches CompatibilityView::Unusable(reason) ==> refusal == Some(
                        reason,
                    )
                }
            }
        }),
{
}

/// The answer to a probe is kept with the time it came, for the target it is
/// about and for no other. One that is not waited for, or about a target that
/// is configured otherwise now, is not.
pub proof fn law_probe_answer_kept(
    state: DashboardStateView,
    generation: u64,
    target_id: Seq<char>,
    outcome: ProbeOutcomeView,
    i: int,
)
    requires
        0 <= i < state.target_readiness.len(),
        state.target_readiness[i].target_id == target_id,
        forall|j: int|
            0 <= j < i ==> (#[trigger] state.target_readiness[j]).target_id != target_id,
    ensures
        ({
            let probe = state.target_readiness[i];
            let after = state.with_readiness(generation, target_id, outcome);
            let awaited = probe.generation == generation && (lookup::<Target>(
                state.config.targets,
                target_id,
            ) matches Some(target) && target.template == probe.template);
            &&& !awaited ==> after == state
            &&& awaited ==> {
                &&& after.target_readiness.len() == state.target_readiness.len()
                &&& after.target_readiness[i].outcome == Some(outcome)
                &&& after.target_readiness[i].recorded_at == state.now
                &&& after.target_readiness[i].target_id == target_id
                &&& after.target_readiness[i].template == probe.template
                &&& forall|j: int|
                    0 <= j < state.target_readiness.len() && j != i
                        ==> #[trigger] after.target_readiness[j] == state.target_readiness[j]
                &&& after.mode == state.mode && after.config == state.config
            }
        }),
{
    law_lookup_finds_first::<TargetReadiness>(state.target_readiness, target_id);
}

/// The targets that need a probe are asked about together, under a number that
/// is used once; where none needs one nothing is asked and nothing changes.
pub proof fn law_targets_checked(state: DashboardStateView)
    requires
        keys_increase::<Target>(state.config.targets),
    ensures
        ({
            let needed = state.config.targets.filter(
                |target: TargetView| needs_probe(state.target_readiness, target, state.now),
            );
            let (after, action) = state.checking_targets();
            &&& needed.len() == 0 ==> action is None && after == state
            &&& needed.len() > 0 ==> {
                &&& action matches Some(DashboardActionView::CheckTargetReadiness {
                    generation,
                    target_ids,
                })
                &&& generation == state.next_readiness_generation
                &&& after.next_readiness_generation != generation
                &&& target_ids == needed.map_values(|target: TargetView| target.id)
                &&& after.mode == state.mode && after.config == state.config
            }
        }),
{
    let generation = state.next_readiness_generation;
    law_needed_probes_asked(state.target_readiness, state.config.targets, generation, state.now);
    let readiness = state.target_readiness;
    let now = state.now;
    let needed = state.config.targets.filter(
        |target: TargetView| needs_probe(readiness, target, now),
    );
    assert(needed =~= state.config.targets.filter(
        |target: TargetView| needs_probe(state.target_readiness, target, state.now),
    ));
}

proof fn lemma_no_probes(
    readiness: Seq<TargetReadinessView>,
    targets: Seq<TargetView>,
    generation: u64,
    now: u64,
)
    requires
        probed_ids(readiness, targets, generation, now).len() == 0,
    ensures
        probes_begun(readiness, targets, generation, now) == readiness,
    decreases targets.len(),
{
    if targets.len() > 0 {
        lemma_no_probes(readiness, targets.drop_last(), generation, now);
    }
}

fn begin_probe(
    readiness: &mut Vec<TargetReadiness>,
    target: &Target,
    generation: u64,
    now: u64,
)
    ensures
        final(readiness).deep_view() == with_probe(
            old(readiness).deep_view(),
            target@,
            generation,
            now,
        ),
{
    broadcast use group_views;

    let probe = TargetReadiness {
        target_id: target.id.duplicate(),
        template: target.template.duplicate(),
        generation,
        outcome: None,
        recorded_at: now,
    };
    store(readiness, probe);
}

fn probe_needed(readiness: &Vec<TargetReadiness>, target: &Target, now: u64) -> (r: bool)
    ensures
        r == needs_probe(readiness.deep_view(), target@, now),
{
    target.template.kind != TargetKind::LocalBare && match find(readiness, target.id.as_str()) {
        Some(probe) => !probe.is_current(&target.template, now),
        None => true,
    }
}

impl DashboardState {
    /// Why a target cannot be used now, or `None` when it can. A raw local
    /// target runs on this machine, so there is nothing to probe.
    pub fn target_readiness_rejection(&self, target_id: &str) -> (reason: Option<String>)
        ensures
            reason.deep_view() == self@.readiness_rejection(target_id@),
    {
        let template = match find(&self.config.targets, target_id) {
            Some(target) => &target.template,
            None => {
                return None;
            },
        };
        if template.kind == TargetKind::LocalBare {
            return None;
        }
        match find(&self.target_readiness, target_id) {
            Some(probe) => if probe.is_current(template, self.now) {
                match &probe.outcome {
                    Some(ProbeOutcome::Ready) => None,
                    Some(ProbeOutcome::Unavailable(reason)) => Some(
                        joined("unavailable: ", reason.as_str()),
                    ),
                    None => Some(owned("checking availability…")),
                }
            } else {
                Some(owned("checking availability…"))
            },
            None => Some(owned("checking availability…")),
        }
    }

    /// Store the result of a readiness probe, unless it is not the one that
    /// is waited for or the target changed meanwhile.
    pub fn apply_target_readiness(
        &mut self,
        generation: u64,
        target_id: String,
        result: Result<(), String>,
    )
        ensures
            final(self)@ == old(self)@.with_readiness(
                generation,
                target_id@,
                match result {
                    Ok(_) => ProbeOutcomeView::Ready,
                    Err(reason) => ProbeOutcomeView::Unavailable(reason@),
                },
            ),
            old(self)@.well_formed() ==> final(self)@.well_formed(),
    {
        broadcast use group_views;

        let outcome = match result {
            Ok(_) => ProbeOutcome::Ready,
            Err(reason) => ProbeOutcome::Unavailable(reason),
        };
        let i = match position_of(&self.target_readiness, target_id.as_str()) {
            Some(i) => i,
            None => {
                return;
            },
        };
        assert(self@.target_readiness[i as int] == self.target_readiness@[i as int]@);
        let unchanged = match find(&self.config.targets, target_id.as_str()) {
            Some(target) => same_template(&target.template, &self.target_readiness[i].template),
            None => false,
        };
        if self.target_readiness[i].generation != generation || !unchanged {
            return;
        }
        let mut probe = self.target_readiness[i].duplicate();
        probe.outcome = Some(outcome);
        probe.recorded_at = self.now;
        proof {
            lemma_position_fits(
                self@.target_readiness,
                has_key::<TargetReadiness>(target_id@),
            );
            if keys_increase::<TargetReadiness>(self@.target_readiness) {
                lemma_replaced_keeps_order::<TargetReadiness>(
                    self@.target_readiness,
                    i as int,
                    probe@,
                );
            }
        }
        self.target_readiness.set(i, probe);
    }

    /// Forget every readiness result, so that each target is probed anew.
    pub fn refresh_target_readiness(&mut self)
        ensures
            final(self)@ == (DashboardStateView { target_readiness: seq![], ..old(self)@ }),
            old(self)@.well_formed() ==> final(self)@.well_formed(),
    {
        broadcast use group_views;

        proof {
            lemma_empty_table::<TargetReadiness>();
        }

        self.target_readiness = Vec::new();
    }

    /// Start a readiness probe of every target that needs one.
    pub fn begin_target_readiness_checks(&mut self) -> (check: Option<DashboardAction>)
        ensures
            (final(self)@, check.deep_view()) == old(self)@.checking_targets(),
            old(self)@.well_formed() ==> final(self)@.well_formed(),
    {
        broadcast use group_views;

        let generation = self.next_readiness_generation;
        let now = self.now;
        let ghost before = self@.target_readiness;
        let ghost targets = self@.config.targets;
        let ghost start = self@;
        let mut ids: Vec<String> = Vec::new();
        let mut i: usize = 0;
        assert(targets.take(0) =~= Seq::empty());
        while i < self.config.targets.len()
            invariant
                i <= self.config.targets.len(),
                targets == self@.config.targets,
                targets == views(self.config.targets@),
                now == start.now,
                self@ == (DashboardStateView {
                    target_readiness: probes_begun(
                        before,
                        targets.take(i as int),
                        generation,
                        now,
                    ),
                    ..start
                }),
                ids.deep_view() == probed_ids(before, targets.take(i as int), generation, now),
            decreases self.config.targets.len() - i,
        {
            broadcast use group_views;

            let target = &self.config.targets[i];
            proof {
                assert(targets.take(i + 1).drop_last() =~= targets.take(i as int));
                assert(targets.take(i + 1).last() == target@);
            }
            if probe_needed(&self.target_readiness, target, now) {
                ids.push(target.id.duplicate());
                begin_probe(&mut self.target_readiness, target, generation, now);
            }
            i = i + 1;
        }
        proof {
            assert(targets.take(targets.len() as int) =~= targets);
            if ids.deep_view().len() == 0 {
                lemma_no_probes(before, targets, generation, now);
            }
            if keys_increase::<TargetReadiness>(before) {
                law_probes_keep_order(before, targets, generation, now);
            }
        }
        if ids.len() == 0 {
            None
        } else {
            self.next_readiness_generation = following_number(generation);
            Some(DashboardAction::CheckTargetReadiness { generation, target_ids: ids })
        }
    }

    /// Why this session cannot resume on `target_id`, or `None` when it can.
    pub fn resume_target_rejection(&self, session_id: &str, target_id: &str) -> (reason: Option<
        String,
    >)
        ensures
            reason.deep_view() == self@.resume_rejection(session_id@, target_id@),
    {
        let unready = self.target_readiness_rejection(target_id);
        if unready.is_some() {
            return unready;
        }
        match find(&self.state.sessions, session_id) {
            None => None,
            Some(session) => match find(&session.fits, target_id) {
                Some(entry) => match &entry.fit {
                    Compatibility::Usable(_) => None,
                    Compatibility::Unusable(reason) => Some(reason.duplicate()),
                },
                None => None,
            },
        }
    }

    /// Why the draft cannot use a target.
    pub fn draft_target_rejection(&self, draft: &Draft, target_id: &str) -> (reason: Option<String>)
        ensures
            reason.deep_view() == self@.target_rejection(draft@, target_id@),
    {
        match &draft.purpose {
            Purpose::New(_) => self.target_readiness_rejection(target_id),
            Purpose::Resume(part) => self.resume_target_rejection(
                part.session_id.as_str(),
                target_id,
            ),
        }
    }

    /// Whether the draft can go on from its target.
    pub fn target_advance_enabled(&self, draft: &Draft) -> (r: bool)
        requires
            draft.target < self.config.targets.len(),
        ensures
            r == self@.target_settled(draft@),
    {
        broadcast use group_views;

        let target = &self.config.targets[draft.target];
        self.draft_target_rejection(draft, target.id.as_str()).is_none() && (
        draft.resource_allocation.is_some() || target.template.kind != TargetKind::AwsEc2)
    }
}

// --- Sizes ---

/// A target that runs sessions in containers of a chosen size.
pub open spec fn sized_container(kind: TargetKind) -> bool {
    match kind {
        TargetKind::LocalPodman | TargetKind::LocalDocker | TargetKind::AppleContainer
        | TargetKind::SshPodman | TargetKind::SshDocker => true,
        TargetKind::LocalBare | TargetKind::AwsEc2 | TargetKind::SshBare => false,
    }
}

fn is_sized_container(kind: TargetKind) -> (r: bool)
    ensures
        r == sized_container(kind),
{
    match kind {
        TargetKind::LocalPodman | TargetKind::LocalDocker | TargetKind::AppleContainer
        | TargetKind::SshPodman | TargetKind::SshDocker => true,
        TargetKind::LocalBare | TargetKind::AwsEc2 | TargetKind::SshBare => false,
    }
}

impl DashboardStateView {
    /// The size a resumed session already ran with.
    pub open spec fn previous_size(self, draft: DraftView) -> Option<ResourceAllocationView> {
        match draft.purpose {
            PurposeView::New(_) => None,
            PurposeView::Resume(part) => match self.session(part.session_id) {
                Some(session) => session.resource_allocation,
                None => None,
            },
        }
    }

    /// The container size to start from: the one the session had, else the
    /// one last used on the host, else the baseline; within what the host
    /// has.
    pub open spec fn starting_container(
        self,
        target: TargetView,
        previous: Option<ResourceAllocationView>,
    ) -> ResourceAllocationView {
        let limits = self.host_limits(target.id);
        let last = match target.template.size_host {
            Some(host) => lookup::<HostSize>(self.state.container_sizes, host),
            None => None,
        };
        let (cpus, memory) = match (previous, last) {
            (Some(ResourceAllocationView::Container { cpus, memory_bytes }), _) => clamped_size(
                cpus as nat,
                memory_bytes as nat,
                limits,
            ),
            (_, Some(size)) => clamped_size(size.cpus as nat, size.memory_bytes as nat, limits),
            _ => clamped_size(BASELINE_CPUS as nat, BASELINE_MEMORY_BYTES as nat, limits),
        };
        ResourceAllocationView::Container { cpus: cpus as u64, memory_bytes: memory as u64 }
    }

    /// The draft with the size its target starts with.
    pub open spec fn target_prepared(self, draft: DraftView) -> DraftView {
        let target = self.target(draft.target);
        let previous = self.previous_size(draft);
        DraftView {
            resource_allocation: if sized_container(target.template.kind) {
                Some(self.starting_container(target, previous))
            } else if target.template.kind == TargetKind::AwsEc2 {
                match lookup::<TargetSizes>(draft.aws_options, target.id) {
                    Some(sizes) => preferred_option(sizes.options, previous),
                    None => None,
                }
            } else {
                None
            },
            sizing_error: if sized_container(target.template.kind) && self.host_limits(
                target.id,
            ) is None {
                Some("host totals unavailable; + disabled"@)
            } else {
                None
            },
            ..draft
        }
    }

    /// The sizes of an instance have to be looked up first.
    pub open spec fn preparation_action(self, draft: DraftView) -> DashboardActionView {
        let target = self.target(draft.target);
        if target.template.kind == TargetKind::AwsEc2 && lookup::<TargetSizes>(
            draft.aws_options,
            target.id,
        ) is None {
            DashboardActionView::ResolveAwsResourceOptions { target_template_ids: seq![target.id] }
        } else {
            DashboardActionView::Nothing
        }
    }

    /// The draft with its size changed by a key.
    pub open spec fn resources_adjusted(self, draft: DraftView, key: char) -> DraftView {
        let target = self.target(draft.target);
        DraftView {
            resource_allocation: adjusted(
                draft.resource_allocation,
                match lookup::<TargetSizes>(draft.aws_options, target.id) {
                    Some(sizes) => Some(sizes.options),
                    None => None,
                },
                self.host_limits(target.id),
                key,
            ),
            ..draft
        }
    }

    /// The draft with the sizes that a target offers. Sizes for a target the
    /// draft is not on are kept for later and change nothing else; a failure
    /// for such a target is not the draft's problem.
    pub open spec fn with_aws_options(
        self,
        draft: DraftView,
        target_id: Seq<char>,
        result: Result<Seq<ResourceAllocationView>, Seq<char>>,
    ) -> DraftView {
        let on_target = self.target(draft.target).id == target_id;
        match result {
            Ok(options) => {
                let stored = DraftView {
                    aws_options: with_sizes(draft.aws_options, target_id, options),
                    ..draft
                };
                if on_target {
                    DraftView {
                        resource_allocation: preferred_option(options, self.previous_size(draft)),
                        sizing_error: None,
                        ..stored
                    }
                } else {
                    stored
                }
            },
            Err(error) => if on_target {
                DraftView { resource_allocation: None, sizing_error: Some(error), ..draft }
            } else {
                draft
            },
        }
    }
}

/// A container starts with the size that its session had, or else the one last
/// used on its host, or else eight processors and 32 GiB; of each no more than
/// the host has.
pub proof fn law_container_starts_with(
    state: DashboardStateView,
    target: TargetView,
    previous: Option<ResourceAllocationView>,
)
    ensures
        ({
            let limits = state.host_limits(target.id);
            let last = match target.template.size_host {
                Some(host) => lookup::<HostSize>(state.state.container_sizes, host),
                None => None,
            };
            let (wanted_cpus, wanted_memory): (int, int) = match previous {
                Some(ResourceAllocationView::Container { cpus, memory_bytes }) => (
                    cpus as int,
                    memory_bytes as int,
                ),
                _ => match last {
                    Some(size) => (size.cpus as int, size.memory_bytes as int),
                    None => (8, 34_359_738_368),
                },
            };
            &&& state.starting_container(target, previous) matches ResourceAllocationView::Container {
                cpus,
                memory_bytes,
            }
            &&& wanted_cpus >= 1 && limits is None ==> cpus == wanted_cpus
            &&& wanted_memory >= 1 && limits is None ==> memory_bytes == wanted_memory
            &&& limits matches Some((most_cpus, most_memory)) ==> {
                &&& wanted_cpus <= most_cpus ==> cpus == wanted_cpus
                &&& wanted_cpus > most_cpus >= 1 ==> cpus == most_cpus
                &&& wanted_memory <= most_memory ==> memory_bytes == wanted_memory
                &&& wanted_memory > most_memory >= 1 ==> memory_bytes == most_memory
            }
        }),
{
}

/// A container has a size from the start, a bare target has none, and an
/// instance has one of those that were looked up for it, if they were. Nothing
/// else of the draft changes.
pub proof fn law_size_by_kind(state: DashboardStateView, draft: DraftView)
    ensures
        ({
            let target = state.config.targets[draft.target as int];
            let after = state.target_prepared(draft);
            let kind = target.template.kind;
            &&& (kind == TargetKind::LocalPodman || kind == TargetKind::LocalDocker || kind
                == TargetKind::AppleContainer || kind == TargetKind::SshPodman || kind
                == TargetKind::SshDocker) ==> after.resource_allocation is Some
                && after.resource_allocation->0 is Container
            &&& kind == TargetKind::LocalBare || kind == TargetKind::SshBare
                ==> after.resource_allocation is None
            &&& kind == TargetKind::AwsEc2 && lookup::<TargetSizes>(
                draft.aws_options,
                target.id,
            ) is None ==> after.resource_allocation is None
            &&& kind == TargetKind::AwsEc2 ==> (lookup::<TargetSizes>(
                draft.aws_options,
                target.id,
            ) matches Some(sizes) ==> after.resource_allocation == preferred_option(
                sizes.options,
                state.previous_size(draft),
            ))
            &&& after.target == draft.target && after.profile == draft.profile
            &&& after.mounts == draft.mounts && after.purpose == draft.purpose
            &&& after.step == draft.step && after.aws_options == draft.aws_options
        }),
{
}

/// The sizes of an instance are looked up once, for that target; nothing is
/// looked up for any other.
pub proof fn law_sizes_looked_up_once(state: DashboardStateView, draft: DraftView)
    ensures
        ({
            let target = state.config.targets[draft.target as int];
            let known = exists|i: int|
                0 <= i < draft.aws_options.len() && (#[trigger] draft.aws_options[i]).target_id
                    == target.id;
            let action = state.preparation_action(draft);
            &&& target.template.kind == TargetKind::AwsEc2 && !known ==> {
                &&& action matches DashboardActionView::ResolveAwsResourceOptions {
                    target_template_ids,
                }
                &&& target_template_ids.len() == 1 && target_template_ids[0] == target.id
            }
            &&& target.template.kind != TargetKind::AwsEc2 || known ==> action
                == DashboardActionView::Nothing
        }),
{
    let target = state.config.targets[draft.target as int];
    law_lookup_finds_first::<TargetSizes>(draft.aws_options, target.id);
}

/// Sizes that were found are kept for their target. The draft takes one of
/// them, or shows the failure, only where it is on that target.
pub proof fn law_sizes_for_their_target(
    state: DashboardStateView,
    draft: DraftView,
    target_id: Seq<char>,
    options: Seq<ResourceAllocationView>,
    error: Seq<char>,
)
    ensures
        ({
            let here = state.config.targets[draft.target as int].id == target_id;
            let found = state.with_aws_options(draft, target_id, Ok(options));
            let failed = state.with_aws_options(draft, target_id, Err(error));
            &&& lookup::<TargetSizes>(found.aws_options, target_id) matches Some(sizes)
            &&& sizes.options == options
            &&& here ==> found.resource_allocation == preferred_option(
                options,
                state.previous_size(draft),
            ) && found.sizing_error is None
            &&& !here ==> found.resource_allocation == draft.resource_allocation
                && found.sizing_error == draft.sizing_error
            &&& here ==> failed.resource_allocation is None && failed.sizing_error == Some(error)
            &&& !here ==> failed == draft
            &&& found.target == draft.target && found.mounts == draft.mounts
            &&& found.purpose == draft.purpose && failed.aws_options == draft.aws_options
        }),
{
    law_stored_read_back::<TargetSizes>(
        draft.aws_options,
        TargetSizesView { target_id, options },
        target_id,
    );
}

/// A key changes the size among those of the selected target, within what that
/// target's host has, and nothing else of the draft.
pub proof fn law_key_sizes_selected_target(state: DashboardStateView, draft: DraftView, key: char)
    ensures
        ({
            let target = state.config.targets[draft.target as int];
            let after = state.resources_adjusted(draft, key);
            let limits = state.host_limits(target.id);
            let before = draft.resource_allocation;
            let sizes = lookup::<TargetSizes>(draft.aws_options, target.id);
            &&& sizes is Some ==> after.resource_allocation == adjusted(
                before,
                Some(sizes->0.options),
                limits,
                key,
            )
            &&& sizes is None ==> after.resource_allocation == adjusted(before, None, limits, key)
            &&& before is None ==> after.resource_allocation is None
            &&& after.target == draft.target && after.mounts == draft.mounts
            &&& after.aws_options == draft.aws_options && after.purpose == draft.purpose
        }),
{
}

/// The size that a resumed session had is the one of its own record.
/// The size that a resumed session had is the one of its own record.
pub proof fn law_previous_size_of_session(state: DashboardStateView, draft: DraftView)
    ensures
        draft.purpose is New ==> state.previous_size(draft) is None,
        draft.purpose matches PurposeView::Resume(part) ==> (state.session(
            part.session_id,
        ) matches Some(session) ==> state.previous_size(draft) == session.resource_allocation),
{
}

impl DashboardState {
    fn previous_allocation(&self, draft: &Draft) -> (previous: Option<ResourceAllocation>)
        ensures
            previous.deep_view() == self@.previous_size(draft@),
    {
        match &draft.purpose {
            Purpose::New(_) => None,
            Purpose::Resume(part) => match find(&self.state.sessions, part.session_id.as_str()) {
                Some(session) => session.resource_allocation.duplicate(),
                None => None,
            },
        }
    }

    fn starting_size(&self, target: &Target, previous: &Option<ResourceAllocation>) -> (size:
        ResourceAllocation)
        ensures
            size@ == self@.starting_container(target@, previous.deep_view()),
    {
        let limits = self.host_limits(target.id.as_str());
        let last: Option<&HostSize> = match &target.template.size_host {
            Some(host) => find(&self.state.container_sizes, host.as_str()),
            None => None,
        };
        let (cpus, memory_bytes) = match previous {
            Some(ResourceAllocation::Container { cpus, memory_bytes }) => clamp_resources(
                *cpus,
                *memory_bytes,
                limits,
            ),
            _ => match last {
                Some(size) => clamp_resources(size.cpus, size.memory_bytes, limits),
                None => clamp_resources(BASELINE_CPUS, BASELINE_MEMORY_BYTES, limits),
            },
        };
        ResourceAllocation::Container { cpus, memory_bytes }
    }

    /// Settle the size that the draft's target starts with.
    pub fn prepare_wizard_target(&self, draft: &mut Draft) -> (action: DashboardAction)
        requires
            old(draft).target < self.config.targets.len(),
        ensures
            final(draft)@ == self@.target_prepared(old(draft)@),
            action@ == self@.preparation_action(old(draft)@),
    {
        broadcast use group_views;

        let previous = self.previous_allocation(draft);
        let target = &self.config.targets[draft.target];
        assert(self@.target(draft.target) == target@);
        draft.sizing_error = None;
        if is_sized_container(target.template.kind) {
            if self.host_limits(target.id.as_str()).is_none() {
                draft.sizing_error = Some(owned("host totals unavailable; + disabled"));
            }
            draft.resource_allocation = Some(self.starting_size(target, &previous));
            return DashboardAction::Nothing;
        }
        if target.template.kind != TargetKind::AwsEc2 {
            draft.resource_allocation = None;
            return DashboardAction::Nothing;
        }
        let chosen: Option<Option<ResourceAllocation>> = match find(
            &draft.aws_options,
            target.id.as_str(),
        ) {
            Some(sizes) => Some(preferred_aws_option(&sizes.options, &previous)),
            None => None,
        };
        match chosen {
            Some(size) => {
                draft.resource_allocation = size;
                DashboardAction::Nothing
            },
            None => {
                draft.resource_allocation = None;
                let mut ids: Vec<String> = Vec::new();
                ids.push(target.id.duplicate());
                assert(ids.deep_view() =~= seq![target@.id]);
                DashboardAction::ResolveAwsResourceOptions { target_template_ids: ids }
            },
        }
    }

    /// Change the draft's size by a key.
    pub fn adjust_wizard_resources(&self, draft: &mut Draft, key: char)
        requires
            old(draft).target < self.config.targets.len(),
        ensures
            final(draft)@ == self@.resources_adjusted(old(draft)@, key),
    {
        broadcast use group_views;

        let target = &self.config.targets[draft.target];
        assert(self@.target(draft.target) == target@);
        let limits = self.host_limits(target.id.as_str());
        let options: Option<&Vec<ResourceAllocation>> = match find(
            &draft.aws_options,
            target.id.as_str(),
        ) {
            Some(sizes) => Some(&sizes.options),
            None => None,
        };
        adjust_resources(&mut draft.resource_allocation, options, limits, key);
    }

    /// Take in the sizes that a target offers.
    pub fn apply_wizard_aws_options(
        &self,
        draft: &mut Draft,
        target_id: &str,
        result: Result<Vec<ResourceAllocation>, String>,
    )
        requires
            old(draft).target < self.config.targets.len(),
        ensures
            final(draft)@ == self@.with_aws_options(
                old(draft)@,
                target_id@,
                match result {
                    Ok(options) => Ok(options.deep_view()),
                    Err(error) => Err(error@),
                },
            ),
            old(draft)@.in_order() ==> final(draft)@.in_order(),
    {
        broadcast use group_views;

        let target = &self.config.targets[draft.target];
        assert(self@.target(draft.target) == target@);
        let on_target = same_text(target.id.as_str(), target_id);
        let previous = self.previous_allocation(draft);
        match result {
            Ok(options) => {
                if on_target {
                    draft.resource_allocation = preferred_aws_option(&options, &previous);
                    draft.sizing_error = None;
                }
                proof {
                    if draft@.in_order() {
                        law_stored_keeps_order::<TargetSizes>(
                            draft@.aws_options,
                            TargetSizesView { target_id: target_id@, options: options.deep_view() },
                        );
                    }
                }
                store_sizes(&mut draft.aws_options, target_id, options);
            },
            Err(error) => {
                if on_target {
                    draft.resource_allocation = None;
                    draft.sizing_error = Some(error);
                }
            },
        }
    }
}

} // verus!
