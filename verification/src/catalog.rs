//! What the configuration and the recorded sessions offer, and in what order.

use vstd::prelude::*;

#[allow(unused_imports)]
use crate::duplicate::{group_views, views};
use crate::duplicate::{same_text, Duplicate};
use crate::lists::find;
#[allow(unused_imports)]
use crate::lists::{law_lookup_finds_first, law_selected_in_order, lookup, selected};
use crate::ordering::{sort_ranked, Ranked};
#[allow(unused_imports)]
use crate::ordering::{law_ranked_total, ranked_le, ranked_views, text_le, text_lt};
use crate::records::{
    Bundle, CompatibleProfile, Config, HarnessKind, Profile, SessionRecord, State, Target,
};
#[allow(unused_imports)]
use crate::records::{
    BundleView, CompatibleProfileView, ConfigView, ProfileView, SessionRecordView, StateView,
};
#[allow(unused_imports)]
use crate::tables::keys_increase;

verus! {

// --- When sessions were created ---

/// The moment that an RFC 3339 text names, in milliseconds since 1970;
/// nothing for a text that is none.
pub uninterp spec fn rfc3339_millis(text: Seq<char>) -> Option<i64>;

/// `DateTime::parse_from_rfc3339` and `DateTime::timestamp_millis` of
/// `chrono`: the moment that a text names, or nothing where it does not parse.
/// Which moment that is follows from RFC 3339 and is not stated here; it is a
/// function of the text alone.
#[verifier::external_body]
pub(crate) fn parse_rfc3339_millis(text: &str) -> (millis: Option<i64>)
    ensures
        millis == rfc3339_millis(text@),
{
    chrono::DateTime::parse_from_rfc3339(text).ok().map(|moment| moment.timestamp_millis())
}

/// The moment in milliseconds; before all others for a text that names none.
pub open spec fn creation_rank(text: Seq<char>) -> int {
    match rfc3339_millis(text) {
        Some(millis) => millis as int,
        None => i64::MIN - 1,
    }
}

fn created_rank(text: &str) -> (rank: i128)
    ensures
        rank == creation_rank(text@),
{
    match parse_rfc3339_millis(text) {
        Some(millis) => millis as i128,
        None => i64::MIN as i128 - 1,
    }
}

// --- Profiles ---

pub open spec fn as_choice(profile: ProfileView) -> CompatibleProfileView {
    CompatibleProfileView { id: profile.id, kind: profile.kind }
}

/// The enabled profiles, in the order they are configured in.
pub open spec fn enabled_choices(profiles: Seq<ProfileView>) -> Seq<CompatibleProfileView> {
    selected(profiles, |profile: ProfileView| profile.enabled, |profile: ProfileView| as_choice(profile))
}

/// The enabled profiles are offered in the order of their ids, each once.
pub proof fn law_choices_in_order(profiles: Seq<ProfileView>)
    requires
        keys_increase::<Profile>(profiles),
    ensures
        keys_increase::<CompatibleProfile>(enabled_choices(profiles)),
    decreases profiles.len(),
{
    reveal(keys_increase);
    if profiles.len() > 0 {
        let front = profiles.drop_last();
        law_choices_in_order(front);
        lemma_choices_configured(front);
        let before = enabled_choices(front);
        let last = profiles.last();
        assert forall|i: int| 0 <= i < before.len() implies text_lt(
            (#[trigger] before[i]).id,
            last.id,
        ) by {
            let k = choose|k: int| 0 <= k < front.len() && before[i] == as_choice(front[k]);
            assert(profiles[k] == front[k]);
            assert(text_lt(profiles[k].id, profiles[profiles.len() - 1].id));
        }
    }
}

proof fn lemma_choices_configured(profiles: Seq<ProfileView>)
    ensures
        forall|i: int|
            0 <= i < enabled_choices(profiles).len() ==> exists|k: int|
                0 <= k < profiles.len() && #[trigger] enabled_choices(profiles)[i] == as_choice(
                    #[trigger] profiles[k],
                ),
    decreases profiles.len(),
{
    if profiles.len() > 0 {
        let front = profiles.drop_last();
        lemma_choices_configured(front);
        let all = enabled_choices(profiles);
        let before = enabled_choices(front);
        assert forall|i: int| 0 <= i < all.len() implies exists|k: int|
            0 <= k < profiles.len() && #[trigger] all[i] == as_choice(#[trigger] profiles[k]) by {
            if i < before.len() {
                let k = choose|k: int|
                    0 <= k < front.len() && before[i] == as_choice(#[trigger] front[k]);
                assert(all[i] == as_choice(profiles[k]));
            } else {
                assert(all[i] == as_choice(profiles[profiles.len() - 1]));
            }
        }
    }
}

/// A profile is offered exactly where it is configured and enabled, under its
/// own id and with its own harness, in the order of the configuration.
pub proof fn law_enabled_profiles_offered(profiles: Seq<ProfileView>)
    ensures
        enabled_choices(profiles).len() == profiles.filter(
            |profile: ProfileView| profile.enabled,
        ).len(),
        forall|i: int|
            0 <= i < enabled_choices(profiles).len() ==> {
                let profile = profiles.filter(|profile: ProfileView| profile.enabled)[i];
                &&& (#[trigger] enabled_choices(profiles)[i]).id == profile.id
                &&& enabled_choices(profiles)[i].kind == profile.kind
            },
{
    let enabled = |profile: ProfileView| profile.enabled;
    let choice = |profile: ProfileView| as_choice(profile);
    law_selected_in_order(profiles, enabled, choice);
}

/// The enabled profiles, in the order they are configured in.
pub fn enabled_profiles(config: &Config) -> (choices: Vec<CompatibleProfile>)
    ensures
        choices.deep_view() == enabled_choices(config@.profiles),
{
    broadcast use group_views;

    let ghost all = config@.profiles;
    let mut choices: Vec<CompatibleProfile> = Vec::new();
    let mut i: usize = 0;
    assert(all.take(0) =~= Seq::empty());
    while i < config.profiles.len()
        invariant
            i <= config.profiles.len(),
            all == config@.profiles,
            all == views(config.profiles@),
            choices.deep_view() == enabled_choices(all.take(i as int)),
        decreases config.profiles.len() - i,
    {
        broadcast use group_views;

        let profile = &config.profiles[i];
        assert(all.take(i + 1).drop_last() =~= all.take(i as int));
        assert(all.take(i + 1).last() == profile@);
        if profile.enabled {
            choices.push(
                CompatibleProfile { id: profile.id.duplicate(), kind: profile.kind },
            );
        }
        i = i + 1;
    }
    assert(all.take(all.len() as int) =~= all);
    choices
}

/// The profile `id` is configured and enabled.
pub open spec fn profile_enabled(config: ConfigView, id: Seq<char>) -> bool {
    lookup::<Profile>(config.profiles, id) matches Some(profile) && profile.enabled
}

fn is_profile_enabled(config: &Config, id: &str) -> (r: bool)
    ensures
        r == profile_enabled(config@, id@),
{
    match find(&config.profiles, id) {
        Some(profile) => profile.enabled,
        None => false,
    }
}

/// Only two of the harnesses receive the delegation tools.
pub open spec fn delegates(kind: HarnessKind) -> bool {
    kind == HarnessKind::Claude || kind == HarnessKind::Codex
}

pub fn supports_delegation_tools(kind: HarnessKind) -> (r: bool)
    ensures
        r == delegates(kind),
{
    kind == HarnessKind::Claude || kind == HarnessKind::Codex
}

// --- The most recent session ---

/// A session whose profile, bundle and target are all still configured.
pub open spec fn reusable(config: ConfigView, session: SessionRecordView) -> bool {
    &&& profile_enabled(config, session.last_profile)
    &&& lookup::<Bundle>(config.bundles, session.bundle_id).is_some()
    &&& lookup::<Target>(config.targets, session.target_template_id).is_some()
}

/// Session `i` is the reusable one created last; the last one of several
/// created at one moment.
pub open spec fn most_recent(config: ConfigView, sessions: Seq<SessionRecordView>, i: int) -> bool {
    &&& 0 <= i < sessions.len()
    &&& reusable(config, sessions[i])
    &&& forall|j: int|
        0 <= j < sessions.len() && reusable(config, #[trigger] sessions[j]) ==> {
            &&& creation_rank(sessions[j].created_at) <= creation_rank(sessions[i].created_at)
            &&& j > i ==> creation_rank(sessions[j].created_at) < creation_rank(
                sessions[i].created_at,
            )
        }
}

/// The reusable session that was created last.
pub open spec fn recent_session(config: ConfigView, state: StateView) -> Option<
    SessionRecordView,
> {
    if exists|i: int| most_recent(config, state.sessions, i) {
        Some(state.sessions[choose|i: int| most_recent(config, state.sessions, i)])
    } else {
        None
    }
}

/// The session that is gone on from was created last among the reusable ones;
/// of several created at one moment it is the one with the greatest id.
pub proof fn law_recent_session_last(config: ConfigView, state: StateView, j: int)
    requires
        keys_increase::<SessionRecord>(state.sessions),
        0 <= j < state.sessions.len(),
        reusable(config, state.sessions[j]),
        recent_session(config, state) is Some,
    ensures
        ({
            let found = recent_session(config, state)->0;
            let other = state.sessions[j];
            &&& reusable(config, found)
            &&& creation_rank(other.created_at) <= creation_rank(found.created_at)
            &&& creation_rank(other.created_at) == creation_rank(found.created_at) ==> other
                == found || text_lt(other.id, found.id)
        }),
{
    reveal(keys_increase);
    let sessions = state.sessions;
    let i = choose|i: int| most_recent(config, sessions, i);
    assert(most_recent(config, sessions, i));
    if j < i {
        assert(text_lt(sessions[j].id, sessions[i].id));
    }
}

/// A session is gone on from only where its profile is configured and enabled
/// and its bundle and its target are configured.
pub proof fn law_reusable_is_configured(config: ConfigView, session: SessionRecordView)
    ensures
        reusable(config, session) ==> {
            &&& exists|i: int|
                0 <= i < config.profiles.len() && (#[trigger] config.profiles[i]).id
                    == session.last_profile && config.profiles[i].enabled
            &&& exists|i: int|
                0 <= i < config.bundles.len() && (#[trigger] config.bundles[i]).id
                    == session.bundle_id
            &&& exists|i: int|
                0 <= i < config.targets.len() && (#[trigger] config.targets[i]).id
                    == session.target_template_id
        },
{
    law_lookup_finds_first::<Profile>(config.profiles, session.last_profile);
    law_lookup_finds_first::<Bundle>(config.bundles, session.bundle_id);
    law_lookup_finds_first::<Target>(config.targets, session.target_template_id);
}

/// Some session is gone on from wherever one can be.
pub proof fn law_recent_session_found(config: ConfigView, state: StateView, j: int)
    requires
        0 <= j < state.sessions.len(),
        reusable(config, state.sessions[j]),
    ensures
        recent_session(config, state) is Some,
{
    lemma_most_recent_exists(config, state.sessions, j);
}

proof fn lemma_most_recent_exists(config: ConfigView, sessions: Seq<SessionRecordView>, j: int)
    requires
        0 <= j < sessions.len(),
        reusable(config, sessions[j]),
    ensures
        exists|i: int| most_recent(config, sessions, i),
    decreases sessions.len(),
{
    let front = sessions.drop_last();
    let last = sessions.len() - 1;
    if exists|i: int| most_recent(config, front, i) {
        let i = choose|i: int| most_recent(config, front, i);
        assert(sessions[i] == front[i]);
        let later = reusable(config, sessions[last]) && creation_rank(sessions[last].created_at)
            >= creation_rank(sessions[i].created_at);
        let best = if later {
            last
        } else {
            i
        };
        assert forall|k: int|
            0 <= k < sessions.len() && reusable(config, #[trigger] sessions[k]) implies {
            &&& creation_rank(sessions[k].created_at) <= creation_rank(sessions[best].created_at)
            &&& k > best ==> creation_rank(sessions[k].created_at) < creation_rank(
                sessions[best].created_at,
            )
        } by {
            if k < last {
                assert(front[k] == sessions[k]);
                assert(reusable(config, front[k]));
            }
        }
        assert(most_recent(config, sessions, best));
    } else {
        if j < last {
            assert(front[j] == sessions[j]);
            lemma_most_recent_exists(config, front, j);
        }
        assert forall|k: int| 0 <= k < last implies !reusable(config, #[trigger] sessions[k]) by {
            if reusable(config, sessions[k]) {
                assert(front[k] == sessions[k]);
                lemma_most_recent_exists(config, front, k);
            }
        }
        assert(most_recent(config, sessions, last));
    }
}

fn is_reusable(config: &Config, session: &SessionRecord) -> (r: bool)
    ensures
        r == reusable(config@, session@),
{
    is_profile_enabled(config, session.last_profile.as_str()) && find(
        &config.bundles,
        session.bundle_id.as_str(),
    ).is_some() && find(&config.targets, session.target_template_id.as_str()).is_some()
}

/// The reusable session that was created last.
pub fn most_recent_configured_session<'a>(config: &Config, state: &'a State) -> (found: Option<
    &'a SessionRecord,
>)
    ensures
        match found {
            Some(session) => recent_session(config@, state@) == Some(session@),
            None => recent_session(config@, state@) is None,
        },
{
    broadcast use group_views;

    let ghost sessions = state@.sessions;
    let mut best: Option<(usize, i128)> = None;
    let mut i: usize = 0;
    while i < state.sessions.len()
        invariant
            i <= state.sessions.len(),
            sessions == state@.sessions,
            sessions == views(state.sessions@),
            match best {
                None => forall|j: int|
                    0 <= j < i ==> !reusable(config@, #[trigger] sessions[j]),
                Some((k, rank)) => {
                    &&& k < i
                    &&& reusable(config@, sessions[k as int])
                    &&& rank == creation_rank(sessions[k as int].created_at)
                    &&& forall|j: int|
                        0 <= j < i && reusable(config@, #[trigger] sessions[j]) ==> {
                            &&& creation_rank(sessions[j].created_at) <= rank
                            &&& j > k ==> creation_rank(sessions[j].created_at) < rank
                        }
                },
            },
        decreases state.sessions.len() - i,
    {
        let session = &state.sessions[i];
        assert(sessions[i as int] == session@);
        if is_reusable(config, session) {
            let rank = created_rank(session.created_at.as_str());
            let later = match best {
                None => true,
                Some((_, least)) => rank >= least,
            };
            if later {
                best = Some((i, rank));
            }
        }
        i = i + 1;
    }
    match best {
        None => {
            assert forall|k: int| !most_recent(config@, sessions, k) by {}
            None
        },
        Some((k, _)) => {
            assert(most_recent(config@, sessions, k as int));
            proof {
                let chosen = choose|c: int| most_recent(config@, sessions, c);
                assert(most_recent(config@, sessions, chosen));
                assert(reusable(config@, sessions[chosen]));
                assert(reusable(config@, sessions[k as int]));
                assert(chosen == k);
            }
            Some(&state.sessions[k])
        },
    }
}

// --- Bundles ---

/// When the last session of a bundle was created; before all moments where
/// none is known.
pub open spec fn latest_creation(sessions: Seq<SessionRecordView>, bundle: Seq<char>) -> int
    decreases sessions.len(),
{
    if sessions.len() == 0 {
        i64::MIN - 1
    } else {
        let earlier = latest_creation(sessions.drop_last(), bundle);
        let last = sessions.last();
        if last.bundle_id == bundle && creation_rank(last.created_at) > earlier {
            creation_rank(last.created_at)
        } else {
            earlier
        }
    }
}

/// A later moment ranks higher, and a text that names none ranks below every
/// moment.
pub proof fn law_rank_follows_moment(a: Seq<char>, b: Seq<char>)
    ensures
        rfc3339_millis(a) matches Some(x) ==> (rfc3339_millis(b) matches Some(y) ==> (
        creation_rank(a) < creation_rank(b) <==> x < y)),
        rfc3339_millis(a) is None && rfc3339_millis(b) is Some ==> creation_rank(a)
            < creation_rank(b),
{
}

/// The latest creation of a bundle is that of one of its own sessions, and none
/// of them was created later.
pub proof fn law_latest_of_own_sessions(sessions: Seq<SessionRecordView>, bundle: Seq<char>)
    ensures
        forall|j: int|
            0 <= j < sessions.len() && (#[trigger] sessions[j]).bundle_id == bundle
                ==> creation_rank(sessions[j].created_at) <= latest_creation(sessions, bundle),
        (exists|j: int| 0 <= j < sessions.len() && (#[trigger] sessions[j]).bundle_id == bundle)
            ==> exists|k: int|
            0 <= k < sessions.len() && (#[trigger] sessions[k]).bundle_id == bundle
                && creation_rank(sessions[k].created_at) == latest_creation(sessions, bundle),
        latest_creation(sessions, bundle) >= i64::MIN - 1,
    decreases sessions.len(),
{
    if sessions.len() > 0 {
        let front = sessions.drop_last();
        let last = sessions.len() - 1;
        law_latest_of_own_sessions(front, bundle);
        let latest = latest_creation(sessions, bundle);
        let earlier = latest_creation(front, bundle);
        assert forall|j: int|
            0 <= j < sessions.len() && (#[trigger] sessions[j]).bundle_id == bundle implies
            creation_rank(sessions[j].created_at) <= latest by {
            if j < last {
                assert(front[j] == sessions[j]);
            }
        }
        if exists|j: int| 0 <= j < sessions.len() && (#[trigger] sessions[j]).bundle_id == bundle {
            if exists|j: int| 0 <= j < front.len() && (#[trigger] front[j]).bundle_id == bundle {
                let k = choose|k: int|
                    0 <= k < front.len() && (#[trigger] front[k]).bundle_id == bundle
                        && creation_rank(front[k].created_at) == earlier;
                assert(sessions[k] == front[k]);
                if latest != earlier {
                    assert(sessions[last].bundle_id == bundle);
                }
            } else {
                let j = choose|j: int|
                    0 <= j < sessions.len() && (#[trigger] sessions[j]).bundle_id == bundle;
                if j < last {
                    assert(front[j].bundle_id == bundle);
                }
                lemma_no_creation(front, bundle);
                assert(sessions[last].bundle_id == bundle);
            }
        }
    }
}

proof fn lemma_no_creation(sessions: Seq<SessionRecordView>, bundle: Seq<char>)
    requires
        forall|j: int| 0 <= j < sessions.len() ==> (#[trigger] sessions[j]).bundle_id != bundle,
    ensures
        latest_creation(sessions, bundle) == i64::MIN - 1,
    decreases sessions.len(),
{
    if sessions.len() > 0 {
        let front = sessions.drop_last();
        assert forall|j: int| 0 <= j < front.len() implies (#[trigger] front[j]).bundle_id
            != bundle by {
            assert(front[j] == sessions[j]);
        }
        assert(sessions[sessions.len() - 1].bundle_id != bundle);
        lemma_no_creation(front, bundle);
    }
}

fn latest_created(state: &State, bundle: &str) -> (rank: i128)
    ensures
        rank == latest_creation(state@.sessions, bundle@),
        i64::MIN - 1 <= rank <= i64::MAX,
{
    broadcast use group_views;

    let ghost sessions = state@.sessions;
    let mut latest: i128 = i64::MIN as i128 - 1;
    let mut i: usize = 0;
    assert(sessions.take(0) =~= Seq::empty());
    while i < state.sessions.len()
        invariant
            i <= state.sessions.len(),
            sessions == state@.sessions,
            sessions == views(state.sessions@),
            latest == latest_creation(sessions.take(i as int), bundle@),
            i64::MIN - 1 <= latest <= i64::MAX,
        decreases state.sessions.len() - i,
    {
        let session = &state.sessions[i];
        assert(sessions.take(i + 1).drop_last() =~= sessions.take(i as int));
        assert(sessions.take(i + 1).last() == session@);
        if same_text(session.bundle_id.as_str(), bundle) {
            let rank = created_rank(session.created_at.as_str());
            if rank > latest {
                latest = rank;
            }
        }
        i = i + 1;
    }
    assert(sessions.take(sessions.len() as int) =~= sessions);
    latest
}

/// A bundle with what it is ordered by: the later its last session, the
/// earlier it comes.
pub open spec fn ranked_bundle(state: StateView, bundle: BundleView) -> (int, Seq<char>) {
    (-latest_creation(state.sessions, bundle.id), bundle.id)
}

/// The bundles, the one with the latest session first; those with equal or no
/// sessions by id.
pub open spec fn bundle_order(config: ConfigView, state: StateView) -> Seq<Seq<char>> {
    config.bundles.map_values(|bundle: BundleView| ranked_bundle(state, bundle)).sort_by(
        ranked_le(),
    ).map_values(|ranked: (int, Seq<char>)| ranked.1)
}

/// Every bundle is offered, once for each time it is configured, and nothing
/// else is.
pub proof fn law_bundle_order_complete(config: ConfigView, state: StateView)
    ensures
        bundle_order(config, state).len() == config.bundles.len(),
        bundle_order(config, state).to_multiset() == config.bundles.map_values(
            |bundle: BundleView| bundle.id,
        ).to_multiset(),
        forall|id: Seq<char>| #[trigger]
            bundle_order(config, state).contains(id) <==> exists|i: int|
                0 <= i < config.bundles.len() && (#[trigger] config.bundles[i]).id == id,
{
    broadcast use vstd::seq_lib::group_to_multiset_ensures;

    law_ranked_total();
    let ranked = config.bundles.map_values(|bundle: BundleView| ranked_bundle(state, bundle));
    let sorted = ranked.sort_by(ranked_le());
    let order = bundle_order(config, state);
    let ids = config.bundles.map_values(|bundle: BundleView| bundle.id);
    ranked.lemma_sort_by_ensures(ranked_le());
    assert(sorted.to_multiset().len() == ranked.to_multiset().len());
    lemma_ids_rearranged(ranked, sorted);
    assert(ids =~= ranked.map_values(|pair: (int, Seq<char>)| pair.1));
    assert(order =~= sorted.map_values(|pair: (int, Seq<char>)| pair.1));
    assert forall|id: Seq<char>| #[trigger] order.contains(id) <==> exists|i: int|
        0 <= i < config.bundles.len() && (#[trigger] config.bundles[i]).id == id by {
        assert(order.contains(id) <==> order.to_multiset().count(id) > 0);
        assert(ids.contains(id) <==> ids.to_multiset().count(id) > 0);
        if ids.contains(id) {
            let i = choose|i: int| 0 <= i < ids.len() && ids[i] == id;
            assert(config.bundles[i].id == id);
        }
        if exists|i: int| 0 <= i < config.bundles.len() && (#[trigger] config.bundles[i]).id == id {
            let i = choose|i: int|
                0 <= i < config.bundles.len() && (#[trigger] config.bundles[i]).id == id;
            assert(ids[i] == id);
        }
    }
}

/// Rearranging ranked texts rearranges the texts.
proof fn lemma_ids_rearranged(a: Seq<(int, Seq<char>)>, b: Seq<(int, Seq<char>)>)
    requires
        a.to_multiset() == b.to_multiset(),
    ensures
        a.map_values(|pair: (int, Seq<char>)| pair.1).to_multiset() == b.map_values(
            |pair: (int, Seq<char>)| pair.1,
        ).to_multiset(),
    decreases a.len(),
{
    broadcast use vstd::seq_lib::group_to_multiset_ensures;

    let text = |pair: (int, Seq<char>)| pair.1;
    a.to_multiset_ensures();
    b.to_multiset_ensures();
    if a.len() == 0 {
        assert(a.map_values(text) =~= b.map_values(text));
    } else {
        assert(a.contains(a[0]));
        assert(b.to_multiset().count(a[0]) > 0);
        let i = choose|i: int| 0 <= i < b.len() && b[i] == a[0];
        lemma_ids_rearranged(a.remove(0), b.remove(i));
        assert(a.remove(0).map_values(text) =~= a.map_values(text).remove(0));
        assert(b.remove(i).map_values(text) =~= b.map_values(text).remove(i));
        let left = a.map_values(text);
        let right = b.map_values(text);
        assert(left.remove(0).to_multiset() =~= left.to_multiset().remove(left[0]));
        assert(right.remove(i).to_multiset() =~= right.to_multiset().remove(right[i]));
        assert(left.to_multiset() =~= left.remove(0).to_multiset().insert(left[0])) by {
            assert(left.contains(left[0]));
        }
        assert(right.to_multiset() =~= right.remove(i).to_multiset().insert(right[i])) by {
            assert(right.contains(right[i]));
        }
    }
}

/// No bundle is offered twice.
pub proof fn law_bundles_offered_once(config: ConfigView, state: StateView)
    requires
        keys_increase::<Bundle>(config.bundles),
    ensures
        bundle_order(config, state).no_duplicates(),
{
    broadcast use vstd::seq_lib::group_to_multiset_ensures;

    reveal(keys_increase);
    law_ranked_total();
    let bundles = config.bundles;
    let ranked = bundles.map_values(|bundle: BundleView| ranked_bundle(state, bundle));
    let sorted = ranked.sort_by(ranked_le());
    ranked.lemma_sort_by_ensures(ranked_le());
    assert(ranked.no_duplicates()) by {
        assert forall|i: int, j: int| 0 <= i < j < ranked.len() implies ranked[i] != ranked[j] by {
            assert(text_lt(bundles[i].id, bundles[j].id));
        }
    }
    ranked.lemma_multiset_has_no_duplicates();
    sorted.lemma_multiset_has_no_duplicates_conv();
    let order = bundle_order(config, state);
    assert forall|i: int, j: int| 0 <= i < order.len() && 0 <= j < order.len() && i != j implies
        order[i] != order[j] by {
        lemma_sorted_member(ranked, sorted, i);
        lemma_sorted_member(ranked, sorted, j);
        let a = choose|k: int| 0 <= k < ranked.len() && ranked[k] == sorted[i];
        let b = choose|k: int| 0 <= k < ranked.len() && ranked[k] == sorted[j];
        assert(ranked[a] == ranked_bundle(state, bundles[a]));
        assert(ranked[b] == ranked_bundle(state, bundles[b]));
        assert(sorted[i] != sorted[j]);
    }
}

/// A bundle whose last session is later comes before one whose last session
/// is earlier; where neither is later, the lesser id comes first.
pub proof fn law_recent_bundles_first(config: ConfigView, state: StateView, i: int, j: int)
    requires
        keys_increase::<Bundle>(config.bundles),
        0 <= i < j < bundle_order(config, state).len(),
    ensures
        ({
            let first = bundle_order(config, state)[i];
            let next = bundle_order(config, state)[j];
            let earlier = latest_creation(state.sessions, next);
            let later = latest_creation(state.sessions, first);
            later > earlier || later == earlier && text_lt(first, next)
        }),
{
    broadcast use vstd::seq_lib::group_to_multiset_ensures;

    law_ranked_total();
    law_bundles_offered_once(config, state);
    let ranked = config.bundles.map_values(|bundle: BundleView| ranked_bundle(state, bundle));
    let sorted = ranked.sort_by(ranked_le());
    ranked.lemma_sort_by_ensures(ranked_le());
    assert(ranked_le()(sorted[i], sorted[j]));
    lemma_sorted_member(ranked, sorted, i);
    lemma_sorted_member(ranked, sorted, j);
    let a = choose|k: int| 0 <= k < ranked.len() && ranked[k] == sorted[i];
    let b = choose|k: int| 0 <= k < ranked.len() && ranked[k] == sorted[j];
    assert(ranked[a] == ranked_bundle(state, config.bundles[a]));
    assert(ranked[b] == ranked_bundle(state, config.bundles[b]));
}

proof fn lemma_sorted_member(
    ranked: Seq<(int, Seq<char>)>,
    sorted: Seq<(int, Seq<char>)>,
    i: int,
)
    requires
        ranked.to_multiset() == sorted.to_multiset(),
        0 <= i < sorted.len(),
    ensures
        ranked.contains(sorted[i]),
{
    broadcast use vstd::seq_lib::group_to_multiset_ensures;

    assert(sorted.contains(sorted[i]));
    assert(sorted.to_multiset().count(sorted[i]) > 0);
}

/// The bundles, the one with the latest session first.
pub fn bundle_ids_by_recent_creation(config: &Config, state: &State) -> (ids: Vec<String>)
    ensures
        ids.deep_view() == bundle_order(config@, state@),
{
    broadcast use group_views;

    let ghost mapped = |bundle: BundleView| ranked_bundle(state@, bundle);
    let ghost all = config@.bundles;
    let mut items: Vec<Ranked> = Vec::new();
    let mut i: usize = 0;
    assert(ranked_views(items@) =~= all.take(0).map_values(mapped));
    while i < config.bundles.len()
        invariant
            i <= config.bundles.len(),
            all == config@.bundles,
            all == views(config.bundles@),
            mapped == (|bundle: BundleView| ranked_bundle(state@, bundle)),
            ranked_views(items@) == all.take(i as int).map_values(mapped),
        decreases config.bundles.len() - i,
    {
        let id = config.bundles[i].id.as_str();
        let latest = latest_created(state, id);
        let ghost before = items@;
        let item = Ranked { rank: -latest, text: config.bundles[i].id.duplicate() };
        let ghost x = item@;
        items.push(item);
        proof {
            assert(all[i as int] == config.bundles@[i as int]@);
            assert(all.take(i + 1) =~= all.take(i as int).push(all[i as int]));
            assert(x == mapped(all[i as int]));
            assert(ranked_views(items@) =~= ranked_views(before).push(x));
            assert(all.take(i + 1).map_values(mapped) =~= all.take(i as int).map_values(
                mapped,
            ).push(x));
        }
        i = i + 1;
    }
    assert(all.take(all.len() as int) =~= all);
    let sorted = sort_ranked(items);
    ranked_texts(sorted)
}

fn ranked_texts(items: Vec<Ranked>) -> (texts: Vec<String>)
    ensures
        texts.deep_view() == ranked_views(items@).map_values(
            |ranked: (int, Seq<char>)| ranked.1,
        ),
{
    broadcast use group_views;

    let mut texts: Vec<String> = Vec::new();
    let mut i: usize = 0;
    while i < items.len()
        invariant
            i <= items.len(),
            texts.len() == i,
            forall|j: int| 0 <= j < i ==> (#[trigger] texts@[j])@ == items@[j].text@,
        decreases items.len() - i,
    {
        texts.push(items[i].text.duplicate());
        i = i + 1;
    }
    assert(texts.deep_view() =~= ranked_views(items@).map_values(
        |ranked: (int, Seq<char>)| ranked.1,
    ));
    texts
}

// --- Sessions ---

/// A session with what it is ordered by: when it was created, and after all
/// others where that is not known.
pub open spec fn ranked_session(session: SessionRecordView) -> (int, Seq<char>) {
    (
        match rfc3339_millis(session.created_at) {
            Some(millis) => millis as int,
            None => i64::MAX + 1,
        },
        session.id,
    )
}

/// The sessions in the order they were created.
pub open spec fn session_order(sessions: Seq<SessionRecordView>) -> Seq<Seq<char>> {
    sessions.map_values(|session: SessionRecordView| ranked_session(session)).sort_by(
        ranked_le(),
    ).map_values(|ranked: (int, Seq<char>)| ranked.1)
}

/// Every session is listed, as often as it is recorded, and nothing else is.
pub proof fn law_session_order_complete(sessions: Seq<SessionRecordView>)
    ensures
        session_order(sessions).len() == sessions.len(),
        session_order(sessions).to_multiset() == sessions.map_values(
            |session: SessionRecordView| session.id,
        ).to_multiset(),
{
    broadcast use vstd::seq_lib::group_to_multiset_ensures;

    law_ranked_total();
    let ranked = sessions.map_values(|session: SessionRecordView| ranked_session(session));
    let sorted = ranked.sort_by(ranked_le());
    let ids = sessions.map_values(|session: SessionRecordView| session.id);
    ranked.lemma_sort_by_ensures(ranked_le());
    assert(sorted.to_multiset().len() == ranked.to_multiset().len());
    lemma_ids_rearranged(ranked, sorted);
    assert(ids =~= ranked.map_values(|pair: (int, Seq<char>)| pair.1));
    assert(session_order(sessions) =~= sorted.map_values(|pair: (int, Seq<char>)| pair.1));
}

/// Session `a` is listed before session `b`: it was created earlier, or its
/// creation is known and the other's is not, or both were created at one moment
/// and its id is the lesser one.
pub open spec fn listed_before(a: SessionRecordView, b: SessionRecordView) -> bool {
    match (rfc3339_millis(a.created_at), rfc3339_millis(b.created_at)) {
        (Some(x), Some(y)) => x < y || x == y && text_le(a.id, b.id),
        (Some(_), None) => true,
        (None, Some(_)) => false,
        (None, None) => text_le(a.id, b.id),
    }
}

/// The sessions are listed from the first created to the last.
pub proof fn law_sessions_by_creation(sessions: Seq<SessionRecordView>, i: int, j: int)
    requires
        0 <= i < j < session_order(sessions).len(),
    ensures
        exists|a: int, b: int|
            0 <= a < sessions.len() && 0 <= b < sessions.len() && (#[trigger] sessions[a]).id
                == session_order(sessions)[i] && (#[trigger] sessions[b]).id == session_order(
                sessions,
            )[j] && listed_before(sessions[a], sessions[b]),
{
    broadcast use vstd::seq_lib::group_to_multiset_ensures;

    law_ranked_total();
    let ranked = sessions.map_values(|session: SessionRecordView| ranked_session(session));
    let sorted = ranked.sort_by(ranked_le());
    ranked.lemma_sort_by_ensures(ranked_le());
    assert(ranked_le()(sorted[i], sorted[j]));
    lemma_sorted_member(ranked, sorted, i);
    lemma_sorted_member(ranked, sorted, j);
    let a = choose|k: int| 0 <= k < ranked.len() && ranked[k] == sorted[i];
    let b = choose|k: int| 0 <= k < ranked.len() && ranked[k] == sorted[j];
    assert(ranked[a] == ranked_session(sessions[a]));
    assert(ranked[b] == ranked_session(sessions[b]));
    assert(sessions[a].id == session_order(sessions)[i]);
    assert(sessions[b].id == session_order(sessions)[j]);
}

/// The sessions in the order they were created.
pub fn ordered_sessions(state: &State) -> (ids: Vec<String>)
    ensures
        ids.deep_view() == session_order(state@.sessions),
{
    broadcast use group_views;

    let ghost mapped = |session: SessionRecordView| ranked_session(session);
    let ghost all = state@.sessions;
    let mut items: Vec<Ranked> = Vec::new();
    let mut i: usize = 0;
    assert(ranked_views(items@) =~= all.take(0).map_values(mapped));
    while i < state.sessions.len()
        invariant
            i <= state.sessions.len(),
            all == state@.sessions,
            all == views(state.sessions@),
            mapped == (|session: SessionRecordView| ranked_session(session)),
            ranked_views(items@) == all.take(i as int).map_values(mapped),
        decreases state.sessions.len() - i,
    {
        let session = &state.sessions[i];
        let rank: i128 = match parse_rfc3339_millis(session.created_at.as_str()) {
            Some(millis) => millis as i128,
            None => i64::MAX as i128 + 1,
        };
        let ghost before = items@;
        let item = Ranked { rank, text: session.id.duplicate() };
        let ghost x = item@;
        items.push(item);
        proof {
            assert(all[i as int] == session@);
            assert(all.take(i + 1) =~= all.take(i as int).push(all[i as int]));
            assert(x == mapped(all[i as int]));
            assert(ranked_views(items@) =~= ranked_views(before).push(x));
            assert(all.take(i + 1).map_values(mapped) =~= all.take(i as int).map_values(
                mapped,
            ).push(x));
        }
        i = i + 1;
    }
    assert(all.take(all.len() as int) =~= all);
    let sorted = sort_ranked(items);
    ranked_texts(sorted)
}

} // verus!
