//! How large a session is made.

use vstd::prelude::*;

use crate::decimal::decimal_text;
#[allow(unused_imports)]
use crate::decimal::decimal;
#[allow(unused_imports)]
use crate::duplicate::{group_views, views};
use crate::duplicate::{joined, owned, same_text, Duplicate};
#[allow(unused_imports)]
use crate::lists::{
    first_position, first_where, lemma_first_found, lemma_none_found, lemma_position_fits, lookup,
};
use crate::records::{ResourceAllocation, TargetKind, TargetSizes};
#[allow(unused_imports)]
use crate::records::{ResourceAllocationView, TargetSizesView};
use crate::tables::store;
#[allow(unused_imports)]
use crate::tables::{law_stored_read_back, stored};
use crate::widgets::format_resource_bytes;
#[allow(unused_imports)]
use crate::widgets::resource_bytes;

verus! {

pub const BASELINE_CPUS: u64 = 8;

pub const BASELINE_MEMORY_BYTES: u64 = 32 * 1024 * 1024 * 1024;

pub const FLOOR_CPUS: u64 = 2;

pub const FLOOR_MEMORY_BYTES: u64 = 8 * 1024 * 1024 * 1024;

pub open spec fn least(a: nat, b: nat) -> nat {
    if a < b {
        a
    } else {
        b
    }
}

pub open spec fn most(a: nat, b: nat) -> nat {
    if a < b {
        b
    } else {
        a
    }
}

fn least_of(a: u64, b: u64) -> (r: u64)
    ensures
        r == least(a as nat, b as nat),
{
    if a < b {
        a
    } else {
        b
    }
}

fn most_of(a: u64, b: u64) -> (r: u64)
    ensures
        r == most(a as nat, b as nat),
{
    if a < b {
        b
    } else {
        a
    }
}

// --- Sizes within the host's limits ---

/// A size kept within what a host has, or at least one of each where that is
/// not known. A host that reports nothing still counts as having one.
pub open spec fn clamped_size(cpus: nat, memory: nat, limits: Option<(u64, u64)>) -> (nat, nat) {
    match limits {
        None => (most(cpus, 1), most(memory, 1)),
        Some((max_cpus, max_memory)) => (
            least(cpus, most(max_cpus as nat, 1)),
            least(memory, most(max_memory as nat, 1)),
        ),
    }
}

pub fn clamp_resources(cpus: u64, memory_bytes: u64, limits: Option<(u64, u64)>) -> (size: (
    u64,
    u64,
))
    ensures
        (size.0 as nat, size.1 as nat) == clamped_size(cpus as nat, memory_bytes as nat, limits),
{
    match limits {
        None => (most_of(cpus, 1), most_of(memory_bytes, 1)),
        Some((max_cpus, max_memory)) => (
            least_of(cpus, most_of(max_cpus, 1)),
            least_of(memory_bytes, most_of(max_memory, 1)),
        ),
    }
}

/// A size that respects a host's limits is kept as it is.
pub proof fn law_clamping_settles(cpus: nat, memory: nat, limits: Option<(u64, u64)>)
    ensures
        ({
            let (c, m) = clamped_size(cpus, memory, limits);
            clamped_size(c, m, limits) == (c, m)
        }),
{
}

/// A size is never taken above what the host has, nor below one of each where
/// that is not known, and is changed only where it would be.
pub proof fn law_clamping_within_host(cpus: nat, memory: nat, limits: Option<(u64, u64)>)
    ensures
        ({
            let (c, m) = clamped_size(cpus, memory, limits);
            match limits {
                Some((max_cpus, max_memory)) => {
                    &&& c <= cpus && m <= memory
                    &&& max_cpus >= 1 ==> c <= max_cpus
                    &&& max_memory >= 1 ==> m <= max_memory
                    &&& cpus <= max_cpus ==> c == cpus
                    &&& memory <= max_memory ==> m == memory
                    &&& cpus > max_cpus >= 1 ==> c == max_cpus
                    &&& memory > max_memory >= 1 ==> m == max_memory
                    &&& max_cpus == 0 ==> c <= 1
                    &&& max_memory == 0 ==> m <= 1
                    &&& cpus >= 1 ==> c >= 1
                    &&& memory >= 1 ==> m >= 1
                },
                None => {
                    &&& c >= 1 && m >= 1
                    &&& cpus >= 1 ==> c == cpus
                    &&& memory >= 1 ==> m == memory
                },
            }
        }),
{
}

// --- Instance sizes ---

/// How many processors a size has.
pub open spec fn cpus_of(size: ResourceAllocationView) -> nat {
    match size {
        ResourceAllocationView::Container { cpus, .. } => cpus as nat,
        ResourceAllocationView::AwsEc2 { vcpus, .. } => vcpus as nat,
    }
}

/// How much memory a size has.
pub open spec fn memory_of(size: ResourceAllocationView) -> nat {
    match size {
        ResourceAllocationView::Container { memory_bytes, .. } => memory_bytes as nat,
        ResourceAllocationView::AwsEc2 { memory_bytes, .. } => memory_bytes as nat,
    }
}

pub fn allocation_cpus(size: &ResourceAllocation) -> (cpus: u64)
    ensures
        cpus == cpus_of(size@),
{
    match size {
        ResourceAllocation::Container { cpus, .. } => *cpus,
        ResourceAllocation::AwsEc2 { vcpus, .. } => *vcpus,
    }
}

pub fn allocation_memory(size: &ResourceAllocation) -> (memory: u64)
    ensures
        memory == memory_of(size@),
{
    match size {
        ResourceAllocation::Container { memory_bytes, .. } => *memory_bytes,
        ResourceAllocation::AwsEc2 { memory_bytes, .. } => *memory_bytes,
    }
}

/// Two sizes are instances of one type.
pub open spec fn same_instance(a: ResourceAllocationView, b: ResourceAllocationView) -> bool {
    match (a, b) {
        (
            ResourceAllocationView::AwsEc2 { instance_type: one, .. },
            ResourceAllocationView::AwsEc2 { instance_type: other, .. },
        ) => one == other,
        _ => false,
    }
}

/// The first size of the same instance type.
pub open spec fn same_type_option(
    options: Seq<ResourceAllocationView>,
    previous: ResourceAllocationView,
) -> Option<ResourceAllocationView> {
    first_where(options, |option: ResourceAllocationView| same_instance(option, previous))
}

/// The first size with `cpus` processors and, where it is asked for, `memory`
/// bytes.
pub open spec fn sized_option(
    options: Seq<ResourceAllocationView>,
    cpus: nat,
    memory: Option<nat>,
) -> Option<ResourceAllocationView> {
    first_where(
        options,
        |option: ResourceAllocationView|
            cpus_of(option) == cpus && (memory matches Some(bytes) ==> memory_of(option) == bytes),
    )
}

/// The size to start from: the instance type used before, else the first one
/// with eight processors.
pub open spec fn preferred_option(
    options: Seq<ResourceAllocationView>,
    previous: Option<ResourceAllocationView>,
) -> Option<ResourceAllocationView> {
    match previous {
        Some(before) if same_type_option(options, before).is_some() => same_type_option(
            options,
            before,
        ),
        _ => sized_option(options, 8, None),
    }
}

/// The size is an instance of the type `name`.
pub open spec fn of_type(size: ResourceAllocationView, name: Seq<char>) -> bool {
    size matches ResourceAllocationView::AwsEc2 { instance_type, .. } && instance_type == name
}

/// The size has eight processors.
pub open spec fn of_eight(size: ResourceAllocationView) -> bool {
    match size {
        ResourceAllocationView::Container { cpus, .. } => cpus == 8,
        ResourceAllocationView::AwsEc2 { vcpus, .. } => vcpus == 8,
    }
}

/// An instance of the type used before is started from as long as one is
/// offered, and it is the first of them.
pub proof fn law_used_type_preferred(
    options: Seq<ResourceAllocationView>,
    name: Seq<char>,
    vcpus: u64,
    memory_bytes: u64,
    i: int,
)
    requires
        0 <= i < options.len(),
        of_type(options[i], name),
    ensures
        exists|k: int|
            0 <= k <= i && preferred_option(
                options,
                Some(ResourceAllocationView::AwsEc2 { instance_type: name, vcpus, memory_bytes }),
            ) == Some(#[trigger] options[k]) && of_type(options[k], name) && forall|j: int|
                0 <= j < k ==> !of_type(#[trigger] options[j], name),
{
    let before = ResourceAllocationView::AwsEc2 { instance_type: name, vcpus, memory_bytes };
    let wanted = |option: ResourceAllocationView| same_instance(option, before);
    lemma_position_fits(options, wanted);
    assert(wanted(options[i]));
    let k = first_position(options, wanted)->0;
    assert forall|j: int| 0 <= j < k implies !of_type(#[trigger] options[j], name) by {
        assert(!wanted(options[j]));
    }
    assert(wanted(options[k]));
}

/// Where no instance of the type used before is offered, the first size with
/// eight processors is started from, and nothing where there is none.
pub proof fn law_eight_processors_else(
    options: Seq<ResourceAllocationView>,
    previous: Option<ResourceAllocationView>,
)
    requires
        previous matches Some(ResourceAllocationView::AwsEc2 { instance_type, .. }) ==> forall|i: int|
            0 <= i < options.len() ==> !of_type(#[trigger] options[i], instance_type),
    ensures
        match preferred_option(options, previous) {
            Some(chosen) => exists|k: int|
                0 <= k < options.len() && #[trigger] options[k] == chosen && of_eight(options[k])
                    && forall|j: int| 0 <= j < k ==> !of_eight(#[trigger] options[j]),
            None => forall|j: int| 0 <= j < options.len() ==> !of_eight(#[trigger] options[j]),
        },
{
    let cpus: nat = 8;
    let memory: Option<nat> = None;
    let wanted = |option: ResourceAllocationView|
        cpus_of(option) == cpus && (memory matches Some(bytes) ==> memory_of(option) == bytes);
    lemma_position_fits(options, wanted);
    assert forall|j: int| 0 <= j < options.len() implies wanted(#[trigger] options[j]) == of_eight(
        options[j],
    ) by {}
    if let Some(before) = previous {
        let typed = |option: ResourceAllocationView| same_instance(option, before);
        assert forall|j: int| 0 <= j < options.len() implies !typed(#[trigger] options[j]) by {}
        lemma_none_found(options, typed);
    }
}

fn find_sized(options: &Vec<ResourceAllocation>, cpus: u64, memory: Option<u64>) -> (found: Option<
    usize,
>)
    ensures
        match found {
            Some(i) => i < options.len() && sized_option(
                options.deep_view(),
                cpus as nat,
                match memory {
                    Some(bytes) => Some(bytes as nat),
                    None => None,
                },
            ) == Some(options[i as int]@),
            None => sized_option(
                options.deep_view(),
                cpus as nat,
                match memory {
                    Some(bytes) => Some(bytes as nat),
                    None => None,
                },
            ) is None,
        },
{
    broadcast use group_views;

    let ghost wanted_memory = match memory {
        Some(bytes) => Some(bytes as nat),
        None => None,
    };
    let ghost wanted = |option: ResourceAllocationView|
        cpus_of(option) == cpus as nat && (wanted_memory matches Some(bytes) ==> memory_of(option)
            == bytes);
    let ghost all = options.deep_view();
    let mut i: usize = 0;
    while i < options.len()
        invariant
            i <= options.len(),
            all == views(options@),
            wanted_memory == (match memory {
                Some(bytes) => Some(bytes as nat),
                None => None,
            }),
            wanted == (|option: ResourceAllocationView|
                cpus_of(option) == cpus as nat && (wanted_memory matches Some(bytes)
                    ==> memory_of(option) == bytes)),
            forall|j: int| 0 <= j < i ==> !wanted(#[trigger] all[j]),
        decreases options.len() - i,
    {
        assert(all[i as int] == options[i as int]@);
        let fits = allocation_cpus(&options[i]) == cpus && match memory {
            Some(bytes) => allocation_memory(&options[i]) == bytes,
            None => true,
        };
        if fits {
            proof {
                lemma_first_found(all, wanted, i as int);
            }
            return Some(i);
        }
        i = i + 1;
    }
    proof {
        lemma_none_found(all, wanted);
    }
    None
}

fn instance_matches(option: &ResourceAllocation, previous: &ResourceAllocation) -> (r: bool)
    ensures
        r == same_instance(option@, previous@),
{
    match (option, previous) {
        (
            ResourceAllocation::AwsEc2 { instance_type: one, .. },
            ResourceAllocation::AwsEc2 { instance_type: other, .. },
        ) => same_text(one.as_str(), other.as_str()),
        _ => false,
    }
}

fn find_same_type(options: &Vec<ResourceAllocation>, previous: &ResourceAllocation) -> (found:
    Option<usize>)
    ensures
        match found {
            Some(i) => i < options.len() && same_type_option(options.deep_view(), previous@)
                == Some(options[i as int]@),
            None => same_type_option(options.deep_view(), previous@) is None,
        },
{
    broadcast use group_views;

    let ghost before = previous@;
    let ghost wanted = |option: ResourceAllocationView| same_instance(option, before);
    let ghost all = options.deep_view();
    let mut i: usize = 0;
    while i < options.len()
        invariant
            i <= options.len(),
            all == views(options@),
            before == previous@,
            wanted == (|option: ResourceAllocationView| same_instance(option, before)),
            forall|j: int| 0 <= j < i ==> !wanted(#[trigger] all[j]),
        decreases options.len() - i,
    {
        assert(all[i as int] == options[i as int]@);
        if instance_matches(&options[i], previous) {
            proof {
                lemma_first_found(all, wanted, i as int);
            }
            return Some(i);
        }
        i = i + 1;
    }
    proof {
        lemma_none_found(all, wanted);
    }
    None
}

/// The size to start from among `options`.
pub fn preferred_aws_option(
    options: &Vec<ResourceAllocation>,
    previous: &Option<ResourceAllocation>,
) -> (chosen: Option<ResourceAllocation>)
    ensures
        chosen.deep_view() == preferred_option(options.deep_view(), previous.deep_view()),
{
    if let Some(before) = previous {
        if let Some(i) = find_same_type(options, before) {
            return Some(options[i].duplicate());
        }
    }
    match find_sized(options, 8, None) {
        Some(i) => Some(options[i].duplicate()),
        None => None,
    }
}

// --- Sizes by target ---

/// The list with the sizes of one target set.
pub open spec fn with_sizes(
    list: Seq<TargetSizesView>,
    target_id: Seq<char>,
    options: Seq<ResourceAllocationView>,
) -> Seq<TargetSizesView> {
    stored::<TargetSizes>(list, TargetSizesView { target_id, options })
}

/// Sizes that were stored for a target are found for it, and the other
/// targets keep theirs.
pub proof fn law_sizes_read_back(
    list: Seq<TargetSizesView>,
    target_id: Seq<char>,
    options: Seq<ResourceAllocationView>,
    other: Seq<char>,
)
    ensures
        lookup::<TargetSizes>(with_sizes(list, target_id, options), target_id) == Some(
            (TargetSizesView { target_id, options }),
        ),
        other != target_id ==> lookup::<TargetSizes>(
            with_sizes(list, target_id, options),
            other,
        ) == lookup::<TargetSizes>(list, other),
{
    law_stored_read_back::<TargetSizes>(list, TargetSizesView { target_id, options }, other);
}

/// Remember the sizes that a target offers.
pub fn store_sizes(
    list: &mut Vec<TargetSizes>,
    target_id: &str,
    options: Vec<ResourceAllocation>,
)
    ensures
        final(list).deep_view() == with_sizes(
            old(list).deep_view(),
            target_id@,
            options.deep_view(),
        ),
{
    store(list, TargetSizes { target_id: owned(target_id), options });
}

// --- Changing a size by key ---

/// A container size after the key `key`. Without limits only halving and
/// resetting do anything.
pub open spec fn adjusted_container(
    cpus: nat,
    memory: nat,
    limits: Option<(u64, u64)>,
    key: char,
) -> (nat, nat) {
    if key == 'r' {
        clamped_size(BASELINE_CPUS as nat, BASELINE_MEMORY_BYTES as nat, limits)
    } else if key == '-' {
        (halved(cpus, FLOOR_CPUS as nat), halved(memory, FLOOR_MEMORY_BYTES as nat))
    } else {
        match limits {
            None => (cpus, memory),
            Some((max_cpus, max_memory)) => {
                let cpu_limit = most(max_cpus as nat, 1);
                let memory_limit = most(max_memory as nat, 1);
                if key == '+' {
                    (least(2 * cpus, cpu_limit), least(2 * memory, memory_limit))
                } else if key == 'c' {
                    (least(cpus + 8, cpu_limit), memory)
                } else if key == 'm' {
                    (cpus, least(memory + memory / 2, memory_limit))
                } else {
                    (cpus, memory)
                }
            },
        }
    }
}

/// Half of `amount`, but not below `floor`; what is at or below it stays.
pub open spec fn halved(amount: nat, floor: nat) -> nat {
    if amount > floor {
        most(amount / 2, floor)
    } else {
        amount
    }
}

/// The processors and the memory that a key asks of an instance; nothing for
/// a key that does not resize it.
pub open spec fn wanted_instance(vcpus: nat, memory: nat, key: char) -> Option<
    (nat, Option<nat>),
> {
    if key == '+' {
        Some((capped_double(vcpus), None))
    } else if key == '-' && vcpus > 1 {
        Some((vcpus / 2, None))
    } else if key == 'r' {
        Some((BASELINE_CPUS as nat, None))
    } else if key == 'c' {
        Some((capped_double(vcpus), Some(memory)))
    } else if key == 'm' {
        Some((vcpus, Some(capped_double(memory))))
    } else {
        None
    }
}

pub open spec fn capped_double(amount: nat) -> nat {
    least(2 * amount, u64::MAX as nat)
}

/// The size after the key `key`: a container is resized within the host's
/// limits, an instance becomes the first offered one of the size asked for.
pub open spec fn adjusted(
    allocation: Option<ResourceAllocationView>,
    options: Option<Seq<ResourceAllocationView>>,
    limits: Option<(u64, u64)>,
    key: char,
) -> Option<ResourceAllocationView> {
    match allocation {
        None => None,
        Some(ResourceAllocationView::Container { cpus, memory_bytes }) => {
            let (c, m) = adjusted_container(cpus as nat, memory_bytes as nat, limits, key);
            Some(ResourceAllocationView::Container { cpus: c as u64, memory_bytes: m as u64 })
        },
        Some(ResourceAllocationView::AwsEc2 { vcpus, memory_bytes, .. }) => match (
            options,
            wanted_instance(vcpus as nat, memory_bytes as nat, key),
        ) {
            (Some(offered), Some((cpus, memory))) => match sized_option(offered, cpus, memory) {
                Some(next) => Some(next),
                None => allocation,
            },
            _ => allocation,
        },
    }
}

/// A container never leaves the host's limits by a key that grows it, and a
/// size within them stays within them.
pub proof fn law_growth_respects_limits(
    cpus: nat,
    memory: nat,
    limits: (u64, u64),
    key: char,
)
    requires
        cpus <= most(limits.0 as nat, 1),
        memory <= most(limits.1 as nat, 1),
    ensures
        ({
            let (c, m) = adjusted_container(cpus, memory, Some(limits), key);
            c <= most(limits.0 as nat, 1) && m <= most(limits.1 as nat, 1)
        }),
{
}

/// Halving never takes a container below the floor, and leaves one that is
/// already below it alone.
pub proof fn law_halving_respects_floors(cpus: nat, memory: nat, limits: Option<(u64, u64)>)
    ensures
        ({
            let (c, m) = adjusted_container(cpus, memory, limits, '-');
            &&& cpus >= FLOOR_CPUS ==> c >= FLOOR_CPUS
            &&& memory >= FLOOR_MEMORY_BYTES ==> m >= FLOOR_MEMORY_BYTES
            &&& cpus <= FLOOR_CPUS ==> c == cpus
            &&& memory <= FLOOR_MEMORY_BYTES ==> m == memory
            &&& c <= cpus && m <= memory
        }),
{
}

/// What a key asks of an instance, for each of the offered ones: twice the
/// processors, half of them, twice at the same memory, as many at twice the
/// memory, or eight.
pub open spec fn answers_key(
    offered: ResourceAllocationView,
    vcpus: u64,
    memory: u64,
    key: char,
) -> bool {
    let cpus: int = match offered {
        ResourceAllocationView::Container { cpus, .. } => cpus as int,
        ResourceAllocationView::AwsEc2 { vcpus, .. } => vcpus as int,
    };
    let bytes: int = match offered {
        ResourceAllocationView::Container { memory_bytes, .. } => memory_bytes as int,
        ResourceAllocationView::AwsEc2 { memory_bytes, .. } => memory_bytes as int,
    };
    ||| key == '+' && cpus == vcpus + vcpus
    ||| key == '-' && vcpus > 1 && (vcpus == cpus + cpus || vcpus == cpus + cpus + 1)
    ||| key == 'r' && cpus == 8
    ||| key == 'c' && cpus == vcpus + vcpus && bytes == memory
    ||| key == 'm' && cpus == vcpus && bytes == memory + memory
}

/// A key turns an instance into the first offered one that answers it, and
/// leaves it as it is where none does. (Twice a size beyond 64 bits is left
/// out: no instance has it.)
pub proof fn law_instance_answers_key(
    instance_type: Seq<char>,
    vcpus: u64,
    memory_bytes: u64,
    offered: Seq<ResourceAllocationView>,
    limits: Option<(u64, u64)>,
    key: char,
)
    requires
        2 * vcpus <= u64::MAX && 2 * memory_bytes <= u64::MAX,
    ensures
        ({
            let current = ResourceAllocationView::AwsEc2 { instance_type, vcpus, memory_bytes };
            let after = adjusted(Some(current), Some(offered), limits, key);
            if exists|i: int|
                0 <= i < offered.len() && answers_key(#[trigger] offered[i], vcpus, memory_bytes, key) {
                exists|k: int|
                    0 <= k < offered.len() && after == Some(#[trigger] offered[k]) && answers_key(
                        offered[k],
                        vcpus,
                        memory_bytes,
                        key,
                    ) && forall|j: int|
                        0 <= j < k ==> !answers_key(#[trigger] offered[j], vcpus, memory_bytes, key)
            } else {
                after == Some(current)
            }
        }),
{
    if let Some((cpus, memory)) = wanted_instance(vcpus as nat, memory_bytes as nat, key) {
        let wanted = |option: ResourceAllocationView|
            cpus_of(option) == cpus && (memory matches Some(bytes) ==> memory_of(option) == bytes);
        lemma_position_fits(offered, wanted);
        assert forall|i: int| 0 <= i < offered.len() implies wanted(#[trigger] offered[i])
            == answers_key(offered[i], vcpus, memory_bytes, key) by {}
    } else {
        assert forall|i: int| 0 <= i < offered.len() implies !answers_key(
            #[trigger] offered[i],
            vcpus,
            memory_bytes,
            key,
        ) by {}
    }
}

/// Nothing is resized where there is nothing to resize, and no instance where
/// none is offered.
pub proof fn law_nothing_to_resize(
    instance: ResourceAllocationView,
    options: Option<Seq<ResourceAllocationView>>,
    limits: Option<(u64, u64)>,
    key: char,
)
    requires
        instance is AwsEc2,
    ensures
        adjusted(None, options, limits, key) is None,
        adjusted(Some(instance), None, limits, key) == Some(instance),
{
}

/// Minus never gives an instance more processors, and gives it half of them
/// where such a one is offered; plus never gives it fewer.
pub proof fn law_instance_minus_shrinks(
    instance: ResourceAllocationView,
    offered: Seq<ResourceAllocationView>,
    limits: Option<(u64, u64)>,
)
    requires
        instance is AwsEc2,
        2 * instance->vcpus <= u64::MAX && 2 * instance->AwsEc2_memory_bytes <= u64::MAX,
    ensures
        ({
            let down = adjusted(Some(instance), Some(offered), limits, '-');
            let up = adjusted(Some(instance), Some(offered), limits, '+');
            &&& down is Some && up is Some
            &&& cpus_of(down->0) <= instance->vcpus <= cpus_of(up->0)
            &&& (instance->vcpus > 1 && exists|i: int|
                0 <= i < offered.len() && cpus_of(#[trigger] offered[i]) == instance->vcpus / 2)
                ==> cpus_of(down->0) == instance->vcpus / 2
            &&& (exists|i: int|
                0 <= i < offered.len() && cpus_of(#[trigger] offered[i]) == 2 * instance->vcpus)
                ==> cpus_of(up->0) == 2 * instance->vcpus
        }),
{
    if let ResourceAllocationView::AwsEc2 { instance_type, vcpus, memory_bytes } = instance {
        law_instance_answers_key(instance_type, vcpus, memory_bytes, offered, limits, '-');
        law_instance_answers_key(instance_type, vcpus, memory_bytes, offered, limits, '+');
        if vcpus > 1 && exists|i: int|
            0 <= i < offered.len() && cpus_of(#[trigger] offered[i]) == vcpus / 2 {
            let i = choose|i: int|
                0 <= i < offered.len() && cpus_of(#[trigger] offered[i]) == vcpus / 2;
            assert(answers_key(offered[i], vcpus, memory_bytes, '-'));
        }
        if exists|i: int| 0 <= i < offered.len() && cpus_of(#[trigger] offered[i]) == 2 * vcpus {
            let i = choose|i: int|
                0 <= i < offered.len() && cpus_of(#[trigger] offered[i]) == 2 * vcpus;
            assert(answers_key(offered[i], vcpus, memory_bytes, '+'));
        }
    }
}

/// Plus and then minus comes back to as many processors, where both sizes are
/// offered.
pub proof fn law_instance_minus_undoes_plus(
    instance: ResourceAllocationView,
    offered: Seq<ResourceAllocationView>,
    limits: Option<(u64, u64)>,
    same: int,
    twice: int,
)
    requires
        instance is AwsEc2,
        instance->vcpus >= 1,
        4 * instance->vcpus <= u64::MAX && 2 * instance->AwsEc2_memory_bytes <= u64::MAX,
        0 <= same < offered.len() && cpus_of(offered[same]) == instance->vcpus,
        0 <= twice < offered.len() && cpus_of(offered[twice]) == 2 * instance->vcpus,
        forall|i: int|
            0 <= i < offered.len() ==> (#[trigger] offered[i]) is AwsEc2 && 2 * memory_of(
                offered[i],
            ) <= u64::MAX,
    ensures
        ({
            let up = adjusted(Some(instance), Some(offered), limits, '+');
            let back = adjusted(up, Some(offered), limits, '-');
            back matches Some(size) && cpus_of(size) == instance->vcpus
        }),
{
    if let ResourceAllocationView::AwsEc2 { instance_type, vcpus, memory_bytes } = instance {
        law_instance_answers_key(instance_type, vcpus, memory_bytes, offered, limits, '+');
        assert(answers_key(offered[twice], vcpus, memory_bytes, '+'));
        let up = adjusted(Some(instance), Some(offered), limits, '+')->0;
        assert(up is AwsEc2 && up->vcpus == 2 * vcpus);
        law_instance_minus_shrinks(up, offered, limits);
    }
}

/// A container grows by doubling, by eight processors or by half of its
/// memory, as far as the host has it, and by one key the other amount is left
/// alone. Where it is not known what the host has, it does not grow.
pub proof fn law_container_growth(
    cpus: nat,
    memory: nat,
    max_cpus: u64,
    max_memory: u64,
    key: char,
)
    requires
        max_cpus >= 1 && max_memory >= 1,
    ensures
        ({
            let (c, m) = adjusted_container(cpus, memory, Some((max_cpus, max_memory)), key);
            &&& key == '+' ==> {
                &&& c == cpus + cpus || (c == max_cpus && max_cpus < cpus + cpus)
                &&& m == memory + memory || (m == max_memory && max_memory < memory + memory)
            }
            &&& key == 'c' ==> m == memory && (c == cpus + 8 || (c == max_cpus && max_cpus < cpus
                + 8))
            &&& key == 'm' ==> c == cpus && (2 * m == 3 * memory || 2 * m == 3 * memory - 1 || (m
                == max_memory && 2 * max_memory < 3 * memory))
            &&& key != '+' && key != '-' && key != 'c' && key != 'm' && key != 'r' ==> c == cpus
                && m == memory
        }),
        key != '-' && key != 'r' ==> adjusted_container(cpus, memory, None, key) == (cpus, memory),
{
}

/// Minus takes half of each amount, rounded down, but never goes below two
/// processors and eight gibibytes; so it undoes plus where the host has room
/// for twice the size.
pub proof fn law_container_minus_undoes_plus(
    cpus: nat,
    memory: nat,
    max_cpus: u64,
    max_memory: u64,
)
    ensures
        ({
            let limits = Some((max_cpus, max_memory));
            let (c, m) = adjusted_container(cpus, memory, limits, '-');
            let gib = 1024 * 1024 * 1024;
            &&& cpus >= 4 ==> cpus == 2 * c || cpus == 2 * c + 1
            &&& memory >= 16 * gib ==> memory == 2 * m || memory == 2 * m + 1
            &&& 2 <= cpus < 4 ==> c == 2
            &&& 8 * gib <= memory < 16 * gib ==> m == 8 * gib
            &&& cpus < 2 ==> c == cpus
            &&& memory < 8 * gib ==> m == memory
            &&& 2 <= cpus && 8 * gib <= memory && 2 * cpus <= max_cpus && 2 * memory <= max_memory
                ==> {
                let (up_cpus, up_memory) = adjusted_container(cpus, memory, limits, '+');
                adjusted_container(up_cpus, up_memory, limits, '-') == (cpus, memory)
            }
        }),
{
}

/// A reset gives eight processors and 32 gibibytes, as far as the host has
/// them, whatever the size was.
pub proof fn law_container_reset(
    cpus: nat,
    memory: nat,
    limits: Option<(u64, u64)>,
)
    ensures
        ({
            let (c, m) = adjusted_container(cpus, memory, limits, 'r');
            let baseline = 32 * 1024 * 1024 * 1024;
            match limits {
                None => c == 8 && m == baseline,
                Some((max_cpus, max_memory)) => {
                    &&& c == 8 || (c == max_cpus && 1 <= max_cpus < 8) || (c == 1 && max_cpus == 0)
                    &&& max_cpus >= 8 ==> c == 8
                    &&& m == baseline || (m == max_memory && 1 <= max_memory < baseline) || (m == 1
                        && max_memory == 0)
                    &&& max_memory >= baseline ==> m == baseline
                },
            }
        }),
{
}

/// A key changes a container as it changes its two amounts.
pub proof fn law_container_stays_container(
    cpus: u64,
    memory_bytes: u64,
    options: Option<Seq<ResourceAllocationView>>,
    limits: Option<(u64, u64)>,
    key: char,
)
    ensures
        adjusted(
            Some(ResourceAllocationView::Container { cpus, memory_bytes }),
            options,
            limits,
            key,
        ) matches Some(ResourceAllocationView::Container { cpus: c, memory_bytes: m }) && (
        c as nat,
        m as nat,
        ) == adjusted_container(cpus as nat, memory_bytes as nat, limits, key),
{
}

fn doubled(amount: u64) -> (r: u64)
    ensures
        r == capped_double(amount as nat),
{
    amount.saturating_add(amount)
}

fn half_above(amount: u64, floor: u64) -> (r: u64)
    ensures
        r == halved(amount as nat, floor as nat),
{
    if amount > floor {
        most_of(amount / 2, floor)
    } else {
        amount
    }
}

fn resize_container(cpus: u64, memory_bytes: u64, limits: Option<(u64, u64)>, key: char) -> (size: (
    u64,
    u64,
))
    ensures
        (size.0 as nat, size.1 as nat) == adjusted_container(
            cpus as nat,
            memory_bytes as nat,
            limits,
            key,
        ),
{
    if key == 'r' {
        return clamp_resources(BASELINE_CPUS, BASELINE_MEMORY_BYTES, limits);
    }
    if key == '-' {
        return (half_above(cpus, FLOOR_CPUS), half_above(memory_bytes, FLOOR_MEMORY_BYTES));
    }
    match limits {
        None => (cpus, memory_bytes),
        Some((max_cpus, max_memory)) => {
            let cpu_limit = most_of(max_cpus, 1);
            let memory_limit = most_of(max_memory, 1);
            if key == '+' {
                (
                    least_of(doubled(cpus), cpu_limit),
                    least_of(doubled(memory_bytes), memory_limit),
                )
            } else if key == 'c' {
                (least_of(cpus.saturating_add(8), cpu_limit), memory_bytes)
            } else if key == 'm' {
                (
                    cpus,
                    least_of(memory_bytes.saturating_add(memory_bytes / 2), memory_limit),
                )
            } else {
                (cpus, memory_bytes)
            }
        },
    }
}

fn wanted_size(vcpus: u64, memory_bytes: u64, key: char) -> (wanted: Option<(u64, Option<u64>)>)
    ensures
        match wanted {
            None => wanted_instance(vcpus as nat, memory_bytes as nat, key) is None,
            Some((cpus, None)) => wanted_instance(vcpus as nat, memory_bytes as nat, key) == Some(
                (cpus as nat, None::<nat>),
            ),
            Some((cpus, Some(memory))) => wanted_instance(
                vcpus as nat,
                memory_bytes as nat,
                key,
            ) == Some((cpus as nat, Some(memory as nat))),
        },
{
    if key == '+' {
        Some((doubled(vcpus), None))
    } else if key == '-' && vcpus > 1 {
        Some((vcpus / 2, None))
    } else if key == 'r' {
        Some((BASELINE_CPUS, None))
    } else if key == 'c' {
        Some((doubled(vcpus), Some(memory_bytes)))
    } else if key == 'm' {
        Some((vcpus, Some(doubled(memory_bytes))))
    } else {
        None
    }
}

/// Change a size by a key: `+` doubles, `-` halves, `c` and `m` grow one of
/// the two, `r` resets.
pub fn adjust_resources(
    allocation: &mut Option<ResourceAllocation>,
    aws_options: Option<&Vec<ResourceAllocation>>,
    limits: Option<(u64, u64)>,
    key: char,
)
    ensures
        final(allocation).deep_view() == adjusted(
            old(allocation).deep_view(),
            match aws_options {
                Some(options) => Some(options.deep_view()),
                None => None,
            },
            limits,
            key,
        ),
{
    let next: Option<ResourceAllocation> = match &*allocation {
        None => None,
        Some(ResourceAllocation::Container { cpus, memory_bytes }) => {
            let (cpus, memory_bytes) = resize_container(*cpus, *memory_bytes, limits, key);
            Some(ResourceAllocation::Container { cpus, memory_bytes })
        },
        Some(ResourceAllocation::AwsEc2 { vcpus, memory_bytes, .. }) => match aws_options {
            None => None,
            Some(options) => match wanted_size(*vcpus, *memory_bytes, key) {
                None => None,
                Some((cpus, memory)) => match find_sized(options, cpus, memory) {
                    Some(i) => Some(options[i].duplicate()),
                    None => None,
                },
            },
        },
    };
    if let Some(size) = next {
        *allocation = Some(size);
    }
}

// --- Labels ---

pub open spec fn target_label_text(kind: TargetKind) -> Seq<char> {
    match kind {
        TargetKind::LocalBare => "raw localhost"@,
        TargetKind::LocalPodman => "local Podman"@,
        TargetKind::LocalDocker => "local Docker"@,
        TargetKind::AppleContainer => "Apple container"@,
        TargetKind::AwsEc2 => "AWS EC2"@,
        TargetKind::SshBare => "named SSH machine"@,
        TargetKind::SshPodman => "Podman over SSH"@,
        TargetKind::SshDocker => "Docker over SSH"@,
    }
}

pub fn target_label(kind: TargetKind) -> (label: &'static str)
    ensures
        label@ == target_label_text(kind),
{
    match kind {
        TargetKind::LocalBare => "raw localhost",
        TargetKind::LocalPodman => "local Podman",
        TargetKind::LocalDocker => "local Docker",
        TargetKind::AppleContainer => "Apple container",
        TargetKind::AwsEc2 => "AWS EC2",
        TargetKind::SshBare => "named SSH machine",
        TargetKind::SshPodman => "Podman over SSH",
        TargetKind::SshDocker => "Docker over SSH",
    }
}

pub open spec fn allocation_text(allocation: Option<ResourceAllocationView>) -> Seq<char> {
    match allocation {
        Some(ResourceAllocationView::Container { cpus, memory_bytes }) => " · "@ + decimal(
            cpus as nat,
        ) + " CPU / "@ + resource_bytes(memory_bytes as nat),
        Some(ResourceAllocationView::AwsEc2 { instance_type, vcpus, memory_bytes }) => " · "@
            + instance_type + " · "@ + decimal(vcpus as nat) + " CPU / "@ + resource_bytes(
            memory_bytes as nat,
        ),
        None => " · fixed/default resources"@,
    }
}

pub open spec fn allocation_label_text(
    allocation: Option<ResourceAllocationView>,
    error: Option<Seq<char>>,
) -> Seq<char> {
    match error {
        Some(text) => allocation_text(allocation) + " · "@ + text,
        None => allocation_text(allocation),
    }
}

/// A size is shown with its processors and its memory, an instance with its
/// type before them, and what went wrong behind everything.
pub proof fn law_size_label(cpus: u64, memory: u64, kind: Seq<char>, error: Seq<char>)
    ensures
        ({
            let amounts = decimal(cpus as nat) + " CPU / "@ + resource_bytes(memory as nat);
            let container = Some(
                ResourceAllocationView::Container { cpus, memory_bytes: memory },
            );
            let instance = Some(
                ResourceAllocationView::AwsEc2 {
                    instance_type: kind,
                    vcpus: cpus,
                    memory_bytes: memory,
                },
            );
            &&& allocation_label_text(container, None) == " · "@ + amounts
            &&& allocation_label_text(instance, None) == " · "@ + kind + " · "@ + amounts
            &&& allocation_label_text(container, Some(error)) == allocation_label_text(
                container,
                None,
            ) + " · "@ + error
            &&& allocation_label_text(None, None) == " · fixed/default resources"@
        }),
{
    let amounts = decimal(cpus as nat) + " CPU / "@ + resource_bytes(memory as nat);
    let start = " · "@;
    assert(start + decimal(cpus as nat) + " CPU / "@ + resource_bytes(memory as nat) =~= start
        + amounts);
    assert(start + kind + start + decimal(cpus as nat) + " CPU / "@ + resource_bytes(
        memory as nat,
    ) =~= start + kind + start + amounts);
}

/// The size as it is shown behind a target, with what went wrong with it.
pub fn resource_allocation_label(
    allocation: &Option<ResourceAllocation>,
    error: Option<&str>,
) -> (label: String)
    ensures
        label@ == allocation_label_text(
            allocation.deep_view(),
            match error {
                Some(text) => Some(text@),
                None => None,
            },
        ),
{
    let mut label = match allocation {
        Some(ResourceAllocation::Container { cpus, memory_bytes }) => {
            let mut text = joined(" · ", decimal_text(*cpus as u128).as_str());
            text.append(" CPU / ");
            text.append(format_resource_bytes(*memory_bytes).as_str());
            text
        },
        Some(ResourceAllocation::AwsEc2 { instance_type, vcpus, memory_bytes }) => {
            let mut text = joined(" · ", instance_type.as_str());
            text.append(" · ");
            text.append(decimal_text(*vcpus as u128).as_str());
            text.append(" CPU / ");
            text.append(format_resource_bytes(*memory_bytes).as_str());
            text
        },
        None => owned(" · fixed/default resources"),
    };
    if let Some(text) = error {
        label.append(" · ");
        label.append(text);
    }
    label
}

} // verus!
