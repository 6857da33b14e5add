//! Finding things in lists.

use vstd::prelude::*;

#[allow(unused_imports)]
use crate::duplicate::{group_views, views};
use crate::duplicate::same_text;

verus! {

/// Element `i` is the first one that `wanted` holds of.
pub open spec fn is_first<A>(list: Seq<A>, wanted: spec_fn(A) -> bool, i: int) -> bool {
    &&& 0 <= i < list.len()
    &&& wanted(list[i])
    &&& forall|j: int| 0 <= j < i ==> !wanted(#[trigger] list[j])
}

/// Where the first element is that `wanted` holds of.
pub open spec fn first_position<A>(list: Seq<A>, wanted: spec_fn(A) -> bool) -> Option<int> {
    if exists|i: int| is_first(list, wanted, i) {
        Some(choose|i: int| is_first(list, wanted, i))
    } else {
        None
    }
}

/// The first element that `wanted` holds of.
pub open spec fn first_where<A>(list: Seq<A>, wanted: spec_fn(A) -> bool) -> Option<A> {
    match first_position(list, wanted) {
        Some(i) => Some(list[i]),
        None => None,
    }
}

/// The first position is the one that [`is_first`] describes.
pub proof fn lemma_first_found<A>(list: Seq<A>, wanted: spec_fn(A) -> bool, i: int)
    requires
        is_first(list, wanted, i),
    ensures
        first_position(list, wanted) == Some(i),
        first_where(list, wanted) == Some(list[i]),
{
    let chosen = choose|k: int| is_first(list, wanted, k);
    assert(is_first(list, wanted, chosen));
    if chosen < i {
        assert(!wanted(list[chosen]));
    } else if i < chosen {
        assert(!wanted(list[i]));
    }
}

/// There is no first position where there is no position at all.
pub proof fn lemma_none_found<A>(list: Seq<A>, wanted: spec_fn(A) -> bool)
    requires
        forall|i: int| 0 <= i < list.len() ==> !wanted(#[trigger] list[i]),
    ensures
        first_position(list, wanted) is None,
        first_where(list, wanted) is None,
{
    assert forall|i: int| !is_first(list, wanted, i) by {}
}

/// A first position that was found is in the list, and fits.
pub proof fn lemma_position_fits<A>(list: Seq<A>, wanted: spec_fn(A) -> bool)
    ensures
        first_position(list, wanted) matches Some(i) ==> is_first(list, wanted, i),
        first_position(list, wanted) is None ==> forall|i: int|
            0 <= i < list.len() ==> !wanted(#[trigger] list[i]),
    decreases list.len(),
{
    if first_position(list, wanted) is None {
        assert forall|i: int| 0 <= i < list.len() implies !wanted(#[trigger] list[i]) by {
            if wanted(list[i]) {
                lemma_some_first(list, wanted, i);
            }
        }
    }
}

proof fn lemma_some_first<A>(list: Seq<A>, wanted: spec_fn(A) -> bool, i: int)
    requires
        0 <= i < list.len(),
        wanted(list[i]),
    ensures
        exists|k: int| is_first(list, wanted, k),
    decreases i,
{
    if forall|j: int| 0 <= j < i ==> !wanted(#[trigger] list[j]) {
        assert(is_first(list, wanted, i));
    } else {
        let j = choose|j: int| 0 <= j < i && wanted(#[trigger] list[j]);
        lemma_some_first(list, wanted, j);
    }
}

/// The elements that `wanted` holds of, mapped, in their order.
pub open spec fn selected<A, B>(
    list: Seq<A>,
    wanted: spec_fn(A) -> bool,
    mapped: spec_fn(A) -> B,
) -> Seq<B>
    decreases list.len(),
{
    if list.len() == 0 {
        seq![]
    } else if wanted(list.last()) {
        selected(list.drop_last(), wanted, mapped).push(mapped(list.last()))
    } else {
        selected(list.drop_last(), wanted, mapped)
    }
}

/// What is selected is what `wanted` holds of, each thing mapped and as often
/// as it occurs, in the order of the list.
pub proof fn law_selected_in_order<A, B>(
    list: Seq<A>,
    wanted: spec_fn(A) -> bool,
    mapped: spec_fn(A) -> B,
)
    ensures
        selected(list, wanted, mapped) == list.filter(wanted).map_values(mapped),
    decreases list.len(),
{
    reveal(Seq::filter);
    if list.len() > 0 {
        law_selected_in_order(list.drop_last(), wanted, mapped);
        let front = list.drop_last().filter(wanted);
        if wanted(list.last()) {
            assert(list.filter(wanted) == front.push(list.last()));
            assert(front.push(list.last()).map_values(mapped) =~= front.map_values(mapped).push(
                mapped(list.last()),
            ));
        }
    } else {
        assert(list.filter(wanted).map_values(mapped) =~= Seq::empty());
    }
}

// --- Lists with keys ---

/// A thing that is looked up by a text.
pub trait Keyed: DeepView {
    /// The text that a thing is looked up by.
    spec fn key_of(view: Self::V) -> Seq<char>;

    fn key(&self) -> (key: &str)
        ensures
            key@ == Self::key_of(self.deep_view()),
    ;
}

/// Having the key `key`.
pub open spec fn has_key<T: Keyed>(key: Seq<char>) -> spec_fn(T::V) -> bool {
    |view: T::V| T::key_of(view) == key
}

/// Where the thing with the key `key` is.
pub open spec fn key_position<T: Keyed>(list: Seq<T::V>, key: Seq<char>) -> Option<int> {
    first_position(list, has_key::<T>(key))
}

/// The thing with the key `key`.
pub open spec fn lookup<T: Keyed>(list: Seq<T::V>, key: Seq<char>) -> Option<T::V> {
    first_where(list, has_key::<T>(key))
}

/// What is looked up is the first thing of the list that has the key; nothing
/// is found only where nothing has it.
pub proof fn law_lookup_finds_first<T: Keyed>(list: Seq<T::V>, key: Seq<char>)
    ensures
        match key_position::<T>(list, key) {
            Some(i) => {
                &&& 0 <= i < list.len()
                &&& T::key_of(list[i]) == key
                &&& lookup::<T>(list, key) == Some(list[i])
                &&& forall|j: int| 0 <= j < i ==> T::key_of(#[trigger] list[j]) != key
            },
            None => {
                &&& lookup::<T>(list, key) is None
                &&& forall|j: int| 0 <= j < list.len() ==> T::key_of(#[trigger] list[j]) != key
            },
        },
{
    let wanted = has_key::<T>(key);
    lemma_position_fits(list, wanted);
    match key_position::<T>(list, key) {
        Some(i) => {
            assert forall|j: int| 0 <= j < i implies T::key_of(#[trigger] list[j]) != key by {
                assert(!wanted(list[j]));
            }
        },
        None => {
            assert forall|j: int| 0 <= j < list.len() implies T::key_of(#[trigger] list[j])
                != key by {
                assert(!wanted(list[j]));
            }
        },
    }
}

/// Where the thing with the key `key` is.
pub fn position_of<T: Keyed>(list: &Vec<T>, key: &str) -> (found: Option<usize>)
    ensures
        match found {
            Some(i) => i < list.len() && key_position::<T>(list.deep_view(), key@) == Some(i as int)
                && lookup::<T>(list.deep_view(), key@) == Some(list[i as int].deep_view()),
            None => key_position::<T>(list.deep_view(), key@) is None && lookup::<T>(
                list.deep_view(),
                key@,
            ) is None,
        },
{
    broadcast use group_views;

    let ghost wanted = has_key::<T>(key@);
    let ghost all = list.deep_view();
    let mut i: usize = 0;
    while i < list.len()
        invariant
            i <= list.len(),
            all == views(list@),
            wanted == has_key::<T>(key@),
            forall|j: int| 0 <= j < i ==> !wanted(#[trigger] all[j]),
        decreases list.len() - i,
    {
        assert(all[i as int] == list[i as int].deep_view());
        if same_text(list[i].key(), key) {
            proof {
                lemma_first_found(all, wanted, i as int);
            }
            return Some(i);
        }
        i = i + 1;
    }
    proof {
        lemma_none_found(all, wanted);
    }
    None
}

/// The thing with the key `key`.
pub fn find<'a, T: Keyed>(list: &'a Vec<T>, key: &str) -> (found: Option<&'a T>)
    ensures
        found.is_some() == lookup::<T>(list.deep_view(), key@).is_some(),
        found matches Some(thing) ==> lookup::<T>(list.deep_view(), key@) == Some(
            thing.deep_view(),
        ),
{
    match position_of(list, key) {
        Some(i) => Some(&list[i]),
        None => None,
    }
}

impl Keyed for String {
    open spec fn key_of(view: Seq<char>) -> Seq<char> {
        view
    }

    fn key(&self) -> (key: &str) {
        self.as_str()
    }
}

} // verus!
