//! Copies of values that hold texts and lists.

use vstd::prelude::*;

verus! {

/// A value that can be copied with everything it holds.
pub trait Duplicate: DeepView + Sized {
    fn duplicate(&self) -> (copy: Self)
        ensures
            copy.deep_view() == self.deep_view(),
    ;
}

impl Duplicate for bool {
    fn duplicate(&self) -> (copy: bool) {
        *self
    }
}

impl Duplicate for u64 {
    fn duplicate(&self) -> (copy: u64) {
        *self
    }
}

impl Duplicate for usize {
    fn duplicate(&self) -> (copy: usize) {
        *self
    }
}

impl Duplicate for String {
    fn duplicate(&self) -> (copy: String) {
        self.clone()
    }
}

impl<T: Duplicate> Duplicate for Option<T> {
    fn duplicate(&self) -> (copy: Option<T>) {
        match self {
            Some(inner) => Some(inner.duplicate()),
            None => None,
        }
    }
}

impl<T: Duplicate> Duplicate for Vec<T> {
    fn duplicate(&self) -> (copy: Vec<T>) {
        let mut copy: Vec<T> = Vec::new();
        let mut i: usize = 0;
        while i < self.len()
            invariant
                i <= self.len(),
                copy.len() == i,
                forall|j: int|
                    0 <= j < i ==> (#[trigger] copy@[j]).deep_view() == self@[j].deep_view(),
            decreases self.len() - i,
        {
            copy.push(self[i].duplicate());
            i = i + 1;
        }
        assert(copy.deep_view() =~= self.deep_view());
        copy
    }
}

// --- Lists seen through their elements ---

/// The views of the elements of a list.
pub open spec fn views<T: DeepView>(list: Seq<T>) -> Seq<T::V> {
    Seq::new(list.len(), |i: int| list[i].deep_view())
}

/// What a vector holds is what its elements hold.
pub broadcast proof fn lemma_deep_list<T: DeepView>(list: Vec<T>)
    ensures
        #[trigger] list.deep_view() == views(list@),
{
    assert(list.deep_view() =~= views(list@));
}

/// Adding to a list adds the element's view.
pub broadcast proof fn lemma_views_push<T: DeepView>(list: Seq<T>, last: T)
    ensures
        #[trigger] views(list.push(last)) == views(list).push(last.deep_view()),
{
    assert(views(list.push(last)) =~= views(list).push(last.deep_view()));
}

/// Removing from a list removes the element's view.
pub broadcast proof fn lemma_views_remove<T: DeepView>(list: Seq<T>, i: int)
    requires
        0 <= i < list.len(),
    ensures
        #[trigger] views(list.remove(i)) == views(list).remove(i),
{
    assert(views(list.remove(i)) =~= views(list).remove(i));
}

/// Inserting into a list inserts the element's view.
pub broadcast proof fn lemma_views_insert<T: DeepView>(list: Seq<T>, i: int, element: T)
    requires
        0 <= i <= list.len(),
    ensures
        #[trigger] views(list.insert(i, element)) == views(list).insert(i, element.deep_view()),
{
    assert(views(list.insert(i, element)) =~= views(list).insert(i, element.deep_view()));
}

/// Replacing an element replaces its view.
pub broadcast proof fn lemma_views_update<T: DeepView>(list: Seq<T>, i: int, element: T)
    requires
        0 <= i < list.len(),
    ensures
        #[trigger] views(list.update(i, element)) == views(list).update(i, element.deep_view()),
{
    assert(views(list.update(i, element)) =~= views(list).update(i, element.deep_view()));
}

/// Nothing in a list, no views.
pub broadcast proof fn lemma_views_empty<T: DeepView>()
    ensures
        #[trigger] views(Seq::<T>::empty()) == Seq::<T::V>::empty(),
{
    assert(views(Seq::<T>::empty()) =~= Seq::<T::V>::empty());
}

pub broadcast group group_views {
    lemma_deep_list,
    lemma_views_push,
    lemma_views_remove,
    lemma_views_insert,
    lemma_views_update,
    lemma_views_empty,
}

// --- Texts ---

/// A text as a string of its own.
pub fn owned(text: &str) -> (copy: String)
    ensures
        copy@ == text@,
{
    text.to_owned()
}

/// Whether two texts are the same.
pub fn same_text(a: &str, b: &str) -> (same: bool)
    ensures
        same == (a@ == b@),
{
    let left = a.to_owned();
    let right = b.to_owned();
    left == right
}

/// `first` and `second` one after the other.
pub fn joined(first: &str, second: &str) -> (text: String)
    ensures
        text@ == first@ + second@,
{
    let mut text = first.to_owned();
    text.append(second);
    text
}

} // verus!
