//! Putting ids in order.

use vstd::prelude::*;
use vstd::relations::{
    antisymmetric, reflexive, sorted_by, strongly_connected, total_ordering, transitive,
};
use vstd::seq_lib::{group_to_multiset_ensures, lemma_sorted_unique, to_multiset_build};

verus! {

/// `a` does not come after `b`, character by character.
pub open spec fn text_le(a: Seq<char>, b: Seq<char>) -> bool
    decreases a.len(),
{
    if a.len() == 0 {
        true
    } else if b.len() == 0 {
        false
    } else {
        a[0] < b[0] || (a[0] == b[0] && text_le(a.drop_first(), b.drop_first()))
    }
}

proof fn lemma_text_reflexive(a: Seq<char>)
    ensures
        text_le(a, a),
    decreases a.len(),
{
    if a.len() > 0 {
        lemma_text_reflexive(a.drop_first());
    }
}

proof fn lemma_text_antisymmetric(a: Seq<char>, b: Seq<char>)
    requires
        text_le(a, b),
        text_le(b, a),
    ensures
        a == b,
    decreases a.len(),
{
    if a.len() > 0 && b.len() > 0 {
        lemma_text_antisymmetric(a.drop_first(), b.drop_first());
        assert(a =~= seq![a[0]] + a.drop_first());
        assert(b =~= seq![b[0]] + b.drop_first());
    } else {
        assert(a =~= b);
    }
}

proof fn lemma_text_transitive(a: Seq<char>, b: Seq<char>, c: Seq<char>)
    requires
        text_le(a, b),
        text_le(b, c),
    ensures
        text_le(a, c),
    decreases a.len(),
{
    if a.len() > 0 && b.len() > 0 && c.len() > 0 && a[0] == b[0] && b[0] == c[0] {
        lemma_text_transitive(a.drop_first(), b.drop_first(), c.drop_first());
    }
}

proof fn lemma_text_total(a: Seq<char>, b: Seq<char>)
    ensures
        text_le(a, b) || text_le(b, a),
    decreases a.len(),
{
    if a.len() > 0 && b.len() > 0 && a[0] == b[0] {
        lemma_text_total(a.drop_first(), b.drop_first());
    }
}

/// `a` comes before `b`, character by character.
pub open spec fn text_lt(a: Seq<char>, b: Seq<char>) -> bool {
    text_le(a, b) && a != b
}

/// The first character in which two texts differ decides which comes first; a
/// text that another begins with comes before it.
pub proof fn law_first_difference_decides(a: Seq<char>, b: Seq<char>, i: int)
    requires
        0 <= i <= a.len() && i < b.len(),
        forall|j: int| 0 <= j < i ==> a[j] == b[j],
        i == a.len() || a[i] < b[i],
    ensures
        text_lt(a, b),
        !text_lt(b, a),
    decreases a.len(),
{
    if i == 0 {
        if a.len() == 0 {
            assert(b.len() > 0);
        } else {
            assert(a[0] < b[0]);
        }
    } else {
        let x = a.drop_first();
        let y = b.drop_first();
        assert forall|j: int| 0 <= j < i - 1 implies x[j] == y[j] by {
            assert(a[j + 1] == b[j + 1]);
        }
        if i < a.len() {
            assert(x[i - 1] == a[i] && y[i - 1] == b[i]);
        }
        assert(a[0] == b[0]);
        law_first_difference_decides(x, y, i - 1);
        assert(text_le(a, b));
    }
    if i < a.len() {
        assert(a[i] != b[i]);
    } else {
        assert(a.len() < b.len());
    }
    if text_lt(b, a) {
        lemma_text_antisymmetric(a, b);
    }
}

/// Of two texts one comes before the other, unless they are the same.
pub proof fn lemma_text_lt_total(a: Seq<char>, b: Seq<char>)
    ensures
        text_lt(a, b) == !text_le(b, a),
        a != b ==> text_lt(a, b) != text_lt(b, a),
        !text_lt(a, a),
{
    lemma_text_total(a, b);
    lemma_text_reflexive(a);
    if text_le(a, b) && text_le(b, a) {
        lemma_text_antisymmetric(a, b);
    }
}

pub proof fn lemma_text_lt_transitive(a: Seq<char>, b: Seq<char>, c: Seq<char>)
    requires
        text_lt(a, b),
        text_lt(b, c),
    ensures
        text_lt(a, c),
{
    lemma_text_transitive(a, b, c);
    if a == c {
        lemma_text_antisymmetric(a, b);
    }
}

/// Lower ranks first; among equal ranks, by text.
pub open spec fn ranked_le() -> spec_fn((int, Seq<char>), (int, Seq<char>)) -> bool {
    |a: (int, Seq<char>), b: (int, Seq<char>)| a.0 < b.0 || (a.0 == b.0 && text_le(a.1, b.1))
}

/// Any two ranked texts are in order one way, and only equal ones both ways.
pub proof fn law_ranked_total()
    ensures
        total_ordering(ranked_le()),
{
    let le = ranked_le();
    assert forall|a: (int, Seq<char>)| #[trigger] le(a, a) by {
        lemma_text_reflexive(a.1);
    }
    assert(reflexive(le));
    assert forall|a: (int, Seq<char>), b: (int, Seq<char>)| #[trigger]
        le(a, b) && #[trigger] le(b, a) implies a == b by {
        lemma_text_antisymmetric(a.1, b.1);
    }
    assert(antisymmetric(le));
    assert forall|a: (int, Seq<char>), b: (int, Seq<char>), c: (int, Seq<char>)| #[trigger]
        le(a, b) && #[trigger] le(b, c) implies le(a, c) by {
        if a.0 == b.0 && b.0 == c.0 {
            lemma_text_transitive(a.1, b.1, c.1);
        }
    }
    assert(transitive(le));
    assert forall|a: (int, Seq<char>), b: (int, Seq<char>)| #[trigger]
        le(a, b) || #[trigger] le(b, a) by {
        lemma_text_total(a.1, b.1);
    }
    assert(strongly_connected(le));
}

/// An id with what it is ordered by.
pub struct Ranked {
    pub rank: i128,
    pub text: String,
}

impl View for Ranked {
    type V = (int, Seq<char>);

    open spec fn view(&self) -> (int, Seq<char>) {
        (self.rank as int, self.text@)
    }
}

pub open spec fn ranked_views(items: Seq<Ranked>) -> Seq<(int, Seq<char>)> {
    items.map_values(|item: Ranked| item@)
}

fn text_at_most(a: &str, b: &str) -> (r: bool)
    ensures
        r == text_le(a@, b@),
{
    let a_len = a.unicode_len();
    let b_len = b.unicode_len();
    let mut i: usize = 0;
    assert(a@.skip(0) =~= a@);
    assert(b@.skip(0) =~= b@);
    while i < a_len && i < b_len
        invariant
            a_len == a@.len(),
            b_len == b@.len(),
            i <= a_len,
            i <= b_len,
            text_le(a@, b@) == text_le(a@.skip(i as int), b@.skip(i as int)),
        decreases a_len - i,
    {
        let x = a.get_char(i);
        let y = b.get_char(i);
        assert(a@.skip(i as int)[0] == x && b@.skip(i as int)[0] == y);
        if x < y {
            return true;
        }
        if x > y {
            return false;
        }
        assert(a@.skip(i as int).drop_first() =~= a@.skip(i + 1));
        assert(b@.skip(i as int).drop_first() =~= b@.skip(i + 1));
        i = i + 1;
    }
    i == a_len
}

/// Whether a text comes before another.
pub fn text_before(a: &str, b: &str) -> (r: bool)
    ensures
        r == text_lt(a@, b@),
{
    proof {
        lemma_text_lt_total(a@, b@);
    }
    !text_at_most(b, a)
}

fn at_most(a: &Ranked, b: &Ranked) -> (r: bool)
    ensures
        r == ranked_le()(a@, b@),
{
    a.rank < b.rank || (a.rank == b.rank && text_at_most(a.text.as_str(), b.text.as_str()))
}

fn insert_ranked(sorted: &mut Vec<Ranked>, item: Ranked)
    requires
        sorted_by(ranked_views(old(sorted)@), ranked_le()),
    ensures
        sorted_by(ranked_views(final(sorted)@), ranked_le()),
        ranked_views(final(sorted)@).to_multiset() == ranked_views(
            old(sorted)@,
        ).to_multiset().insert(item@),
{
    broadcast use group_to_multiset_ensures;

    let ghost before = ranked_views(sorted@);
    let ghost le = ranked_le();
    proof {
        law_ranked_total();
    }
    let mut i: usize = 0;
    while i < sorted.len() && at_most(&sorted[i], &item)
        invariant
            i <= sorted.len(),
            before == ranked_views(sorted@),
            le == ranked_le(),
            forall|j: int| 0 <= j < i ==> le(#[trigger] before[j], item@),
        decreases sorted.len() - i,
    {
        assert(before[i as int] == sorted@[i as int]@);
        i = i + 1;
    }
    let ghost x = item@;
    proof {
        if i < sorted.len() {
            assert(before[i as int] == sorted@[i as int]@);
            assert(!le(before[i as int], x));
            assert(le(x, before[i as int]));
        }
    }
    sorted.insert(i, item);
    proof {
        let after = ranked_views(sorted@);
        assert(after =~= before.insert(i as int, x));
        assert forall|a: int, b: int| 0 <= a < b < after.len() implies #[trigger] le(
            after[a],
            after[b],
        ) by {
            if b < i {
                assert(le(before[a], before[b]));
            } else if b == i {
                assert(le(before[a], x));
            } else if a < i {
                assert(le(before[a], before[b - 1]));
            } else if a == i {
                if b - 1 > i {
                    assert(le(before[i as int], before[b - 1]));
                }
            } else {
                assert(le(before[a - 1], before[b - 1]));
            }
        }
    }
}

/// The items in order.
pub fn sort_ranked(items: Vec<Ranked>) -> (sorted: Vec<Ranked>)
    ensures
        ranked_views(sorted@) == ranked_views(items@).sort_by(ranked_le()),
{
    broadcast use group_to_multiset_ensures;

    let ghost all = ranked_views(items@);
    let mut rest = items;
    let mut sorted: Vec<Ranked> = Vec::new();
    proof {
        assert(ranked_views(rest@).to_multiset().add(ranked_views(sorted@).to_multiset())
            =~= all.to_multiset());
    }
    while rest.len() > 0
        invariant
            sorted_by(ranked_views(sorted@), ranked_le()),
            ranked_views(rest@).to_multiset().add(ranked_views(sorted@).to_multiset())
                == all.to_multiset(),
        decreases rest.len(),
    {
        let ghost before = ranked_views(rest@);
        match rest.pop() {
            None => {},
            Some(item) => {
                let ghost done = ranked_views(sorted@);
                let ghost x = item@;
                proof {
                    assert(before =~= ranked_views(rest@).push(x));
                }
                insert_ranked(&mut sorted, item);
                proof {
                    to_multiset_build(ranked_views(rest@), x);
                    assert(ranked_views(rest@).to_multiset().add(
                        ranked_views(sorted@).to_multiset(),
                    ) =~= before.to_multiset().add(done.to_multiset()));
                }
            },
        }
    }
    proof {
        law_ranked_total();
        all.lemma_sort_by_ensures(ranked_le());
        assert(ranked_views(rest@) =~= Seq::empty());
        assert(ranked_views(sorted@).to_multiset() =~= all.to_multiset());
        lemma_sorted_unique(ranked_views(sorted@), all.sort_by(ranked_le()), ranked_le());
    }
    sorted
}

} // verus!
