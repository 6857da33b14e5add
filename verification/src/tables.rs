//! Tables: lists in the order of their keys, each key once.

use vstd::prelude::*;

#[allow(unused_imports)]
use crate::duplicate::{group_views, views};
use crate::lists::{position_of, Keyed};
#[allow(unused_imports)]
use crate::lists::{
    first_position, has_key, is_first, key_position, lemma_first_found, lemma_none_found,
    lemma_position_fits, lookup,
};
use crate::ordering::text_before;
#[allow(unused_imports)]
use crate::ordering::{lemma_text_lt_total, lemma_text_lt_transitive, text_lt};

verus! {

/// The keys go up from one entry to the next, so that none occurs twice.
#[verifier::opaque]
pub open spec fn keys_increase<T: Keyed>(table: Seq<T::V>) -> bool {
    forall|i: int, j: int|
        0 <= i < j < table.len() ==> text_lt(
            T::key_of(#[trigger] table[i]),
            T::key_of(#[trigger] table[j]),
        )
}

/// Having a key that comes after `key`.
pub open spec fn after_key<T: Keyed>(key: Seq<char>) -> spec_fn(T::V) -> bool {
    |view: T::V| text_lt(key, T::key_of(view))
}

/// Where an entry with a new key goes.
pub open spec fn place<T: Keyed>(table: Seq<T::V>, key: Seq<char>) -> int {
    match first_position(table, after_key::<T>(key)) {
        Some(i) => i,
        None => table.len() as int,
    }
}

/// The table with an entry at its key.
pub open spec fn stored<T: Keyed>(table: Seq<T::V>, entry: T::V) -> Seq<T::V> {
    match key_position::<T>(table, T::key_of(entry)) {
        Some(i) => table.update(i, entry),
        None => table.insert(place::<T>(table, T::key_of(entry)), entry),
    }
}

/// An entry of a table is the one that is found at its key.
pub proof fn law_one_entry_per_key<T: Keyed>(table: Seq<T::V>, i: int)
    requires
        keys_increase::<T>(table),
        0 <= i < table.len(),
    ensures
        key_position::<T>(table, T::key_of(table[i])) == Some(i),
        lookup::<T>(table, T::key_of(table[i])) == Some(table[i]),
{
    reveal(keys_increase);
    let wanted = has_key::<T>(T::key_of(table[i]));
    assert forall|j: int| 0 <= j < i implies !wanted(#[trigger] table[j]) by {
        assert(text_lt(T::key_of(table[j]), T::key_of(table[i])));
    }
    assert(is_first(table, wanted, i));
    lemma_first_found(table, wanted, i);
}

/// A table is still one after an entry was stored.
pub proof fn law_stored_keeps_order<T: Keyed>(table: Seq<T::V>, entry: T::V)
    requires
        keys_increase::<T>(table),
    ensures
        keys_increase::<T>(stored::<T>(table, entry)),
{
    reveal(keys_increase);
    let key = T::key_of(entry);
    let after = stored::<T>(table, entry);
    lemma_position_fits(table, has_key::<T>(key));
    lemma_position_fits(table, after_key::<T>(key));
    match key_position::<T>(table, key) {
        Some(at) => {
            assert forall|i: int, j: int| 0 <= i < j < after.len() implies text_lt(
                T::key_of(#[trigger] after[i]),
                T::key_of(#[trigger] after[j]),
            ) by {
                assert(text_lt(T::key_of(table[i]), T::key_of(table[j])));
            }
        },
        None => {
            let at = place::<T>(table, key);
            assert forall|k: int| 0 <= k < at implies text_lt(
                T::key_of(#[trigger] table[k]),
                key,
            ) by {
                assert(!has_key::<T>(key)(table[k]));
                assert(!after_key::<T>(key)(table[k]));
                lemma_text_lt_total(T::key_of(table[k]), key);
            }
            assert forall|k: int| at <= k < table.len() implies text_lt(
                key,
                T::key_of(#[trigger] table[k]),
            ) by {
                assert(after_key::<T>(key)(table[at]));
                if k > at {
                    assert(text_lt(T::key_of(table[at]), T::key_of(table[k])));
                    lemma_text_lt_transitive(key, T::key_of(table[at]), T::key_of(table[k]));
                }
            }
            assert forall|i: int, j: int| 0 <= i < j < after.len() implies text_lt(
                T::key_of(#[trigger] after[i]),
                T::key_of(#[trigger] after[j]),
            ) by {
                if i < at && j > at {
                    assert(text_lt(T::key_of(table[i]), T::key_of(table[j - 1])));
                } else if i < at && j < at {
                    assert(text_lt(T::key_of(table[i]), T::key_of(table[j])));
                } else if i > at {
                    assert(text_lt(T::key_of(table[i - 1]), T::key_of(table[j - 1])));
                } else if i == at {
                    assert(after[j] == table[j - 1]);
                } else {
                    assert(after[i] == table[i]);
                }
            }
        },
    }
}

/// What was stored is found at its key, and every other key has what it had.
pub proof fn law_stored_read_back<T: Keyed>(table: Seq<T::V>, entry: T::V, other: Seq<char>)
    ensures
        lookup::<T>(stored::<T>(table, entry), T::key_of(entry)) == Some(entry),
        other != T::key_of(entry) ==> lookup::<T>(stored::<T>(table, entry), other) == lookup::<T>(
            table,
            other,
        ),
{
    let key = T::key_of(entry);
    let after = stored::<T>(table, entry);
    let wanted = has_key::<T>(key);
    lemma_position_fits(table, wanted);
    lemma_position_fits(table, after_key::<T>(key));
    let fresh = key_position::<T>(table, key) is None;
    let at = match key_position::<T>(table, key) {
        Some(i) => i,
        None => place::<T>(table, key),
    };
    assert forall|j: int| 0 <= j < at implies !wanted(#[trigger] after[j]) by {
        assert(after[j] == table[j]);
    }
    assert(is_first(after, wanted, at));
    lemma_first_found(after, wanted, at);
    if other != key {
        let sought = has_key::<T>(other);
        lemma_position_fits(table, sought);
        match key_position::<T>(table, other) {
            Some(k) => {
                let moved = if fresh && k >= at {
                    k + 1
                } else {
                    k
                };
                assert(after[moved] == table[k]);
                assert forall|j: int| 0 <= j < moved implies !sought(#[trigger] after[j]) by {
                    if j != at {
                        let from = if fresh && j > at {
                            j - 1
                        } else {
                            j
                        };
                        assert(after[j] == table[from]);
                    }
                }
                assert(is_first(after, sought, moved));
                lemma_first_found(after, sought, moved);
                lemma_first_found(table, sought, k);
            },
            None => {
                assert forall|j: int| 0 <= j < after.len() implies !sought(
                    #[trigger] after[j],
                ) by {
                    if j != at {
                        let from = if fresh && j > at {
                            j - 1
                        } else {
                            j
                        };
                        assert(after[j] == table[from]);
                    }
                }
                lemma_none_found(after, sought);
                lemma_none_found(table, sought);
            },
        }
    }
}

/// An empty list is a table.
pub proof fn lemma_empty_table<T: Keyed>()
    ensures
        keys_increase::<T>(Seq::empty()),
{
    reveal(keys_increase);
}

/// Replacing an entry by one with its key keeps a table one.
pub proof fn lemma_replaced_keeps_order<T: Keyed>(table: Seq<T::V>, i: int, entry: T::V)
    requires
        keys_increase::<T>(table),
        0 <= i < table.len(),
        T::key_of(entry) == T::key_of(table[i]),
    ensures
        keys_increase::<T>(table.update(i, entry)),
{
    law_one_entry_per_key::<T>(table, i);
    law_stored_keeps_order::<T>(table, entry);
}

/// A table without its last entry is one.
pub proof fn lemma_front_keeps_order<T: Keyed>(table: Seq<T::V>)
    requires
        keys_increase::<T>(table),
        table.len() > 0,
    ensures
        keys_increase::<T>(table.drop_last()),
{
    reveal(keys_increase);
}

fn place_of<T: Keyed>(table: &Vec<T>, key: &str) -> (at: usize)
    ensures
        at <= table.len(),
        at == place::<T>(table.deep_view(), key@),
{
    broadcast use group_views;

    let ghost all = table.deep_view();
    let ghost wanted = after_key::<T>(key@);
    let mut i: usize = 0;
    while i < table.len()
        invariant
            i <= table.len(),
            all == views(table@),
            wanted == after_key::<T>(key@),
            forall|j: int| 0 <= j < i ==> !wanted(#[trigger] all[j]),
        decreases table.len() - i,
    {
        assert(all[i as int] == table[i as int].deep_view());
        if text_before(key, table[i].key()) {
            proof {
                lemma_first_found(all, wanted, i as int);
            }
            return i;
        }
        i = i + 1;
    }
    proof {
        lemma_none_found(all, wanted);
    }
    i
}

/// Stores an entry at its key.
pub fn store<T: Keyed>(table: &mut Vec<T>, entry: T)
    ensures
        final(table).deep_view() == stored::<T>(old(table).deep_view(), entry.deep_view()),
{
    broadcast use group_views;

    match position_of(&*table, entry.key()) {
        Some(i) => {
            table.set(i, entry);
        },
        None => {
            let at = place_of(&*table, entry.key());
            table.insert(at, entry);
        },
    }
}

/// Whether a list is a table.
pub fn is_table<T: Keyed>(list: &Vec<T>) -> (r: bool)
    ensures
        r == keys_increase::<T>(list.deep_view()),
{
    broadcast use group_views;

    reveal(keys_increase);
    let ghost all = list.deep_view();
    if list.len() == 0 {
        return true;
    }
    let mut i: usize = 1;
    while i < list.len()
        invariant
            1 <= i <= list.len(),
            all == views(list@),
            all == list.deep_view(),
            forall|a: int, b: int|
                0 <= a < b < i ==> text_lt(
                    T::key_of(#[trigger] all[a]),
                    T::key_of(#[trigger] all[b]),
                ),
        decreases list.len() - i,
    {
        assert(all[i as int] == list[i as int].deep_view());
        assert(all[i - 1] == list[i - 1].deep_view());
        if !text_before(list[i - 1].key(), list[i].key()) {
            proof {
                reveal(keys_increase);
                assert(!text_lt(T::key_of(all[i - 1]), T::key_of(all[i as int])));
            }
            return false;
        }
        assert forall|a: int, b: int| 0 <= a < b < i + 1 implies text_lt(
            T::key_of(#[trigger] all[a]),
            T::key_of(#[trigger] all[b]),
        ) by {
            if b == i && a < i - 1 {
                assert(text_lt(T::key_of(all[a]), T::key_of(all[i - 1])));
                lemma_text_lt_transitive(
                    T::key_of(all[a]),
                    T::key_of(all[i - 1]),
                    T::key_of(all[i as int]),
                );
            }
        }
        i = i + 1;
    }
    true
}

} // verus!
