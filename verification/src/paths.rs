//! Paths as texts: when two name one place, and where an attached directory
//! goes by default.

use vstd::prelude::*;
use vstd::set_lib::{lemma_int_range, lemma_len_subset, set_int_range};

use crate::decimal::decimal_text;
#[allow(unused_imports)]
use crate::decimal::{decimal, law_decimal_reads_back};
#[allow(unused_imports)]
use crate::duplicate::group_views;
use crate::duplicate::{joined, owned, same_text, Duplicate};
use crate::records::{AdditionalMount, TargetKind, TargetTemplate};
#[allow(unused_imports)]
use crate::records::{AdditionalMountView, TargetTemplateView};

verus! {

// --- Components ---

/// A text cut at its slashes.
pub open spec fn cut_at_slashes(text: Seq<char>) -> Seq<Seq<char>>
    decreases text.len(),
{
    if text.len() == 0 {
        seq![seq![]]
    } else {
        let cut = cut_at_slashes(text.drop_last());
        if text.last() == '/' {
            cut.push(seq![])
        } else {
            cut.drop_last().push(cut.last().push(text.last()))
        }
    }
}

/// A piece between slashes that names something.
pub open spec fn names_something(piece: Seq<char>) -> bool {
    piece.len() > 0 && piece != seq!['.']
}

/// The names along a path.
pub open spec fn path_names(text: Seq<char>) -> Seq<Seq<char>> {
    cut_at_slashes(text).filter(|piece: Seq<char>| names_something(piece))
}

pub open spec fn absolute(text: Seq<char>) -> bool {
    text.len() > 0 && text[0] == '/'
}

/// The path starts from the current directory by name.
pub open spec fn starts_here(text: Seq<char>) -> bool {
    text.len() > 0 && text[0] == '.' && (text.len() == 1 || text[1] == '/')
}

/// Two paths name one place: repeated slashes, slashes at the end and `.`
/// along the way do not count.
pub open spec fn same_path(a: Seq<char>, b: Seq<char>) -> bool {
    &&& absolute(a) == absolute(b)
    &&& starts_here(a) == starts_here(b)
    &&& path_names(a) == path_names(b)
}

/// The last name of a path, unless it leads upwards.
pub open spec fn file_name(text: Seq<char>) -> Option<Seq<char>> {
    let names = path_names(text);
    if names.len() > 0 && names.last() != seq!['.', '.'] {
        Some(names.last())
    } else {
        None
    }
}

/// `rest` below `base`; a `rest` that is absolute stands alone.
pub open spec fn path_below(base: Seq<char>, rest: Seq<char>) -> Seq<char> {
    if absolute(rest) {
        rest
    } else if base.len() == 0 || base.last() == '/' {
        base + rest
    } else {
        base.push('/') + rest
    }
}

proof fn lemma_cut_nonempty(text: Seq<char>)
    ensures
        cut_at_slashes(text).len() > 0,
    decreases text.len(),
{
    if text.len() > 0 {
        lemma_cut_nonempty(text.drop_last());
    }
}

/// A piece without slashes behind a slash is the last piece.
proof fn lemma_cut_append(base: Seq<char>, piece: Seq<char>)
    requires
        !piece.contains('/'),
    ensures
        cut_at_slashes(base.push('/') + piece) == cut_at_slashes(base).push(piece),
    decreases piece.len(),
{
    let whole = base.push('/') + piece;
    if piece.len() == 0 {
        assert(whole =~= base.push('/'));
        assert(whole.drop_last() =~= base);
        assert(piece =~= Seq::empty());
    } else {
        assert(whole.drop_last() =~= base.push('/') + piece.drop_last());
        assert(whole.last() == piece.last());
        assert(piece.contains(piece.last()));
        assert forall|c: char| piece.drop_last().contains(c) implies piece.contains(c) by {
            let i = choose|i: int| 0 <= i < piece.drop_last().len() && piece.drop_last()[i] == c;
            assert(piece[i] == c);
        }
        lemma_cut_append(base, piece.drop_last());
        let cut = cut_at_slashes(base);
        assert(cut.push(piece.drop_last()).drop_last() =~= cut);
        assert(piece.drop_last().push(piece.last()) =~= piece);
    }
}

proof fn lemma_names_append(base: Seq<char>, piece: Seq<char>)
    requires
        !piece.contains('/'),
        names_something(piece),
    ensures
        path_names(base.push('/') + piece) == path_names(base).push(piece),
{
    lemma_cut_append(base, piece);
    let keep = |piece: Seq<char>| names_something(piece);
    let cut = cut_at_slashes(base);
    reveal(Seq::filter);
    assert(cut.push(piece).drop_last() =~= cut);
}

fn path_pieces(text: &str) -> (names: Vec<String>)
    ensures
        names.deep_view() == path_names(text@),
{
    broadcast use group_views;

    let len = text.unicode_len();
    let ghost keep = |piece: Seq<char>| names_something(piece);
    let mut names: Vec<String> = Vec::new();
    let mut start: usize = 0;
    let mut i: usize = 0;
    let ghost mut before: Seq<Seq<char>> = seq![];
    proof {
        reveal(Seq::filter);
        assert(text@.take(0) =~= Seq::empty());
        assert(text@.subrange(0, 0) =~= Seq::empty());
        assert(before.push(text@.subrange(0, 0)) =~= cut_at_slashes(text@.take(0)));
    }
    while i < len
        invariant
            len == text@.len(),
            start <= i <= len,
            keep == (|piece: Seq<char>| names_something(piece)),
            cut_at_slashes(text@.take(i as int)) == before.push(
                text@.subrange(start as int, i as int),
            ),
            names.deep_view() == before.filter(keep),
        decreases len - i,
    {
        let c = text.get_char(i);
        assert(text@.take(i + 1).drop_last() =~= text@.take(i as int));
        let ghost piece = text@.subrange(start as int, i as int);
        if c == '/' {
            push_name(&mut names, text, start, i);
            proof {
                reveal(Seq::filter);
                assert(before.push(piece).drop_last() =~= before);
                before = before.push(piece);
                assert(text@.subrange(i + 1, i + 1) =~= Seq::empty());
            }
            start = i + 1;
        } else {
            assert(before.push(piece).drop_last() =~= before);
            assert(piece.push(c) =~= text@.subrange(start as int, i + 1));
        }
        i = i + 1;
    }
    push_name(&mut names, text, start, len);
    proof {
        reveal(Seq::filter);
        let piece = text@.subrange(start as int, len as int);
        assert(text@.take(len as int) =~= text@);
        assert(before.push(piece).drop_last() =~= before);
    }
    names
}

fn push_name(names: &mut Vec<String>, text: &str, start: usize, end: usize)
    requires
        start <= end <= text@.len(),
    ensures
        final(names).deep_view() == if names_something(
            text@.subrange(start as int, end as int),
        ) {
            old(names).deep_view().push(text@.subrange(start as int, end as int))
        } else {
            old(names).deep_view()
        },
{
    broadcast use group_views;

    let piece = text.substring_char(start, end);
    proof {
        reveal_strlit(".");
        assert("."@ =~= seq!['.']);
    }
    if start < end && !same_text(piece, ".") {
        names.push(piece.to_owned());
    }
}

fn same_names(a: &Vec<String>, b: &Vec<String>) -> (same: bool)
    ensures
        same == (a.deep_view() == b.deep_view()),
{
    broadcast use group_views;

    if a.len() != b.len() {
        assert(a.deep_view().len() != b.deep_view().len());
        return false;
    }
    let mut i: usize = 0;
    while i < a.len()
        invariant
            i <= a.len(),
            a.len() == b.len(),
            forall|j: int| 0 <= j < i ==> (#[trigger] a@[j])@ == b@[j]@,
        decreases a.len() - i,
    {
        if !same_text(a[i].as_str(), b[i].as_str()) {
            assert(a.deep_view()[i as int] != b.deep_view()[i as int]);
            return false;
        }
        i = i + 1;
    }
    assert(a.deep_view() =~= b.deep_view());
    true
}

fn is_absolute(text: &str) -> (r: bool)
    ensures
        r == absolute(text@),
{
    text.unicode_len() > 0 && text.get_char(0) == '/'
}

/// Whether two paths name one place.
pub fn paths_match(a: &str, b: &str) -> (same: bool)
    ensures
        same == same_path(a@, b@),
{
    let a_len = a.unicode_len();
    let b_len = b.unicode_len();
    let a_here = a_len > 0 && a.get_char(0) == '.' && (a_len == 1 || a.get_char(1) == '/');
    let b_here = b_len > 0 && b.get_char(0) == '.' && (b_len == 1 || b.get_char(1) == '/');
    is_absolute(a) == is_absolute(b) && a_here == b_here && same_names(
        &path_pieces(a),
        &path_pieces(b),
    )
}

/// The last name of a path, unless it leads upwards.
pub fn last_name(path: &str) -> (name: Option<String>)
    ensures
        name.deep_view() == file_name(path@),
{
    broadcast use group_views;

    let names = path_pieces(path);
    let ghost all = names.deep_view();
    proof {
        reveal_strlit("..");
        assert(".."@ =~= seq!['.', '.']);
    }
    let len = names.len();
    if len == 0 {
        return None;
    }
    let last = names[len - 1].duplicate();
    assert(all[len - 1] == names@[len - 1]@);
    if same_text(last.as_str(), "..") {
        None
    } else {
        Some(last)
    }
}

/// `rest` below `base`.
pub fn join_path(base: &str, rest: &str) -> (path: String)
    ensures
        path@ == path_below(base@, rest@),
{
    if is_absolute(rest) {
        return owned(rest);
    }
    let len = base.unicode_len();
    if len == 0 || base.get_char(len - 1) == '/' {
        joined(base, rest)
    } else {
        proof {
            reveal_strlit("/");
            assert("/"@ =~= seq!['/']);
        }
        let mut path = joined(base, "/");
        assert(path@ =~= base@.push('/'));
        path.append(rest);
        path
    }
}

/// A slash at the end, or a `.` behind one, leads to the same place.
pub proof fn law_trailing_parts_ignored(text: Seq<char>)
    requires
        text.len() > 0,
    ensures
        same_path(text.push('/'), text),
        same_path(text.push('/').push('.'), text),
{
    let keep = |piece: Seq<char>| names_something(piece);
    reveal(Seq::filter);
    lemma_cut_append(text, seq![]);
    assert(text.push('/') + seq![] =~= text.push('/'));
    let cut = cut_at_slashes(text);
    assert(cut.push(seq![]).drop_last() =~= cut);
    assert(!keep(cut.push(seq![]).last()));
    lemma_cut_append(text, seq!['.']);
    assert(text.push('/') + seq!['.'] =~= text.push('/').push('.'));
    assert(cut.push(seq!['.']).drop_last() =~= cut);
    assert(!keep(cut.push(seq!['.']).last()));
}

/// A path from the root and one from elsewhere are different places, and so are
/// one that starts with the current directory by name and one that does not.
pub proof fn law_start_of_path_counts(text: Seq<char>)
    requires
        text.len() > 0,
        text[0] != '/' && text[0] != '.',
    ensures
        !same_path(seq!['/'] + text, text),
        !same_path(seq!['.', '/'] + text, text),
{
    assert((seq!['/'] + text)[0] == '/');
    assert((seq!['.', '/'] + text)[0] == '.' && (seq!['.', '/'] + text)[1] == '/');
}

/// Being the same place holds of a path and itself, either way round, and from
/// one path over a second to a third.
pub proof fn law_same_place_equivalence(a: Seq<char>, b: Seq<char>, c: Seq<char>)
    ensures
        same_path(a, a),
        same_path(a, b) == same_path(b, a),
        same_path(a, b) && same_path(b, c) ==> same_path(a, c),
{
}

/// Different names below one directory are different places, and none is the
/// directory itself; a path from the root is no other.
pub proof fn law_different_names_differ(base: Seq<char>, a: Seq<char>, b: Seq<char>)
    requires
        !a.contains('/') && !b.contains('/'),
        names_something(a) && names_something(b),
        a != b,
    ensures
        !same_path(base.push('/') + a, base.push('/') + b),
        !same_path(base.push('/') + a, base),
{
    lemma_names_append(base, a);
    lemma_names_append(base, b);
    let names = path_names(base);
    assert(names.push(a).last() == a && names.push(b).last() == b);
    assert(names.push(a).len() == names.len() + 1);
}

/// The last name of a path is what stands behind its last slash, or in front
/// of it where nothing does.
pub proof fn law_last_name(base: Seq<char>, name: Seq<char>)
    requires
        !name.contains('/'),
        names_something(name),
        name != seq!['.', '.'],
    ensures
        file_name(base.push('/') + name) == Some(name),
        file_name((base.push('/') + name).push('/')) == Some(name),
{
    lemma_names_append(base, name);
    assert(path_names(base).push(name).last() == name);
    law_trailing_parts_ignored(base.push('/') + name);
}

/// One slash stands between a directory and what is below it.
pub proof fn law_joined_path(base: Seq<char>, rest: Seq<char>)
    ensures
        rest.len() > 0 && rest[0] == '/' ==> path_below(base, rest) == rest,
        rest.len() == 0 || rest[0] != '/' ==> {
            let path = path_below(base, rest);
            &&& base.is_prefix_of(path) && rest.is_suffix_of(path)
            &&& base.len() == 0 || base.last() == '/' ==> path.len() == base.len() + rest.len()
            &&& base.len() > 0 && base.last() != '/' ==> {
                &&& path.len() == base.len() + 1 + rest.len()
                &&& path[base.len() as int] == '/'
            }
        },
{
    assert(rest.is_suffix_of(path_below(base, rest)));
}

// --- Where attached directories go ---
// --- Where attached directories go ---

/// An attached directory already goes to this place.
pub open spec fn taken(existing: Seq<AdditionalMountView>, destination: Seq<char>) -> bool {
    exists|i: int|
        0 <= i < existing.len() && same_path((#[trigger] existing[i]).destination, destination)
}

/// Whether an attached directory already goes to this place.
pub fn is_taken(existing: &Vec<AdditionalMount>, destination: &str) -> (r: bool)
    ensures
        r == taken(existing.deep_view(), destination@),
{
    broadcast use group_views;

    let mut i: usize = 0;
    while i < existing.len()
        invariant
            i <= existing.len(),
            forall|j: int|
                0 <= j < i ==> !same_path((#[trigger] existing@[j]).destination@, destination@),
        decreases existing.len() - i,
    {
        if paths_match(existing[i].destination.as_str(), destination) {
            assert(same_path(existing.deep_view()[i as int].destination, destination@));
            return true;
        }
        i = i + 1;
    }
    proof {
        assert forall|j: int|
            0 <= j < existing.deep_view().len() implies !same_path(
            (#[trigger] existing.deep_view()[j]).destination,
            destination@,
        ) by {
            assert(existing.deep_view()[j].destination == existing@[j].destination@);
        }
    }
    false
}

/// The directory below a user's home that attached directories go to.
pub open spec fn resource_home(user: Seq<char>) -> Seq<char> {
    path_below(
        if user == "root"@ {
            "/root"@
        } else {
            path_below("/home"@, user)
        },
        "mj-resources"@,
    )
}

/// The place for a directory called `name`, numbered from two on.
pub open spec fn resource_place(home: Seq<char>, name: Seq<char>, number: nat) -> Seq<char> {
    path_below(
        home,
        if number < 2 {
            name
        } else {
            name + "-"@ + decimal(number)
        },
    )
}

/// The number of the first place that is free: the plain name, else the
/// least number from two on.
pub open spec fn first_free(
    existing: Seq<AdditionalMountView>,
    home: Seq<char>,
    name: Seq<char>,
    number: nat,
) -> bool {
    &&& number >= 1
    &&& !taken(existing, resource_place(home, name, number))
    &&& forall|earlier: nat|
        1 <= earlier < number ==> taken(existing, #[trigger] resource_place(home, name, earlier))
}

/// The number of the first free place.
pub open spec fn free_number(
    existing: Seq<AdditionalMountView>,
    home: Seq<char>,
    name: Seq<char>,
) -> nat {
    choose|number: nat| first_free(existing, home, name, number)
}

/// Where a directory goes when it is attached: where `default` says, except
/// that an instance keeps such directories below its user's home, each under
/// a name of its own.
pub open spec fn resource_destination(
    target: TargetTemplateView,
    default: Seq<char>,
    existing: Seq<AdditionalMountView>,
) -> Seq<char> {
    if target.kind != TargetKind::AwsEc2 {
        default
    } else {
        let home = resource_home(target.ssh_user);
        let name = resource_name(default);
        resource_place(home, name, free_number(existing, home, name))
    }
}

proof fn lemma_free_number(
    existing: Seq<AdditionalMountView>,
    home: Seq<char>,
    name: Seq<char>,
    number: nat,
)
    requires
        first_free(existing, home, name, number),
    ensures
        free_number(existing, home, name) == number,
{
    let chosen = free_number(existing, home, name);
    assert(first_free(existing, home, name, chosen));
    if chosen < number {
        assert(taken(existing, resource_place(home, name, chosen)));
    } else if number < chosen {
        assert(taken(existing, resource_place(home, name, number)));
    }
}

/// The name that an instance's copy of a directory gets.
pub open spec fn resource_name(default: Seq<char>) -> Seq<char> {
    match file_name(default) {
        Some(name) => name,
        None => "resource"@,
    }
}

/// Names along a path hold no slash.
proof fn lemma_pieces_plain(text: Seq<char>)
    ensures
        forall|i: int|
            0 <= i < cut_at_slashes(text).len() ==> !(#[trigger] cut_at_slashes(text)[i]).contains(
                '/',
            ),
    decreases text.len(),
{
    if text.len() > 0 {
        lemma_pieces_plain(text.drop_last());
        lemma_cut_nonempty(text.drop_last());
        let cut = cut_at_slashes(text.drop_last());
        let after = cut_at_slashes(text);
        assert forall|i: int| 0 <= i < after.len() implies !(#[trigger] after[i]).contains(
            '/',
        ) by {
            if text.last() != '/' && i == after.len() - 1 {
                let last = cut.last();
                assert(!last.contains('/'));
                assert forall|j: int| 0 <= j < after[i].len() implies after[i][j] != '/' by {
                    if j < last.len() {
                        assert(after[i][j] == last[j]);
                        assert(last.contains(last[j]));
                    }
                }
            } else if i < cut.len() {
                assert(after[i] == cut[i]);
            }
        }
    }
}

proof fn lemma_file_name_plain(text: Seq<char>)
    ensures
        !resource_name(text).contains('/'),
        names_something(resource_name(text)),
{
    reveal_strlit("resource");
    if let Some(name) = file_name(text) {
        lemma_pieces_plain(text);
        let cut = cut_at_slashes(text);
        let keep = |piece: Seq<char>| names_something(piece);
        let names = path_names(text);
        assert(names[names.len() - 1] == name);
        assert(cut.filter(keep).contains(name));
        cut.lemma_filter_pred(keep, names.len() - 1);
        cut.lemma_filter_contains_rev(keep, name);
        let i = choose|i: int| 0 <= i < cut.len() && cut[i] == name;
        assert(cut[i] == name);
    } else {
        assert("resource"@.len() == 8);
    }
}

proof fn lemma_decimal_plain(n: nat)
    ensures
        !decimal(n).contains('/'),
        decimal(n).len() > 0,
    decreases n,
{
    if n < 10 {
        let one = decimal(n);
        assert forall|i: int| 0 <= i < one.len() implies one[i] != '/' by {}
    } else {
        lemma_decimal_plain(n / 10);
        let front = decimal(n / 10);
        let all = decimal(n);
        assert forall|i: int| 0 <= i < all.len() implies all[i] != '/' by {
            if i < front.len() {
                assert(all[i] == front[i]);
                assert(front.contains(front[i]));
            }
        }
    }
}

/// Two numbered places are two places.
proof fn lemma_places_differ(home: Seq<char>, name: Seq<char>, a: nat, b: nat)
    requires
        !name.contains('/'),
        names_something(name),
        home.len() > 0,
        home.last() != '/',
        a >= 1,
        b >= 1,
        same_path(resource_place(home, name, a), resource_place(home, name, b)),
    ensures
        a == b || (a < 2 && b < 2),
{
    lemma_place_names(home, name, a);
    lemma_place_names(home, name, b);
    let na = numbered(name, a);
    let nb = numbered(name, b);
    assert(path_names(home).push(na).last() == na);
    assert(path_names(home).push(nb).last() == nb);
    assert(na == nb);
    reveal_strlit("-");
    law_decimal_reads_back(a);
    law_decimal_reads_back(b);
    if a >= 2 && b >= 2 {
        let k = name.len() as int + 1;
        assert(na.skip(k) =~= decimal(a));
        assert(nb.skip(k) =~= decimal(b));
    } else if a >= 2 {
        assert(na.len() > nb.len());
    } else if b >= 2 {
        assert(nb.len() > na.len());
    }
}

spec fn numbered(name: Seq<char>, number: nat) -> Seq<char> {
    if number < 2 {
        name
    } else {
        name + "-"@ + decimal(number)
    }
}

proof fn lemma_place_names(home: Seq<char>, name: Seq<char>, number: nat)
    requires
        !name.contains('/'),
        names_something(name),
        home.len() > 0,
        home.last() != '/',
    ensures
        path_names(resource_place(home, name, number)) == path_names(home).push(
            numbered(name, number),
        ),
{
    reveal_strlit("-");
    lemma_decimal_plain(number);
    let piece = numbered(name, number);
    assert(!piece.contains('/')) by {
        assert forall|i: int| 0 <= i < piece.len() implies piece[i] != '/' by {
            if i < name.len() {
                assert(piece[i] == name[i]);
                assert(name.contains(name[i]));
            } else if i > name.len() {
                assert(piece[i] == decimal(number)[i - name.len() - 1]);
                assert(decimal(number).contains(decimal(number)[i - name.len() - 1]));
            }
        }
    }
    assert(piece.len() > 0 && piece[0] == name[0]);
    if piece == seq!['.'] {
        assert(name.len() == 1);
        assert(name =~= seq!['.']);
    }
    assert(!absolute(piece)) by {
        assert(piece.contains(piece[0]));
    }
    lemma_names_append(home, piece);
}

/// Among one more place than there are attached directories, one is free.
proof fn lemma_some_place_free(
    existing: Seq<AdditionalMountView>,
    home: Seq<char>,
    name: Seq<char>,
    count: nat,
)
    requires
        !name.contains('/'),
        names_something(name),
        home.len() > 0,
        home.last() != '/',
        forall|number: nat|
            1 <= number <= count ==> taken(existing, #[trigger] resource_place(home, name, number)),
    ensures
        count <= existing.len(),
{
    let holder = |number: int|
        choose|i: int|
            0 <= i < existing.len() && same_path(
                (#[trigger] existing[i]).destination,
                resource_place(home, name, number as nat),
            );
    let holders = Seq::new(count, |k: int| holder(k + 1));
    assert forall|k: int| 0 <= k < count implies {
        &&& 0 <= #[trigger] holders[k] < existing.len()
        &&& same_path(
            existing[holders[k]].destination,
            resource_place(home, name, (k + 1) as nat),
        )
    } by {
        assert(taken(existing, resource_place(home, name, (k + 1) as nat)));
    }
    assert(holders.no_duplicates()) by {
        assert forall|a: int, b: int|
            0 <= a < holders.len() && 0 <= b < holders.len() && a != b implies holders[a]
            != holders[b] by {
            if holders[a] == holders[b] {
                lemma_places_differ(home, name, (a + 1) as nat, (b + 1) as nat);
            }
        }
    }
    holders.unique_seq_to_set();
    lemma_int_range(0, existing.len() as int);
    let range = set_int_range(0, existing.len() as int);
    assert(holders.to_set().subset_of(range)) by {
        assert forall|h: int| holders.to_set().contains(h) implies range.contains(h) by {
            let k = choose|k: int| 0 <= k < holders.len() && holders[k] == h;
            assert(0 <= holders[k] < existing.len());
        }
    }
    lemma_len_subset(holders.to_set(), range);
}

proof fn lemma_resource_home(user: Seq<char>)
    ensures
        resource_home(user).len() > 0,
        resource_home(user).last() != '/',
{
    reveal_strlit("mj-resources");
    reveal_strlit("/root");
    let rest = "mj-resources"@;
    let base = if user == "root"@ {
        "/root"@
    } else {
        path_below("/home"@, user)
    };
    assert(rest.len() == 12);
    assert(!absolute(rest));
    assert((base + rest).last() == rest.last());
    assert((base.push('/') + rest).last() == rest.last());
}

fn numbered_place(home: &str, name: &str, number: u128) -> (place: String)
    requires
        number >= 2,
    ensures
        place@ == resource_place(home@, name@, number as nat),
{
    let mut piece = joined(name, "-");
    piece.append(decimal_text(number).as_str());
    join_path(home, piece.as_str())
}

proof fn lemma_below_starts_with(base: Seq<char>, rest: Seq<char>)
    requires
        !absolute(rest),
    ensures
        base.is_prefix_of(path_below(base, rest)),
        base.len() > 0 && base.last() != '/' ==> base.push('/').is_prefix_of(
            path_below(base, rest),
        ),
{
}

/// On anything but an instance a directory goes where it would by default.
pub proof fn law_default_place(
    target: TargetTemplateView,
    default: Seq<char>,
    existing: Seq<AdditionalMountView>,
)
    requires
        target.kind != TargetKind::AwsEc2,
    ensures
        resource_destination(target, default, existing) == default,
{
}

/// On an instance a directory goes to no place that another goes to, and under
/// its own name where that is free.
pub proof fn law_instance_place_free(
    target: TargetTemplateView,
    default: Seq<char>,
    existing: Seq<AdditionalMountView>,
)
    requires
        target.kind == TargetKind::AwsEc2,
    ensures
        ({
            let place = resource_destination(target, default, existing);
            let plain = resource_home(target.ssh_user).push('/') + resource_name(default);
            let free = forall|i: int|
                0 <= i < existing.len() ==> !same_path(
                    (#[trigger] existing[i]).destination,
                    plain,
                );
            &&& forall|i: int|
                0 <= i < existing.len() ==> !same_path((#[trigger] existing[i]).destination, place)
            &&& free ==> place == plain
        }),
{
    let home = resource_home(target.ssh_user);
    let name = resource_name(default);
    let plain = home.push('/') + name;
    lemma_resource_home(target.ssh_user);
    lemma_file_name_plain(default);
    assert(name.contains(name[0]));
    assert(resource_place(home, name, 1) == plain);
    if !taken(existing, plain) {
        assert(first_free(existing, home, name, 1));
        lemma_free_number(existing, home, name, 1);
    }
    lemma_free_place_exists(existing, home, name, 1);
    let number = choose|number: nat| first_free(existing, home, name, number);
    lemma_free_number(existing, home, name, number);
    let place = resource_destination(target, default, existing);
    assert forall|i: int| 0 <= i < existing.len() implies !same_path(
        (#[trigger] existing[i]).destination,
        place,
    ) by {
        if same_path(existing[i].destination, place) {
            assert(taken(existing, place));
        }
    }
}

/// Where all places before `number` are taken, some place from there on is the
/// first free one.
proof fn lemma_free_place_exists(
    existing: Seq<AdditionalMountView>,
    home: Seq<char>,
    name: Seq<char>,
    number: nat,
)
    requires
        1 <= number <= existing.len() + 1,
        !name.contains('/'),
        names_something(name),
        home.len() > 0,
        home.last() != '/',
        forall|earlier: nat|
            1 <= earlier < number ==> taken(existing, #[trigger] resource_place(home, name, earlier)),
    ensures
        exists|free: nat| first_free(existing, home, name, free),
    decreases existing.len() + 1 - number,
{
    if taken(existing, resource_place(home, name, number)) {
        lemma_some_place_free(existing, home, name, number);
        lemma_free_place_exists(existing, home, name, number + 1);
    } else {
        assert(first_free(existing, home, name, number));
    }
}

/// An instance keeps attached directories below its user's home: that of root
/// where root logs in, else one below `/home`. A user's name that is itself an
/// absolute path is taken for the home.
pub proof fn law_instance_place_below_home(
    target: TargetTemplateView,
    default: Seq<char>,
    existing: Seq<AdditionalMountView>,
)
    requires
        target.kind == TargetKind::AwsEc2,
        !absolute(target.ssh_user),
    ensures
        resource_home(target.ssh_user).push('/').is_prefix_of(
            resource_destination(target, default, existing),
        ),
        target.ssh_user == "root"@ ==> "/root/"@.is_prefix_of(resource_home(target.ssh_user)),
        target.ssh_user != "root"@ ==> "/home/"@.is_prefix_of(resource_home(target.ssh_user)),
{
    reveal_strlit("/root");
    reveal_strlit("/root/");
    reveal_strlit("/home");
    reveal_strlit("/home/");
    reveal_strlit("mj-resources");
    let user = target.ssh_user;
    let home = resource_home(user);
    let name = resource_name(default);
    let number = free_number(existing, home, name);
    lemma_resource_home(user);
    lemma_file_name_plain(default);
    assert(name[0] != '/') by {
        assert(!name.contains('/'));
    }
    let last = if number < 2 {
        name
    } else {
        name + "-"@ + decimal(number)
    };
    assert(last[0] == name[0]);
    lemma_below_starts_with(home, last);
    assert("/home"@.push('/') =~= "/home/"@);
    assert("/root"@.push('/') =~= "/root/"@);
    if user == "root"@ {
        lemma_below_starts_with("/root"@, "mj-resources"@);
    } else {
        let base = path_below("/home"@, user);
        lemma_below_starts_with("/home"@, user);
        lemma_below_starts_with(base, "mj-resources"@);
        assert("/home/"@.is_prefix_of(base));
        assert(base.is_prefix_of(home));
    }
}

/// Where a directory goes when it is attached, given where it would go by
/// default.
pub fn default_resource_destination(
    target: &TargetTemplate,
    default: &str,
    existing: &Vec<AdditionalMount>,
) -> (destination: String)
    ensures
        destination@ == resource_destination(target@, default@, existing.deep_view()),
        target.kind == TargetKind::AwsEc2 ==> !taken(existing.deep_view(), destination@),
{
    if target.kind != TargetKind::AwsEc2 {
        return owned(default);
    }
    proof {
        lemma_file_name_plain(default@);
        lemma_resource_home(target.ssh_user@);
    }
    let basename = match last_name(default) {
        Some(name) => name,
        None => owned("resource"),
    };
    let name = basename.as_str();
    let user_home = if same_text(target.ssh_user.as_str(), "root") {
        owned("/root")
    } else {
        join_path("/home", target.ssh_user.as_str())
    };
    let home = join_path(user_home.as_str(), "mj-resources");
    let ghost mounts = existing.deep_view();
    let base = join_path(home.as_str(), name);
    assert(base@ == resource_place(home@, name@, 1));
    if !is_taken(existing, base.as_str()) {
        proof {
            assert(first_free(mounts, home@, name@, 1));
            lemma_free_number(mounts, home@, name@, 1);
        }
        return base;
    }
    let mut number: u128 = 2;
    loop
        invariant
            2 <= number <= existing.len() + 1,
            mounts == existing.deep_view(),
            mounts.len() == existing.len(),
            !name@.contains('/'),
            names_something(name@),
            home@.len() > 0,
            home@.last() != '/',
            home@ == resource_home(target.ssh_user@),
            name@ == resource_name(default@),
            target.kind == TargetKind::AwsEc2,
            forall|earlier: nat|
                1 <= earlier < number ==> taken(
                    mounts,
                    #[trigger] resource_place(home@, name@, earlier),
                ),
        decreases existing.len() + 2 - number,
    {
        let candidate = numbered_place(home.as_str(), name, number);
        if !is_taken(existing, candidate.as_str()) {
            proof {
                assert(first_free(mounts, home@, name@, number as nat));
                lemma_free_number(mounts, home@, name@, number as nat);
            }
            return candidate;
        }
        proof {
            lemma_some_place_free(mounts, home@, name@, number as nat);
        }
        number = number + 1;
    }
}

} // verus!
