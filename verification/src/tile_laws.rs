//! What holds of every tiling: panes neither overlap nor leave gaps, closing
//! undoes splitting, and editing one pane leaves the others where they are.

#[allow(unused_imports)]
use vstd::arithmetic::power2::pow2;
use vstd::prelude::*;

#[allow(unused_imports)]
use crate::geometry::{Direction, Rect};
#[allow(unused_imports)]
use crate::ratio::{
    even_share, law_even_share_halves, law_settled_is_share, law_share_grows_with_length,
    law_share_grows_with_ratio, law_share_nearest, law_step_follows_sign, lemma_share_bounds,
    lemma_share_within, settled_ratio, split_ratio, Ratio,
};
#[allow(unused_imports)]
use crate::tile_layout::{
    divides, halves, ids_of, keeps_shares, large_enough, lays_out, pane_rect, panes_of, raises,
    ratio_at, ratios_of, resized_by, same_ratio, same_ratios, same_tree, split_tree, splits_of,
    with_ratio_at, without, LayoutView, Node, PaneId, PaneInfo, SplitView,
};
#[allow(unused_imports)]
use crate::tile_navigation::{
    axis_of, law_boundary_at_edge_found, law_moved_boundary_at_edge, measurable, nearest_index,
    opposite, NavDirection,
};

verus! {

// --- Finding panes in a layout ---

/// A tree holds at least one pane.
pub proof fn law_some_pane(node: Node)
    ensures
        ids_of(node).len() > 0,
    decreases node,
{
    if let Node::Split { first, second, .. } = node {
        law_some_pane(*first);
        law_some_pane(*second);
    }
}

/// Laying a tree out gives every pane one rectangle, in tree order.
pub proof fn law_every_pane_laid_out(node: Node, area: Rect, focus: PaneId)
    ensures
        panes_of(node, area, focus).map_values(|pane: PaneInfo| pane.id) == ids_of(node),
        forall|i: int|
            0 <= i < ids_of(node).len() ==> {
                let pane = #[trigger] panes_of(node, area, focus)[i];
                pane.is_focused == (pane.id == focus)
            },
    decreases node,
{
    let ids = panes_of(node, area, focus).map_values(|pane: PaneInfo| pane.id);
    match node {
        Node::Pane(id) => {
            assert(ids =~= seq![id]);
        },
        Node::Split { direction, ratio, first, second } => {
            let (a, b) = halves(area, direction, ratio);
            law_every_pane_laid_out(*first, a, focus);
            law_every_pane_laid_out(*second, b, focus);
            let pa = panes_of(*first, a, focus);
            let pb = panes_of(*second, b, focus);
            assert(ids =~= pa.map_values(|pane: PaneInfo| pane.id) + pb.map_values(
                |pane: PaneInfo| pane.id,
            ));
            assert forall|i: int| 0 <= i < ids_of(node).len() implies {
                let pane = #[trigger] panes_of(node, area, focus)[i];
                pane.is_focused == (pane.id == focus)
            } by {
                if i < pa.len() {
                    assert(panes_of(node, area, focus)[i] == pa[i]);
                    assert(ids_of(*first).len() == pa.len());
                } else {
                    assert(panes_of(node, area, focus)[i] == pb[i - pa.len()]);
                    assert(ids_of(*second).len() == pb.len());
                }
            }
        },
    }
}

/// What [`pane_rect`] finds is the rectangle of a pane with that id, and it
/// finds one whenever there is one.
pub proof fn lemma_pane_rect_found(panes: Seq<PaneInfo>, target: PaneId)
    ensures
        match pane_rect(panes, target) {
            Some(rect) => exists|i: int|
                0 <= i < panes.len() && (#[trigger] panes[i]).id == target && panes[i].rect == rect,
            None => forall|i: int| 0 <= i < panes.len() ==> (#[trigger] panes[i]).id != target,
        },
    decreases panes.len(),
{
    if panes.len() > 0 && panes[0].id != target {
        let rest = panes.drop_first();
        lemma_pane_rect_found(rest, target);
        match pane_rect(rest, target) {
            Some(rect) => {
                let i = choose|i: int|
                    0 <= i < rest.len() && (#[trigger] rest[i]).id == target && rest[i].rect
                        == rect;
                assert(panes[i + 1] == rest[i]);
            },
            None => {
                assert forall|i: int| 0 <= i < panes.len() implies (#[trigger] panes[i]).id
                    != target by {
                    if i > 0 {
                        assert(panes[i] == rest[i - 1]);
                    }
                }
            },
        }
    }
}

/// Looking for a pane in two lists one after the other.
pub proof fn lemma_pane_rect_concat(a: Seq<PaneInfo>, b: Seq<PaneInfo>, target: PaneId)
    ensures
        pane_rect(a + b, target) == match pane_rect(a, target) {
            Some(rect) => Some(rect),
            None => pane_rect(b, target),
        },
    decreases a.len(),
{
    if a.len() == 0 {
        assert(a + b =~= b);
    } else {
        assert((a + b)[0] == a[0]);
        assert((a + b).drop_first() =~= a.drop_first() + b);
        lemma_pane_rect_concat(a.drop_first(), b, target);
    }
}

/// A pane has a rectangle exactly when it is in the tree.
pub proof fn lemma_pane_rect_ids(node: Node, area: Rect, focus: PaneId, target: PaneId)
    ensures
        pane_rect(panes_of(node, area, focus), target).is_some() == ids_of(node).contains(target),
{
    let panes = panes_of(node, area, focus);
    law_every_pane_laid_out(node, area, focus);
    lemma_pane_rect_found(panes, target);
    let ids = panes.map_values(|pane: PaneInfo| pane.id);
    assert(forall|i: int| 0 <= i < panes.len() ==> #[trigger] ids[i] == panes[i].id);
    if let Some(rect) = pane_rect(panes, target) {
        let i = choose|i: int|
            0 <= i < panes.len() && (#[trigger] panes[i]).id == target && panes[i].rect == rect;
        assert(ids[i] == target);
    } else if ids.contains(target) {
        let i = choose|i: int| 0 <= i < ids.len() && ids[i] == target;
        assert(panes[i].id == target);
    }
}

/// Which pane has the focus does not move any rectangle.
pub proof fn law_focus_keeps_rects(
    node: Node,
    area: Rect,
    focus: PaneId,
    other: PaneId,
    target: PaneId,
)
    ensures
        pane_rect(panes_of(node, area, focus), target) == pane_rect(
            panes_of(node, area, other),
            target,
        ),
    decreases node,
{
    match node {
        Node::Pane(_) => {
            reveal_with_fuel(pane_rect, 2);
        },
        Node::Split { direction, ratio, first, second } => {
            let (a, b) = halves(area, direction, ratio);
            law_focus_keeps_rects(*first, a, focus, other, target);
            law_focus_keeps_rects(*second, b, focus, other, target);
            lemma_pane_rect_concat(
                panes_of(*first, a, focus),
                panes_of(*second, b, focus),
                target,
            );
            lemma_pane_rect_concat(
                panes_of(*first, a, other),
                panes_of(*second, b, other),
                target,
            );
        },
    }
}

// --- Staying within the coordinates ---

/// Every pane of a layout has its far edges within the coordinates, unless
/// the area itself is the only pane and does not.
pub proof fn law_panes_fit(node: Node, area: Rect, focus: PaneId)
    requires
        area.fits() || node is Split,
    ensures
        forall|i: int|
            0 <= i < panes_of(node, area, focus).len() ==> (#[trigger] panes_of(
                node,
                area,
                focus,
            )[i]).rect.fits(),
    decreases node,
{
    if let Node::Split { direction, ratio, first, second } = node {
        let (a, b) = halves(area, direction, ratio);
        law_panes_fit(*first, a, focus);
        law_panes_fit(*second, b, focus);
        let pa = panes_of(*first, a, focus);
        let pb = panes_of(*second, b, focus);
        assert forall|i: int| 0 <= i < panes_of(node, area, focus).len() implies (
        #[trigger] panes_of(node, area, focus)[i]).rect.fits() by {
            if i < pa.len() {
                assert(panes_of(node, area, focus)[i] == pa[i]);
            } else {
                assert(panes_of(node, area, focus)[i] == pb[i - pa.len()]);
            }
        }
    }
}

/// A rectangle within the coordinates can be divided by any share.
pub proof fn law_fitting_divides(area: Rect, direction: Direction, ratio: Ratio)
    requires
        area.fits(),
        ratio.is_share(),
    ensures
        divides(area, direction, ratio),
{
    lemma_share_within(area.width as nat, ratio);
    lemma_share_within(area.height as nat, ratio);
}

/// A tree whose ratios are all shares can be laid out in any area that lies
/// within the coordinates, and each of its panes can be halved there.
pub proof fn law_shares_lay_out(node: Node, area: Rect)
    requires
        area.fits(),
        keeps_shares(node),
    ensures
        lays_out(node, area),
        forall|direction: Direction| #[trigger] divides(area, direction, even_share()),
    decreases node,
{
    lemma_share_bounds();
    assert forall|direction: Direction| #[trigger] divides(area, direction, even_share()) by {
        law_fitting_divides(area, direction, even_share());
    }
    if let Node::Split { direction, ratio, first, second } = node {
        law_fitting_divides(area, direction, ratio);
        let (a, b) = halves(area, direction, ratio);
        law_shares_lay_out(*first, a);
        law_shares_lay_out(*second, b);
    }
}

proof fn lemma_splits_fit(node: Node, area: Rect, path: Seq<bool>)
    requires
        area.fits(),
    ensures
        forall|i: int|
            0 <= i < splits_of(node, area, path).len() ==> (#[trigger] splits_of(
                node,
                area,
                path,
            )[i]).area.fits(),
    decreases node,
{
    if let Node::Split { direction, ratio, first, second } = node {
        let (a, b) = halves(area, direction, ratio);
        lemma_splits_fit(*first, a, path.push(false));
        lemma_splits_fit(*second, b, path.push(true));
        let sa = splits_of(*first, a, path.push(false));
        let sb = splits_of(*second, b, path.push(true));
        let all = splits_of(node, area, path);
        assert forall|i: int| 0 <= i < all.len() implies (#[trigger] all[i]).area.fits() by {
            if i == 0 {
                assert(all[0].area == area);
            } else if i - 1 < sa.len() {
                assert(all[i] == sa[i - 1]);
            } else {
                assert(all[i] == sb[i - 1 - sa.len()]);
            }
        }
    }
}

/// Every boundary of a layout can be measured against a pane of it.
pub proof fn lemma_splits_measurable(node: Node, area: Rect, nav: NavDirection, focused: Rect)
    requires
        node is Split ==> focused.fits(),
        node matches Node::Split { direction, .. } ==> direction == axis_of(nav) ==> (
        match direction {
            Direction::Horizontal => area.y + area.height <= 65535,
            Direction::Vertical => area.x + area.width <= 65535,
        }),
    ensures
        forall|i: int|
            0 <= i < splits_of(node, area, seq![]).len() ==> measurable(
                #[trigger] splits_of(node, area, seq![])[i],
                focused,
                nav,
            ),
{
    if let Node::Split { direction, ratio, first, second } = node {
        let path = Seq::<bool>::empty();
        let (a, b) = halves(area, direction, ratio);
        lemma_splits_fit(*first, a, path.push(false));
        lemma_splits_fit(*second, b, path.push(true));
        let sa = splits_of(*first, a, path.push(false));
        let sb = splits_of(*second, b, path.push(true));
        let all = splits_of(node, area, path);
        assert forall|i: int| 0 <= i < all.len() implies measurable(
            #[trigger] all[i],
            focused,
            nav,
        ) by {
            if i == 0 {
                assert(all[0].area == area && all[0].direction == direction);
            } else if i - 1 < sa.len() {
                assert(all[i] == sa[i - 1]);
            } else {
                assert(all[i] == sb[i - 1 - sa.len()]);
            }
        }
    }
}

// --- Ratios ---

/// A boundary's path leads to the split it was computed from.
pub proof fn law_splits_have_ratios(node: Node, area: Rect, path: Seq<bool>, i: int)
    requires
        0 <= i < splits_of(node, area, path).len(),
    ensures
        ({
            let view = splits_of(node, area, path)[i];
            &&& view.path.len() >= path.len()
            &&& view.path.take(path.len() as int) == path
            &&& ratio_at(node, view.path.skip(path.len() as int)) == Some(view.ratio)
        }),
    decreases node,
{
    if let Node::Split { direction, ratio, first, second } = node {
        let (a, b) = halves(area, direction, ratio);
        let sa = splits_of(*first, a, path.push(false));
        let sb = splits_of(*second, b, path.push(true));
        let all = splits_of(node, area, path);
        let view = all[i];
        let n = path.len() as int;
        if i == 0 {
            assert(view.path == path);
            assert(path.take(n) =~= path);
            assert(path.skip(n).len() == 0);
        } else {
            let (part, j, step) = if i - 1 < sa.len() {
                (*first, i - 1, false)
            } else {
                (*second, i - 1 - sa.len(), true)
            };
            let longer = path.push(step);
            if step {
                law_splits_have_ratios(*second, b, longer, j);
                assert(view == sb[j]);
            } else {
                law_splits_have_ratios(*first, a, longer, j);
                assert(view == sa[j]);
            }
            assert(view.path.take(n + 1) == longer);
            assert(view.path.take(n) =~= view.path.take(n + 1).take(n));
            assert(longer.take(n) =~= path);
            assert(view.path[n] == view.path.take(n + 1)[n]);
            assert(view.path.skip(n).drop_first() =~= view.path.skip(n + 1));
            assert(view.path.skip(n)[0] == step);
        }
    }
}

/// Setting a ratio moves no pane within the tree.
pub proof fn law_ratio_keeps_ids(node: Node, path: Seq<bool>, value: Ratio)
    ensures
        ids_of(with_ratio_at(node, path, value)) == ids_of(node),
    decreases node,
{
    if let Node::Split { first, second, .. } = node {
        if path.len() > 0 {
            law_ratio_keeps_ids(*first, path.drop_first(), value);
            law_ratio_keeps_ids(*second, path.drop_first(), value);
        }
    }
}

/// A ratio that was set is read back.
pub proof fn law_ratio_read_back(node: Node, path: Seq<bool>, value: Ratio)
    ensures
        ratio_at(node, path).is_some() ==> ratio_at(with_ratio_at(node, path, value), path)
            == Some(value),
        ratio_at(node, path).is_none() ==> with_ratio_at(node, path, value) == node,
    decreases node,
{
    if let Node::Split { first, second, .. } = node {
        if path.len() > 0 {
            law_ratio_read_back(*first, path.drop_first(), value);
            law_ratio_read_back(*second, path.drop_first(), value);
        }
    }
}

/// Splitting keeps every ratio between a tenth and nine tenths, whatever
/// ratio is asked for.
pub proof fn law_split_keeps_shares(
    node: Node,
    target: PaneId,
    direction: Direction,
    new_id: PaneId,
    ratio: Ratio,
)
    requires
        keeps_shares(node),
    ensures
        keeps_shares(split_tree(node, target, direction, new_id, split_ratio(ratio))),
    decreases node,
{
    law_settled_is_share(ratio, ratio);
    reveal_with_fuel(keeps_shares, 2);
    if let Node::Split { first, second, .. } = node {
        law_split_keeps_shares(*first, target, direction, new_id, ratio);
        law_split_keeps_shares(*second, target, direction, new_id, ratio);
    }
}

/// Closing a pane keeps every ratio between a tenth and nine tenths.
pub proof fn law_close_keeps_shares(node: Node, target: PaneId)
    requires
        keeps_shares(node),
    ensures
        without(node, target) matches Some(rest) ==> keeps_shares(rest),
    decreases node,
{
    if let Node::Split { first, second, .. } = node {
        law_close_keeps_shares(*first, target);
        law_close_keeps_shares(*second, target);
    }
}

/// Giving a split a ratio between a tenth and nine tenths keeps every ratio
/// there.
pub proof fn law_set_ratio_keeps_shares(node: Node, path: Seq<bool>, value: Ratio)
    requires
        keeps_shares(node),
        value.is_share(),
    ensures
        keeps_shares(with_ratio_at(node, path, value)),
    decreases node,
{
    if let Node::Split { first, second, .. } = node {
        if path.len() > 0 {
            law_set_ratio_keeps_shares(*first, path.drop_first(), value);
            law_set_ratio_keeps_shares(*second, path.drop_first(), value);
        }
    }
}

// --- Splitting and closing ---

/// Splitting a pane adds the new one and keeps the others; no pane occurs
/// twice after it if none did before.
pub proof fn law_split_ids(
    node: Node,
    target: PaneId,
    direction: Direction,
    new_id: PaneId,
    ratio: Ratio,
)
    requires
        ids_of(node).no_duplicates(),
        !ids_of(node).contains(new_id),
    ensures
        ({
            let after = ids_of(split_tree(node, target, direction, new_id, ratio));
            &&& after.no_duplicates()
            &&& forall|id: PaneId| #[trigger]
                after.contains(id) == (ids_of(node).contains(id) || (id == new_id && ids_of(
                    node,
                ).contains(target)))
            &&& after.len() == ids_of(node).len() + if ids_of(node).contains(target) {
                1int
            } else {
                0
            }
        }),
    decreases node,
{
    let after = ids_of(split_tree(node, target, direction, new_id, ratio));
    match node {
        Node::Pane(id) => {
            assert(ids_of(node)[0] == id);
            if id == target {
                reveal_with_fuel(ids_of, 3);
                assert(after =~= seq![id, new_id]);
                assert(after[0] == id && after[1] == new_id);
            }
        },
        Node::Split { first, second, .. } => {
            let f = ids_of(*first);
            let s = ids_of(*second);
            lemma_parts_distinct(f, s);
            lemma_contains_concat(f, s);
            law_split_ids(*first, target, direction, new_id, ratio);
            law_split_ids(*second, target, direction, new_id, ratio);
            let fa = ids_of(split_tree(*first, target, direction, new_id, ratio));
            let sa = ids_of(split_tree(*second, target, direction, new_id, ratio));
            assert(after == fa + sa);
            assert(ids_of(node) == f + s);
            lemma_contains_concat(fa, sa);
            assert forall|i: int, j: int| 0 <= i < j < after.len() implies after[i] != after[j] by {
                if i < fa.len() && j >= fa.len() {
                    assert(fa.contains(after[i]) && sa.contains(after[j]));
                    assert(f.contains(target) ==> !s.contains(target));
                } else if j < fa.len() {
                    assert(fa[i] != fa[j]);
                } else {
                    assert(sa[i - fa.len()] != sa[j - fa.len()]);
                }
            }
            assert(f.contains(target) ==> !s.contains(target));
        },
    }
}

proof fn lemma_contains_concat(a: Seq<PaneId>, b: Seq<PaneId>)
    ensures
        forall|id: PaneId| #[trigger] (a + b).contains(id) == (a.contains(id) || b.contains(id)),
{
    assert forall|id: PaneId| #[trigger]
        (a + b).contains(id) == (a.contains(id) || b.contains(id)) by {
        if a.contains(id) {
            let i = choose|i: int| 0 <= i < a.len() && a[i] == id;
            assert((a + b)[i] == id);
        }
        if b.contains(id) {
            let i = choose|i: int| 0 <= i < b.len() && b[i] == id;
            assert((a + b)[a.len() + i] == id);
        }
    }
}

proof fn lemma_parts_distinct(a: Seq<PaneId>, b: Seq<PaneId>)
    requires
        (a + b).no_duplicates(),
    ensures
        a.no_duplicates(),
        b.no_duplicates(),
        forall|id: PaneId| !(#[trigger] a.contains(id) && #[trigger] b.contains(id)),
{
    let all = a + b;
    assert forall|i: int, j: int| 0 <= i < a.len() && 0 <= j < a.len() && i != j implies a[i]
        != a[j] by {
        assert(all[i] == a[i] && all[j] == a[j]);
    }
    assert forall|i: int, j: int| 0 <= i < b.len() && 0 <= j < b.len() && i != j implies b[i]
        != b[j] by {
        assert(all[a.len() + i] == b[i] && all[a.len() + j] == b[j]);
    }
    assert forall|id: PaneId| !(#[trigger] a.contains(id) && #[trigger] b.contains(id)) by {
        if a.contains(id) && b.contains(id) {
            let i = choose|i: int| 0 <= i < a.len() && a[i] == id;
            let j = choose|j: int| 0 <= j < b.len() && b[j] == id;
            assert(all[i] == all[a.len() + j]);
        }
    }
}

/// Removing a pane leaves the others, in their order; nothing is left only
/// where there was no other.
pub proof fn law_without_ids(node: Node, target: PaneId)
    ensures
        match without(node, target) {
            Some(rest) => ids_of(rest) == ids_of(node).filter(|id: PaneId| id != target),
            None => ids_of(node).filter(|id: PaneId| id != target).len() == 0,
        },
    decreases node,
{
    let keep = |id: PaneId| id != target;
    match node {
        Node::Pane(id) => {
            reveal(Seq::filter);
            let one = ids_of(node);
            assert(one.drop_last() =~= Seq::empty());
            assert(one.drop_last().filter(keep) =~= Seq::empty());
            assert(one.filter(keep) =~= if keep(id) {
                one
            } else {
                Seq::empty()
            });
        },
        Node::Split { first, second, .. } => {
            law_without_ids(*first, target);
            law_without_ids(*second, target);
            let f = ids_of(*first);
            let s = ids_of(*second);
            Seq::filter_distributes_over_add(f, s, keep);
            let ff = f.filter(keep);
            let sf = s.filter(keep);
            if without(*first, target) is None {
                assert(ff + sf =~= sf);
            } else if without(*second, target) is None {
                assert(ff + sf =~= ff);
            }
        },
    }
}

proof fn lemma_filter_keeps_distinct(ids: Seq<PaneId>, keep: spec_fn(PaneId) -> bool)
    requires
        ids.no_duplicates(),
    ensures
        ids.filter(keep).no_duplicates(),
        forall|id: PaneId| #[trigger] ids.filter(keep).contains(id) == (ids.contains(id) && keep(
            id,
        )),
    decreases ids.len(),
{
    reveal(Seq::filter);
    if ids.len() > 0 {
        let rest = ids.drop_last();
        assert(rest.no_duplicates());
        lemma_filter_keeps_distinct(rest, keep);
        let kept = rest.filter(keep);
        let last = ids.last();
        assert(!rest.contains(last)) by {
            if rest.contains(last) {
                let i = choose|i: int| 0 <= i < rest.len() && rest[i] == last;
                assert(ids[i] == ids[ids.len() - 1]);
            }
        }
        assert forall|id: PaneId| ids.contains(id) == (rest.contains(id) || id == last) by {
            if rest.contains(id) {
                let i = choose|i: int| 0 <= i < rest.len() && rest[i] == id;
                assert(ids[i] == id);
            }
            if id == last {
                assert(ids[ids.len() - 1] == id);
            }
            if ids.contains(id) && id != last {
                let i = choose|i: int| 0 <= i < ids.len() && ids[i] == id;
                assert(rest[i] == id);
            }
        }
        assert forall|id: PaneId| #[trigger]
            ids.filter(keep).contains(id) == (ids.contains(id) && keep(id)) by {
            if keep(last) {
                let all = kept.push(last);
                assert(ids.filter(keep) == all);
                if kept.contains(id) {
                    let i = choose|i: int| 0 <= i < kept.len() && kept[i] == id;
                    assert(all[i] == id);
                }
                if id == last {
                    assert(all[all.len() - 1] == id);
                }
                if all.contains(id) && id != last {
                    let i = choose|i: int| 0 <= i < all.len() && all[i] == id;
                    assert(kept[i] == id);
                }
            }
        }
        if keep(last) {
            let all = kept.push(last);
            assert forall|i: int, j: int| 0 <= i < all.len() && 0 <= j < all.len() && i
                != j implies all[i] != all[j] by {
                if i == kept.len() {
                    assert(kept.contains(kept[j]));
                } else if j == kept.len() {
                    assert(kept.contains(kept[i]));
                } else {
                    assert(kept[i] != kept[j]);
                }
            }
        }
    }
}

/// Removing a pane from a tree that holds no pane twice: the result holds
/// none twice, and it holds what the tree held but for that pane.
pub proof fn law_without_distinct(node: Node, target: PaneId)
    requires
        ids_of(node).no_duplicates(),
    ensures
        match without(node, target) {
            Some(rest) => {
                &&& ids_of(rest).no_duplicates()
                &&& forall|id: PaneId| #[trigger]
                    ids_of(rest).contains(id) == (ids_of(node).contains(id) && id != target)
            },
            None => forall|id: PaneId| #[trigger] ids_of(node).contains(id) ==> id == target,
        },
{
    law_without_ids(node, target);
    lemma_filter_keeps_distinct(ids_of(node), |id: PaneId| id != target);
    if without(node, target) is None {
        let none = ids_of(node).filter(|id: PaneId| id != target);
        assert forall|id: PaneId| #[trigger] ids_of(node).contains(id) implies id == target by {
            if id != target {
                assert(none.contains(id));
            }
        }
    }
}

/// Removing a pane that is not there changes nothing.
pub proof fn law_without_absent(node: Node, target: PaneId)
    requires
        !ids_of(node).contains(target),
    ensures
        without(node, target) == Some(node),
    decreases node,
{
    match node {
        Node::Pane(id) => {
            assert(ids_of(node)[0] == id);
        },
        Node::Split { first, second, .. } => {
            lemma_contains_concat(ids_of(*first), ids_of(*second));
            law_without_absent(*first, target);
            law_without_absent(*second, target);
        },
    }
}

/// Closing the pane that a split made gives back the tree from before the
/// split.
pub proof fn law_close_undoes_split(
    node: Node,
    target: PaneId,
    direction: Direction,
    new_id: PaneId,
    ratio: Ratio,
)
    requires
        !ids_of(node).contains(new_id),
    ensures
        without(split_tree(node, target, direction, new_id, ratio), new_id) == Some(node),
    decreases node,
{
    match node {
        Node::Pane(id) => {
            assert(ids_of(node)[0] == id);
            reveal_with_fuel(without, 3);
        },
        Node::Split { first, second, .. } => {
            lemma_contains_concat(ids_of(*first), ids_of(*second));
            law_close_undoes_split(*first, target, direction, new_id, ratio);
            law_close_undoes_split(*second, target, direction, new_id, ratio);
        },
    }
}

/// Splitting a pane, focusing the new one and closing it again leaves the
/// tree and the focus as they were.
pub proof fn law_close_returns_to_opener(
    layout: LayoutView,
    direction: Direction,
    ratio: Ratio,
)
    requires
        layout.well_formed(),
        layout.next_id < u32::MAX,
    ensures
        ({
            let new_id = PaneId(layout.next_id);
            let opened = (LayoutView {
                root: split_tree(layout.root, layout.focus, direction, new_id, ratio),
                next_id: (layout.next_id + 1) as u32,
                ..layout
            }).focusing(new_id);
            let closed = opened.closing_focused();
            closed.root == layout.root && closed.focus == layout.focus && closed.prev_focus is None
        }),
{
    let new_id = PaneId(layout.next_id);
    assert(!layout.ids().contains(new_id));
    law_split_ids(layout.root, layout.focus, direction, new_id, ratio);
    law_close_undoes_split(layout.root, layout.focus, direction, new_id, ratio);
    law_some_pane(layout.root);
}

/// The pane that takes over from the focused one is another pane of the
/// layout.
pub proof fn law_successor(layout: LayoutView)
    requires
        layout.well_formed(),
        layout.ids().len() > 1,
    ensures
        layout.successor() != layout.focus,
        layout.ids().contains(layout.successor()),
{
    let ids = layout.ids();
    ids.index_of_first_ensures(layout.focus);
    let position = ids.index_of_first(layout.focus).unwrap();
    assert(ids[position] == layout.focus);
    if position + 1 < ids.len() {
        assert(ids.contains(ids[position + 1]));
    } else {
        assert(ids.contains(ids[position - 1]));
    }
}

/// Focusing a pane remembers the one that had the focus, and moves no pane.
pub proof fn law_focus_moves(layout: LayoutView, id: PaneId)
    ensures
        layout.focusing(id).focus == id,
        layout.focusing(id).root == layout.root,
        layout.focusing(id).next_id == layout.next_id,
        id != layout.focus ==> layout.focusing(id).prev_focus == Some(layout.focus),
        id == layout.focus ==> layout.focusing(id) == layout,
{
}

/// Only a pane of the layout gets the focus.
pub proof fn law_asked_focus(layout: LayoutView, id: PaneId)
    ensures
        layout.ids().contains(id) ==> layout.focus_asked(id).focus == id,
        !layout.ids().contains(id) ==> layout.focus_asked(id) == layout,
        layout.focus_asked(id).root == layout.root,
        layout.ids().contains(id) && id != layout.focus ==> layout.focus_asked(id).prev_focus
            == Some(layout.focus),
{
}

/// A split that is asked for a ratio between a tenth and nine tenths has it
/// then; every other split keeps its own, no pane comes or goes, and where
/// there is no such split nothing changes.
pub proof fn law_asked_ratio_set(
    layout: LayoutView,
    path: Seq<bool>,
    ratio: Ratio,
    other: Seq<bool>,
)
    ensures
        ({
            let after = layout.ratio_asked(path, ratio);
            &&& ratio_at(layout.root, path) is None ==> after == layout
            &&& ratio_at(layout.root, path) is Some && ratio.is_share() ==> ratio_at(
                after.root,
                path,
            ) == Some(ratio)
            &&& other != path ==> ratio_at(after.root, other) == ratio_at(layout.root, other)
            &&& after.ids() == layout.ids() && after.focus == layout.focus
            &&& after.prev_focus == layout.prev_focus
        }),
{
    if let Some(current) = ratio_at(layout.root, path) {
        let settled = settled_ratio(current, ratio);
        law_settled_is_share(current, ratio);
        law_ratio_read_back(layout.root, path, settled);
        law_ratio_keeps_ids(layout.root, path, settled);
        if other != path {
            law_other_ratios_kept(layout.root, path, settled, other);
        }
    }
}

/// Closing the focused pane gives the focus to the pane that had it before, if
/// that is still there, and else to the next pane of the tree, or to the one
/// before where there is none.
pub proof fn law_focus_after_close(layout: LayoutView, i: int)
    requires
        layout.well_formed(),
        layout.ids().len() > 1,
        0 <= i < layout.ids().len(),
        layout.ids()[i] == layout.focus,
    ensures
        ({
            let ids = layout.ids();
            let after = layout.closing_focused();
            let back = layout.prev_focus is Some && layout.prev_focus != Some(layout.focus);
            &&& back ==> Some(after.focus) == layout.prev_focus
            &&& !back && i + 1 < ids.len() ==> after.focus == ids[i + 1]
            &&& !back && i + 1 == ids.len() ==> after.focus == ids[i - 1]
            &&& after.ids() == ids.filter(|id: PaneId| id != layout.focus)
            &&& after.prev_focus is None
        }),
{
    let ids = layout.ids();
    ids.index_of_first_ensures(layout.focus);
    let position = ids.index_of_first(layout.focus).unwrap();
    assert(position == i);
    law_without_ids(layout.root, layout.focus);
    law_without_distinct(layout.root, layout.focus);
    law_successor(layout);
    let keep = |id: PaneId| id != layout.focus;
    let heir = layout.successor();
    let at = choose|at: int| 0 <= at < ids.len() && ids[at] == heir;
    ids.lemma_filter_contains(keep, at);
}

/// Closing a pane without the focus leaves the focus where it is and takes out
/// that pane alone.
pub proof fn law_close_keeps_focus(layout: LayoutView, id: PaneId)
    requires
        layout.well_formed(),
        id != layout.focus,
    ensures
        ({
            let after = layout.closing(id);
            &&& after.focus == layout.focus
            &&& after.ids() == layout.ids().filter(|other: PaneId| other != id)
            &&& layout.prev_focus == Some(id) ==> layout.ids().contains(id)
                ==> after.prev_focus is None
            &&& layout.prev_focus != Some(id) ==> after.prev_focus == layout.prev_focus
        }),
{
    let ids = layout.ids();
    let keep = |other: PaneId| other != id;
    let at = choose|at: int| 0 <= at < ids.len() && ids[at] == layout.focus;
    ids.lemma_filter_contains(keep, at);
    law_without_ids(layout.root, id);
    if !ids.contains(id) {
        law_without_absent(layout.root, id);
    } else if ids.len() <= 1 {
        assert(ids[0] == layout.focus);
    }
}

/// The last pane is not closed.
pub proof fn law_last_pane_kept(layout: LayoutView, id: PaneId)
    requires
        layout.ids().len() <= 1,
    ensures
        layout.closing(id) == layout,
        layout.closing_focused() == layout,
{
}

/// Trees that are equal hold the same panes in the same order.
pub proof fn law_equal_trees_same_panes(a: Node, b: Node)
    requires
        same_tree(a, b),
    ensures
        ids_of(a) == ids_of(b),
        a is Pane == b is Pane,
    decreases a,
{
    if let Node::Split { first, second, .. } = a {
        if let Node::Split { first: left, second: right, .. } = b {
            law_equal_trees_same_panes(*first, *left);
            law_equal_trees_same_panes(*second, *right);
        }
    }
}

proof fn lemma_ratios_are_numbers(node: Node, path: Seq<bool>)
    requires
        keeps_shares(node),
    ensures
        forall|i: int|
            0 <= i < ratios_of(node, path).len() ==> !(#[trigger] ratios_of(node, path)[i]).1.nan(),
    decreases node,
{
    if let Node::Split { ratio, first, second, .. } = node {
        lemma_ratios_are_numbers(*first, path.push(false));
        lemma_ratios_are_numbers(*second, path.push(true));
        let left = ratios_of(*first, path.push(false));
        let right = ratios_of(*second, path.push(true));
        let all = ratios_of(node, path);
        assert forall|i: int| 0 <= i < all.len() implies !(#[trigger] all[i]).1.nan() by {
            if i == 0 {
                assert(all[i] == (path, ratio));
            } else if i <= left.len() {
                assert(all[i] == left[i - 1]);
            } else {
                assert(all[i] == right[i - 1 - left.len()]);
            }
        }
    }
}

proof fn lemma_same_ratios_joined(
    a: Seq<(Seq<bool>, Ratio)>,
    b: Seq<(Seq<bool>, Ratio)>,
    c: Seq<(Seq<bool>, Ratio)>,
    d: Seq<(Seq<bool>, Ratio)>,
)
    requires
        a.len() == b.len(),
    ensures
        same_ratios(a + c, b + d) == (same_ratios(a, b) && same_ratios(c, d)),
{
    if same_ratios(a + c, b + d) {
        assert forall|i: int| 0 <= i < a.len() implies (#[trigger] a[i]).0 == b[i].0 && same_ratio(
            a[i].1,
            b[i].1,
        ) by {
            assert((a + c)[i] == a[i] && (b + d)[i] == b[i]);
        }
        assert forall|i: int| 0 <= i < c.len() implies (#[trigger] c[i]).0 == d[i].0 && same_ratio(
            c[i].1,
            d[i].1,
        ) by {
            assert((a + c)[a.len() + i] == c[i] && (b + d)[b.len() + i] == d[i]);
        }
    }
}

/// Setting a ratio counts as a change exactly where it becomes another number.
pub proof fn law_changed_ratio_told(node: Node, path: Seq<bool>, value: Ratio, prefix: Seq<bool>)
    requires
        keeps_shares(node),
        ratio_at(node, path) is Some,
        value.is_share(),
    ensures
        ratios_of(with_ratio_at(node, path, value), prefix).len() == ratios_of(node, prefix).len(),
        same_ratios(
            ratios_of(with_ratio_at(node, path, value), prefix),
            ratios_of(node, prefix),
        ) <==> value.units() == ratio_at(node, path)->0.units(),
    decreases node,
{
    lemma_ratios_are_numbers(node, prefix);
    if let Node::Split { ratio, first, second, .. } = node {
        let left = ratios_of(*first, prefix.push(false));
        let right = ratios_of(*second, prefix.push(true));
        lemma_ratios_are_numbers(*first, prefix.push(false));
        lemma_ratios_are_numbers(*second, prefix.push(true));
        if path.len() == 0 {
            let one = seq![(prefix, value)];
            let other = seq![(prefix, ratio)];
            lemma_same_ratios_joined(one, other, left, left);
            lemma_same_ratios_joined(one + left, other + left, right, right);
            assert(one[0] == (prefix, value) && other[0] == (prefix, ratio));
        } else {
            let one = seq![(prefix, ratio)];
            let rest = path.drop_first();
            assert(one[0].1 == ratio);
            if path[0] {
                law_changed_ratio_told(*second, rest, value, prefix.push(true));
                let set = ratios_of(with_ratio_at(*second, rest, value), prefix.push(true));
                lemma_same_ratios_joined(one, one, left, left);
                lemma_same_ratios_joined(one + left, one + left, set, right);
            } else {
                law_changed_ratio_told(*first, rest, value, prefix.push(false));
                let set = ratios_of(with_ratio_at(*first, rest, value), prefix.push(false));
                lemma_same_ratios_joined(one, one, set, left);
                lemma_same_ratios_joined(one + set, one + left, right, right);
            }
        }
    }
}

proof fn lemma_single_rect(pane: PaneInfo, target: PaneId)
    ensures
        pane_rect(seq![pane], target) == if pane.id == target {
            Some(pane.rect)
        } else {
            None
        },
{
    assert(seq![pane].drop_first() =~= Seq::empty());
    assert(pane_rect(Seq::empty(), target) is None);
}

/// Splitting a pane divides its rectangle between it and the new one, and
/// leaves every other pane's rectangle alone.
pub proof fn law_split_rects(
    node: Node,
    area: Rect,
    focus: PaneId,
    target: PaneId,
    direction: Direction,
    new_id: PaneId,
    ratio: Ratio,
    other: PaneId,
)
    requires
        ids_of(node).no_duplicates(),
        !ids_of(node).contains(new_id),
        other != target,
        other != new_id,
    ensures
        ({
            let before = panes_of(node, area, focus);
            let after = panes_of(
                split_tree(node, target, direction, new_id, ratio),
                area,
                focus,
            );
            &&& pane_rect(after, other) == pane_rect(before, other)
            &&& pane_rect(before, target) matches Some(rect) ==> {
                &&& pane_rect(after, target) == Some(halves(rect, direction, ratio).0)
                &&& pane_rect(after, new_id) == Some(halves(rect, direction, ratio).1)
            }
        }),
    decreases node,
{
    let tree = split_tree(node, target, direction, new_id, ratio);
    let before = panes_of(node, area, focus);
    let after = panes_of(tree, area, focus);
    match node {
        Node::Pane(id) => {
            assert(ids_of(node)[0] == id);
            let whole = PaneInfo { id, rect: area, is_focused: id == focus };
            assert(before == seq![whole]);
            lemma_single_rect(whole, other);
            lemma_single_rect(whole, target);
            if id == target {
                let (a, b) = halves(area, direction, ratio);
                let pa = PaneInfo { id, rect: a, is_focused: id == focus };
                let pb = PaneInfo { id: new_id, rect: b, is_focused: new_id == focus };
                assert(panes_of(Node::Pane(id), a, focus) == seq![pa]);
                assert(panes_of(Node::Pane(new_id), b, focus) == seq![pb]);
                assert(after == seq![pa] + seq![pb]);
                lemma_pane_rect_concat(seq![pa], seq![pb], other);
                lemma_pane_rect_concat(seq![pa], seq![pb], target);
                lemma_pane_rect_concat(seq![pa], seq![pb], new_id);
                lemma_single_rect(pa, other);
                lemma_single_rect(pa, target);
                lemma_single_rect(pa, new_id);
                lemma_single_rect(pb, other);
                lemma_single_rect(pb, new_id);
            }
        },
        Node::Split { direction: d, ratio: r, first, second } => {
            let (a, b) = halves(area, d, r);
            let f = ids_of(*first);
            let s = ids_of(*second);
            lemma_parts_distinct(f, s);
            lemma_contains_concat(f, s);
            law_split_rects(*first, a, focus, target, direction, new_id, ratio, other);
            law_split_rects(*second, b, focus, target, direction, new_id, ratio, other);
            let fa = panes_of(split_tree(*first, target, direction, new_id, ratio), a, focus);
            let sa = panes_of(split_tree(*second, target, direction, new_id, ratio), b, focus);
            let fb = panes_of(*first, a, focus);
            let sb = panes_of(*second, b, focus);
            lemma_pane_rect_concat(fa, sa, other);
            lemma_pane_rect_concat(fb, sb, other);
            lemma_pane_rect_concat(fa, sa, target);
            lemma_pane_rect_concat(fb, sb, target);
            lemma_pane_rect_concat(fa, sa, new_id);
            lemma_pane_rect_ids(*first, a, focus, target);
            lemma_pane_rect_ids(*second, b, focus, target);
            let ft = split_tree(*first, target, direction, new_id, ratio);
            law_split_ids(*first, target, direction, new_id, ratio);
            lemma_pane_rect_ids(ft, a, focus, target);
            lemma_pane_rect_ids(ft, a, focus, new_id);
        },
    }
}

/// A split that the size check allows, made evenly, leaves the split pane
/// and the new one large enough.
pub proof fn law_allowed_split_large_enough(
    layout: LayoutView,
    target: PaneId,
    direction: Direction,
    area: Rect,
)
    requires
        layout.well_formed(),
        layout.splittable(target, direction, area),
    ensures
        ({
            let new_id = PaneId(layout.next_id);
            let after = panes_of(
                split_tree(layout.root, target, direction, new_id, split_ratio(even_share())),
                area,
                layout.focus,
            );
            &&& pane_rect(after, target) matches Some(rect) && large_enough(rect)
            &&& pane_rect(after, new_id) matches Some(rect) && large_enough(rect)
        }),
{
    let new_id = PaneId(layout.next_id);
    assert(!layout.ids().contains(new_id));
    lemma_share_bounds();
    let other = PaneId(
        if target.0 != 0 && new_id.0 != 0 {
            0
        } else if target.0 != 1 && new_id.0 != 1 {
            1
        } else {
            2
        },
    );
    law_split_rects(
        layout.root,
        area,
        layout.focus,
        target,
        direction,
        new_id,
        even_share(),
        other,
    );
}

// --- Panes tile the area ---

/// The two halves of a rectangle cover its cells, each cell once.
proof fn lemma_halves_partition(
    area: Rect,
    direction: Direction,
    ratio: Ratio,
    column: int,
    row: int,
)
    requires
        area.fits(),
        ratio.is_share(),
    ensures
        ({
            let (a, b) = halves(area, direction, ratio);
            &&& area.covers(column, row) == (a.covers(column, row) || b.covers(column, row))
            &&& !(a.covers(column, row) && b.covers(column, row))
            &&& a.fits()
            &&& b.fits()
        }),
{
    lemma_share_within(area.width as nat, ratio);
    lemma_share_within(area.height as nat, ratio);
}

/// The panes of a layout tile its area: every cell of the area is in exactly
/// one pane, and no pane holds a cell outside the area.
pub proof fn law_panes_tile_area(node: Node, area: Rect, focus: PaneId, column: int, row: int)
    requires
        keeps_shares(node),
        area.fits(),
    ensures
        ({
            let panes = panes_of(node, area, focus);
            &&& area.covers(column, row) == exists|i: int|
                0 <= i < panes.len() && (#[trigger] panes[i]).rect.covers(column, row)
            &&& forall|i: int, j: int|
                0 <= i < j < panes.len() ==> !((#[trigger] panes[i]).rect.covers(column, row)
                    && (#[trigger] panes[j]).rect.covers(column, row))
        }),
    decreases node,
{
    let panes = panes_of(node, area, focus);
    match node {
        Node::Pane(_) => {
            assert(panes[0].rect == area);
        },
        Node::Split { direction, ratio, first, second } => {
            let (a, b) = halves(area, direction, ratio);
            lemma_halves_partition(area, direction, ratio, column, row);
            law_panes_tile_area(*first, a, focus, column, row);
            law_panes_tile_area(*second, b, focus, column, row);
            let pa = panes_of(*first, a, focus);
            let pb = panes_of(*second, b, focus);
            assert(panes == pa + pb);
            if a.covers(column, row) {
                let i = choose|i: int|
                    0 <= i < pa.len() && (#[trigger] pa[i]).rect.covers(column, row);
                assert(panes[i] == pa[i]);
            }
            if b.covers(column, row) {
                let i = choose|i: int|
                    0 <= i < pb.len() && (#[trigger] pb[i]).rect.covers(column, row);
                assert(panes[pa.len() + i] == pb[i]);
            }
            assert forall|i: int|
                0 <= i < panes.len() && (#[trigger] panes[i]).rect.covers(
                    column,
                    row,
                ) implies area.covers(column, row) by {
                if i < pa.len() {
                    assert(pa[i].rect.covers(column, row));
                } else {
                    assert(pb[i - pa.len()].rect.covers(column, row));
                }
            }
            assert forall|i: int, j: int| 0 <= i < j < panes.len() implies !((
            #[trigger] panes[i]).rect.covers(column, row) && (#[trigger] panes[j]).rect.covers(
                column,
                row,
            )) by {
                if j < pa.len() {
                    assert(panes[i] == pa[i] && panes[j] == pa[j]);
                } else if i >= pa.len() {
                    assert(panes[i] == pb[i - pa.len()] && panes[j] == pb[j - pa.len()]);
                } else {
                    assert(panes[i] == pa[i] && panes[j] == pb[j - pa.len()]);
                    if pa[i].rect.covers(column, row) && pb[j - pa.len()].rect.covers(column, row) {
                        assert(a.covers(column, row) && b.covers(column, row));
                    }
                }
            }
        },
    }
}

// --- Where the halves of a split lie ---

/// A split side by side puts the second half to the right of the first, one
/// above the other puts it below; together they fill the area, and the first
/// has the cells nearest to its share.
pub proof fn law_halves_placed(area: Rect, direction: Direction, ratio: Ratio)
    requires
        area.fits(),
        ratio.is_share(),
    ensures
        ({
            let (a, b) = halves(area, direction, ratio);
            let cell = pow2(149) as int;
            &&& a.x == area.x && a.y == area.y
            &&& match direction {
                Direction::Horizontal => {
                    &&& b.x == a.x + a.width && b.y == area.y
                    &&& a.width + b.width == area.width
                    &&& a.height == area.height && b.height == area.height
                    &&& -257 * cell <= 512 * (a.width * cell - area.width * ratio.units()) <= 257
                        * cell
                },
                Direction::Vertical => {
                    &&& b.y == a.y + a.height && b.x == area.x
                    &&& a.height + b.height == area.height
                    &&& a.width == area.width && b.width == area.width
                    &&& -257 * cell <= 512 * (a.height * cell - area.height * ratio.units()) <= 257
                        * cell
                },
            }
        }),
{
    lemma_share_within(area.width as nat, ratio);
    lemma_share_within(area.height as nat, ratio);
    law_share_nearest(area.width as nat, ratio);
    law_share_nearest(area.height as nat, ratio);
}

/// An even split gives both halves as many cells, the odd one to the first.
pub proof fn law_even_halves(area: Rect, direction: Direction)
    requires
        area.fits(),
    ensures
        ({
            let (a, b) = halves(area, direction, even_share());
            match direction {
                Direction::Horizontal => b.width <= a.width <= b.width + 1,
                Direction::Vertical => b.height <= a.height <= b.height + 1,
            }
        }),
{
    lemma_share_bounds();
    law_halves_placed(area, direction, even_share());
    law_even_share_halves(area.width as nat);
    law_even_share_halves(area.height as nat);
}

/// A split is allowed exactly where the pane is there and each half of it is
/// at least 40 columns wide and 8 rows high.
pub proof fn law_split_needs_room(
    layout: LayoutView,
    target: PaneId,
    direction: Direction,
    area: Rect,
)
    requires
        pane_rect(layout.panes(area), target) matches Some(rect) ==> rect.fits(),
    ensures
        layout.splittable(target, direction, area) == match pane_rect(
            layout.panes(area),
            target,
        ) {
            None => false,
            Some(rect) => match direction {
                Direction::Horizontal => rect.width >= 80 && rect.height >= 8,
                Direction::Vertical => rect.width >= 40 && rect.height >= 16,
            },
        },
{
    if let Some(rect) = pane_rect(layout.panes(area), target) {
        lemma_share_bounds();
        law_even_halves(rect, direction);
        law_halves_placed(rect, direction, even_share());
    }
}

/// Every pane lies within the area that its tree was laid out in.
pub proof fn law_panes_within_area(node: Node, area: Rect, focus: PaneId, id: PaneId)
    requires
        keeps_shares(node),
        area.fits(),
    ensures
        pane_rect(panes_of(node, area, focus), id) matches Some(rect) ==> {
            &&& area.x <= rect.x && rect.x + rect.width <= area.x + area.width
            &&& area.y <= rect.y && rect.y + rect.height <= area.y + area.height
        },
    decreases node,
{
    match node {
        Node::Pane(own) => {
            lemma_single_rect(PaneInfo { id: own, rect: area, is_focused: own == focus }, id);
        },
        Node::Split { direction, ratio, first, second } => {
            let (a, b) = halves(area, direction, ratio);
            law_halves_placed(area, direction, ratio);
            law_panes_within_area(*first, a, focus, id);
            law_panes_within_area(*second, b, focus, id);
            lemma_pane_rect_concat(panes_of(*first, a, focus), panes_of(*second, b, focus), id);
        },
    }
}

/// No pane shrinks when the area that its tree is laid out in grows.
pub proof fn law_panes_grow_with_area(
    node: Node,
    small: Rect,
    large: Rect,
    focus: PaneId,
    id: PaneId,
)
    requires
        keeps_shares(node),
        small.fits() && large.fits(),
        small.width <= large.width && small.height <= large.height,
    ensures
        match (
            pane_rect(panes_of(node, small, focus), id),
            pane_rect(panes_of(node, large, focus), id),
        ) {
            (Some(before), Some(after)) => before.width <= after.width && before.height
                <= after.height,
            (None, None) => true,
            _ => false,
        },
    decreases node,
{
    match node {
        Node::Pane(own) => {
            lemma_single_rect(PaneInfo { id: own, rect: small, is_focused: own == focus }, id);
            lemma_single_rect(PaneInfo { id: own, rect: large, is_focused: own == focus }, id);
        },
        Node::Split { direction, ratio, first, second } => {
            let (a, b) = halves(small, direction, ratio);
            let (c, d) = halves(large, direction, ratio);
            law_halves_placed(small, direction, ratio);
            law_halves_placed(large, direction, ratio);
            law_share_grows_with_length(small.width as nat, large.width as nat, ratio);
            law_share_grows_with_length(small.height as nat, large.height as nat, ratio);
            lemma_share_within(small.width as nat, ratio);
            lemma_share_within(large.width as nat, ratio);
            lemma_share_within(small.height as nat, ratio);
            lemma_share_within(large.height as nat, ratio);
            law_panes_grow_with_area(*first, a, c, focus, id);
            law_panes_grow_with_area(*second, b, d, focus, id);
            lemma_pane_rect_concat(panes_of(*first, a, focus), panes_of(*second, b, focus), id);
            lemma_pane_rect_concat(panes_of(*first, c, focus), panes_of(*second, d, focus), id);
        },
    }
}

// --- Moving a boundary ---

/// The node that a path leads to, if there is one.
pub open spec fn node_at(node: Node, path: Seq<bool>) -> Option<Node>
    decreases node,
{
    if path.len() == 0 {
        Some(node)
    } else {
        match node {
            Node::Pane(_) => None,
            Node::Split { first, second, .. } => node_at(
                if path[0] {
                    *second
                } else {
                    *first
                },
                path.drop_first(),
            ),
        }
    }
}

/// Setting a split's ratio changes no other split's.
pub proof fn law_other_ratios_kept(node: Node, path: Seq<bool>, value: Ratio, other: Seq<bool>)
    requires
        other != path,
    ensures
        ratio_at(with_ratio_at(node, path, value), other) == ratio_at(node, other),
    decreases node,
{
    if let Node::Split { first, second, .. } = node {
        if path.len() > 0 && other.len() > 0 {
            if path[0] == other[0] {
                assert(other.drop_first() != path.drop_first()) by {
                    if other.drop_first() == path.drop_first() {
                        assert(other =~= seq![other[0]] + other.drop_first());
                        assert(path =~= seq![path[0]] + path.drop_first());
                    }
                }
                law_other_ratios_kept(
                    if path[0] {
                        *second
                    } else {
                        *first
                    },
                    path.drop_first(),
                    value,
                    other.drop_first(),
                );
            }
        } else if path.len() == 0 && other.len() == 0 {
            assert(path =~= other);
        }
    }
}

/// A boundary lies between the panes of its two halves.
pub proof fn law_boundary_between_halves(
    node: Node,
    area: Rect,
    prefix: Seq<bool>,
    i: int,
    focus: PaneId,
    id: PaneId,
)
    requires
        keeps_shares(node),
        area.fits(),
        ids_of(node).no_duplicates(),
        0 <= i < splits_of(node, area, prefix).len(),
    ensures
        ({
            let view = splits_of(node, area, prefix)[i];
            &&& view.path.len() >= prefix.len()
            &&& node_at(node, view.path.skip(prefix.len() as int)) matches Some(
                Node::Split { direction, ratio, first, second },
            )
            &&& direction == view.direction && ratio == view.ratio
            &&& pane_rect(panes_of(node, area, focus), id) matches Some(rect) ==> {
                &&& ids_of(*first).contains(id) ==> match direction {
                    Direction::Horizontal => rect.x + rect.width <= view.pos,
                    Direction::Vertical => rect.y + rect.height <= view.pos,
                }
                &&& ids_of(*second).contains(id) ==> match direction {
                    Direction::Horizontal => view.pos <= rect.x,
                    Direction::Vertical => view.pos <= rect.y,
                }
            }
        }),
    decreases node,
{
    if let Node::Split { direction, ratio, first, second } = node {
        let (a, b) = halves(area, direction, ratio);
        let sa = splits_of(*first, a, prefix.push(false));
        let sb = splits_of(*second, b, prefix.push(true));
        let all = splits_of(node, area, prefix);
        let pa = panes_of(*first, a, focus);
        let pb = panes_of(*second, b, focus);
        let view = all[i];
        law_halves_placed(area, direction, ratio);
        lemma_parts_distinct(ids_of(*first), ids_of(*second));
        lemma_pane_rect_concat(pa, pb, id);
        lemma_pane_rect_ids(*first, a, focus, id);
        lemma_pane_rect_ids(*second, b, focus, id);
        let n = prefix.len() as int;
        if i == 0 {
            assert(view.path.skip(n) =~= Seq::empty());
            law_panes_within_area(*first, a, focus, id);
            law_panes_within_area(*second, b, focus, id);
        } else if i - 1 < sa.len() {
            assert(view == sa[i - 1]);
            law_boundary_between_halves(*first, a, prefix.push(false), i - 1, focus, id);
            law_splits_have_ratios(*first, a, prefix.push(false), i - 1);
            lemma_path_step(view.path, prefix, false);
            lemma_node_at_ids(*first, view.path.skip(n + 1), id);
        } else {
            let j = i - 1 - sa.len();
            assert(view == sb[j]);
            law_boundary_between_halves(*second, b, prefix.push(true), j, focus, id);
            law_splits_have_ratios(*second, b, prefix.push(true), j);
            lemma_path_step(view.path, prefix, true);
            lemma_node_at_ids(*second, view.path.skip(n + 1), id);
        }
    }
}

proof fn lemma_path_step(path: Seq<bool>, prefix: Seq<bool>, step: bool)
    requires
        path.len() > prefix.len(),
        path.take(prefix.len() as int + 1) == prefix.push(step),
    ensures
        path.skip(prefix.len() as int).len() > 0,
        path.skip(prefix.len() as int)[0] == step,
        path.skip(prefix.len() as int).drop_first() == path.skip(prefix.len() as int + 1),
{
    assert(path.take(prefix.len() as int + 1)[prefix.len() as int] == step);
    assert(path.skip(prefix.len() as int).drop_first() =~= path.skip(prefix.len() as int + 1));
}

/// What a node below holds, the tree holds.
proof fn lemma_node_at_ids(node: Node, path: Seq<bool>, id: PaneId)
    ensures
        node_at(node, path) matches Some(below) ==> {
            &&& ids_of(below).contains(id) ==> ids_of(node).contains(id)
            &&& below matches Node::Split { first, second, .. } ==> (ids_of(*first).contains(id)
                || ids_of(*second).contains(id)) ==> ids_of(node).contains(id)
        },
    decreases node,
{
    if let Node::Split { first, second, .. } = node {
        lemma_contains_concat(ids_of(*first), ids_of(*second));
        if path.len() > 0 {
            let next = if path[0] {
                *second
            } else {
                *first
            };
            lemma_node_at_ids(next, path.drop_first(), id);
        }
    }
}

/// Raising the ratio of a split shrinks no pane but those of its second half,
/// and lowering it none but those of its first.
pub proof fn law_ratio_grows_its_side(
    node: Node,
    area: Rect,
    path: Seq<bool>,
    value: Ratio,
    focus: PaneId,
    id: PaneId,
)
    requires
        keeps_shares(node),
        value.is_share(),
        area.fits(),
        ids_of(node).no_duplicates(),
        node_at(node, path) is Some,
        node_at(node, path)->0 is Split,
        ({
            let split = node_at(node, path)->0;
            ||| value.units() >= split->ratio.units() && !ids_of(*split->second).contains(id)
            ||| value.units() <= split->ratio.units() && !ids_of(*split->first).contains(id)
        }),
    ensures
        match (
            pane_rect(panes_of(node, area, focus), id),
            pane_rect(panes_of(with_ratio_at(node, path, value), area, focus), id),
        ) {
            (Some(before), Some(after)) => before.width <= after.width && before.height
                <= after.height,
            (None, None) => true,
            _ => false,
        },
    decreases node,
{
    if let Node::Split { direction, ratio, first, second } = node {
        let (a, b) = halves(area, direction, ratio);
        law_halves_placed(area, direction, ratio);
        lemma_parts_distinct(ids_of(*first), ids_of(*second));
        lemma_contains_concat(ids_of(*first), ids_of(*second));
        lemma_pane_rect_concat(panes_of(*first, a, focus), panes_of(*second, b, focus), id);
        lemma_pane_rect_ids(*first, a, focus, id);
        lemma_pane_rect_ids(*second, b, focus, id);
        if path.len() == 0 {
            let (c, d) = halves(area, direction, value);
            law_halves_placed(area, direction, value);
            lemma_pane_rect_concat(panes_of(*first, c, focus), panes_of(*second, d, focus), id);
            lemma_pane_rect_ids(*first, c, focus, id);
            lemma_pane_rect_ids(*second, d, focus, id);
            if value.units() >= ratio.units() && !ids_of(*second).contains(id) {
                law_share_grows_with_ratio(area.width as nat, ratio, value);
                law_share_grows_with_ratio(area.height as nat, ratio, value);
                lemma_share_within(area.width as nat, value);
                lemma_share_within(area.height as nat, value);
                lemma_share_within(area.width as nat, ratio);
                lemma_share_within(area.height as nat, ratio);
                law_panes_grow_with_area(*first, a, c, focus, id);
            } else {
                law_share_grows_with_ratio(area.width as nat, value, ratio);
                law_share_grows_with_ratio(area.height as nat, value, ratio);
                lemma_share_within(area.width as nat, value);
                lemma_share_within(area.height as nat, value);
                lemma_share_within(area.width as nat, ratio);
                lemma_share_within(area.height as nat, ratio);
                law_panes_grow_with_area(*second, b, d, focus, id);
            }
        } else {
            let rest = path.drop_first();
            if path[0] {
                let changed = with_ratio_at(*second, rest, value);
                law_ratio_grows_its_side(*second, b, rest, value, focus, id);
                lemma_pane_rect_concat(panes_of(*first, a, focus), panes_of(changed, b, focus), id);
            } else {
                let changed = with_ratio_at(*first, rest, value);
                law_ratio_grows_its_side(*first, a, rest, value, focus, id);
                lemma_pane_rect_concat(panes_of(changed, a, focus), panes_of(*second, b, focus), id);
            }
        }
    }
}

/// The boundary on the edge that a resize points at is the one that moves:
/// where there is one, what moves lies on that edge, and no other split
/// changes, whichever edge it lies on.
pub proof fn law_resize_moves_facing_boundary(
    layout: LayoutView,
    after: Node,
    id: PaneId,
    nav: NavDirection,
    delta: Ratio,
    area: Rect,
    rect: Rect,
    i: int,
    other: Seq<bool>,
)
    requires
        pane_rect(layout.panes(area), id) == Some(rect),
        faces_edge(layout.splits(area), i, rect, nav),
        resized_by(layout.root, after, layout.resized_split(id, nav, area), delta, raises(nav)),
    ensures
        layout.resized_split(id, nav, area) matches Some(moved) && {
            &&& exists|k: int|
                faces_edge(layout.splits(area), k, rect, nav) && layout.splits(area)[k] == moved
            &&& moved.path != other ==> ratio_at(after, other) == ratio_at(layout.root, other)
        },
{
    let splits = layout.splits(area);
    law_boundary_at_edge_found(splits, rect, nav, i);
    law_moved_boundary_at_edge(splits, rect, nav);
    let found = nearest_index(splits, rect, nav)->0;
    assert(faces_edge(splits, found, rect, nav));
    let moved = splits[found];
    if moved.path != other {
        law_other_ratios_kept(layout.root, moved.path, ratio_at(after, moved.path)->0, other);
    }
}

/// Boundary `i` runs across the direction, within a cell of the edge of the
/// rectangle that it points at, in an area that shares a row or column with
/// the rectangle.
pub open spec fn faces_edge(splits: Seq<SplitView>, i: int, rect: Rect, nav: NavDirection) -> bool {
    &&& 0 <= i < splits.len()
    &&& match nav {
        NavDirection::Left => -1 <= splits[i].pos - rect.x <= 1,
        NavDirection::Right => -1 <= splits[i].pos - (rect.x + rect.width) <= 1,
        NavDirection::Up => -1 <= splits[i].pos - rect.y <= 1,
        NavDirection::Down => -1 <= splits[i].pos - (rect.y + rect.height) <= 1,
    }
    &&& match nav {
        NavDirection::Left | NavDirection::Right => {
            &&& splits[i].direction == Direction::Horizontal
            &&& splits[i].area.y < rect.y + rect.height
            &&& rect.y < splits[i].area.y + splits[i].area.height
        },
        NavDirection::Up | NavDirection::Down => {
            &&& splits[i].direction == Direction::Vertical
            &&& splits[i].area.x < rect.x + rect.width
            &&& rect.x < splits[i].area.x + splits[i].area.width
        },
    }
}

/// Growing a pane toward an edge on which there is a boundary never makes it
/// smaller, either way. (A pane of a single column or row may lie on both
/// sides of a boundary at once, and is left out.)
pub proof fn law_resize_never_shrinks(
    layout: LayoutView,
    after: Node,
    id: PaneId,
    nav: NavDirection,
    delta: Ratio,
    area: Rect,
    rect: Rect,
    i: int,
)
    requires
        layout.ids().no_duplicates(),
        keeps_shares(layout.root),
        area.fits(),
        pane_rect(layout.panes(area), id) == Some(rect),
        rect.width >= 2 && rect.height >= 2,
        faces_edge(layout.splits(area), i, rect, nav),
        delta.finite() && delta.units() >= 0,
        resized_by(layout.root, after, layout.resized_split(id, nav, area), delta, raises(nav)),
    ensures
        pane_rect(panes_of(after, area, layout.focus), id) matches Some(grown) && grown.width
            >= rect.width && grown.height >= rect.height,
{
    let splits = layout.splits(area);
    law_boundary_at_edge_found(splits, rect, nav, i);
    law_moved_boundary_at_edge(splits, rect, nav);
    let k = nearest_index(splits, rect, nav)->0;
    let view = splits[k];
    lemma_moved_ratio(layout.root, after, area, k, delta, raises(nav));
    law_boundary_between_halves(layout.root, area, seq![], k, layout.focus, id);
    assert(view.path.skip(0) =~= view.path);
    let moved = ratio_at(after, view.path)->0;
    law_ratio_grows_its_side(layout.root, area, view.path, moved, layout.focus, id);
}

/// Where no boundary lies on the edge that a resize points at, the one on the
/// opposite edge follows the direction, so the pane does not grow.
pub proof fn law_resize_without_facing_boundary(
    layout: LayoutView,
    after: Node,
    id: PaneId,
    nav: NavDirection,
    delta: Ratio,
    area: Rect,
    rect: Rect,
)
    requires
        layout.ids().no_duplicates(),
        keeps_shares(layout.root),
        area.fits(),
        pane_rect(layout.panes(area), id) == Some(rect),
        rect.width >= 2 && rect.height >= 2,
        forall|i: int| !faces_edge(layout.splits(area), i, rect, nav),
        delta.finite() && delta.units() >= 0,
        resized_by(layout.root, after, layout.resized_split(id, nav, area), delta, raises(nav)),
    ensures
        pane_rect(panes_of(after, area, layout.focus), id) matches Some(left) && left.width
            <= rect.width && left.height <= rect.height,
{
    let splits = layout.splits(area);
    law_moved_boundary_at_edge(splits, rect, nav);
    law_moved_boundary_at_edge(splits, rect, opposite(nav));
    if let Some(k) = nearest_index(splits, rect, nav) {
        assert(faces_edge(splits, k, rect, nav));
    }
    if let Some(k) = nearest_index(splits, rect, opposite(nav)) {
        let view = splits[k];
        lemma_moved_ratio(layout.root, after, area, k, delta, raises(nav));
        law_boundary_between_halves(layout.root, area, seq![], k, layout.focus, id);
        assert(view.path.skip(0) =~= view.path);
        let moved = ratio_at(after, view.path)->0;
        // Setting the ratio back grows the pane again.
        law_set_ratio_keeps_shares(layout.root, view.path, moved);
        law_ratio_keeps_ids(layout.root, view.path, moved);
        lemma_ratio_set_back(layout.root, view.path, moved, view.ratio);
        law_ratio_grows_its_side(after, area, view.path, view.ratio, layout.focus, id);
    }
}

proof fn lemma_ratio_set_back(node: Node, path: Seq<bool>, value: Ratio, ratio: Ratio)
    requires
        ratio_at(node, path) == Some(ratio),
    ensures
        with_ratio_at(with_ratio_at(node, path, value), path, ratio) == node,
        node_at(node, path) matches Some(Node::Split { direction, ratio: own, first, second })
            && own == ratio && node_at(with_ratio_at(node, path, value), path) == Some(
            Node::Split { direction, ratio: value, first, second },
        ),
    decreases node,
{
    if let Node::Split { first, second, .. } = node {
        if path.len() > 0 {
            let next = if path[0] {
                *second
            } else {
                *first
            };
            lemma_ratio_set_back(next, path.drop_first(), value, ratio);
        }
    }
}

proof fn lemma_moved_ratio(
    before: Node,
    after: Node,
    area: Rect,
    k: int,
    delta: Ratio,
    grows: bool,
)
    requires
        keeps_shares(before),
        0 <= k < splits_of(before, area, seq![]).len(),
        delta.finite() && delta.units() >= 0,
        resized_by(before, after, Some(splits_of(before, area, seq![])[k]), delta, grows),
    ensures
        ({
            let view = splits_of(before, area, seq![])[k];
            let moved = ratio_at(after, view.path)->0;
            &&& after == with_ratio_at(before, view.path, moved)
            &&& moved.is_share() && view.ratio.is_share()
            &&& ratio_at(before, view.path) == Some(view.ratio)
            &&& grows ==> moved.units() >= view.ratio.units()
            &&& !grows ==> moved.units() <= view.ratio.units()
        }),
{
    let view = splits_of(before, area, seq![])[k];
    law_splits_have_ratios(before, area, seq![], k);
    assert(view.path.skip(0) =~= view.path);
    lemma_ratio_at_share(before, view.path);
    law_step_follows_sign(view.ratio, delta, grows);
}

proof fn lemma_ratio_at_share(node: Node, path: Seq<bool>)
    requires
        keeps_shares(node),
    ensures
        ratio_at(node, path) matches Some(ratio) ==> ratio.is_share(),
    decreases node,
{
    if let Node::Split { first, second, .. } = node {
        if path.len() > 0 {
            lemma_ratio_at_share(*first, path.drop_first());
            lemma_ratio_at_share(*second, path.drop_first());
        }
    }
}

} // verus!
