//! Finding panes and split boundaries by direction.

use vstd::prelude::*;

use crate::geometry::{Direction, Rect};
use crate::tile_layout::{PaneId, PaneInfo, SplitBorder};
#[allow(unused_imports)]
use crate::tile_layout::{border_views, SplitView};

verus! {

/// A direction to move focus or grow a pane toward.
#[derive(Debug, Clone, Copy, PartialEq, Eq, Structural)]
pub enum NavDirection {
    Left,
    Right,
    Up,
    Down,
}

/// How the splits run that a direction crosses.
pub open spec fn axis_of(nav: NavDirection) -> Direction {
    match nav {
        NavDirection::Left | NavDirection::Right => Direction::Horizontal,
        NavDirection::Up | NavDirection::Down => Direction::Vertical,
    }
}

pub fn axis(nav: NavDirection) -> (r: Direction)
    ensures
        r == axis_of(nav),
{
    match nav {
        NavDirection::Left | NavDirection::Right => Direction::Horizontal,
        NavDirection::Up | NavDirection::Down => Direction::Vertical,
    }
}

pub open spec fn opposite(nav: NavDirection) -> NavDirection {
    match nav {
        NavDirection::Left => NavDirection::Right,
        NavDirection::Right => NavDirection::Left,
        NavDirection::Up => NavDirection::Down,
        NavDirection::Down => NavDirection::Up,
    }
}

pub fn opposite_direction(nav: NavDirection) -> (r: NavDirection)
    ensures
        r == opposite(nav),
{
    match nav {
        NavDirection::Left => NavDirection::Right,
        NavDirection::Right => NavDirection::Left,
        NavDirection::Up => NavDirection::Down,
        NavDirection::Down => NavDirection::Up,
    }
}

// --- Ranges along one axis ---

/// Two ranges share a cell, or one that is empty lies strictly inside the
/// other.
pub open spec fn overlapping(a_start: int, a_len: int, b_start: int, b_len: int) -> bool {
    a_start < b_start + b_len && a_start + a_len > b_start
}

/// The ends that [`ranges_overlap`] computes are coordinates.
pub open spec fn comparable(a_start: int, a_len: int, b_start: int, b_len: int) -> bool {
    b_start + b_len <= 65535 && (a_start < b_start + b_len ==> a_start + a_len <= 65535)
}

pub fn ranges_overlap(a_start: u16, a_len: u16, b_start: u16, b_len: u16) -> (r: bool)
    requires
        comparable(a_start as int, a_len as int, b_start as int, b_len as int),
    ensures
        r == overlapping(a_start as int, a_len as int, b_start as int, b_len as int),
{
    a_start < b_start + b_len && a_start + a_len > b_start
}

/// The least of a coordinate sum and the last coordinate.
pub open spec fn capped(value: int) -> int {
    if value > 65535 {
        65535
    } else {
        value
    }
}

pub open spec fn smaller(a: int, b: int) -> int {
    if a < b {
        a
    } else {
        b
    }
}

pub open spec fn larger(a: int, b: int) -> int {
    if a < b {
        b
    } else {
        a
    }
}

/// How many cells two ranges share, ends past the last coordinate cut off.
pub open spec fn overlap_amount(a_start: int, a_len: int, b_start: int, b_len: int) -> int {
    larger(
        0,
        smaller(capped(a_start + a_len), capped(b_start + b_len)) - larger(a_start, b_start),
    )
}

pub fn range_overlap_amount(a_start: u16, a_len: u16, b_start: u16, b_len: u16) -> (r: u16)
    ensures
        r == overlap_amount(a_start as int, a_len as int, b_start as int, b_len as int),
{
    let a_end = a_start.saturating_add(a_len);
    let b_end = b_start.saturating_add(b_len);
    let end = if a_end < b_end {
        a_end
    } else {
        b_end
    };
    let start = if a_start < b_start {
        b_start
    } else {
        a_start
    };
    end.saturating_sub(start)
}

// --- The pane in a direction ---

/// `r` lies wholly beyond the edge of `from` that `direction` points at.
pub open spec fn beyond(r: Rect, from: Rect, direction: NavDirection) -> bool {
    match direction {
        NavDirection::Left => r.x + r.width <= from.x,
        NavDirection::Right => r.x >= from.x + from.width,
        NavDirection::Up => r.y + r.height <= from.y,
        NavDirection::Down => r.y >= from.y + from.height,
    }
}

/// `r` and `from` overlap along the axis that `direction` does not move on.
pub open spec fn alongside(r: Rect, from: Rect, direction: NavDirection) -> bool {
    match axis_of(direction) {
        Direction::Horizontal => overlapping(
            r.y as int,
            r.height as int,
            from.y as int,
            from.height as int,
        ),
        Direction::Vertical => overlapping(
            r.x as int,
            r.width as int,
            from.x as int,
            from.width as int,
        ),
    }
}

/// The edges that have to be looked at to place `r` are coordinates.
pub open spec fn placeable(r: Rect, from: Rect, direction: NavDirection) -> bool {
    &&& match direction {
        NavDirection::Left => r.x + r.width <= 65535,
        NavDirection::Right => from.x + from.width <= 65535,
        NavDirection::Up => r.y + r.height <= 65535,
        NavDirection::Down => from.y + from.height <= 65535,
    }
    &&& beyond(r, from, direction) ==> match axis_of(direction) {
        Direction::Horizontal => comparable(
            r.y as int,
            r.height as int,
            from.y as int,
            from.height as int,
        ),
        Direction::Vertical => comparable(
            r.x as int,
            r.width as int,
            from.x as int,
            from.width as int,
        ),
    }
}

/// How near a candidate is: the gap to its edge, and how much of the shared
/// axis it overlaps.
pub struct Nearness {
    pub gap: int,
    pub overlap: int,
}

pub open spec fn nearness(r: Rect, from: Rect, direction: NavDirection) -> Nearness {
    Nearness {
        gap: match direction {
            NavDirection::Left => from.x - (r.x + r.width),
            NavDirection::Right => r.x - (from.x + from.width),
            NavDirection::Up => from.y - (r.y + r.height),
            NavDirection::Down => r.y - (from.y + from.height),
        },
        overlap: match axis_of(direction) {
            Direction::Horizontal => overlap_amount(
                r.y as int,
                r.height as int,
                from.y as int,
                from.height as int,
            ),
            Direction::Vertical => overlap_amount(
                r.x as int,
                r.width as int,
                from.x as int,
                from.width as int,
            ),
        },
    }
}

/// The first candidate is preferred to the second: a smaller gap first, then
/// a larger overlap.
pub open spec fn preferred(a: Nearness, b: Nearness) -> bool {
    a.gap < b.gap || (a.gap == b.gap && a.overlap > b.overlap)
}

/// Pane `i` lies in `direction` from `focused`.
pub open spec fn candidate(
    panes: Seq<PaneInfo>,
    focused: PaneInfo,
    direction: NavDirection,
    i: int,
) -> bool {
    &&& 0 <= i < panes.len()
    &&& panes[i].id != focused.id
    &&& beyond(panes[i].rect, focused.rect, direction)
    &&& alongside(panes[i].rect, focused.rect, direction)
}

/// Pane `i` is the one to move to: no candidate is preferred to it, and no
/// earlier one is as near.
pub open spec fn best_candidate(
    panes: Seq<PaneInfo>,
    focused: PaneInfo,
    direction: NavDirection,
    i: int,
) -> bool {
    &&& candidate(panes, focused, direction, i)
    &&& forall|j: int| #[trigger]
        candidate(panes, focused, direction, j) ==> {
            let a = nearness(panes[i].rect, focused.rect, direction);
            let b = nearness(panes[j].rect, focused.rect, direction);
            !preferred(b, a) && (j < i ==> preferred(a, b))
        }
}

fn edge_gap(r: Rect, from: Rect, direction: NavDirection) -> (gap: u16)
    requires
        placeable(r, from, direction),
        beyond(r, from, direction),
    ensures
        gap == nearness(r, from, direction).gap,
{
    match direction {
        NavDirection::Left => from.x - (r.x + r.width),
        NavDirection::Right => r.x - (from.x + from.width),
        NavDirection::Up => from.y - (r.y + r.height),
        NavDirection::Down => r.y - (from.y + from.height),
    }
}

fn lies_in_direction(r: Rect, from: Rect, direction: NavDirection) -> (found: bool)
    requires
        placeable(r, from, direction),
    ensures
        found == (beyond(r, from, direction) && alongside(r, from, direction)),
{
    match direction {
        NavDirection::Left => r.x + r.width <= from.x && ranges_overlap(
            r.y,
            r.height,
            from.y,
            from.height,
        ),
        NavDirection::Right => r.x >= from.x + from.width && ranges_overlap(
            r.y,
            r.height,
            from.y,
            from.height,
        ),
        NavDirection::Up => r.y + r.height <= from.y && ranges_overlap(
            r.x,
            r.width,
            from.x,
            from.width,
        ),
        NavDirection::Down => r.y >= from.y + from.height && ranges_overlap(
            r.x,
            r.width,
            from.x,
            from.width,
        ),
    }
}

/// Find the nearest pane in `direction` from `focused`, preferring the
/// closest edge, then the largest overlap along the shared axis, then layout
/// order.
pub fn find_in_direction(
    focused: &PaneInfo,
    direction: NavDirection,
    panes: &Vec<PaneInfo>,
) -> (found: Option<PaneId>)
    requires
        forall|i: int|
            0 <= i < panes.len() && (#[trigger] panes[i]).id != focused.id ==> placeable(
                panes[i].rect,
                focused.rect,
                direction,
            ),
    ensures
        match found {
            Some(id) => exists|i: int| #[trigger]
                best_candidate(panes@, *focused, direction, i) && panes[i].id == id,
            None => forall|i: int| !candidate(panes@, *focused, direction, i),
        },
{
    let from = focused.rect;
    let mut best: Option<(usize, u16, u16)> = None;
    let mut i: usize = 0;
    while i < panes.len()
        invariant
            i <= panes.len(),
            from == focused.rect,
            forall|k: int|
                0 <= k < panes.len() && (#[trigger] panes[k]).id != focused.id ==> placeable(
                    panes[k].rect,
                    focused.rect,
                    direction,
                ),
            match best {
                None => forall|j: int| j < i ==> !candidate(panes@, *focused, direction, j),
                Some((k, gap, overlap)) => {
                    let a = nearness(panes[k as int].rect, from, direction);
                    &&& k < i
                    &&& candidate(panes@, *focused, direction, k as int)
                    &&& a == (Nearness { gap: gap as int, overlap: overlap as int })
                    &&& forall|j: int| #[trigger]
                        candidate(panes@, *focused, direction, j) && j < i ==> {
                            let b = nearness(panes[j].rect, from, direction);
                            !preferred(b, a) && (j < k ==> preferred(a, b))
                        }
                },
            },
        decreases panes.len() - i,
    {
        let pane = panes[i];
        let r = pane.rect;
        if pane.id != focused.id && lies_in_direction(r, from, direction) {
            assert(candidate(panes@, *focused, direction, i as int));
            let gap = edge_gap(r, from, direction);
            let overlap = match direction {
                NavDirection::Left | NavDirection::Right => range_overlap_amount(
                    r.y,
                    r.height,
                    from.y,
                    from.height,
                ),
                NavDirection::Up | NavDirection::Down => range_overlap_amount(
                    r.x,
                    r.width,
                    from.x,
                    from.width,
                ),
            };
            let nearer = match best {
                None => true,
                Some((_, best_gap, best_overlap)) => gap < best_gap || (gap == best_gap && overlap
                    > best_overlap),
            };
            if nearer {
                best = Some((i, gap, overlap));
            }
        } else {
            assert(!candidate(panes@, *focused, direction, i as int));
        }
        i = i + 1;
    }
    match best {
        None => None,
        Some((k, _, _)) => {
            assert(best_candidate(panes@, *focused, direction, k as int));
            Some(panes[k].id)
        },
    }
}

/// The pane that [`find_in_direction`] finds is the only best one.
pub proof fn law_best_candidate_unique(
    panes: Seq<PaneInfo>,
    focused: PaneInfo,
    direction: NavDirection,
    i: int,
    j: int,
)
    requires
        best_candidate(panes, focused, direction, i),
        best_candidate(panes, focused, direction, j),
    ensures
        i == j,
{
    assert(candidate(panes, focused, direction, i));
    assert(candidate(panes, focused, direction, j));
}

/// The panes that can be moved to are those with another id that end before
/// the focused one begins, or begin after it ends, and that share a row with
/// it when moving sideways, a column when moving up or down.
pub proof fn law_candidates_face_focused(
    panes: Seq<PaneInfo>,
    focused: PaneInfo,
    direction: NavDirection,
    i: int,
)
    requires
        0 <= i < panes.len(),
    ensures
        ({
            let r = panes[i].rect;
            let from = focused.rect;
            let share_row = r.y < from.y + from.height && from.y < r.y + r.height;
            let share_column = r.x < from.x + from.width && from.x < r.x + r.width;
            candidate(panes, focused, direction, i) == (panes[i].id != focused.id && match direction {
                NavDirection::Left => share_row && r.x + r.width <= from.x,
                NavDirection::Right => share_row && from.x + from.width <= r.x,
                NavDirection::Up => share_column && r.y + r.height <= from.y,
                NavDirection::Down => share_column && from.y + from.height <= r.y,
            })
        }),
{
}

/// No pane that could be moved to lies between the focused pane and the one
/// that is: the chosen one's near edge is the nearest of all. One that touches
/// the focused pane is never passed over for one that does not.
pub proof fn law_nearest_edge_chosen(
    panes: Seq<PaneInfo>,
    focused: PaneInfo,
    direction: NavDirection,
    chosen: int,
    other: int,
)
    requires
        best_candidate(panes, focused, direction, chosen),
        0 <= other < panes.len(),
        panes[other].id != focused.id,
        ({
            let r = panes[other].rect;
            let from = focused.rect;
            match direction {
                NavDirection::Left => r.x + r.width <= from.x,
                NavDirection::Right => from.x + from.width <= r.x,
                NavDirection::Up => r.y + r.height <= from.y,
                NavDirection::Down => from.y + from.height <= r.y,
            }
        }),
        ({
            let r = panes[other].rect;
            let from = focused.rect;
            match direction {
                NavDirection::Left | NavDirection::Right => r.y < from.y + from.height && from.y
                    < r.y + r.height,
                NavDirection::Up | NavDirection::Down => r.x < from.x + from.width && from.x < r.x
                    + r.width,
            }
        }),
    ensures
        ({
            let taken = panes[chosen].rect;
            let passed = panes[other].rect;
            let from = focused.rect;
            match direction {
                NavDirection::Left => {
                    &&& taken.x + taken.width >= passed.x + passed.width
                    &&& passed.x + passed.width == from.x ==> taken.x + taken.width == from.x
                },
                NavDirection::Right => {
                    &&& taken.x <= passed.x
                    &&& passed.x == from.x + from.width ==> taken.x == from.x + from.width
                },
                NavDirection::Up => {
                    &&& taken.y + taken.height >= passed.y + passed.height
                    &&& passed.y + passed.height == from.y ==> taken.y + taken.height == from.y
                },
                NavDirection::Down => {
                    &&& taken.y <= passed.y
                    &&& passed.y == from.y + from.height ==> taken.y == from.y + from.height
                },
            }
        }),
{
    assert(candidate(panes, focused, direction, other));
}

/// Of panes whose near edges are level, the one that shares more cells of the
/// edge with the focused pane is moved to, and of those that share as many the
/// first.
pub proof fn law_level_panes_by_overlap(
    panes: Seq<PaneInfo>,
    focused: PaneInfo,
    direction: NavDirection,
    chosen: int,
    other: int,
)
    requires
        best_candidate(panes, focused, direction, chosen),
        candidate(panes, focused, direction, other),
        focused.rect.fits() && panes[chosen].rect.fits() && panes[other].rect.fits(),
        match direction {
            NavDirection::Left => panes[chosen].rect.x + panes[chosen].rect.width
                == panes[other].rect.x + panes[other].rect.width,
            NavDirection::Right => panes[chosen].rect.x == panes[other].rect.x,
            NavDirection::Up => panes[chosen].rect.y + panes[chosen].rect.height
                == panes[other].rect.y + panes[other].rect.height,
            NavDirection::Down => panes[chosen].rect.y == panes[other].rect.y,
        },
    ensures
        ({
            let from = focused.rect;
            let shared = |r: Rect|
                match direction {
                    NavDirection::Left | NavDirection::Right => {
                        let top = if r.y > from.y {
                            r.y as int
                        } else {
                            from.y as int
                        };
                        let bottom = if r.y + r.height < from.y + from.height {
                            r.y + r.height
                        } else {
                            from.y + from.height
                        };
                        bottom - top
                    },
                    NavDirection::Up | NavDirection::Down => {
                        let left = if r.x > from.x {
                            r.x as int
                        } else {
                            from.x as int
                        };
                        let right = if r.x + r.width < from.x + from.width {
                            r.x + r.width
                        } else {
                            from.x + from.width
                        };
                        right - left
                    },
                };
            &&& shared(panes[chosen].rect) >= shared(panes[other].rect)
            &&& shared(panes[chosen].rect) == shared(panes[other].rect) ==> chosen <= other
        }),
{
    assert(candidate(panes, focused, direction, chosen));
}

// --- The boundary to resize ---

/// How far a boundary is from the edge of `focused` that `nav` points at.
pub open spec fn edge_distance(split: SplitView, focused: Rect, nav: NavDirection) -> int {
    let edge = match nav {
        NavDirection::Left => focused.x as int,
        NavDirection::Right => focused.x + focused.width,
        NavDirection::Up => focused.y as int,
        NavDirection::Down => focused.y + focused.height,
    };
    larger(split.pos - edge, edge - split.pos)
}

/// A boundary that resizing `focused` toward `nav` may move: it runs the
/// right way, its split spans the pane's other axis, and it is at the edge.
pub open spec fn resizes(split: SplitView, focused: Rect, nav: NavDirection) -> bool {
    &&& split.direction == axis_of(nav)
    &&& alongside(split.area, focused, nav)
    &&& edge_distance(split, focused, nav) <= 1
}

/// The far edges that [`nearest_resize_split`] computes are coordinates.
pub open spec fn measurable(split: SplitView, focused: Rect, nav: NavDirection) -> bool {
    split.direction == axis_of(nav) ==> focused.fits() && match axis_of(nav) {
        Direction::Horizontal => split.area.y + split.area.height <= 65535,
        Direction::Vertical => split.area.x + split.area.width <= 65535,
    }
}

/// Boundary `i` is the one to move: no other is closer to the edge, and no
/// earlier one as close.
pub open spec fn nearest_split(
    splits: Seq<SplitView>,
    focused: Rect,
    nav: NavDirection,
    i: int,
) -> bool {
    &&& 0 <= i < splits.len()
    &&& resizes(splits[i], focused, nav)
    &&& forall|j: int|
        0 <= j < splits.len() && resizes(#[trigger] splits[j], focused, nav) ==> {
            &&& edge_distance(splits[i], focused, nav) <= edge_distance(splits[j], focused, nav)
            &&& j < i ==> edge_distance(splits[i], focused, nav) < edge_distance(
                splits[j],
                focused,
                nav,
            )
        }
}

/// The boundary to move, if there is one.
pub open spec fn nearest_index(splits: Seq<SplitView>, focused: Rect, nav: NavDirection) -> Option<
    int,
> {
    if exists|i: int| nearest_split(splits, focused, nav, i) {
        Some(choose|i: int| nearest_split(splits, focused, nav, i))
    } else {
        None
    }
}

/// A boundary is moved only where it runs across the direction, lies within a
/// cell of the edge that the direction points at, and its split's area shares
/// a row with the pane when it stands upright, a column when it lies flat.
pub proof fn law_moved_boundary_at_edge(
    splits: Seq<SplitView>,
    focused: Rect,
    nav: NavDirection,
)
    ensures
        nearest_index(splits, focused, nav) matches Some(i) ==> {
            let split = splits[i];
            &&& 0 <= i < splits.len()
            &&& match nav {
                NavDirection::Left => -1 <= split.pos - focused.x <= 1,
                NavDirection::Right => -1 <= split.pos - (focused.x + focused.width) <= 1,
                NavDirection::Up => -1 <= split.pos - focused.y <= 1,
                NavDirection::Down => -1 <= split.pos - (focused.y + focused.height) <= 1,
            }
            &&& match nav {
                NavDirection::Left | NavDirection::Right => {
                    &&& split.direction == Direction::Horizontal
                    &&& split.area.y < focused.y + focused.height
                    &&& focused.y < split.area.y + split.area.height
                },
                NavDirection::Up | NavDirection::Down => {
                    &&& split.direction == Direction::Vertical
                    &&& split.area.x < focused.x + focused.width
                    &&& focused.x < split.area.x + split.area.width
                },
            }
        },
{
    if exists|i: int| nearest_split(splits, focused, nav, i) {
        let i = choose|i: int| nearest_split(splits, focused, nav, i);
        assert(resizes(splits[i], focused, nav));
    }
}

/// Where a boundary lies on the edge that the direction points at, one that
/// lies on it is found, and none is found that is farther from the edge.
pub proof fn law_boundary_at_edge_found(
    splits: Seq<SplitView>,
    focused: Rect,
    nav: NavDirection,
    i: int,
)
    requires
        0 <= i < splits.len(),
        match nav {
            NavDirection::Left | NavDirection::Right => {
                &&& splits[i].direction == Direction::Horizontal
                &&& splits[i].area.y < focused.y + focused.height
                &&& focused.y < splits[i].area.y + splits[i].area.height
            },
            NavDirection::Up | NavDirection::Down => {
                &&& splits[i].direction == Direction::Vertical
                &&& splits[i].area.x < focused.x + focused.width
                &&& focused.x < splits[i].area.x + splits[i].area.width
            },
        },
        match nav {
            NavDirection::Left => -1 <= splits[i].pos - focused.x <= 1,
            NavDirection::Right => -1 <= splits[i].pos - (focused.x + focused.width) <= 1,
            NavDirection::Up => -1 <= splits[i].pos - focused.y <= 1,
            NavDirection::Down => -1 <= splits[i].pos - (focused.y + focused.height) <= 1,
        },
    ensures
        nearest_index(splits, focused, nav) matches Some(found) && {
            let edge = match nav {
                NavDirection::Left => focused.x as int,
                NavDirection::Right => focused.x + focused.width,
                NavDirection::Up => focused.y as int,
                NavDirection::Down => focused.y + focused.height,
            };
            &&& splits[i].pos == edge ==> splits[found].pos == edge
            &&& splits[i].pos == edge && i < found ==> splits[i].pos != splits[found].pos
        },
{
    lemma_nearest_exists(splits, focused, nav, i);
    let k = choose|k: int| nearest_split(splits, focused, nav, k);
    assert(resizes(splits[i], focused, nav));
    assert(resizes(splits[k], focused, nav));
}

proof fn lemma_nearest_exists(splits: Seq<SplitView>, focused: Rect, nav: NavDirection, i: int)
    requires
        0 <= i < splits.len(),
        resizes(splits[i], focused, nav),
    ensures
        exists|k: int| nearest_split(splits, focused, nav, k),
    decreases splits.len(),
{
    let front = splits.drop_last();
    let last = splits.len() - 1;
    if exists|k: int| nearest_split(front, focused, nav, k) {
        let k = choose|k: int| nearest_split(front, focused, nav, k);
        assert(splits[k] == front[k]);
        let better = resizes(splits[last], focused, nav) && edge_distance(
            splits[last],
            focused,
            nav,
        ) < edge_distance(splits[k], focused, nav);
        let best = if better {
            last
        } else {
            k
        };
        assert forall|j: int|
            0 <= j < splits.len() && resizes(#[trigger] splits[j], focused, nav) implies {
            &&& edge_distance(splits[best], focused, nav) <= edge_distance(splits[j], focused, nav)
            &&& j < best ==> edge_distance(splits[best], focused, nav) < edge_distance(
                splits[j],
                focused,
                nav,
            )
        } by {
            if j < last {
                assert(splits[j] == front[j]);
                assert(resizes(front[j], focused, nav));
            }
        }
        assert(nearest_split(splits, focused, nav, best));
    } else {
        if i < last {
            assert(front[i] == splits[i]);
            lemma_nearest_exists(front, focused, nav, i);
        }
        assert forall|j: int| 0 <= j < last implies !resizes(#[trigger] splits[j], focused, nav) by {
            if resizes(splits[j], focused, nav) {
                assert(front[j] == splits[j]);
                lemma_nearest_exists(front, focused, nav, j);
            }
        }
        assert(nearest_split(splits, focused, nav, last));
    }
}

fn distance(a: u16, b: u16) -> (r: u16)
    ensures
        r == larger(a - b, b - a),
{
    if a < b {
        b - a
    } else {
        a - b
    }
}

pub fn split_edge_distance(split: &SplitBorder, focused: Rect, nav: NavDirection) -> (r: u16)
    requires
        focused.fits(),
    ensures
        r == edge_distance(split@, focused, nav),
{
    match nav {
        NavDirection::Left => distance(split.pos, focused.x),
        NavDirection::Right => distance(split.pos, focused.x + focused.width),
        NavDirection::Up => distance(split.pos, focused.y),
        NavDirection::Down => distance(split.pos, focused.y + focused.height),
    }
}

pub fn split_on_requested_edge(split: &SplitBorder, focused: Rect, nav: NavDirection) -> (r: bool)
    requires
        focused.fits(),
    ensures
        r == (edge_distance(split@, focused, nav) <= 1),
{
    split_edge_distance(split, focused, nav) <= 1
}

pub fn split_area_overlaps_focused_pane(
    split: &SplitBorder,
    focused: Rect,
    nav: NavDirection,
) -> (r: bool)
    requires
        split.direction == axis_of(nav),
        measurable(split@, focused, nav),
    ensures
        r == alongside(split.area, focused, nav),
{
    match nav {
        NavDirection::Left | NavDirection::Right => ranges_overlap(
            split.area.y,
            split.area.height,
            focused.y,
            focused.height,
        ),
        NavDirection::Up | NavDirection::Down => ranges_overlap(
            split.area.x,
            split.area.width,
            focused.x,
            focused.width,
        ),
    }
}

/// The split closest to the edge of `focused` that `nav` points at, among
/// splits running the right way and overlapping the focused pane's other
/// axis.
pub fn nearest_resize_split(
    splits: &Vec<SplitBorder>,
    focused: Rect,
    nav: NavDirection,
) -> (found: Option<usize>)
    requires
        forall|i: int|
            0 <= i < splits.len() ==> measurable(#[trigger] border_views(splits@)[i], focused, nav),
    ensures
        match found {
            Some(i) => nearest_index(border_views(splits@), focused, nav) == Some(i as int),
            None => nearest_index(border_views(splits@), focused, nav) is None,
        },
        found matches Some(i) ==> nearest_split(border_views(splits@), focused, nav, i as int),
{
    let target_direction = axis(nav);
    let ghost views = border_views(splits@);
    let mut best: Option<(usize, u16)> = None;
    let mut i: usize = 0;
    while i < splits.len()
        invariant
            i <= splits.len(),
            target_direction == axis_of(nav),
            views == border_views(splits@),
            views.len() == splits.len(),
            forall|k: int| 0 <= k < splits.len() ==> measurable(#[trigger] views[k], focused, nav),
            match best {
                None => forall|j: int|
                    0 <= j < i ==> !resizes(#[trigger] views[j], focused, nav),
                Some((k, d)) => {
                    &&& k < i
                    &&& resizes(views[k as int], focused, nav)
                    &&& d == edge_distance(views[k as int], focused, nav)
                    &&& forall|j: int|
                        0 <= j < i && resizes(#[trigger] views[j], focused, nav) ==> {
                            &&& d <= edge_distance(views[j], focused, nav)
                            &&& j < k ==> d < edge_distance(views[j], focused, nav)
                        }
                },
            },
        decreases splits.len() - i,
    {
        let split = &splits[i];
        assert(views[i as int] == split@);
        if split.direction == target_direction && split_area_overlaps_focused_pane(
            split,
            focused,
            nav,
        ) && split_on_requested_edge(split, focused, nav) {
            let d = split_edge_distance(split, focused, nav);
            let nearer = match best {
                None => true,
                Some((_, least)) => d < least,
            };
            if nearer {
                best = Some((i, d));
            }
        }
        i = i + 1;
    }
    match best {
        None => {
            assert forall|k: int| !nearest_split(views, focused, nav, k) by {}
            None
        },
        Some((k, _)) => {
            assert(nearest_split(views, focused, nav, k as int));
            proof {
                let chosen = choose|c: int| nearest_split(views, focused, nav, c);
                assert(nearest_split(views, focused, nav, chosen));
                assert(resizes(views[chosen], focused, nav));
                assert(resizes(views[k as int], focused, nav));
            }
            Some(k)
        },
    }
}

} // verus!
