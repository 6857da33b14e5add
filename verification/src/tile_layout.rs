//! Binary-space-partition layout tree for tiling conversation panes.
//!
//! A [`TileLayout`] is a binary tree: each leaf is a pane holding one
//! conversation, and each inner node is a split that divides its rectangle
//! into a first and a second half along a ratio. [`TileLayout::panes`] and
//! [`TileLayout::splits`] turn the tree into rectangles for a given area;
//! [`TileLayout::can_split`] keeps a split from producing a pane smaller
//! than a conversation can usefully show.

use vstd::prelude::*;

use crate::geometry::{Direction, Rect};
#[allow(unused_imports)]
use crate::geometry::rect_new;
use crate::ratio::{even_share, settle_ratio, step_share, valid_split_ratio, Ratio};
#[allow(unused_imports)]
use crate::ratio::{
    between, greatest_share, least_share, settled_ratio, share_of, split_ratio, step_undefined,
    stepped_units,
};
#[allow(unused_imports)]
use crate::ratio::lemma_share_bounds;
#[allow(unused_imports)]
use crate::tile_laws::{
    law_close_keeps_shares, law_fitting_divides, law_focus_keeps_rects, law_panes_fit,
    law_ratio_keeps_ids, law_ratio_read_back, law_set_ratio_keeps_shares, law_some_pane,
    law_split_ids, law_split_keeps_shares, law_splits_have_ratios, law_successor,
    law_without_distinct, lemma_pane_rect_found, lemma_pane_rect_ids, lemma_splits_measurable,
};
#[allow(unused_imports)]
use crate::tile_navigation::{axis_of, nearest_index, opposite};
use crate::tile_navigation::{nearest_resize_split, opposite_direction, NavDirection};

verus! {

/// Narrowest a pane may be after a split, in columns.
pub const MIN_PANE_WIDTH: u16 = 40;

/// Shortest a pane may be after a split, in rows.
pub const MIN_PANE_HEIGHT: u16 = 8;

/// Identifies one pane within a single [`TileLayout`]. Ids are allocated by
/// that layout and are not reused while the pane exists.
#[derive(Debug, Clone, Copy, PartialEq, Eq, PartialOrd, Ord, Hash, Structural)]
pub struct PaneId(pub u32);

impl PaneId {
    /// The id's raw value, for saving a layout.
    pub fn raw(self) -> (value: u32)
        ensures
            value == self.0,
    {
        self.0
    }

    /// Rebuild a `PaneId` from a value a layout previously saved.
    pub fn from_raw(id: u32) -> (pane: Self)
        ensures
            pane == PaneId(id),
    {
        PaneId(id)
    }
}

/// One node of the binary-space-partition tree.
#[derive(Debug)]
pub enum Node {
    /// A leaf holding one pane.
    Pane(PaneId),
    /// An inner node dividing `first` and `second` along `direction`.
    Split {
        direction: Direction,
        /// Share of the split's area given to `first`, kept in `0.1..=0.9`.
        ratio: Ratio,
        first: Box<Node>,
        second: Box<Node>,
    },
}

/// The trees hold the same panes in the same places, with equal shares.
pub open spec fn same_tree(a: Node, b: Node) -> bool
    decreases a,
{
    match (a, b) {
        (Node::Pane(x), Node::Pane(y)) => x == y,
        (
            Node::Split { direction, ratio, first, second },
            Node::Split { direction: along, ratio: share, first: left, second: right },
        ) => direction == along && ratio.equals(share) && same_tree(*first, *left) && same_tree(
            *second,
            *right,
        ),
        _ => false,
    }
}

/// A tree is equal to itself as long as each of its shares is a number.
pub proof fn law_same_tree_reflexive(root: Node)
    requires
        keeps_shares(root),
    ensures
        same_tree(root, root),
    decreases root,
{
    match root {
        Node::Pane(_) => {},
        Node::Split { first, second, .. } => {
            law_same_tree_reflexive(*first);
            law_same_tree_reflexive(*second);
        },
    }
}

fn compare_trees(a: &Node, b: &Node) -> (same: bool)
    ensures
        same == same_tree(*a, *b),
    decreases *a,
{
    match (a, b) {
        (Node::Pane(x), Node::Pane(y)) => *x == *y,
        (
            Node::Split { direction, ratio, first, second },
            Node::Split { direction: along, ratio: share, first: left, second: right },
        ) => *direction == *along && ratio.same_number(*share) && compare_trees(first, left)
            && compare_trees(second, right),
        _ => false,
    }
}

impl PartialEq for Node {
    fn eq(&self, other: &Node) -> (same: bool) {
        compare_trees(self, other)
    }
}

impl vstd::std_specs::cmp::PartialEqSpecImpl for Node {
    open spec fn obeys_eq_spec() -> bool {
        true
    }

    open spec fn eq_spec(&self, other: &Node) -> bool {
        same_tree(*self, *other)
    }
}

fn copy_tree(root: &Node) -> (copy: Node)
    ensures
        copy == *root,
    decreases *root,
{
    match root {
        Node::Pane(id) => Node::Pane(*id),
        Node::Split { direction, ratio, first, second } => Node::Split {
            direction: *direction,
            ratio: *ratio,
            first: Box::new(copy_tree(first)),
            second: Box::new(copy_tree(second)),
        },
    }
}

impl Clone for Node {
    fn clone(&self) -> (copy: Node)
        ensures
            copy == *self,
    {
        copy_tree(self)
    }
}

/// A pane's rectangle and focus state, as computed for one area.
#[derive(Debug, Clone, Copy, PartialEq, Eq, Structural)]
pub struct PaneInfo {
    pub id: PaneId,
    pub rect: Rect,
    pub is_focused: bool,
}

/// One split boundary within a laid-out area, for resize.
#[derive(Debug)]
pub struct SplitBorder {
    /// Column (horizontal split) or row (vertical split) of the divider.
    pub pos: u16,
    pub direction: Direction,
    /// Share of `area` given to the split's first child.
    pub ratio: Ratio,
    /// The split node's own area, before dividing it.
    pub area: Rect,
    /// Steps from the root to this split: `false` into `first`, `true` into
    /// `second`.
    pub path: Vec<bool>,
}

/// What a [`SplitBorder`] says, with its path as a sequence.
#[verifier::ext_equal]
pub struct SplitView {
    pub pos: u16,
    pub direction: Direction,
    pub ratio: Ratio,
    pub area: Rect,
    pub path: Seq<bool>,
}

impl View for SplitBorder {
    type V = SplitView;

    open spec fn view(&self) -> SplitView {
        SplitView {
            pos: self.pos,
            direction: self.direction,
            ratio: self.ratio,
            area: self.area,
            path: self.path@,
        }
    }
}

impl Clone for SplitBorder {
    fn clone(&self) -> (copy: SplitBorder)
        ensures
            copy@ == self@,
    {
        SplitBorder {
            pos: self.pos,
            direction: self.direction,
            ratio: self.ratio,
            area: self.area,
            path: self.path.clone(),
        }
    }
}

/// The views of a list of boundaries.
pub open spec fn border_views(borders: Seq<SplitBorder>) -> Seq<SplitView> {
    borders.map_values(|border: SplitBorder| border@)
}

// --- Dividing a rectangle ---

/// Where the second half starts must be a coordinate.
pub open spec fn divides(area: Rect, direction: Direction, ratio: Ratio) -> bool {
    match direction {
        Direction::Horizontal => area.x + share_of(area.width as nat, ratio) <= 65535,
        Direction::Vertical => area.y + share_of(area.height as nat, ratio) <= 65535,
    }
}

/// The two halves of `area`: the first gets its share of the length, the
/// second gets what is left.
pub open spec fn halves(area: Rect, direction: Direction, ratio: Ratio) -> (Rect, Rect) {
    match direction {
        Direction::Horizontal => {
            let first = share_of(area.width as nat, ratio) as u16;
            let second = (if first > area.width {
                0
            } else {
                area.width - first
            }) as u16;
            (
                rect_new(area.x, area.y, first, area.height),
                rect_new((area.x + first) as u16, area.y, second, area.height),
            )
        },
        Direction::Vertical => {
            let first = share_of(area.height as nat, ratio) as u16;
            let second = (if first > area.height {
                0
            } else {
                area.height - first
            }) as u16;
            (
                rect_new(area.x, area.y, area.width, first),
                rect_new(area.x, (area.y + first) as u16, area.width, second),
            )
        },
    }
}

/// Divide `area` into two rects along `direction`, giving `ratio` of it to
/// the first.
pub fn split_rect(area: Rect, direction: Direction, ratio: Ratio) -> (r: (Rect, Rect))
    requires
        divides(area, direction, ratio),
    ensures
        r == halves(area, direction, ratio),
        r.0.fits(),
        r.1.fits(),
{
    match direction {
        Direction::Horizontal => {
            let first_width = ratio.share(area.width);
            let second_width = area.width.saturating_sub(first_width);
            (
                Rect::new(area.x, area.y, first_width, area.height),
                Rect::new(area.x + first_width, area.y, second_width, area.height),
            )
        },
        Direction::Vertical => {
            let first_height = ratio.share(area.height);
            let second_height = area.height.saturating_sub(first_height);
            (
                Rect::new(area.x, area.y, area.width, first_height),
                Rect::new(area.x, area.y + first_height, area.width, second_height),
            )
        },
    }
}

// --- What a tree holds ---

/// The panes of a tree, first halves before second halves.
pub open spec fn ids_of(node: Node) -> Seq<PaneId>
    decreases node,
{
    match node {
        Node::Pane(id) => seq![id],
        Node::Split { first, second, .. } => ids_of(*first) + ids_of(*second),
    }
}

/// Every division that laying the tree out in `area` makes stays within the
/// coordinates.
pub open spec fn lays_out(node: Node, area: Rect) -> bool
    decreases node,
{
    match node {
        Node::Pane(_) => true,
        Node::Split { direction, ratio, first, second } => {
            let (a, b) = halves(area, direction, ratio);
            divides(area, direction, ratio) && lays_out(*first, a) && lays_out(*second, b)
        },
    }
}

/// The rectangles that a tree gives its panes within `area`.
pub open spec fn panes_of(node: Node, area: Rect, focus: PaneId) -> Seq<PaneInfo>
    decreases node,
{
    match node {
        Node::Pane(id) => seq![PaneInfo { id, rect: area, is_focused: id == focus }],
        Node::Split { direction, ratio, first, second } => {
            let (a, b) = halves(area, direction, ratio);
            panes_of(*first, a, focus) + panes_of(*second, b, focus)
        },
    }
}

/// The boundaries of a tree laid out in `area`, each before those inside it.
pub open spec fn splits_of(node: Node, area: Rect, path: Seq<bool>) -> Seq<SplitView>
    decreases node,
{
    match node {
        Node::Pane(_) => seq![],
        Node::Split { direction, ratio, first, second } => {
            let (a, b) = halves(area, direction, ratio);
            let pos = (match direction {
                Direction::Horizontal => a.x + a.width,
                Direction::Vertical => a.y + a.height,
            }) as u16;
            seq![SplitView { pos, direction, ratio, area, path }] + splits_of(
                *first,
                a,
                path.push(false),
            ) + splits_of(*second, b, path.push(true))
        },
    }
}

/// Every split's path and ratio.
pub open spec fn ratios_of(node: Node, path: Seq<bool>) -> Seq<(Seq<bool>, Ratio)>
    decreases node,
{
    match node {
        Node::Pane(_) => seq![],
        Node::Split { ratio, first, second, .. } => seq![(path, ratio)] + ratios_of(
            *first,
            path.push(false),
        ) + ratios_of(*second, path.push(true)),
    }
}

/// Every split gives its first half between a tenth and nine tenths.
pub open spec fn keeps_shares(node: Node) -> bool
    decreases node,
{
    match node {
        Node::Pane(_) => true,
        Node::Split { ratio, first, second, .. } => ratio.is_share() && keeps_shares(*first)
            && keeps_shares(*second),
    }
}

/// The tree with every pane `target` replaced by a split that holds it first
/// and `new_id` second.
pub open spec fn split_tree(
    node: Node,
    target: PaneId,
    direction: Direction,
    new_id: PaneId,
    ratio: Ratio,
) -> Node
    decreases node,
{
    match node {
        Node::Pane(id) => if id == target {
            Node::Split {
                direction,
                ratio,
                first: Box::new(Node::Pane(id)),
                second: Box::new(Node::Pane(new_id)),
            }
        } else {
            node
        },
        Node::Split { direction: d, ratio: r, first, second } => Node::Split {
            direction: d,
            ratio: r,
            first: Box::new(split_tree(*first, target, direction, new_id, ratio)),
            second: Box::new(split_tree(*second, target, direction, new_id, ratio)),
        },
    }
}

/// The tree without the pane `target`: the other half of its split takes the
/// split's place. Nothing is left of a tree that holds no other pane.
pub open spec fn without(node: Node, target: PaneId) -> Option<Node>
    decreases node,
{
    match node {
        Node::Pane(id) => if id == target {
            None
        } else {
            Some(node)
        },
        Node::Split { direction, ratio, first, second } => match (
            without(*first, target),
            without(*second, target),
        ) {
            (None, other) => other,
            (kept, None) => kept,
            (Some(a), Some(b)) => Some(
                Node::Split { direction, ratio, first: Box::new(a), second: Box::new(b) },
            ),
        },
    }
}

/// The ratio of the split at `path`, if there is a split there.
pub open spec fn ratio_at(node: Node, path: Seq<bool>) -> Option<Ratio>
    decreases node,
{
    match node {
        Node::Pane(_) => None,
        Node::Split { ratio, first, second, .. } => if path.len() == 0 {
            Some(ratio)
        } else if path[0] {
            ratio_at(*second, path.drop_first())
        } else {
            ratio_at(*first, path.drop_first())
        },
    }
}

/// The tree with the ratio of the split at `path` set to `value`.
pub open spec fn with_ratio_at(node: Node, path: Seq<bool>, value: Ratio) -> Node
    decreases node,
{
    match node {
        Node::Pane(_) => node,
        Node::Split { direction, ratio, first, second } => if path.len() == 0 {
            Node::Split { direction, ratio: value, first, second }
        } else if path[0] {
            Node::Split {
                direction,
                ratio,
                first,
                second: Box::new(with_ratio_at(*second, path.drop_first(), value)),
            }
        } else {
            Node::Split {
                direction,
                ratio,
                first: Box::new(with_ratio_at(*first, path.drop_first(), value)),
                second,
            }
        },
    }
}

// --- Tree operations ---

fn fits_area(node: &Node, area: Rect) -> (r: bool)
    ensures
        r == lays_out(*node, area),
    decreases *node,
{
    match node {
        Node::Pane(_) => true,
        Node::Split { direction, ratio, first, second } => {
            let start = match direction {
                Direction::Horizontal => area.x,
                Direction::Vertical => area.y,
            };
            let length = match direction {
                Direction::Horizontal => area.width,
                Direction::Vertical => area.height,
            };
            if ratio.share(length) > 65535 - start {
                return false;
            }
            let (a, b) = split_rect(area, *direction, *ratio);
            fits_area(first, a) && fits_area(second, b)
        },
    }
}

fn collect_panes(node: &Node, area: Rect, focus: PaneId, result: &mut Vec<PaneInfo>)
    requires
        lays_out(*node, area),
    ensures
        final(result)@ == old(result)@ + panes_of(*node, area, focus),
    decreases *node,
{
    match node {
        Node::Pane(id) => {
            result.push(PaneInfo { id: *id, rect: area, is_focused: *id == focus });
        },
        Node::Split { direction, ratio, first, second } => {
            let (a, b) = split_rect(area, *direction, *ratio);
            collect_panes(first, a, focus, result);
            collect_panes(second, b, focus, result);
        },
    }
}

fn copy_path(path: &Vec<bool>) -> (copy: Vec<bool>)
    ensures
        copy@ == path@,
{
    let mut copy: Vec<bool> = Vec::new();
    let mut i: usize = 0;
    while i < path.len()
        invariant
            i <= path.len(),
            copy@ == path@.take(i as int),
        decreases path.len() - i,
    {
        copy.push(path[i]);
        i = i + 1;
        assert(copy@ == path@.take(i as int));
    }
    assert(path@.take(path@.len() as int) == path@);
    copy
}

fn collect_splits(node: &Node, area: Rect, path: Vec<bool>, result: &mut Vec<SplitBorder>)
    requires
        lays_out(*node, area),
    ensures
        border_views(final(result)@) == border_views(old(result)@) + splits_of(*node, area, path@),
    decreases *node,
{
    if let Node::Split { direction, ratio, first, second } = node {
        let (a, b) = split_rect(area, *direction, *ratio);
        let pos = match direction {
            Direction::Horizontal => a.x + a.width,
            Direction::Vertical => a.y + a.height,
        };
        let border = SplitBorder {
            pos,
            direction: *direction,
            ratio: *ratio,
            area,
            path: copy_path(&path),
        };
        let ghost entry = border@;
        let ghost before = result@;
        result.push(border);
        assert(border_views(result@) == border_views(before) + seq![entry]);
        let mut first_path = copy_path(&path);
        first_path.push(false);
        collect_splits(first, a, first_path, result);
        let mut second_path = path;
        second_path.push(true);
        collect_splits(second, b, second_path, result);
    }
}

fn collect_ids(node: &Node, ids: &mut Vec<PaneId>)
    ensures
        final(ids)@ == old(ids)@ + ids_of(*node),
    decreases *node,
{
    match node {
        Node::Pane(id) => {
            ids.push(*id);
        },
        Node::Split { first, second, .. } => {
            collect_ids(first, ids);
            collect_ids(second, ids);
        },
    }
}

fn split_at(node: Node, target: PaneId, direction: Direction, new_id: PaneId, ratio: Ratio) -> (r:
    Node)
    ensures
        r == split_tree(node, target, direction, new_id, ratio),
    decreases node,
{
    match node {
        Node::Pane(id) => if id == target {
            Node::Split {
                direction,
                ratio,
                first: Box::new(Node::Pane(id)),
                second: Box::new(Node::Pane(new_id)),
            }
        } else {
            Node::Pane(id)
        },
        Node::Split { direction: d, ratio: r, first, second } => Node::Split {
            direction: d,
            ratio: r,
            first: Box::new(split_at(*first, target, direction, new_id, ratio)),
            second: Box::new(split_at(*second, target, direction, new_id, ratio)),
        },
    }
}

fn remove_pane(node: Node, target: PaneId) -> (r: Option<Node>)
    ensures
        r == without(node, target),
    decreases node,
{
    match node {
        Node::Pane(id) => if id == target {
            None
        } else {
            Some(Node::Pane(id))
        },
        Node::Split { direction, ratio, first, second } => match (
            remove_pane(*first, target),
            remove_pane(*second, target),
        ) {
            (None, Some(kept)) => Some(kept),
            (Some(kept), None) => Some(kept),
            (Some(first), Some(second)) => Some(
                Node::Split { direction, ratio, first: Box::new(first), second: Box::new(second) },
            ),
            (None, None) => None,
        },
    }
}

fn set_ratio_at(node: &mut Node, path: &Vec<bool>, from: usize, new_ratio: Ratio) -> (r: bool)
    requires
        from <= path.len(),
    ensures
        r == ratio_at(*old(node), path@.skip(from as int)).is_some(),
        *final(node) == with_ratio_at(*old(node), path@.skip(from as int), new_ratio),
    decreases *old(node),
{
    match node {
        Node::Pane(_) => false,
        Node::Split { ratio, first, second, .. } => {
            if from == path.len() {
                *ratio = new_ratio;
                true
            } else {
                assert(path@.skip(from as int).drop_first() == path@.skip(from as int + 1));
                if path[from] {
                    set_ratio_at(second, path, from + 1, new_ratio)
                } else {
                    set_ratio_at(first, path, from + 1, new_ratio)
                }
            }
        },
    }
}

fn get_ratio_at(node: &Node, path: &Vec<bool>, from: usize) -> (r: Option<Ratio>)
    requires
        from <= path.len(),
    ensures
        r == ratio_at(*node, path@.skip(from as int)),
    decreases *node,
{
    match node {
        Node::Pane(_) => None,
        Node::Split { ratio, first, second, .. } => {
            if from == path.len() {
                Some(*ratio)
            } else {
                assert(path@.skip(from as int).drop_first() == path@.skip(from as int + 1));
                if path[from] {
                    get_ratio_at(second, path, from + 1)
                } else {
                    get_ratio_at(first, path, from + 1)
                }
            }
        },
    }
}

fn collect_ratios(node: &Node, path: Vec<bool>, out: &mut Vec<(Vec<bool>, Ratio)>)
    ensures
        ratio_views(final(out)@) == ratio_views(old(out)@) + ratios_of(*node, path@),
    decreases *node,
{
    if let Node::Split { ratio, first, second, .. } = node {
        let ghost before = out@;
        out.push((copy_path(&path), *ratio));
        assert(ratio_views(out@) == ratio_views(before) + seq![(path@, *ratio)]);
        let mut first_path = copy_path(&path);
        first_path.push(false);
        collect_ratios(first, first_path, out);
        let mut second_path = path;
        second_path.push(true);
        collect_ratios(second, second_path, out);
    }
}

/// A list of paths and ratios, the paths as sequences.
pub open spec fn ratio_views(list: Seq<(Vec<bool>, Ratio)>) -> Seq<(Seq<bool>, Ratio)> {
    list.map_values(|entry: (Vec<bool>, Ratio)| (entry.0@, entry.1))
}

/// Every split's path and ratio, for detecting whether a resize changed
/// anything.
fn split_ratios(node: &Node) -> (list: Vec<(Vec<bool>, Ratio)>)
    ensures
        ratio_views(list@) == ratios_of(*node, seq![]),
{
    let mut list: Vec<(Vec<bool>, Ratio)> = Vec::new();
    collect_ratios(node, Vec::new(), &mut list);
    list
}

/// Two numbers are equal as numbers.
pub open spec fn same_ratio(a: Ratio, b: Ratio) -> bool {
    !a.nan() && !b.nan() && a.units() == b.units()
}

/// Two lists name the same splits with equal ratios.
pub open spec fn same_ratios(a: Seq<(Seq<bool>, Ratio)>, b: Seq<(Seq<bool>, Ratio)>) -> bool {
    &&& a.len() == b.len()
    &&& forall|i: int|
        0 <= i < a.len() ==> (#[trigger] a[i]).0 == b[i].0 && same_ratio(a[i].1, b[i].1)
}

fn paths_equal(a: &Vec<bool>, b: &Vec<bool>) -> (r: bool)
    ensures
        r == (a@ == b@),
{
    if a.len() != b.len() {
        return false;
    }
    let mut i: usize = 0;
    while i < a.len()
        invariant
            i <= a.len(),
            a.len() == b.len(),
            forall|j: int| 0 <= j < i ==> a[j] == b[j],
        decreases a.len() - i,
    {
        if a[i] != b[i] {
            return false;
        }
        i = i + 1;
    }
    assert(a@ =~= b@);
    true
}

fn ratios_equal(a: &Vec<(Vec<bool>, Ratio)>, b: &Vec<(Vec<bool>, Ratio)>) -> (r: bool)
    ensures
        r == same_ratios(ratio_views(a@), ratio_views(b@)),
{
    if a.len() != b.len() {
        return false;
    }
    let ghost va = ratio_views(a@);
    let ghost vb = ratio_views(b@);
    let mut i: usize = 0;
    while i < a.len()
        invariant
            i <= a.len(),
            a.len() == b.len(),
            va == ratio_views(a@),
            vb == ratio_views(b@),
            forall|j: int|
                0 <= j < i ==> (#[trigger] va[j]).0 == vb[j].0 && same_ratio(va[j].1, vb[j].1),
        decreases a.len() - i,
    {
        if !paths_equal(&a[i].0, &b[i].0) || !a[i].1.same_value(b[i].1) {
            assert(va[i as int].0 == a[i as int].0@ && vb[i as int].0 == b[i as int].0@);
            return false;
        }
        i = i + 1;
    }
    true
}

fn holds(ids: &Vec<PaneId>, id: PaneId) -> (r: bool)
    ensures
        r == ids@.contains(id),
{
    let mut i: usize = 0;
    while i < ids.len()
        invariant
            i <= ids.len(),
            forall|j: int| 0 <= j < i ==> ids[j] != id,
        decreases ids.len() - i,
    {
        if ids[i] == id {
            return true;
        }
        i = i + 1;
    }
    false
}

// --- The layout ---

/// A binary-space-partition tree of panes, with a focused leaf.
#[derive(Debug)]
pub struct TileLayout {
    root: Node,
    focus: PaneId,
    /// The pane focused before `focus`, so `close_focused` can return to it.
    /// Only a real focus change sets this; tree edits that take a target
    /// pane directly (`split_pane`, `close_pane`) leave it alone.
    prev_focus: Option<PaneId>,
    /// The next id `split_pane` will hand out.
    next_id: u32,
}

/// What a [`TileLayout`] holds.
pub struct LayoutView {
    pub root: Node,
    pub focus: PaneId,
    pub prev_focus: Option<PaneId>,
    pub next_id: u32,
}

impl View for TileLayout {
    type V = LayoutView;

    closed spec fn view(&self) -> LayoutView {
        LayoutView {
            root: self.root,
            focus: self.focus,
            prev_focus: self.prev_focus,
            next_id: self.next_id,
        }
    }
}

impl LayoutView {
    pub open spec fn ids(self) -> Seq<PaneId> {
        ids_of(self.root)
    }

    pub open spec fn panes(self, area: Rect) -> Seq<PaneInfo> {
        panes_of(self.root, area, self.focus)
    }

    pub open spec fn splits(self, area: Rect) -> Seq<SplitView> {
        splits_of(self.root, area, seq![])
    }

    /// No pane occurs twice, the focused pane is in the tree, and ids yet to
    /// be handed out are above all those in use.
    pub open spec fn well_formed(self) -> bool {
        &&& self.ids().no_duplicates()
        &&& self.ids().contains(self.focus)
        &&& self.prev_focus matches Some(prev) ==> self.ids().contains(prev)
        &&& forall|id: PaneId| #[trigger] self.ids().contains(id) ==> id.0 < self.next_id
    }

    /// The layout after a focus change.
    pub open spec fn focusing(self, id: PaneId) -> LayoutView {
        if id == self.focus {
            self
        } else {
            LayoutView { focus: id, prev_focus: Some(self.focus), ..self }
        }
    }

    /// The layout once pane `id` was asked for the focus.
    pub open spec fn focus_asked(self, id: PaneId) -> LayoutView {
        if self.ids().contains(id) {
            self.focusing(id)
        } else {
            self
        }
    }

    /// The layout once the split at `path` was asked for `ratio`.
    pub open spec fn ratio_asked(self, path: Seq<bool>, ratio: Ratio) -> LayoutView {
        match ratio_at(self.root, path) {
            Some(current) => LayoutView {
                root: with_ratio_at(self.root, path, settled_ratio(current, ratio)),
                ..self
            },
            None => self,
        }
    }

    /// Laying the tree out in `area`, and then halving one of its panes,
    /// stays within the coordinates.
    pub open spec fn halves_in(self, direction: Direction, area: Rect) -> bool {
        lays_out(self.root, area) && (self.root is Pane ==> divides(area, direction, even_share()))
    }

    /// Splitting `target` evenly leaves both halves large enough for a
    /// conversation.
    pub open spec fn splittable(self, target: PaneId, direction: Direction, area: Rect) -> bool {
        pane_rect(self.panes(area), target) matches Some(rect) && {
            let (first, second) = halves(rect, direction, even_share());
            large_enough(first) && large_enough(second)
        }
    }

    /// The pane that takes over when the focused one is closed: the one
    /// focused before it if it is still there, else the next one in tree
    /// order, else the one before.
    pub open spec fn successor(self) -> PaneId {
        let ids = self.ids();
        let position = ids.index_of_first(self.focus).unwrap();
        match self.prev_focus {
            Some(prev) if prev != self.focus && ids.contains(prev) => prev,
            _ => if position + 1 < ids.len() {
                ids[position + 1]
            } else {
                ids[position - 1]
            },
        }
    }

    /// The layout after closing the focused pane.
    pub open spec fn closing_focused(self) -> LayoutView {
        match without(self.root, self.focus) {
            _ if self.ids().len() <= 1 => self,
            None => LayoutView { root: Node::Pane(PaneId(0)), ..self },
            Some(root) => LayoutView {
                root,
                focus: self.successor(),
                prev_focus: None,
                next_id: self.next_id,
            },
        }
    }

    /// The layout after closing pane `id`.
    pub open spec fn closing(self, id: PaneId) -> LayoutView {
        if self.focus == id {
            self.closing_focused()
        } else if self.ids().len() <= 1 || !self.ids().contains(id) {
            self
        } else {
            match without(self.root, id) {
                None => LayoutView { root: Node::Pane(PaneId(0)), ..self },
                Some(root) => LayoutView {
                    root,
                    prev_focus: if self.prev_focus == Some(id) {
                        None
                    } else {
                        self.prev_focus
                    },
                    ..self
                },
            }
        }
    }

    /// The boundary that growing the pane `id` toward `nav` moves.
    pub open spec fn resized_split(self, id: PaneId, nav: NavDirection, area: Rect) -> Option<
        SplitView,
    > {
        let splits = self.splits(area);
        match pane_rect(self.panes(area), id) {
            None => None,
            Some(rect) => match (
                nearest_index(splits, rect, nav),
                nearest_index(splits, rect, opposite(nav)),
            ) {
                (Some(i), _) => Some(splits[i]),
                (None, Some(i)) => Some(splits[i]),
                (None, None) => None,
            },
        }
    }

    /// The far edges that a resize along `nav` computes are coordinates.
    pub open spec fn resizable_in(self, nav: NavDirection, area: Rect) -> bool {
        &&& lays_out(self.root, area)
        &&& self.root matches Node::Split { direction, .. } ==> direction == axis_of(nav) ==> (
        match direction {
            Direction::Horizontal => area.y + area.height <= 65535,
            Direction::Vertical => area.x + area.width <= 65535,
        })
    }
}

/// The rectangle of the first pane `target`.
pub open spec fn pane_rect(panes: Seq<PaneInfo>, target: PaneId) -> Option<Rect>
    decreases panes.len(),
{
    if panes.len() == 0 {
        None
    } else if panes[0].id == target {
        Some(panes[0].rect)
    } else {
        pane_rect(panes.drop_first(), target)
    }
}

/// Wide and tall enough for a conversation.
pub open spec fn large_enough(rect: Rect) -> bool {
    rect.width >= MIN_PANE_WIDTH && rect.height >= MIN_PANE_HEIGHT
}

/// `after` is `before` with the ratio of `split`, if there is one, moved by
/// `delta` and brought between a tenth and nine tenths. A sum that is not a
/// number moves nothing.
pub open spec fn resized_by(
    before: Node,
    after: Node,
    split: Option<SplitView>,
    delta: Ratio,
    grows: bool,
) -> bool {
    match split {
        None => after == before,
        Some(view) => {
            let moved = ratio_at(after, view.path).unwrap();
            &&& after == with_ratio_at(before, view.path, moved)
            &&& ratio_at(after, view.path).is_some()
            &&& moved.is_share()
            &&& step_undefined(view.ratio, delta, grows) ==> moved == split_ratio(view.ratio)
            &&& !step_undefined(view.ratio, delta, grows) ==> moved.units() == between(
                stepped_units(view.ratio, delta, grows),
                least_share().units(),
                greatest_share().units(),
            )
        },
    }
}

/// Moving toward `nav` raises the ratio of the split it moves.
pub open spec fn raises(nav: NavDirection) -> bool {
    nav == NavDirection::Right || nav == NavDirection::Down
}

fn find_rect(panes: &Vec<PaneInfo>, target: PaneId) -> (r: Option<Rect>)
    ensures
        r == pane_rect(panes@, target),
{
    let mut i: usize = 0;
    assert(panes@.skip(0) == panes@);
    while i < panes.len()
        invariant
            i <= panes.len(),
            pane_rect(panes@, target) == pane_rect(panes@.skip(i as int), target),
        decreases panes.len() - i,
    {
        if panes[i].id == target {
            return Some(panes[i].rect);
        }
        assert(panes@.skip(i as int).drop_first() == panes@.skip(i as int + 1));
        i = i + 1;
    }
    None
}

impl TileLayout {
    /// Start a layout with a single pane, id 1. Returns the layout and that
    /// pane's id so the caller can set up what it shows.
    pub fn new() -> (r: (Self, PaneId))
        ensures
            r.1 == PaneId(1),
            r.0@ == (LayoutView {
                root: Node::Pane(PaneId(1)),
                focus: PaneId(1),
                prev_focus: None,
                next_id: 2,
            }),
            r.0@.well_formed(),
    {
        let root_id = PaneId(1);
        let layout = TileLayout {
            root: Node::Pane(root_id),
            focus: root_id,
            prev_focus: None,
            next_id: 2,
        };
        assert(layout@.ids()[0] == root_id);
        (layout, root_id)
    }

    /// Move focus, recording the pane being left. Does nothing when `id` is
    /// already focused.
    fn set_focus(&mut self, id: PaneId)
        ensures
            final(self)@ == old(self)@.focusing(id),
    {
        if id != self.focus {
            self.prev_focus = Some(self.focus);
            self.focus = id;
        }
    }

    pub fn focused(&self) -> (id: PaneId)
        ensures
            id == self@.focus,
    {
        self.focus
    }

    pub fn pane_count(&self) -> (count: usize)
        ensures
            count == self@.ids().len(),
    {
        self.pane_ids().len()
    }

    pub fn pane_ids(&self) -> (ids: Vec<PaneId>)
        ensures
            ids@ == self@.ids(),
    {
        let mut ids: Vec<PaneId> = Vec::new();
        collect_ids(&self.root, &mut ids);
        ids
    }

    /// Whether the tree can be laid out in `area`.
    pub fn fits_in(&self, area: Rect) -> (r: bool)
        ensures
            r == lays_out(self@.root, area),
    {
        fits_area(&self.root, area)
    }

    /// Compute every pane's rectangle within `area`.
    pub fn panes(&self, area: Rect) -> (panes: Vec<PaneInfo>)
        requires
            lays_out(self@.root, area),
        ensures
            panes@ == self@.panes(area),
    {
        let mut result: Vec<PaneInfo> = Vec::new();
        collect_panes(&self.root, area, self.focus, &mut result);
        result
    }

    /// Compute every split boundary within `area`, for drag or key resize.
    pub fn splits(&self, area: Rect) -> (borders: Vec<SplitBorder>)
        requires
            lays_out(self@.root, area),
        ensures
            border_views(borders@) == self@.splits(area),
    {
        let mut result: Vec<SplitBorder> = Vec::new();
        collect_splits(&self.root, area, Vec::new(), &mut result);
        result
    }

    /// Whether splitting `target` along `direction` would leave both halves
    /// at least [`MIN_PANE_WIDTH`] columns wide and [`MIN_PANE_HEIGHT`] rows
    /// tall. False when `target` is not in the layout.
    pub fn can_split(&self, target: PaneId, direction: Direction, area: Rect) -> (r: bool)
        requires
            self@.halves_in(direction, area),
        ensures
            r == self@.splittable(target, direction, area),
    {
        let panes = self.panes(area);
        match find_rect(&panes, target) {
            None => false,
            Some(rect) => {
                proof {
                    lemma_pane_rect_found(panes@, target);
                    if self.root is Split {
                        law_panes_fit(self.root, area, self.focus);
                        lemma_share_bounds();
                        law_fitting_divides(rect, direction, even_share());
                    }
                }
                let (first, second) = split_rect(rect, direction, even_share());
                first.width >= MIN_PANE_WIDTH && first.height >= MIN_PANE_HEIGHT && second.width
                    >= MIN_PANE_WIDTH && second.height >= MIN_PANE_HEIGHT
            },
        }
    }

    /// Split `target` without moving focus. Returns the new pane's id, or
    /// `None` when `target` is not in the layout or [`Self::can_split`]
    /// refuses the split.
    pub fn split_pane(
        &mut self,
        target: PaneId,
        direction: Direction,
        ratio: Ratio,
        area: Rect,
    ) -> (new_id: Option<PaneId>)
        requires
            old(self)@.halves_in(direction, area),
            old(self)@.splittable(target, direction, area) ==> old(self)@.next_id < u32::MAX,
        ensures
            !old(self)@.splittable(target, direction, area) ==> new_id is None && final(self)@
                == old(self)@,
            old(self)@.splittable(target, direction, area) ==> {
                &&& new_id == Some(PaneId(old(self)@.next_id))
                &&& final(self)@ == (LayoutView {
                    root: split_tree(
                        old(self)@.root,
                        target,
                        direction,
                        PaneId(old(self)@.next_id),
                        split_ratio(ratio),
                    ),
                    next_id: (old(self)@.next_id + 1) as u32,
                    ..old(self)@
                })
            },
            old(self)@.well_formed() ==> final(self)@.well_formed(),
            keeps_shares(old(self)@.root) ==> keeps_shares(final(self)@.root),
    {
        if !self.can_split(target, direction, area) {
            return None;
        }
        let new_id = PaneId(self.next_id);
        self.next_id = self.next_id + 1;
        let mut old_root = Node::Pane(PaneId(0));
        std::mem::swap(&mut old_root, &mut self.root);
        self.root = split_at(old_root, target, direction, new_id, valid_split_ratio(ratio));
        proof {
            if old(self)@.well_formed() {
                lemma_pane_rect_ids(old(self)@.root, area, old(self)@.focus, target);
                law_split_ids(old(self)@.root, target, direction, new_id, split_ratio(ratio));
            }
            if keeps_shares(old(self)@.root) {
                law_split_keeps_shares(old(self)@.root, target, direction, new_id, ratio);
            }
        }
        Some(new_id)
    }

    /// Split the focused pane with an even ratio, then focus the new pane.
    pub fn split_focused(&mut self, direction: Direction, area: Rect) -> (new_id: PaneId)
        requires
            old(self)@.halves_in(direction, area),
            old(self)@.splittable(old(self)@.focus, direction, area),
            old(self)@.next_id < u32::MAX,
            old(self)@.well_formed(),
        ensures
            new_id == PaneId(old(self)@.next_id),
            final(self)@ == (LayoutView {
                root: split_tree(
                    old(self)@.root,
                    old(self)@.focus,
                    direction,
                    new_id,
                    split_ratio(even_share()),
                ),
                next_id: (old(self)@.next_id + 1) as u32,
                ..old(self)@
            }).focusing(new_id),
            final(self)@.well_formed(),
            keeps_shares(old(self)@.root) ==> keeps_shares(final(self)@.root),
    {
        self.split_focused_with_ratio(direction, even_share(), area)
    }

    /// Split the focused pane with a chosen first-child ratio, then focus
    /// the new pane.
    pub fn split_focused_with_ratio(
        &mut self,
        direction: Direction,
        ratio: Ratio,
        area: Rect,
    ) -> (new_id: PaneId)
        requires
            old(self)@.halves_in(direction, area),
            old(self)@.splittable(old(self)@.focus, direction, area),
            old(self)@.next_id < u32::MAX,
            old(self)@.well_formed(),
        ensures
            new_id == PaneId(old(self)@.next_id),
            final(self)@ == (LayoutView {
                root: split_tree(
                    old(self)@.root,
                    old(self)@.focus,
                    direction,
                    new_id,
                    split_ratio(ratio),
                ),
                next_id: (old(self)@.next_id + 1) as u32,
                ..old(self)@
            }).focusing(new_id),
            final(self)@.well_formed(),
            keeps_shares(old(self)@.root) ==> keeps_shares(final(self)@.root),
    {
        let new_id = self.split_pane(self.focus, direction, ratio, area).unwrap();
        proof {
            law_split_ids(
                old(self)@.root,
                old(self)@.focus,
                direction,
                new_id,
                split_ratio(ratio),
            );
        }
        self.set_focus(new_id);
        new_id
    }

    /// Close the focused pane, moving focus to the pane it was opened from
    /// when that pane still exists, or to a tree-order neighbor otherwise.
    /// Returns false when it is the last pane.
    pub fn close_focused(&mut self) -> (closed: bool)
        requires
            old(self)@.ids().len() > 1 ==> old(self)@.ids().contains(old(self)@.focus),
        ensures
            final(self)@ == old(self)@.closing_focused(),
            closed == (old(self)@.ids().len() > 1 && without(
                old(self)@.root,
                old(self)@.focus,
            ).is_some()),
            old(self)@.well_formed() ==> final(self)@.well_formed() && closed == (
            old(self)@.ids().len() > 1),
            keeps_shares(old(self)@.root) ==> keeps_shares(final(self)@.root),
    {
        let ids = self.pane_ids();
        if ids.len() <= 1 {
            return false;
        }
        let target = self.focus;
        let mut position: usize = 0;
        while ids[position] != target
            invariant
                position < ids.len(),
                ids@.contains(target),
                forall|j: int| 0 <= j < position ==> ids[j] != target,
            decreases ids.len() - position,
        {
            position = position + 1;
            proof {
                let at = choose|at: int| 0 <= at < ids@.len() && ids@[at] == target;
                assert(ids@[at] == target);
            }
        }
        proof {
            ids@.index_of_first_ensures(target);
        }
        let neighbor = if position < ids.len() - 1 {
            ids[position + 1]
        } else {
            ids[position - 1]
        };
        let new_focus = match self.prev_focus {
            Some(prev) => if prev != target && holds(&ids, prev) {
                prev
            } else {
                neighbor
            },
            None => neighbor,
        };
        let mut old_root = Node::Pane(PaneId(0));
        std::mem::swap(&mut old_root, &mut self.root);
        proof {
            if old(self)@.well_formed() {
                law_without_distinct(old(self)@.root, target);
                law_successor(old(self)@);
            }
            if keeps_shares(old(self)@.root) {
                law_close_keeps_shares(old(self)@.root, target);
            }
        }
        match remove_pane(old_root, target) {
            None => false,
            Some(new_root) => {
                self.root = new_root;
                self.focus = new_focus;
                self.prev_focus = None;
                true
            },
        }
    }

    /// Close any pane. Focus and its history are untouched unless `id` was
    /// the focused pane, in which case this behaves like `close_focused`.
    pub fn close_pane(&mut self, id: PaneId) -> (closed: bool)
        requires
            old(self)@.focus == id && old(self)@.ids().len() > 1 ==> old(self)@.ids().contains(id),
        ensures
            final(self)@ == old(self)@.closing(id),
            closed == (old(self)@.ids().len() > 1 && old(self)@.ids().contains(id) && without(
                old(self)@.root,
                id,
            ).is_some()),
            old(self)@.well_formed() ==> final(self)@.well_formed() && closed == (
            old(self)@.ids().len() > 1 && old(self)@.ids().contains(id)),
            keeps_shares(old(self)@.root) ==> keeps_shares(final(self)@.root),
    {
        if self.focus == id {
            return self.close_focused();
        }
        let ids = self.pane_ids();
        if ids.len() <= 1 || !holds(&ids, id) {
            return false;
        }
        let mut old_root = Node::Pane(PaneId(0));
        std::mem::swap(&mut old_root, &mut self.root);
        proof {
            if old(self)@.well_formed() {
                law_without_distinct(old(self)@.root, id);
            }
            if keeps_shares(old(self)@.root) {
                law_close_keeps_shares(old(self)@.root, id);
            }
        }
        match remove_pane(old_root, id) {
            None => false,
            Some(new_root) => {
                self.root = new_root;
                let forgets = match self.prev_focus {
                    Some(prev) => prev == id,
                    None => false,
                };
                if forgets {
                    self.prev_focus = None;
                }
                true
            },
        }
    }

    /// Focus `id`, if the layout has such a pane.
    pub fn focus_pane(&mut self, id: PaneId)
        ensures
            final(self)@ == old(self)@.focus_asked(id),
            old(self)@.well_formed() ==> final(self)@.well_formed(),
    {
        let ids = self.pane_ids();
        if holds(&ids, id) {
            self.set_focus(id);
        }
    }

    /// Set the ratio of the split at `path`, clamped to `0.1..=0.9`. Returns
    /// whether there is a split at `path`. What is not a number leaves the
    /// ratio that is there.
    pub fn set_ratio_at(&mut self, path: &Vec<bool>, ratio: Ratio) -> (found: bool)
        ensures
            found == ratio_at(old(self)@.root, path@).is_some(),
            final(self)@ == old(self)@.ratio_asked(path@, ratio),
            ratio_at(final(self)@.root, path@) matches Some(stored) ==> stored.is_share(),
            old(self)@.well_formed() ==> final(self)@.well_formed(),
            keeps_shares(old(self)@.root) ==> keeps_shares(final(self)@.root),
    {
        assert(path@.skip(0) == path@);
        let current = match get_ratio_at(&self.root, path, 0) {
            Some(current) => current,
            None => {
                return false;
            },
        };
        let settled = settle_ratio(current, ratio);
        proof {
            law_ratio_keeps_ids(self.root, path@, settled);
            law_ratio_read_back(self.root, path@, settled);
            if keeps_shares(self.root) {
                law_set_ratio_keeps_shares(self.root, path@, settled);
            }
        }
        set_ratio_at(&mut self.root, path, 0, settled)
    }

    /// Grow or shrink the focused pane toward `nav` by `delta`, adjusting
    /// the nearest matching split.
    pub fn resize_focused(&mut self, nav: NavDirection, delta: Ratio, area: Rect)
        requires
            old(self)@.resizable_in(nav, area),
        ensures
            final(self)@.focus == old(self)@.focus,
            final(self)@.prev_focus == old(self)@.prev_focus,
            final(self)@.next_id == old(self)@.next_id,
            resized_by(
                old(self)@.root,
                final(self)@.root,
                old(self)@.resized_split(old(self)@.focus, nav, area),
                delta,
                raises(nav),
            ),
            final(self)@.ids() == old(self)@.ids(),
            old(self)@.well_formed() ==> final(self)@.well_formed(),
            keeps_shares(old(self)@.root) ==> keeps_shares(final(self)@.root),
    {
        let panes = self.panes(area);
        let focused_rect = match find_rect(&panes, self.focus) {
            Some(rect) => rect,
            None => {
                return;
            },
        };
        let splits = self.splits(area);
        let grows = match nav {
            NavDirection::Right | NavDirection::Down => true,
            NavDirection::Left | NavDirection::Up => false,
        };
        proof {
            if self.root is Split {
                law_panes_fit(self.root, area, self.focus);
            }
            lemma_pane_rect_found(panes@, self.focus);
            lemma_splits_measurable(self.root, area, nav, focused_rect);
            lemma_splits_measurable(self.root, area, opposite(nav), focused_rect);
        }
        let chosen = match nearest_resize_split(&splits, focused_rect, nav) {
            Some(i) => Some(i),
            None => nearest_resize_split(&splits, focused_rect, opposite_direction(nav)),
        };
        if let Some(i) = chosen {
            let path = &splits[i].path;
            proof {
                let view = border_views(splits@)[i as int];
                assert(view == splits[i as int]@);
                assert(Some(view) == self@.resized_split(self@.focus, nav, area));
                law_splits_have_ratios(self.root, area, seq![], i as int);
                assert(view.path.skip(0) == view.path);
            }
            let current = match get_ratio_at(&self.root, path, 0) {
                Some(ratio) => ratio,
                None => even_share(),
            };
            let moved = step_share(current, delta, grows);
            proof {
                law_ratio_keeps_ids(self.root, path@, moved);
                law_ratio_read_back(self.root, path@, moved);
                if keeps_shares(self.root) {
                    law_set_ratio_keeps_shares(self.root, path@, moved);
                }
            }
            set_ratio_at(&mut self.root, path, 0, moved);
        }
    }

    /// Resize `pane_id` as if it were focused, without disturbing the real
    /// focus. Returns whether any ratio changed.
    pub fn resize_pane(
        &mut self,
        pane_id: PaneId,
        nav: NavDirection,
        delta: Ratio,
        area: Rect,
    ) -> (changed: bool)
        requires
            old(self)@.ids().contains(pane_id) ==> old(self)@.resizable_in(nav, area),
        ensures
            final(self)@.focus == old(self)@.focus,
            final(self)@.prev_focus == old(self)@.prev_focus,
            final(self)@.next_id == old(self)@.next_id,
            !old(self)@.ids().contains(pane_id) ==> final(self)@.root == old(self)@.root
                && !changed,
            old(self)@.ids().contains(pane_id) ==> {
                &&& resized_by(
                    old(self)@.root,
                    final(self)@.root,
                    old(self)@.resized_split(pane_id, nav, area),
                    delta,
                    raises(nav),
                )
                &&& changed == !same_ratios(
                    ratios_of(final(self)@.root, seq![]),
                    ratios_of(old(self)@.root, seq![]),
                )
            },
            final(self)@.ids() == old(self)@.ids(),
            old(self)@.well_formed() ==> final(self)@.well_formed(),
            keeps_shares(old(self)@.root) ==> keeps_shares(final(self)@.root),
    {
        let ids = self.pane_ids();
        if !holds(&ids, pane_id) {
            return false;
        }
        let before = split_ratios(&self.root);
        let previous_focus = self.focus;
        self.focus = pane_id;
        proof {
            law_focus_keeps_rects(self.root, area, pane_id, previous_focus, pane_id);
        }
        self.resize_focused(nav, delta, area);
        self.focus = previous_focus;
        !ratios_equal(&split_ratios(&self.root), &before)
    }

    /// The tree's root, for saving the layout.
    pub fn root(&self) -> (root: &Node)
        ensures
            *root == self@.root,
    {
        &self.root
    }

    /// Rebuild a layout from a saved tree. Allocates new ids starting one
    /// above the highest id already present, so a later split never
    /// collides with a restored one.
    pub fn from_saved(root: Node, focus: PaneId) -> (layout: Self)
        requires
            forall|id: PaneId| #[trigger] ids_of(root).contains(id) ==> id.0 < u32::MAX,
        ensures
            layout@.root == root,
            layout@.focus == focus,
            layout@.prev_focus is None,
            exists|id: PaneId| #[trigger]
                ids_of(root).contains(id) && layout@.next_id == id.0 + 1,
            forall|id: PaneId| #[trigger] ids_of(root).contains(id) ==> id.0 < layout@.next_id,
            ids_of(root).no_duplicates() && ids_of(root).contains(focus)
                ==> layout@.well_formed(),
    {
        let mut ids: Vec<PaneId> = Vec::new();
        collect_ids(&root, &mut ids);
        let mut highest: u32 = 0;
        let mut i: usize = 0;
        proof {
            law_some_pane(root);
        }
        while i < ids.len()
            invariant
                i <= ids.len(),
                forall|id: PaneId| #[trigger] ids@.contains(id) ==> id.0 < u32::MAX,
                forall|j: int| 0 <= j < i ==> (#[trigger] ids[j]).0 <= highest,
                i > 0 ==> exists|j: int| 0 <= j < i && (#[trigger] ids[j]).0 == highest,
                highest < u32::MAX,
            decreases ids.len() - i,
        {
            assert(ids@.contains(ids@[i as int]));
            if ids[i].0 > highest || i == 0 {
                highest = ids[i].0;
                assert(ids[i as int].0 == highest);
            }
            i = i + 1;
        }
        proof {
            let j = choose|j: int| 0 <= j < ids@.len() && (#[trigger] ids@[j]).0 == highest;
            assert(ids_of(root).contains(ids@[j]));
            assert forall|id: PaneId| #[trigger] ids_of(root).contains(id) implies id.0
                < highest + 1 by {
                let at = choose|at: int| 0 <= at < ids@.len() && ids@[at] == id;
                assert(ids[at].0 <= highest);
            }
        }
        TileLayout { root, focus, prev_focus: None, next_id: highest + 1 }
    }
}

} // verus!
