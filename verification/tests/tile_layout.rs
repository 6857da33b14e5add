use mj_tui::geometry::{Direction, Rect};
use mj_tui::ratio::Ratio;
use mj_tui::tile_layout::{split_rect, Node, PaneId, PaneInfo, TileLayout, MIN_PANE_HEIGHT, MIN_PANE_WIDTH};
use mj_tui::tile_navigation::{find_in_direction, NavDirection};

fn ratio(value: f32) -> Ratio {
    Ratio::from_bits(value.to_bits())
}

fn value(ratio: Ratio) -> f32 {
    f32::from_bits(ratio.to_bits())
}

/// Area big enough that a split never trips the minimum pane size, even
/// after several nested splits shrink an individual leaf.
fn area() -> Rect {
    Rect::new(0, 0, 400, 100)
}

fn pane(id: u32) -> PaneId {
    PaneId::from_raw(id)
}

fn leaf(id: u32) -> Box<Node> {
    Box::new(Node::Pane(pane(id)))
}

fn divided(direction: Direction, share: f32, first: Box<Node>, second: Box<Node>) -> Node {
    Node::Split { direction, ratio: ratio(share), first, second }
}

fn sample_layout() -> TileLayout {
    TileLayout::from_saved(
        divided(
            Direction::Horizontal,
            0.3,
            leaf(1),
            Box::new(divided(
                Direction::Vertical,
                0.6,
                leaf(2),
                Box::new(divided(Direction::Horizontal, 0.4, leaf(3), leaf(4))),
            )),
        ),
        pane(2),
    )
}

fn pane_rect(layout: &TileLayout, pane_id: PaneId) -> Rect {
    layout
        .panes(area())
        .into_iter()
        .find_map(|info| (info.id == pane_id).then_some(info.rect))
        .expect("pane should exist")
}

fn walk(node: &Node, out: &mut Vec<(Direction, f32)>) {
    if let Node::Split { direction, ratio, first, second } = node {
        out.push((*direction, value(*ratio)));
        walk(first, out);
        walk(second, out);
    }
}

fn split_snapshot(layout: &TileLayout) -> Vec<(Direction, f32)> {
    let mut out = Vec::new();
    walk(layout.root(), &mut out);
    out
}

#[test]
fn split_focused_with_ratio_sets_new_split_ratio() {
    let (mut layout, root) = TileLayout::new();
    layout.focus_pane(root);

    layout.split_focused_with_ratio(Direction::Horizontal, ratio(0.333), area());

    let splits = split_snapshot(&layout);
    assert_eq!(splits.len(), 1);
    assert_eq!(splits[0].0, Direction::Horizontal);
    assert!((splits[0].1 - 0.333).abs() < f32::EPSILON);
}

#[test]
fn resize_pane_preserves_focus_and_reports_change() {
    let mut layout = sample_layout();
    let original_focus = layout.focused();

    assert!(layout.resize_pane(pane(1), NavDirection::Right, ratio(0.05), area()));

    assert_eq!(layout.focused(), original_focus);
    let split = split_snapshot(&layout)[0];
    assert_eq!(split.0, Direction::Horizontal);
    assert!((split.1 - 0.35).abs() < f32::EPSILON);
}

#[test]
fn resize_second_child_toward_split_decreases_ratio() {
    let (mut layout, root) = TileLayout::new();
    let right = layout.split_focused(Direction::Horizontal, area());
    layout.focus_pane(root);

    assert!(layout.resize_pane(right, NavDirection::Left, ratio(0.05), area()));

    let split = split_snapshot(&layout)[0];
    assert_eq!(split.0, Direction::Horizontal);
    assert!((split.1 - 0.45).abs() < f32::EPSILON);
    assert_eq!(layout.focused(), root);
}

#[test]
fn resize_outer_edges_shrink_focused_pane() {
    let (mut horizontal, left) = TileLayout::new();
    horizontal.split_focused(Direction::Horizontal, area());

    assert!(horizontal.resize_pane(left, NavDirection::Left, ratio(0.05), area()));
    let split = split_snapshot(&horizontal)[0];
    assert_eq!(split.0, Direction::Horizontal);
    assert!((split.1 - 0.45).abs() < f32::EPSILON);

    let (mut horizontal, _left) = TileLayout::new();
    let right = horizontal.split_focused(Direction::Horizontal, area());

    assert!(horizontal.resize_pane(right, NavDirection::Right, ratio(0.05), area()));
    let split = split_snapshot(&horizontal)[0];
    assert_eq!(split.0, Direction::Horizontal);
    assert!((split.1 - 0.55).abs() < f32::EPSILON);

    let (mut vertical, top) = TileLayout::new();
    vertical.split_focused(Direction::Vertical, area());

    assert!(vertical.resize_pane(top, NavDirection::Up, ratio(0.05), area()));
    let split = split_snapshot(&vertical)[0];
    assert_eq!(split.0, Direction::Vertical);
    assert!((split.1 - 0.45).abs() < f32::EPSILON);

    let (mut vertical, _top) = TileLayout::new();
    let bottom = vertical.split_focused(Direction::Vertical, area());

    assert!(vertical.resize_pane(bottom, NavDirection::Down, ratio(0.05), area()));
    let split = split_snapshot(&vertical)[0];
    assert_eq!(split.0, Direction::Vertical);
    assert!((split.1 - 0.55).abs() < f32::EPSILON);
}

#[test]
fn resize_outer_edge_falls_back_to_horizontal_ancestor_split() {
    let mut layout = TileLayout::from_saved(
        divided(
            Direction::Horizontal,
            0.6,
            Box::new(divided(Direction::Vertical, 0.5, leaf(1), leaf(2))),
            leaf(3),
        ),
        pane(1),
    );
    let before = pane_rect(&layout, pane(1));

    assert!(layout.resize_pane(pane(1), NavDirection::Left, ratio(0.05), area()));

    let after = pane_rect(&layout, pane(1));
    assert_eq!(after.height, before.height);
    assert!(after.width < before.width);
    let splits = split_snapshot(&layout);
    assert_eq!(splits[0].0, Direction::Horizontal);
    assert!((splits[0].1 - 0.55).abs() < f32::EPSILON);
    assert_eq!(splits[1], (Direction::Vertical, 0.5));
}

#[test]
fn resize_outer_edge_falls_back_to_vertical_ancestor_split() {
    let mut layout = TileLayout::from_saved(
        divided(
            Direction::Vertical,
            0.6,
            Box::new(divided(Direction::Horizontal, 0.5, leaf(1), leaf(2))),
            leaf(3),
        ),
        pane(1),
    );
    let before = pane_rect(&layout, pane(1));

    assert!(layout.resize_pane(pane(1), NavDirection::Up, ratio(0.05), area()));

    let after = pane_rect(&layout, pane(1));
    assert_eq!(after.width, before.width);
    assert!(after.height < before.height);
    let splits = split_snapshot(&layout);
    assert_eq!(splits[0].0, Direction::Vertical);
    assert!((splits[0].1 - 0.55).abs() < f32::EPSILON);
    assert_eq!(splits[1], (Direction::Horizontal, 0.5));
}

#[test]
fn resize_uses_split_in_same_branch_when_borders_share_coordinate() {
    let mut layout = TileLayout::from_saved(
        divided(
            Direction::Vertical,
            0.5,
            Box::new(divided(Direction::Horizontal, 0.5, leaf(1), leaf(2))),
            Box::new(divided(Direction::Horizontal, 0.5, leaf(3), leaf(4))),
        ),
        pane(3),
    );

    assert!(layout.resize_pane(pane(3), NavDirection::Right, ratio(0.05), area()));

    let splits = split_snapshot(&layout);
    assert_eq!(splits[0], (Direction::Vertical, 0.5));
    assert_eq!(splits[1], (Direction::Horizontal, 0.5));
    assert_eq!(splits[2].0, Direction::Horizontal);
    assert!((splits[2].1 - 0.55).abs() < f32::EPSILON);
}

#[test]
fn resize_does_not_disturb_the_close_focus_target() {
    let mut layout = sample_layout();
    layout.focus_pane(pane(4));
    layout.resize_pane(pane(1), NavDirection::Right, ratio(0.05), area());

    assert!(layout.close_focused());

    assert_eq!(layout.focused(), pane(2));
}

#[test]
fn find_in_direction_tiebreaks_by_larger_overlap_before_layout_order() {
    let focused = PaneInfo {
        id: pane(1),
        rect: Rect::new(10, 10, 10, 10),
        is_focused: true,
    };
    let small_overlap_first = PaneInfo {
        id: pane(2),
        rect: Rect::new(0, 10, 10, 2),
        is_focused: false,
    };
    let larger_overlap_second = PaneInfo {
        id: pane(3),
        rect: Rect::new(0, 10, 10, 8),
        is_focused: false,
    };
    let panes = vec![focused.clone(), small_overlap_first, larger_overlap_second];

    assert_eq!(
        find_in_direction(&focused, NavDirection::Left, &panes),
        Some(pane(3))
    );
}

#[test]
fn close_focused_returns_to_the_pane_focus_came_from() {
    let mut layout = sample_layout();
    layout.focus_pane(pane(4));

    assert!(layout.close_focused());

    assert_eq!(layout.focused(), pane(2));
}

#[test]
fn close_focused_returns_to_the_pane_that_opened_a_split() {
    let (mut layout, first) = TileLayout::new();
    let second = layout.split_focused(Direction::Horizontal, area());
    let third = layout.split_focused(Direction::Vertical, area());
    assert_eq!(layout.pane_ids().len(), 3);

    layout.focus_pane(first);
    let opened = layout.split_focused(Direction::Horizontal, area());
    assert_eq!(layout.focused(), opened);

    assert!(layout.close_focused());

    assert_eq!(layout.focused(), first);
    assert!(layout.pane_ids().contains(&second));
    assert!(layout.pane_ids().contains(&third));
}

#[test]
fn closing_a_background_pane_keeps_the_focused_pane_history() {
    let mut layout = sample_layout();
    layout.focus_pane(pane(4));

    assert!(layout.close_pane(pane(1)));
    assert_eq!(layout.focused(), pane(4));

    assert!(layout.close_focused());
    assert_eq!(layout.focused(), pane(2));
}

#[test]
fn closing_the_remembered_pane_drops_the_focus_history() {
    let mut layout = sample_layout();
    layout.focus_pane(pane(4));

    assert!(layout.close_pane(pane(2)));

    assert!(layout.close_focused());
    assert_eq!(layout.focused(), pane(3));
}

#[test]
fn close_focused_uses_tree_order_without_focus_history() {
    let mut layout = sample_layout();

    assert!(layout.close_focused());

    assert_eq!(layout.focused(), pane(3));
}

#[test]
fn close_focused_does_not_reuse_history_after_it_is_consumed() {
    let mut layout = sample_layout();
    layout.focus_pane(pane(4));

    assert!(layout.close_focused());
    assert_eq!(layout.focused(), pane(2));

    assert!(layout.close_focused());
    assert_eq!(layout.focused(), pane(3));
}

#[test]
fn split_pane_leaves_focus_and_history_untouched() {
    let mut layout = sample_layout();
    layout.focus_pane(pane(4));

    let new_id = layout
        .split_pane(pane(1), Direction::Horizontal, ratio(0.5), area())
        .expect("target exists");

    assert!(layout.pane_ids().contains(&new_id));
    assert_eq!(layout.focused(), pane(4));
    assert!(layout.close_focused());
    assert_eq!(layout.focused(), pane(2));
}

#[test]
fn split_pane_missing_target_changes_nothing() {
    let mut layout = sample_layout();
    let ids = layout.pane_ids();

    assert_eq!(
        layout.split_pane(pane(99), Direction::Horizontal, ratio(0.5), area()),
        None
    );

    assert_eq!(layout.pane_ids(), ids);
}

#[test]
fn split_is_refused_when_a_leaf_would_fall_under_the_minimum() {
    let (mut layout, root) = TileLayout::new();

    // 70 columns split in half gives two 35-column halves, under
    // MIN_PANE_WIDTH.
    let narrow_area = Rect::new(0, 0, 70, 20);
    assert!(!layout.can_split(root, Direction::Horizontal, narrow_area));
    assert_eq!(
        layout.split_pane(root, Direction::Horizontal, ratio(0.5), narrow_area),
        None
    );
    assert_eq!(layout.pane_count(), 1);

    // 16 rows split in half gives two 8-row halves... but 15 rows gives
    // two halves under MIN_PANE_HEIGHT.
    let short_area = Rect::new(0, 0, 100, 15);
    assert!(!layout.can_split(root, Direction::Vertical, short_area));
    assert_eq!(
        layout.split_pane(root, Direction::Vertical, ratio(0.5), short_area),
        None
    );
    assert_eq!(layout.pane_count(), 1);

    // A generous area still allows the split.
    assert!(layout.can_split(root, Direction::Horizontal, area()));
    assert!(layout
        .split_pane(root, Direction::Horizontal, ratio(0.5), area())
        .is_some());
}

#[test]
fn restored_layouts_allocate_ids_above_the_saved_ones() {
    let mut layout = TileLayout::from_saved(
        divided(Direction::Horizontal, 0.5, leaf(1), leaf(5)),
        pane(5),
    );

    let new_id = layout
        .split_pane(pane(5), Direction::Vertical, ratio(0.5), area())
        .expect("target pane accepts the split");

    assert_eq!(new_id, pane(6));
}

#[test]
fn panes_tile_the_area() {
    let layout = sample_layout();
    for place in [area(), Rect::new(3, 7, 123, 41), Rect::new(0, 0, 5, 3)] {
        let panes = layout.panes(place);
        for column in place.x..place.x + place.width {
            for row in place.y..place.y + place.height {
                let covering = panes
                    .iter()
                    .filter(|info| {
                        info.rect.x <= column
                            && column < info.rect.x + info.rect.width
                            && info.rect.y <= row
                            && row < info.rect.y + info.rect.height
                    })
                    .count();
                assert_eq!(covering, 1, "({column}, {row}) of {place:?}");
            }
        }
    }
}

#[test]
fn closing_a_new_split_restores_the_layout() {
    let mut layout = sample_layout();
    let before = layout.panes(area());
    let splits = split_snapshot(&layout);

    let opened = layout.split_focused(Direction::Vertical, area());
    assert!(layout.close_pane(opened));

    assert_eq!(layout.panes(area()), before);
    assert_eq!(split_snapshot(&layout), splits);
    assert_eq!(layout.focused(), pane(2));
}

#[test]
fn an_allowed_split_leaves_both_halves_large_enough() {
    for width in 76..84 {
        let place = Rect::new(0, 0, width, 30);
        let (mut layout, root) = TileLayout::new();
        let allowed = layout.can_split(root, Direction::Horizontal, place);
        let opened = layout.split_pane(root, Direction::Horizontal, ratio(0.5), place);
        assert_eq!(allowed, opened.is_some());
        assert_eq!(allowed, width >= 2 * MIN_PANE_WIDTH);
        if allowed {
            for info in layout.panes(place) {
                assert!(info.rect.width >= MIN_PANE_WIDTH);
                assert!(info.rect.height >= MIN_PANE_HEIGHT);
            }
        }
    }
}

#[test]
fn the_last_pane_is_not_closed() {
    let (mut layout, root) = TileLayout::new();
    assert!(!layout.close_focused());
    assert!(!layout.close_pane(root));
    assert_eq!(layout.pane_ids(), vec![root]);
}

#[test]
fn a_ratio_set_at_a_path_is_read_back_within_its_bounds() {
    let mut layout = sample_layout();
    assert!(layout.set_ratio_at(&vec![true], ratio(0.25)));
    assert_eq!(split_snapshot(&layout)[1], (Direction::Vertical, 0.25));
    assert!(layout.set_ratio_at(&vec![true, true], ratio(2.0)));
    assert_eq!(split_snapshot(&layout)[2], (Direction::Horizontal, 0.9));
    assert!(layout.set_ratio_at(&vec![], ratio(-1.0)));
    assert_eq!(split_snapshot(&layout)[0], (Direction::Horizontal, 0.1));
    assert!(!layout.set_ratio_at(&vec![false], ratio(0.5)));
    assert!(layout.set_ratio_at(&vec![true], ratio(f32::NAN)));
    assert_eq!(split_snapshot(&layout)[1], (Direction::Vertical, 0.25));
}

#[test]
fn a_focus_change_moves_no_pane() {
    let mut layout = sample_layout();
    let before: Vec<Rect> = layout.panes(area()).iter().map(|info| info.rect).collect();
    layout.focus_pane(pane(4));
    let panes = layout.panes(area());
    let after: Vec<Rect> = panes.iter().map(|info| info.rect).collect();
    assert_eq!(before, after);
    let focused: Vec<PaneId> = panes
        .iter()
        .filter(|info| info.is_focused)
        .map(|info| info.id)
        .collect();
    assert_eq!(focused, vec![pane(4)]);
}

#[test]
fn splitting_a_rectangle_divides_its_length_by_the_share() {
    for length in [0_u16, 1, 2, 3, 39, 80, 81, 400, 1000] {
        for share in [0.1_f32, 0.25, 0.3, 0.333, 0.5, 0.6, 0.75, 0.9] {
            let (first, second) =
                split_rect(Rect::new(2, 3, length, 9), Direction::Horizontal, ratio(share));
            let cells = (f32::from(length) * share).round() as u16;
            assert_eq!(first, Rect::new(2, 3, cells, 9), "{length} by {share}");
            assert_eq!(second, Rect::new(2 + cells, 3, length - cells, 9), "{length} by {share}");
            let (top, bottom) =
                split_rect(Rect::new(2, 3, 9, length), Direction::Vertical, ratio(share));
            assert_eq!(top.height, cells);
            assert_eq!(bottom.y, 3 + cells);
            assert_eq!(top.height + bottom.height, length);
        }
    }
}

#[test]
fn layout_order_decides_between_equal_edges_and_overlaps() {
    let info = |id: u32, rect: Rect| PaneInfo { id: pane(id), rect, is_focused: id == 1 };
    let focused = info(1, Rect::new(10, 10, 10, 10));
    let early = info(2, Rect::new(0, 10, 10, 4));
    let late = info(3, Rect::new(0, 13, 10, 4));
    let panes = vec![focused, early, late];
    assert_eq!(find_in_direction(&focused, NavDirection::Left, &panes), Some(pane(2)));
    let panes = vec![focused, late, early];
    assert_eq!(find_in_direction(&focused, NavDirection::Left, &panes), Some(pane(3)));
}

#[test]
fn a_saved_tree_is_restored_from_a_copy() {
    let layout = sample_layout();
    let saved = layout.root().clone();
    assert!(saved == *layout.root());
    let restored = TileLayout::from_saved(saved, layout.focused());
    assert!(restored.root() == layout.root());
    assert_eq!(restored.panes(area()), layout.panes(area()));
    let borders = layout.splits(area());
    let copies = borders.clone();
    assert_eq!(copies.len(), 3);
    for (copy, border) in copies.iter().zip(&borders) {
        assert_eq!((copy.pos, copy.direction, copy.area), (border.pos, border.direction, border.area));
        assert_eq!((copy.ratio, &copy.path), (border.ratio, &border.path));
    }
}

#[test]
fn trees_are_equal_as_their_numbers_are() {
    let tree = |share: f32| divided(Direction::Horizontal, share, leaf(1), leaf(2));
    assert!(tree(0.5) == tree(0.5));
    assert!(tree(0.5) != tree(0.25));
    assert!(tree(0.0) == tree(-0.0));
    assert!(tree(f32::NAN) != tree(f32::NAN));
    assert!(tree(0.5) != divided(Direction::Vertical, 0.5, leaf(1), leaf(2)));
    assert!(tree(0.5) != divided(Direction::Horizontal, 0.5, leaf(1), leaf(3)));
    assert!(tree(0.5) != *leaf(1));
    assert!(*leaf(1) == *leaf(1));
}
