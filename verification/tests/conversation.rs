use mj_tui::conversation::Conversation;
use mj_tui::geometry::{Direction, Rect};
use mj_tui::tile_navigation::{find_in_direction, NavDirection};

fn band() -> Rect {
    Rect::new(0, 2, 120, 34)
}

/// Zoom fills the conversation band with the focused pane: the other panes
/// keep their place in the arrangement but are not drawn, and the zoom
/// toggles back off.
#[test]
fn zoom_fills_the_band_with_the_focused_pane_and_toggles_back() {
    let (mut conversation, first) = Conversation::new();
    let second = conversation
        .split_focused_pane(Direction::Horizontal, band())
        .expect("the test conversation area has room for two panes");
    let arranged = conversation.conversation_panes(band());

    assert_eq!(conversation.zoom_pane(), None);
    assert!(conversation.conversation_zoomed());

    let panes = conversation.conversation_panes(band());
    assert_eq!(panes.len(), 1);
    assert_eq!(panes[0].id, second);
    assert_eq!(panes[0].rect, band());

    // The arrangement underneath is untouched, so unzooming puts both back.
    assert_eq!(conversation.zoom_pane(), None);
    assert!(!conversation.conversation_zoomed());
    let panes = conversation.conversation_panes(band());
    assert_eq!(panes.len(), 2);
    assert_eq!(panes, arranged);
    assert!(panes.iter().any(|pane| pane.id == first));
}

/// Directional focus works against the arrangement the zoom hides, and moving
/// the keyboard keeps the zoom: the new pane fills the band in its turn.
#[test]
fn focusing_another_pane_while_zoomed_keeps_the_zoom() {
    let (mut conversation, first) = Conversation::new();
    let second = conversation
        .split_focused_pane(Direction::Horizontal, band())
        .expect("the test conversation area has room for two panes");
    let arranged = conversation.conversation_panes(band());
    conversation.zoom_pane();

    let from = arranged
        .iter()
        .find(|pane| pane.is_focused)
        .expect("a pane is focused");
    let left = find_in_direction(from, NavDirection::Left, &arranged).expect("a pane to the left");
    conversation.focus_pane(left);

    assert_eq!(conversation.focused_pane(), first);
    assert!(conversation.conversation_zoomed());
    let panes = conversation.conversation_panes(band());
    assert_eq!(panes.len(), 1);
    assert_eq!(panes[0].id, first);
    assert_ne!(second, first);
}

/// Splitting and closing both change which panes there are, so each one ends
/// the zoom rather than leaving panes hidden behind it.
#[test]
fn a_split_or_a_close_ends_the_zoom() {
    let (mut conversation, first) = Conversation::new();
    conversation
        .split_focused_pane(Direction::Horizontal, band())
        .expect("the test conversation area has room for two panes");

    conversation.zoom_pane();
    assert!(conversation.conversation_zoomed());
    conversation
        .split_focused_pane(Direction::Vertical, band())
        .expect("the test conversation area has room for a third pane");
    assert!(!conversation.conversation_zoomed());

    conversation.zoom_pane();
    assert!(conversation.conversation_zoomed());
    assert!(conversation.close_pane(first));
    assert!(!conversation.conversation_zoomed());
}

/// A lone pane already fills the band, so the command says so instead of
/// changing nothing silently.
#[test]
fn zooming_a_lone_pane_says_there_is_nothing_to_zoom() {
    let (mut conversation, _) = Conversation::new();

    assert_eq!(conversation.zoom_pane(), Some("Only one pane; nothing to zoom"));

    assert!(!conversation.conversation_zoomed());
}

#[test]
fn a_split_without_room_keeps_the_zoom() {
    let (mut conversation, _) = Conversation::new();
    conversation.split_focused_pane(Direction::Horizontal, band());
    conversation.zoom_pane();
    assert_eq!(
        conversation.split_focused_pane(Direction::Horizontal, Rect::new(0, 0, 80, 20)),
        None
    );
    assert!(conversation.conversation_zoomed());
}

#[test]
fn a_conversation_starts_with_pane_one_and_counts_up() {
    let (mut conversation, first) = Conversation::new();
    assert_eq!(first.raw(), 1);
    assert_eq!(conversation.focused_pane(), first);
    assert!(!conversation.conversation_zoomed());
    let second = conversation.split_focused_pane(Direction::Horizontal, band()).expect("room");
    assert_eq!(second.raw(), 2);
}
