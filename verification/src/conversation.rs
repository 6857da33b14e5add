//! The conversation panes, one of which can fill them all.

use vstd::prelude::*;

use crate::geometry::{Direction, Rect};
#[allow(unused_imports)]
use crate::ratio::{even_share, split_ratio};
#[allow(unused_imports)]
use crate::tile_laws::{law_close_keeps_focus, law_focus_after_close, law_split_ids};
use crate::tile_layout::{PaneId, PaneInfo, TileLayout};
#[allow(unused_imports)]
use crate::tile_layout::{lays_out, split_tree, LayoutView, Node};

verus! {

/// The conversation panes, and whether the focused one fills their place.
pub struct Conversation {
    pub layout: TileLayout,
    pub zoomed: bool,
}

/// What a [`Conversation`] holds.
pub struct ConversationView {
    pub layout: LayoutView,
    pub zoomed: bool,
}

impl View for Conversation {
    type V = ConversationView;

    open spec fn view(&self) -> ConversationView {
        ConversationView { layout: self.layout@, zoomed: self.zoomed }
    }
}

impl ConversationView {
    /// The panes that are drawn. While one is zoomed the others keep their
    /// place in the arrangement but are not drawn.
    pub open spec fn panes(self, area: Rect) -> Seq<PaneInfo> {
        if self.zoomed {
            seq![PaneInfo { id: self.layout.focus, rect: area, is_focused: true }]
        } else {
            self.layout.panes(area)
        }
    }

    pub open spec fn unzoomed(self) -> ConversationView {
        ConversationView { zoomed: false, ..self }
    }

    /// The conversation with the focused pane split evenly and the new pane
    /// focused. A split changes which panes there are, so it ends the zoom.
    pub open spec fn split_along(self, direction: Direction) -> ConversationView {
        let id = PaneId(self.layout.next_id);
        ConversationView {
            layout: (LayoutView {
                root: split_tree(
                    self.layout.root,
                    self.layout.focus,
                    direction,
                    id,
                    split_ratio(even_share()),
                ),
                next_id: (self.layout.next_id + 1) as u32,
                ..self.layout
            }).focusing(id),
            zoomed: false,
        }
    }

    /// The conversation once a pane was asked to close.
    pub open spec fn close_asked(self, id: PaneId) -> ConversationView {
        if self.layout.ids().len() > 1 && self.layout.ids().contains(id) {
            ConversationView { layout: self.layout.closing(id), zoomed: false }
        } else {
            self
        }
    }

    /// The conversation once a pane was asked for the focus.
    pub open spec fn focus_asked(self, id: PaneId) -> ConversationView {
        ConversationView { layout: self.layout.focus_asked(id), ..self }
    }

    /// The zoom changed. A lone pane already fills the place.
    pub open spec fn zoom_toggled(self) -> ConversationView {
        ConversationView { zoomed: self.layout.ids().len() > 1 && !self.zoomed, ..self }
    }
}

/// Zooming twice changes nothing, where there is anything to zoom.
pub proof fn law_zoom_returns(conversation: ConversationView)
    requires
        conversation.layout.ids().len() > 1,
    ensures
        conversation.zoom_toggled().zoom_toggled() == conversation,
{
}

/// The arrangement underneath a zoom is untouched: the panes are drawn as
/// before once it ends.
pub proof fn law_zoom_keeps_arrangement(conversation: ConversationView, area: Rect)
    ensures
        conversation.zoom_toggled().unzoomed().panes(area) == conversation.unzoomed().panes(area),
{
}

/// A split adds one pane with an id of its own, gives it the focus, remembers
/// the pane it was opened from, and ends the zoom.
pub proof fn law_split_focuses_new_pane(conversation: ConversationView, direction: Direction)
    requires
        conversation.layout.well_formed(),
        conversation.layout.next_id < u32::MAX,
    ensures
        ({
            let after = conversation.split_along(direction);
            let before = conversation.layout;
            &&& !before.ids().contains(after.layout.focus)
            &&& after.layout.prev_focus == Some(before.focus)
            &&& after.layout.next_id == before.next_id + 1
            &&& forall|id: PaneId|
                #![trigger after.layout.ids().contains(id)]
                after.layout.ids().contains(id) <==> before.ids().contains(id) || id
                    == after.layout.focus
            &&& !after.zoomed
        }),
{
    let before = conversation.layout;
    law_split_ids(
        before.root,
        before.focus,
        direction,
        PaneId(before.next_id),
        split_ratio(even_share()),
    );
}

/// A pane that is closed goes alone and ends the zoom; the last one stays. The
/// focus moves to a pane without ending the zoom.
pub proof fn law_close_and_focus(conversation: ConversationView, id: PaneId)
    requires
        conversation.layout.well_formed(),
    ensures
        ({
            let ids = conversation.layout.ids();
            let closed = conversation.close_asked(id);
            let focused = conversation.focus_asked(id);
            &&& ids.len() <= 1 || !ids.contains(id) ==> closed == conversation
            &&& ids.len() > 1 && ids.contains(id) ==> {
                &&& !closed.zoomed
                &&& closed.layout.ids() == ids.filter(|other: PaneId| other != id)
            }
            &&& focused.zoomed == conversation.zoomed
            &&& ids.contains(id) ==> focused.layout.focus == id
            &&& !ids.contains(id) ==> focused == conversation
            &&& focused.layout.root == conversation.layout.root
        }),
{
    let layout = conversation.layout;
    if layout.ids().len() > 1 && layout.ids().contains(id) {
        if id == layout.focus {
            let i = choose|i: int| 0 <= i < layout.ids().len() && layout.ids()[i] == id;
            law_focus_after_close(layout, i);
            assert(layout.ids().filter(|other: PaneId| other != id) =~= layout.ids().filter(
                |other: PaneId| other != layout.focus,
            ));
        } else {
            law_close_keeps_focus(layout, id);
        }
    }
}

/// A zoomed conversation draws the focused pane alone, over the whole place;
/// only one of several panes can be zoomed.
pub proof fn law_zoomed_pane_alone(conversation: ConversationView, area: Rect)
    ensures
        conversation.zoomed ==> {
            let panes = conversation.panes(area);
            &&& panes.len() == 1
            &&& panes[0].id == conversation.layout.focus
            &&& panes[0].rect == area && panes[0].is_focused
        },
        !conversation.zoomed ==> conversation.panes(area) == conversation.layout.panes(area),
        conversation.layout.ids().len() <= 1 ==> !conversation.zoom_toggled().zoomed,
        conversation.layout.ids().len() > 1 ==> conversation.zoom_toggled().zoomed
            == !conversation.zoomed,
        conversation.zoom_toggled().layout == conversation.layout,
{
}

impl Conversation {
    /// One pane, with id 1, that fills the place.
    pub fn new() -> (r: (Conversation, PaneId))
        ensures
            r.1 == PaneId(1),
            r.0@ == (ConversationView {
                layout: LayoutView {
                    root: Node::Pane(PaneId(1)),
                    focus: PaneId(1),
                    prev_focus: None,
                    next_id: 2,
                },
                zoomed: false,
            }),
            r.0@.layout.well_formed(),
    {
        let (layout, id) = TileLayout::new();
        (Conversation { layout, zoomed: false }, id)
    }

    pub fn conversation_zoomed(&self) -> (zoomed: bool)
        ensures
            zoomed == self@.zoomed,
    {
        self.zoomed
    }

    pub fn focused_pane(&self) -> (id: PaneId)
        ensures
            id == self@.layout.focus,
    {
        self.layout.focused()
    }

    /// The panes that are drawn.
    pub fn conversation_panes(&self, area: Rect) -> (panes: Vec<PaneInfo>)
        requires
            lays_out(self@.layout.root, area),
        ensures
            panes@ == self@.panes(area),
    {
        if self.zoomed {
            let mut panes: Vec<PaneInfo> = Vec::new();
            panes.push(PaneInfo { id: self.layout.focused(), rect: area, is_focused: true });
            return panes;
        }
        self.layout.panes(area)
    }

    /// Lets the focused pane fill the place, or puts the others back. A lone
    /// pane is left as it is, and the answer says so.
    pub fn zoom_pane(&mut self) -> (refusal: Option<&'static str>)
        ensures
            final(self)@ == old(self)@.zoom_toggled(),
            match refusal {
                Some(text) => old(self)@.layout.ids().len() <= 1 && text@
                    == "Only one pane; nothing to zoom"@,
                None => old(self)@.layout.ids().len() > 1,
            },
    {
        if self.layout.pane_count() <= 1 {
            self.zoomed = false;
            return Some("Only one pane; nothing to zoom");
        }
        self.zoomed = !self.zoomed;
        None
    }

    /// Splits the focused pane where there is room. A split changes which
    /// panes there are, so it ends the zoom.
    pub fn split_focused_pane(&mut self, direction: Direction, area: Rect) -> (new_id: Option<
        PaneId,
    >)
        requires
            old(self)@.layout.well_formed(),
            old(self)@.layout.halves_in(direction, area),
            old(self)@.layout.next_id < u32::MAX,
        ensures
            final(self)@.layout.well_formed(),
            new_id is Some <==> old(self)@.layout.splittable(
                old(self)@.layout.focus,
                direction,
                area,
            ),
            match new_id {
                Some(id) => {
                    &&& id == PaneId(old(self)@.layout.next_id)
                    &&& final(self)@ == old(self)@.split_along(direction)
                },
                None => final(self)@ == old(self)@,
            },
    {
        if !self.layout.can_split(self.layout.focused(), direction, area) {
            return None;
        }
        let id = self.layout.split_focused(direction, area);
        self.zoomed = false;
        Some(id)
    }

    /// Closes a pane unless it is the last. A close changes which panes there
    /// are, so it ends the zoom.
    pub fn close_pane(&mut self, id: PaneId) -> (closed: bool)
        requires
            old(self)@.layout.well_formed(),
        ensures
            final(self)@.layout.well_formed(),
            closed == (old(self)@.layout.ids().len() > 1 && old(self)@.layout.ids().contains(id)),
            final(self)@ == old(self)@.close_asked(id),
    {
        let closed = self.layout.close_pane(id);
        if closed {
            self.zoomed = false;
        }
        closed
    }

    /// Moves the focus to a pane. The zoom stays: the new pane fills the
    /// place in its turn.
    pub fn focus_pane(&mut self, id: PaneId)
        requires
            old(self)@.layout.well_formed(),
        ensures
            final(self)@.layout.well_formed(),
            final(self)@ == old(self)@.focus_asked(id),
    {
        self.layout.focus_pane(id);
    }
}

} // verus!
