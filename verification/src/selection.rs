//! The selected session, and what is done to it.

use vstd::prelude::*;

use crate::catalog::ordered_sessions;
#[allow(unused_imports)]
use crate::catalog::session_order;
use crate::dashboard_state::{DashboardAction, DashboardState, Focus, SessionOperation};
#[allow(unused_imports)]
use crate::dashboard_state::{DashboardActionView, DashboardStateView, SessionOperationView};
#[allow(unused_imports)]
use crate::duplicate::group_views;
use crate::duplicate::{owned, same_text, Duplicate};
use crate::lists::find;
#[allow(unused_imports)]
use crate::lists::{law_lookup_finds_first, lookup};
use crate::records::State;
#[allow(unused_imports)]
use crate::records::{SessionRecord, StateView};

verus! {

impl DashboardStateView {
    /// The user chose a session.
    pub open spec fn selecting(self, id: Seq<char>) -> DashboardStateView {
        DashboardStateView { selected_session: Some(id), displaced_session: None, ..self }
    }

    /// The first session of the list.
    pub open spec fn first_session(self) -> Option<Seq<char>> {
        let order = session_order(self.state.sessions);
        if order.len() > 0 {
            Some(order[0])
        } else {
            None
        }
    }

    /// The state with what was recorded replaced. Where it does not carry the
    /// selected session the first one is selected, and the one that was
    /// displaced is kept in mind: nobody chose the other.
    pub open spec fn refreshed(self, state: StateView) -> DashboardStateView {
        let renewed = DashboardStateView { state, ..self };
        match self.selected_session {
            Some(id) if renewed.session(id) is Some => renewed,
            Some(id) => DashboardStateView {
                selected_session: renewed.first_session(),
                displaced_session: match self.displaced_session {
                    Some(before) => Some(before),
                    None => Some(id),
                },
                ..renewed
            },
            None => DashboardStateView { selected_session: renewed.first_session(), ..renewed },
        }
    }

    /// The launch of a session is still what the user is at: they left it
    /// selected, or a refresh alone took the selection away.
    pub open spec fn expects(self, id: Seq<char>) -> bool {
        self.selected_session == Some(id) || self.displaced_session == Some(id)
    }

    /// What the end of a launch comes to: the session is opened for its first
    /// prompt, unless the user chose another meanwhile.
    pub open spec fn launched(self, id: Seq<char>) -> DashboardStateView {
        if self.expects(id) {
            DashboardStateView { focus: Focus::Prompt, ..self.selecting(id) }
        } else {
            self
        }
    }

    /// The operation of the selected session.
    pub open spec fn selected_operation(self) -> Option<SessionOperationView> {
        match self.selected_session {
            Some(id) => lookup::<SessionOperation>(self.operations, id),
            None => None,
        }
    }

    /// What cancelling comes to.
    pub open spec fn cancelled(self) -> (DashboardStateView, DashboardActionView) {
        match self.selected_operation() {
            Some(operation) => (
                self,
                DashboardActionView::CancelOperation {
                    session_id: operation.session_id,
                    kind: operation.kind,
                },
            ),
            None => (self.noting("Nothing to cancel"@), DashboardActionView::Nothing),
        }
    }
}

/// Choosing a session selects it, and forgets what a refresh displaced.
pub proof fn law_chosen_session_selected(state: DashboardStateView, id: Seq<char>)
    ensures
        state.selecting(id).selected_session == Some(id),
        state.selecting(id).displaced_session is None,
        state.selecting(id).mode == state.mode,
        state.selecting(id).state == state.state,
{
}

/// A refresh keeps the selection while its session is recorded. Otherwise the
/// first session is selected, and the one that lost the selection first is
/// kept in mind.
pub proof fn law_refresh_keeps_selection(state: DashboardStateView, recorded: StateView)
    ensures
        ({
            let after = state.refreshed(recorded);
            let order = session_order(recorded.sessions);
            &&& after.state == recorded && after.config == state.config
            &&& state.selected_session matches Some(id) ==> {
                let present = exists|i: int|
                    0 <= i < recorded.sessions.len() && (#[trigger] recorded.sessions[i]).id == id;
                &&& present ==> after.selected_session == Some(id) && after.displaced_session
                    == state.displaced_session
                &&& !present ==> {
                    &&& state.displaced_session is None ==> after.displaced_session == Some(id)
                    &&& state.displaced_session is Some ==> after.displaced_session
                        == state.displaced_session
                    &&& order.len() > 0 ==> after.selected_session == Some(order[0])
                    &&& order.len() == 0 ==> after.selected_session is None
                }
            }
            &&& state.selected_session is None ==> {
                &&& order.len() > 0 ==> after.selected_session == Some(order[0])
                &&& order.len() == 0 ==> after.selected_session is None
                &&& after.displaced_session == state.displaced_session
            }
        }),
{
    if let Some(id) = state.selected_session {
        law_lookup_finds_first::<SessionRecord>(recorded.sessions, id);
    }
}

/// A launch that is still expected opens its session for the first prompt.
pub proof fn law_expected_launch_opens(state: DashboardStateView, id: Seq<char>)
    ensures
        state.selected_session == Some(id) || state.displaced_session == Some(id) ==> {
            &&& state.launched(id).selected_session == Some(id)
            &&& state.launched(id).focus == Focus::Prompt
            &&& state.launched(id).displaced_session is None
        },
        state.selected_session != Some(id) && state.displaced_session != Some(id)
            ==> state.launched(id) == state,
{
}

/// Cancelling ends what is being done to the selected session, and nothing
/// else.
pub proof fn law_selected_operation_cancelled(
    state: DashboardStateView,
    id: Seq<char>,
    i: int,
)
    requires
        state.selected_session == Some(id),
        0 <= i < state.operations.len(),
        state.operations[i].session_id == id,
        forall|j: int| 0 <= j < i ==> (#[trigger] state.operations[j]).session_id != id,
    ensures
        state.cancelled().1 matches DashboardActionView::CancelOperation { session_id, kind }
            && session_id == id && kind == state.operations[i].kind,
        state.cancelled().0 == state,
{
    law_lookup_finds_first::<SessionOperation>(state.operations, id);
}

/// With nothing under way nothing is cancelled, and a notice says so.
pub proof fn law_nothing_cancelled(state: DashboardStateView)
    requires
        state.selected_session matches Some(id) ==> forall|j: int|
            0 <= j < state.operations.len() ==> (#[trigger] state.operations[j]).session_id != id,
    ensures
        state.cancelled().1 == DashboardActionView::Nothing,
        state.cancelled().0.notice is Some,
        state.cancelled().0.operations == state.operations,
{
    if let Some(id) = state.selected_session {
        law_lookup_finds_first::<SessionOperation>(state.operations, id);
    }
}

/// A launch that finishes after the user chose another session does not take
/// the selection back.
pub proof fn law_launch_respects_choice(
    state: DashboardStateView,
    launching: Seq<char>,
    chosen: Seq<char>,
)
    requires
        launching != chosen,
    ensures
        state.selecting(chosen).launched(launching) == state.selecting(chosen),
{
}

/// A refresh that does not carry a launching session does not count as a
/// choice: its launch still opens it.
pub proof fn law_launch_survives_refresh(
    state: DashboardStateView,
    launching: Seq<char>,
    refreshed: StateView,
)
    ensures
        ({
            let after = state.selecting(launching).refreshed(refreshed).launched(launching);
            after.selected_session == Some(launching) && after.focus == Focus::Prompt
        }),
{
}

impl DashboardState {
    pub fn selected_session_id(&self) -> (id: Option<&str>)
        ensures
            id.is_some() == self@.selected_session.is_some(),
            id matches Some(text) ==> self@.selected_session == Some(text@),
    {
        match &self.selected_session {
            Some(id) => Some(id.as_str()),
            None => None,
        }
    }

    /// Selects a session, as the user asked for.
    pub fn select_active_session(&mut self, id: &str)
        ensures
            final(self)@ == old(self)@.selecting(id@),
            old(self)@.well_formed() ==> final(self)@.well_formed(),
    {
        self.selected_session = Some(owned(id));
        self.displaced_session = None;
    }

    fn first_listed(&self) -> (id: Option<String>)
        ensures
            id.deep_view() == self@.first_session(),
    {
        broadcast use group_views;

        let order = ordered_sessions(&self.state);
        if order.len() > 0 {
            assert(order.deep_view()[0] == order@[0]@);
            Some(order[0].duplicate())
        } else {
            None
        }
    }

    /// Replaces what was recorded.
    pub fn set_state(&mut self, state: State)
        ensures
            final(self)@ == old(self)@.refreshed(state@),
            (DashboardStateView { state: state@, ..old(self)@ }).well_formed()
                ==> final(self)@.well_formed(),
    {
        self.state = state;
        let kept = match &self.selected_session {
            Some(id) => find(&self.state.sessions, id.as_str()).is_some(),
            None => false,
        };
        if kept {
            return ;
        }
        if self.selected_session.is_some() && self.displaced_session.is_none() {
            self.displaced_session = self.selected_session.duplicate();
        }
        self.selected_session = self.first_listed();
    }

    /// Opens a session whose launch has finished, unless the user chose
    /// another meanwhile.
    pub fn finish_new_session(&mut self, id: &str)
        ensures
            final(self)@ == old(self)@.launched(id@),
            old(self)@.well_formed() ==> final(self)@.well_formed(),
    {
        let selected = match &self.selected_session {
            Some(chosen) => same_text(chosen.as_str(), id),
            None => false,
        };
        let displaced = match &self.displaced_session {
            Some(before) => same_text(before.as_str(), id),
            None => false,
        };
        if selected || displaced {
            self.select_active_session(id);
            self.focus = Focus::Prompt;
        }
    }

    /// Cancels what is being done to the selected session, or says that there
    /// is nothing.
    pub fn cancel_operation(&mut self) -> (action: DashboardAction)
        ensures
            (final(self)@, action@) == old(self)@.cancelled(),
            old(self)@.well_formed() ==> final(self)@.well_formed(),
    {
        let found = match &self.selected_session {
            Some(id) => match find(&self.operations, id.as_str()) {
                Some(operation) => Some(operation.duplicate()),
                None => None,
            },
            None => None,
        };
        match found {
            Some(operation) => DashboardAction::CancelOperation {
                session_id: operation.session_id,
                kind: operation.kind,
            },
            None => {
                self.set_notice(owned("Nothing to cancel"));
                DashboardAction::Nothing
            },
        }
    }
}

} // verus!
