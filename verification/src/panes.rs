//! The sizes of the support panes.

use vstd::prelude::*;

use crate::dashboard_state::{DashboardState, Focus, PaneFlags, PaneSize, PaneSizes};
#[allow(unused_imports)]
use crate::dashboard_state::DashboardStateView;
use crate::duplicate::owned;

verus! {

/// A pane whose size can be changed.
#[derive(Debug, Clone, Copy, PartialEq, Eq, Structural)]
pub enum SupportPane {
    Sessions,
    Targets,
    Quota,
}

/// Sizes with more than one maximized pane.
#[derive(Debug, Clone, Copy, PartialEq, Eq, Structural)]
pub struct InvalidPaneSizes;

/// A pane that gives way to another that is maximized.
pub open spec fn demoted(size: PaneSize) -> PaneSize {
    if size == PaneSize::Maximized {
        PaneSize::Standard
    } else {
        size
    }
}

/// The size after `size`: a pane that has no more to show is not maximized.
pub open spec fn next_size(size: PaneSize, maximizable: bool) -> PaneSize {
    match size {
        PaneSize::Standard => if maximizable {
            PaneSize::Maximized
        } else {
            PaneSize::Minimized
        },
        PaneSize::Maximized => PaneSize::Minimized,
        PaneSize::Minimized => PaneSize::Standard,
    }
}

impl PaneSizes {
    pub open spec fn of(self, pane: SupportPane) -> PaneSize {
        match pane {
            SupportPane::Sessions => self.sessions,
            SupportPane::Targets => self.targets,
            SupportPane::Quota => self.quota,
        }
    }

    /// At most one pane is maximized.
    pub open spec fn valid(self) -> bool {
        forall|a: SupportPane, b: SupportPane|
            #![trigger self.of(a), self.of(b)]
            self.of(a) == PaneSize::Maximized && self.of(b) == PaneSize::Maximized ==> a == b
    }

    /// The sizes with one pane's changed; a new maximum demotes the old one.
    pub open spec fn resized(self, pane: SupportPane, size: PaneSize) -> PaneSizes {
        let others = if size == PaneSize::Maximized {
            PaneSizes {
                sessions: demoted(self.sessions),
                targets: demoted(self.targets),
                quota: demoted(self.quota),
            }
        } else {
            self
        };
        match pane {
            SupportPane::Sessions => PaneSizes { sessions: size, ..others },
            SupportPane::Targets => PaneSizes { targets: size, ..others },
            SupportPane::Quota => PaneSizes { quota: size, ..others },
        }
    }
}

impl PaneFlags {
    pub open spec fn of(self, pane: SupportPane) -> bool {
        match pane {
            SupportPane::Sessions => self.sessions,
            SupportPane::Targets => self.targets,
            SupportPane::Quota => self.quota,
        }
    }
}

/// The pane that has the focus.
pub open spec fn focused_pane(focus: Focus) -> Option<SupportPane> {
    match focus {
        Focus::Sessions => Some(SupportPane::Sessions),
        Focus::Targets => Some(SupportPane::Targets),
        Focus::Quota => Some(SupportPane::Quota),
        _ => None,
    }
}

impl DashboardStateView {
    /// What cycling the size of the focused pane comes to.
    pub open spec fn pane_cycled(self) -> DashboardStateView {
        match focused_pane(self.focus) {
            Some(pane) => DashboardStateView {
                pane_sizes: self.pane_sizes.resized(
                    pane,
                    next_size(self.pane_sizes.of(pane), self.maximizable.of(pane)),
                ),
                ..self
            },
            None => self.noting(
                "Select Sessions, Targets, or Profiles before cycling the pane size."@,
            ),
        }
    }
}

/// Changing the size of a pane leaves at most one maximized.
pub proof fn law_one_maximum(sizes: PaneSizes, pane: SupportPane, size: PaneSize)
    requires
        sizes.valid(),
    ensures
        sizes.resized(pane, size).valid(),
        sizes.resized(pane, size).of(pane) == size,
{
    let after = sizes.resized(pane, size);
    assert forall|a: SupportPane, b: SupportPane|
        #![trigger after.of(a), after.of(b)]
        after.of(a) == PaneSize::Maximized && after.of(b) == PaneSize::Maximized implies a == b by {
        if size != PaneSize::Maximized {
            assert(a != pane && b != pane);
            assert(sizes.of(a) == after.of(a) && sizes.of(b) == after.of(b));
        }
    }
}

/// A pane other than the one whose size changes keeps its size, unless it was
/// maximized and the other is now.
pub proof fn law_other_panes_kept(
    sizes: PaneSizes,
    pane: SupportPane,
    size: PaneSize,
    other: SupportPane,
)
    requires
        other != pane,
    ensures
        sizes.resized(pane, size).of(other) == if size == PaneSize::Maximized {
            demoted(sizes.of(other))
        } else {
            sizes.of(other)
        },
{
}

/// Cycling comes round: after three sizes, or two where there is no maximum,
/// a pane is as it was.
pub proof fn law_cycle_returns(size: PaneSize)
    ensures
        next_size(next_size(next_size(size, true), true), true) == size,
        size != PaneSize::Maximized ==> next_size(next_size(size, false), false) == size,
{
}

/// Cycling takes the focused pane from its standard size to the whole place,
/// from there to the smallest size and back; a pane with no more to show skips
/// the whole place. Without a pane in focus nothing is resized.
pub proof fn law_focused_pane_cycles(state: DashboardStateView, pane: SupportPane)
    requires
        state.focus == match pane {
            SupportPane::Sessions => Focus::Sessions,
            SupportPane::Targets => Focus::Targets,
            SupportPane::Quota => Focus::Quota,
        },
    ensures
        ({
            let after = state.pane_cycled();
            let before = state.pane_sizes.of(pane);
            let larger = match pane {
                SupportPane::Sessions => state.maximizable.sessions,
                SupportPane::Targets => state.maximizable.targets,
                SupportPane::Quota => state.maximizable.quota,
            };
            let now = match pane {
                SupportPane::Sessions => after.pane_sizes.sessions,
                SupportPane::Targets => after.pane_sizes.targets,
                SupportPane::Quota => after.pane_sizes.quota,
            };
            &&& before == PaneSize::Standard && larger ==> now == PaneSize::Maximized
            &&& before == PaneSize::Standard && !larger ==> now == PaneSize::Minimized
            &&& before == PaneSize::Maximized ==> now == PaneSize::Minimized
            &&& before == PaneSize::Minimized ==> now == PaneSize::Standard
            &&& after.focus == state.focus && after.mode == state.mode
        }),
{
}

/// Sizes are valid exactly where no two panes take the whole place.
pub proof fn law_valid_sizes(sizes: PaneSizes)
    ensures
        sizes.valid() <==> {
            &&& !(sizes.sessions == PaneSize::Maximized && sizes.targets == PaneSize::Maximized)
            &&& !(sizes.sessions == PaneSize::Maximized && sizes.quota == PaneSize::Maximized)
            &&& !(sizes.targets == PaneSize::Maximized && sizes.quota == PaneSize::Maximized)
        },
{
    assert(sizes.of(SupportPane::Sessions) == sizes.sessions);
    assert(sizes.of(SupportPane::Targets) == sizes.targets);
    assert(sizes.of(SupportPane::Quota) == sizes.quota);
}

/// Where no pane of its own has the focus, cycling says so and resizes none.
pub proof fn law_cycling_needs_pane(state: DashboardStateView)
    requires
        state.focus != Focus::Sessions && state.focus != Focus::Targets && state.focus
            != Focus::Quota,
    ensures
        state.pane_cycled().pane_sizes == state.pane_sizes,
        state.pane_cycled().notice is Some,
{
}

impl DashboardState {
    pub fn pane_size(&self, pane: SupportPane) -> (size: PaneSize)
        ensures
            size == self@.pane_sizes.of(pane),
    {
        match pane {
            SupportPane::Sessions => self.pane_sizes.sessions,
            SupportPane::Targets => self.pane_sizes.targets,
            SupportPane::Quota => self.pane_sizes.quota,
        }
    }

    pub fn pane_maximize_enabled(&self, pane: SupportPane) -> (enabled: bool)
        ensures
            enabled == self@.maximizable.of(pane),
    {
        match pane {
            SupportPane::Sessions => self.maximizable.sessions,
            SupportPane::Targets => self.maximizable.targets,
            SupportPane::Quota => self.maximizable.quota,
        }
    }

    /// The sizes as they can be restored later.
    pub fn pane_sizes(&self) -> (sizes: PaneSizes)
        ensures
            sizes == self@.pane_sizes,
    {
        self.pane_sizes
    }

    /// Says which panes have more to show when they are maximized.
    pub fn set_pane_maximize_enabled(&mut self, enabled: PaneFlags)
        ensures
            final(self)@ == (DashboardStateView { maximizable: enabled, ..old(self)@ }),
            old(self)@.well_formed() ==> final(self)@.well_formed(),
    {
        self.maximizable = enabled;
    }

    /// Changes the size of a pane. A new maximum demotes the old one.
    pub fn set_pane_size(&mut self, pane: SupportPane, size: PaneSize)
        ensures
            final(self)@ == (DashboardStateView {
                pane_sizes: old(self)@.pane_sizes.resized(pane, size),
                ..old(self)@
            }),
            old(self)@.pane_sizes.valid() ==> final(self)@.pane_sizes.valid(),
            old(self)@.well_formed() ==> final(self)@.well_formed(),
    {
        proof {
            if self@.pane_sizes.valid() {
                law_one_maximum(self@.pane_sizes, pane, size);
            }
        }
        let mut sizes = self.pane_sizes;
        if size == PaneSize::Maximized {
            sizes.sessions = demote(sizes.sessions);
            sizes.targets = demote(sizes.targets);
            sizes.quota = demote(sizes.quota);
        }
        match pane {
            SupportPane::Sessions => {
                sizes.sessions = size;
            },
            SupportPane::Targets => {
                sizes.targets = size;
            },
            SupportPane::Quota => {
                sizes.quota = size;
            },
        }
        self.pane_sizes = sizes;
    }

    /// Takes over sizes that were captured before, whether or not the panes
    /// have more to show now. More than one maximum is refused, and nothing
    /// changes.
    pub fn restore_pane_sizes(&mut self, sizes: PaneSizes) -> (result: Result<
        (),
        InvalidPaneSizes,
    >)
        ensures
            result is Ok <==> sizes.valid(),
            final(self)@ == if sizes.valid() {
                DashboardStateView { pane_sizes: sizes, ..old(self)@ }
            } else {
                old(self)@
            },
            old(self)@.well_formed() ==> final(self)@.well_formed(),
    {
        let sessions = sizes.sessions == PaneSize::Maximized;
        let targets = sizes.targets == PaneSize::Maximized;
        let quota = sizes.quota == PaneSize::Maximized;
        if (sessions && targets) || (sessions && quota) || (targets && quota) {
            proof {
                assert(sizes.of(SupportPane::Sessions) == sizes.sessions);
                assert(sizes.of(SupportPane::Targets) == sizes.targets);
                assert(sizes.of(SupportPane::Quota) == sizes.quota);
            }
            return Err(InvalidPaneSizes);
        }
        self.pane_sizes = sizes;
        Ok(())
    }

    /// Cycles the size of the focused pane, or says that none is focused.
    pub fn cycle_focused_pane_size(&mut self)
        ensures
            final(self)@ == old(self)@.pane_cycled(),
            old(self)@.pane_sizes.valid() ==> final(self)@.pane_sizes.valid(),
            old(self)@.well_formed() ==> final(self)@.well_formed(),
    {
        let pane = match self.focus {
            Focus::Sessions => SupportPane::Sessions,
            Focus::Targets => SupportPane::Targets,
            Focus::Quota => SupportPane::Quota,
            _ => {
                self.set_notice(
                    owned("Select Sessions, Targets, or Profiles before cycling the pane size."),
                );
                return ;
            },
        };
        let next = match self.pane_size(pane) {
            PaneSize::Standard => if self.pane_maximize_enabled(pane) {
                PaneSize::Maximized
            } else {
                PaneSize::Minimized
            },
            PaneSize::Maximized => PaneSize::Minimized,
            PaneSize::Minimized => PaneSize::Standard,
        };
        self.set_pane_size(pane, next);
    }
}

fn demote(size: PaneSize) -> (r: PaneSize)
    ensures
        r == demoted(size),
{
    if size == PaneSize::Maximized {
        PaneSize::Standard
    } else {
        size
    }
}

} // verus!
