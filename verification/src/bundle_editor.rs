//! Putting a new bundle together.

use vstd::prelude::*;

use crate::dashboard_state::{DashboardAction, DashboardState};
#[allow(unused_imports)]
use crate::dashboard_state::{DashboardActionView, DashboardStateView, ModeView};
use crate::drafts::{Draft, Purpose, WizardControl};
#[allow(unused_imports)]
use crate::drafts::{DraftView, NewSessionView};
#[allow(unused_imports)]
use crate::duplicate::group_views;
use crate::duplicate::owned;
#[allow(unused_imports)]
use crate::text::trimmed;

verus! {

impl DashboardStateView {
    /// What submitting the bundle comes to.
    pub open spec fn bundle_submitted(self, draft: DraftView) -> (
        DashboardStateView,
        DashboardActionView,
    ) {
        let sources = draft.new_part().bundle_sources();
        if sources.len() == 0 {
            (
                self.noting("Repository source cannot be empty."@).showing(draft),
                DashboardActionView::Nothing,
            )
        } else {
            (
                self.noting("Creating bundle…"@).showing(
                    draft.with_new(
                        NewSessionView { bundle_creation_in_flight: true, ..draft.new_part() },
                    ),
                ),
                DashboardActionView::CreateBundle { sources },
            )
        }
    }

    /// What adding the typed repository comes to.
    pub open spec fn repository_added(self, draft: DraftView) -> DashboardStateView {
        if trimmed(draft.new_part().new_bundle_source.text).len() > 0 {
            self.showing(
                draft.with_new(draft.new_part().source_added()).focusing(
                    WizardControl::NewBundleSource,
                ),
            )
        } else {
            self.noting("Repository source cannot be empty."@).showing(draft)
        }
    }
}

impl DraftView {
    /// The draft without the selected repository, if there is one.
    pub open spec fn repository_removed(self) -> DraftView {
        let part = self.new_part();
        if part.new_bundle_repositories.len() == 0 {
            self
        } else {
            self.with_new(part.repository_removed()).focusing(
                if part.new_bundle_repositories.len() == 1 {
                    WizardControl::NewBundleSource
                } else {
                    WizardControl::NewBundleRepositories
                },
            )
        }
    }
}

/// A bundle is asked for with the listed repositories and the typed one; with
/// neither it is not asked for. Nothing can be changed until the answer comes.
pub proof fn law_bundle_asked_for(state: DashboardStateView, draft: DraftView)
    requires
        draft.purpose is New,
    ensures
        ({
            let part = draft.new_part();
            let typed = trimmed(part.new_bundle_source.text);
            let (after, action) = state.bundle_submitted(draft);
            let empty = part.new_bundle_repositories.len() == 0 && typed.len() == 0;
            &&& after.mode matches ModeView::Wizard(kept)
            &&& kept.new_part().new_bundle_repositories == part.new_bundle_repositories
            &&& kept.step == draft.step && kept.target == draft.target
            &&& after.notice is Some
            &&& empty ==> action == DashboardActionView::Nothing && kept == draft
            &&& !empty ==> {
                &&& kept.new_part().bundle_creation_in_flight
                &&& action matches DashboardActionView::CreateBundle { sources }
                &&& forall|i: int|
                    0 <= i < part.new_bundle_repositories.len() ==> #[trigger] sources[i]
                        == part.new_bundle_repositories[i]
                &&& typed.len() == 0 ==> sources.len() == part.new_bundle_repositories.len()
                &&& typed.len() > 0 ==> sources.len() == part.new_bundle_repositories.len() + 1
                    && sources.last() == typed
            }
        }),
{
}

/// Something typed is added to the list and the next can be typed at once;
/// nothing typed adds nothing, with a notice.
pub proof fn law_typed_repository_added(state: DashboardStateView, draft: DraftView)
    requires
        draft.purpose is New,
    ensures
        ({
            let typed = trimmed(draft.new_part().new_bundle_source.text);
            let before = draft.new_part().new_bundle_repositories;
            let after = state.repository_added(draft);
            &&& after.mode matches ModeView::Wizard(kept)
            &&& typed.len() > 0 ==> {
                &&& kept.new_part().new_bundle_repositories.len() == before.len() + 1
                &&& kept.new_part().new_bundle_repositories.last() == typed
                &&& kept.new_part().new_bundle_source.text.len() == 0
                &&& kept.form.focused == Some(WizardControl::NewBundleSource)
                &&& after.notice == state.notice
            }
            &&& typed.len() == 0 ==> kept == draft && after.notice is Some
        }),
{
}

/// Without a repository left the next one is typed; otherwise the list keeps
/// the focus.
pub proof fn law_focus_after_removal(draft: DraftView)
    requires
        draft.purpose is New,
        draft.new_part().new_bundle_repositories.len() <= usize::MAX,
    ensures
        ({
            let before = draft.new_part().new_bundle_repositories;
            let after = draft.repository_removed();
            &&& before.len() == 0 ==> after == draft
            &&& before.len() > 0 ==> after.new_part().new_bundle_repositories.len() == before.len()
                - 1
            &&& before.len() == 1 ==> after.form.focused == Some(WizardControl::NewBundleSource)
            &&& before.len() > 1 ==> after.form.focused == Some(
                WizardControl::NewBundleRepositories,
            )
            &&& after.step == draft.step && after.target == draft.target
        }),
{
}

impl Draft {
    /// Remove the selected repository, if there is one.
    pub fn remove_repository(&mut self)
        requires
            old(self)@.purpose is New,
        ensures
            final(self)@ == old(self)@.repository_removed(),
    {
        broadcast use group_views;

        let last = match &self.purpose {
            Purpose::New(part) => part.new_bundle_repositories.len() == 1,
            Purpose::Resume(_) => false,
        };
        let removed = match &mut self.purpose {
            Purpose::New(part) => part.remove_selected_new_bundle_repository(),
            Purpose::Resume(_) => false,
        };
        if removed {
            self.form.focus(
                if last {
                    WizardControl::NewBundleSource
                } else {
                    WizardControl::NewBundleRepositories
                },
            );
        }
    }
}

impl DashboardState {
    /// Create a bundle of the listed repositories and the typed one.
    pub fn submit_new_bundle(&mut self, draft: Draft) -> (action: DashboardAction)
        requires
            draft@.purpose is New,
        ensures
            (final(self)@, action@) == old(self)@.bundle_submitted(draft@),
            old(self)@.fits(draft@) ==> final(self)@.well_formed(),
    {
        broadcast use group_views;

        let mut draft = draft;
        let sources = match &draft.purpose {
            Purpose::New(part) => part.new_bundle_sources_for_submit(),
            Purpose::Resume(_) => Vec::new(),
        };
        if sources.len() == 0 {
            self.set_notice(owned("Repository source cannot be empty."));
            self.keep(draft);
            return DashboardAction::Nothing;
        }
        match &mut draft.purpose {
            Purpose::New(part) => {
                part.bundle_creation_in_flight = true;
            },
            Purpose::Resume(_) => {},
        }
        self.set_notice(owned("Creating bundle…"));
        self.keep(draft);
        DashboardAction::CreateBundle { sources }
    }

    /// Add the typed repository to the list, or say that nothing is typed.
    pub fn add_or_report_new_bundle_repository(&mut self, draft: Draft)
        requires
            draft@.purpose is New,
        ensures
            final(self)@ == old(self)@.repository_added(draft@),
            old(self)@.fits(draft@) ==> final(self)@.well_formed(),
    {
        let mut draft = draft;
        let added = match &mut draft.purpose {
            Purpose::New(part) => part.add_new_bundle_repository(),
            Purpose::Resume(_) => false,
        };
        if added {
            draft.form.focus(WizardControl::NewBundleSource);
        } else {
            self.set_notice(owned("Repository source cannot be empty."));
        }
        self.keep(draft);
    }
}

} // verus!
