//! Changes of a draft, and the answers that they make stale.

use vstd::prelude::*;

use crate::dashboard_state::DashboardState;
#[allow(unused_imports)]
use crate::dashboard_state::DashboardStateView;
use crate::drafts::{
    Draft, DraftChange, MountWizard, NewSession, PathInput, Purpose, WizardControl,
};
#[allow(unused_imports)]
use crate::drafts::{DraftView, MountWizardView, NewSessionView, PathInputView, PurposeView};
#[allow(unused_imports)]
use crate::duplicate::group_views;
use crate::duplicate::Duplicate;
#[allow(unused_imports)]
use crate::mounts::field;

verus! {

// --- Stale answers ---

/// Anything that changes what would be created invalidates the checks before
/// a creation. Removing an attachment, adjusting sizes, opening a fresh
/// attachment editor and editing a field do not, because none of them changes
/// the sources that were checked.
pub open spec fn changes_creation(change: DraftChange) -> bool {
    ||| change == DraftChange::BundleSelected
    ||| change == DraftChange::TargetSelected
    ||| change == DraftChange::AttachmentOpened
    ||| change == DraftChange::ReviewLeft
}

impl DraftView {
    /// The draft without the answers that a change makes stale. A move
    /// preparation describes one exact destination draft, so every change but
    /// a bundle choice, which a move does not have, discards it.
    pub open spec fn change_noted(self, change: DraftChange) -> DraftView {
        match self.purpose {
            PurposeView::New(part) => if changes_creation(change) {
                self.with_new(part.unchecked())
            } else {
                self
            },
            PurposeView::Resume(part) => if change != DraftChange::BundleSelected {
                self.with_resume(part.unprepared())
            } else {
                self
            },
        }
    }
}

impl DashboardStateView {
    /// The state after a change of a draft: answers still on their way are
    /// dropped where the change makes them stale.
    pub open spec fn noting_change(self, draft: DraftView, change: DraftChange) -> DashboardStateView {
        if draft.purpose is New && changes_creation(change) {
            self.preflight_invalidated()
        } else {
            self
        }
    }
}

/// A change of what would be created leaves no checked repositories, so that
/// the review checks again.
pub proof fn law_change_unchecks(draft: DraftView, change: DraftChange)
    requires
        draft.purpose is New,
        changes_creation(change),
    ensures
        draft.change_noted(change).new_part().remote_repositories is None,
        draft.change_noted(change).new_part().remote_preflight_error is None,
        !draft.change_noted(change).new_part().remote_preflight_in_flight,
{
}

/// Every change of a move but a bundle choice leaves it without a
/// preparation.
pub proof fn law_change_unprepares(draft: DraftView, change: DraftChange)
    requires
        draft.purpose is Resume,
        draft.resume_part().moving,
        change != DraftChange::BundleSelected,
    ensures
        draft.change_noted(change).resume_part().preparation is None,
        !draft.change_noted(change).resume_part().preparing,
{
}

/// A change drops answers and nothing that was chosen.
pub proof fn law_change_keeps_choices(draft: DraftView, change: DraftChange)
    ensures
        ({
            let after = draft.change_noted(change);
            &&& after.step == draft.step && after.profile == draft.profile
            &&& after.target == draft.target && after.mounts == draft.mounts
            &&& after.resource_allocation == draft.resource_allocation
            &&& after.form == draft.form && after.workspace_id == draft.workspace_id
            &&& draft.purpose matches PurposeView::New(part) ==> {
                &&& after.purpose matches PurposeView::New(kept)
                &&& kept.bundle == part.bundle && kept.project_directory == part.project_directory
                &&& kept.new_bundle_repositories == part.new_bundle_repositories
                &&& kept.mjolnir_subagents == part.mjolnir_subagents
                &&& kept.create_managed_worktree == part.create_managed_worktree
            }
            &&& draft.purpose matches PurposeView::Resume(part) ==> {
                &&& after.purpose matches PurposeView::Resume(kept)
                &&& kept.session_id == part.session_id && kept.moving == part.moving
                &&& kept.source == part.source && kept.discard_queue == part.discard_queue
                &&& !part.moving ==> kept == part
            }
        }),
{
}

/// The checks of a creation stay where the checked sources do: with another
/// profile, size or access mode, with an attachment removed, and with an
/// editor opened or a field edited. Answers on their way still count then.
pub proof fn law_unrelated_change_keeps_checks(
    state: DashboardStateView,
    draft: DraftView,
    change: DraftChange,
)
    requires
        draft.purpose is New,
        change == DraftChange::FieldEdit || change == DraftChange::ProfileSelected || change
            == DraftChange::ReadOnlyToggled || change == DraftChange::ResourcesAdjusted || change
            == DraftChange::AttachmentEditorOpened || change == DraftChange::AttachmentRemoved,
    ensures
        draft.change_noted(change) == draft,
        state.noting_change(draft, change) == state,
{
}

/// Another bundle or target, an attachment opened, or leaving the review has
/// the checks of a creation done again; what they still answer is not taken.
pub proof fn law_related_change_drops_checks(
    state: DashboardStateView,
    draft: DraftView,
    change: DraftChange,
)
    requires
        draft.purpose is New,
        change == DraftChange::BundleSelected || change == DraftChange::TargetSelected || change
            == DraftChange::AttachmentOpened || change == DraftChange::ReviewLeft,
    ensures
        draft.change_noted(change).new_part().remote_repositories is None,
        draft.change_noted(change).new_part().remote_preflight_error is None,
        state.noting_change(draft, change).preflight_generation != state.preflight_generation,
        state.noting_change(draft, change).mode == state.mode,
        state.noting_change(draft, change).config == state.config,
{
}

impl DashboardState {
    /// Records a change of a draft, dropping the answers it makes stale.
    pub fn note_draft_change(&mut self, draft: &mut Draft, change: DraftChange)
        ensures
            final(self)@ == old(self)@.noting_change(old(draft)@, change),
            final(draft)@ == old(draft)@.change_noted(change),
    {
        let creation = change == DraftChange::BundleSelected || change
            == DraftChange::TargetSelected || change == DraftChange::AttachmentOpened || change
            == DraftChange::ReviewLeft;
        match &mut draft.purpose {
            Purpose::New(part) => {
                if creation {
                    self.invalidate_session_preflight();
                    part.discard_checks();
                }
            },
            Purpose::Resume(part) => {
                if change != DraftChange::BundleSelected {
                    part.invalidate_move_preparation();
                }
            },
        }
    }
}

// --- Edits of fields ---

/// A key that walks the entries remembered for a field.
#[derive(Debug, Clone, Copy, PartialEq, Eq, Structural)]
pub enum HistoryKey {
    Up,
    Down,
}

/// An edit of a text field.
#[derive(Debug, PartialEq, Eq)]
pub struct FieldEdit {
    /// The key, where it is one that walks what is remembered.
    pub key: Option<HistoryKey>,
    /// The field as the edit leaves it.
    pub input: PathInput,
    /// The edit changed the text.
    pub changed: bool,
}

/// What a [`FieldEdit`] holds.
#[verifier::ext_equal]
pub struct FieldEditView {
    pub key: Option<HistoryKey>,
    pub input: PathInputView,
    pub changed: bool,
}

impl View for FieldEdit {
    type V = FieldEditView;

    open spec fn view(&self) -> FieldEditView {
        FieldEditView { key: self.key, input: self.input@, changed: self.changed }
    }
}

impl NewSessionView {
    /// The remembered directory that Up or Down leads to, going round.
    pub open spec fn directory_row(self, up: bool) -> int {
        let len = self.project_history.len() as int;
        if up {
            if self.project_history_index == 0 {
                len - 1
            } else {
                self.project_history_index - 1
            }
        } else {
            (self.project_history_index + 1) % len
        }
    }

    /// The remembered directory in a row, typed in.
    pub open spec fn directory_recalled(self, row: int) -> NewSessionView {
        NewSessionView {
            project_history_index: row as usize,
            project_directory: field(self.project_history[row]),
            project_directory_error: None,
            ..self
        }
    }

    /// The edit walks the remembered directories.
    pub open spec fn walks(self, edit: FieldEditView) -> bool {
        edit.key is Some && self.project_history.len() > 0
    }

    /// The project directory after an edit.
    pub open spec fn directory_edited(self, edit: FieldEditView) -> NewSessionView {
        if self.walks(edit) {
            self.directory_recalled(self.directory_row(edit.key == Some(HistoryKey::Up)))
        } else {
            NewSessionView {
                project_directory: edit.input,
                project_directory_error: if edit.changed {
                    None
                } else {
                    self.project_directory_error
                },
                ..self
            }
        }
    }

    /// The typed repository after an edit: none is taken while a bundle is
    /// being created.
    pub open spec fn source_edited(self, edit: FieldEditView) -> NewSessionView {
        if self.bundle_creation_in_flight {
            self
        } else {
            NewSessionView { new_bundle_source: edit.input, ..self }
        }
    }
}

impl MountWizardView {
    /// The edit walks the remembered sources: Up and Down do when nothing is
    /// typed.
    pub open spec fn walks(self, edit: FieldEditView) -> bool {
        edit.key is Some && self.source.text.len() == 0 && self.history.len() > 0
    }

    /// The remembered source that Up or Down leads to, typed in.
    pub open spec fn source_recalled(self, up: bool) -> MountWizardView {
        MountWizardView {
            history_index: self.history_row(up) as usize,
            source: field(self.history[self.history_row(up) as int]),
            ..self
        }
    }

    /// The error an edit leaves.
    pub open spec fn error_after(self, edit: FieldEditView) -> Option<Seq<char>> {
        if edit.changed {
            None
        } else {
            self.error
        }
    }

    /// The attachment editor after an edit of one of its two path fields.
    pub open spec fn field_edited(self, id: WizardControl, edit: FieldEditView) -> MountWizardView {
        match id {
            WizardControl::MountSource => if self.walks(edit) {
                self.source_recalled(edit.key == Some(HistoryKey::Up))
            } else {
                MountWizardView { source: edit.input, error: self.error_after(edit), ..self }
            },
            WizardControl::MountDestination => MountWizardView {
                destination: edit.input,
                error: self.error_after(edit),
                ..self
            },
            _ => self,
        }
    }
}

impl DraftView {
    /// The draft after an edit of one of its fields. The project directory
    /// and the typed repository belong to a new session alone.
    pub open spec fn field_edited(self, id: WizardControl, edit: FieldEditView) -> DraftView {
        match (self.purpose, id) {
            (PurposeView::New(part), WizardControl::ProjectDirectory) => self.with_new(
                part.directory_edited(edit),
            ),
            (PurposeView::New(part), WizardControl::NewBundleSource) => self.with_new(
                part.source_edited(edit),
            ),
            _ => DraftView { mounts: self.mounts.field_edited(id, edit), ..self },
        }
    }

    /// The edit changed the text of a field that the draft has.
    pub open spec fn edit_changes(self, id: WizardControl, edit: FieldEditView) -> bool {
        edit.changed && match (self.purpose, id) {
            (PurposeView::New(part), WizardControl::ProjectDirectory) => !part.walks(edit),
            (PurposeView::New(part), WizardControl::NewBundleSource) => {
                !part.bundle_creation_in_flight
            },
            (_, WizardControl::MountSource) => !self.mounts.walks(edit),
            (_, WizardControl::MountDestination) => true,
            _ => false,
        }
    }
}

impl DashboardStateView {
    /// The state once it is known that an event was handled.
    pub open spec fn handled_where(self, handled: bool) -> DashboardStateView {
        DashboardStateView { event_handled: self.event_handled || handled, ..self }
    }
}

/// Up goes to the remembered directory before, Down to the one after, round
/// the ends; it is typed in as it is remembered.
pub proof fn law_directory_walk(part: NewSessionView, edit: FieldEditView, key: HistoryKey)
    requires
        0 < part.project_history.len() <= usize::MAX,
        part.project_history_index < part.project_history.len(),
        edit.key == Some(key),
    ensures
        ({
            let after = part.directory_edited(edit);
            let row = part.project_history_index as int;
            let last = part.project_history.len() - 1;
            let next = after.project_history_index as int;
            &&& key == HistoryKey::Up && row > 0 ==> next == row - 1
            &&& key == HistoryKey::Up && row == 0 ==> next == last
            &&& key == HistoryKey::Down && row < last ==> next == row + 1
            &&& key == HistoryKey::Down && row == last ==> next == 0
            &&& after.project_directory.text == part.project_history[next]
            &&& after.project_directory_error is None
            &&& after.project_history == part.project_history && after.bundle == part.bundle
        }),
{
    let len = part.project_history.len() as int;
    let row = part.project_history_index as int;
    if row + 1 < len {
        vstd::arithmetic::div_mod::lemma_small_mod((row + 1) as nat, len as nat);
    } else {
        assert(len % len == 0) by (nonlinear_arith)
            requires
                len > 0,
        ;
    }
}

/// An edit changes the field that it is made in, and no other. An error goes
/// with the text that it was about.
pub proof fn law_edit_reaches_its_field(draft: DraftView, edit: FieldEditView)
    requires
        edit.key is None,
    ensures
        ({
            let after = draft.field_edited(WizardControl::MountSource, edit);
            &&& after.mounts.source == edit.input
            &&& after.mounts.destination == draft.mounts.destination
            &&& after.mounts.mounts == draft.mounts.mounts
            &&& after.mounts.access == draft.mounts.access && after.purpose == draft.purpose
            &&& edit.changed ==> after.mounts.error is None
            &&& !edit.changed ==> after.mounts.error == draft.mounts.error
        }),
        ({
            let after = draft.field_edited(WizardControl::MountDestination, edit);
            &&& after.mounts.destination == edit.input
            &&& after.mounts.source == draft.mounts.source
            &&& after.mounts.mounts == draft.mounts.mounts
            &&& after.mounts.access == draft.mounts.access && after.purpose == draft.purpose
            &&& edit.changed ==> after.mounts.error is None
            &&& !edit.changed ==> after.mounts.error == draft.mounts.error
        }),
        draft.purpose is New ==> {
            let after = draft.field_edited(WizardControl::ProjectDirectory, edit);
            &&& after.mounts == draft.mounts
            &&& after.new_part().project_directory == edit.input
            &&& after.new_part().new_bundle_source == draft.new_part().new_bundle_source
            &&& edit.changed ==> after.new_part().project_directory_error is None
            &&& !edit.changed ==> after.new_part().project_directory_error
                == draft.new_part().project_directory_error
        },
        draft.purpose is New ==> {
            let after = draft.field_edited(WizardControl::NewBundleSource, edit);
            &&& after.mounts == draft.mounts
            &&& after.new_part().project_directory == draft.new_part().project_directory
            &&& after.new_part().new_bundle_source == if draft.new_part().bundle_creation_in_flight {
                draft.new_part().new_bundle_source
            } else {
                edit.input
            }
            &&& after.new_part().new_bundle_repositories
                == draft.new_part().new_bundle_repositories
        },
{
}

/// An edit that changed a text was handled, and one that recalled a remembered
/// text instead was not.
pub proof fn law_changing_edit_handled(
    state: DashboardStateView,
    draft: DraftView,
    edit: FieldEditView,
)
    ensures
        draft.edit_changes(WizardControl::MountDestination, edit) == edit.changed,
        draft.edit_changes(WizardControl::MountSource, edit) == (edit.changed && !(edit.key is Some
            && draft.mounts.source.text.len() == 0 && draft.mounts.history.len() > 0)),
        draft.purpose is New ==> draft.edit_changes(WizardControl::ProjectDirectory, edit) == (
        edit.changed && !(edit.key is Some && draft.new_part().project_history.len() > 0)),
        state.handled_where(true).event_handled,
        state.handled_where(false) == state,
        state.handled_where(true).mode == state.mode,
{
}

/// Up and Down recall a remembered source only while nothing is typed.
/// Up and Down recall a remembered source only while nothing is typed.
pub proof fn law_typed_source_not_overwritten(draft: DraftView, edit: FieldEditView)
    requires
        draft.mounts.source.text.len() > 0,
    ensures
        draft.field_edited(WizardControl::MountSource, edit).mounts.source == edit.input,
        draft.field_edited(WizardControl::MountSource, edit).mounts.history_index
            == draft.mounts.history_index,
{
}

/// With nothing typed, Up and Down type in the source that is remembered one
/// row on, stopping at the ends.
pub proof fn law_source_recalled(draft: DraftView, edit: FieldEditView, key: HistoryKey)
    requires
        draft.mounts.source.text.len() == 0,
        0 < draft.mounts.history.len() <= usize::MAX,
        draft.mounts.history_index < draft.mounts.history.len(),
        edit.key == Some(key),
    ensures
        ({
            let after = draft.field_edited(WizardControl::MountSource, edit).mounts;
            let row = draft.mounts.history_index as int;
            let last = draft.mounts.history.len() - 1;
            let next = after.history_index as int;
            &&& key == HistoryKey::Up ==> next == if row > 0 {
                row - 1
            } else {
                0
            }
            &&& key == HistoryKey::Down ==> next == if row < last {
                row + 1
            } else {
                last
            }
            &&& after.source.text == draft.mounts.history[next]
            &&& after.mounts == draft.mounts.mounts
            &&& after.destination == draft.mounts.destination
        }),
{
}

/// Walking up the remembered directories and down again, or the other way
/// round, leads back.
pub proof fn law_directory_walk_returns(part: NewSessionView, up: bool)
    requires
        part.project_history.len() <= usize::MAX,
        part.project_history_index < part.project_history.len(),
    ensures
        ({
            let there = part.directory_recalled(part.directory_row(up));
            there.directory_row(!up) == part.project_history_index
        }),
{
    let len = part.project_history.len() as int;
    let there = part.directory_recalled(part.directory_row(up));
    if up {
        if part.project_history_index == 0 {
            assert(len % len == 0) by (nonlinear_arith)
                requires
                    len > 0,
            ;
        } else {
            vstd::arithmetic::div_mod::lemma_small_mod(
                part.project_history_index as nat,
                len as nat,
            );
        }
    } else if part.project_history_index + 1 < len {
        vstd::arithmetic::div_mod::lemma_small_mod(
            (part.project_history_index + 1) as nat,
            len as nat,
        );
    } else {
        assert(len % len == 0) by (nonlinear_arith)
            requires
                len > 0,
        ;
    }
}

impl NewSession {
    /// Types in the remembered directory of a row.
    pub fn recall_directory(&mut self, row: usize)
        requires
            row < old(self)@.project_history.len(),
        ensures
            final(self)@ == old(self)@.directory_recalled(row as int),
    {
        broadcast use group_views;

        assert(self.project_history.deep_view()[row as int] == self.project_history@[row as int]@);
        self.project_history_index = row;
        self.project_directory = PathInput::from_text(self.project_history[row].duplicate());
        self.project_directory_error = None;
    }

    fn edit_directory(&mut self, edit: FieldEdit) -> (changed: bool)
        requires
            old(self)@.project_history.len() > 0 ==> old(self)@.project_history_index < old(
                self,
            )@.project_history.len(),
        ensures
            final(self)@ == old(self)@.directory_edited(edit@),
            changed == (edit@.changed && !old(self)@.walks(edit@)),
    {
        broadcast use group_views;

        let len = self.project_history.len();
        if let Some(key) = edit.key {
            if len > 0 {
                let index = self.project_history_index;
                let row = match key {
                    HistoryKey::Up => if index == 0 {
                        len - 1
                    } else {
                        index - 1
                    },
                    HistoryKey::Down => (index + 1) % len,
                };
                self.recall_directory(row);
                return false;
            }
        }
        self.project_directory = edit.input;
        if edit.changed {
            self.project_directory_error = None;
        }
        edit.changed
    }

    fn edit_source(&mut self, edit: FieldEdit) -> (changed: bool)
        ensures
            final(self)@ == old(self)@.source_edited(edit@),
            changed == (edit@.changed && !old(self)@.bundle_creation_in_flight),
    {
        if self.bundle_creation_in_flight {
            return false;
        }
        self.new_bundle_source = edit.input;
        edit.changed
    }
}

impl MountWizard {
    /// Edits one of the two path fields. Up and Down walk the remembered
    /// sources when nothing is typed.
    fn edit_field(&mut self, id: WizardControl, edit: FieldEdit) -> (changed: bool)
        ensures
            final(self)@ == old(self)@.field_edited(id, edit@),
            changed == (edit@.changed && (id == WizardControl::MountSource && !old(self)@.walks(
                edit@,
            ) || id == WizardControl::MountDestination)),
    {
        broadcast use group_views;

        match id {
            WizardControl::MountSource => {
                if let Some(key) = edit.key {
                    if self.source.is_empty() && self.history.len() > 0 {
                        self.walk_history(key == HistoryKey::Up);
                        return false;
                    }
                }
                self.source = edit.input;
            },
            WizardControl::MountDestination => {
                self.destination = edit.input;
            },
            _ => {
                return false;
            },
        }
        if edit.changed {
            self.error = None;
        }
        edit.changed
    }
}

impl Draft {
    /// Edits a field of the draft. Says whether its text changed.
    pub fn edit_field(&mut self, id: WizardControl, edit: FieldEdit) -> (changed: bool)
        requires
            old(self)@.purpose matches PurposeView::New(part) ==> part.project_history.len() > 0
                ==> part.project_history_index < part.project_history.len(),
        ensures
            final(self)@ == old(self)@.field_edited(id, edit@),
            changed == old(self)@.edit_changes(id, edit@),
    {
        match &mut self.purpose {
            Purpose::New(part) => match id {
                WizardControl::ProjectDirectory => {
                    return part.edit_directory(edit);
                },
                WizardControl::NewBundleSource => {
                    return part.edit_source(edit);
                },
                _ => {},
            },
            Purpose::Resume(_) => {},
        }
        self.mounts.edit_field(id, edit)
    }
}

} // verus!
