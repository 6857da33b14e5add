//! The attached directories of a draft, and the editor for one of them.

use vstd::prelude::*;

use crate::drafts::{ForcedSource, MountWizard, PathInput};
#[allow(unused_imports)]
use crate::drafts::{ForcedSourceView, MountWizardView, PathInputView};
#[allow(unused_imports)]
use crate::duplicate::{group_views, views};
use crate::duplicate::{joined, owned, Duplicate};
use crate::lists::find;
#[allow(unused_imports)]
use crate::lists::{
    first_position, lemma_first_found, lemma_none_found, lemma_position_fits, lookup,
};
#[allow(unused_imports)]
use crate::paths::same_path;
use crate::paths::paths_match;
use crate::records::{AdditionalMount, MountAccess};
#[allow(unused_imports)]
use crate::records::AdditionalMountView;
use crate::tables::store;
#[allow(unused_imports)]
use crate::tables::{keys_increase, law_stored_keeps_order, law_stored_read_back, stored};
use crate::text::trim;
#[allow(unused_imports)]
use crate::text::trimmed;

verus! {

// --- Path fields ---

/// A field that holds `text`, with no popup.
pub open spec fn field(text: Seq<char>) -> PathInputView {
    PathInputView { text, completing: false }
}

impl PathInput {
    pub fn new() -> (input: PathInput)
        ensures
            input@ == field(seq![]),
    {
        PathInput { text: String::new(), completing: false }
    }

    pub fn from_text(text: String) -> (input: PathInput)
        ensures
            input@ == field(text@),
    {
        PathInput { text, completing: false }
    }

    /// Empty the field; a popup stays as it is.
    pub fn clear(&mut self)
        ensures
            final(self)@ == (PathInputView { text: seq![], ..old(self)@ }),
    {
        self.text = String::new();
    }

    /// Close the completion popup.
    pub fn dismiss_completion(&mut self)
        ensures
            final(self)@ == (PathInputView { completing: false, ..old(self)@ }),
    {
        self.completing = false;
    }

    /// Replace the text; a popup belonged to the old text and closes.
    pub fn set_value(&mut self, text: &str)
        ensures
            final(self)@ == field(text@),
    {
        self.text = owned(text);
        self.completing = false;
    }

    pub fn is_empty(&self) -> (r: bool)
        ensures
            r == (self@.text.len() == 0),
    {
        self.text.as_str().unicode_len() == 0
    }

    /// The text without white space at either end.
    pub fn trimmed_text(&self) -> (text: String)
        ensures
            text@ == trimmed(self@.text),
    {
        trim(self.text.as_str())
    }
}

// --- Access modes ---

/// The access modes offered for an attachment: copy-on-write only where the
/// source's file system can hold the overlay.
pub open spec fn offered_access(overlay_unavailable: bool) -> Seq<MountAccess> {
    if overlay_unavailable {
        seq![MountAccess::Ro, MountAccess::Rw]
    } else {
        seq![MountAccess::Ro, MountAccess::Cow, MountAccess::Rw]
    }
}

pub fn access_choices(overlay_unavailable: bool) -> (choices: Vec<MountAccess>)
    ensures
        choices@ == offered_access(overlay_unavailable),
{
    let mut choices: Vec<MountAccess> = Vec::new();
    choices.push(MountAccess::Ro);
    if !overlay_unavailable {
        choices.push(MountAccess::Cow);
    }
    choices.push(MountAccess::Rw);
    choices
}

/// The access mode without the overlay: copy-on-write becomes read-only.
pub open spec fn without_overlay(access: MountAccess) -> MountAccess {
    match access {
        MountAccess::Cow => MountAccess::Ro,
        other => other,
    }
}

/// The mode that is left is one of those offered.
pub proof fn law_overlay_fallback_offered(access: MountAccess)
    ensures
        offered_access(true).contains(without_overlay(access)),
        offered_access(false).contains(access),
{
    let choices = offered_access(true);
    assert(choices[0] == MountAccess::Ro && choices[1] == MountAccess::Rw);
    let all = offered_access(false);
    assert(all[0] == MountAccess::Ro && all[1] == MountAccess::Cow && all[2] == MountAccess::Rw);
}

/// Being the access mode `access`.
pub open spec fn is_access(access: MountAccess) -> spec_fn(MountAccess) -> bool {
    |choice: MountAccess| choice == access
}

/// Where `access` first stands among `choices`, or the first row.
pub open spec fn access_row(choices: Seq<MountAccess>, access: MountAccess) -> int {
    match first_position(choices, is_access(access)) {
        Some(row) => row,
        None => 0,
    }
}

pub fn access_index(choices: &Vec<MountAccess>, access: MountAccess) -> (row: usize)
    ensures
        row == access_row(choices@, access),
        row < choices.len() || row == 0,
{
    let mut i: usize = 0;
    while i < choices.len()
        invariant
            i <= choices.len(),
            forall|j: int| 0 <= j < i ==> !is_access(access)(#[trigger] choices@[j]),
        decreases choices.len() - i,
    {
        if choices[i] == access {
            proof {
                lemma_first_found(choices@, is_access(access), i as int);
            }
            return i;
        }
        i = i + 1;
    }
    proof {
        lemma_none_found(choices@, is_access(access));
    }
    0
}

pub open spec fn access_label_text(access: MountAccess) -> Seq<char> {
    match access {
        MountAccess::Ro => "ro"@,
        MountAccess::Cow => "cow"@,
        MountAccess::Rw => "rw"@,
    }
}

/// Suffix that shows an attached directory's access mode in a list row.
pub fn access_marker(access: MountAccess) -> (marker: String)
    ensures
        marker@ == " · "@ + access_label_text(access),
{
    joined(
        " · ",
        match access {
            MountAccess::Ro => "ro",
            MountAccess::Cow => "cow",
            MountAccess::Rw => "rw",
        },
    )
}

pub open spec fn access_description_text(access: MountAccess) -> Seq<char> {
    match access {
        MountAccess::Ro => "ro · read-only"@,
        MountAccess::Cow => "cow · container-private copy-on-write"@,
        MountAccess::Rw => "rw · writes reach the host directory"@,
    }
}

pub fn access_description(access: MountAccess) -> (text: &'static str)
    ensures
        text@ == access_description_text(access),
{
    match access {
        MountAccess::Ro => "ro · read-only",
        MountAccess::Cow => "cow · container-private copy-on-write",
        MountAccess::Rw => "rw · writes reach the host directory",
    }
}

// --- The editor ---

impl MountWizardView {
    /// Why the source under edit cannot use the copy-on-write overlay, if it
    /// cannot.
    pub open spec fn overlay_barrier(self) -> Option<Seq<char>> {
        match lookup::<ForcedSource>(self.forced_sources, trimmed(self.source.text)) {
            Some(entry) => Some(entry.reason),
            None => None,
        }
    }

    /// The editor emptied for a new entry.
    pub open spec fn emptied(self) -> MountWizardView {
        MountWizardView {
            source: field(seq![]),
            destination: PathInputView { text: seq![], ..self.destination },
            access: MountAccess::Ro,
            error: None,
            editing_mount: None,
            ..self
        }
    }

    /// The editor holding the selected attachment. A source that is known not
    /// to hold the overlay does not get it back.
    pub open spec fn editing_selected(self) -> MountWizardView {
        let mount = self.mounts[self.history_index as int];
        let loaded = MountWizardView {
            source: field(mount.source),
            destination: field(mount.destination),
            error: None,
            editing_mount: Some(self.history_index),
            ..self
        };
        MountWizardView {
            access: if loaded.overlay_barrier().is_some() {
                without_overlay(mount.access)
            } else {
                mount.access
            },
            ..loaded
        }
    }

    /// The selected attachment is one of the list.
    pub open spec fn selection_valid(self) -> bool {
        self.mounts.len() > 0 ==> self.history_index < self.mounts.len()
    }

    /// The attachment under edit is one of the list.
    pub open spec fn edit_valid(self) -> bool {
        self.editing_mount matches Some(i) ==> i < self.mounts.len()
    }

    /// The attachment that the editor describes.
    pub open spec fn entry(self) -> AdditionalMountView {
        AdditionalMountView {
            source: self.source.text,
            destination: self.destination.text,
            access: self.access,
        }
    }

    /// The attachments with the edited one put in its place, or added.
    pub open spec fn with_entry(self) -> Seq<AdditionalMountView> {
        match self.editing_mount {
            Some(i) => self.mounts.update(i as int, self.entry()),
            None => self.mounts.push(self.entry()),
        }
    }

    /// The editor after its entry was accepted.
    pub open spec fn entry_added(self) -> MountWizardView {
        MountWizardView {
            mounts: self.with_entry(),
            source: field(seq![]),
            destination: PathInputView { text: seq![], ..self.destination },
            access: MountAccess::Ro,
            error: None,
            editing_mount: None,
            ..self
        }
    }

    /// The list without the selected attachment.
    pub open spec fn selected_removed(self) -> MountWizardView {
        if self.mounts.len() == 0 {
            self
        } else {
            let left = self.mounts.len() - 1;
            MountWizardView {
                mounts: self.mounts.remove(self.history_index as int),
                history_index: if self.history_index >= left && left > 0 {
                    (left - 1) as usize
                } else if left == 0 {
                    0
                } else {
                    self.history_index
                },
                ..self
            }
        }
    }

    /// Another attachment than the one under edit goes to the same place.
    pub open spec fn destination_used(self) -> bool {
        exists|i: int|
            0 <= i < self.mounts.len() && self.editing_mount != Some(i as usize) && same_path(
                (#[trigger] self.mounts[i]).destination,
                self.destination.text,
            )
    }

    /// What is wrong with the entry: the source, then the destination, then
    /// that the destination is used already.
    pub open spec fn entry_fault(
        self,
        source_fault: Option<Seq<char>>,
        destination_fault: Option<Seq<char>>,
    ) -> Option<Seq<char>> {
        if source_fault is Some {
            source_fault
        } else if destination_fault is Some {
            destination_fault
        } else if self.destination_used() {
            Some(
                self.destination.text + " is already an attached directory destination."@,
            )
        } else {
            None
        }
    }

    /// The list with the reason remembered for a source.
    pub open spec fn forced(self, source: Seq<char>, reason: Seq<char>) -> Seq<ForcedSourceView> {
        stored::<ForcedSource>(self.forced_sources, ForcedSourceView { source, reason })
    }

    /// The history row that Up or Down leads to: one row, stopping at the
    /// ends.
    pub open spec fn history_row(self, up: bool) -> nat {
        let last = (self.history.len() - 1) as nat;
        let next = if up {
            if self.history_index == 0 {
                0
            } else {
                (self.history_index - 1) as nat
            }
        } else {
            (self.history_index + 1) as nat
        };
        if next > last {
            last
        } else {
            next
        }
    }
}

/// An attachment that was just put in its place leaves the selection valid
/// once it is selected.
pub proof fn law_added_entry_selectable(wizard: MountWizardView)
    requires
        wizard.edit_valid(),
    ensures
        wizard.entry_added().mounts.len() > 0,
        wizard.entry_added().edit_valid(),
{
}

/// Editing an attachment and accepting it unchanged leaves the list as it
/// was, unless its source turned out not to hold the overlay.
pub proof fn law_unchanged_edit_keeps_list(wizard: MountWizardView)
    requires
        wizard.mounts.len() > 0,
        wizard.selection_valid(),
    ensures
        wizard.editing_selected().overlay_barrier() is None
            ==> wizard.editing_selected().entry_added().mounts == wizard.mounts,
{
    let opened = wizard.editing_selected();
    if opened.overlay_barrier() is None {
        assert(opened.entry_added().mounts =~= wizard.mounts);
    }
}

/// Removing takes out the selected attachment and no other, and keeps the
/// selection on the row after it, or on the last row there is.
pub proof fn law_removal_takes_selected(wizard: MountWizardView)
    requires
        wizard.mounts.len() > 0,
        wizard.history_index < wizard.mounts.len(),
    ensures
        ({
            let after = wizard.selected_removed();
            let row = wizard.history_index as int;
            &&& after.mounts.len() == wizard.mounts.len() - 1
            &&& forall|j: int| 0 <= j < row ==> #[trigger] after.mounts[j] == wizard.mounts[j]
            &&& forall|j: int|
                row <= j < after.mounts.len() ==> #[trigger] after.mounts[j] == wizard.mounts[j + 1]
            &&& row + 1 < wizard.mounts.len() ==> after.history_index == row
            &&& row + 1 == wizard.mounts.len() && row > 0 ==> after.history_index == row - 1
            &&& after.source == wizard.source && after.destination == wizard.destination
            &&& after.access == wizard.access && after.error == wizard.error
            &&& after.forced_sources == wizard.forced_sources && after.history == wizard.history
            &&& after.editing_mount == wizard.editing_mount
        }),
{
}

/// Nothing is removed from an empty list.
pub proof fn law_nothing_to_remove(wizard: MountWizardView)
    requires
        wizard.mounts.len() == 0,
    ensures
        wizard.selected_removed() == wizard,
{
}

/// A new entry is attached after all others, as it was typed and with the
/// access it was given; the others stay, and the editor is empty again.
pub proof fn law_new_entry_attached_last(wizard: MountWizardView)
    requires
        wizard.editing_mount is None,
    ensures
        ({
            let after = wizard.entry_added();
            let count = wizard.mounts.len();
            &&& after.mounts.len() == count + 1
            &&& after.mounts[count as int].source == wizard.source.text
            &&& after.mounts[count as int].destination == wizard.destination.text
            &&& after.mounts[count as int].access == wizard.access
            &&& forall|j: int| 0 <= j < count ==> #[trigger] after.mounts[j] == wizard.mounts[j]
            &&& after.source.text.len() == 0 && after.destination.text.len() == 0
            &&& after.access == MountAccess::Ro
            &&& after.error is None && after.editing_mount is None
            &&& after.forced_sources == wizard.forced_sources
        }),
{
}

/// An entry that is edited replaces the attachment it was opened from, and no
/// other.
pub proof fn law_edited_entry_replaces_own(wizard: MountWizardView, row: usize)
    requires
        wizard.editing_mount == Some(row),
        row < wizard.mounts.len(),
    ensures
        ({
            let after = wizard.entry_added();
            &&& after.mounts.len() == wizard.mounts.len()
            &&& after.mounts[row as int].source == wizard.source.text
            &&& after.mounts[row as int].destination == wizard.destination.text
            &&& after.mounts[row as int].access == wizard.access
            &&& forall|j: int|
                0 <= j < wizard.mounts.len() && j != row ==> #[trigger] after.mounts[j]
                    == wizard.mounts[j]
            &&& after.editing_mount is None && after.error is None
        }),
{
}

/// The editor opens on the selected attachment with its source, its
/// destination and its access, but for the overlay where its source is known
/// not to hold it. The list is not touched.
pub proof fn law_editor_opens_on_selected(wizard: MountWizardView)
    requires
        wizard.history_index < wizard.mounts.len(),
    ensures
        ({
            let opened = wizard.editing_selected();
            let mount = wizard.mounts[wizard.history_index as int];
            &&& opened.source.text == mount.source && !opened.source.completing
            &&& opened.destination.text == mount.destination
            &&& opened.editing_mount == Some(wizard.history_index)
            &&& opened.error is None
            &&& opened.mounts == wizard.mounts
            &&& opened.access == mount.access || (mount.access == MountAccess::Cow && opened.access
                == MountAccess::Ro && opened.overlay_barrier() is Some)
            &&& opened.overlay_barrier() is Some ==> opened.access != MountAccess::Cow
        }),
{
}

/// A new entry starts empty, read-only, and tied to no attachment.
pub proof fn law_editor_opens_empty(wizard: MountWizardView)
    ensures
        ({
            let opened = wizard.emptied();
            &&& opened.source.text.len() == 0 && opened.destination.text.len() == 0
            &&& opened.access == MountAccess::Ro
            &&& opened.editing_mount is None && opened.error is None
            &&& opened.mounts == wizard.mounts && opened.forced_sources == wizard.forced_sources
        }),
{
}

/// An entry passes exactly where nothing is wrong with its paths and no other
/// attachment goes to the same place; the one under edit is no other.
pub proof fn law_entry_passes(
    wizard: MountWizardView,
    source_fault: Option<Seq<char>>,
    destination_fault: Option<Seq<char>>,
)
    requires
        wizard.mounts.len() <= usize::MAX,
    ensures
        wizard.entry_fault(source_fault, destination_fault) is None <==> {
            &&& source_fault is None
            &&& destination_fault is None
            &&& forall|i: int|
                0 <= i < wizard.mounts.len() && same_path(
                    (#[trigger] wizard.mounts[i]).destination,
                    wizard.destination.text,
                ) ==> wizard.editing_mount == Some(i as usize)
        },
        source_fault is Some ==> wizard.entry_fault(source_fault, destination_fault)
            == source_fault,
        source_fault is None && destination_fault is Some ==> wizard.entry_fault(
            source_fault,
            destination_fault,
        ) == destination_fault,
{
}

/// A source that was found not to hold the overlay is remembered with the
/// reason, until another reason is given; the other sources are not touched.
pub proof fn law_barrier_remembered(
    wizard: MountWizardView,
    reason: Seq<char>,
    other: Seq<char>,
)
    ensures
        (MountWizardView {
            forced_sources: wizard.forced(trimmed(wizard.source.text), reason),
            ..wizard
        }).overlay_barrier() == Some(reason),
        trimmed(wizard.source.text) != trimmed(other) ==> (MountWizardView {
            forced_sources: wizard.forced(trimmed(other), reason),
            ..wizard
        }).overlay_barrier() == wizard.overlay_barrier(),
{
    law_stored_read_back::<ForcedSource>(
        wizard.forced_sources,
        ForcedSourceView { source: trimmed(wizard.source.text), reason },
        trimmed(wizard.source.text),
    );
    law_stored_read_back::<ForcedSource>(
        wizard.forced_sources,
        ForcedSourceView { source: trimmed(other), reason },
        trimmed(wizard.source.text),
    );
}

/// Without the overlay, copy-on-write is neither offered nor kept, and the
/// other modes are. Read-only comes first.
pub proof fn law_overlay_offered_where_usable(access: MountAccess)
    ensures
        offered_access(false).contains(MountAccess::Cow),
        !offered_access(true).contains(MountAccess::Cow),
        offered_access(true)[0] == MountAccess::Ro && offered_access(false)[0] == MountAccess::Ro,
        offered_access(true).no_duplicates() && offered_access(false).no_duplicates(),
        without_overlay(access) != MountAccess::Cow,
        access != MountAccess::Cow ==> without_overlay(access) == access,
        access == MountAccess::Cow ==> without_overlay(access) == MountAccess::Ro,
{
    assert(offered_access(false)[1] == MountAccess::Cow);
}

/// The row of an offered mode is where that mode is.
pub proof fn law_access_row_finds_access(unavailable: bool, access: MountAccess)
    requires
        !unavailable || access != MountAccess::Cow,
    ensures
        0 <= access_row(offered_access(unavailable), access) < offered_access(unavailable).len(),
        offered_access(unavailable)[access_row(offered_access(unavailable), access)] == access,
{
    let choices = offered_access(unavailable);
    lemma_position_fits(choices, is_access(access));
    assert(choices[0] == MountAccess::Ro);
    assert(choices[choices.len() - 1] == MountAccess::Rw);
    if !unavailable {
        assert(choices[1] == MountAccess::Cow);
    }
}

/// Up and Down walk the remembered sources by one row and stop at the ends,
/// so either undoes the other between them.
pub proof fn law_history_walk(wizard: MountWizardView)
    requires
        wizard.history_index < wizard.history.len() <= usize::MAX,
    ensures
        wizard.history_row(true) == if wizard.history_index == 0 {
            0
        } else {
            wizard.history_index - 1
        },
        wizard.history_row(false) == if wizard.history_index + 1 == wizard.history.len() {
            wizard.history_index as int
        } else {
            wizard.history_index + 1
        },
        wizard.history_index + 1 < wizard.history.len() ==> (MountWizardView {
            history_index: wizard.history_row(false) as usize,
            ..wizard
        }).history_row(true) == wizard.history_index,
{
}

impl MountWizard {
    pub open spec fn fresh(history: Seq<Seq<char>>) -> MountWizardView {
        MountWizardView {
            source: field(seq![]),
            destination: field(seq![]),
            access: MountAccess::Ro,
            access_combo: None,
            mounts: seq![],
            history,
            history_index: 0,
            forced_sources: seq![],
            error: None,
            editing_mount: None,
        }
    }

    pub fn new(history: Vec<String>) -> (wizard: MountWizard)
        ensures
            wizard@ == MountWizard::fresh(history.deep_view()),
    {
        broadcast use group_views;

        MountWizard {
            source: PathInput::new(),
            destination: PathInput::new(),
            access: MountAccess::Ro,
            access_combo: None,
            mounts: Vec::new(),
            history,
            history_index: 0,
            forced_sources: Vec::new(),
            error: None,
            editing_mount: None,
        }
    }

    pub fn with_mounts(history: Vec<String>, mounts: Vec<AdditionalMount>) -> (wizard: MountWizard)
        ensures
            wizard@ == (MountWizardView {
                mounts: mounts.deep_view(),
                ..MountWizard::fresh(history.deep_view())
            }),
    {
        let mut wizard = MountWizard::new(history);
        wizard.mounts = mounts;
        wizard
    }

    /// Why the source under edit cannot use the copy-on-write overlay, if it
    /// cannot.
    pub fn overlay_unavailable(&self) -> (reason: Option<&str>)
        ensures
            reason.is_some() == self@.overlay_barrier().is_some(),
            reason matches Some(text) ==> self@.overlay_barrier() == Some(text@),
    {
        let source = self.source.trimmed_text();
        match find(&self.forced_sources, source.as_str()) {
            Some(entry) => Some(entry.reason.as_str()),
            None => None,
        }
    }

    /// The access modes the entry under edit may use.
    pub fn access_choices(&self) -> (choices: Vec<MountAccess>)
        ensures
            choices@ == offered_access(self@.overlay_barrier().is_some()),
    {
        access_choices(self.overlay_unavailable().is_some())
    }

    /// Settle the access mode after the host reported the overlay unusable.
    pub fn forbid_overlay(&mut self)
        ensures
            final(self)@ == (MountWizardView {
                access: without_overlay(old(self)@.access),
                ..old(self)@
            }),
    {
        if self.access == MountAccess::Cow {
            self.access = MountAccess::Ro;
        }
    }

    /// Remember that a source's file system cannot hold the overlay.
    pub fn remember_forced(&mut self, source: String, reason: String)
        ensures
            final(self)@ == (MountWizardView {
                forced_sources: old(self)@.forced(source@, reason@),
                ..old(self)@
            }),
            keys_increase::<ForcedSource>(old(self)@.forced_sources) ==> keys_increase::<
                ForcedSource,
            >(final(self)@.forced_sources),
    {
        proof {
            if keys_increase::<ForcedSource>(self@.forced_sources) {
                law_stored_keeps_order::<ForcedSource>(
                    self@.forced_sources,
                    ForcedSourceView { source: source@, reason: reason@ },
                );
            }
        }
        store(&mut self.forced_sources, ForcedSource { source, reason });
    }

    pub fn add_validated_mount(&mut self)
        requires
            old(self)@.edit_valid(),
        ensures
            final(self)@ == old(self)@.entry_added(),
    {
        broadcast use group_views;

        let mount = AdditionalMount {
            source: self.source.text.duplicate(),
            destination: self.destination.text.duplicate(),
            access: self.access,
        };
        match self.editing_mount {
            Some(index) => {
                self.mounts.set(index, mount);
                self.editing_mount = None;
            },
            None => {
                self.mounts.push(mount);
            },
        }
        self.source.clear();
        self.destination.clear();
        self.access = MountAccess::Ro;
        self.source.dismiss_completion();
        self.error = None;
    }

    /// Walk the source history by one row.
    pub fn walk_history(&mut self, up: bool)
        requires
            old(self)@.history.len() > 0,
        ensures
            final(self)@ == (MountWizardView {
                history_index: old(self)@.history_row(up) as usize,
                source: field(old(self)@.history[old(self)@.history_row(up) as int]),
                ..old(self)@
            }),
    {
        broadcast use group_views;

        let last = self.history.len() - 1;
        let index = self.history_index;
        let next = if up {
            if index == 0 {
                0
            } else {
                index - 1
            }
        } else if index >= last {
            last
        } else {
            index + 1
        };
        let row = if next > last {
            last
        } else {
            next
        };
        self.history_index = row;
        self.source = PathInput::from_text(self.history[row].duplicate());
    }

    /// Open the list of access modes on the current one.
    pub fn open_mount_access(&mut self)
        ensures
            final(self)@ == (MountWizardView {
                access_combo: Some(
                    access_row(
                        offered_access(old(self)@.overlay_barrier().is_some()),
                        old(self)@.access,
                    ) as usize,
                ),
                ..old(self)@
            }),
    {
        let choices = self.access_choices();
        self.access_combo = Some(access_index(&choices, self.access));
    }

    /// Take the access mode in row `index`, if there is such a row, and close
    /// the list.
    pub fn commit_mount_access(&mut self, index: usize)
        ensures
            final(self)@ == (MountWizardView {
                access: if index < offered_access(old(self)@.overlay_barrier().is_some()).len() {
                    offered_access(old(self)@.overlay_barrier().is_some())[index as int]
                } else {
                    old(self)@.access
                },
                access_combo: None,
                ..old(self)@
            }),
    {
        let choices = self.access_choices();
        if index < choices.len() {
            self.access = choices[index];
        }
        self.access_combo = None;
    }

    /// What is wrong with the entry under edit, given what is wrong with its
    /// source and its destination by themselves.
    pub fn validate_mount_entry(
        &self,
        source_fault: Option<String>,
        destination_fault: Option<String>,
    ) -> (fault: Option<String>)
        ensures
            fault.deep_view() == self@.entry_fault(
                source_fault.deep_view(),
                destination_fault.deep_view(),
            ),
    {
        broadcast use group_views;

        if source_fault.is_some() {
            return source_fault;
        }
        if destination_fault.is_some() {
            return destination_fault;
        }
        let ghost mounts = self@.mounts;
        let mut i: usize = 0;
        while i < self.mounts.len()
            invariant
                i <= self.mounts.len(),
                source_fault is None,
                destination_fault is None,
                mounts == self@.mounts,
                mounts == views(self.mounts@),
                forall|j: int|
                    0 <= j < i ==> !(self@.editing_mount != Some(j as usize) && same_path(
                        (#[trigger] mounts[j]).destination,
                        self@.destination.text,
                    )),
            decreases self.mounts.len() - i,
        {
            let edited = match self.editing_mount {
                Some(index) => index == i,
                None => false,
            };
            assert(mounts[i as int].destination == self.mounts@[i as int].destination@);
            if !edited && paths_match(
                self.mounts[i].destination.as_str(),
                self.destination.text.as_str(),
            ) {
                assert(self@.destination_used());
                return Some(
                    joined(
                        self.destination.text.as_str(),
                        " is already an attached directory destination.",
                    ),
                );
            }
            i = i + 1;
        }
        None
    }
}

/// Remove the selected attachment, keeping the selection within the list.
pub fn remove_selected_mount(mounts: &mut MountWizard)
    requires
        old(mounts)@.selection_valid(),
    ensures
        final(mounts)@ == old(mounts)@.selected_removed(),
        final(mounts)@.selection_valid(),
{
    broadcast use group_views;

    if mounts.mounts.len() == 0 {
        return;
    }
    let removed = mounts.mounts.remove(mounts.history_index);
    let left = mounts.mounts.len();
    if left == 0 {
        mounts.history_index = 0;
    } else if mounts.history_index >= left {
        mounts.history_index = left - 1;
    }
}

/// Empties the attachment editor for a new entry.
pub fn prepare_mount_editor(mounts: &mut MountWizard)
    ensures
        final(mounts)@ == old(mounts)@.emptied(),
{
    mounts.source.clear();
    mounts.destination.clear();
    mounts.access = MountAccess::Ro;
    mounts.error = None;
    mounts.editing_mount = None;
    mounts.source.dismiss_completion();
}

/// Loads the selected attachment into the editor. Answers false when there is
/// nothing to edit, in which case the wizard must stay on its current step.
pub fn prepare_selected_mount_editor(mounts: &mut MountWizard) -> (loaded: bool)
    requires
        old(mounts)@.selection_valid(),
    ensures
        loaded == (old(mounts)@.mounts.len() > 0),
        final(mounts)@ == if loaded {
            old(mounts)@.editing_selected()
        } else {
            old(mounts)@
        },
        loaded ==> final(mounts)@.edit_valid(),
{
    broadcast use group_views;

    if mounts.mounts.len() == 0 {
        return false;
    }
    let index = mounts.history_index;
    let mount = mounts.mounts[index].duplicate();
    mounts.source = PathInput::from_text(mount.source);
    mounts.destination = PathInput::from_text(mount.destination);
    mounts.access = mount.access;
    mounts.error = None;
    mounts.editing_mount = Some(index);
    if mounts.overlay_unavailable().is_some() {
        mounts.forbid_overlay();
    }
    true
}

} // verus!
