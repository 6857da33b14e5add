//! What the steps with text fields show.

use vstd::prelude::*;

use crate::drafts::{MountWizard, NewSession, WizardControl};
#[allow(unused_imports)]
use crate::drafts::{MountWizardView, NewSessionView};
use crate::duplicate::{joined, owned, Duplicate};
#[allow(unused_imports)]
use crate::duplicate::{group_views, views};
use crate::geometry::Rect;
#[allow(unused_imports)]
use crate::geometry::rect_new;
use crate::mounts::{access_description, access_index};
#[allow(unused_imports)]
use crate::mounts::{
    access_description_text, access_row, law_access_row_finds_access, offered_access,
};
use crate::records::{AdditionalMount, MountAccess, Target, TargetKind};
#[allow(unused_imports)]
use crate::records::{AdditionalMountView, TargetView};
use crate::resources::target_label;
#[allow(unused_imports)]
use crate::resources::target_label_text;
use crate::review::mount_label;
#[allow(unused_imports)]
use crate::review::mount_text;
use crate::screen::{
    add_button, add_line, add_text, no_buttons, no_lines, row_count, Button, TextLine, Tone,
};
#[allow(unused_imports)]
use crate::screen::{
    followed, labelled, law_followed_lines, line, rows_and, rows_of, ButtonView, TextLineView,
};
use crate::text::is_blank;
#[allow(unused_imports)]
use crate::text::trimmed;

verus! {

// --- The attachment editor ---

/// How attached directories are protected on a target.
pub open spec fn protection_text(kind: TargetKind) -> Seq<char> {
    match kind {
        TargetKind::AppleContainer => {
            "Apple Container has no :O overlay mode; each extra bind is read-only."@
        },
        TargetKind::LocalPodman | TargetKind::SshPodman => {
            "Podman uses :O copy-on-write overlays; read-only skips the overlay."@
        },
        TargetKind::LocalDocker | TargetKind::SshDocker => {
            "Docker uses session-owned OverlayFS volumes on the Docker host; read-only skips the overlay."@
        },
        _ => "EC2 directories stream as tar.gz through one SSH connection into the destination."@,
    }
}

/// Directories can be attached on targets of this kind.
pub open spec fn attaches(kind: TargetKind) -> bool {
    kind != TargetKind::LocalBare && kind != TargetKind::SshBare
}

fn protection(kind: TargetKind) -> (text: &'static str)
    requires
        attaches(kind),
    ensures
        text@ == protection_text(kind),
{
    match kind {
        TargetKind::AppleContainer => {
            "Apple Container has no :O overlay mode; each extra bind is read-only."
        },
        TargetKind::LocalPodman | TargetKind::SshPodman => {
            "Podman uses :O copy-on-write overlays; read-only skips the overlay."
        },
        TargetKind::LocalDocker | TargetKind::SshDocker => {
            "Docker uses session-owned OverlayFS volumes on the Docker host; read-only skips the overlay."
        },
        _ => "EC2 directories stream as tar.gz through one SSH connection into the destination.",
    }
}

/// The first few of a list of remembered paths.
pub open spec fn shown_history(history: Seq<Seq<char>>) -> Seq<Seq<char>> {
    if history.len() > 5 {
        history.take(5)
    } else {
        history
    }
}

pub open spec fn attached_line() -> spec_fn(int, AdditionalMountView) -> TextLineView {
    |i: int, mount: AdditionalMountView| line("  "@ + mount_text(mount), Tone::Plain)
}

/// A remembered source, marked where it is the selected one.
pub open spec fn source_line(selected: usize) -> spec_fn(int, Seq<char>) -> TextLineView {
    |i: int, source: Seq<char>|
        line(
            (if i == selected {
                "› "@
            } else {
                "  "@
            }) + source,
            Tone::Plain,
        )
}

impl MountWizardView {
    /// The remembered sources are offered: nothing is typed, and the source
    /// has the focus.
    pub open spec fn offers_history(self, focused: Option<WizardControl>) -> bool {
        focused == Some(WizardControl::MountSource) && self.source.text.len() == 0
            && self.history.len() > 0
    }

    /// The lines above the fields of the attachment editor.
    pub open spec fn editor_lines(self, target: TargetView, focused: Option<WizardControl>) -> Seq<
        TextLineView,
    > {
        let list = Seq::empty().push(
            line(
                "Target: "@ + target.id + " ("@ + target_label_text(target.template.kind) + ")"@,
                Tone::Plain,
            ),
        ).push(line(protection_text(target.template.kind), Tone::Warning));
        let list = if self.mounts.len() > 0 {
            followed(
                list.push(line(""@, Tone::Plain)).push(line("Already attached:"@, Tone::Plain)),
                self.mounts,
                attached_line(),
            )
        } else {
            list
        };
        let list = if self.offers_history(focused) {
            followed(
                list.push(line(""@, Tone::Plain)).push(
                    line("Recent sources (↑/↓ when Source is empty):"@, Tone::Muted),
                ),
                shown_history(self.history),
                source_line(self.history_index),
            )
        } else {
            list
        };
        let list = match self.error {
            Some(error) => list.push(line(""@, Tone::Plain)).push(line(error, Tone::Error)),
            None => list,
        };
        list.push(
            line(
                "Ctrl-Space completes · Tab moves focus · Space toggles read-only · Enter continues/adds"@,
                Tone::Muted,
            ),
        )
    }
}

fn add_attached(list: &mut Vec<TextLine>, mounts: &Vec<AdditionalMount>)
    ensures
        final(list).deep_view() == followed(
            old(list).deep_view(),
            mounts.deep_view(),
            attached_line(),
        ),
{
    broadcast use group_views;

    let ghost start = list.deep_view();
    let ghost all = mounts.deep_view();
    let ghost shown = attached_line();
    let mut i: usize = 0;
    assert(all.take(0) =~= Seq::empty());
    while i < mounts.len()
        invariant
            i <= mounts.len(),
            all == mounts.deep_view(),
            all == views(mounts@),
            shown == attached_line(),
            list.deep_view() == followed(start, all.take(i as int), shown),
        decreases mounts.len() - i,
    {
        proof {
            assert(all[i as int] == mounts@[i as int]@);
            assert(all.take(i + 1).drop_last() =~= all.take(i as int));
            assert(all.take(i + 1).last() == all[i as int]);
        }
        add_line(list, joined("  ", mount_label(&mounts[i]).as_str()), Tone::Plain);
        i = i + 1;
    }
    assert(all.take(all.len() as int) =~= all);
}

fn add_sources(list: &mut Vec<TextLine>, history: &Vec<String>, selected: usize)
    ensures
        final(list).deep_view() == followed(
            old(list).deep_view(),
            shown_history(history.deep_view()),
            source_line(selected),
        ),
{
    broadcast use group_views;

    let ghost start = list.deep_view();
    let ghost all = history.deep_view();
    let ghost few = shown_history(all);
    let ghost shown = source_line(selected);
    let count = if history.len() > 5 {
        5
    } else {
        history.len()
    };
    let mut i: usize = 0;
    assert(few.take(0) =~= Seq::empty());
    while i < count
        invariant
            i <= count <= history.len(),
            count == few.len(),
            all == history.deep_view(),
            all == views(history@),
            few == shown_history(all),
            shown == source_line(selected),
            list.deep_view() == followed(start, few.take(i as int), shown),
        decreases count - i,
    {
        proof {
            assert(all[i as int] == history@[i as int]@);
            assert(few[i as int] == all[i as int]);
            assert(few.take(i + 1).drop_last() =~= few.take(i as int));
            assert(few.take(i + 1).last() == few[i as int]);
        }
        let marker = if i == selected {
            "› "
        } else {
            "  "
        };
        add_line(list, joined(marker, history[i].as_str()), Tone::Plain);
        i = i + 1;
    }
    assert(few.take(few.len() as int) =~= few);
}

/// The list of access modes.
#[derive(Debug, PartialEq, Eq)]
pub struct AccessCombo {
    pub options: Vec<String>,
    /// The highlighted row while the list is open, else the row of the current
    /// mode.
    pub selected: usize,
    pub expanded: bool,
    /// What the closed list shows.
    pub value: String,
    /// The title of the open list.
    pub help: String,
}

/// What a [`AccessCombo`] holds.
#[verifier::ext_equal]
pub struct AccessComboView {
    pub options: Seq<Seq<char>>,
    pub selected: usize,
    pub expanded: bool,
    pub value: Seq<char>,
    pub help: Seq<char>,
}

impl DeepView for AccessCombo {
    type V = AccessComboView;

    open spec fn deep_view(&self) -> AccessComboView {
        AccessComboView {
            options: self.options.deep_view(),
            selected: self.selected.deep_view(),
            expanded: self.expanded.deep_view(),
            value: self.value.deep_view(),
            help: self.help.deep_view(),
        }
    }
}

impl View for AccessCombo {
    type V = AccessComboView;

    open spec fn view(&self) -> AccessComboView {
        self.deep_view()
    }
}

/// What the attachment editor shows.
#[derive(Debug, PartialEq, Eq)]
pub struct MountScreen {
    pub title: String,
    /// Rows of the popup.
    pub height: u16,
    pub lines: Vec<TextLine>,
    /// The row of the source; the destination and the access mode follow.
    pub info_height: u16,
    pub total_height: u16,
    /// The row that has to be seen.
    pub focused_row: Option<u16>,
    pub source_label: String,
    pub destination_label: String,
    pub access_label: String,
    pub access: AccessCombo,
    pub buttons: Vec<Button>,
}

/// What a [`MountScreen`] holds.
#[verifier::ext_equal]
pub struct MountScreenView {
    pub title: Seq<char>,
    pub height: u16,
    pub lines: Seq<TextLineView>,
    pub info_height: u16,
    pub total_height: u16,
    pub focused_row: Option<u16>,
    pub source_label: Seq<char>,
    pub destination_label: Seq<char>,
    pub access_label: Seq<char>,
    pub access: AccessComboView,
    pub buttons: Seq<ButtonView>,
}

impl DeepView for MountScreen {
    type V = MountScreenView;

    open spec fn deep_view(&self) -> MountScreenView {
        MountScreenView {
            title: self.title.deep_view(),
            height: self.height.deep_view(),
            lines: self.lines.deep_view(),
            info_height: self.info_height.deep_view(),
            total_height: self.total_height.deep_view(),
            focused_row: self.focused_row.deep_view(),
            source_label: self.source_label.deep_view(),
            destination_label: self.destination_label.deep_view(),
            access_label: self.access_label.deep_view(),
            access: self.access.deep_view(),
            buttons: self.buttons.deep_view(),
        }
    }
}

impl View for MountScreen {
    type V = MountScreenView;

    open spec fn view(&self) -> MountScreenView {
        self.deep_view()
    }
}

pub open spec fn access_texts(choices: Seq<MountAccess>) -> Seq<Seq<char>> {
    Seq::new(choices.len(), |i: int| access_description_text(choices[i]))
}

impl MountWizardView {
    /// The list of access modes.
    pub open spec fn access_list(self) -> AccessComboView {
        let choices = offered_access(self.overlay_barrier().is_some());
        let selected = match self.access_combo {
            Some(row) => row,
            None => access_row(choices, self.access) as usize,
        };
        AccessComboView {
            options: access_texts(choices),
            selected,
            expanded: self.access_combo is Some,
            value: if selected < choices.len() {
                access_description_text(choices[selected as int])
            } else {
                ""@
            },
            help: " access · ↑/↓ select · Enter accept "@,
        }
    }

    /// The row that has to be seen for the control with the focus.
    pub open spec fn focused_row(self, info: nat, focused: Option<WizardControl>) -> Option<u16> {
        match focused {
            Some(WizardControl::MountSource) => Some(info as u16),
            Some(WizardControl::MountDestination) => Some(rows_and(info, 1) as u16),
            Some(WizardControl::MountAccess) => Some(rows_and(info, 2) as u16),
            _ => None,
        }
    }

    pub open spec fn screen(self, target: TargetView, focused: Option<WizardControl>) -> MountScreenView {
        let lines = self.editor_lines(target, focused);
        let info = rows_of(lines.len());
        let total = rows_and(info, 3);
        let shown = if total > 16 {
            16
        } else {
            total
        };
        MountScreenView {
            title: "Add attached directory"@,
            height: (if shown + 3 < 13 {
                13
            } else {
                shown + 3
            }) as u16,
            lines,
            info_height: info as u16,
            total_height: total as u16,
            focused_row: self.focused_row(info, focused),
            source_label: "Source:"@,
            destination_label: "Destination:"@,
            access_label: "Access:"@,
            access: self.access_list(),
            buttons: Seq::empty().push(labelled(WizardControl::Cancel, "Cancel"@, true)).push(
                labelled(WizardControl::Back, "Back"@, true),
            ).push(labelled(WizardControl::Add, "Add directory"@, true)),
        }
    }
}

/// The editor names the target it attaches to and lists what is attached
/// already, each as it will be.
pub proof fn law_editor_lists_attached(
    wizard: MountWizardView,
    target: TargetView,
    focused: Option<WizardControl>,
    i: int,
)
    requires
        0 <= i < wizard.mounts.len(),
    ensures
        ({
            let lines = wizard.editor_lines(target, focused);
            &&& lines.len() >= 4 + wizard.mounts.len()
            &&& lines[4 + i].spans[0].text == "  "@ + mount_text(wizard.mounts[i])
            &&& ("Target: "@ + target.id).is_prefix_of(lines[0].spans[0].text)
        }),
{
    let start = Seq::empty().push(
        line(
            "Target: "@ + target.id + " ("@ + target_label_text(target.template.kind) + ")"@,
            Tone::Plain,
        ),
    ).push(line(protection_text(target.template.kind), Tone::Warning)).push(
        line(""@, Tone::Plain),
    ).push(line("Already attached:"@, Tone::Plain));
    law_followed_lines(start, wizard.mounts, attached_line(), i);
    law_followed_lines(start, wizard.mounts, attached_line(), 0);
    let attached = followed(start, wizard.mounts, attached_line()).push(
        line(""@, Tone::Plain),
    ).push(line("Recent sources (↑/↓ when Source is empty):"@, Tone::Muted));
    let recent = shown_history(wizard.history);
    law_followed_lines(attached, recent, source_line(wizard.history_index), 0);
    law_followed_lines(attached, recent, source_line(wizard.history_index), 4 + i);
    let named = "Target: "@ + target.id;
    let text = named + " ("@ + target_label_text(target.template.kind) + ")"@;
    assert(text.take(named.len() as int) =~= named);
}

/// The list of access modes shows the mode that is highlighted, or else the one
/// of the entry; copy-on-write is missing where the source cannot hold it.
pub proof fn law_access_list_shows_mode(wizard: MountWizardView)
    requires
        wizard.overlay_barrier() is None || wizard.access != MountAccess::Cow,
    ensures
        ({
            let list = wizard.access_list();
            let barred = wizard.overlay_barrier() is Some;
            &&& list.options.len() == if barred {
                2int
            } else {
                3int
            }
            &&& wizard.access_combo is None ==> list.value == access_description_text(
                wizard.access,
            ) && !list.expanded
            &&& wizard.access_combo matches Some(row) ==> list.expanded && list.selected == row && (
            row < list.options.len() ==> list.value == list.options[row as int])
        }),
{
    law_access_row_finds_access(wizard.overlay_barrier() is Some, wizard.access);
}

fn describe_access(choices: &Vec<MountAccess>) -> (texts: Vec<String>)
    ensures
        texts.deep_view() == access_texts(choices@),
{
    broadcast use group_views;

    let mut texts: Vec<String> = Vec::new();
    let mut i: usize = 0;
    while i < choices.len()
        invariant
            i <= choices.len(),
            texts.len() == i,
            forall|j: int| 0 <= j < i ==> (#[trigger] texts@[j])@ == access_texts(choices@)[j],
        decreases choices.len() - i,
    {
        texts.push(owned(access_description(choices[i])));
        i = i + 1;
    }
    assert(texts.deep_view() =~= access_texts(choices@));
    texts
}

impl MountWizard {
    fn access_combo_list(&self) -> (combo: AccessCombo)
        ensures
            combo@ == self@.access_list(),
    {
        let choices = self.access_choices();
        let selected = match self.access_combo {
            Some(row) => row,
            None => access_index(&choices, self.access),
        };
        let value = if selected < choices.len() {
            owned(access_description(choices[selected]))
        } else {
            owned("")
        };
        AccessCombo {
            options: describe_access(&choices),
            selected,
            expanded: self.access_combo.is_some(),
            value,
            help: owned(" access · ↑/↓ select · Enter accept "),
        }
    }

    fn describe(&self, target: &Target, focused: Option<WizardControl>) -> (list: Vec<TextLine>)
        requires
            attaches(target.template.kind),
        ensures
            list.deep_view() == self@.editor_lines(target@, focused),
    {
        broadcast use group_views;

        let mut first = joined("Target: ", target.id.as_str());
        first.append(" (");
        first.append(target_label(target.template.kind));
        first.append(")");
        let attached = self.mounts.len() > 0;
        let offers = match focused {
            Some(control) => control == WizardControl::MountSource,
            None => false,
        } && self.source.is_empty() && self.history.len() > 0;
        let mut list = no_lines();
        add_line(&mut list, first, Tone::Plain);
        add_text(&mut list, protection(target.template.kind), Tone::Warning);
        if attached {
            add_text(&mut list, "", Tone::Plain);
            add_text(&mut list, "Already attached:", Tone::Plain);
            add_attached(&mut list, &self.mounts);
        }
        if offers {
            add_text(&mut list, "", Tone::Plain);
            add_text(&mut list, "Recent sources (↑/↓ when Source is empty):", Tone::Muted);
            add_sources(&mut list, &self.history, self.history_index);
        }
        if let Some(error) = &self.error {
            add_text(&mut list, "", Tone::Plain);
            add_line(&mut list, error.duplicate(), Tone::Error);
        }
        add_text(
            &mut list,
            "Ctrl-Space completes · Tab moves focus · Space toggles read-only · Enter continues/adds",
            Tone::Muted,
        );
        list
    }

    /// Lays the attachment editor out.
    pub fn render_mount_wizard(&self, target: &Target, focused: Option<WizardControl>) -> (screen:
        MountScreen)
        requires
            attaches(target.template.kind),
        ensures
            screen@ == self@.screen(target@, focused),
    {
        let lines = self.describe(target, focused);
        let info_height = count_rows(&lines);
        let total_height = info_height.saturating_add(3);
        let shown = if total_height > 16 {
            16
        } else {
            total_height
        };
        let height = if shown + 3 < 13 {
            13
        } else {
            shown + 3
        };
        let focused_row = match focused {
            Some(WizardControl::MountSource) => Some(info_height),
            Some(WizardControl::MountDestination) => Some(info_height.saturating_add(1)),
            Some(WizardControl::MountAccess) => Some(info_height.saturating_add(2)),
            _ => None,
        };
        let mut buttons = no_buttons();
        add_button(&mut buttons, WizardControl::Cancel, "Cancel", true);
        add_button(&mut buttons, WizardControl::Back, "Back", true);
        add_button(&mut buttons, WizardControl::Add, "Add directory", true);
        MountScreen {
            title: owned("Add attached directory"),
            height,
            lines,
            info_height,
            total_height,
            focused_row,
            source_label: owned("Source:"),
            destination_label: owned("Destination:"),
            access_label: owned("Access:"),
            access: self.access_combo_list(),
            buttons,
        }
    }
}

fn count_rows(list: &Vec<TextLine>) -> (rows: u16)
    ensures
        rows == rows_of(list.deep_view().len()),
{
    broadcast use group_views;

    row_count(list.len())
}

/// Where the label of a row goes, and the field behind it, in a dialog of
/// `width` columns.
pub fn labelled_row(row: Rect, width: u16) -> (areas: (Rect, Rect))
    ensures
        areas.0 == rect_new(
            row.x,
            row.y,
            if row.width > 10 {
                10
            } else {
                row.width
            },
            row.height,
        ),
        areas.1 == rect_new(
            rows_and(row.x as nat, 10) as u16,
            row.y,
            (if width > 12 {
                width - 12
            } else {
                0
            }) as u16,
            row.height,
        ),
{
    let label = if row.width > 10 {
        10
    } else {
        row.width
    };
    (
        Rect::new(row.x, row.y, label, row.height),
        Rect::new(row.x.saturating_add(10), row.y, width.saturating_sub(12), row.height),
    )
}

// --- The project directory ---

/// A remembered directory, marked where it is the selected one.
pub open spec fn directory_line(selected: usize, focused: Option<WizardControl>) -> spec_fn(
    int,
    Seq<char>,
) -> TextLineView {
    |i: int, directory: Seq<char>|
        line(
            (if i == selected {
                "›"@
            } else {
                " "@
            }) + " "@ + directory,
            if focused == Some(WizardControl::RecentProject(i as usize)) {
                Tone::Selection
            } else if i == selected {
                Tone::Text
            } else {
                Tone::Muted
            },
        )
}

impl NewSessionView {
    /// The lines above the field of the project directory.
    pub open spec fn directory_intro(self, local: bool) -> Seq<TextLineView> {
        Seq::empty().push(
            line(
                if local {
                    "Absolute project directory on this machine:"@
                } else {
                    "Absolute project directory on the remote machine:"@
                },
                Tone::Plain,
            ),
        ).push(line(""@, Tone::Plain))
    }

    /// The lines below the field, down to the remembered directories.
    pub open spec fn directory_heading(self) -> Seq<TextLineView> {
        let list = match self.project_directory_error {
            Some(error) => Seq::empty().push(line("Error: "@ + error, Tone::Error)).push(
                line(""@, Tone::Plain),
            ),
            None => Seq::empty(),
        };
        if self.project_history.len() > 0 {
            list.push(line(""@, Tone::Plain)).push(
                line("Recent on this host (click or ↑/↓ selects):"@, Tone::Muted),
            )
        } else {
            list
        }
    }

    /// The lines below the field.
    pub open spec fn directory_details(self, focused: Option<WizardControl>) -> Seq<TextLineView> {
        followed(
            self.directory_heading(),
            shown_history(self.project_history),
            directory_line(self.project_history_index, focused),
        ).push(line("Enter validates · Tab moves · Back returns · Esc cancels"@, Tone::Muted))
    }
}

/// What the project directory's step shows.
#[derive(Debug, PartialEq, Eq)]
pub struct DirectoryScreen {
    pub title: String,
    /// Rows of the popup.
    pub height: u16,
    /// Above the field.
    pub intro: Vec<TextLine>,
    /// Below it.
    pub details: Vec<TextLine>,
    /// The line of the details that the remembered directories start in.
    pub recent_start: usize,
    pub recent_count: usize,
    pub buttons: Vec<Button>,
}

/// What a [`DirectoryScreen`] holds.
#[verifier::ext_equal]
pub struct DirectoryScreenView {
    pub title: Seq<char>,
    pub height: u16,
    pub intro: Seq<TextLineView>,
    pub details: Seq<TextLineView>,
    pub recent_start: usize,
    pub recent_count: usize,
    pub buttons: Seq<ButtonView>,
}

impl DeepView for DirectoryScreen {
    type V = DirectoryScreenView;

    open spec fn deep_view(&self) -> DirectoryScreenView {
        DirectoryScreenView {
            title: self.title.deep_view(),
            height: self.height.deep_view(),
            intro: self.intro.deep_view(),
            details: self.details.deep_view(),
            recent_start: self.recent_start.deep_view(),
            recent_count: self.recent_count.deep_view(),
            buttons: self.buttons.deep_view(),
        }
    }
}

impl View for DirectoryScreen {
    type V = DirectoryScreenView;

    open spec fn view(&self) -> DirectoryScreenView {
        self.deep_view()
    }
}

impl NewSessionView {
    /// Rows of the popup: the intro, the field, the details or the completion
    /// popup, the buttons and the frame.
    pub open spec fn directory_height(self, details: nat, popup_rows: u16) -> nat {
        let lower = if rows_of(details) > popup_rows {
            rows_of(details)
        } else {
            popup_rows as nat
        };
        let wanted = rows_and(rows_and(lower, 4), 2);
        if wanted < 9 {
            9
        } else {
            wanted
        }
    }

    pub open spec fn directory_screen(
        self,
        local: bool,
        focused: Option<WizardControl>,
        popup_rows: u16,
    ) -> DirectoryScreenView {
        let details = self.directory_details(focused);
        DirectoryScreenView {
            title: if local {
                "New session · 3/4 local project"@
            } else {
                "New session · 3/4 remote project"@
            },
            height: self.directory_height(details.len(), popup_rows) as u16,
            intro: self.directory_intro(local),
            details,
            recent_start: self.directory_heading().len() as usize,
            recent_count: shown_history(self.project_history).len() as usize,
            buttons: Seq::empty().push(labelled(WizardControl::Cancel, "Cancel"@, true)).push(
                labelled(WizardControl::Back, "Back"@, true),
            ).push(labelled(WizardControl::Next, "Next"@, true)),
        }
    }
}

fn add_directories(
    list: &mut Vec<TextLine>,
    history: &Vec<String>,
    selected: usize,
    focused: Option<WizardControl>,
) -> (count: usize)
    ensures
        final(list).deep_view() == followed(
            old(list).deep_view(),
            shown_history(history.deep_view()),
            directory_line(selected, focused),
        ),
        count == shown_history(history.deep_view()).len(),
{
    broadcast use group_views;

    let ghost start = list.deep_view();
    let ghost all = history.deep_view();
    let ghost few = shown_history(all);
    let ghost shown = directory_line(selected, focused);
    let count = if history.len() > 5 {
        5
    } else {
        history.len()
    };
    let mut i: usize = 0;
    assert(few.take(0) =~= Seq::empty());
    while i < count
        invariant
            i <= count <= history.len(),
            count == few.len(),
            all == history.deep_view(),
            all == views(history@),
            few == shown_history(all),
            shown == directory_line(selected, focused),
            list.deep_view() == followed(start, few.take(i as int), shown),
        decreases count - i,
    {
        proof {
            assert(all[i as int] == history@[i as int]@);
            assert(few[i as int] == all[i as int]);
            assert(few.take(i + 1).drop_last() =~= few.take(i as int));
            assert(few.take(i + 1).last() == few[i as int]);
        }
        let mut text = owned(
            if i == selected {
                "›"
            } else {
                " "
            },
        );
        text.append(" ");
        text.append(history[i].as_str());
        let in_focus = match focused {
            Some(control) => control == WizardControl::RecentProject(i),
            None => false,
        };
        add_line(
            list,
            text,
            if in_focus {
                Tone::Selection
            } else if i == selected {
                Tone::Text
            } else {
                Tone::Muted
            },
        );
        i = i + 1;
    }
    assert(few.take(few.len() as int) =~= few);
    count
}

impl NewSession {
    /// Lays the project directory's step out, beside a completion popup of
    /// `popup_rows` rows.
    pub fn render_project_directory(
        &self,
        local: bool,
        focused: Option<WizardControl>,
        popup_rows: u16,
    ) -> (screen: DirectoryScreen)
        ensures
            screen@ == self@.directory_screen(local, focused, popup_rows),
    {
        broadcast use group_views;

        let remembered = self.project_history.len() > 0;
        let mut intro = no_lines();
        add_text(
            &mut intro,
            if local {
                "Absolute project directory on this machine:"
            } else {
                "Absolute project directory on the remote machine:"
            },
            Tone::Plain,
        );
        add_text(&mut intro, "", Tone::Plain);
        let mut details = no_lines();
        if let Some(error) = &self.project_directory_error {
            add_line(&mut details, joined("Error: ", error.as_str()), Tone::Error);
            add_text(&mut details, "", Tone::Plain);
        }
        if remembered {
            add_text(&mut details, "", Tone::Plain);
            add_text(&mut details, "Recent on this host (click or ↑/↓ selects):", Tone::Muted);
        }
        let recent_start = details.len();
        assert(details.deep_view() == self@.directory_heading());
        let recent_count = add_directories(
            &mut details,
            &self.project_history,
            self.project_history_index,
            focused,
        );
        add_text(
            &mut details,
            "Enter validates · Tab moves · Back returns · Esc cancels",
            Tone::Muted,
        );
        let detail_rows = count_rows(&details);
        let lower = if detail_rows > popup_rows {
            detail_rows
        } else {
            popup_rows
        };
        let wanted = lower.saturating_add(4).saturating_add(2);
        let mut buttons = no_buttons();
        add_button(&mut buttons, WizardControl::Cancel, "Cancel", true);
        add_button(&mut buttons, WizardControl::Back, "Back", true);
        add_button(&mut buttons, WizardControl::Next, "Next", true);
        DirectoryScreen {
            title: owned(
                if local {
                    "New session · 3/4 local project"
                } else {
                    "New session · 3/4 remote project"
                },
            ),
            height: if wanted < 9 {
                9
            } else {
                wanted
            },
            intro,
            details,
            recent_start,
            recent_count,
            buttons,
        }
    }
}

/// Every row has room in the dialog: the intro, the field, each of the
/// details and the buttons, within the frame.
pub proof fn law_directory_rows_fit(
    part: NewSessionView,
    local: bool,
    focused: Option<WizardControl>,
    popup_rows: u16,
)
    requires
        part.directory_details(focused).len() + 6 <= 65535,
        popup_rows + 6 <= 65535,
    ensures
        ({
            let screen = part.directory_screen(local, focused, popup_rows);
            screen.height >= screen.intro.len() + 1 + screen.details.len() + 1 + 2
                && screen.height >= screen.intro.len() + 1 + popup_rows + 1 + 2
        }),
{
}

/// At most five remembered directories are shown, the first ones, each as it is
/// remembered; the error, where there is one, comes before them.
pub proof fn law_remembered_directories_shown(
    part: NewSessionView,
    focused: Option<WizardControl>,
    i: int,
)
    ensures
        ({
            let known = part.project_history;
            let lines = part.directory_details(focused);
            let start = part.directory_heading().len();
            let count = if known.len() > 5 {
                5
            } else {
                known.len()
            };
            &&& lines.len() == start + count + 1
            &&& 0 <= i < count ==> known[i].is_suffix_of(lines[start + i].spans[0].text)
            &&& 0 <= i < count && i == part.project_history_index ==> lines[start + i].spans[0].text
                == "› "@ + known[i]
            &&& part.project_directory_error matches Some(error) ==> lines[0].spans[0].text
                == "Error: "@ + error
        }),
{
    reveal_strlit("›");
    reveal_strlit(" ");
    reveal_strlit("› ");
    let shown = shown_history(part.project_history);
    let heading = part.directory_heading();
    let drawn = directory_line(part.project_history_index, focused);
    law_followed_lines(heading, shown, drawn, i);
    law_followed_lines(heading, shown, drawn, 0);
    if 0 <= i < shown.len() {
        let mark = if i == part.project_history_index {
            "›"@
        } else {
            " "@
        };
        let text = mark + " "@ + shown[i];
        assert(shown[i].is_suffix_of(text));
        assert("›"@ + " "@ =~= "› "@);
    }
}

// --- The bundle editor ---

/// A repository of the new bundle; the first is the main one.
// --- The bundle editor ---

/// A repository of the new bundle; the first is the main one.
pub open spec fn bundle_line() -> spec_fn(int, Seq<char>) -> TextLineView {
    |i: int, source: Seq<char>|
        line(
            (if i == 0 {
                "primary  "@
            } else {
                "         "@
            }) + source,
            Tone::Plain,
        )
}

/// What the bundle editor shows.
#[derive(Debug, PartialEq, Eq)]
pub struct BundleScreen {
    pub title: String,
    pub dismissible: bool,
    /// Rows of the popup.
    pub height: u16,
    pub heading: String,
    pub rows: Vec<TextLine>,
    /// Drawn where there are no rows.
    pub hint: Option<String>,
    /// Above the field.
    pub label: String,
    pub help: String,
    pub tools: Vec<Button>,
    pub buttons: Vec<Button>,
}

/// What a [`BundleScreen`] holds.
#[verifier::ext_equal]
pub struct BundleScreenView {
    pub title: Seq<char>,
    pub dismissible: bool,
    pub height: u16,
    pub heading: Seq<char>,
    pub rows: Seq<TextLineView>,
    pub hint: Option<Seq<char>>,
    pub label: Seq<char>,
    pub help: Seq<char>,
    pub tools: Seq<ButtonView>,
    pub buttons: Seq<ButtonView>,
}

impl DeepView for BundleScreen {
    type V = BundleScreenView;

    open spec fn deep_view(&self) -> BundleScreenView {
        BundleScreenView {
            title: self.title.deep_view(),
            dismissible: self.dismissible.deep_view(),
            height: self.height.deep_view(),
            heading: self.heading.deep_view(),
            rows: self.rows.deep_view(),
            hint: self.hint.deep_view(),
            label: self.label.deep_view(),
            help: self.help.deep_view(),
            tools: self.tools.deep_view(),
            buttons: self.buttons.deep_view(),
        }
    }
}

impl View for BundleScreen {
    type V = BundleScreenView;

    open spec fn view(&self) -> BundleScreenView {
        self.deep_view()
    }
}

impl NewSessionView {
    /// Rows of the bundle editor's popup, within limits.
    pub open spec fn bundle_height(self) -> nat {
        let wanted = rows_and(rows_of(self.new_bundle_repositories.len()), 8);
        if wanted < 10 {
            10
        } else if wanted > 24 {
            24
        } else {
            wanted
        }
    }

    pub open spec fn bundle_screen(self) -> BundleScreenView {
        let ready = !self.bundle_creation_in_flight;
        let listed = self.new_bundle_repositories.len() > 0;
        BundleScreenView {
            title: "New bundle"@,
            dismissible: ready,
            height: self.bundle_height() as u16,
            heading: "Repositories (first is primary):"@,
            rows: followed(Seq::empty(), self.new_bundle_repositories, bundle_line()),
            hint: if listed {
                None
            } else {
                Some("No repositories added yet."@)
            },
            label: "GitHub source or local Git path with a network remote:"@,
            help: if ready {
                "Enter adds · Delete removes · Tab moves focus · Esc cancels"@
            } else {
                "Creating bundle…"@
            },
            tools: Seq::empty().push(
                labelled(
                    WizardControl::Add,
                    "Add repository"@,
                    ready && trimmed(self.new_bundle_source.text).len() > 0,
                ),
            ).push(
                labelled(
                    WizardControl::NewBundleRemove,
                    "Remove selected repository"@,
                    ready && listed,
                ),
            ),
            buttons: Seq::empty().push(labelled(WizardControl::Cancel, "Cancel"@, ready)).push(
                labelled(WizardControl::Back, "Back"@, ready),
            ).push(
                labelled(
                    WizardControl::Next,
                    if ready {
                        "Create bundle"@
                    } else {
                        "Creating…"@
                    },
                    ready && self.bundle_sources().len() > 0,
                ),
            ),
        }
    }
}

/// Every repository of the new bundle has a row, in its order, and the first is
/// marked as the main one. While the bundle is made the dialog stays open.
pub proof fn law_repositories_listed(part: NewSessionView, i: int)
    ensures
        ({
            let screen = part.bundle_screen();
            let listed = part.new_bundle_repositories;
            &&& screen.rows.len() == listed.len()
            &&& 0 <= i < listed.len() ==> listed[i].is_suffix_of(screen.rows[i].spans[0].text)
            &&& 0 < listed.len() ==> screen.rows[0].spans[0].text == "primary  "@ + listed[0]
            &&& screen.hint is Some <==> listed.len() == 0
            &&& screen.dismissible == !part.bundle_creation_in_flight
        }),
{
    let listed = part.new_bundle_repositories;
    law_followed_lines(Seq::empty(), listed, bundle_line(), i);
    law_followed_lines(Seq::empty(), listed, bundle_line(), 0);
    if 0 <= i < listed.len() {
        let mark = if i == 0 {
            "primary  "@
        } else {
            "         "@
        };
        assert(listed[i].is_suffix_of(mark + listed[i]));
    }
}

fn add_repositories(list: &mut Vec<TextLine>, sources: &Vec<String>)
    ensures
        final(list).deep_view() == followed(
            old(list).deep_view(),
            sources.deep_view(),
            bundle_line(),
        ),
{
    broadcast use group_views;

    let ghost start = list.deep_view();
    let ghost all = sources.deep_view();
    let ghost shown = bundle_line();
    let mut i: usize = 0;
    assert(all.take(0) =~= Seq::empty());
    while i < sources.len()
        invariant
            i <= sources.len(),
            all == sources.deep_view(),
            all == views(sources@),
            shown == bundle_line(),
            list.deep_view() == followed(start, all.take(i as int), shown),
        decreases sources.len() - i,
    {
        proof {
            assert(all[i as int] == sources@[i as int]@);
            assert(all.take(i + 1).drop_last() =~= all.take(i as int));
            assert(all.take(i + 1).last() == all[i as int]);
        }
        let rank = if i == 0 {
            "primary  "
        } else {
            "         "
        };
        add_line(list, joined(rank, sources[i].as_str()), Tone::Plain);
        i = i + 1;
    }
    assert(all.take(all.len() as int) =~= all);
}

impl NewSession {
    fn bundle_submits(&self) -> (r: bool)
        ensures
            r == (self@.bundle_sources().len() > 0),
    {
        broadcast use group_views;

        self.new_bundle_sources_for_submit().len() > 0
    }

    /// Lays the bundle editor out.
    pub fn render_new_bundle(&self) -> (screen: BundleScreen)
        ensures
            screen@ == self@.bundle_screen(),
    {
        let ready = !self.bundle_creation_in_flight;
        let typed = !is_blank(self.new_bundle_source.text.as_str());
        let submits = self.bundle_submits();
        let (height, listed) = self.bundle_rows();
        let mut rows = no_lines();
        add_repositories(&mut rows, &self.new_bundle_repositories);
        let mut tools = no_buttons();
        add_button(&mut tools, WizardControl::Add, "Add repository", ready && typed);
        add_button(
            &mut tools,
            WizardControl::NewBundleRemove,
            "Remove selected repository",
            ready && listed,
        );
        let mut buttons = no_buttons();
        add_button(&mut buttons, WizardControl::Cancel, "Cancel", ready);
        add_button(&mut buttons, WizardControl::Back, "Back", ready);
        add_button(
            &mut buttons,
            WizardControl::Next,
            if ready {
                "Create bundle"
            } else {
                "Creating…"
            },
            ready && submits,
        );
        BundleScreen {
            title: owned("New bundle"),
            dismissible: ready,
            height,
            heading: owned("Repositories (first is primary):"),
            rows,
            hint: if listed {
                None
            } else {
                Some(owned("No repositories added yet."))
            },
            label: owned("GitHub source or local Git path with a network remote:"),
            help: owned(
                if ready {
                    "Enter adds · Delete removes · Tab moves focus · Esc cancels"
                } else {
                    "Creating bundle…"
                },
            ),
            tools,
            buttons,
        }
    }

    fn bundle_rows(&self) -> (r: (u16, bool))
        ensures
            r.0 == self@.bundle_height(),
            r.1 == (self@.new_bundle_repositories.len() > 0),
    {
        broadcast use group_views;

        let count = self.new_bundle_repositories.len();
        let wanted = row_count(count).saturating_add(8);
        let height = if wanted < 10 {
            10
        } else if wanted > 24 {
            24
        } else {
            wanted
        };
        (height, count > 0)
    }
}

/// Rows of the repositories' list within the editor's content.
pub open spec fn repository_rows(content: Rect, listed: nat) -> nat {
    let room = |taken: int|
        if content.height > taken {
            (content.height - taken) as nat
        } else {
            0
        };
    if listed == 0 {
        if room(5) > 1 {
            1
        } else {
            room(5)
        }
    } else if rows_of(listed) > room(6) {
        room(6)
    } else {
        rows_of(listed)
    }
}

/// Where the parts of the bundle editor go.
#[derive(Debug, Clone, Copy, PartialEq, Eq, Structural)]
pub struct BundleLayout {
    pub heading: Rect,
    pub list: Rect,
    pub label: Rect,
    pub field: Rect,
    /// What a completion popup may cover: not the two rows of buttons.
    pub bounds: Rect,
    pub help: Rect,
    pub tools: Rect,
    pub buttons: Rect,
}

/// The coordinate `back` before the bottom of the content.
pub open spec fn from_bottom(content: Rect, back: nat) -> nat {
    let bottom = rows_and(content.y as nat, content.height as nat);
    if bottom > back {
        (bottom - back) as nat
    } else {
        0
    }
}

pub open spec fn one_row(content: Rect, y: nat) -> Rect {
    rect_new(
        content.x,
        y as u16,
        content.width,
        if content.height > 1 {
            1
        } else {
            content.height
        },
    )
}

/// Where the parts of the bundle editor go within its content.
pub open spec fn bundle_areas(content: Rect, listed: nat) -> BundleLayout {
    let list_y = rows_and(content.y as nat, 1);
    let list_rows = repository_rows(content, listed);
    let label_y = rows_and(list_y, list_rows);
    let buttons_y = from_bottom(content, 2);
    BundleLayout {
        heading: one_row(content, content.y as nat),
        list: rect_new(content.x, list_y as u16, content.width, list_rows as u16),
        label: one_row(content, label_y),
        field: one_row(content, rows_and(label_y, 1)),
        bounds: rect_new(
            content.x,
            content.y,
            content.width,
            (if buttons_y > content.y {
                buttons_y - content.y
            } else {
                0
            }) as u16,
        ),
        help: one_row(content, from_bottom(content, 3)),
        tools: one_row(content, from_bottom(content, 2)),
        buttons: one_row(content, from_bottom(content, 1)),
    }
}

fn row_at(content: Rect, y: u16) -> (r: Rect)
    ensures
        r == one_row(content, y as nat),
{
    let height = if content.height > 1 {
        1
    } else {
        content.height
    };
    Rect::new(content.x, y, content.width, height)
}

/// Where the parts of the bundle editor go within its content.
pub fn bundle_layout(content: Rect, listed: usize) -> (layout: BundleLayout)
    ensures
        layout == bundle_areas(content, listed as nat),
{
    let bottom = content.y.saturating_add(content.height);
    let list_y = content.y.saturating_add(1);
    let list_rows = if listed == 0 {
        let room = content.height.saturating_sub(5);
        if room > 1 {
            1
        } else {
            room
        }
    } else {
        let room = content.height.saturating_sub(6);
        let wanted = row_count(listed);
        if wanted > room {
            room
        } else {
            wanted
        }
    };
    let label_y = list_y.saturating_add(list_rows);
    let buttons_y = bottom.saturating_sub(2);
    BundleLayout {
        heading: row_at(content, content.y),
        list: Rect::new(content.x, list_y, content.width, list_rows),
        label: row_at(content, label_y),
        field: row_at(content, label_y.saturating_add(1)),
        bounds: Rect::new(
            content.x,
            content.y,
            content.width,
            buttons_y.saturating_sub(content.y),
        ),
        help: row_at(content, bottom.saturating_sub(3)),
        tools: row_at(content, bottom.saturating_sub(2)),
        buttons: row_at(content, bottom.saturating_sub(1)),
    }
}

/// In a content of at least eight rows nothing of the bundle editor is drawn
/// over anything else: the list, the label, the field, the help and the two
/// rows of buttons follow each other.
pub proof fn law_bundle_rows_apart(content: Rect, listed: nat)
    requires
        content.fits(),
        content.height >= 8,
    ensures
        ({
            let areas = bundle_areas(content, listed);
            &&& areas.heading.y < areas.list.y
            &&& areas.list.y + areas.list.height <= areas.label.y
            &&& areas.label.y < areas.field.y
            &&& areas.field.y < areas.help.y
            &&& areas.help.y < areas.tools.y
            &&& areas.tools.y < areas.buttons.y
            &&& areas.buttons.y < content.y + content.height
        }),
{
}

/// Where the parts of the project directory's step go.
#[derive(Debug, Clone, Copy, PartialEq, Eq, Structural)]
pub struct DirectoryLayout {
    pub intro: Rect,
    pub field: Rect,
    pub details: Rect,
    /// What a completion popup may cover: not the row of buttons.
    pub bounds: Rect,
}

/// Where the parts of the project directory's step go within its content.
pub open spec fn directory_areas(content: Rect) -> DirectoryLayout {
    let field_y = rows_and(content.y as nat, 2);
    let details_y = rows_and(field_y, 1);
    let button_y = from_bottom(content, 1);
    DirectoryLayout {
        intro: rect_new(
            content.x,
            content.y,
            content.width,
            if content.height > 2 {
                2
            } else {
                content.height
            },
        ),
        field: one_row(content, field_y),
        details: rect_new(
            content.x,
            details_y as u16,
            content.width,
            (if button_y > details_y {
                button_y - details_y
            } else {
                0
            }) as u16,
        ),
        bounds: rect_new(
            content.x,
            content.y,
            content.width,
            (if button_y > content.y {
                button_y - content.y
            } else {
                0
            }) as u16,
        ),
    }
}

/// Where the parts of the project directory's step go within its content.
pub fn directory_layout(content: Rect) -> (layout: DirectoryLayout)
    ensures
        layout == directory_areas(content),
{
    let field_y = content.y.saturating_add(2);
    let details_y = field_y.saturating_add(1);
    let button_y = content.y.saturating_add(content.height).saturating_sub(1);
    DirectoryLayout {
        intro: Rect::new(
            content.x,
            content.y,
            content.width,
            if content.height > 2 {
                2
            } else {
                content.height
            },
        ),
        field: row_at(content, field_y),
        details: Rect::new(
            content.x,
            details_y,
            content.width,
            button_y.saturating_sub(details_y),
        ),
        bounds: Rect::new(
            content.x,
            content.y,
            content.width,
            button_y.saturating_sub(content.y),
        ),
    }
}

/// The row of a remembered directory that can be clicked, where it is drawn:
/// above the row of buttons.
pub open spec fn recent_row(content: Rect, recent_start: nat, index: nat) -> Option<Rect> {
    let row = rows_and(content.y as nat, (recent_start + 2 + index + 1) % 65536);
    if row < from_bottom(content, 1) {
        Some(rect_new(content.x, row as u16, content.width, 1))
    } else {
        None
    }
}

/// The row of a remembered directory that can be clicked, where it is drawn.
pub fn recent_area(content: Rect, recent_start: usize, index: usize) -> (area: Option<Rect>)
    requires
        recent_start + index + 3 <= usize::MAX,
    ensures
        area == recent_row(content, recent_start as nat, index as nat),
{
    let row = content.y.saturating_add(((recent_start + index + 3) % 65536) as u16);
    let button_y = content.y.saturating_add(content.height).saturating_sub(1);
    if row < button_y {
        Some(Rect::new(content.x, row, content.width, 1))
    } else {
        None
    }
}

/// The row that a click selects is the row that the directory is drawn in.
pub proof fn law_recent_row_drawn(content: Rect, recent_start: nat, index: nat)
    requires
        content.fits(),
        recent_start + index + 3 <= 65535,
    ensures
        recent_row(content, recent_start, index) matches Some(area) ==> area.y == directory_areas(
            content,
        ).details.y + recent_start + index,
{
}

} // verus!
