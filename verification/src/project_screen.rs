//! What the project picker shows.

use vstd::prelude::*;

use crate::drafts::{NewSession, ProjectEntry, ProjectEntryKind, ProjectTab, WizardControl};
#[allow(unused_imports)]
use crate::drafts::{NewSessionView, ProjectEntryView};
use crate::dashboard::has_text;
#[allow(unused_imports)]
use crate::decimal::decimal;
use crate::duplicate::{joined, owned, Duplicate};
#[allow(unused_imports)]
use crate::duplicate::{group_views, views};
use crate::geometry::Rect;
#[allow(unused_imports)]
use crate::geometry::rect_new;
use crate::screen::{
    add_button, add_line, add_spans, no_buttons, no_lines, Button, TextLine, Tone,
};
#[allow(unused_imports)]
use crate::screen::{
    followed, labelled, law_followed_lines, line, rows_and, span, ButtonView, TextLineView,
};
use crate::text::is_blank;
#[allow(unused_imports)]
use crate::text::trimmed;
use crate::widgets::counted;
#[allow(unused_imports)]
use crate::widgets::counted_text;

verus! {

/// How much of an area's width the project picker takes, in hundredths.
pub const PROJECT_PICKER_PERCENT: u16 = 88;

/// How many rows the project picker takes.
pub const PROJECT_PICKER_HEIGHT: u16 = 25;

// --- Texts ---

pub open spec fn tab_name(tab: ProjectTab) -> Seq<char> {
    match tab {
        ProjectTab::Recent => "Recent"@,
        ProjectTab::Github => "GitHub"@,
        ProjectTab::Folders => "Folders"@,
        ProjectTab::Url => "Paste URL"@,
    }
}

/// The name of a tab, marked where it is the current one.
pub open spec fn tab_label(tab: ProjectTab, current: ProjectTab, ascii: bool) -> Seq<char> {
    if tab == current {
        (if ascii {
            "*"@
        } else {
            "●"@
        }) + tab_name(tab)
    } else {
        tab_name(tab)
    }
}

fn label_of_tab(tab: ProjectTab, current: ProjectTab, ascii: bool) -> (label: String)
    ensures
        label@ == tab_label(tab, current, ascii),
{
    let name = match tab {
        ProjectTab::Recent => "Recent",
        ProjectTab::Github => "GitHub",
        ProjectTab::Folders => "Folders",
        ProjectTab::Url => "Paste URL",
    };
    if tab == current {
        joined(
            if ascii {
                "*"
            } else {
                "●"
            },
            name,
        )
    } else {
        owned(name)
    }
}

pub open spec fn tab_description(tab: ProjectTab) -> Seq<char> {
    match tab {
        ProjectTab::Recent => "Pick up a recent project, or find another on GitHub or in Folders."@,
        ProjectTab::Github => "Your GitHub repositories. Search by name or owner/repository."@,
        ProjectTab::Folders => {
            "Browse folders on this computer. Enter opens a folder or chooses a project."@
        },
        ProjectTab::Url => "Paste a GitHub URL, owner/repository, or local repository path."@,
    }
}

fn describe_tab(tab: ProjectTab) -> (text: &'static str)
    ensures
        text@ == tab_description(tab),
{
    match tab {
        ProjectTab::Recent => "Pick up a recent project, or find another on GitHub or in Folders.",
        ProjectTab::Github => "Your GitHub repositories. Search by name or owner/repository.",
        ProjectTab::Folders => {
            "Browse folders on this computer. Enter opens a folder or chooses a project."
        },
        ProjectTab::Url => "Paste a GitHub URL, owner/repository, or local repository path.",
    }
}

/// What stands where nothing was found.
pub open spec fn nothing_found(tab: ProjectTab) -> Seq<char> {
    match tab {
        ProjectTab::Recent => {
            "No recent projects yet. Choose GitHub or Folders above to get started."@
        },
        ProjectTab::Github => {
            "No matching repositories. Try another search or paste a repository URL."@
        },
        _ => "No project folders here. Go up one folder or return Home."@,
    }
}

fn empty_text(tab: ProjectTab) -> (text: &'static str)
    ensures
        text@ == nothing_found(tab),
{
    match tab {
        ProjectTab::Recent => {
            "No recent projects yet. Choose GitHub or Folders above to get started."
        },
        ProjectTab::Github => {
            "No matching repositories. Try another search or paste a repository URL."
        },
        _ => "No project folders here. Go up one folder or return Home.",
    }
}

/// What is in the place of the results.
#[derive(Debug, PartialEq, Eq)]
pub enum ProjectList {
    /// The tab has no results.
    Hidden,
    /// A message, cut into lines where it is long.
    Message(String),
    /// What went wrong, beside a button that tries again.
    Failure(String),
    /// The results.
    Rows(Vec<TextLine>),
}

/// What a [`ProjectList`] holds.
#[verifier::ext_equal]
pub enum ProjectListView {
    Hidden,
    Message(Seq<char>),
    Failure(Seq<char>),
    Rows(Seq<TextLineView>),
}

impl DeepView for ProjectList {
    type V = ProjectListView;

    open spec fn deep_view(&self) -> ProjectListView {
        match self {
            ProjectList::Hidden => ProjectListView::Hidden,
            ProjectList::Message(inner) => ProjectListView::Message(inner.deep_view()),
            ProjectList::Failure(inner) => ProjectListView::Failure(inner.deep_view()),
            ProjectList::Rows(inner) => ProjectListView::Rows(inner.deep_view()),
        }
    }
}

impl View for ProjectList {
    type V = ProjectListView;

    open spec fn view(&self) -> ProjectListView {
        self.deep_view()
    }
}

impl Duplicate for ProjectList {
    fn duplicate(&self) -> (copy: ProjectList) {
        match self {
            ProjectList::Hidden => ProjectList::Hidden,
            ProjectList::Message(inner) => ProjectList::Message(inner.duplicate()),
            ProjectList::Failure(inner) => ProjectList::Failure(inner.duplicate()),
            ProjectList::Rows(inner) => ProjectList::Rows(inner.duplicate()),
        }
    }
}

/// What the project picker shows.
#[derive(Debug, PartialEq, Eq)]
pub struct ProjectScreen {
    pub title: String,
    pub dismissible: bool,
    pub tabs: Vec<Button>,
    pub description: String,
    /// The folder that is looked into, where folders are.
    pub folder: Option<String>,
    /// The label of the folders' filter, where folders are looked into.
    pub filter_label: Option<String>,
    /// The buttons of the tab.
    pub tools: Vec<Button>,
    pub list: ProjectList,
    pub retry_enabled: bool,
    pub status: String,
    /// The checkbox for several repositories is checked.
    pub several: bool,
    pub several_label: String,
    pub several_enabled: bool,
    /// The repositories that are used together.
    pub basket: Vec<TextLine>,
    pub basket_tools: Vec<Button>,
    pub buttons: Vec<Button>,
}

/// What a [`ProjectScreen`] holds.
#[verifier::ext_equal]
pub struct ProjectScreenView {
    pub title: Seq<char>,
    pub dismissible: bool,
    pub tabs: Seq<ButtonView>,
    pub description: Seq<char>,
    pub folder: Option<Seq<char>>,
    pub filter_label: Option<Seq<char>>,
    pub tools: Seq<ButtonView>,
    pub list: ProjectListView,
    pub retry_enabled: bool,
    pub status: Seq<char>,
    pub several: bool,
    pub several_label: Seq<char>,
    pub several_enabled: bool,
    pub basket: Seq<TextLineView>,
    pub basket_tools: Seq<ButtonView>,
    pub buttons: Seq<ButtonView>,
}

impl DeepView for ProjectScreen {
    type V = ProjectScreenView;

    open spec fn deep_view(&self) -> ProjectScreenView {
        ProjectScreenView {
            title: self.title.deep_view(),
            dismissible: self.dismissible.deep_view(),
            tabs: self.tabs.deep_view(),
            description: self.description.deep_view(),
            folder: self.folder.deep_view(),
            filter_label: self.filter_label.deep_view(),
            tools: self.tools.deep_view(),
            list: self.list.deep_view(),
            retry_enabled: self.retry_enabled.deep_view(),
            status: self.status.deep_view(),
            several: self.several.deep_view(),
            several_label: self.several_label.deep_view(),
            several_enabled: self.several_enabled.deep_view(),
            basket: self.basket.deep_view(),
            basket_tools: self.basket_tools.deep_view(),
            buttons: self.buttons.deep_view(),
        }
    }
}

impl View for ProjectScreen {
    type V = ProjectScreenView;

    open spec fn view(&self) -> ProjectScreenView {
        self.deep_view()
    }
}

// --- The screen ---

/// The marker of a result: a folder, or a repository that is in use.
pub open spec fn entry_marker(entry: ProjectEntryView, used: Seq<Seq<char>>, ascii: bool) -> Seq<
    char,
> {
    if entry.kind == ProjectEntryKind::Directory {
        if ascii {
            ">"@
        } else {
            "▸"@
        }
    } else if used.contains(entry.source) {
        if ascii {
            "+"@
        } else {
            "✓"@
        }
    } else {
        " "@
    }
}

pub open spec fn entry_line(used: Seq<Seq<char>>, ascii: bool) -> spec_fn(
    int,
    ProjectEntryView,
) -> TextLineView {
    |i: int, entry: ProjectEntryView|
        TextLineView {
            spans: Seq::empty().push(
                span(entry_marker(entry, used, ascii) + " "@ + entry.name + "  "@, Tone::Plain),
            ).push(span(entry.description, Tone::Muted)),
        }
}

/// A repository of several; the first is the main one.
pub open spec fn basket_line() -> spec_fn(int, Seq<char>) -> TextLineView {
    |i: int, source: Seq<char>|
        line(
            (if i == 0 {
                "Main"@
            } else {
                "Also"@
            }) + "  "@ + source,
            Tone::Plain,
        )
}

impl NewSessionView {
    pub open spec fn project_tabs(self, ascii: bool) -> Seq<ButtonView> {
        let ready = !self.bundle_creation_in_flight;
        let current = self.project_picker.tab;
        Seq::empty().push(
            labelled(
                WizardControl::ProjectRecent,
                tab_label(ProjectTab::Recent, current, ascii),
                ready,
            ),
        ).push(
            labelled(
                WizardControl::ProjectGithub,
                tab_label(ProjectTab::Github, current, ascii),
                ready,
            ),
        ).push(
            labelled(
                WizardControl::ProjectFolders,
                tab_label(ProjectTab::Folders, current, ascii),
                ready,
            ),
        ).push(
            labelled(WizardControl::ProjectUrl, tab_label(ProjectTab::Url, current, ascii), ready),
        )
    }

    pub open spec fn project_tools(self) -> Seq<ButtonView> {
        let ready = !self.bundle_creation_in_flight;
        let picker = self.project_picker;
        match picker.tab {
            ProjectTab::Github => Seq::empty().push(
                labelled(WizardControl::ProjectSearch, "Search"@, ready),
            ),
            ProjectTab::Folders => Seq::empty().push(
                labelled(
                    WizardControl::ProjectOpenFolder,
                    "Open folder"@,
                    ready && self.has_results(),
                ),
            ).push(
                labelled(
                    WizardControl::ProjectUp,
                    "Up one folder"@,
                    ready && !picker.loading && picker.parent is Some,
                ),
            ).push(labelled(WizardControl::ProjectHome, "Home"@, ready)),
            _ => Seq::empty(),
        }
    }

    /// What is in the place of the results.
    pub open spec fn project_list(self, ascii: bool) -> ProjectListView {
        let picker = self.project_picker;
        if picker.loading {
            ProjectListView::Message("Loading projects…"@)
        } else {
            match (picker.creation_error, picker.error) {
                (Some(error), _) => ProjectListView::Failure(error),
                (None, Some(error)) => ProjectListView::Failure(error),
                (None, None) => if picker.tab == ProjectTab::Url {
                    ProjectListView::Hidden
                } else if picker.entries.len() == 0 {
                    ProjectListView::Message(nothing_found(picker.tab))
                } else {
                    ProjectListView::Rows(
                        followed(
                            Seq::empty(),
                            picker.entries,
                            entry_line(self.new_bundle_repositories, ascii),
                        ),
                    )
                },
            }
        }
    }

    pub open spec fn project_status(self) -> Seq<char> {
        if self.bundle_creation_in_flight {
            "Preparing project…"@
        } else if self.project_picker.truncated {
            "Showing the first matches. Search or browse further to narrow the list."@
        } else {
            "Enter chooses · ↑/↓ select · Tab moves focus · Esc goes back"@
        }
    }

    pub open spec fn basket_tools(self) -> Seq<ButtonView> {
        let ready = !self.bundle_creation_in_flight;
        let listed = self.new_bundle_repositories.len();
        if self.project_picker.multiple {
            Seq::empty().push(
                labelled(
                    WizardControl::Add,
                    "Add repository"@,
                    ready && self.project_picker.tab == ProjectTab::Url && trimmed(
                        self.new_bundle_source.text,
                    ).len() > 0,
                ),
            ).push(
                labelled(WizardControl::ProjectMakePrimary, "Make main"@, ready && listed > 1),
            ).push(labelled(WizardControl::NewBundleRemove, "Remove"@, ready && listed > 0))
        } else {
            Seq::empty()
        }
    }

    /// What the button says that uses what was chosen.
    pub open spec fn use_label(self) -> Seq<char> {
        let listed = self.new_bundle_repositories.len();
        if self.bundle_creation_in_flight {
            "Preparing…"@
        } else if self.project_picker.multiple && listed > 0 {
            "Use "@ + counted_text(listed as int, "repository"@, "repositories"@)
        } else {
            "Use project"@
        }
    }

    pub open spec fn project_buttons(self) -> Seq<ButtonView> {
        let ready = !self.bundle_creation_in_flight;
        Seq::empty().push(labelled(WizardControl::Back, "Back"@, ready)).push(
            labelled(WizardControl::Cancel, "Cancel"@, ready),
        ).push(labelled(WizardControl::Next, self.use_label(), ready && self.has_project()))
    }

    pub open spec fn project_screen(self, ascii: bool) -> ProjectScreenView {
        let picker = self.project_picker;
        ProjectScreenView {
            title: "Choose a project"@,
            dismissible: !self.bundle_creation_in_flight,
            tabs: self.project_tabs(ascii),
            description: tab_description(picker.tab),
            folder: if picker.tab == ProjectTab::Folders {
                Some(
                    match picker.directory {
                        Some(directory) => directory,
                        None => "Home"@,
                    },
                )
            } else {
                None
            },
            filter_label: if picker.tab == ProjectTab::Folders {
                Some("Filter (Enter):"@)
            } else {
                None
            },
            tools: self.project_tools(),
            list: self.project_list(ascii),
            retry_enabled: !self.bundle_creation_in_flight,
            status: self.project_status(),
            several: picker.multiple,
            several_label: "Use several repositories together"@,
            several_enabled: !self.bundle_creation_in_flight,
            basket: if picker.multiple {
                followed(Seq::empty(), self.new_bundle_repositories, basket_line())
            } else {
                Seq::empty()
            },
            basket_tools: self.basket_tools(),
            buttons: self.project_buttons(),
        }
    }
}

fn add_entries(list: &mut Vec<TextLine>, entries: &Vec<ProjectEntry>, used: &Vec<String>, ascii: bool)
    ensures
        final(list).deep_view() == followed(
            old(list).deep_view(),
            entries.deep_view(),
            entry_line(used.deep_view(), ascii),
        ),
{
    broadcast use group_views;

    let ghost start = list.deep_view();
    let ghost all = entries.deep_view();
    let ghost shown = entry_line(used.deep_view(), ascii);
    let mut i: usize = 0;
    assert(all.take(0) =~= Seq::empty());
    while i < entries.len()
        invariant
            i <= entries.len(),
            all == entries.deep_view(),
            all == views(entries@),
            shown == entry_line(used.deep_view(), ascii),
            list.deep_view() == followed(start, all.take(i as int), shown),
        decreases entries.len() - i,
    {
        proof {
            assert(all[i as int] == entries@[i as int]@);
            assert(all.take(i + 1).drop_last() =~= all.take(i as int));
            assert(all.take(i + 1).last() == all[i as int]);
        }
        let entry = &entries[i];
        let marker = if entry.kind == ProjectEntryKind::Directory {
            if ascii {
                ">"
            } else {
                "▸"
            }
        } else if has_text(used, entry.source.as_str()) {
            if ascii {
                "+"
            } else {
                "✓"
            }
        } else {
            " "
        };
        let mut text = joined(marker, " ");
        text.append(entry.name.as_str());
        text.append("  ");
        let mut row = TextLine::new();
        row.add_span(text, Tone::Plain);
        row.add_span(entry.description.duplicate(), Tone::Muted);
        add_spans(list, row);
        i = i + 1;
    }
    assert(all.take(all.len() as int) =~= all);
}

fn add_basket(list: &mut Vec<TextLine>, sources: &Vec<String>)
    ensures
        final(list).deep_view() == followed(
            old(list).deep_view(),
            sources.deep_view(),
            basket_line(),
        ),
{
    broadcast use group_views;

    let ghost start = list.deep_view();
    let ghost all = sources.deep_view();
    let ghost shown = basket_line();
    let mut i: usize = 0;
    assert(all.take(0) =~= Seq::empty());
    while i < sources.len()
        invariant
            i <= sources.len(),
            all == sources.deep_view(),
            all == views(sources@),
            shown == basket_line(),
            list.deep_view() == followed(start, all.take(i as int), shown),
        decreases sources.len() - i,
    {
        proof {
            assert(all[i as int] == sources@[i as int]@);
            assert(all.take(i + 1).drop_last() =~= all.take(i as int));
            assert(all.take(i + 1).last() == all[i as int]);
        }
        let mut text = owned(
            if i == 0 {
                "Main"
            } else {
                "Also"
            },
        );
        text.append("  ");
        text.append(sources[i].as_str());
        add_line(list, text, Tone::Plain);
        i = i + 1;
    }
    assert(all.take(all.len() as int) =~= all);
}

impl NewSession {
    fn tab_buttons(&self, ascii: bool) -> (list: Vec<Button>)
        ensures
            list.deep_view() == self@.project_tabs(ascii),
    {
        let ready = !self.bundle_creation_in_flight;
        let current = self.project_picker.tab;
        let mut list = no_buttons();
        add_button(
            &mut list,
            WizardControl::ProjectRecent,
            label_of_tab(ProjectTab::Recent, current, ascii).as_str(),
            ready,
        );
        add_button(
            &mut list,
            WizardControl::ProjectGithub,
            label_of_tab(ProjectTab::Github, current, ascii).as_str(),
            ready,
        );
        add_button(
            &mut list,
            WizardControl::ProjectFolders,
            label_of_tab(ProjectTab::Folders, current, ascii).as_str(),
            ready,
        );
        add_button(
            &mut list,
            WizardControl::ProjectUrl,
            label_of_tab(ProjectTab::Url, current, ascii).as_str(),
            ready,
        );
        list
    }

    fn tool_buttons(&self) -> (list: Vec<Button>)
        ensures
            list.deep_view() == self@.project_tools(),
    {
        let ready = !self.bundle_creation_in_flight;
        let results = self.results_ready();
        let up = ready && !self.project_picker.loading && self.project_picker.parent.is_some();
        let mut list = no_buttons();
        match self.project_picker.tab {
            ProjectTab::Github => {
                add_button(&mut list, WizardControl::ProjectSearch, "Search", ready);
            },
            ProjectTab::Folders => {
                add_button(
                    &mut list,
                    WizardControl::ProjectOpenFolder,
                    "Open folder",
                    ready && results,
                );
                add_button(&mut list, WizardControl::ProjectUp, "Up one folder", up);
                add_button(&mut list, WizardControl::ProjectHome, "Home", ready);
            },
            _ => {},
        }
        list
    }

    fn result_list(&self, ascii: bool) -> (list: ProjectList)
        ensures
            list@ == self@.project_list(ascii),
    {
        broadcast use group_views;

        let picker = &self.project_picker;
        if picker.loading {
            return ProjectList::Message(owned("Loading projects…"));
        }
        if let Some(error) = &picker.creation_error {
            return ProjectList::Failure(error.duplicate());
        }
        if let Some(error) = &picker.error {
            return ProjectList::Failure(error.duplicate());
        }
        if picker.tab == ProjectTab::Url {
            return ProjectList::Hidden;
        }
        if picker.entries.len() == 0 {
            return ProjectList::Message(owned(empty_text(picker.tab)));
        }
        let mut rows = no_lines();
        add_entries(&mut rows, &picker.entries, &self.new_bundle_repositories, ascii);
        ProjectList::Rows(rows)
    }

    fn basket_buttons(&self) -> (list: Vec<Button>)
        ensures
            list.deep_view() == self@.basket_tools(),
    {
        let ready = !self.bundle_creation_in_flight;
        let listed = self.listed_repositories();
        let typed = !is_blank(self.new_bundle_source.text.as_str());
        let url = self.project_picker.tab == ProjectTab::Url;
        let mut list = no_buttons();
        if self.project_picker.multiple {
            add_button(&mut list, WizardControl::Add, "Add repository", ready && url && typed);
            add_button(
                &mut list,
                WizardControl::ProjectMakePrimary,
                "Make main",
                ready && listed > 1,
            );
            add_button(&mut list, WizardControl::NewBundleRemove, "Remove", ready && listed > 0);
        }
        list
    }

    fn listed_repositories(&self) -> (count: usize)
        ensures
            count == self@.new_bundle_repositories.len(),
    {
        broadcast use group_views;

        self.new_bundle_repositories.len()
    }

    fn use_text(&self) -> (label: String)
        ensures
            label@ == self@.use_label(),
    {
        let listed = self.listed_repositories();
        if self.bundle_creation_in_flight {
            owned("Preparing…")
        } else if self.project_picker.multiple && listed > 0 {
            joined("Use ", counted(listed, "repository", "repositories").as_str())
        } else {
            owned("Use project")
        }
    }

    /// Lays the project picker out.
    pub fn render_project_picker(&self, ascii: bool) -> (screen: ProjectScreen)
        ensures
            screen@ == self@.project_screen(ascii),
    {
        let ready = !self.bundle_creation_in_flight;
        let picker = &self.project_picker;
        let mut basket = no_lines();
        if picker.multiple {
            add_basket(&mut basket, &self.new_bundle_repositories);
        }
        let usable = self.can_use_project();
        let mut buttons = no_buttons();
        add_button(&mut buttons, WizardControl::Back, "Back", ready);
        add_button(&mut buttons, WizardControl::Cancel, "Cancel", ready);
        add_button(&mut buttons, WizardControl::Next, self.use_text().as_str(), ready && usable);
        let folder = if picker.tab == ProjectTab::Folders {
            Some(
                match &picker.directory {
                    Some(directory) => directory.duplicate(),
                    None => owned("Home"),
                },
            )
        } else {
            None
        };
        let filter_label = if picker.tab == ProjectTab::Folders {
            Some(owned("Filter (Enter):"))
        } else {
            None
        };
        ProjectScreen {
            title: owned("Choose a project"),
            dismissible: ready,
            tabs: self.tab_buttons(ascii),
            description: owned(describe_tab(picker.tab)),
            folder,
            filter_label,
            tools: self.tool_buttons(),
            list: self.result_list(ascii),
            retry_enabled: ready,
            status: owned(
                if !ready {
                    "Preparing project…"
                } else if picker.truncated {
                    "Showing the first matches. Search or browse further to narrow the list."
                } else {
                    "Enter chooses · ↑/↓ select · Tab moves focus · Esc goes back"
                },
            ),
            several: picker.multiple,
            several_label: owned("Use several repositories together"),
            several_enabled: ready,
            basket,
            basket_tools: self.basket_buttons(),
            buttons,
        }
    }
}

/// Every project that was found has a row, in the order it was found in, with
/// its name and what is said of it; a folder and a repository that is in use
/// are marked.
pub proof fn law_results_listed(part: NewSessionView, ascii: bool, i: int)
    requires
        0 <= i < part.project_picker.entries.len(),
        !part.project_picker.loading,
        part.project_picker.error is None && part.project_picker.creation_error is None,
        part.project_picker.tab != ProjectTab::Url,
    ensures
        part.project_list(ascii) matches ProjectListView::Rows(rows) && {
            let entry = part.project_picker.entries[i];
            let mark = if entry.kind == ProjectEntryKind::Directory {
                if ascii {
                    ">"@
                } else {
                    "▸"@
                }
            } else if part.new_bundle_repositories.contains(entry.source) {
                if ascii {
                    "+"@
                } else {
                    "✓"@
                }
            } else {
                " "@
            };
            &&& rows.len() == part.project_picker.entries.len()
            &&& rows[i].spans.len() == 2
            &&& rows[i].spans[0].text == mark + " "@ + entry.name + "  "@
            &&& rows[i].spans[1].text == entry.description
        },
{
    let used = part.new_bundle_repositories;
    law_followed_lines(Seq::empty(), part.project_picker.entries, entry_line(used, ascii), i);
}

/// The repositories that were picked are listed in their order, the first as
/// the main one, where several can be picked.
pub proof fn law_basket_listed(part: NewSessionView, ascii: bool, i: int)
    requires
        0 <= i < part.new_bundle_repositories.len(),
        part.project_picker.multiple,
    ensures
        ({
            let rows = part.project_screen(ascii).basket;
            let source = part.new_bundle_repositories[i];
            &&& rows.len() == part.new_bundle_repositories.len()
            &&& i == 0 ==> rows[i].spans[0].text == "Main"@ + "  "@ + source
            &&& i > 0 ==> rows[i].spans[0].text == "Also"@ + "  "@ + source
        }),
{
    law_followed_lines(Seq::empty(), part.new_bundle_repositories, basket_line(), i);
}

/// While a lookup is under way there is a message, and after it failed its
/// error; a failed creation is told before a failed lookup. An address has no
/// results.
pub proof fn law_list_tells_state(part: NewSessionView, ascii: bool)
    ensures
        ({
            let picker = part.project_picker;
            let shown = part.project_list(ascii);
            &&& picker.loading ==> shown is Message
            &&& !picker.loading && picker.creation_error is Some ==> shown
                == ProjectListView::Failure(picker.creation_error->0)
            &&& !picker.loading && picker.creation_error is None && picker.error is Some ==> shown
                == ProjectListView::Failure(picker.error->0)
            &&& !picker.loading && picker.creation_error is None && picker.error is None ==> {
                &&& picker.tab == ProjectTab::Url ==> shown is Hidden
                &&& picker.tab != ProjectTab::Url && picker.entries.len() == 0 ==> shown is Message
                &&& picker.tab != ProjectTab::Url && picker.entries.len() > 0 ==> shown is Rows
            }
        }),
{
}

/// The current tab is marked, and no other.
pub proof fn law_current_tab_marked(tab: ProjectTab, current: ProjectTab, ascii: bool)
    ensures
        tab != current ==> tab_label(tab, current, ascii) == tab_name(tab),
        tab == current ==> tab_label(tab, current, ascii).len() == tab_name(tab).len() + 1,
        tab == current ==> tab_name(tab).is_suffix_of(tab_label(tab, current, ascii)),
{
    reveal_strlit("*");
    reveal_strlit("●");
    if tab == current {
        let label = tab_label(tab, current, ascii);
        assert(tab_name(tab).is_suffix_of(label));
    }
}

/// The button that asks for the bundle says how many repositories it is for,
/// where several can be picked.
pub proof fn law_use_button_counts(part: NewSessionView)
    requires
        !part.bundle_creation_in_flight,
    ensures
        part.project_picker.multiple && part.new_bundle_repositories.len() == 1 ==> part.use_label()
            == "Use 1 repository"@,
        part.project_picker.multiple && part.new_bundle_repositories.len() > 1 ==> part.use_label()
            == "Use "@ + decimal(part.new_bundle_repositories.len()) + " repositories"@,
        !part.project_picker.multiple || part.new_bundle_repositories.len() == 0
            ==> part.use_label() == "Use project"@,
{
    reveal_strlit("Use ");
    reveal_strlit("repository");
    reveal_strlit("repositories");
    reveal_strlit(" repositories");
    reveal_strlit("Use 1 repository");
    let listed = part.new_bundle_repositories.len();
    if part.project_picker.multiple && listed == 1 {
        assert(decimal(1) =~= seq!['1']);
        assert(part.use_label() =~= "Use 1 repository"@);
    } else if part.project_picker.multiple && listed > 1 {
        assert(part.use_label() =~= "Use "@ + decimal(listed) + " repositories"@);
    }
}

/// The screen offers a button just where the form has a control for it, with
/// the same say on whether it can be used: the last button is the one that
/// Enter presses.
pub proof fn law_use_button_agrees(part: NewSessionView, ascii: bool)
    ensures
        part.project_screen(ascii).buttons.last().enabled
            == part.project_controls().last().enabled,
        part.project_screen(ascii).buttons.last().control
            == part.project_controls().last().control,
{
}

// --- Where it goes ---

/// Where the parts of the project picker go.
#[derive(Debug, Clone, Copy, PartialEq, Eq, Structural)]
pub struct ProjectLayout {
    pub tabs: Rect,
    pub description: Rect,
    /// The first row below the description, with the query, the folder or the
    /// source.
    pub query: Rect,
    /// The row of the tab's buttons.
    pub tools: Rect,
    /// The row of the filter, where folders are looked into.
    pub filter: Rect,
    pub list: Rect,
    pub retry: Rect,
    pub status: Rect,
    pub several: Rect,
    pub basket: Rect,
    pub basket_tools: Rect,
    pub buttons: Rect,
}

/// A row of the dialog, of no height where it would be below it.
pub open spec fn dialog_row(inner: Rect, y: nat) -> Rect {
    rect_new(
        inner.x,
        y as u16,
        inner.width,
        if y < rows_and(inner.y as nat, inner.height as nat) {
            1
        } else {
            0
        },
    )
}

/// The rows above the results.
pub open spec fn rows_above(tab: ProjectTab) -> nat {
    match tab {
        ProjectTab::Recent => 3,
        ProjectTab::Github => 6,
        ProjectTab::Folders => 6,
        ProjectTab::Url => 5,
    }
}

pub open spec fn less(a: nat, b: nat) -> nat {
    if a > b {
        (a - b) as nat
    } else {
        0
    }
}

/// The rows of the basket: up to three, as far as there is room.
pub open spec fn basket_rows(inner: Rect, tab: ProjectTab, several: bool, listed: nat) -> nat {
    let bottom = rows_and(inner.y as nat, inner.height as nat);
    let room = less(bottom, inner.y as nat + rows_above(tab) + 6);
    let wanted = if listed > 3 {
        3
    } else {
        listed
    };
    if !several {
        0
    } else if wanted > room {
        room
    } else {
        wanted
    }
}

/// Where the parts of the project picker go within the dialog.
pub open spec fn project_areas(inner: Rect, tab: ProjectTab, several: bool, listed: nat) -> ProjectLayout {
    let bottom = rows_and(inner.y as nat, inner.height as nat);
    let list_y = inner.y as nat + rows_above(tab);
    let basket = basket_rows(inner, tab, several, listed);
    let footer_y = less(bottom, 4 + basket);
    ProjectLayout {
        tabs: dialog_row(inner, inner.y as nat),
        description: dialog_row(inner, inner.y as nat + 1),
        query: dialog_row(inner, inner.y as nat + 3),
        tools: dialog_row(inner, inner.y as nat + 4),
        filter: dialog_row(inner, inner.y as nat + 5),
        list: rect_new(inner.x, list_y as u16, inner.width, less(footer_y, list_y + 1) as u16),
        retry: dialog_row(inner, less(footer_y, 1)),
        status: dialog_row(inner, footer_y),
        several: dialog_row(inner, footer_y + 1),
        basket: rect_new(inner.x, (footer_y + 2) as u16, inner.width, basket as u16),
        basket_tools: dialog_row(inner, less(bottom, 2)),
        buttons: dialog_row(inner, less(bottom, 1)),
    }
}

fn row_of_dialog(inner: Rect, y: u16) -> (row: Rect)
    ensures
        row == dialog_row(inner, y as nat),
{
    let bottom = inner.y.saturating_add(inner.height);
    Rect::new(
        inner.x,
        y,
        inner.width,
        if y < bottom {
            1
        } else {
            0
        },
    )
}

/// Where the parts of the project picker go within the dialog.
#[verifier::spinoff_prover]
pub fn project_layout(inner: Rect, tab: ProjectTab, several: bool, listed: usize) -> (layout:
    ProjectLayout)
    requires
        inner.y + 12 <= 65535,
    ensures
        layout == project_areas(inner, tab, several, listed as nat),
{
    let bottom = inner.y.saturating_add(inner.height);
    let above: u16 = match tab {
        ProjectTab::Recent => 3,
        ProjectTab::Github => 6,
        ProjectTab::Folders => 6,
        ProjectTab::Url => 5,
    };
    let list_y = inner.y + above;
    let basket: u16 = if several {
        let room = bottom.saturating_sub(list_y + 6);
        let wanted: u16 = if listed > 3 {
            3
        } else {
            listed as u16
        };
        if wanted > room {
            room
        } else {
            wanted
        }
    } else {
        0
    };
    let footer_y = bottom.saturating_sub(4 + basket);
    assert(bottom == rows_and(inner.y as nat, inner.height as nat));
    assert(basket == basket_rows(inner, tab, several, listed as nat));
    assert(footer_y == less(bottom as nat, 4 + basket as nat));
    let list_rows = footer_y.saturating_sub(list_y + 1);
    assert(list_rows == less(footer_y as nat, list_y as nat + 1));
    let retry_y = footer_y.saturating_sub(1);
    assert(retry_y == less(footer_y as nat, 1));
    let tools_y = bottom.saturating_sub(2);
    assert(tools_y == less(bottom as nat, 2));
    let buttons_y = bottom.saturating_sub(1);
    assert(buttons_y == less(bottom as nat, 1));
    ProjectLayout {
        tabs: row_of_dialog(inner, inner.y),
        description: row_of_dialog(inner, inner.y + 1),
        query: row_of_dialog(inner, inner.y + 3),
        tools: row_of_dialog(inner, inner.y + 4),
        filter: row_of_dialog(inner, inner.y + 5),
        list: Rect::new(inner.x, list_y, inner.width, list_rows),
        retry: row_of_dialog(inner, retry_y),
        status: row_of_dialog(inner, footer_y),
        several: row_of_dialog(inner, footer_y + 1),
        basket: Rect::new(inner.x, footer_y + 2, inner.width, basket),
        basket_tools: row_of_dialog(inner, tools_y),
        buttons: row_of_dialog(inner, buttons_y),
    }
}

/// In a dialog of at least twelve rows nothing of the picker is drawn over
/// anything else: the results end above the status, and the status, the
/// checkbox, the basket and the buttons follow each other.
pub proof fn law_project_rows_apart(inner: Rect, tab: ProjectTab, several: bool, listed: nat)
    requires
        inner.fits(),
        inner.height >= 12,
        inner.y + 12 <= 65535,
    ensures
        ({
            let areas = project_areas(inner, tab, several, listed);
            &&& areas.tabs.y < areas.description.y < areas.query.y
            &&& areas.list.y + areas.list.height < areas.status.y
            &&& areas.status.y < areas.several.y
            &&& areas.several.y < areas.basket.y
            &&& areas.basket.y + areas.basket.height <= areas.basket_tools.y
            &&& areas.basket_tools.y < areas.buttons.y
            &&& areas.buttons.y < inner.y + inner.height
        }),
{
}

} // verus!
