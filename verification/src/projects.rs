//! Project discovery state and controls. All filesystem and network work is
//! requested as dashboard actions; this module only edits the draft.

use vstd::prelude::*;

use crate::controls::{
    declare, declare_button, declare_button_where, declare_where, ControlKind, Declaration,
};
#[allow(unused_imports)]
use crate::controls::{button, declared, with_control};
use crate::dashboard::following_number;
#[allow(unused_imports)]
use crate::dashboard::{following, remembered};
use crate::dashboard::remembered_paths;
use crate::dashboard_state::{DashboardAction, DashboardState, Mode};
#[allow(unused_imports)]
use crate::dashboard_state::{DashboardActionView, DashboardStateView, ModeView};
use crate::decimal::decimal_text;
#[allow(unused_imports)]
use crate::decimal::{decimal, law_decimal_reads_back};
use crate::drafts::{
    Draft, NewSession, ProjectDiscovery, ProjectDiscoveryRequest, ProjectEntry, ProjectEntryKind,
    ProjectPicker, ProjectTab, Purpose, WizardControl, WizardStep,
};
#[allow(unused_imports)]
use crate::drafts::{
    DraftView, NewSessionView, PathInputView, ProjectDiscoveryRequestView, ProjectDiscoveryView,
    ProjectEntryView, ProjectPickerView,
};
#[allow(unused_imports)]
use crate::duplicate::group_views;
use crate::duplicate::{joined, owned, same_text, Duplicate};
use crate::lists::position_of;
#[allow(unused_imports)]
use crate::lists::{key_position, law_lookup_finds_first};
#[allow(unused_imports)]
use crate::mounts::field;
use crate::paths::{last_name, paths_match};
#[allow(unused_imports)]
use crate::paths::{file_name, same_path};
use crate::text::is_blank;
#[allow(unused_imports)]
use crate::text::trimmed;

verus! {

// --- Lookups ---

/// Which lookup of which picker an answer is for.
pub open spec fn discovery_context(id: u64, generation: u64) -> Seq<char> {
    decimal(id as nat) + ":"@ + decimal(generation as nat)
}

/// The answer to one lookup of a picker is not taken for that of another.
pub proof fn law_contexts_differ(id: u64, a: u64, b: u64)
    requires
        a != b,
    ensures
        discovery_context(id, a) != discovery_context(id, b),
{
    let start = decimal(id as nat) + ":"@;
    law_decimal_reads_back(a as nat);
    law_decimal_reads_back(b as nat);
    assert(discovery_context(id, a).skip(start.len() as int) =~= decimal(a as nat));
    assert(discovery_context(id, b).skip(start.len() as int) =~= decimal(b as nat));
}

impl ProjectPickerView {
    pub open spec fn context(self) -> Seq<char> {
        discovery_context(self.id, self.generation)
    }

    /// The picker with a lookup under way.
    pub open spec fn looking_up(self, request: ProjectDiscoveryRequestView) -> ProjectPickerView {
        ProjectPickerView {
            generation: following(self.generation),
            request: Some(request),
            pending: true,
            focus_results: true,
            loading: true,
            error: None,
            entries: seq![],
            selected: 0,
            truncated: false,
            ..self
        }
    }

    /// The picker with nothing found and nothing looked up.
    pub open spec fn cleared(self, tab: ProjectTab) -> ProjectPickerView {
        ProjectPickerView {
            tab,
            generation: following(self.generation),
            loading: false,
            pending: false,
            error: None,
            creation_error: None,
            entries: seq![],
            selected: 0,
            truncated: false,
            ..self
        }
    }

    /// A look into a folder, without a filter.
    pub open spec fn opening(self, path: Seq<char>) -> ProjectPickerView {
        (ProjectPickerView {
            folder_filter: PathInputView { text: seq![], ..self.folder_filter },
            ..self
        }).looking_up(ProjectDiscoveryRequestView::Directory { path, filter: seq![] })
    }

    /// The lookup that the tab makes with what is typed.
    pub open spec fn search(self) -> ProjectDiscoveryRequestView {
        if self.tab == ProjectTab::Folders {
            ProjectDiscoveryRequestView::Directory {
                path: match self.directory {
                    Some(path) => path,
                    None => seq![],
                },
                filter: trimmed(self.folder_filter.text),
            }
        } else {
            ProjectDiscoveryRequestView::Github { query: trimmed(self.query.text) }
        }
    }
}

/// A lookup that was replaced is not answered any more.
pub proof fn law_replaced_lookup_unanswered(
    picker: ProjectPickerView,
    request: ProjectDiscoveryRequestView,
)
    ensures
        picker.looking_up(request).context() != picker.context(),
{
    law_contexts_differ(picker.id, following(picker.generation), picker.generation);
}

/// A lookup that is begun is the one that was asked for, waits to be handed
/// out, and leaves nothing of what was found before.
pub proof fn law_lookup_begun(picker: ProjectPickerView, request: ProjectDiscoveryRequestView)
    ensures
        ({
            let after = picker.looking_up(request);
            &&& after.request == Some(request)
            &&& after.pending && after.loading && after.error is None
            &&& after.entries.len() == 0 && after.selected == 0 && !after.truncated
            &&& after.generation != picker.generation && after.id == picker.id
            &&& after.tab == picker.tab && after.query == picker.query
            &&& after.directory == picker.directory && after.multiple == picker.multiple
        }),
{
}

/// Folders are searched below the one that is open, with the filter that is
/// typed there; everything else searches GitHub for what is typed.
pub proof fn law_search_made_of_typed(picker: ProjectPickerView)
    ensures
        picker.tab == ProjectTab::Folders ==> {
            &&& picker.search() matches ProjectDiscoveryRequestView::Directory { path, filter }
            &&& filter == trimmed(picker.folder_filter.text)
            &&& picker.directory is Some ==> path == picker.directory->0
            &&& picker.directory is None ==> path.len() == 0
        },
        picker.tab != ProjectTab::Folders ==> {
            &&& picker.search() matches ProjectDiscoveryRequestView::Github { query }
            &&& query == trimmed(picker.query.text)
        },
{
}

/// A folder is opened without a filter.
pub proof fn law_folder_opened(picker: ProjectPickerView, path: Seq<char>)
    ensures
        ({
            let after = picker.opening(path);
            &&& after.folder_filter.text.len() == 0
            &&& after.request matches Some(ProjectDiscoveryRequestView::Directory {
                path: looked,
                filter,
            })
            &&& looked == path && filter.len() == 0
            &&& after.pending && after.tab == picker.tab
        }),
{
}

impl ProjectPicker {
    fn context(&self) -> (context: String)
        ensures
            context@ == self@.context(),
    {
        let mut context = decimal_text(self.id as u128);
        context.append(":");
        context.append(decimal_text(self.generation as u128).as_str());
        context
    }

    fn load(&mut self, request: ProjectDiscoveryRequest)
        ensures
            final(self)@ == old(self)@.looking_up(request@),
    {
        broadcast use group_views;

        self.generation = following_number(self.generation);
        self.request = Some(request);
        self.pending = true;
        self.focus_results = true;
        self.loading = true;
        self.error = None;
        self.entries = Vec::new();
        self.selected = 0;
        self.truncated = false;
    }

    fn open_folder(&mut self, path: String)
        ensures
            final(self)@ == old(self)@.opening(path@),
    {
        self.folder_filter.clear();
        self.load(ProjectDiscoveryRequest::Directory { path, filter: String::new() });
    }

    fn look_again(&mut self)
        ensures
            final(self)@ == old(self)@.looking_up(old(self)@.search()),
    {
        let request = self.search_request();
        self.load(request);
    }

    fn search_request(&self) -> (request: ProjectDiscoveryRequest)
        ensures
            request@ == self@.search(),
    {
        if self.tab == ProjectTab::Folders {
            ProjectDiscoveryRequest::Directory {
                path: match &self.directory {
                    Some(path) => path.duplicate(),
                    None => String::new(),
                },
                filter: self.folder_filter.trimmed_text(),
            }
        } else {
            ProjectDiscoveryRequest::Github { query: self.query.trimmed_text() }
        }
    }
}

// --- Recent projects ---

/// A recent project, marked when it is the one the dashboard was started in.
pub open spec fn recent_entry(path: Seq<char>, launch: Option<Seq<char>>) -> ProjectEntryView {
    ProjectEntryView {
        name: match file_name(path) {
            Some(name) => name,
            None => path,
        },
        source: path,
        description: if launch matches Some(current) && same_path(current, path) {
            "Current project · "@ + path
        } else {
            path
        },
        kind: ProjectEntryKind::Repository,
    }
}

pub open spec fn lists_source(entries: Seq<ProjectEntryView>, source: Seq<char>) -> bool {
    exists|i: int| 0 <= i < entries.len() && (#[trigger] entries[i]).source == source
}

/// The recent projects of a list of paths, each once.
pub open spec fn recent_entries(paths: Seq<Seq<char>>, launch: Option<Seq<char>>) -> Seq<
    ProjectEntryView,
>
    decreases paths.len(),
{
    if paths.len() == 0 {
        seq![]
    } else {
        let before = recent_entries(paths.drop_last(), launch);
        if lists_source(before, paths.last()) {
            before
        } else {
            before.push(recent_entry(paths.last(), launch))
        }
    }
}

/// A recent project is the repository at its path, called by its last name;
/// the one the dashboard was begun in says so.
pub proof fn law_recent_project(path: Seq<char>, launch: Option<Seq<char>>)
    ensures
        ({
            let entry = recent_entry(path, launch);
            let here = launch matches Some(current) && same_path(current, path);
            &&& entry.source == path && entry.kind == ProjectEntryKind::Repository
            &&& file_name(path) is Some ==> Some(entry.name) == file_name(path)
            &&& file_name(path) is None ==> entry.name == path
            &&& here ==> entry.description == "Current project · "@ + path
            &&& !here ==> entry.description == path
        }),
{
}

/// Recent projects are listed in the order of their paths, and nothing else
/// is: the first path is the first entry.
pub proof fn law_recent_entries_in_order(paths: Seq<Seq<char>>, launch: Option<Seq<char>>)
    ensures
        paths.len() > 0 ==> {
            &&& recent_entries(paths, launch).len() > 0
            &&& recent_entries(paths, launch)[0] == recent_entry(paths[0], launch)
        },
        recent_entries(paths, launch).len() <= paths.len(),
        forall|i: int|
            0 <= i < recent_entries(paths, launch).len() ==> {
                &&& paths.contains((#[trigger] recent_entries(paths, launch)[i]).source)
                &&& recent_entries(paths, launch)[i] == recent_entry(
                    recent_entries(paths, launch)[i].source,
                    launch,
                )
            },
    decreases paths.len(),
{
    if paths.len() > 0 {
        let front = paths.drop_last();
        law_recent_entries_in_order(front, launch);
        let before = recent_entries(front, launch);
        let all = recent_entries(paths, launch);
        assert forall|i: int| 0 <= i < all.len() implies {
            &&& paths.contains((#[trigger] all[i]).source)
            &&& all[i] == recent_entry(all[i].source, launch)
        } by {
            if i < before.len() {
                assert(all[i] == before[i]);
                let k = choose|k: int| 0 <= k < front.len() && front[k] == before[i].source;
                assert(paths[k] == before[i].source);
            } else {
                assert(paths[paths.len() - 1] == all[i].source);
            }
        }
    }
}

/// No project is listed twice, and every path is listed.
/// No project is listed twice, and every path is listed.
pub proof fn law_recent_entries_complete(paths: Seq<Seq<char>>, launch: Option<Seq<char>>)
    ensures
        ({
            let entries = recent_entries(paths, launch);
            &&& forall|i: int, j: int|
                0 <= i < j < entries.len() ==> (#[trigger] entries[i]).source != (
                #[trigger] entries[j]).source
            &&& forall|k: int|
                0 <= k < paths.len() ==> lists_source(entries, #[trigger] paths[k])
        }),
    decreases paths.len(),
{
    if paths.len() > 0 {
        let front = paths.drop_last();
        law_recent_entries_complete(front, launch);
        let before = recent_entries(front, launch);
        let entries = recent_entries(paths, launch);
        assert forall|k: int| 0 <= k < paths.len() implies lists_source(
            entries,
            #[trigger] paths[k],
        ) by {
            if k < front.len() {
                assert(front[k] == paths[k]);
                assert(lists_source(before, front[k]));
                let i = choose|i: int|
                    0 <= i < before.len() && (#[trigger] before[i]).source == paths[k];
                assert(entries[i] == before[i]);
            } else if !lists_source(before, paths.last()) {
                assert(entries[before.len() as int].source == paths.last());
            }
        }
    }
}

impl DashboardStateView {
    /// The paths of recent projects: where the dashboard was started, then
    /// those used before on this machine.
    pub open spec fn recent_paths(self) -> Seq<Seq<char>> {
        (match self.launch_project_directory {
            Some(path) => seq![path],
            None => seq![],
        }) + remembered(self.state.project_directories, Some("local"@))
    }
}

/// The project the dashboard was begun in is the most recent one; those
/// remembered for this machine follow.
pub proof fn law_launch_project_first(state: DashboardStateView)
    ensures
        ({
            let known = remembered(state.state.project_directories, Some("local"@));
            let paths = state.recent_paths();
            &&& state.launch_project_directory matches Some(path) ==> {
                &&& paths.len() == known.len() + 1 && paths[0] == path
                &&& paths.skip(1) == known
            }
            &&& state.launch_project_directory is None ==> paths == known
        }),
{
    let known = remembered(state.state.project_directories, Some("local"@));
    if let Some(path) = state.launch_project_directory {
        assert((seq![path] + known).skip(1) =~= known);
    } else {
        assert(Seq::<Seq<char>>::empty() + known =~= known);
    }
}

fn lists(entries: &Vec<ProjectEntry>, source: &str) -> (found: bool)
    ensures
        found == lists_source(entries.deep_view(), source@),
{
    broadcast use group_views;

    let mut i: usize = 0;
    while i < entries.len()
        invariant
            i <= entries.len(),
            forall|j: int| 0 <= j < i ==> (#[trigger] entries@[j]).source@ != source@,
        decreases entries.len() - i,
    {
        if same_text(entries[i].source.as_str(), source) {
            assert(entries.deep_view()[i as int].source == source@);
            return true;
        }
        i = i + 1;
    }
    proof {
        assert forall|j: int| 0 <= j < entries.deep_view().len() implies (
        #[trigger] entries.deep_view()[j]).source != source@ by {
            assert(entries.deep_view()[j].source == entries@[j].source@);
        }
    }
    false
}

fn add_recent(entries: &mut Vec<ProjectEntry>, path: &str, launch: &Option<String>)
    ensures
        final(entries).deep_view() == if lists_source(old(entries).deep_view(), path@) {
            old(entries).deep_view()
        } else {
            old(entries).deep_view().push(recent_entry(path@, launch.deep_view()))
        },
{
    broadcast use group_views;

    if lists(entries, path) {
        return;
    }
    let current = match launch {
        Some(started) => paths_match(started.as_str(), path),
        None => false,
    };
    entries.push(
        ProjectEntry {
            name: match last_name(path) {
                Some(name) => name,
                None => owned(path),
            },
            source: owned(path),
            description: if current {
                joined("Current project · ", path)
            } else {
                owned(path)
            },
            kind: ProjectEntryKind::Repository,
        },
    );
}

impl DashboardState {
    fn recent_projects(&self) -> (entries: Vec<ProjectEntry>)
        ensures
            entries.deep_view() == recent_entries(
                self@.recent_paths(),
                self@.launch_project_directory,
            ),
    {
        broadcast use group_views;

        let ghost launch = self@.launch_project_directory;
        let ghost paths = self@.recent_paths();
        let mut entries: Vec<ProjectEntry> = Vec::new();
        let first: usize = match &self.launch_project_directory {
            Some(path) => {
                add_recent(&mut entries, path.as_str(), &self.launch_project_directory);
                proof {
                    assert(paths.take(1) =~= seq![path@]);
                    assert(seq![path@].drop_last() =~= Seq::empty());
                    assert(recent_entries(Seq::empty(), launch) =~= Seq::empty());
                    reveal_with_fuel(recent_entries, 2);
                }
                1
            },
            None => {
                assert(paths.take(0) =~= Seq::empty());
                0
            },
        };
        let host = Some(owned("local"));
        let locals = remembered_paths(&self.state.project_directories, &host);
        assert(host.deep_view() == Some("local"@));
        let mut i: usize = 0;
        while i < locals.len()
            invariant
                i <= locals.len(),
                first <= 1,
                paths == self@.recent_paths(),
                launch == self@.launch_project_directory,
                launch == self.launch_project_directory.deep_view(),
                paths.len() == first + locals.len(),
                forall|j: int| 0 <= j < locals.len() ==> paths[first + j] == (#[trigger] locals@[j])@,
                entries.deep_view() == recent_entries(paths.take(first + i), launch),
            decreases locals.len() - i,
        {
            add_recent(&mut entries, locals[i].as_str(), &self.launch_project_directory);
            proof {
                assert(paths.take(first + i + 1).drop_last() =~= paths.take(first + i));
                assert(paths.take(first + i + 1).last() == locals@[i as int]@);
            }
            i = i + 1;
        }
        assert(paths.take(paths.len() as int) =~= paths);
        entries
    }
}

// --- Tabs ---

impl DashboardStateView {
    /// The draft with a tab of the picker chosen.
    pub open spec fn tab_chosen(self, draft: DraftView, tab: ProjectTab) -> DraftView {
        let cleared = draft.new_part().project_picker.cleared(tab);
        let picker = match tab {
            ProjectTab::Recent => ProjectPickerView {
                entries: recent_entries(self.recent_paths(), self.launch_project_directory),
                ..cleared
            },
            ProjectTab::Github => ProjectPickerView {
                focus_results: false,
                ..cleared.looking_up(cleared.search())
            },
            ProjectTab::Folders => cleared.looking_up(cleared.search()),
            ProjectTab::Url => cleared,
        };
        draft.with_new(NewSessionView { project_picker: picker, ..draft.new_part() }).focusing(
            match tab {
                ProjectTab::Url => WizardControl::NewBundleSource,
                ProjectTab::Github => WizardControl::ProjectQuery,
                _ => if picker.entries.len() > 0 {
                    WizardControl::ProjectResults
                } else {
                    WizardControl::ProjectGithub
                },
            },
        )
    }
}

/// Choosing a tab shows what it is for: the recent projects at once, folders
/// and GitHub once they are looked up, and the field for an address. What was
/// picked before stays picked, and a lookup of the tab before is not answered.
pub proof fn law_tab_chosen(state: DashboardStateView, draft: DraftView, tab: ProjectTab)
    requires
        draft.purpose is New,
    ensures
        ({
            let before = draft.new_part().project_picker;
            let after = state.tab_chosen(draft, tab);
            let picker = after.new_part().project_picker;
            &&& picker.tab == tab
            &&& picker.error is None && picker.creation_error is None && picker.selected == 0
            &&& picker.query == before.query && picker.multiple == before.multiple
            &&& tab == ProjectTab::Recent ==> !picker.pending && picker.entries == recent_entries(
                state.recent_paths(),
                state.launch_project_directory,
            )
            &&& tab == ProjectTab::Github ==> picker.pending && picker.request == Some(
                ProjectDiscoveryRequestView::Github { query: trimmed(before.query.text) },
            )
            &&& tab == ProjectTab::Folders ==> picker.pending && (
            picker.request matches Some(request) && request is Directory)
            &&& tab == ProjectTab::Url ==> !picker.pending && picker.entries.len() == 0
            &&& tab == ProjectTab::Url ==> after.form.focused == Some(
                WizardControl::NewBundleSource,
            )
            &&& tab == ProjectTab::Github ==> after.form.focused == Some(
                WizardControl::ProjectQuery,
            )
            &&& after.new_part().new_bundle_repositories
                == draft.new_part().new_bundle_repositories
            &&& after.step == draft.step && after.target == draft.target
        }),
{
}

impl DashboardState {
    /// Choose a tab of the project picker.
    pub fn choose_project_tab(&self, draft: &mut Draft, tab: ProjectTab)
        requires
            old(draft)@.purpose is New,
        ensures
            final(draft)@ == self@.tab_chosen(old(draft)@, tab),
    {
        broadcast use group_views;

        let mut initial = WizardControl::ProjectGithub;
        match &mut draft.purpose {
            Purpose::New(part) => {
                let picker = &mut part.project_picker;
                picker.tab = tab;
                picker.generation = following_number(picker.generation);
                picker.loading = false;
                picker.pending = false;
                picker.error = None;
                picker.creation_error = None;
                picker.entries = Vec::new();
                picker.selected = 0;
                picker.truncated = false;
                match tab {
                    ProjectTab::Recent => {
                        picker.entries = self.recent_projects();
                    },
                    ProjectTab::Github => {
                        picker.look_again();
                        picker.focus_results = false;
                    },
                    ProjectTab::Folders => {
                        picker.look_again();
                    },
                    ProjectTab::Url => {},
                }
                initial = match tab {
                    ProjectTab::Url => WizardControl::NewBundleSource,
                    ProjectTab::Github => WizardControl::ProjectQuery,
                    _ => if picker.entries.len() > 0 {
                        WizardControl::ProjectResults
                    } else {
                        WizardControl::ProjectGithub
                    },
                };
            },
            Purpose::Resume(_) => {},
        }
        draft.form.focus(initial);
    }

    /// Open the project picker on the recent projects.
    pub fn open_projects(&self, draft: &mut Draft)
        requires
            old(draft)@.purpose is New,
        ensures
            final(draft)@ == self@.tab_chosen(
                (DraftView { step: WizardStep::NewBundle, ..old(draft)@ }),
                ProjectTab::Recent,
            ),
    {
        draft.step = WizardStep::NewBundle;
        self.choose_project_tab(draft, ProjectTab::Recent);
    }
}

// --- Controls ---

impl NewSessionView {
    /// There is something to make a bundle of.
    pub open spec fn has_project(self) -> bool {
        ||| self.new_bundle_repositories.len() > 0
        ||| self.project_picker.tab == ProjectTab::Url && trimmed(
            self.new_bundle_source.text,
        ).len() > 0
        ||| !self.project_picker.multiple && self.project_picker.entries.len() > 0
    }

    /// The picker's results can be used.
    pub open spec fn has_results(self) -> bool {
        !self.project_picker.loading && self.project_picker.entries.len() > 0
    }

    /// The controls that look for projects.
    pub open spec fn search_controls(self) -> Seq<Declaration> {
        let picker = self.project_picker;
        let ready = !self.bundle_creation_in_flight;
        let github = picker.tab == ProjectTab::Github;
        let folders = picker.tab == ProjectTab::Folders;
        let up = ready && !picker.loading && picker.parent is Some;
        let list = Seq::empty().push(button(WizardControl::ProjectRecent, ready)).push(
            button(WizardControl::ProjectGithub, ready),
        ).push(button(WizardControl::ProjectFolders, ready)).push(
            button(WizardControl::ProjectUrl, ready),
        );
        let list = with_control(
            list,
            github || folders,
            declared(WizardControl::ProjectQuery, ControlKind::TextField, ready),
        );
        let list = with_control(list, github, button(WizardControl::ProjectSearch, ready));
        let list = with_control(list, folders, button(WizardControl::ProjectUp, up));
        let list = with_control(list, folders, button(WizardControl::ProjectHome, ready));
        let list = with_control(
            list,
            folders,
            button(WizardControl::ProjectOpenFolder, ready && self.has_results()),
        );
        with_control(
            list,
            picker.error is Some || picker.creation_error is Some,
            button(WizardControl::ProjectRetry, ready),
        )
    }

    /// The controls of the project picker, in order.
    pub open spec fn project_controls(self) -> Seq<Declaration> {
        let picker = self.project_picker;
        let ready = !self.bundle_creation_in_flight;
        let url = picker.tab == ProjectTab::Url;
        let listed = self.new_bundle_repositories.len();
        let list = with_control(
            self.search_controls(),
            url,
            declared(
                WizardControl::NewBundleSource,
                ControlKind::PathField { completing: self.new_bundle_source.completing },
                ready,
            ),
        );
        let list = with_control(
            list,
            !url,
            declared(
                WizardControl::ProjectResults,
                ControlKind::ChoiceList {
                    len: picker.entries.len() as usize,
                    selected: picker.selected,
                },
                ready && self.has_results(),
            ),
        );
        let list = list.push(declared(WizardControl::ProjectMultiple, ControlKind::Checkbox, ready));
        let list = with_control(
            list,
            picker.multiple,
            declared(
                WizardControl::NewBundleRepositories,
                ControlKind::ChoiceList { len: listed as usize, selected: self.new_bundle_selected },
                ready && listed > 0,
            ),
        );
        let list = with_control(
            list,
            picker.multiple,
            button(WizardControl::ProjectMakePrimary, ready && listed > 1),
        );
        let list = with_control(
            list,
            picker.multiple,
            button(WizardControl::NewBundleRemove, ready && listed > 0),
        );
        let list = with_control(
            list,
            picker.multiple && url,
            button(WizardControl::Add, ready && trimmed(self.new_bundle_source.text).len() > 0),
        );
        list.push(button(WizardControl::Back, ready)).push(
            button(WizardControl::Cancel, ready),
        ).push(button(WizardControl::Next, ready && self.has_project()))
    }
}

/// A bundle can be asked for as soon as it would have a repository, and not
/// while one is being made.
pub proof fn law_next_needs_project(part: NewSessionView)
    ensures
        ({
            let picker = part.project_picker;
            let next = part.project_controls().last();
            &&& next.control == WizardControl::Next
            &&& part.bundle_creation_in_flight ==> !next.enabled
            &&& !part.bundle_creation_in_flight ==> (next.enabled <==> {
                ||| part.new_bundle_repositories.len() > 0
                ||| picker.tab == ProjectTab::Url && trimmed(part.new_bundle_source.text).len() > 0
                ||| !picker.multiple && picker.entries.len() > 0
            })
        }),
{
}

impl NewSession {
    pub fn can_use_project(&self) -> (r: bool)
        ensures
            r == self@.has_project(),
    {
        broadcast use group_views;

        self.new_bundle_repositories.len() > 0 || (self.project_picker.tab == ProjectTab::Url
            && !is_blank(self.new_bundle_source.text.as_str())) || (!self.project_picker.multiple
            && self.project_picker.entries.len() > 0)
    }

    pub(crate) fn results_ready(&self) -> (r: bool)
        ensures
            r == self@.has_results(),
    {
        broadcast use group_views;

        !self.project_picker.loading && self.project_picker.entries.len() > 0
    }

    fn declare_search_controls(&self) -> (list: Vec<Declaration>)
        ensures
            list@ == self@.search_controls(),
    {
        let picker = &self.project_picker;
        let ready = !self.bundle_creation_in_flight;
        let results = self.results_ready();
        let github = picker.tab == ProjectTab::Github;
        let folders = picker.tab == ProjectTab::Folders;
        let failed = picker.error.is_some() || picker.creation_error.is_some();
        let up = ready && !picker.loading && picker.parent.is_some();
        let mut list: Vec<Declaration> = Vec::new();
        declare_button(&mut list, WizardControl::ProjectRecent, ready);
        declare_button(&mut list, WizardControl::ProjectGithub, ready);
        declare_button(&mut list, WizardControl::ProjectFolders, ready);
        declare_button(&mut list, WizardControl::ProjectUrl, ready);
        declare_where(
            &mut list,
            github || folders,
            WizardControl::ProjectQuery,
            ControlKind::TextField,
            ready,
        );
        declare_button_where(&mut list, github, WizardControl::ProjectSearch, ready);
        declare_button_where(&mut list, folders, WizardControl::ProjectUp, up);
        declare_button_where(&mut list, folders, WizardControl::ProjectHome, ready);
        declare_button_where(
            &mut list,
            folders,
            WizardControl::ProjectOpenFolder,
            ready && results,
        );
        declare_button_where(&mut list, failed, WizardControl::ProjectRetry, ready);
        list
    }

    /// The controls of the project picker, in order. Enter presses the last.
    pub fn declare_project_controls(&self) -> (list: Vec<Declaration>)
        ensures
            list@ == self@.project_controls(),
    {
        broadcast use group_views;

        let picker = &self.project_picker;
        let ready = !self.bundle_creation_in_flight;
        let url = picker.tab == ProjectTab::Url;
        let several = picker.multiple;
        let listed = self.new_bundle_repositories.len();
        let found = picker.entries.len();
        let results = self.results_ready();
        let typed = !is_blank(self.new_bundle_source.text.as_str());
        let usable = self.can_use_project();
        let mut list = self.declare_search_controls();
        declare_where(
            &mut list,
            url,
            WizardControl::NewBundleSource,
            ControlKind::PathField { completing: self.new_bundle_source.completing },
            ready,
        );
        declare_where(
            &mut list,
            !url,
            WizardControl::ProjectResults,
            ControlKind::ChoiceList { len: found, selected: picker.selected },
            ready && results,
        );
        declare(&mut list, WizardControl::ProjectMultiple, ControlKind::Checkbox, ready);
        declare_where(
            &mut list,
            several,
            WizardControl::NewBundleRepositories,
            ControlKind::ChoiceList { len: listed, selected: self.new_bundle_selected },
            ready && listed > 0,
        );
        declare_button_where(
            &mut list,
            several,
            WizardControl::ProjectMakePrimary,
            ready && listed > 1,
        );
        declare_button_where(
            &mut list,
            several,
            WizardControl::NewBundleRemove,
            ready && listed > 0,
        );
        declare_button_where(&mut list, several && url, WizardControl::Add, ready && typed);
        declare_button(&mut list, WizardControl::Back, ready);
        declare_button(&mut list, WizardControl::Cancel, ready);
        declare_button(&mut list, WizardControl::Next, ready && usable);
        list
    }
}

// --- Handing out lookups and taking in answers ---

impl DashboardStateView {
    /// The picker on screen, if the draft is choosing a project.
    pub open spec fn choosing(self) -> Option<ProjectPickerView> {
        match self.mode {
            ModeView::Wizard(draft) if draft.purpose is New && draft.step
                == WizardStep::NewBundle => Some(draft.new_part().project_picker),
            _ => None,
        }
    }

    pub open spec fn with_picker(self, picker: ProjectPickerView) -> DashboardStateView {
        let draft = self.mode->Wizard_0;
        self.showing(
            draft.with_new(NewSessionView { project_picker: picker, ..draft.new_part() }),
        )
    }

    /// The state once a lookup that is waiting was handed out, and the
    /// lookup.
    pub open spec fn discovery_taken(self) -> (DashboardStateView, Option<DashboardActionView>) {
        match self.choosing() {
            Some(picker) if picker.pending => (
                self.with_picker(ProjectPickerView { pending: false, ..picker }),
                match picker.request {
                    Some(request) => Some(
                        DashboardActionView::DiscoverProjects {
                            context: picker.context(),
                            request,
                        },
                    ),
                    None => None,
                },
            ),
            _ => (self, None),
        }
    }

    /// The state with the answer to a lookup, unless it is not the one waited
    /// for. A late result must not steal focus from an edited search.
    pub open spec fn discovered(
        self,
        context: Seq<char>,
        result: Result<ProjectDiscoveryView, Seq<char>>,
    ) -> DashboardStateView {
        match self.choosing() {
            Some(picker) if picker.context() == context => {
                let answered = self.with_picker(picker.answered(result));
                if picker.focus_results && found_some(result) {
                    answered.showing(
                        answered.mode->Wizard_0.focusing(WizardControl::ProjectResults),
                    )
                } else {
                    answered
                }
            },
            _ => self,
        }
    }
}

impl ProjectPickerView {
    /// The picker with what a lookup found.
    pub open spec fn answered(
        self,
        result: Result<ProjectDiscoveryView, Seq<char>>,
    ) -> ProjectPickerView {
        match result {
            Err(error) => ProjectPickerView { loading: false, error: Some(error), ..self },
            Ok(found) => {
                let folders = self.tab == ProjectTab::Folders;
                ProjectPickerView {
                    loading: false,
                    entries: found.entries,
                    directory: if folders {
                        found.directory
                    } else {
                        self.directory
                    },
                    parent: if folders {
                        found.parent
                    } else {
                        self.parent
                    },
                    truncated: found.truncated,
                    selected: 0,
                    error: None,
                    focus_results: false,
                    ..self
                }
            },
        }
    }
}

/// The lookup found something.
pub open spec fn found_some(result: Result<ProjectDiscoveryView, Seq<char>>) -> bool {
    match result {
        Ok(found) => found.entries.len() > 0,
        Err(_) => false,
    }
}

/// The view of an answer.
pub open spec fn answer(result: Result<ProjectDiscovery, String>) -> Result<
    ProjectDiscoveryView,
    Seq<char>,
> {
    match result {
        Ok(found) => Ok(found@),
        Err(error) => Err(error@),
    }
}

/// What is handed out is the lookup that waits, under the number its answer is
/// expected with.
pub proof fn law_waiting_lookup_handed_out(
    state: DashboardStateView,
    draft: DraftView,
    request: ProjectDiscoveryRequestView,
)
    requires
        state.mode == ModeView::Wizard(draft),
        draft.purpose is New,
        draft.step == WizardStep::NewBundle,
        draft.new_part().project_picker.pending,
        draft.new_part().project_picker.request == Some(request),
    ensures
        ({
            let (after, action) = state.discovery_taken();
            &&& action matches Some(DashboardActionView::DiscoverProjects {
                context,
                request: asked,
            })
            &&& asked == request && context == draft.new_part().project_picker.context()
            &&& after.mode matches ModeView::Wizard(kept)
            &&& !kept.new_part().project_picker.pending
            &&& kept.new_part().project_picker.entries == draft.new_part().project_picker.entries
            &&& kept.step == draft.step
        }),
{
}

/// The answer that is waited for is shown from its first entry, or its error
/// is; any other answer changes nothing.
pub proof fn law_awaited_answer_shown(
    state: DashboardStateView,
    draft: DraftView,
    context: Seq<char>,
    result: Result<ProjectDiscoveryView, Seq<char>>,
)
    requires
        state.mode == ModeView::Wizard(draft),
        draft.purpose is New,
        draft.step == WizardStep::NewBundle,
    ensures
        ({
            let before = draft.new_part().project_picker;
            let after = state.discovered(context, result);
            &&& context != before.context() ==> after == state
            &&& context == before.context() ==> {
                &&& after.mode matches ModeView::Wizard(kept)
                &&& !kept.new_part().project_picker.loading
                &&& kept.new_part().new_bundle_repositories
                    == draft.new_part().new_bundle_repositories
                &&& result matches Err(error) ==> {
                    &&& kept.new_part().project_picker.error == Some(error)
                    &&& kept.new_part().project_picker.entries == before.entries
                }
                &&& result matches Ok(found) ==> {
                    let picker = kept.new_part().project_picker;
                    &&& picker.entries == found.entries && picker.selected == 0
                    &&& picker.error is None && picker.truncated == found.truncated
                    &&& before.tab == ProjectTab::Folders ==> picker.directory == found.directory
                        && picker.parent == found.parent
                    &&& before.tab != ProjectTab::Folders ==> picker.directory == before.directory
                        && picker.parent == before.parent
                    &&& before.focus_results && found.entries.len() > 0 ==> kept.form.focused
                        == Some(WizardControl::ProjectResults)
                }
            }
        }),
{
}

/// A lookup is handed out once.
/// A lookup is handed out once.
pub proof fn law_discovery_taken_once(state: DashboardStateView)
    ensures
        state.discovery_taken().0.discovery_taken().1 is None,
{
}

impl DashboardState {
    /// Hand out the project lookup that is waiting, if there is one.
    pub fn take_project_discovery(&mut self) -> (lookup: Option<DashboardAction>)
        ensures
            (final(self)@, lookup.deep_view()) == old(self)@.discovery_taken(),
            old(self)@.well_formed() ==> final(self)@.well_formed(),
    {
        if let Mode::Wizard(draft) = &mut self.mode {
            if draft.step != WizardStep::NewBundle {
                return None;
            }
            if let Purpose::New(part) = &mut draft.purpose {
                if !part.project_picker.pending {
                    return None;
                }
                part.project_picker.pending = false;
                return match &part.project_picker.request {
                    Some(request) => Some(
                        DashboardAction::DiscoverProjects {
                            context: part.project_picker.context(),
                            request: request.duplicate(),
                        },
                    ),
                    None => None,
                };
            }
        }
        None
    }

    /// Take in the answer to a project lookup.
    pub fn apply_project_discovery(
        &mut self,
        context: &str,
        result: Result<ProjectDiscovery, String>,
    )
        ensures
            final(self)@ == old(self)@.discovered(context@, answer(result)),
            old(self)@.well_formed() ==> final(self)@.well_formed(),
    {
        if let Mode::Wizard(draft) = &mut self.mode {
            if draft.step != WizardStep::NewBundle {
                return;
            }
            let mut found = false;
            match &mut draft.purpose {
                Purpose::New(part) => {
                    if !same_text(part.project_picker.context().as_str(), context) {
                        return;
                    }
                    found = part.project_picker.take_answer(result);
                },
                Purpose::Resume(_) => {},
            }
            if found {
                draft.form.focus(WizardControl::ProjectResults);
            }
        }
    }
}

impl ProjectPicker {
    /// Takes in what a lookup found. Says whether the results are to have the
    /// focus.
    fn take_answer(&mut self, result: Result<ProjectDiscovery, String>) -> (focus: bool)
        ensures
            final(self)@ == old(self)@.answered(answer(result)),
            focus == (old(self)@.focus_results && found_some(answer(result))),
    {
        broadcast use group_views;

        self.loading = false;
        match result {
            Err(error) => {
                self.error = Some(error);
                false
            },
            Ok(found) => {
                let focus = self.focus_results && found.entries.len() > 0;
                self.entries = found.entries;
                if self.tab == ProjectTab::Folders {
                    self.directory = found.directory;
                    self.parent = found.parent;
                }
                self.truncated = found.truncated;
                self.selected = 0;
                self.error = None;
                self.focus_results = false;
                focus
            },
        }
    }
}

// --- Using the picker ---

impl NewSessionView {
    pub open spec fn picking(self, picker: ProjectPickerView) -> NewSessionView {
        NewSessionView { project_picker: picker, ..self }
    }

    /// The selected entry, if there is one.
    pub open spec fn chosen_entry(self) -> Option<ProjectEntryView> {
        let picker = self.project_picker;
        if picker.selected < picker.entries.len() {
            Some(picker.entries[picker.selected as int])
        } else {
            None
        }
    }

    /// What a control comes down to.
    pub open spec fn project_use(self, control: WizardControl) -> ProjectUse {
        let url = self.project_picker.tab == ProjectTab::Url;
        match control {
            WizardControl::ProjectQuery | WizardControl::ProjectSearch => ProjectUse::Search,
            WizardControl::ProjectRetry => if self.project_picker.creation_error is Some {
                ProjectUse::Submit
            } else {
                ProjectUse::Browse
            },
            WizardControl::ProjectResults => if url {
                ProjectUse::Submit
            } else {
                ProjectUse::Entry
            },
            WizardControl::Next => if url || self.new_bundle_repositories.len() > 0 {
                ProjectUse::Submit
            } else {
                ProjectUse::Entry
            },
            _ => ProjectUse::Browse,
        }
    }

    /// What the controls do that only move about in the picker.
    pub open spec fn browsed(self, control: WizardControl) -> NewSessionView {
        let picker = self.project_picker;
        match control {
            WizardControl::ProjectHome => self.picking(picker.opening(seq![])),
            WizardControl::ProjectUp => match picker.parent {
                Some(path) => self.picking(picker.opening(path)),
                None => self,
            },
            WizardControl::ProjectOpenFolder => match self.chosen_entry() {
                Some(entry) => self.picking(picker.opening(entry.source)),
                None => self,
            },
            WizardControl::ProjectMakePrimary => self.primary_made(),
            WizardControl::ProjectRetry => match picker.request {
                Some(request) => self.picking(picker.looking_up(request)),
                None => self,
            },
            _ => self,
        }
    }

    /// The repositories with the selected one first.
    pub open spec fn primary_made(self) -> NewSessionView {
        let i = self.new_bundle_selected as int;
        if i < self.new_bundle_repositories.len() {
            NewSessionView {
                new_bundle_repositories: self.new_bundle_repositories.remove(i).insert(
                    0,
                    self.new_bundle_repositories[i],
                ),
                new_bundle_selected: 0,
                ..self
            }
        } else {
            self
        }
    }

    /// The repositories with one more, or without it where it was listed.
    pub open spec fn toggled(self, source: Seq<char>) -> NewSessionView {
        let list = match key_position::<String>(self.new_bundle_repositories, source) {
            Some(i) => self.new_bundle_repositories.remove(i),
            None => self.new_bundle_repositories.push(source),
        };
        NewSessionView {
            new_bundle_repositories: list,
            new_bundle_selected: (if list.len() == 0 {
                0
            } else {
                list.len() - 1
            }) as usize,
            ..self
        }
    }
}

/// The main repository is the first: making the selected one so puts it before
/// all others, which keep their order.
pub proof fn law_primary_comes_first(part: NewSessionView)
    requires
        part.new_bundle_selected < part.new_bundle_repositories.len(),
    ensures
        ({
            let before = part.new_bundle_repositories;
            let row = part.new_bundle_selected as int;
            let after = part.primary_made();
            &&& after.new_bundle_repositories.len() == before.len()
            &&& after.new_bundle_repositories[0] == before[row]
            &&& forall|i: int|
                0 < i <= row ==> #[trigger] after.new_bundle_repositories[i] == before[i - 1]
            &&& forall|i: int|
                row < i < before.len() ==> #[trigger] after.new_bundle_repositories[i] == before[i]
            &&& after.new_bundle_selected == 0
        }),
{
}

/// Choosing a repository adds it after the others, and choosing one that is
/// listed takes it out; the others stay as they are.
pub proof fn law_choosing_adds_or_removes(part: NewSessionView, source: Seq<char>)
    ensures
        ({
            let before = part.new_bundle_repositories;
            let after = part.toggled(source).new_bundle_repositories;
            &&& !before.contains(source) ==> after == before.push(source)
            &&& before.contains(source) ==> exists|i: int| {
                &&& 0 <= i < before.len() && before[i] == source
                &&& after == #[trigger] before.remove(i)
                &&& forall|j: int| 0 <= j < i ==> #[trigger] before[j] != source
            }
        }),
{
    let before = part.new_bundle_repositories;
    law_lookup_finds_first::<String>(before, source);
    if let Some(i) = key_position::<String>(before, source) {
        assert(before[i] == source);
        assert(part.toggled(source).new_bundle_repositories == before.remove(i));
    }
}

/// The buttons that move about open the folder they are for: home, the parent,
/// or the selected entry; trying again looks up the same.
pub proof fn law_browsing_opens(part: NewSessionView)
    ensures
        ({
            let picker = part.project_picker;
            let home = part.browsed(WizardControl::ProjectHome).project_picker;
            let up = part.browsed(WizardControl::ProjectUp).project_picker;
            let open = part.browsed(WizardControl::ProjectOpenFolder).project_picker;
            let again = part.browsed(WizardControl::ProjectRetry).project_picker;
            &&& home.request matches Some(ProjectDiscoveryRequestView::Directory { path, filter })
            &&& path.len() == 0 && filter.len() == 0 && home.pending
            &&& picker.parent matches Some(parent) ==> {
                &&& up.request matches Some(ProjectDiscoveryRequestView::Directory { path, filter })
                &&& path == parent && filter.len() == 0 && up.pending
            }
            &&& picker.parent is None ==> up == picker
            &&& picker.selected < picker.entries.len() ==> {
                &&& open.request matches Some(ProjectDiscoveryRequestView::Directory {
                    path,
                    filter,
                })
                &&& path == picker.entries[picker.selected as int].source && filter.len() == 0
            }
            &&& picker.selected >= picker.entries.len() ==> open == picker
            &&& picker.request is Some ==> again.request == picker.request && again.pending
        }),
{
}

/// Making a repository the main one keeps the repositories.
/// Making a repository the main one keeps the repositories.
pub proof fn law_primary_keeps_repositories(part: NewSessionView)
    ensures
        part.primary_made().new_bundle_repositories.to_multiset()
            == part.new_bundle_repositories.to_multiset(),
{
    broadcast use vstd::seq_lib::group_to_multiset_ensures;

    let list = part.new_bundle_repositories;
    let i = part.new_bundle_selected as int;
    if i < list.len() {
        let rest = list.remove(i);
        assert(rest.insert(0, list[i]).to_multiset() =~= list.to_multiset());
    }
}

/// What a control of the picker comes down to.
#[derive(Debug, Clone, Copy, PartialEq, Eq, Structural)]
pub enum ProjectUse {
    /// Look up what is typed.
    Search,
    /// Make a bundle of the listed repositories and the typed one.
    Submit,
    /// Use the selected entry.
    Entry,
    /// Move about in the picker.
    Browse,
}

/// The tab that a control chooses.
pub open spec fn control_tab(control: WizardControl) -> Option<ProjectTab> {
    match control {
        WizardControl::ProjectRecent => Some(ProjectTab::Recent),
        WizardControl::ProjectGithub => Some(ProjectTab::Github),
        WizardControl::ProjectFolders => Some(ProjectTab::Folders),
        WizardControl::ProjectUrl => Some(ProjectTab::Url),
        _ => None,
    }
}

fn tab_of(control: WizardControl) -> (tab: Option<ProjectTab>)
    ensures
        tab == control_tab(control),
{
    match control {
        WizardControl::ProjectRecent => Some(ProjectTab::Recent),
        WizardControl::ProjectGithub => Some(ProjectTab::Github),
        WizardControl::ProjectFolders => Some(ProjectTab::Folders),
        WizardControl::ProjectUrl => Some(ProjectTab::Url),
        _ => None,
    }
}

impl DashboardStateView {
    /// What using the selected entry comes to: a folder is opened, a
    /// repository is added to several or used alone.
    pub open spec fn entry_used(self, draft: DraftView) -> (
        DashboardStateView,
        DashboardActionView,
    ) {
        let part = draft.new_part();
        match part.chosen_entry() {
            None => (self.showing(draft), DashboardActionView::Nothing),
            Some(entry) => if entry.kind == ProjectEntryKind::Directory {
                (
                    self.showing(
                        draft.with_new(part.picking(part.project_picker.opening(entry.source))),
                    ),
                    DashboardActionView::Nothing,
                )
            } else if part.project_picker.multiple {
                (
                    self.showing(draft.with_new(part.toggled(entry.source))),
                    DashboardActionView::Nothing,
                )
            } else {
                self.bundle_submitted(
                    draft.with_new(
                        NewSessionView { new_bundle_source: field(entry.source), ..part },
                    ),
                )
            },
        }
    }

    /// What a control of the project picker does.
    pub open spec fn project_activated(self, draft: DraftView, control: WizardControl) -> (
        DashboardStateView,
        DashboardActionView,
    ) {
        let nothing = DashboardActionView::Nothing;
        match control_tab(control) {
            Some(tab) => (self.showing(self.tab_chosen(draft, tab)), nothing),
            None => self.project_operated(draft, control),
        }
    }

    /// What a control of the project picker does that chooses no tab.
    pub open spec fn project_operated(self, draft: DraftView, control: WizardControl) -> (
        DashboardStateView,
        DashboardActionView,
    ) {
        let nothing = DashboardActionView::Nothing;
        match draft.new_part().project_use(control) {
            ProjectUse::Search => (self.showing(draft.projects_searched()), nothing),
            ProjectUse::Submit => self.bundle_submitted(draft),
            ProjectUse::Entry => self.entry_used(draft),
            ProjectUse::Browse => (
                self.showing(draft.with_new(draft.new_part().browsed(control))),
                nothing,
            ),
        }
    }
}

/// The selected entry is used as what it is: a folder is opened, and a
/// repository is picked where several can be, and is what the bundle is made
/// of where one is enough.
pub proof fn law_selected_entry_used(state: DashboardStateView, draft: DraftView)
    requires
        draft.purpose is New,
        draft.new_part().project_picker.selected < draft.new_part().project_picker.entries.len(),
        draft.new_part().new_bundle_repositories.len() == 0,
    ensures
        ({
            let picker = draft.new_part().project_picker;
            let entry = picker.entries[picker.selected as int];
            let (after, action) = state.entry_used(draft);
            &&& after.mode matches ModeView::Wizard(kept)
            &&& kept.step == draft.step
            &&& entry.kind == ProjectEntryKind::Directory ==> {
                &&& action == DashboardActionView::Nothing
                &&& kept.new_part().project_picker.request matches Some(
                    ProjectDiscoveryRequestView::Directory { path, filter },
                )
                &&& path == entry.source && filter.len() == 0
            }
            &&& entry.kind != ProjectEntryKind::Directory && picker.multiple ==> {
                &&& action == DashboardActionView::Nothing
                &&& kept.new_part().new_bundle_repositories == seq![entry.source]
            }
            &&& entry.kind != ProjectEntryKind::Directory && !picker.multiple && trimmed(
                entry.source,
            ).len() > 0 ==> {
                &&& action matches DashboardActionView::CreateBundle { sources }
                &&& sources == seq![trimmed(entry.source)]
                &&& kept.new_part().bundle_creation_in_flight
            }
        }),
{
    let part = draft.new_part();
    let picker = part.project_picker;
    let entry = picker.entries[picker.selected as int];
    law_lookup_finds_first::<String>(part.new_bundle_repositories, entry.source);
    assert(part.new_bundle_repositories.push(entry.source) =~= seq![entry.source]);
    assert(part.new_bundle_repositories.push(trimmed(entry.source)) =~= seq![
        trimmed(entry.source),
    ]);
}

/// What the controls of the picker are for: its tabs, a search for what is
/// typed, and asking for the bundle where repositories are listed or an address
/// is typed.
pub proof fn law_picker_controls(state: DashboardStateView, draft: DraftView)
    requires
        draft.purpose is New,
    ensures
        ({
            let part = draft.new_part();
            let picker = part.project_picker;
            let shown = |control: WizardControl|
                state.project_activated(draft, control).0.mode->Wizard_0.new_part().project_picker;
            &&& shown(WizardControl::ProjectRecent).tab == ProjectTab::Recent
            &&& shown(WizardControl::ProjectGithub).tab == ProjectTab::Github
            &&& shown(WizardControl::ProjectFolders).tab == ProjectTab::Folders
            &&& shown(WizardControl::ProjectUrl).tab == ProjectTab::Url
            &&& shown(WizardControl::ProjectSearch).request == Some(picker.search())
            &&& shown(WizardControl::ProjectSearch).pending
            &&& part.new_bundle_repositories.len() > 0 ==> state.project_activated(
                draft,
                WizardControl::Next,
            ).1 is CreateBundle
            &&& picker.tab == ProjectTab::Url && trimmed(part.new_bundle_source.text).len() > 0
                ==> state.project_activated(draft, WizardControl::Next).1 is CreateBundle
        }),
{
}

/// Without a selected entry nothing is used.
/// Without a selected entry nothing is used.
pub proof fn law_no_entry_used(state: DashboardStateView, draft: DraftView)
    requires
        draft.purpose is New,
        draft.new_part().project_picker.selected >= draft.new_part().project_picker.entries.len(),
    ensures
        state.entry_used(draft).0.mode == ModeView::Wizard(draft),
        state.entry_used(draft).1 == DashboardActionView::Nothing,
{
}

impl NewSession {
    fn entry_source(&self) -> (found: Option<(String, ProjectEntryKind)>)
        ensures
            match found {
                Some((source, kind)) => self@.chosen_entry() matches Some(entry) && entry.source
                    == source@ && entry.kind == kind,
                None => self@.chosen_entry() is None,
            },
    {
        broadcast use group_views;

        let picker = &self.project_picker;
        if picker.selected < picker.entries.len() {
            let entry = &picker.entries[picker.selected];
            assert(picker.entries.deep_view()[picker.selected as int] == entry@);
            Some((entry.source.duplicate(), entry.kind))
        } else {
            None
        }
    }

    fn make_primary(&mut self)
        ensures
            final(self)@ == old(self)@.primary_made(),
    {
        broadcast use group_views;

        if self.new_bundle_selected < self.new_bundle_repositories.len() {
            let ghost i = self.new_bundle_selected as int;
            let ghost list = self.new_bundle_repositories.deep_view();
            assert(list[i] == self.new_bundle_repositories@[i]@);
            let source = self.new_bundle_repositories.remove(self.new_bundle_selected);
            self.new_bundle_repositories.insert(0, source);
            self.new_bundle_selected = 0;
        }
    }

    fn browse(&mut self, control: WizardControl)
        ensures
            final(self)@ == old(self)@.browsed(control),
    {
        match control {
            WizardControl::ProjectHome => {
                self.project_picker.open_folder(String::new());
            },
            WizardControl::ProjectUp => {
                let parent = self.project_picker.parent.duplicate();
                if let Some(path) = parent {
                    self.project_picker.open_folder(path);
                }
            },
            WizardControl::ProjectOpenFolder => {
                if let Some((source, _)) = self.entry_source() {
                    self.project_picker.open_folder(source);
                }
            },
            WizardControl::ProjectMakePrimary => {
                self.make_primary();
            },
            WizardControl::ProjectRetry => {
                let request = self.project_picker.request.duplicate();
                if let Some(again) = request {
                    self.project_picker.load(again);
                }
            },
            _ => {},
        }
    }

    fn toggle_repository(&mut self, source: String)
        ensures
            final(self)@ == old(self)@.toggled(source@),
    {
        broadcast use group_views;

        match position_of(&self.new_bundle_repositories, source.as_str()) {
            Some(i) => {
                let gone = self.new_bundle_repositories.remove(i);
            },
            None => {
                self.new_bundle_repositories.push(source);
            },
        }
        let len = self.new_bundle_repositories.len();
        self.new_bundle_selected = if len == 0 {
            0
        } else {
            len - 1
        };
    }
}

impl DraftView {
    /// The draft with a search of projects under way.
    pub open spec fn projects_searched(self) -> DraftView {
        let part = self.new_part();
        let picker = part.project_picker;
        self.with_new(part.picking(picker.looking_up(picker.search()))).focusing(
            WizardControl::ProjectResults,
        )
    }
}

impl Draft {
    fn project_use(&self, control: WizardControl) -> (usage: ProjectUse)
        requires
            self@.purpose is New,
        ensures
            usage == self@.new_part().project_use(control),
    {
        broadcast use group_views;

        let (url, listed, creation_failed) = match &self.purpose {
            Purpose::New(part) => (
                part.project_picker.tab == ProjectTab::Url,
                part.new_bundle_repositories.len() > 0,
                part.project_picker.creation_error.is_some(),
            ),
            Purpose::Resume(_) => (false, false, false),
        };
        match control {
            WizardControl::ProjectQuery | WizardControl::ProjectSearch => ProjectUse::Search,
            WizardControl::ProjectRetry => if creation_failed {
                ProjectUse::Submit
            } else {
                ProjectUse::Browse
            },
            WizardControl::ProjectResults => if url {
                ProjectUse::Submit
            } else {
                ProjectUse::Entry
            },
            WizardControl::Next => if url || listed {
                ProjectUse::Submit
            } else {
                ProjectUse::Entry
            },
            _ => ProjectUse::Browse,
        }
    }

    fn search_projects(&mut self)
        requires
            old(self)@.purpose is New,
        ensures
            final(self)@ == old(self)@.projects_searched(),
    {
        match &mut self.purpose {
            Purpose::New(part) => {
                part.project_picker.look_again();
            },
            Purpose::Resume(_) => {},
        }
        self.form.focus(WizardControl::ProjectResults);
    }

    fn browse_projects(&mut self, control: WizardControl)
        requires
            old(self)@.purpose is New,
        ensures
            final(self)@ == old(self)@.with_new(old(self)@.new_part().browsed(control)),
    {
        match &mut self.purpose {
            Purpose::New(part) => {
                part.browse(control);
            },
            Purpose::Resume(_) => {},
        }
    }
}

impl DashboardState {
    fn use_entry(&mut self, draft: Draft) -> (action: DashboardAction)
        requires
            draft@.purpose is New,
        ensures
            (final(self)@, action@) == old(self)@.entry_used(draft@),
            old(self)@.fits(draft@) ==> final(self)@.well_formed(),
    {
        let mut draft = draft;
        let mut submits = false;
        match &mut draft.purpose {
            Purpose::New(part) => {
                if let Some((source, kind)) = part.entry_source() {
                    if kind == ProjectEntryKind::Directory {
                        part.project_picker.open_folder(source);
                    } else if part.project_picker.multiple {
                        part.toggle_repository(source);
                    } else {
                        part.new_bundle_source.set_value(source.as_str());
                        submits = true;
                    }
                }
            },
            Purpose::Resume(_) => {},
        }
        if submits {
            return self.submit_new_bundle(draft);
        }
        self.keep(draft);
        DashboardAction::Nothing
    }

    /// Do what a control of the project picker does.
    pub fn activate_project_control(&mut self, draft: Draft, control: WizardControl) -> (action:
        DashboardAction)
        requires
            draft@.purpose is New,
        ensures
            (final(self)@, action@) == old(self)@.project_activated(draft@, control),
            old(self)@.fits(draft@) ==> final(self)@.well_formed(),
    {
        let mut draft = draft;
        if let Some(tab) = tab_of(control) {
            self.choose_project_tab(&mut draft, tab);
            self.keep(draft);
            return DashboardAction::Nothing;
        }
        self.operate_project_control(draft, control)
    }

    fn operate_project_control(&mut self, draft: Draft, control: WizardControl) -> (action:
        DashboardAction)
        requires
            draft@.purpose is New,
        ensures
            (final(self)@, action@) == old(self)@.project_operated(draft@, control),
            old(self)@.fits(draft@) ==> final(self)@.well_formed(),
    {
        let mut draft = draft;
        match draft.project_use(control) {
            ProjectUse::Search => {
                draft.search_projects();
            },
            ProjectUse::Submit => {
                return self.submit_new_bundle(draft);
            },
            ProjectUse::Entry => {
                return self.use_entry(draft);
            },
            ProjectUse::Browse => {
                draft.browse_projects(control);
            },
        }
        self.keep(draft);
        DashboardAction::Nothing
    }
}

} // verus!
