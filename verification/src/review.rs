//! What the review of a session shows.

use vstd::prelude::*;

use crate::decimal::decimal_text;
#[allow(unused_imports)]
use crate::decimal::decimal;
use crate::drafts::WizardControl;
use crate::duplicate::{joined, owned, Duplicate};
#[allow(unused_imports)]
use crate::duplicate::{group_views, views};
use crate::mounts::access_marker;
#[allow(unused_imports)]
use crate::mounts::access_label_text;
use crate::records::{
    AdditionalMount, ConversionPreview, QueuedCommand, QueuedCommandKind, QueuedPrompt,
    RemoteRepository, ResourceAllocation, Target, TargetKind,
};
#[allow(unused_imports)]
use crate::records::{
    AdditionalMountView, ConversionPreviewView, QueuedCommandView, QueuedPromptView,
    RemoteRepositoryView, ResourceAllocationView, TargetView,
};
use crate::resources::{resource_allocation_label, target_label};
#[allow(unused_imports)]
use crate::resources::{allocation_label_text, target_label_text};
use crate::screen::{
    add_button, add_line, add_spans, add_text, no_buttons, no_lines, row_count, Button, Checkbox,
    TextLine, Tone,
};
#[allow(unused_imports)]
use crate::screen::{
    followed, labelled, law_followed_lines, line, rows_and, rows_of, span, ButtonView, CheckboxView,
    TextLineView,
};
use crate::text::{is_blank, trim};
#[allow(unused_imports)]
use crate::text::trimmed;

verus! {

/// The choice of a managed worktree.
#[derive(Debug, PartialEq, Eq)]
pub struct WorktreeChoice {
    pub checked: bool,
    pub available: bool,
}

/// What a [`WorktreeChoice`] holds.
#[verifier::ext_equal]
pub struct WorktreeChoiceView {
    pub checked: bool,
    pub available: bool,
}

impl DeepView for WorktreeChoice {
    type V = WorktreeChoiceView;

    open spec fn deep_view(&self) -> WorktreeChoiceView {
        WorktreeChoiceView {
            checked: self.checked.deep_view(),
            available: self.available.deep_view(),
        }
    }
}

impl View for WorktreeChoice {
    type V = WorktreeChoiceView;

    open spec fn view(&self) -> WorktreeChoiceView {
        self.deep_view()
    }
}

/// The choice about queued work.
#[derive(Debug, PartialEq, Eq)]
pub struct QueueChoice {
    pub count: usize,
    pub discard: bool,
}

/// What a [`QueueChoice`] holds.
#[verifier::ext_equal]
pub struct QueueChoiceView {
    pub count: usize,
    pub discard: bool,
}

impl DeepView for QueueChoice {
    type V = QueueChoiceView;

    open spec fn deep_view(&self) -> QueueChoiceView {
        QueueChoiceView {
            count: self.count.deep_view(),
            discard: self.discard.deep_view(),
        }
    }
}

impl View for QueueChoice {
    type V = QueueChoiceView;

    open spec fn view(&self) -> QueueChoiceView {
        self.deep_view()
    }
}

/// What a review is drawn from.
#[derive(Debug, PartialEq, Eq)]
pub struct ReviewPage {
    /// Only a bare project directory has the choice.
    pub worktree: Option<WorktreeChoice>,
    /// Whether delegation is checked; nothing where the choice is not offered.
    pub subagents: Option<bool>,
    pub profile_id: String,
    pub project_label: String,
    pub project: String,
    pub project_note: String,
    pub target: Target,
    pub allocation: Option<ResourceAllocation>,
    pub mounts: Vec<AdditionalMount>,
    pub selected_mount: usize,
    pub title: String,
    pub submit_label: String,
    pub moving: bool,
    pub preparing: bool,
    pub preparation_error: Option<String>,
    pub submit_enabled: bool,
    pub active_interruption: bool,
    /// The prepared move keeps the environment and replaces only the harness
    /// and profile, so the review must not promise a fresh environment.
    pub in_place_move: bool,
    pub source_unavailable: bool,
    pub clear_resource_allocation: bool,
    pub queue: Option<QueueChoice>,
    pub queued_entries: Vec<QueuedPrompt>,
    pub prepared_entries: Vec<QueuedCommand>,
    pub remote_repositories: Option<Vec<RemoteRepository>>,
    pub remote_preflight_in_flight: bool,
    pub remote_preflight_error: Option<String>,
    pub local_changes_excluded: bool,
    /// Present only when a move converts a local checkout into an isolated
    /// workspace, so the review can say what travels before the confirmation.
    pub conversion: Option<ConversionPreview>,
    /// What to warn of when the harness runs unsandboxed.
    pub warning: Option<String>,
}

/// What a [`ReviewPage`] holds.
#[verifier::ext_equal]
pub struct ReviewPageView {
    pub worktree: Option<WorktreeChoiceView>,
    pub subagents: Option<bool>,
    pub profile_id: Seq<char>,
    pub project_label: Seq<char>,
    pub project: Seq<char>,
    pub project_note: Seq<char>,
    pub target: TargetView,
    pub allocation: Option<ResourceAllocationView>,
    pub mounts: Seq<AdditionalMountView>,
    pub selected_mount: usize,
    pub title: Seq<char>,
    pub submit_label: Seq<char>,
    pub moving: bool,
    pub preparing: bool,
    pub preparation_error: Option<Seq<char>>,
    pub submit_enabled: bool,
    pub active_interruption: bool,
    pub in_place_move: bool,
    pub source_unavailable: bool,
    pub clear_resource_allocation: bool,
    pub queue: Option<QueueChoiceView>,
    pub queued_entries: Seq<QueuedPromptView>,
    pub prepared_entries: Seq<QueuedCommandView>,
    pub remote_repositories: Option<Seq<RemoteRepositoryView>>,
    pub remote_preflight_in_flight: bool,
    pub remote_preflight_error: Option<Seq<char>>,
    pub local_changes_excluded: bool,
    pub conversion: Option<ConversionPreviewView>,
    pub warning: Option<Seq<char>>,
}

impl DeepView for ReviewPage {
    type V = ReviewPageView;

    open spec fn deep_view(&self) -> ReviewPageView {
        ReviewPageView {
            worktree: self.worktree.deep_view(),
            subagents: self.subagents.deep_view(),
            profile_id: self.profile_id.deep_view(),
            project_label: self.project_label.deep_view(),
            project: self.project.deep_view(),
            project_note: self.project_note.deep_view(),
            target: self.target.deep_view(),
            allocation: self.allocation.deep_view(),
            mounts: self.mounts.deep_view(),
            selected_mount: self.selected_mount.deep_view(),
            title: self.title.deep_view(),
            submit_label: self.submit_label.deep_view(),
            moving: self.moving.deep_view(),
            preparing: self.preparing.deep_view(),
            preparation_error: self.preparation_error.deep_view(),
            submit_enabled: self.submit_enabled.deep_view(),
            active_interruption: self.active_interruption.deep_view(),
            in_place_move: self.in_place_move.deep_view(),
            source_unavailable: self.source_unavailable.deep_view(),
            clear_resource_allocation: self.clear_resource_allocation.deep_view(),
            queue: self.queue.deep_view(),
            queued_entries: self.queued_entries.deep_view(),
            prepared_entries: self.prepared_entries.deep_view(),
            remote_repositories: self.remote_repositories.deep_view(),
            remote_preflight_in_flight: self.remote_preflight_in_flight.deep_view(),
            remote_preflight_error: self.remote_preflight_error.deep_view(),
            local_changes_excluded: self.local_changes_excluded.deep_view(),
            conversion: self.conversion.deep_view(),
            warning: self.warning.deep_view(),
        }
    }
}

impl View for ReviewPage {
    type V = ReviewPageView;

    open spec fn view(&self) -> ReviewPageView {
        self.deep_view()
    }
}

// --- The summary ---

impl ReviewPageView {
    pub open spec fn can_attach(self) -> bool {
        self.target.template.mount_host is Some
    }

    /// The profile, the project, the target and the size.
    pub open spec fn heading_lines(self) -> Seq<TextLineView> {
        Seq::empty().push(
            TextLineView {
                spans: Seq::empty().push(span("Profile: "@, Tone::Muted)).push(
                    span(self.profile_id, Tone::SecondaryBold),
                ),
            },
        ).push(
            TextLineView {
                spans: Seq::empty().push(span(self.project_label + ": "@, Tone::Muted)).push(
                    span(self.project, Tone::TextBold),
                ).push(span(self.project_note, Tone::Muted)),
            },
        ).push(
            TextLineView {
                spans: Seq::empty().push(span("Target: "@, Tone::Muted)).push(
                    span(self.target.id, Tone::Accent),
                ).push(
                    span(
                        " ("@ + target_label_text(self.target.template.kind) + ")"@,
                        Tone::Muted,
                    ),
                ),
            },
        ).push(
            TextLineView {
                spans: Seq::empty().push(span("Compute:"@, Tone::Muted)).push(
                    span(allocation_label_text(self.allocation, None), Tone::Plain),
                ),
            },
        )
    }

    /// What a move does to what is there.
    pub open spec fn move_effects(self, list: Seq<TextLineView>) -> Seq<TextLineView> {
        let list = if self.moving && self.source_unavailable {
            list.push(
                line(
                    "Source is unavailable; Move will recover its saved data without starting its old harness."@,
                    Tone::Warning,
                ),
            )
        } else {
            list
        };
        let list = if self.moving && self.in_place_move {
            list.push(
                line(
                    "Only the harness and profile are replaced; the environment and workspace are kept."@,
                    Tone::Muted,
                ),
            )
        } else {
            list
        };
        let list = if self.moving && self.active_interruption {
            list.push(
                line(
                    if self.in_place_move {
                        "Active work will be interrupted; the session keeps its environment."@
                    } else {
                        "Active work will be interrupted; the session is restored into a fresh environment."@
                    },
                    Tone::Warning,
                ),
            )
        } else {
            list
        };
        if self.moving && self.active_interruption && self.clear_resource_allocation {
            list.push(
                line(
                    "Fixed/default destination resources will replace the source sizing."@,
                    Tone::Warning,
                ),
            )
        } else {
            list
        }
    }

    /// What a move takes along, and how far its preparation is.
    pub open spec fn move_progress(self, list: Seq<TextLineView>) -> Seq<TextLineView> {
        let list = match self.conversion {
            Some(conversion) => if self.moving {
                followed(
                    list.push(line(conversion.summary, Tone::Plain)),
                    conversion.warnings,
                    warning_line(),
                )
            } else {
                list
            },
            None => list,
        };
        if self.moving && self.preparing {
            list.push(line("Checking move destination…"@, Tone::Muted))
        } else if self.moving {
            match self.preparation_error {
                Some(error) => list.push(
                    line("Move preparation failed: "@ + error, Tone::Error),
                ).push(line("Press Retry to check the destination again."@, Tone::Muted)),
                None => list,
            }
        } else {
            list
        }
    }

    /// How far the checks before a creation are, and what they found.
    pub open spec fn check_lines(self, list: Seq<TextLineView>) -> Seq<TextLineView> {
        if self.remote_preflight_in_flight {
            list.push(line("Checking prerequisites…"@, Tone::Muted))
        } else {
            match (self.remote_preflight_error, self.remote_repositories) {
                (Some(error), _) => list.push(
                    line("Prerequisite check failed: "@ + error, Tone::Error),
                ),
                (None, Some(repositories)) => followed(
                    list.push(
                        line(
                            if self.local_changes_excluded {
                                "Network clone plan (local commits and dirty files excluded):"@
                            } else {
                                "Network clone plan:"@
                            },
                            Tone::Muted,
                        ),
                    ),
                    repositories,
                    repository_line(),
                ),
                (None, None) => list,
            }
        }
    }

    /// A row for the worktree's checkbox and what it means.
    pub open spec fn worktree_lines(self, list: Seq<TextLineView>) -> Seq<TextLineView> {
        match self.worktree {
            Some(choice) => list.push(line(""@, Tone::Plain)).push(
                line(
                    if choice.checked && choice.available {
                        "Create a separate session-owned checkout from the selected checkout's HEAD."@
                    } else {
                        "Use the selected directory directly."@
                    },
                    Tone::Muted,
                ),
            ),
            None => list,
        }
    }

    /// A row for the delegation checkbox and what it means.
    pub open spec fn subagent_lines(self, list: Seq<TextLineView>) -> Seq<TextLineView> {
        match self.subagents {
            Some(checked) => list.push(line(""@, Tone::Plain)).push(
                line(
                    if checked {
                        "Delegation goes to Mjolnir sub-agents that share this session's files."@
                    } else {
                        "Unchecked keeps the harness's own Agent or spawn_agent tools."@
                    },
                    Tone::Muted,
                ),
            ),
            None => list,
        }
    }

    /// Queued work, the warning, the attachments, and the keys.
    pub open spec fn closing_lines(self, list: Seq<TextLineView>) -> Seq<TextLineView> {
        let list = match self.queue {
            Some(queue) => list.push(
                line("Queued prompts: "@ + decimal(queue.count as nat), Tone::Plain),
            ),
            None => list,
        };
        let list = match self.warning {
            Some(warning) => list.push(line("⚠ "@ + warning, Tone::ErrorBold)),
            None => list,
        };
        let list = list.push(line(""@, Tone::Plain));
        if self.can_attach() {
            list.push(
                TextLineView {
                    spans: Seq::empty().push(span("Attached directories: "@, Tone::Muted)).push(
                        span(decimal(self.mounts.len()), Tone::Title),
                    ),
                },
            ).push(
                line(
                    "Tab moves focus · Enter edits selected directory · Delete removes it"@,
                    Tone::Muted,
                ),
            )
        } else {
            list.push(line("Tab moves focus · Enter activates"@, Tone::Muted))
        }
    }

    /// The lines above the row of the worktree's checkbox.
    pub open spec fn before_choices(self) -> Seq<TextLineView> {
        self.check_lines(self.move_progress(self.move_effects(self.heading_lines())))
    }

    /// All lines of the summary.
    pub open spec fn summary(self) -> Seq<TextLineView> {
        self.closing_lines(self.subagent_lines(self.worktree_lines(self.before_choices())))
    }
}

pub open spec fn warning_line() -> spec_fn(int, Seq<char>) -> TextLineView {
    |i: int, warning: Seq<char>| line(warning, Tone::Warning)
}

/// Texts with a comma between two.
pub open spec fn comma_list(texts: Seq<Seq<char>>) -> Seq<char>
    decreases texts.len(),
{
    if texts.len() == 0 {
        seq![]
    } else if texts.len() == 1 {
        texts[0]
    } else {
        comma_list(texts.drop_last()) + ", "@ + texts.last()
    }
}

/// Where a repository is fetched from and pushed to.
pub open spec fn repository_text(repository: RemoteRepositoryView) -> Seq<char> {
    "  "@ + repository.repository_id + ": fetch "@ + repository.fetch_url + " @ "@
        + repository.default_branch + "; push "@ + if repository.push_urls.len() == 0 {
        "none"@
    } else {
        comma_list(repository.push_urls)
    }
}

pub open spec fn repository_line() -> spec_fn(int, RemoteRepositoryView) -> TextLineView {
    |i: int, repository: RemoteRepositoryView| line(repository_text(repository), Tone::Plain)
}

fn comma_text(texts: &Vec<String>) -> (text: String)
    ensures
        text@ == comma_list(texts.deep_view()),
{
    broadcast use group_views;

    let ghost all = texts.deep_view();
    let mut text = String::new();
    let mut i: usize = 0;
    assert(all.take(0) =~= Seq::empty());
    while i < texts.len()
        invariant
            i <= texts.len(),
            all == texts.deep_view(),
            all == views(texts@),
            text@ == comma_list(all.take(i as int)),
        decreases texts.len() - i,
    {
        proof {
            assert(all[i as int] == texts@[i as int]@);
            assert(all.take(i + 1).drop_last() =~= all.take(i as int));
            assert(all.take(i + 1).last() == all[i as int]);
        }
        if i == 0 {
            text = texts[i].duplicate();
        } else {
            text.append(", ");
            text.append(texts[i].as_str());
        }
        i = i + 1;
    }
    assert(all.take(all.len() as int) =~= all);
    text
}

fn repository_plan(repository: &RemoteRepository) -> (text: String)
    ensures
        text@ == repository_text(repository@),
{
    broadcast use group_views;

    let mut text = joined("  ", repository.repository_id.as_str());
    text.append(": fetch ");
    text.append(repository.fetch_url.as_str());
    text.append(" @ ");
    text.append(repository.default_branch.as_str());
    text.append("; push ");
    if repository.push_urls.len() == 0 {
        text.append("none");
    } else {
        text.append(comma_text(&repository.push_urls).as_str());
    }
    text
}

impl ReviewPage {
    pub(crate) fn attaches(&self) -> (r: bool)
        ensures
            r == self@.can_attach(),
    {
        self.target.template.mount_host.is_some()
    }

    fn heading(&self) -> (list: Vec<TextLine>)
        ensures
            list.deep_view() == self@.heading_lines(),
    {
        let mut list = no_lines();
        let mut profile = TextLine::new();
        profile.add_span(owned("Profile: "), Tone::Muted);
        profile.add_span(self.profile_id.duplicate(), Tone::SecondaryBold);
        add_spans(&mut list, profile);
        let mut project = TextLine::new();
        project.add_span(joined(self.project_label.as_str(), ": "), Tone::Muted);
        project.add_span(self.project.duplicate(), Tone::TextBold);
        project.add_span(self.project_note.duplicate(), Tone::Muted);
        add_spans(&mut list, project);
        let mut kind = joined(" (", target_label(self.target.template.kind));
        kind.append(")");
        let mut target = TextLine::new();
        target.add_span(owned("Target: "), Tone::Muted);
        target.add_span(self.target.id.duplicate(), Tone::Accent);
        target.add_span(kind, Tone::Muted);
        add_spans(&mut list, target);
        let mut compute = TextLine::new();
        compute.add_span(owned("Compute:"), Tone::Muted);
        compute.add_span(resource_allocation_label(&self.allocation, None), Tone::Plain);
        add_spans(&mut list, compute);
        list
    }

    fn add_move_effects(&self, list: &mut Vec<TextLine>)
        ensures
            final(list).deep_view() == self@.move_effects(old(list).deep_view()),
    {
        if self.moving && self.source_unavailable {
            add_text(
                list,
                "Source is unavailable; Move will recover its saved data without starting its old harness.",
                Tone::Warning,
            );
        }
        if self.moving && self.in_place_move {
            add_text(
                list,
                "Only the harness and profile are replaced; the environment and workspace are kept.",
                Tone::Muted,
            );
        }
        if self.moving && self.active_interruption {
            add_text(
                list,
                if self.in_place_move {
                    "Active work will be interrupted; the session keeps its environment."
                } else {
                    "Active work will be interrupted; the session is restored into a fresh environment."
                },
                Tone::Warning,
            );
            if self.clear_resource_allocation {
                add_text(
                    list,
                    "Fixed/default destination resources will replace the source sizing.",
                    Tone::Warning,
                );
            }
        }
    }

    fn add_warnings(list: &mut Vec<TextLine>, warnings: &Vec<String>)
        ensures
            final(list).deep_view() == followed(
                old(list).deep_view(),
                warnings.deep_view(),
                warning_line(),
            ),
    {
        broadcast use group_views;

        let ghost start = list.deep_view();
        let ghost all = warnings.deep_view();
        let ghost shown = warning_line();
        let mut i: usize = 0;
        assert(all.take(0) =~= Seq::empty());
        while i < warnings.len()
            invariant
                i <= warnings.len(),
                all == warnings.deep_view(),
                all == views(warnings@),
                shown == warning_line(),
                list.deep_view() == followed(start, all.take(i as int), shown),
            decreases warnings.len() - i,
        {
            proof {
                assert(all[i as int] == warnings@[i as int]@);
                assert(all.take(i + 1).drop_last() =~= all.take(i as int));
                assert(all.take(i + 1).last() == all[i as int]);
            }
            add_line(list, warnings[i].duplicate(), Tone::Warning);
            i = i + 1;
        }
        assert(all.take(all.len() as int) =~= all);
    }

    fn add_repositories(list: &mut Vec<TextLine>, repositories: &Vec<RemoteRepository>)
        ensures
            final(list).deep_view() == followed(
                old(list).deep_view(),
                repositories.deep_view(),
                repository_line(),
            ),
    {
        broadcast use group_views;

        let ghost start = list.deep_view();
        let ghost all = repositories.deep_view();
        let ghost shown = repository_line();
        let mut i: usize = 0;
        assert(all.take(0) =~= Seq::empty());
        while i < repositories.len()
            invariant
                i <= repositories.len(),
                all == repositories.deep_view(),
                all == views(repositories@),
                shown == repository_line(),
                list.deep_view() == followed(start, all.take(i as int), shown),
            decreases repositories.len() - i,
        {
            proof {
                assert(all[i as int] == repositories@[i as int]@);
                assert(all.take(i + 1).drop_last() =~= all.take(i as int));
                assert(all.take(i + 1).last() == all[i as int]);
            }
            add_line(list, repository_plan(&repositories[i]), Tone::Plain);
            i = i + 1;
        }
        assert(all.take(all.len() as int) =~= all);
    }

    fn add_move_progress(&self, list: &mut Vec<TextLine>)
        ensures
            final(list).deep_view() == self@.move_progress(old(list).deep_view()),
    {
        if let Some(conversion) = &self.conversion {
            if self.moving {
                add_line(list, conversion.summary.duplicate(), Tone::Plain);
                ReviewPage::add_warnings(list, &conversion.warnings);
            }
        }
        if self.moving && self.preparing {
            add_text(list, "Checking move destination…", Tone::Muted);
        } else if self.moving {
            if let Some(error) = &self.preparation_error {
                add_line(list, joined("Move preparation failed: ", error.as_str()), Tone::Error);
                add_text(list, "Press Retry to check the destination again.", Tone::Muted);
            }
        }
    }

    fn add_checks(&self, list: &mut Vec<TextLine>)
        ensures
            final(list).deep_view() == self@.check_lines(old(list).deep_view()),
    {
        if self.remote_preflight_in_flight {
            add_text(list, "Checking prerequisites…", Tone::Muted);
        } else if let Some(error) = &self.remote_preflight_error {
            add_line(list, joined("Prerequisite check failed: ", error.as_str()), Tone::Error);
        } else if let Some(repositories) = &self.remote_repositories {
            add_text(
                list,
                if self.local_changes_excluded {
                    "Network clone plan (local commits and dirty files excluded):"
                } else {
                    "Network clone plan:"
                },
                Tone::Muted,
            );
            ReviewPage::add_repositories(list, repositories);
        }
    }

    fn add_worktree(&self, list: &mut Vec<TextLine>)
        ensures
            final(list).deep_view() == self@.worktree_lines(old(list).deep_view()),
    {
        if let Some(choice) = &self.worktree {
            add_text(list, "", Tone::Plain);
            add_text(
                list,
                if choice.checked && choice.available {
                    "Create a separate session-owned checkout from the selected checkout's HEAD."
                } else {
                    "Use the selected directory directly."
                },
                Tone::Muted,
            );
        }
    }

    fn add_subagents(&self, list: &mut Vec<TextLine>)
        ensures
            final(list).deep_view() == self@.subagent_lines(old(list).deep_view()),
    {
        if let Some(checked) = self.subagents {
            add_text(list, "", Tone::Plain);
            add_text(
                list,
                if checked {
                    "Delegation goes to Mjolnir sub-agents that share this session's files."
                } else {
                    "Unchecked keeps the harness's own Agent or spawn_agent tools."
                },
                Tone::Muted,
            );
        }
    }

    fn add_closing(&self, list: &mut Vec<TextLine>)
        ensures
            final(list).deep_view() == self@.closing_lines(old(list).deep_view()),
    {
        if let Some(queue) = &self.queue {
            add_line(
                list,
                joined("Queued prompts: ", decimal_text(queue.count as u128).as_str()),
                Tone::Plain,
            );
        }
        if let Some(warning) = &self.warning {
            add_line(list, joined("⚠ ", warning.as_str()), Tone::ErrorBold);
        }
        add_text(list, "", Tone::Plain);
        if self.attaches() {
            let count = self.mount_count();
            let mut attached = TextLine::new();
            attached.add_span(owned("Attached directories: "), Tone::Muted);
            attached.add_span(decimal_text(count as u128), Tone::Title);
            add_spans(list, attached);
            add_text(
                list,
                "Tab moves focus · Enter edits selected directory · Delete removes it",
                Tone::Muted,
            );
        } else {
            add_text(list, "Tab moves focus · Enter activates", Tone::Muted);
        }
    }

    fn mount_count(&self) -> (count: usize)
        ensures
            count == self@.mounts.len(),
    {
        broadcast use group_views;

        self.mounts.len()
    }
}

// --- Queued work ---

/// The text on one line.
pub open spec fn on_one_line(text: Seq<char>) -> Seq<char> {
    Seq::new(
        text.len(),
        |i: int|
            if text[i] == '\n' {
                ' '
            } else {
                text[i]
            },
    )
}

fn one_line(text: &str) -> (flat: String)
    ensures
        flat@ == on_one_line(text@),
{
    let len = text.unicode_len();
    let mut flat = String::new();
    let mut i: usize = 0;
    proof {
        reveal_strlit(" ");
    }
    assert(" "@ =~= seq![' ']);
    while i < len
        invariant
            i <= len == text@.len(),
            " "@ == seq![' '],
            flat@ == on_one_line(text@).take(i as int),
        decreases len - i,
    {
        if text.get_char(i) == '\n' {
            flat.append(" ");
        } else {
            flat.append(text.substring_char(i, i + 1));
        }
        i = i + 1;
        assert(flat@ =~= on_one_line(text@).take(i as int));
    }
    assert(flat@ =~= on_one_line(text@));
    flat
}

/// A row of queued work: its number, its text, which is cut to the width, and a
/// note behind it.
#[derive(Debug, PartialEq, Eq)]
pub struct QueueRow {
    pub number: String,
    pub text: String,
    pub note: String,
}

/// What a [`QueueRow`] holds.
#[verifier::ext_equal]
pub struct QueueRowView {
    pub number: Seq<char>,
    pub text: Seq<char>,
    pub note: Seq<char>,
}

impl DeepView for QueueRow {
    type V = QueueRowView;

    open spec fn deep_view(&self) -> QueueRowView {
        QueueRowView {
            number: self.number.deep_view(),
            text: self.text.deep_view(),
            note: self.note.deep_view(),
        }
    }
}

impl View for QueueRow {
    type V = QueueRowView;

    open spec fn view(&self) -> QueueRowView {
        self.deep_view()
    }
}

/// The number in front of a row.
pub open spec fn row_number(row: nat) -> Seq<char> {
    "  "@ + decimal(row + 1) + ". "@
}

/// What a queued prompt is shown as.
pub open spec fn prompt_row(row: nat, prompt: QueuedPromptView) -> QueueRowView {
    QueueRowView {
        number: row_number(row),
        text: if trimmed(prompt.text).len() == 0 {
            "[empty command]"@
        } else {
            on_one_line(prompt.text)
        },
        note: if prompt.attachments == 0 {
            ""@
        } else if prompt.attachments == 1 {
            " · 1 attachment"@
        } else {
            " · "@ + decimal(prompt.attachments as nat) + " attachments"@
        },
    }
}

pub open spec fn command_kind(kind: QueuedCommandKind) -> Seq<char> {
    match kind {
        QueuedCommandKind::Prompt => "prompt"@,
        QueuedCommandKind::SetConfig => "config"@,
    }
}

/// What a command is shown as that a move would carry over.
pub open spec fn command_row(row: nat, command: QueuedCommandView) -> QueueRowView {
    QueueRowView {
        number: row_number(row),
        text: if trimmed(command.text).len() == 0 {
            "["@ + command_kind(command.kind) + "]"@
        } else {
            command_kind(command.kind) + ": "@ + on_one_line(command.text)
        },
        note: ""@,
    }
}

impl ReviewPageView {
    /// The rows of queued work: first the prompts, then what a move would
    /// carry over.
    pub open spec fn queue_rows(self) -> Seq<QueueRowView> {
        Seq::new(
            self.queued_entries.len() + self.prepared_entries.len(),
            |i: int|
                if i < self.queued_entries.len() {
                    prompt_row(i as nat, self.queued_entries[i])
                } else {
                    command_row(i as nat, self.prepared_entries[i - self.queued_entries.len()])
                },
        )
    }

    /// What the checkbox about queued work says.
    pub open spec fn queue_label(self, queue: QueueChoiceView) -> Seq<char> {
        (if queue.discard {
            "Discard"@
        } else {
            "Start"@
        }) + " "@ + decimal(queue.count as nat) + " queued command"@ + (if queue.count == 1 {
            ""@
        } else {
            "s"@
        }) + " "@ + (if self.moving {
            "after move"@
        } else {
            "on resume"@
        })
    }
}

fn number_text(row: usize) -> (text: String)
    ensures
        text@ == row_number(row as nat),
{
    let mut text = joined("  ", decimal_text(row as u128 + 1).as_str());
    text.append(". ");
    text
}

fn show_prompt(row: usize, prompt: &QueuedPrompt) -> (shown: QueueRow)
    ensures
        shown@ == prompt_row(row as nat, prompt@),
{
    let text = if is_blank(prompt.text.as_str()) {
        owned("[empty command]")
    } else {
        one_line(prompt.text.as_str())
    };
    let note = if prompt.attachments == 0 {
        owned("")
    } else if prompt.attachments == 1 {
        owned(" · 1 attachment")
    } else {
        let mut note = joined(" · ", decimal_text(prompt.attachments as u128).as_str());
        note.append(" attachments");
        note
    };
    QueueRow { number: number_text(row), text, note }
}

fn show_command(row: usize, command: &QueuedCommand) -> (shown: QueueRow)
    ensures
        shown@ == command_row(row as nat, command@),
{
    let kind = match command.kind {
        QueuedCommandKind::Prompt => "prompt",
        QueuedCommandKind::SetConfig => "config",
    };
    let text = if is_blank(command.text.as_str()) {
        let mut text = joined("[", kind);
        text.append("]");
        text
    } else {
        let mut text = joined(kind, ": ");
        text.append(one_line(command.text.as_str()).as_str());
        text
    };
    QueueRow { number: number_text(row), text, note: owned("") }
}

impl ReviewPage {
    fn show_queue(&self) -> (rows: Vec<QueueRow>)
        requires
            self@.queued_entries.len() + self@.prepared_entries.len() <= usize::MAX,
        ensures
            rows.deep_view() == self@.queue_rows(),
    {
        broadcast use group_views;

        let ghost goal = self@.queue_rows();
        let ghost prompts = self@.queued_entries;
        let ghost commands = self@.prepared_entries;
        let mut rows: Vec<QueueRow> = Vec::new();
        let mut i: usize = 0;
        while i < self.queued_entries.len()
            invariant
                i <= self.queued_entries.len(),
                prompts == views(self.queued_entries@),
                prompts == self@.queued_entries,
                goal == self@.queue_rows(),
                rows.len() == i,
                forall|j: int| 0 <= j < i ==> (#[trigger] rows@[j])@ == goal[j],
            decreases self.queued_entries.len() - i,
        {
            assert(prompts[i as int] == self.queued_entries@[i as int]@);
            rows.push(show_prompt(i, &self.queued_entries[i]));
            i = i + 1;
        }
        let first = self.queued_entries.len();
        let mut j: usize = 0;
        while j < self.prepared_entries.len()
            invariant
                j <= self.prepared_entries.len(),
                first == self@.queued_entries.len(),
                first + self.prepared_entries.len() <= usize::MAX,
                commands == views(self.prepared_entries@),
                commands == self@.prepared_entries,
                goal == self@.queue_rows(),
                rows.len() == first + j,
                forall|k: int| 0 <= k < first + j ==> (#[trigger] rows@[k])@ == goal[k],
            decreases self.prepared_entries.len() - j,
        {
            assert(commands[j as int] == self.prepared_entries@[j as int]@);
            rows.push(show_command(first + j, &self.prepared_entries[j]));
            j = j + 1;
        }
        rows
    }

    fn queue_text(&self, queue: &QueueChoice) -> (text: String)
        ensures
            text@ == self@.queue_label(queue@),
    {
        let mut text = owned(
            if queue.discard {
                "Discard"
            } else {
                "Start"
            },
        );
        text.append(" ");
        text.append(decimal_text(queue.count as u128).as_str());
        text.append(" queued command");
        text.append(
            if queue.count == 1 {
                ""
            } else {
                "s"
            },
        );
        text.append(" ");
        text.append(
            if self.moving {
                "after move"
            } else {
                "on resume"
            },
        );
        text
    }
}

// --- The whole review ---

/// What an attached directory is shown as.
pub open spec fn mount_text(mount: AdditionalMountView) -> Seq<char> {
    mount.source + " → "@ + mount.destination + (" · "@ + access_label_text(mount.access))
}

/// What an attached directory is shown as.
pub fn mount_label(mount: &AdditionalMount) -> (text: String)
    ensures
        text@ == mount_text(mount@),
{
    let mut text = joined(mount.source.as_str(), " → ");
    text.append(mount.destination.as_str());
    text.append(access_marker(mount.access).as_str());
    text
}

pub open spec fn mount_line() -> spec_fn(int, AdditionalMountView) -> TextLineView {
    |i: int, mount: AdditionalMountView| line(mount_text(mount), Tone::Plain)
}

/// What a review shows.
#[derive(Debug, PartialEq, Eq)]
pub struct ReviewScreen {
    pub title: String,
    /// Rows of the popup.
    pub height: u16,
    pub lines: Vec<TextLine>,
    pub attachments: Vec<TextLine>,
    pub worktree: Option<Checkbox>,
    pub subagents: Option<Checkbox>,
    pub queue: Option<Checkbox>,
    pub queue_rows: Vec<QueueRow>,
    pub summary_height: u16,
    pub list_height: u16,
    pub total_height: u16,
    /// The row that has to be seen.
    pub focused_row: Option<u16>,
    pub buttons: Vec<Button>,
}

/// What a [`ReviewScreen`] holds.
#[verifier::ext_equal]
pub struct ReviewScreenView {
    pub title: Seq<char>,
    pub height: u16,
    pub lines: Seq<TextLineView>,
    pub attachments: Seq<TextLineView>,
    pub worktree: Option<CheckboxView>,
    pub subagents: Option<CheckboxView>,
    pub queue: Option<CheckboxView>,
    pub queue_rows: Seq<QueueRowView>,
    pub summary_height: u16,
    pub list_height: u16,
    pub total_height: u16,
    pub focused_row: Option<u16>,
    pub buttons: Seq<ButtonView>,
}

impl DeepView for ReviewScreen {
    type V = ReviewScreenView;

    open spec fn deep_view(&self) -> ReviewScreenView {
        ReviewScreenView {
            title: self.title.deep_view(),
            height: self.height.deep_view(),
            lines: self.lines.deep_view(),
            attachments: self.attachments.deep_view(),
            worktree: self.worktree.deep_view(),
            subagents: self.subagents.deep_view(),
            queue: self.queue.deep_view(),
            queue_rows: self.queue_rows.deep_view(),
            summary_height: self.summary_height.deep_view(),
            list_height: self.list_height.deep_view(),
            total_height: self.total_height.deep_view(),
            focused_row: self.focused_row.deep_view(),
            buttons: self.buttons.deep_view(),
        }
    }
}

impl View for ReviewScreen {
    type V = ReviewScreenView;

    open spec fn view(&self) -> ReviewScreenView {
        self.deep_view()
    }
}

impl ReviewPageView {
    pub open spec fn worktree_row(self) -> Option<u16> {
        match self.worktree {
            Some(_) => Some((self.before_choices().len() % 65536) as u16),
            None => None,
        }
    }

    pub open spec fn subagent_row(self) -> Option<u16> {
        match self.subagents {
            Some(_) => Some(
                (self.worktree_lines(self.before_choices()).len() % 65536) as u16,
            ),
            None => None,
        }
    }

    /// The choice to make a managed worktree, which counts as taken only
    /// where one can be made.
    pub open spec fn worktree_box(self) -> Option<CheckboxView> {
        match (self.worktree, self.worktree_row()) {
            (Some(choice), Some(row)) => Some(
                CheckboxView {
                    row,
                    label: "Create managed worktree"@,
                    checked: choice.checked && choice.available,
                    enabled: choice.available,
                },
            ),
            _ => None,
        }
    }

    pub open spec fn subagent_box(self) -> Option<CheckboxView> {
        match (self.subagents, self.subagent_row()) {
            (Some(checked), Some(row)) => Some(
                CheckboxView { row, label: "Use Mjolnir sub-agents"@, checked, enabled: true },
            ),
            _ => None,
        }
    }

    pub open spec fn queue_box(self) -> Option<CheckboxView> {
        match self.queue {
            Some(queue) => Some(
                CheckboxView {
                    row: rows_and(self.summary_height(), self.list_height()) as u16,
                    label: self.queue_label(queue),
                    checked: queue.discard,
                    enabled: true,
                },
            ),
            None => None,
        }
    }

    pub open spec fn summary_height(self) -> nat {
        rows_of(self.summary().len())
    }

    pub open spec fn list_height(self) -> nat {
        if self.can_attach() {
            rows_of(self.mounts.len())
        } else {
            0
        }
    }

    pub open spec fn queue_height(self) -> nat {
        match self.queue {
            Some(_) => rows_and(
                1,
                rows_of(self.queued_entries.len() + self.prepared_entries.len()),
            ),
            None => 0,
        }
    }

    pub open spec fn total_height(self) -> nat {
        rows_and(rows_and(self.summary_height(), self.list_height()), self.queue_height())
    }

    /// Rows of the popup, within limits.
    pub open spec fn popup_height(self) -> nat {
        let shown = if self.total_height() > 16 {
            16
        } else {
            self.total_height()
        };
        if shown + 3 < 13 {
            13
        } else {
            shown + 3
        }
    }

    /// The selected attachment, or the last where there are fewer.
    pub open spec fn attachment_row(self) -> nat {
        if self.mounts.len() == 0 {
            0
        } else if self.selected_mount > self.mounts.len() - 1 {
            (self.mounts.len() - 1) as nat
        } else {
            self.selected_mount as nat
        }
    }

    /// The row that has to be seen for the control with the focus.
    pub open spec fn focused_row(self, focused: Option<WizardControl>) -> Option<u16> {
        match focused {
            Some(WizardControl::CreateManagedWorktree) => self.worktree_row(),
            Some(WizardControl::MjolnirSubagents) => self.subagent_row(),
            Some(WizardControl::ReviewAttachments) => Some(
                rows_and(self.summary_height(), self.attachment_row() % 65536) as u16,
            ),
            Some(WizardControl::DiscardQueue) => Some(
                rows_and(self.summary_height(), self.list_height()) as u16,
            ),
            _ => None,
        }
    }

    /// The review can be submitted: the checks that it needs are done, and an
    /// instance has its size.
    pub open spec fn can_submit(self) -> bool {
        &&& self.submit_enabled
        &&& !self.remote_preflight_in_flight
        &&& self.remote_repositories is Some || !self.local_changes_excluded
            || self.remote_preflight_error is Some
        &&& self.allocation is Some || self.target.template.kind != TargetKind::AwsEc2
    }

    pub open spec fn buttons(self) -> Seq<ButtonView> {
        let list = Seq::empty().push(labelled(WizardControl::Cancel, "Cancel"@, true)).push(
            labelled(WizardControl::Back, "Back"@, true),
        );
        let list = if self.can_attach() {
            list.push(labelled(WizardControl::Add, "Add directory…"@, true))
        } else {
            list
        };
        list.push(labelled(WizardControl::Submit, self.submit_label, self.can_submit()))
    }

    pub open spec fn screen(self, focused: Option<WizardControl>) -> ReviewScreenView {
        ReviewScreenView {
            title: trimmed(self.title),
            height: self.popup_height() as u16,
            lines: self.summary(),
            attachments: if self.can_attach() {
                followed(Seq::empty(), self.mounts, mount_line())
            } else {
                Seq::empty()
            },
            worktree: self.worktree_box(),
            subagents: self.subagent_box(),
            queue: self.queue_box(),
            queue_rows: match self.queue {
                Some(_) => self.queue_rows(),
                None => Seq::empty(),
            },
            summary_height: self.summary_height() as u16,
            list_height: self.list_height() as u16,
            total_height: self.total_height() as u16,
            focused_row: self.focused_row(focused),
            buttons: self.buttons(),
        }
    }
}

/// A review begins with the profile, the project, the target and the size.
pub proof fn law_summary_names_choices(page: ReviewPageView)
    ensures
        ({
            let lines = page.heading_lines();
            &&& lines.len() == 4
            &&& lines[0].spans[1].text == page.profile_id
            &&& lines[1].spans[0].text == page.project_label + ": "@
            &&& lines[1].spans[1].text == page.project
            &&& lines[2].spans[1].text == page.target.id
            &&& lines[3].spans[1].text == allocation_label_text(page.allocation, None)
        }),
{
}

/// Every attached directory is listed, in its place, as where it comes from,
/// where it goes and how it may be used.
pub proof fn law_attachments_listed(page: ReviewPageView, focused: Option<WizardControl>, i: int)
    requires
        page.target.template.mount_host is Some,
        0 <= i < page.mounts.len(),
    ensures
        ({
            let rows = page.screen(focused).attachments;
            let mount = page.mounts[i];
            &&& rows.len() == page.mounts.len()
            &&& rows[i].spans.len() == 1
            &&& rows[i].spans[0].text == mount.source + " → "@ + mount.destination + " · "@
                + access_label_text(mount.access)
        }),
{
    law_followed_lines(Seq::empty(), page.mounts, mount_line(), i);
    let mount = page.mounts[i];
    assert(mount_text(mount) =~= mount.source + " → "@ + mount.destination + " · "@
        + access_label_text(mount.access));
}

/// Nothing is listed where nothing can be attached, and the button that adds
/// is offered only where something can.
pub proof fn law_attaching_offered_where_possible(
    page: ReviewPageView,
    focused: Option<WizardControl>,
)
    ensures
        page.target.template.mount_host is None ==> page.screen(focused).attachments.len() == 0
            && page.buttons().len() == 3,
        page.target.template.mount_host is Some ==> page.buttons().len() == 4 && page.buttons()[2].control
            == WizardControl::Add && page.buttons()[2].enabled,
        page.buttons()[0].control == WizardControl::Cancel && page.buttons()[0].enabled,
        page.buttons()[1].control == WizardControl::Back && page.buttons()[1].enabled,
        page.buttons().last().control == WizardControl::Submit,
        page.buttons().last().label == page.submit_label,
{
}

/// A review is submitted exactly where its checks have ended and an instance
/// has its size.
pub proof fn law_review_submitted_when_checked(page: ReviewPageView)
    ensures
        page.buttons().last().enabled <==> {
            &&& page.submit_enabled
            &&& !page.remote_preflight_in_flight
            &&& page.local_changes_excluded ==> page.remote_repositories is Some
                || page.remote_preflight_error is Some
            &&& page.target.template.kind == TargetKind::AwsEc2 ==> page.allocation is Some
        },
{
}

/// A completed check lists every repository that will be cloned, in its order,
/// with where it is fetched from and where it is pushed to.
pub proof fn law_clone_plan_listed(
    page: ReviewPageView,
    list: Seq<TextLineView>,
    repositories: Seq<RemoteRepositoryView>,
    i: int,
)
    requires
        page.remote_repositories == Some(repositories),
        page.remote_preflight_error is None,
        !page.remote_preflight_in_flight,
        0 <= i < repositories.len(),
    ensures
        ({
            let lines = page.check_lines(list);
            let repository = repositories[i];
            let text = lines[list.len() + 1 + i].spans[0].text;
            let start = "  "@ + repository.repository_id + ": fetch "@ + repository.fetch_url + " @ "@
                + repository.default_branch + "; push "@;
            &&& lines.len() == list.len() + 1 + repositories.len()
            &&& start.is_prefix_of(text)
            &&& repository.push_urls.len() == 0 ==> text == start + "none"@
            &&& repository.push_urls.len() == 1 ==> text == start + repository.push_urls[0]
        }),
{
    let lead = list.push(
        line(
            if page.local_changes_excluded {
                "Network clone plan (local commits and dirty files excluded):"@
            } else {
                "Network clone plan:"@
            },
            Tone::Muted,
        ),
    );
    law_followed_lines(lead, repositories, repository_line(), i);
    let repository = repositories[i];
    let start = "  "@ + repository.repository_id + ": fetch "@ + repository.fetch_url + " @ "@
        + repository.default_branch + "; push "@;
    assert(repository_text(repository).take(start.len() as int) =~= start);
}

/// A comma stands between two texts, and nowhere else is anything added.
pub proof fn law_comma_between(texts: Seq<Seq<char>>, next: Seq<char>)
    ensures
        comma_list(seq![next]) == next,
        texts.len() > 0 ==> comma_list(texts.push(next)) == comma_list(texts) + ", "@ + next,
{
    assert(texts.push(next).drop_last() =~= texts);
}

/// What a check is at is told: that it runs, or why it failed.
pub proof fn law_check_told(page: ReviewPageView, list: Seq<TextLineView>)
    ensures
        ({
            let lines = page.check_lines(list);
            &&& page.remote_preflight_in_flight ==> lines == list.push(
                line("Checking prerequisites…"@, Tone::Muted),
            )
            &&& !page.remote_preflight_in_flight ==> (
            page.remote_preflight_error matches Some(error) ==> lines == list.push(
                line("Prerequisite check failed: "@ + error, Tone::Error),
            ))
        }),
{
}

/// What a move does to what is there is told of a move alone: that its source
/// is gone, that it stays in place, and that running work ends.
pub proof fn law_move_effects_told(page: ReviewPageView, list: Seq<TextLineView>)
    ensures
        !page.moving ==> page.move_effects(list) == list && (page.conversion is None
            ==> page.move_progress(list) == list),
        page.moving ==> page.move_effects(list).len() == list.len() + (if page.source_unavailable {
            1int
        } else {
            0
        }) + (if page.in_place_move {
            1int
        } else {
            0
        }) + (if page.active_interruption {
            1int
        } else {
            0
        }) + (if page.active_interruption && page.clear_resource_allocation {
            1int
        } else {
            0
        }),
        page.moving && page.preparing && page.conversion is None ==> page.move_progress(list)
            == list.push(line("Checking move destination…"@, Tone::Muted)),
{
}

/// The worktree's box is checked where one was asked for and can be made, and
/// can be used only where one can be made.
pub proof fn law_choice_boxes(page: ReviewPageView)
    ensures
        page.worktree matches Some(choice) ==> (page.worktree_box() matches Some(shown)
            && shown.checked == (choice.checked && choice.available) && shown.enabled
            == choice.available),
        page.worktree is None ==> page.worktree_box() is None,
        page.subagents matches Some(checked) ==> (page.subagent_box() matches Some(shown)
            && shown.checked == checked && shown.enabled),
        page.subagents is None ==> page.subagent_box() is None,
{
}

/// The row that is kept in sight is that of the control with the focus: a
/// checkbox, or the selected attachment.
pub proof fn law_focused_row_seen(page: ReviewPageView)
    requires
        page.total_height() < 65535,
        page.target.template.mount_host is Some,
        page.selected_mount < page.mounts.len(),
    ensures
        page.focused_row(Some(WizardControl::ReviewAttachments)) == Some(
            (page.summary().len() + page.selected_mount) as u16,
        ),
        page.focused_row(Some(WizardControl::CreateManagedWorktree)) == page.worktree_row(),
        page.focused_row(Some(WizardControl::MjolnirSubagents)) == page.subagent_row(),
        page.focused_row(Some(WizardControl::DiscardQueue)) == Some(
            (page.summary().len() + page.mounts.len()) as u16,
        ),
        page.focused_row(None) is None,
{
}

/// A text put on one line keeps its characters but for the ends of lines, which
/// become blanks.
pub proof fn law_one_line(text: Seq<char>, i: int)
    requires
        0 <= i < text.len(),
    ensures
        on_one_line(text).len() == text.len(),
        on_one_line(text)[i] != '\n',
        text[i] != '\n' ==> on_one_line(text)[i] == text[i],
        text[i] == '\n' ==> on_one_line(text)[i] == ' ',
{
}

/// Queued work is listed whole and in its order, numbered from one: what waits
/// first, and then what a move carries over.
pub proof fn law_queue_listed(page: ReviewPageView, i: int)
    requires
        0 <= i < page.queued_entries.len() + page.prepared_entries.len(),
    ensures
        ({
            let rows = page.queue_rows();
            let waiting = page.queued_entries.len();
            &&& rows.len() == waiting + page.prepared_entries.len()
            &&& rows[i].number == "  "@ + decimal((i + 1) as nat) + ". "@
            &&& i < waiting && trimmed(page.queued_entries[i].text).len() > 0 ==> rows[i].text
                == on_one_line(page.queued_entries[i].text)
            &&& i >= waiting && trimmed(page.prepared_entries[i - waiting].text).len() > 0
                ==> on_one_line(page.prepared_entries[i - waiting].text).is_suffix_of(rows[i].text)
        }),
{
    let waiting = page.queued_entries.len();
    if i >= waiting {
        let command = page.prepared_entries[i - waiting];
        let kind = command_kind(command.kind) + ": "@;
        let shown = on_one_line(command.text);
        assert(shown.is_suffix_of(kind + shown));
    }
}

/// The checkbox says what becomes of queued work: it is dropped where it is
/// checked, and started where it is not.
pub proof fn law_queue_box_tells(page: ReviewPageView, queue: QueueChoiceView)
    requires
        page.queue == Some(queue),
    ensures
        page.queue_box() matches Some(shown) && {
            &&& shown.checked == queue.discard && shown.enabled
            &&& queue.discard ==> "Discard "@.is_prefix_of(shown.label)
            &&& !queue.discard ==> "Start "@.is_prefix_of(shown.label)
            &&& page.moving ==> "after move"@.is_suffix_of(shown.label)
            &&& !page.moving ==> "on resume"@.is_suffix_of(shown.label)
        },
{
    reveal_strlit("Discard");
    reveal_strlit("Discard ");
    reveal_strlit("Start");
    reveal_strlit("Start ");
    reveal_strlit(" ");
    let label = page.queue_label(queue);
    let start = if queue.discard {
        "Discard"@
    } else {
        "Start"@
    };
    let first = if queue.discard {
        "Discard "@
    } else {
        "Start "@
    };
    assert(start + " "@ =~= first);
    assert(label.take(first.len() as int) =~= first);
    let end = if page.moving {
        "after move"@
    } else {
        "on resume"@
    };
    assert(end.is_suffix_of(label));
}

/// A review is between 13 and 19 rows high, and has room for everything in
/// between.
pub proof fn law_review_height(page: ReviewPageView)
    ensures
        13 <= page.popup_height() <= 19,
        10 <= page.total_height() <= 16 ==> page.popup_height() == page.total_height() + 3,
{
}

/// A session whose creation has to be checked is never submitted while a
/// check is under way, nor before one has ended.
/// A session whose creation has to be checked is never submitted while a
/// check is under way, nor before one has ended.
pub proof fn law_unchecked_review_waits(page: ReviewPageView)
    requires
        page.local_changes_excluded,
        page.remote_preflight_in_flight || page.remote_repositories is None
            && page.remote_preflight_error is None,
    ensures
        !page.can_submit(),
        page.buttons().last() == labelled(WizardControl::Submit, page.submit_label, false),
{
}

proof fn lemma_choice_rows(page: ReviewPageView, before: Seq<TextLineView>)
    ensures
        ({
            let middle = page.worktree_lines(before);
            let all = page.closing_lines(page.subagent_lines(middle));
            &&& page.worktree is Some ==> before.len() < all.len() && all[before.len() as int]
                == line(""@, Tone::Plain)
            &&& page.subagents is Some ==> middle.len() < all.len() && all[middle.len() as int]
                == line(""@, Tone::Plain)
        }),
{
}

/// The rows of the checkboxes are rows of the summary that hold no text.
#[verifier::spinoff_prover]
#[verifier::rlimit(60)]
pub proof fn law_checkbox_rows_empty(page: ReviewPageView)
    requires
        page.summary().len() <= 65535,
    ensures
        page.worktree_row() matches Some(row) ==> row < page.summary().len()
            && page.summary()[row as int] == line(""@, Tone::Plain),
        page.subagent_row() matches Some(row) ==> row < page.summary().len()
            && page.summary()[row as int] == line(""@, Tone::Plain),
{
    lemma_choice_rows(page, page.before_choices());
}

/// Adds a line for each attached directory.
pub fn add_mounts(list: &mut Vec<TextLine>, mounts: &Vec<AdditionalMount>)
    ensures
        final(list).deep_view() == followed(
            old(list).deep_view(),
            mounts.deep_view(),
            mount_line(),
        ),
{
    broadcast use group_views;

    let ghost start = list.deep_view();
    let ghost all = mounts.deep_view();
    let ghost shown = mount_line();
    let mut i: usize = 0;
    assert(all.take(0) =~= Seq::empty());
    while i < mounts.len()
        invariant
            i <= mounts.len(),
            all == mounts.deep_view(),
            all == views(mounts@),
            shown == mount_line(),
            list.deep_view() == followed(start, all.take(i as int), shown),
        decreases mounts.len() - i,
    {
        proof {
            assert(all[i as int] == mounts@[i as int]@);
            assert(all.take(i + 1).drop_last() =~= all.take(i as int));
            assert(all.take(i + 1).last() == all[i as int]);
        }
        add_line(list, mount_label(&mounts[i]), Tone::Plain);
        i = i + 1;
    }
    assert(all.take(all.len() as int) =~= all);
}

fn line_count(list: &Vec<TextLine>) -> (count: usize)
    ensures
        count == list.deep_view().len(),
{
    broadcast use group_views;

    list.len()
}

impl ReviewPage {
    fn summarize(&self) -> (r: (Vec<TextLine>, Option<u16>, Option<u16>))
        ensures
            r.0.deep_view() == self@.summary(),
            r.1 == self@.worktree_row(),
            r.2 == self@.subagent_row(),
    {
        let mut list = self.heading();
        self.add_move_effects(&mut list);
        self.add_move_progress(&mut list);
        self.add_checks(&mut list);
        let worktree_row = if self.worktree.is_some() {
            Some((line_count(&list) % 65536) as u16)
        } else {
            None
        };
        self.add_worktree(&mut list);
        let subagent_row = if self.subagents.is_some() {
            Some((line_count(&list) % 65536) as u16)
        } else {
            None
        };
        self.add_subagents(&mut list);
        self.add_closing(&mut list);
        (list, worktree_row, subagent_row)
    }

    pub(crate) fn submits(&self) -> (r: bool)
        ensures
            r == self@.can_submit(),
    {
        self.submit_enabled && !self.remote_preflight_in_flight && (
        self.remote_repositories.is_some() || !self.local_changes_excluded
            || self.remote_preflight_error.is_some()) && (self.allocation.is_some()
            || self.target.template.kind != TargetKind::AwsEc2)
    }

    fn button_list(&self) -> (list: Vec<Button>)
        ensures
            list.deep_view() == self@.buttons(),
    {
        let submits = self.submits();
        let mut list = no_buttons();
        add_button(&mut list, WizardControl::Cancel, "Cancel", true);
        add_button(&mut list, WizardControl::Back, "Back", true);
        if self.attaches() {
            add_button(&mut list, WizardControl::Add, "Add directory…", true);
        }
        add_button(&mut list, WizardControl::Submit, self.submit_label.as_str(), submits);
        list
    }

    fn heights(&self, lines: &Vec<TextLine>) -> (h: (u16, u16, u16))
        requires
            lines.deep_view() == self@.summary(),
            self@.queued_entries.len() + self@.prepared_entries.len() <= usize::MAX,
        ensures
            h.0 == self@.summary_height(),
            h.1 == self@.list_height(),
            h.2 == self@.total_height(),
    {
        broadcast use group_views;

        let summary = row_count(lines.len());
        let list: u16 = if self.attaches() {
            row_count(self.mounts.len())
        } else {
            0
        };
        let queue: u16 = if self.queue.is_some() {
            let entries = row_count(self.queued_entries.len() + self.prepared_entries.len());
            entries.saturating_add(1)
        } else {
            0
        };
        (summary, list, summary.saturating_add(list).saturating_add(queue))
    }

    fn row_in_focus(
        &self,
        focused: Option<WizardControl>,
        summary: u16,
        list: u16,
        worktree_row: Option<u16>,
        subagent_row: Option<u16>,
    ) -> (row: Option<u16>)
        requires
            summary == self@.summary_height(),
            list == self@.list_height(),
            worktree_row == self@.worktree_row(),
            subagent_row == self@.subagent_row(),
        ensures
            row == self@.focused_row(focused),
    {
        let mounts = self.mount_count();
        match focused {
            Some(WizardControl::CreateManagedWorktree) => worktree_row,
            Some(WizardControl::MjolnirSubagents) => subagent_row,
            Some(WizardControl::ReviewAttachments) => {
                let last = if mounts == 0 {
                    0
                } else {
                    mounts - 1
                };
                let selected = if self.selected_mount > last {
                    last
                } else {
                    self.selected_mount
                };
                Some(summary.saturating_add((selected % 65536) as u16))
            },
            Some(WizardControl::DiscardQueue) => Some(summary.saturating_add(list)),
            _ => None,
        }
    }

    /// Lays the review out.
    pub fn render_review_wizard(&self, focused: Option<WizardControl>) -> (screen: ReviewScreen)
        requires
            self@.queued_entries.len() + self@.prepared_entries.len() <= usize::MAX,
        ensures
            screen@ == self@.screen(focused),
    {
        let (lines, worktree_row, subagent_row) = self.summarize();
        let (summary_height, list_height, total_height) = self.heights(&lines);
        let shown = if total_height > 16 {
            16
        } else {
            total_height
        };
        let height = if shown + 3 < 13 {
            13
        } else {
            shown + 3
        };
        let mut attachments = no_lines();
        if self.attaches() {
            add_mounts(&mut attachments, &self.mounts);
        }
        let focused_row = self.row_in_focus(
            focused,
            summary_height,
            list_height,
            worktree_row,
            subagent_row,
        );
        let queue = self.queue_checkbox(summary_height, list_height);
        let queue_rows = self.queue_list();
        ReviewScreen {
            title: trim(self.title.as_str()),
            height,
            lines,
            attachments,
            worktree: self.worktree_checkbox(worktree_row),
            subagents: self.subagent_checkbox(subagent_row),
            queue,
            queue_rows,
            summary_height,
            list_height,
            total_height,
            focused_row,
            buttons: self.button_list(),
        }
    }

    fn worktree_checkbox(&self, row: Option<u16>) -> (checkbox: Option<Checkbox>)
        requires
            row == self@.worktree_row(),
        ensures
            checkbox.deep_view() == self@.worktree_box(),
    {
        match (&self.worktree, row) {
            (Some(choice), Some(row)) => Some(
                Checkbox {
                    row,
                    label: owned("Create managed worktree"),
                    checked: choice.checked && choice.available,
                    enabled: choice.available,
                },
            ),
            _ => None,
        }
    }

    fn subagent_checkbox(&self, row: Option<u16>) -> (checkbox: Option<Checkbox>)
        requires
            row == self@.subagent_row(),
        ensures
            checkbox.deep_view() == self@.subagent_box(),
    {
        match (self.subagents, row) {
            (Some(checked), Some(row)) => Some(
                Checkbox { row, label: owned("Use Mjolnir sub-agents"), checked, enabled: true },
            ),
            _ => None,
        }
    }

    fn queue_checkbox(&self, summary: u16, list: u16) -> (checkbox: Option<Checkbox>)
        requires
            summary == self@.summary_height(),
            list == self@.list_height(),
        ensures
            checkbox.deep_view() == self@.queue_box(),
    {
        match &self.queue {
            Some(queue) => Some(
                Checkbox {
                    row: summary.saturating_add(list),
                    label: self.queue_text(queue),
                    checked: queue.discard,
                    enabled: true,
                },
            ),
            None => None,
        }
    }

    fn queue_list(&self) -> (rows: Vec<QueueRow>)
        requires
            self@.queued_entries.len() + self@.prepared_entries.len() <= usize::MAX,
        ensures
            rows.deep_view() == self@.screen(None).queue_rows,
    {
        broadcast use group_views;

        if self.queue.is_some() {
            self.show_queue()
        } else {
            Vec::new()
        }
    }
}

} // verus!
