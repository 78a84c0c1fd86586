//! The message reducers: how the completion of background work is folded
//! into the store. Every reducer handles success and failure alike, lowers
//! its family's flag, and marks the screen as out of date.

use vstd::prelude::*;
use vstd::string::*;

use crate::cache::overlaid;
use crate::gateway::{
    command_label, command_title, is_package_action, refreshes_lists, CasksMessage, CommandKind,
    CommandMessage, CommandMessageView, CommandResult, CommandResultView, DetailsLoad,
    DetailsMessage, DetailsMessageView, LeavesMessage, SizeEntryView, SizesMessage,
    StatusMessage, StatusSnapshotView,
};
use crate::order::{sort_names, sorted_names};
use crate::requests::{Effect, EffectView};
use crate::scroll::{beyond, least};
use crate::store::{App, AppView};
use crate::text::{
    clone_opt_string, clone_strings, decimal, decimal_string, first_nonempty,
    first_nonempty_line, is_blank, join2, join3, lines, lines_of, nonempty_lines,
    nonempty_trimmed, trim, trimmed,
};
use crate::types::{InputMode, Switch, ToastLevel};

verus! {

/// How many lines of a command's output are kept.
pub const OUTPUT_LINES_KEPT: usize = 8;

/// The first `n` of `items`, or all of them where they are fewer.
pub open spec fn first_of(items: Seq<Seq<char>>, n: int) -> Seq<Seq<char>> {
    if items.len() <= n {
        items
    } else {
        items.take(n)
    }
}

/// The output whose lines are kept: the standard output of a command that
/// succeeded and the error output of one that failed, or the other where
/// that one is blank.
pub open spec fn shown_output(r: CommandResultView) -> Seq<char> {
    if r.success {
        if trimmed(r.stdout).len() == 0 {
            r.stderr
        } else {
            r.stdout
        }
    } else {
        if trimmed(r.stderr).len() == 0 {
            r.stdout
        } else {
            r.stderr
        }
    }
}

/// Why a command failed, for a toast: the first line of its error output
/// that is not blank, else that of its standard output, else a word for
/// not knowing.
pub open spec fn failure_reason(r: CommandResultView) -> Seq<char> {
    match first_nonempty(r.stderr) {
        Some(line) => line,
        None => match first_nonempty(r.stdout) {
            Some(line) => line,
            None => "Unknown error"@,
        },
    }
}

/// The package that a command acted on, for a package action.
pub open spec fn action_target(kind: CommandKind, target: Option<Seq<char>>) -> Option<
    Seq<char>,
> {
    if is_package_action(kind) {
        target
    } else {
        None
    }
}

/// The toast for a command that succeeded, if it gets one.
pub open spec fn success_toast(kind: CommandKind, target: Option<Seq<char>>) -> Option<Seq<char>> {
    match action_target(kind, target) {
        Some(pkg) => Some(command_title(kind) + " succeeded for "@ + pkg),
        None => if kind == CommandKind::UpgradeAll {
            Some("Upgrade succeeded for outdated packages"@)
        } else if kind == CommandKind::SelfUpdate {
            Some("Brewery updated. Restart to use the new version"@)
        } else {
            None
        },
    }
}

/// The toast for a command that failed for `reason`, if it gets one.
pub open spec fn failure_toast(kind: CommandKind, target: Option<Seq<char>>, reason: Seq<char>) -> Option<
    Seq<char>,
> {
    match action_target(kind, target) {
        Some(pkg) => Some(command_title(kind) + " failed for "@ + pkg + ": "@ + reason),
        None => if kind == CommandKind::UpgradeAll {
            Some("Upgrade failed for outdated packages: "@ + reason)
        } else if kind == CommandKind::SelfUpdate {
            Some("Brewery update failed: "@ + reason)
        } else {
            None
        },
    }
}

/// The toast that the completion of a command puts up, if any.
pub open spec fn command_toast(
    kind: CommandKind,
    target: Option<Seq<char>>,
    result: Result<CommandResultView, Seq<char>>,
) -> Option<(ToastLevel, Seq<char>)> {
    match result {
        Ok(r) => if r.success {
            match success_toast(kind, target) {
                Some(text) => Some((ToastLevel::Success, text)),
                None => None,
            }
        } else {
            match failure_toast(kind, target, failure_reason(r)) {
                Some(text) => Some((ToastLevel::Error, text)),
                None => None,
            }
        },
        Err(e) => match failure_toast(kind, target, e) {
            Some(text) => Some((ToastLevel::Error, text)),
            None => None,
        },
    }
}

/// Whether the completion of a command calls for the installed lists and
/// the status to be fetched again: a mutating command that succeeded.
pub open spec fn calls_for_refresh(m: CommandMessageView) -> bool {
    match m.result {
        Ok(r) => r.success && refreshes_lists(m.kind),
        Err(_) => false,
    }
}

/// The status line after details arrived.
pub open spec fn loaded_status(load: DetailsLoad) -> Seq<char> {
    match load {
        DetailsLoad::Basic => "Details loaded"@,
        DetailsLoad::Full => "Deps/uses loaded"@,
    }
}

impl AppView {
    /// The store after a reducer has done its part: the status line counts
    /// as written at `now`, and the screen is out of date.
    pub open spec fn settled(self, now: u64) -> AppView {
        AppView { last_refresh: now, needs_redraw: Switch::On, ..self }
    }

    /// The store with the failure of a fetch noted.
    pub open spec fn fetch_failed(self, error: Seq<char>, status: Seq<char>) -> AppView {
        AppView { last_error: Some(error), status: status, ..self }
    }

    /// The store with the success of a fetch noted.
    pub open spec fn fetch_succeeded(self, status: Seq<char>) -> AppView {
        AppView { last_error: None, status: status, ..self }
    }

    /// The store after the installed formulae arrived, or failed to: the
    /// list is replaced by the sorted names and its index rebuilt.
    #[verifier::opaque]
    pub open spec fn apply_leaves_message(
        self,
        m: Result<Seq<Seq<char>>, Seq<char>>,
        now: u64,
    ) -> AppView {
        let a = match m {
            Ok(names) => AppView {
                last_leaves_refresh: Some(now),
                ..AppView { leaves: sorted_names(names), ..self }.update_filtered_leaves()
            }.fetch_succeeded("Leaves updated"@),
            Err(e) => self.fetch_failed(e, "Failed to refresh"@),
        };
        AppView { pending_leaves: Switch::Off, ..a }.settled(now)
    }

    /// The store after the installed casks arrived, or failed to.
    #[verifier::opaque]
    pub open spec fn apply_casks_message(
        self,
        m: Result<Seq<Seq<char>>, Seq<char>>,
        now: u64,
    ) -> AppView {
        let a = match m {
            Ok(names) => AppView {
                last_casks_refresh: Some(now),
                ..AppView { casks: sorted_names(names), ..self }.update_filtered_casks()
            }.fetch_succeeded("Casks updated"@),
            Err(e) => self.fetch_failed(e, "Failed to refresh casks"@),
        };
        AppView { pending_casks: Switch::Off, ..a }.settled(now)
    }

    /// The store after details arrived, or failed to: they are laid over
    /// what the cache holds for the package, whichever package is selected
    /// by now.
    #[verifier::opaque]
    pub open spec fn apply_details_message(self, m: DetailsMessageView, now: u64) -> AppView {
        let a = match m.result {
            Ok(details) => AppView {
                details_cache: overlaid(self.details_cache, self.details_capacity, m.pkg, details),
                ..self
            }.fetch_succeeded(loaded_status(m.load)),
            Err(e) => self.fetch_failed(e, "Details failed"@),
        };
        AppView { pending_details: None, ..a }.settled(now)
    }

    /// The store after the footprints arrived, or failed to: the table is
    /// replaced and the scroll offset held within it.
    #[verifier::opaque]
    pub open spec fn apply_sizes_message(
        self,
        m: Result<Seq<SizeEntryView>, Seq<char>>,
        now: u64,
    ) -> AppView {
        let a = match m {
            Ok(sizes) => AppView {
                sizes: sizes,
                sizes_scroll_offset: least(
                    self.sizes_scroll_offset as int,
                    beyond(sizes.len() as int, 1),
                ) as usize,
                last_sizes_refresh: Some(now),
                ..self
            }.fetch_succeeded("Sizes updated"@),
            Err(e) => self.fetch_failed(e, "Sizes failed"@),
        };
        AppView { pending_sizes: Switch::Off, ..a }.settled(now)
    }

    /// The store with a new status snapshot: the outdated formulae are
    /// those of the snapshot, and the index of the formulae is rebuilt.
    pub open spec fn take_snapshot(self, snapshot: StatusSnapshotView) -> AppView {
        AppView {
            system_status: Some(snapshot),
            outdated_leaves: snapshot.outdated_packages,
            ..self
        }.update_filtered_leaves()
    }

    /// The store after a status snapshot arrived, or failed to.
    #[verifier::opaque]
    pub open spec fn apply_status_message(
        self,
        m: Result<StatusSnapshotView, Seq<char>>,
        now: u64,
    ) -> AppView {
        let a = match m {
            Ok(snapshot) => {
                let taken = self.take_snapshot(snapshot);
                AppView {
                    status_scroll_offset: least(
                        taken.status_scroll_offset as int,
                        taken.max_status_scroll(now),
                    ) as usize,
                    last_status_check: Some(now),
                    ..taken
                }.fetch_succeeded("Status check complete"@)
            },
            Err(e) => self.fetch_failed(e, "Status check failed"@),
        };
        AppView { pending_status: Switch::Off, ..a }.settled(now)
    }

    /// The store with the outcome of a command that ran noted: the first
    /// lines of its output, the status line, and, where it failed with
    /// something on its error output, that output.
    pub open spec fn note_command_ran(self, kind: CommandKind, r: CommandResultView) -> AppView {
        AppView {
            last_command_output: first_of(lines_of(shown_output(r)), OUTPUT_LINES_KEPT as int),
            status: command_label(kind) + if r.success {
                " complete"@
            } else {
                " failed"@
            },
            last_command_error: if !r.success && trimmed(r.stderr).len() > 0 {
                Some(trimmed(r.stderr))
            } else {
                self.last_command_error
            },
            ..self
        }
    }

    /// The store with the results of a search taken in: the result list is
    /// replaced, the first result selected, and the keys go to the results,
    /// unless there are none.
    pub open spec fn take_search_results(self, stdout: Seq<char>) -> AppView {
        let found = nonempty_trimmed(lines_of(stdout));
        if found.len() == 0 {
            AppView {
                package_results: found,
                package_results_selected: None,
                status: "No results found"@,
                last_result_details_pkg: None,
                ..self
            }
        } else {
            AppView {
                package_results: found,
                package_results_selected: Some(0),
                input_mode: InputMode::PackageResults,
                status: decimal(found.len()) + " results"@,
                last_result_details_pkg: None,
                ..self
            }
        }
    }

    /// The store with a package action that succeeded marked as lately
    /// completed.
    pub open spec fn mark_completed(self, kind: CommandKind, now: u64) -> AppView {
        match self.last_command_target {
            Some(pkg) => AppView {
                last_command_completed: Some((command_label(kind), pkg, now)),
                ..self
            },
            None => self,
        }
    }

    /// The store with what a command result says taken in.
    pub open spec fn take_command_result(
        self,
        kind: CommandKind,
        r: CommandResultView,
        now: u64,
    ) -> AppView {
        let a = self.note_command_ran(kind, r);
        let b = if kind == CommandKind::Search {
            a.take_search_results(r.stdout)
        } else {
            a
        };
        if r.success && is_package_action(kind) {
            b.mark_completed(kind, now)
        } else {
            b
        }
    }

    /// The store with a command that could not be run noted.
    pub open spec fn note_command_error(self, kind: CommandKind, error: Seq<char>) -> AppView {
        AppView {
            last_command_error: Some(error),
            status: command_label(kind) + " failed"@,
            ..self
        }
    }

    /// The store with the toast of a completed command put up, if it gets
    /// one.
    pub open spec fn toast_command(self, m: CommandMessageView, now: u64) -> AppView {
        match command_toast(m.kind, self.last_command_target, m.result) {
            Some(t) => self.show_toast(t.0, t.1, now),
            None => self,
        }
    }

    /// The store after a command completed, or could not be run.
    #[verifier::opaque]
    pub open spec fn apply_command_message(self, m: CommandMessageView, now: u64) -> AppView {
        let a = match m.result {
            Ok(r) => self.take_command_result(m.kind, r, now),
            Err(e) => self.note_command_error(m.kind, e),
        };
        AppView {
            pending_command: Switch::Off,
            command_started_at: None,
            ..a.toast_command(m, now)
        }.settled(now)
    }
}

/// The effects that were asked for, in order.
pub open spec fn effects_of(effect: Option<EffectView>) -> Seq<EffectView> {
    match effect {
        Some(e) => seq![e],
        None => Seq::empty(),
    }
}

impl AppView {
    /// The store after a command completed, with what follows from it: a
    /// mutating command that succeeded has the installed formulae and the
    /// status fetched again, and the upgrade of one package has that
    /// package's details fetched past the cache, whose copy is stale.
    #[verifier::opaque]
    pub open spec fn reduce_command_message(self, m: CommandMessageView, now: u64) -> (
        AppView,
        Seq<EffectView>,
    ) {
        let applied = self.apply_command_message(m, now);
        if !calls_for_refresh(m) {
            (applied, Seq::empty())
        } else {
            let leaves = applied.request_leaves(now);
            let status = leaves.0.request_status(now);
            let details = if m.kind == CommandKind::Upgrade && self.last_command_target is Some {
                status.0.request_details_forced(
                    self.last_command_target->0,
                    DetailsLoad::Basic,
                    now,
                )
            } else {
                (status.0, None)
            };
            (details.0, effects_of(leaves.1) + effects_of(status.1) + effects_of(details.1))
        }
    }
}

fn keep_first(items: Vec<String>, n: usize) -> (kept: Vec<String>)
    ensures
        kept.deep_view() == first_of(items.deep_view(), n as int),
{
    let mut items = items;
    let ghost before = items.deep_view();
    if items.len() > n {
        items.truncate(n);
        proof {
            assert(items.deep_view() =~= before.take(n as int));
        }
    }
    items
}

fn failure_reason_of(r: &CommandResult) -> (reason: String)
    ensures
        reason@ == failure_reason(r@),
{
    match first_nonempty_line(r.stderr.as_str()) {
        Some(line) => line,
        None => match first_nonempty_line(r.stdout.as_str()) {
            Some(line) => line,
            None => "Unknown error".to_owned(),
        },
    }
}

fn join5(a: &str, b: &str, c: &str, d: &str, e: &str) -> (out: String)
    ensures
        out@ == a@ + b@ + c@ + d@ + e@,
{
    let mut out = join3(a, b, c);
    out.append(d);
    out.append(e);
    out
}

/// The package that a command acted on, for a package action.
pub fn package_action_target<'a>(
    kind: CommandKind,
    target: Option<&'a str>,
) -> (pkg: Option<&'a str>)
    ensures
        pkg.deep_view() == action_target(kind, target.deep_view()),
{
    if kind.is_package_action() {
        target
    } else {
        None
    }
}

fn success_toast_of(kind: CommandKind, target: &Option<String>) -> (text: Option<String>)
    ensures
        text.deep_view() == success_toast(kind, target.deep_view()),
{
    if kind.is_package_action() {
        match target {
            Some(pkg) => {
                return Some(join3(kind.action_title(), " succeeded for ", pkg.as_str()));
            },
            None => {},
        }
    }
    match kind {
        CommandKind::UpgradeAll => Some("Upgrade succeeded for outdated packages".to_owned()),
        CommandKind::SelfUpdate => Some(
            "Brewery updated. Restart to use the new version".to_owned(),
        ),
        _ => None,
    }
}

fn failure_toast_of(kind: CommandKind, target: &Option<String>, reason: &str) -> (text: Option<
    String,
>)
    ensures
        text.deep_view() == failure_toast(kind, target.deep_view(), reason@),
{
    if kind.is_package_action() {
        match target {
            Some(pkg) => {
                return Some(
                    join5(kind.action_title(), " failed for ", pkg.as_str(), ": ", reason),
                );
            },
            None => {},
        }
    }
    match kind {
        CommandKind::UpgradeAll => Some(join2("Upgrade failed for outdated packages: ", reason)),
        CommandKind::SelfUpdate => Some(join2("Brewery update failed: ", reason)),
        _ => None,
    }
}

/// The toast that the completion of a command puts up, if any: its level
/// and its text.
pub fn command_toast_of(message: &CommandMessage, target: &Option<String>) -> (toast: Option<
    (ToastLevel, String),
>)
    ensures
        match toast {
            Some(t) => command_toast(message@.kind, target.deep_view(), message@.result) == Some(
                (t.0, t.1@),
            ),
            None => command_toast(message@.kind, target.deep_view(), message@.result) is None,
        },
{
    match &message.result {
        Ok(r) => {
            if r.success {
                match success_toast_of(message.kind, target) {
                    Some(text) => Some((ToastLevel::Success, text)),
                    None => None,
                }
            } else {
                let reason = failure_reason_of(r);
                match failure_toast_of(message.kind, target, reason.as_str()) {
                    Some(text) => Some((ToastLevel::Error, text)),
                    None => None,
                }
            }
        },
        Err(e) => match failure_toast_of(message.kind, target, e.as_str()) {
            Some(text) => Some((ToastLevel::Error, text)),
            None => None,
        },
    }
}

impl App {
    fn settle(&mut self, now: u64)
        ensures
            final(self)@ == old(self)@.settled(now),
    {
        self.set_last_refresh(now);
        self.set_needs_redraw(true);
    }

    fn fetch_failed(&mut self, error: String, status: &str)
        ensures
            final(self)@ == old(self)@.fetch_failed(error@, status@),
    {
        self.set_last_error(Some(error));
        self.set_status_text(status.to_owned());
    }

    fn fetch_succeeded(&mut self, status: &str)
        ensures
            final(self)@ == old(self)@.fetch_succeeded(status@),
    {
        self.set_last_error(None);
        self.set_status_text(status.to_owned());
    }

    /// Folds in the completion of a fetch of the installed formulae.
    pub fn apply_leaves_message(&mut self, message: LeavesMessage, now: u64)
        ensures
            final(self)@ == old(self)@.apply_leaves_message(message@, now),
    {
        proof {
            reveal(AppView::apply_leaves_message);
        }
        match message.result {
            Ok(names) => {
                self.set_leaves(sort_names(names));
                self.update_filtered_leaves();
                self.set_last_leaves_refresh(Some(now));
                self.fetch_succeeded("Leaves updated");
            },
            Err(e) => {
                self.fetch_failed(e, "Failed to refresh");
            },
        }
        self.set_pending_leaves(false);
        self.settle(now);
    }

    /// Folds in the completion of a fetch of the installed casks.
    pub fn apply_casks_message(&mut self, message: CasksMessage, now: u64)
        ensures
            final(self)@ == old(self)@.apply_casks_message(message@, now),
    {
        proof {
            reveal(AppView::apply_casks_message);
        }
        match message.result {
            Ok(names) => {
                self.set_casks(sort_names(names));
                self.update_filtered_casks();
                self.set_last_casks_refresh(Some(now));
                self.fetch_succeeded("Casks updated");
            },
            Err(e) => {
                self.fetch_failed(e, "Failed to refresh casks");
            },
        }
        self.set_pending_casks(false);
        self.settle(now);
    }

    /// Folds in the completion of a details fetch.
    pub fn apply_details_message(&mut self, message: DetailsMessage, now: u64)
        ensures
            final(self)@ == old(self)@.apply_details_message(message@, now),
    {
        proof {
            reveal(AppView::apply_details_message);
        }
        let load = message.load;
        match message.result {
            Ok(details) => {
                self.store_details(message.pkg, details);
                self.fetch_succeeded(
                    match load {
                        DetailsLoad::Basic => "Details loaded",
                        DetailsLoad::Full => "Deps/uses loaded",
                    },
                );
            },
            Err(e) => {
                self.fetch_failed(e, "Details failed");
            },
        }
        self.set_pending_details(None);
        self.settle(now);
    }

    /// Folds in the completion of a fetch of the footprints.
    pub fn apply_sizes_message(&mut self, message: SizesMessage, now: u64)
        ensures
            final(self)@ == old(self)@.apply_sizes_message(message@, now),
    {
        proof {
            reveal(AppView::apply_sizes_message);
        }
        match message.result {
            Ok(sizes) => {
                let count = sizes.len();
                proof {
                    assert(sizes.deep_view().len() == count);
                }
                let max: usize = if count >= 1 {
                    count - 1
                } else {
                    0
                };
                let offset = self.sizes_scroll_offset();
                let held: usize = if offset <= max {
                    offset
                } else {
                    max
                };
                self.set_sizes(sizes);
                self.set_sizes_scroll_offset(held);
                self.set_last_sizes_refresh(Some(now));
                self.fetch_succeeded("Sizes updated");
            },
            Err(e) => {
                self.fetch_failed(e, "Sizes failed");
            },
        }
        self.set_pending_sizes(false);
        self.settle(now);
    }

    fn take_snapshot(&mut self, snapshot: crate::gateway::StatusSnapshot)
        ensures
            final(self)@ == old(self)@.take_snapshot(snapshot@),
    {
        let outdated = clone_strings(&snapshot.outdated_packages);
        self.set_system_status(Some(snapshot));
        self.set_outdated_leaves(outdated);
        self.update_filtered_leaves();
    }

    /// Folds in the completion of a status check.
    pub fn apply_status_message(&mut self, message: StatusMessage, now: u64)
        ensures
            final(self)@ == old(self)@.apply_status_message(message@, now),
    {
        proof {
            reveal(AppView::apply_status_message);
        }
        match message.result {
            Ok(snapshot) => {
                self.take_snapshot(snapshot);
                let max = self.max_status_scroll(now);
                let offset = self.status_scroll_offset();
                let held: usize = if offset <= max {
                    offset
                } else {
                    max
                };
                self.set_status_scroll_offset(held);
                self.set_last_status_check(Some(now));
                self.fetch_succeeded("Status check complete");
            },
            Err(e) => {
                self.fetch_failed(e, "Status check failed");
            },
        }
        self.set_pending_status(false);
        self.settle(now);
    }

    fn note_command_ran(&mut self, kind: CommandKind, r: &CommandResult)
        ensures
            final(self)@ == old(self)@.note_command_ran(kind, r@),
    {
        let shown = if r.success {
            if is_blank(r.stdout.as_str()) {
                r.stderr.as_str()
            } else {
                r.stdout.as_str()
            }
        } else {
            if is_blank(r.stderr.as_str()) {
                r.stdout.as_str()
            } else {
                r.stderr.as_str()
            }
        };
        let kept = keep_first(lines(shown), OUTPUT_LINES_KEPT);
        let status = join2(
            kind.label(),
            if r.success {
                " complete"
            } else {
                " failed"
            },
        );
        let error = trim(r.stderr.as_str());
        let failed = !r.success && !error.is_empty();
        self.set_last_command_output(kept);
        self.set_status_text(status);
        if failed {
            self.set_last_command_error(Some(error.to_owned()));
        }
    }

    fn take_search_results(&mut self, stdout: &str)
        ensures
            final(self)@ == old(self)@.take_search_results(stdout@),
    {
        let found = nonempty_lines(stdout);
        let count = found.len();
        proof {
            assert(found.deep_view().len() == count);
        }
        self.set_package_results(found);
        self.set_last_result_details_pkg(None);
        if count == 0 {
            self.set_package_results_selected(None);
            self.set_status_text("No results found".to_owned());
        } else {
            self.set_package_results_selected(Some(0));
            self.set_input_mode(InputMode::PackageResults);
            let mut status = decimal_string(count);
            status.append(" results");
            self.set_status_text(status);
        }
    }

    fn mark_completed(&mut self, kind: CommandKind, now: u64)
        ensures
            final(self)@ == old(self)@.mark_completed(kind, now),
    {
        let pkg = match self.last_command_target() {
            Some(pkg) => pkg.clone(),
            None => {
                return;
            },
        };
        self.set_last_command_completed(Some((kind.label().to_owned(), pkg, now)));
    }

    fn take_command_result(&mut self, kind: CommandKind, r: &CommandResult, now: u64)
        ensures
            final(self)@ == old(self)@.take_command_result(kind, r@, now),
    {
        self.note_command_ran(kind, r);
        if kind == CommandKind::Search {
            self.take_search_results(r.stdout.as_str());
        }
        if r.success && kind.is_package_action() {
            self.mark_completed(kind, now);
        }
    }

    fn note_command_error(&mut self, kind: CommandKind, error: String)
        ensures
            final(self)@ == old(self)@.note_command_error(kind, error@),
    {
        self.set_last_command_error(Some(error));
        self.set_status_text(join2(kind.label(), " failed"));
    }

    fn toast_command(&mut self, message: &CommandMessage, now: u64)
        ensures
            final(self)@ == old(self)@.toast_command(message@, now),
    {
        match command_toast_of(message, self.last_command_target()) {
            Some(t) => {
                self.show_toast(t.0, t.1, now);
            },
            None => {},
        }
    }

    /// Folds in the completion of a command.
    pub fn apply_command_message(&mut self, message: &CommandMessage, now: u64)
        ensures
            final(self)@ == old(self)@.apply_command_message(message@, now),
    {
        proof {
            reveal(AppView::apply_command_message);
        }
        match &message.result {
            Ok(r) => {
                self.take_command_result(message.kind, r, now);
            },
            Err(e) => {
                self.note_command_error(message.kind, e.clone());
            },
        }
        self.toast_command(message, now);
        self.set_pending_command(false);
        self.set_command_started_at(None);
        self.settle(now);
    }

    /// Folds in the completion of a command and asks for what follows from
    /// it.
    pub fn reduce_command_message(&mut self, message: &CommandMessage, now: u64) -> (effects: Vec<
        Effect,
    >)
        ensures
            (final(self)@, effects.deep_view()) == old(self)@.reduce_command_message(
                message@,
                now,
            ),
    {
        proof {
            reveal(AppView::reduce_command_message);
        }
        let refresh = match &message.result {
            Ok(r) => r.success && message.kind.refreshes_lists_on_success(),
            Err(_) => false,
        };
        let target: Option<String> = if message.kind == CommandKind::Upgrade {
            clone_opt_string(self.last_command_target())
        } else {
            None
        };
        self.apply_command_message(message, now);
        let mut effects: Vec<Effect> = Vec::new();
        proof {
            assert(effects.deep_view() =~= Seq::empty());
        }
        if !refresh {
            return effects;
        }
        push_effect(&mut effects, self.request_leaves(now));
        push_effect(&mut effects, self.request_status(now));
        match target {
            Some(pkg) => {
                push_effect(
                    &mut effects,
                    self.request_details_forced(pkg.as_str(), DetailsLoad::Basic, now),
                );
            },
            None => {
                proof {
                    assert(effects.deep_view() + Seq::<EffectView>::empty() =~= effects.deep_view());
                }
            },
        }
        effects
    }
}

/// Appends an effect that was asked for.
pub fn push_effect(effects: &mut Vec<Effect>, effect: Option<Effect>)
    ensures
        final(effects).deep_view() == old(effects).deep_view() + effects_of(effect.deep_view()),
{
    let ghost before = effects.deep_view();
    match effect {
        Some(e) => {
            effects.push(e);
            proof {
                assert(effects.deep_view() =~= before + seq![e.deep_view()]);
            }
        },
        None => {
            proof {
                assert(before + Seq::<EffectView>::empty() =~= before);
            }
        },
    }
}

} // verus!
