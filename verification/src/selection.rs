//! The store's two filter indices and its search results: what is visible,
//! what is selected, and how the selection moves.

use vstd::prelude::*;
use vstd::string::*;

use crate::filter::{next, prev, rebuild, reconcile, reconciled, stepped, visible};
use crate::matching::contains_name;
use crate::store::{App, AppView};
use crate::types::{kind_noun, package_kind_noun, switch, InputMode, PackageKind, Switch};

verus! {

/// The entry of `list` that `selected` points at, if it points at one.
pub open spec fn item_at(list: Seq<Seq<char>>, selected: Option<usize>) -> Option<Seq<char>> {
    match selected {
        Some(i) => if i < list.len() {
            Some(list[i as int])
        } else {
            None
        },
        None => None,
    }
}

/// The plural of the noun for a kind of package.
pub open spec fn kind_noun_plural(kind: PackageKind) -> Seq<char> {
    match kind {
        PackageKind::Formula => "formulae"@,
        PackageKind::Cask => "casks"@,
    }
}

/// One step in a list of `len` entries that is shown whole: to the
/// neighbour, staying at either end, and to the first entry where nothing
/// was selected; nothing where the list is empty.
pub open spec fn stepped_plain(len: nat, selected: Option<usize>, forward: bool) -> Option<usize> {
    if len == 0 {
        None
    } else {
        match selected {
            Some(i) => if forward {
                if i + 1 < len {
                    Some((i + 1) as usize)
                } else {
                    Some((len - 1) as usize)
                }
            } else {
                if i > 0 {
                    Some((i - 1) as usize)
                } else {
                    Some(0)
                }
            },
            None => Some(0),
        }
    }
}

fn step_plain(len: usize, selected: Option<usize>, forward: bool) -> (now: Option<usize>)
    ensures
        now == stepped_plain(len as nat, selected, forward),
{
    if len == 0 {
        return None;
    }
    match selected {
        Some(i) => {
            if forward {
                if i < len - 1 {
                    Some(i + 1)
                } else {
                    Some(len - 1)
                }
            } else {
                if i > 0 {
                    Some(i - 1)
                } else {
                    Some(0)
                }
            }
        },
        None => Some(0),
    }
}

fn entry_at(list: &Vec<String>, selected: Option<usize>) -> (found: Option<&str>)
    ensures
        found.deep_view() == item_at(list.deep_view(), selected),
{
    match selected {
        Some(i) => {
            if i < list.len() {
                Some(list[i].as_str())
            } else {
                None
            }
        },
        None => None,
    }
}

impl AppView {
    /// Whether the casks are shown rather than the formulae.
    pub open spec fn is_cask_mode(self) -> bool {
        self.active_package_kind == PackageKind::Cask
    }

    /// Whether `pkg` was found outdated.
    pub open spec fn is_outdated_leaf(self, pkg: Seq<char>) -> bool {
        self.outdated_leaves.contains(pkg)
    }

    /// The names that the formulae are restricted to, if they are.
    pub open spec fn only_outdated(self) -> Option<Seq<Seq<char>>> {
        if self.leaves_outdated_only.on() {
            Some(self.outdated_leaves)
        } else {
            None
        }
    }

    /// The store with the index of the formulae rebuilt and its selection
    /// reconciled.
    pub open spec fn update_filtered_leaves(self) -> AppView {
        let shown = visible(self.leaves, self.leaves_query, self.only_outdated());
        AppView {
            filtered_leaves_dirty: Switch::Off,
            filtered_leaves: shown,
            selected_index: reconciled(shown, self.selected_index),
            ..self
        }
    }

    /// The store with the index of the casks rebuilt and its selection
    /// reconciled.
    pub open spec fn update_filtered_casks(self) -> AppView {
        let shown = visible(self.casks, self.leaves_query, None);
        AppView {
            filtered_casks: shown,
            selected_cask_index: reconciled(shown, self.selected_cask_index),
            ..self
        }
    }

    /// The store with both indices rebuilt.
    pub open spec fn update_all_installed_filters(self) -> AppView {
        self.update_filtered_leaves().update_filtered_casks()
    }

    /// The store with the index of the list that is shown rebuilt.
    pub open spec fn update_active_installed_filter(self) -> AppView {
        if self.is_cask_mode() {
            self.update_filtered_casks()
        } else {
            self.update_filtered_leaves()
        }
    }

    /// The store after the restriction to outdated formulae was switched:
    /// refused with a note while the casks are shown.
    pub open spec fn toggle_outdated_filter(self, now: u64) -> AppView {
        if self.is_cask_mode() {
            self.set_status("Outdated filter only applies to formulae"@, now)
        } else {
            AppView {
                leaves_outdated_only: switch(!self.leaves_outdated_only.on()),
                ..self
            }.update_filtered_leaves().set_status(
                if !self.leaves_outdated_only.on() {
                    "Filter: outdated only"@
                } else {
                    "Filter: all leaves"@
                },
                now,
            )
        }
    }

    /// The store with the other installed list shown.
    pub open spec fn toggle_installed_kind(self, now: u64) -> AppView {
        let kind = if self.is_cask_mode() {
            PackageKind::Formula
        } else {
            PackageKind::Cask
        };
        AppView { active_package_kind: kind, ..self }.set_status(
            "Showing "@ + kind_noun_plural(kind),
            now,
        )
    }

    /// The selected formula.
    pub open spec fn selected_leaf(self) -> Option<Seq<char>> {
        item_at(self.leaves, self.selected_index)
    }

    /// The selected cask.
    pub open spec fn selected_cask(self) -> Option<Seq<char>> {
        item_at(self.casks, self.selected_cask_index)
    }

    /// The selected search result.
    pub open spec fn selected_package_result(self) -> Option<Seq<char>> {
        item_at(self.package_results, self.package_results_selected)
    }

    /// The selected entry of the installed list that is shown.
    pub open spec fn selected_installed_package(self) -> Option<Seq<char>> {
        if self.is_cask_mode() {
            self.selected_cask()
        } else {
            self.selected_leaf()
        }
    }

    /// Whether the search results are what the keys act on.
    pub open spec fn in_package_search(self) -> bool {
        self.input_mode == InputMode::PackageSearch || self.input_mode == InputMode::PackageResults
    }

    /// The selected package of whichever list is active.
    pub open spec fn selected_package_name(self) -> Option<Seq<char>> {
        if self.in_package_search() {
            self.selected_package_result()
        } else {
            self.selected_installed_package()
        }
    }

    /// The store with the selection of the shown list one step on.
    pub open spec fn select_step(self, forward: bool) -> AppView {
        if self.is_cask_mode() {
            AppView {
                selected_cask_index: stepped(self.filtered_casks, self.selected_cask_index, forward),
                ..self
            }
        } else {
            AppView {
                selected_index: stepped(self.filtered_leaves, self.selected_index, forward),
                ..self
            }
        }
    }

    /// The store with the selection of the shown list one step down.
    pub open spec fn select_next(self) -> AppView {
        self.select_step(true)
    }

    /// The store with the selection of the shown list one step up.
    pub open spec fn select_prev(self) -> AppView {
        self.select_step(false)
    }

    /// The store with the selected search result one step on; the result
    /// whose details were fetched is forgotten, so that the new one is
    /// fetched.
    pub open spec fn select_result_step(self, forward: bool) -> AppView {
        AppView {
            package_results_selected: stepped_plain(
                self.package_results.len(),
                self.package_results_selected,
                forward,
            ),
            last_result_details_pkg: if self.package_results.len() == 0 {
                self.last_result_details_pkg
            } else {
                None
            },
            ..self
        }
    }

    /// The store with the selected search result one step down.
    pub open spec fn select_next_result(self) -> AppView {
        self.select_result_step(true)
    }

    /// The store with the selected search result one step up.
    pub open spec fn select_prev_result(self) -> AppView {
        self.select_result_step(false)
    }

    /// The store without search results.
    pub open spec fn clear_package_results(self) -> AppView {
        AppView {
            package_results: Seq::empty(),
            package_results_selected: None,
            last_package_search: None,
            last_result_details_pkg: None,
            ..self
        }
    }
}

impl App {
    /// Whether the casks are shown rather than the formulae.
    pub fn is_cask_mode(&self) -> (cask: bool)
        ensures
            cask == self@.is_cask_mode(),
    {
        self.active_package_kind() == PackageKind::Cask
    }

    /// Whether `pkg` was found outdated.
    pub fn is_outdated_leaf(&self, pkg: &str) -> (outdated: bool)
        ensures
            outdated == self@.is_outdated_leaf(pkg@),
    {
        contains_name(self.outdated_leaves(), pkg)
    }

    /// The noun for one package of the kind that is shown.
    pub fn active_kind_label_singular(&self) -> (noun: &'static str)
        ensures
            noun@ == kind_noun(self@.active_package_kind),
    {
        package_kind_noun(self.active_package_kind())
    }

    /// The noun for the packages of the kind that is shown.
    pub fn active_kind_label_plural(&self) -> (noun: &'static str)
        ensures
            noun@ == kind_noun_plural(self@.active_package_kind),
    {
        match self.active_package_kind() {
            PackageKind::Formula => "formulae",
            PackageKind::Cask => "casks",
        }
    }

    /// Rebuilds the index of the formulae and reconciles its selection.
    pub fn update_filtered_leaves(&mut self)
        ensures
            final(self)@ == old(self)@.update_filtered_leaves(),
    {
        let shown = if self.leaves_outdated_only() {
            rebuild(self.leaves(), self.leaves_query().as_str(), Some(self.outdated_leaves()))
        } else {
            rebuild(self.leaves(), self.leaves_query().as_str(), None)
        };
        let selected = reconcile(&shown, self.selected_index());
        self.set_filtered_leaves_dirty(false);
        self.set_filtered_leaves(shown);
        self.set_selected_index(selected);
    }

    /// Rebuilds the index of the casks and reconciles its selection.
    pub fn update_filtered_casks(&mut self)
        ensures
            final(self)@ == old(self)@.update_filtered_casks(),
    {
        let shown = rebuild(self.casks(), self.leaves_query().as_str(), None);
        let selected = reconcile(&shown, self.selected_cask_index());
        self.set_filtered_casks(shown);
        self.set_selected_cask_index(selected);
    }

    /// Rebuilds both indices.
    pub fn update_all_installed_filters(&mut self)
        ensures
            final(self)@ == old(self)@.update_all_installed_filters(),
    {
        self.update_filtered_leaves();
        self.update_filtered_casks();
    }

    /// Rebuilds the index of the list that is shown.
    pub fn update_active_installed_filter(&mut self)
        ensures
            final(self)@ == old(self)@.update_active_installed_filter(),
    {
        if self.is_cask_mode() {
            self.update_filtered_casks();
        } else {
            self.update_filtered_leaves();
        }
    }

    /// Switches the restriction to outdated formulae.
    pub fn toggle_outdated_filter(&mut self, now: u64)
        ensures
            final(self)@ == old(self)@.toggle_outdated_filter(now),
    {
        if self.is_cask_mode() {
            self.set_status("Outdated filter only applies to formulae".to_owned(), now);
            return;
        }
        let only = !self.leaves_outdated_only();
        self.set_leaves_outdated_only(only);
        self.update_filtered_leaves();
        if only {
            self.set_status("Filter: outdated only".to_owned(), now);
        } else {
            self.set_status("Filter: all leaves".to_owned(), now);
        }
    }

    /// Shows the other installed list.
    pub fn toggle_installed_kind(&mut self, now: u64)
        ensures
            final(self)@ == old(self)@.toggle_installed_kind(now),
    {
        let kind = if self.is_cask_mode() {
            PackageKind::Formula
        } else {
            PackageKind::Cask
        };
        self.set_active_package_kind(kind);
        let status = crate::text::join2("Showing ", self.active_kind_label_plural());
        self.set_status(status, now);
    }

    /// The selected formula.
    pub fn selected_leaf(&self) -> (name: Option<&str>)
        ensures
            name.deep_view() == self@.selected_leaf(),
    {
        entry_at(self.leaves(), self.selected_index())
    }

    /// The selected cask.
    pub fn selected_cask(&self) -> (name: Option<&str>)
        ensures
            name.deep_view() == self@.selected_cask(),
    {
        entry_at(self.casks(), self.selected_cask_index())
    }

    /// The selected search result.
    pub fn selected_package_result(&self) -> (name: Option<&str>)
        ensures
            name.deep_view() == self@.selected_package_result(),
    {
        entry_at(self.package_results(), self.package_results_selected())
    }

    /// The selected entry of the installed list that is shown.
    pub fn selected_installed_package(&self) -> (name: Option<&str>)
        ensures
            name.deep_view() == self@.selected_installed_package(),
    {
        if self.is_cask_mode() {
            self.selected_cask()
        } else {
            self.selected_leaf()
        }
    }

    /// The selected package of whichever list is active.
    pub fn selected_package_name(&self) -> (name: Option<&str>)
        ensures
            name.deep_view() == self@.selected_package_name(),
    {
        let mode = self.input_mode();
        if mode == InputMode::PackageSearch || mode == InputMode::PackageResults {
            self.selected_package_result()
        } else {
            self.selected_installed_package()
        }
    }

    /// Moves the selection of the shown list one step down.
    pub fn select_next(&mut self)
        ensures
            final(self)@ == old(self)@.select_next(),
    {
        if self.is_cask_mode() {
            let now = next(self.visible_casks(), self.selected_cask_index());
            self.set_selected_cask_index(now);
        } else {
            let now = next(self.visible_leaves(), self.selected_index());
            self.set_selected_index(now);
        }
    }

    /// Moves the selection of the shown list one step up.
    pub fn select_prev(&mut self)
        ensures
            final(self)@ == old(self)@.select_prev(),
    {
        if self.is_cask_mode() {
            let now = prev(self.visible_casks(), self.selected_cask_index());
            self.set_selected_cask_index(now);
        } else {
            let now = prev(self.visible_leaves(), self.selected_index());
            self.set_selected_index(now);
        }
    }

    fn select_result_step(&mut self, forward: bool)
        ensures
            final(self)@ == old(self)@.select_result_step(forward),
    {
        let count = self.package_results().len();
        let now = step_plain(count, self.package_results_selected(), forward);
        self.set_package_results_selected(now);
        if count != 0 {
            self.set_last_result_details_pkg(None);
        }
    }

    /// Moves the selected search result one step down.
    pub fn select_next_result(&mut self)
        ensures
            final(self)@ == old(self)@.select_next_result(),
    {
        self.select_result_step(true);
    }

    /// Moves the selected search result one step up.
    pub fn select_prev_result(&mut self)
        ensures
            final(self)@ == old(self)@.select_prev_result(),
    {
        self.select_result_step(false);
    }

    /// Drops the search results.
    pub fn clear_package_results(&mut self)
        ensures
            final(self)@ == old(self)@.clear_package_results(),
    {
        let none: Vec<String> = Vec::new();
        proof {
            assert(none.deep_view() =~= Seq::empty());
        }
        self.set_package_results(none);
        self.set_package_results_selected(None);
        self.set_last_package_search(None);
        self.set_last_result_details_pkg(None);
    }
}

} // verus!
