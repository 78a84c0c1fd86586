//! The state store: the one aggregate that every handler reads and
//! changes, its mathematical value, and the reading and writing of its
//! fields. Everything else in the crate goes through the functions of this
//! file and reasons about the store by its value alone.

use vstd::prelude::*;
use vstd::string::*;

use crate::cache::{
    distinct_keys, lookup, overlaid, touched, DetailsCache, Entry, DETAILS_CACHE_CAPACITY,
};
use crate::filter::index_wf;
use crate::gateway::{
    CommandKind, Details, SizeEntry, SizeEntryView, StatusSnapshot, StatusSnapshotView,
};
use crate::text::{push_char, without_last};
use crate::types::{
    switch, FocusedPanel, IconMode, InputMode, PackageKind, PendingPackageAction,
    PendingPackageActionView, StatusTab, Switch, ThemeMode, Toast, ToastView, ViewMode,
};

verus! {

/// The single state store of the dashboard. All times are in milliseconds
/// on a clock that the caller reads and that never runs backwards.
pub struct App {
    /// When the dashboard started, in milliseconds on the caller's clock.
    pub started_at: u64,
    /// When the status line was last written.
    pub last_refresh: u64,
    /// The status line.
    pub status: String,
    /// The toast on screen, if any.
    pub toast: Option<Toast>,
    /// How colours are chosen.
    pub theme_mode: ThemeMode,
    /// Where keyboard input goes.
    pub input_mode: InputMode,
    /// The text filter on the installed lists.
    pub leaves_query: String,
    /// The text typed into the package search.
    pub package_query: String,
    /// Which installed list is shown.
    pub active_package_kind: PackageKind,
    /// The installed formulae, sorted.
    pub leaves: Vec<String>,
    /// The visible formulae, as indices into `leaves`.
    pub filtered_leaves: Vec<usize>,
    /// The formulae that the last status check found outdated.
    pub outdated_leaves: Vec<String>,
    /// Whether `filtered_leaves` has yet to be built.
    pub filtered_leaves_dirty: bool,
    /// The selected formula, as an index into `leaves`.
    pub selected_index: Option<usize>,
    /// The installed casks, sorted.
    pub casks: Vec<String>,
    /// The visible casks, as indices into `casks`.
    pub filtered_casks: Vec<usize>,
    /// The selected cask, as an index into `casks`.
    pub selected_cask_index: Option<usize>,
    /// Whether a fetch of the casks is in flight.
    pub pending_casks: bool,
    /// When the casks last arrived.
    pub last_casks_refresh: Option<u64>,
    /// The results of the last package search.
    pub package_results: Vec<String>,
    /// The selected search result.
    pub package_results_selected: Option<usize>,
    /// The query of the last package search.
    pub last_package_search: Option<String>,
    /// The search result whose details were last fetched by itself.
    pub last_result_details_pkg: Option<String>,
    /// The details cache, most recently used entry first.
    pub details_cache: DetailsCache,
    /// The package whose details fetch is in flight.
    pub pending_details: Option<String>,
    /// What the right-hand side shows.
    pub view_mode: ViewMode,
    /// The footprints of the installed packages.
    pub sizes: Vec<SizeEntry>,
    /// Whether a fetch of the footprints is in flight.
    pub pending_sizes: bool,
    /// How icons are chosen.
    pub icon_mode: IconMode,
    /// Whether icons are drawn in ASCII.
    pub icons_ascii: bool,
    /// Whether a command is in flight.
    pub pending_command: bool,
    /// The command that was last started.
    pub last_command: Option<CommandKind>,
    /// The package that the last command acts on.
    pub last_command_target: Option<String>,
    /// Whether that package is a cask.
    pub last_command_target_is_cask: bool,
    /// When the command in flight was started.
    pub command_started_at: Option<u64>,
    /// Label, package and time of the last package action that succeeded.
    pub last_command_completed: Option<(String, String, u64)>,
    /// The first lines that the last command printed.
    pub last_command_output: Vec<String>,
    /// Why the last command failed.
    pub last_command_error: Option<String>,
    /// Why the last fetch failed.
    pub last_error: Option<String>,
    /// The package action that waits for its confirmation.
    pub pending_package_action: Option<PendingPackageAction>,
    /// Whether the upgrade of all outdated packages waits for its confirmation.
    pub pending_upgrade_all_outdated: bool,
    /// Whether the update of the dashboard itself waits for its confirmation.
    pub pending_self_update: bool,
    /// Whether a fetch of the formulae is in flight.
    pub pending_leaves: bool,
    /// When the formulae last arrived.
    pub last_leaves_refresh: Option<u64>,
    /// When the footprints last arrived.
    pub last_sizes_refresh: Option<u64>,
    /// The panel that scrolling keys act on.
    pub focus_panel: FocusedPanel,
    /// How far the sizes panel is scrolled.
    pub sizes_scroll_offset: usize,
    /// How far the details panel is scrolled.
    pub details_scroll_offset: usize,
    /// How far the status panel is scrolled.
    pub status_scroll_offset: usize,
    /// The last status snapshot.
    pub system_status: Option<StatusSnapshot>,
    /// Whether a status check is in flight.
    pub pending_status: bool,
    /// When the last status snapshot arrived.
    pub last_status_check: Option<u64>,
    /// The tab of the status panel.
    pub status_tab: StatusTab,
    /// Whether only outdated formulae are visible.
    pub leaves_outdated_only: bool,
    /// Whether the help is shown.
    pub show_help_popup: bool,
    /// How far the help is scrolled.
    pub help_scroll_offset: usize,
    /// Whether the screen is out of date.
    pub needs_redraw: bool,
    /// When the selection last moved.
    pub last_selection_change: Option<u64>,
    /// How often the selection moved without a pause.
    pub recent_selection_count: u8,
}

/// The mathematical value of the state store: each field of [`App`] by
/// its value, each flag as a [`Switch`].
pub struct AppView {
    /// When the dashboard started, in milliseconds on the caller's clock.
    pub started_at: u64,
    /// When the status line was last written.
    pub last_refresh: u64,
    /// The status line.
    pub status: Seq<char>,
    /// The toast on screen, if any.
    pub toast: Option<ToastView>,
    /// How colours are chosen.
    pub theme_mode: ThemeMode,
    /// Where keyboard input goes.
    pub input_mode: InputMode,
    /// The text filter on the installed lists.
    pub leaves_query: Seq<char>,
    /// The text typed into the package search.
    pub package_query: Seq<char>,
    /// Which installed list is shown.
    pub active_package_kind: PackageKind,
    /// The installed formulae, sorted.
    pub leaves: Seq<Seq<char>>,
    /// The visible formulae, as indices into `leaves`.
    pub filtered_leaves: Seq<usize>,
    /// The formulae that the last status check found outdated.
    pub outdated_leaves: Seq<Seq<char>>,
    /// Whether `filtered_leaves` has yet to be built.
    pub filtered_leaves_dirty: Switch,
    /// The selected formula, as an index into `leaves`.
    pub selected_index: Option<usize>,
    /// The installed casks, sorted.
    pub casks: Seq<Seq<char>>,
    /// The visible casks, as indices into `casks`.
    pub filtered_casks: Seq<usize>,
    /// The selected cask, as an index into `casks`.
    pub selected_cask_index: Option<usize>,
    /// Whether a fetch of the casks is in flight.
    pub pending_casks: Switch,
    /// When the casks last arrived.
    pub last_casks_refresh: Option<u64>,
    /// The results of the last package search.
    pub package_results: Seq<Seq<char>>,
    /// The selected search result.
    pub package_results_selected: Option<usize>,
    /// The query of the last package search.
    pub last_package_search: Option<Seq<char>>,
    /// The search result whose details were last fetched by itself.
    pub last_result_details_pkg: Option<Seq<char>>,
    /// The details cache, most recently used entry first.
    pub details_cache: Seq<Entry>,
    /// The number of entries that the details cache was made for.
    pub details_capacity: nat,
    /// The package whose details fetch is in flight.
    pub pending_details: Option<Seq<char>>,
    /// What the right-hand side shows.
    pub view_mode: ViewMode,
    /// The footprints of the installed packages.
    pub sizes: Seq<SizeEntryView>,
    /// Whether a fetch of the footprints is in flight.
    pub pending_sizes: Switch,
    /// How icons are chosen.
    pub icon_mode: IconMode,
    /// Whether icons are drawn in ASCII.
    pub icons_ascii: Switch,
    /// Whether a command is in flight.
    pub pending_command: Switch,
    /// The command that was last started.
    pub last_command: Option<CommandKind>,
    /// The package that the last command acts on.
    pub last_command_target: Option<Seq<char>>,
    /// Whether that package is a cask.
    pub last_command_target_is_cask: Switch,
    /// When the command in flight was started.
    pub command_started_at: Option<u64>,
    /// Label, package and time of the last package action that succeeded.
    pub last_command_completed: Option<(Seq<char>, Seq<char>, u64)>,
    /// The first lines that the last command printed.
    pub last_command_output: Seq<Seq<char>>,
    /// Why the last command failed.
    pub last_command_error: Option<Seq<char>>,
    /// Why the last fetch failed.
    pub last_error: Option<Seq<char>>,
    /// The package action that waits for its confirmation.
    pub pending_package_action: Option<PendingPackageActionView>,
    /// Whether the upgrade of all outdated packages waits for its confirmation.
    pub pending_upgrade_all_outdated: Switch,
    /// Whether the update of the dashboard itself waits for its confirmation.
    pub pending_self_update: Switch,
    /// Whether a fetch of the formulae is in flight.
    pub pending_leaves: Switch,
    /// When the formulae last arrived.
    pub last_leaves_refresh: Option<u64>,
    /// When the footprints last arrived.
    pub last_sizes_refresh: Option<u64>,
    /// The panel that scrolling keys act on.
    pub focus_panel: FocusedPanel,
    /// How far the sizes panel is scrolled.
    pub sizes_scroll_offset: usize,
    /// How far the details panel is scrolled.
    pub details_scroll_offset: usize,
    /// How far the status panel is scrolled.
    pub status_scroll_offset: usize,
    /// The last status snapshot.
    pub system_status: Option<StatusSnapshotView>,
    /// Whether a status check is in flight.
    pub pending_status: Switch,
    /// When the last status snapshot arrived.
    pub last_status_check: Option<u64>,
    /// The tab of the status panel.
    pub status_tab: StatusTab,
    /// Whether only outdated formulae are visible.
    pub leaves_outdated_only: Switch,
    /// Whether the help is shown.
    pub show_help_popup: Switch,
    /// How far the help is scrolled.
    pub help_scroll_offset: usize,
    /// Whether the screen is out of date.
    pub needs_redraw: Switch,
    /// When the selection last moved.
    pub last_selection_change: Option<u64>,
    /// How often the selection moved without a pause.
    pub recent_selection_count: u8,
}

impl View for App {
    type V = AppView;

    closed spec fn view(&self) -> AppView {
        AppView {
            started_at: self.started_at,
            last_refresh: self.last_refresh,
            status: self.status@,
            toast: self.toast.deep_view(),
            theme_mode: self.theme_mode,
            input_mode: self.input_mode,
            leaves_query: self.leaves_query@,
            package_query: self.package_query@,
            active_package_kind: self.active_package_kind,
            leaves: self.leaves.deep_view(),
            filtered_leaves: self.filtered_leaves@,
            outdated_leaves: self.outdated_leaves.deep_view(),
            filtered_leaves_dirty: switch(self.filtered_leaves_dirty),
            selected_index: self.selected_index,
            casks: self.casks.deep_view(),
            filtered_casks: self.filtered_casks@,
            selected_cask_index: self.selected_cask_index,
            pending_casks: switch(self.pending_casks),
            last_casks_refresh: self.last_casks_refresh,
            package_results: self.package_results.deep_view(),
            package_results_selected: self.package_results_selected,
            last_package_search: self.last_package_search.deep_view(),
            last_result_details_pkg: self.last_result_details_pkg.deep_view(),
            details_cache: self.details_cache@,
            details_capacity: self.details_cache.capacity(),
            pending_details: self.pending_details.deep_view(),
            view_mode: self.view_mode,
            sizes: self.sizes.deep_view(),
            pending_sizes: switch(self.pending_sizes),
            icon_mode: self.icon_mode,
            icons_ascii: switch(self.icons_ascii),
            pending_command: switch(self.pending_command),
            last_command: self.last_command,
            last_command_target: self.last_command_target.deep_view(),
            last_command_target_is_cask: switch(self.last_command_target_is_cask),
            command_started_at: self.command_started_at,
            last_command_completed: self.last_command_completed.deep_view(),
            last_command_output: self.last_command_output.deep_view(),
            last_command_error: self.last_command_error.deep_view(),
            last_error: self.last_error.deep_view(),
            pending_package_action: self.pending_package_action.deep_view(),
            pending_upgrade_all_outdated: switch(self.pending_upgrade_all_outdated),
            pending_self_update: switch(self.pending_self_update),
            pending_leaves: switch(self.pending_leaves),
            last_leaves_refresh: self.last_leaves_refresh,
            last_sizes_refresh: self.last_sizes_refresh,
            focus_panel: self.focus_panel,
            sizes_scroll_offset: self.sizes_scroll_offset,
            details_scroll_offset: self.details_scroll_offset,
            status_scroll_offset: self.status_scroll_offset,
            system_status: self.system_status.deep_view(),
            pending_status: switch(self.pending_status),
            last_status_check: self.last_status_check,
            status_tab: self.status_tab,
            leaves_outdated_only: switch(self.leaves_outdated_only),
            show_help_popup: switch(self.show_help_popup),
            help_scroll_offset: self.help_scroll_offset,
            needs_redraw: switch(self.needs_redraw),
            last_selection_change: self.last_selection_change,
            recent_selection_count: self.recent_selection_count,
        }
    }
}

impl App {
    /// Reads when the dashboard started, in milliseconds on the caller's clock.
    pub fn started_at(&self) -> (value: u64)
        ensures
            value == self@.started_at,
    {
        self.started_at
    }

    /// Sets when the dashboard started, in milliseconds on the caller's clock.
    pub fn set_started_at(&mut self, value: u64)
        ensures
            final(self)@ == (AppView { started_at: value, ..old(self)@ }),
    {
        self.started_at = value;
    }

    /// Reads when the status line was last written.
    pub fn last_refresh(&self) -> (value: u64)
        ensures
            value == self@.last_refresh,
    {
        self.last_refresh
    }

    /// Sets when the status line was last written.
    pub fn set_last_refresh(&mut self, value: u64)
        ensures
            final(self)@ == (AppView { last_refresh: value, ..old(self)@ }),
    {
        self.last_refresh = value;
    }

    /// Reads the status line.
    pub fn status(&self) -> (value: &String)
        ensures
            value@ == self@.status,
    {
        &self.status
    }

    /// Sets the status line.
    pub fn set_status_text(&mut self, value: String)
        ensures
            final(self)@ == (AppView { status: value@, ..old(self)@ }),
    {
        self.status = value;
    }

    /// Reads the toast on screen, if any.
    pub fn toast(&self) -> (value: &Option<Toast>)
        ensures
            value.deep_view() == self@.toast,
    {
        &self.toast
    }

    /// Sets the toast on screen, if any.
    pub fn set_toast(&mut self, value: Option<Toast>)
        ensures
            final(self)@ == (AppView { toast: value.deep_view(), ..old(self)@ }),
    {
        self.toast = value;
    }

    /// Reads how colours are chosen.
    pub fn theme_mode(&self) -> (value: ThemeMode)
        ensures
            value == self@.theme_mode,
    {
        self.theme_mode
    }

    /// Sets how colours are chosen.
    pub fn set_theme_mode(&mut self, value: ThemeMode)
        ensures
            final(self)@ == (AppView { theme_mode: value, ..old(self)@ }),
    {
        self.theme_mode = value;
    }

    /// Reads where keyboard input goes.
    pub fn input_mode(&self) -> (value: InputMode)
        ensures
            value == self@.input_mode,
    {
        self.input_mode
    }

    /// Sets where keyboard input goes.
    pub fn set_input_mode(&mut self, value: InputMode)
        ensures
            final(self)@ == (AppView { input_mode: value, ..old(self)@ }),
    {
        self.input_mode = value;
    }

    /// Reads the text filter on the installed lists.
    pub fn leaves_query(&self) -> (value: &String)
        ensures
            value@ == self@.leaves_query,
    {
        &self.leaves_query
    }

    /// Sets the text filter on the installed lists.
    pub fn set_leaves_query(&mut self, value: String)
        ensures
            final(self)@ == (AppView { leaves_query: value@, ..old(self)@ }),
    {
        self.leaves_query = value;
    }

    /// Reads the text typed into the package search.
    pub fn package_query(&self) -> (value: &String)
        ensures
            value@ == self@.package_query,
    {
        &self.package_query
    }

    /// Sets the text typed into the package search.
    pub fn set_package_query(&mut self, value: String)
        ensures
            final(self)@ == (AppView { package_query: value@, ..old(self)@ }),
    {
        self.package_query = value;
    }

    /// Reads which installed list is shown.
    pub fn active_package_kind(&self) -> (value: PackageKind)
        ensures
            value == self@.active_package_kind,
    {
        self.active_package_kind
    }

    /// Sets which installed list is shown.
    pub fn set_active_package_kind(&mut self, value: PackageKind)
        ensures
            final(self)@ == (AppView { active_package_kind: value, ..old(self)@ }),
    {
        self.active_package_kind = value;
    }

    /// Reads the installed formulae, sorted.
    pub fn leaves(&self) -> (value: &Vec<String>)
        ensures
            value.deep_view() == self@.leaves,
    {
        &self.leaves
    }

    /// Sets the installed formulae, sorted.
    pub fn set_leaves(&mut self, value: Vec<String>)
        ensures
            final(self)@ == (AppView { leaves: value.deep_view(), ..old(self)@ }),
    {
        self.leaves = value;
    }

    /// Reads the visible formulae, as indices into `leaves`.
    pub fn visible_leaves(&self) -> (value: &Vec<usize>)
        ensures
            value@ == self@.filtered_leaves,
    {
        &self.filtered_leaves
    }

    /// Sets the visible formulae, as indices into `leaves`.
    pub fn set_filtered_leaves(&mut self, value: Vec<usize>)
        ensures
            final(self)@ == (AppView { filtered_leaves: value@, ..old(self)@ }),
    {
        self.filtered_leaves = value;
    }

    /// Reads the formulae that the last status check found outdated.
    pub fn outdated_leaves(&self) -> (value: &Vec<String>)
        ensures
            value.deep_view() == self@.outdated_leaves,
    {
        &self.outdated_leaves
    }

    /// Sets the formulae that the last status check found outdated.
    pub fn set_outdated_leaves(&mut self, value: Vec<String>)
        ensures
            final(self)@ == (AppView { outdated_leaves: value.deep_view(), ..old(self)@ }),
    {
        self.outdated_leaves = value;
    }

    /// Reads whether `filtered_leaves` has yet to be built.
    pub fn filtered_leaves_dirty(&self) -> (value: bool)
        ensures
            value == self@.filtered_leaves_dirty.on(),
    {
        self.filtered_leaves_dirty
    }

    /// Sets whether `filtered_leaves` has yet to be built.
    pub fn set_filtered_leaves_dirty(&mut self, value: bool)
        ensures
            final(self)@ == (AppView { filtered_leaves_dirty: switch(value), ..old(self)@ }),
    {
        self.filtered_leaves_dirty = value;
    }

    /// Reads the selected formula, as an index into `leaves`.
    pub fn selected_index(&self) -> (value: Option<usize>)
        ensures
            value == self@.selected_index,
    {
        self.selected_index
    }

    /// Sets the selected formula, as an index into `leaves`.
    pub fn set_selected_index(&mut self, value: Option<usize>)
        ensures
            final(self)@ == (AppView { selected_index: value, ..old(self)@ }),
    {
        self.selected_index = value;
    }

    /// Reads the installed casks, sorted.
    pub fn casks(&self) -> (value: &Vec<String>)
        ensures
            value.deep_view() == self@.casks,
    {
        &self.casks
    }

    /// Sets the installed casks, sorted.
    pub fn set_casks(&mut self, value: Vec<String>)
        ensures
            final(self)@ == (AppView { casks: value.deep_view(), ..old(self)@ }),
    {
        self.casks = value;
    }

    /// Reads the visible casks, as indices into `casks`.
    pub fn visible_casks(&self) -> (value: &Vec<usize>)
        ensures
            value@ == self@.filtered_casks,
    {
        &self.filtered_casks
    }

    /// Sets the visible casks, as indices into `casks`.
    pub fn set_filtered_casks(&mut self, value: Vec<usize>)
        ensures
            final(self)@ == (AppView { filtered_casks: value@, ..old(self)@ }),
    {
        self.filtered_casks = value;
    }

    /// Reads the selected cask, as an index into `casks`.
    pub fn selected_cask_index(&self) -> (value: Option<usize>)
        ensures
            value == self@.selected_cask_index,
    {
        self.selected_cask_index
    }

    /// Sets the selected cask, as an index into `casks`.
    pub fn set_selected_cask_index(&mut self, value: Option<usize>)
        ensures
            final(self)@ == (AppView { selected_cask_index: value, ..old(self)@ }),
    {
        self.selected_cask_index = value;
    }

    /// Reads whether a fetch of the casks is in flight.
    pub fn pending_casks(&self) -> (value: bool)
        ensures
            value == self@.pending_casks.on(),
    {
        self.pending_casks
    }

    /// Sets whether a fetch of the casks is in flight.
    pub fn set_pending_casks(&mut self, value: bool)
        ensures
            final(self)@ == (AppView { pending_casks: switch(value), ..old(self)@ }),
    {
        self.pending_casks = value;
    }

    /// Reads when the casks last arrived.
    pub fn last_casks_refresh(&self) -> (value: Option<u64>)
        ensures
            value == self@.last_casks_refresh,
    {
        self.last_casks_refresh
    }

    /// Sets when the casks last arrived.
    pub fn set_last_casks_refresh(&mut self, value: Option<u64>)
        ensures
            final(self)@ == (AppView { last_casks_refresh: value, ..old(self)@ }),
    {
        self.last_casks_refresh = value;
    }

    /// Reads the results of the last package search.
    pub fn package_results(&self) -> (value: &Vec<String>)
        ensures
            value.deep_view() == self@.package_results,
    {
        &self.package_results
    }

    /// Sets the results of the last package search.
    pub fn set_package_results(&mut self, value: Vec<String>)
        ensures
            final(self)@ == (AppView { package_results: value.deep_view(), ..old(self)@ }),
    {
        self.package_results = value;
    }

    /// Reads the selected search result.
    pub fn package_results_selected(&self) -> (value: Option<usize>)
        ensures
            value == self@.package_results_selected,
    {
        self.package_results_selected
    }

    /// Sets the selected search result.
    pub fn set_package_results_selected(&mut self, value: Option<usize>)
        ensures
            final(self)@ == (AppView { package_results_selected: value, ..old(self)@ }),
    {
        self.package_results_selected = value;
    }

    /// Reads the query of the last package search.
    pub fn last_package_search(&self) -> (value: &Option<String>)
        ensures
            value.deep_view() == self@.last_package_search,
    {
        &self.last_package_search
    }

    /// Sets the query of the last package search.
    pub fn set_last_package_search(&mut self, value: Option<String>)
        ensures
            final(self)@ == (AppView { last_package_search: value.deep_view(), ..old(self)@ }),
    {
        self.last_package_search = value;
    }

    /// Reads the search result whose details were last fetched by itself.
    pub fn last_result_details_pkg(&self) -> (value: &Option<String>)
        ensures
            value.deep_view() == self@.last_result_details_pkg,
    {
        &self.last_result_details_pkg
    }

    /// Sets the search result whose details were last fetched by itself.
    pub fn set_last_result_details_pkg(&mut self, value: Option<String>)
        ensures
            final(self)@ == (AppView { last_result_details_pkg: value.deep_view(), ..old(self)@ }),
    {
        self.last_result_details_pkg = value;
    }

    /// Reads the package whose details fetch is in flight.
    pub fn pending_details(&self) -> (value: &Option<String>)
        ensures
            value.deep_view() == self@.pending_details,
    {
        &self.pending_details
    }

    /// Sets the package whose details fetch is in flight.
    pub fn set_pending_details(&mut self, value: Option<String>)
        ensures
            final(self)@ == (AppView { pending_details: value.deep_view(), ..old(self)@ }),
    {
        self.pending_details = value;
    }

    /// Reads what the right-hand side shows.
    pub fn view_mode(&self) -> (value: ViewMode)
        ensures
            value == self@.view_mode,
    {
        self.view_mode
    }

    /// Sets what the right-hand side shows.
    pub fn set_view_mode(&mut self, value: ViewMode)
        ensures
            final(self)@ == (AppView { view_mode: value, ..old(self)@ }),
    {
        self.view_mode = value;
    }

    /// Reads the footprints of the installed packages.
    pub fn sizes(&self) -> (value: &Vec<SizeEntry>)
        ensures
            value.deep_view() == self@.sizes,
    {
        &self.sizes
    }

    /// Sets the footprints of the installed packages.
    pub fn set_sizes(&mut self, value: Vec<SizeEntry>)
        ensures
            final(self)@ == (AppView { sizes: value.deep_view(), ..old(self)@ }),
    {
        self.sizes = value;
    }

    /// Reads whether a fetch of the footprints is in flight.
    pub fn pending_sizes(&self) -> (value: bool)
        ensures
            value == self@.pending_sizes.on(),
    {
        self.pending_sizes
    }

    /// Sets whether a fetch of the footprints is in flight.
    pub fn set_pending_sizes(&mut self, value: bool)
        ensures
            final(self)@ == (AppView { pending_sizes: switch(value), ..old(self)@ }),
    {
        self.pending_sizes = value;
    }

    /// Reads how icons are chosen.
    pub fn icon_mode(&self) -> (value: IconMode)
        ensures
            value == self@.icon_mode,
    {
        self.icon_mode
    }

    /// Sets how icons are chosen.
    pub fn set_icon_mode(&mut self, value: IconMode)
        ensures
            final(self)@ == (AppView { icon_mode: value, ..old(self)@ }),
    {
        self.icon_mode = value;
    }

    /// Reads whether icons are drawn in ASCII.
    pub fn icons_ascii(&self) -> (value: bool)
        ensures
            value == self@.icons_ascii.on(),
    {
        self.icons_ascii
    }

    /// Sets whether icons are drawn in ASCII.
    pub fn set_icons_ascii(&mut self, value: bool)
        ensures
            final(self)@ == (AppView { icons_ascii: switch(value), ..old(self)@ }),
    {
        self.icons_ascii = value;
    }

    /// Reads whether a command is in flight.
    pub fn pending_command(&self) -> (value: bool)
        ensures
            value == self@.pending_command.on(),
    {
        self.pending_command
    }

    /// Sets whether a command is in flight.
    pub fn set_pending_command(&mut self, value: bool)
        ensures
            final(self)@ == (AppView { pending_command: switch(value), ..old(self)@ }),
    {
        self.pending_command = value;
    }

    /// Reads the command that was last started.
    pub fn last_command(&self) -> (value: Option<CommandKind>)
        ensures
            value == self@.last_command,
    {
        self.last_command
    }

    /// Sets the command that was last started.
    pub fn set_last_command(&mut self, value: Option<CommandKind>)
        ensures
            final(self)@ == (AppView { last_command: value, ..old(self)@ }),
    {
        self.last_command = value;
    }

    /// Reads the package that the last command acts on.
    pub fn last_command_target(&self) -> (value: &Option<String>)
        ensures
            value.deep_view() == self@.last_command_target,
    {
        &self.last_command_target
    }

    /// Sets the package that the last command acts on.
    pub fn set_last_command_target(&mut self, value: Option<String>)
        ensures
            final(self)@ == (AppView { last_command_target: value.deep_view(), ..old(self)@ }),
    {
        self.last_command_target = value;
    }

    /// Reads whether that package is a cask.
    pub fn last_command_target_is_cask(&self) -> (value: bool)
        ensures
            value == self@.last_command_target_is_cask.on(),
    {
        self.last_command_target_is_cask
    }

    /// Sets whether that package is a cask.
    pub fn set_last_command_target_is_cask(&mut self, value: bool)
        ensures
            final(self)@ == (AppView { last_command_target_is_cask: switch(value), ..old(self)@ }),
    {
        self.last_command_target_is_cask = value;
    }

    /// Reads when the command in flight was started.
    pub fn command_started_at(&self) -> (value: Option<u64>)
        ensures
            value == self@.command_started_at,
    {
        self.command_started_at
    }

    /// Sets when the command in flight was started.
    pub fn set_command_started_at(&mut self, value: Option<u64>)
        ensures
            final(self)@ == (AppView { command_started_at: value, ..old(self)@ }),
    {
        self.command_started_at = value;
    }

    /// Reads label, package and time of the last package action that succeeded.
    pub fn last_command_completed(&self) -> (value: &Option<(String, String, u64)>)
        ensures
            value.deep_view() == self@.last_command_completed,
    {
        &self.last_command_completed
    }

    /// Sets label, package and time of the last package action that succeeded.
    pub fn set_last_command_completed(&mut self, value: Option<(String, String, u64)>)
        ensures
            final(self)@ == (AppView { last_command_completed: value.deep_view(), ..old(self)@ }),
    {
        self.last_command_completed = value;
    }

    /// Reads the first lines that the last command printed.
    pub fn last_command_output(&self) -> (value: &Vec<String>)
        ensures
            value.deep_view() == self@.last_command_output,
    {
        &self.last_command_output
    }

    /// Sets the first lines that the last command printed.
    pub fn set_last_command_output(&mut self, value: Vec<String>)
        ensures
            final(self)@ == (AppView { last_command_output: value.deep_view(), ..old(self)@ }),
    {
        self.last_command_output = value;
    }

    /// Reads why the last command failed.
    pub fn last_command_error(&self) -> (value: &Option<String>)
        ensures
            value.deep_view() == self@.last_command_error,
    {
        &self.last_command_error
    }

    /// Sets why the last command failed.
    pub fn set_last_command_error(&mut self, value: Option<String>)
        ensures
            final(self)@ == (AppView { last_command_error: value.deep_view(), ..old(self)@ }),
    {
        self.last_command_error = value;
    }

    /// Reads why the last fetch failed.
    pub fn last_error(&self) -> (value: &Option<String>)
        ensures
            value.deep_view() == self@.last_error,
    {
        &self.last_error
    }

    /// Sets why the last fetch failed.
    pub fn set_last_error(&mut self, value: Option<String>)
        ensures
            final(self)@ == (AppView { last_error: value.deep_view(), ..old(self)@ }),
    {
        self.last_error = value;
    }

    /// Reads the package action that waits for its confirmation.
    pub fn pending_package_action(&self) -> (value: &Option<PendingPackageAction>)
        ensures
            value.deep_view() == self@.pending_package_action,
    {
        &self.pending_package_action
    }

    /// Sets the package action that waits for its confirmation.
    pub fn set_pending_package_action(&mut self, value: Option<PendingPackageAction>)
        ensures
            final(self)@ == (AppView { pending_package_action: value.deep_view(), ..old(self)@ }),
    {
        self.pending_package_action = value;
    }

    /// Reads whether the upgrade of all outdated packages waits for its confirmation.
    pub fn pending_upgrade_all_outdated(&self) -> (value: bool)
        ensures
            value == self@.pending_upgrade_all_outdated.on(),
    {
        self.pending_upgrade_all_outdated
    }

    /// Sets whether the upgrade of all outdated packages waits for its confirmation.
    pub fn set_pending_upgrade_all_outdated(&mut self, value: bool)
        ensures
            final(self)@ == (AppView { pending_upgrade_all_outdated: switch(value), ..old(self)@ }),
    {
        self.pending_upgrade_all_outdated = value;
    }

    /// Reads whether the update of the dashboard itself waits for its confirmation.
    pub fn pending_self_update(&self) -> (value: bool)
        ensures
            value == self@.pending_self_update.on(),
    {
        self.pending_self_update
    }

    /// Sets whether the update of the dashboard itself waits for its confirmation.
    pub fn set_pending_self_update(&mut self, value: bool)
        ensures
            final(self)@ == (AppView { pending_self_update: switch(value), ..old(self)@ }),
    {
        self.pending_self_update = value;
    }

    /// Reads whether a fetch of the formulae is in flight.
    pub fn pending_leaves(&self) -> (value: bool)
        ensures
            value == self@.pending_leaves.on(),
    {
        self.pending_leaves
    }

    /// Sets whether a fetch of the formulae is in flight.
    pub fn set_pending_leaves(&mut self, value: bool)
        ensures
            final(self)@ == (AppView { pending_leaves: switch(value), ..old(self)@ }),
    {
        self.pending_leaves = value;
    }

    /// Reads when the formulae last arrived.
    pub fn last_leaves_refresh(&self) -> (value: Option<u64>)
        ensures
            value == self@.last_leaves_refresh,
    {
        self.last_leaves_refresh
    }

    /// Sets when the formulae last arrived.
    pub fn set_last_leaves_refresh(&mut self, value: Option<u64>)
        ensures
            final(self)@ == (AppView { last_leaves_refresh: value, ..old(self)@ }),
    {
        self.last_leaves_refresh = value;
    }

    /// Reads when the footprints last arrived.
    pub fn last_sizes_refresh(&self) -> (value: Option<u64>)
        ensures
            value == self@.last_sizes_refresh,
    {
        self.last_sizes_refresh
    }

    /// Sets when the footprints last arrived.
    pub fn set_last_sizes_refresh(&mut self, value: Option<u64>)
        ensures
            final(self)@ == (AppView { last_sizes_refresh: value, ..old(self)@ }),
    {
        self.last_sizes_refresh = value;
    }

    /// Reads the panel that scrolling keys act on.
    pub fn focus_panel(&self) -> (value: FocusedPanel)
        ensures
            value == self@.focus_panel,
    {
        self.focus_panel
    }

    /// Sets the panel that scrolling keys act on.
    pub fn set_focus_panel(&mut self, value: FocusedPanel)
        ensures
            final(self)@ == (AppView { focus_panel: value, ..old(self)@ }),
    {
        self.focus_panel = value;
    }

    /// Reads how far the sizes panel is scrolled.
    pub fn sizes_scroll_offset(&self) -> (value: usize)
        ensures
            value == self@.sizes_scroll_offset,
    {
        self.sizes_scroll_offset
    }

    /// Sets how far the sizes panel is scrolled.
    pub fn set_sizes_scroll_offset(&mut self, value: usize)
        ensures
            final(self)@ == (AppView { sizes_scroll_offset: value, ..old(self)@ }),
    {
        self.sizes_scroll_offset = value;
    }

    /// Reads how far the details panel is scrolled.
    pub fn details_scroll_offset(&self) -> (value: usize)
        ensures
            value == self@.details_scroll_offset,
    {
        self.details_scroll_offset
    }

    /// Sets how far the details panel is scrolled.
    pub fn set_details_scroll_offset(&mut self, value: usize)
        ensures
            final(self)@ == (AppView { details_scroll_offset: value, ..old(self)@ }),
    {
        self.details_scroll_offset = value;
    }

    /// Reads how far the status panel is scrolled.
    pub fn status_scroll_offset(&self) -> (value: usize)
        ensures
            value == self@.status_scroll_offset,
    {
        self.status_scroll_offset
    }

    /// Sets how far the status panel is scrolled.
    pub fn set_status_scroll_offset(&mut self, value: usize)
        ensures
            final(self)@ == (AppView { status_scroll_offset: value, ..old(self)@ }),
    {
        self.status_scroll_offset = value;
    }

    /// Reads the last status snapshot.
    pub fn system_status(&self) -> (value: &Option<StatusSnapshot>)
        ensures
            value.deep_view() == self@.system_status,
    {
        &self.system_status
    }

    /// Sets the last status snapshot.
    pub fn set_system_status(&mut self, value: Option<StatusSnapshot>)
        ensures
            final(self)@ == (AppView { system_status: value.deep_view(), ..old(self)@ }),
    {
        self.system_status = value;
    }

    /// Reads whether a status check is in flight.
    pub fn pending_status(&self) -> (value: bool)
        ensures
            value == self@.pending_status.on(),
    {
        self.pending_status
    }

    /// Sets whether a status check is in flight.
    pub fn set_pending_status(&mut self, value: bool)
        ensures
            final(self)@ == (AppView { pending_status: switch(value), ..old(self)@ }),
    {
        self.pending_status = value;
    }

    /// Reads when the last status snapshot arrived.
    pub fn last_status_check(&self) -> (value: Option<u64>)
        ensures
            value == self@.last_status_check,
    {
        self.last_status_check
    }

    /// Sets when the last status snapshot arrived.
    pub fn set_last_status_check(&mut self, value: Option<u64>)
        ensures
            final(self)@ == (AppView { last_status_check: value, ..old(self)@ }),
    {
        self.last_status_check = value;
    }

    /// Reads the tab of the status panel.
    pub fn status_tab(&self) -> (value: StatusTab)
        ensures
            value == self@.status_tab,
    {
        self.status_tab
    }

    /// Sets the tab of the status panel.
    pub fn set_status_tab(&mut self, value: StatusTab)
        ensures
            final(self)@ == (AppView { status_tab: value, ..old(self)@ }),
    {
        self.status_tab = value;
    }

    /// Reads whether only outdated formulae are visible.
    pub fn leaves_outdated_only(&self) -> (value: bool)
        ensures
            value == self@.leaves_outdated_only.on(),
    {
        self.leaves_outdated_only
    }

    /// Sets whether only outdated formulae are visible.
    pub fn set_leaves_outdated_only(&mut self, value: bool)
        ensures
            final(self)@ == (AppView { leaves_outdated_only: switch(value), ..old(self)@ }),
    {
        self.leaves_outdated_only = value;
    }

    /// Reads whether the help is shown.
    pub fn show_help_popup(&self) -> (value: bool)
        ensures
            value == self@.show_help_popup.on(),
    {
        self.show_help_popup
    }

    /// Sets whether the help is shown.
    pub fn set_show_help_popup(&mut self, value: bool)
        ensures
            final(self)@ == (AppView { show_help_popup: switch(value), ..old(self)@ }),
    {
        self.show_help_popup = value;
    }

    /// Reads how far the help is scrolled.
    pub fn help_scroll_offset(&self) -> (value: usize)
        ensures
            value == self@.help_scroll_offset,
    {
        self.help_scroll_offset
    }

    /// Sets how far the help is scrolled.
    pub fn set_help_scroll_offset(&mut self, value: usize)
        ensures
            final(self)@ == (AppView { help_scroll_offset: value, ..old(self)@ }),
    {
        self.help_scroll_offset = value;
    }

    /// Reads whether the screen is out of date.
    pub fn needs_redraw(&self) -> (value: bool)
        ensures
            value == self@.needs_redraw.on(),
    {
        self.needs_redraw
    }

    /// Sets whether the screen is out of date.
    pub fn set_needs_redraw(&mut self, value: bool)
        ensures
            final(self)@ == (AppView { needs_redraw: switch(value), ..old(self)@ }),
    {
        self.needs_redraw = value;
    }

    /// Reads when the selection last moved.
    pub fn last_selection_change(&self) -> (value: Option<u64>)
        ensures
            value == self@.last_selection_change,
    {
        self.last_selection_change
    }

    /// Sets when the selection last moved.
    pub fn set_last_selection_change(&mut self, value: Option<u64>)
        ensures
            final(self)@ == (AppView { last_selection_change: value, ..old(self)@ }),
    {
        self.last_selection_change = value;
    }

    /// Reads how often the selection moved without a pause.
    pub fn recent_selection_count(&self) -> (value: u8)
        ensures
            value == self@.recent_selection_count,
    {
        self.recent_selection_count
    }

    /// Sets how often the selection moved without a pause.
    pub fn set_recent_selection_count(&mut self, value: u8)
        ensures
            final(self)@ == (AppView { recent_selection_count: value, ..old(self)@ }),
    {
        self.recent_selection_count = value;
    }

    /// What the details cache holds for `key`. The order of use stays as it
    /// is.
    pub fn details(&self, key: &str) -> (found: Option<&Details>)
        ensures
            found.deep_view() == lookup(self@.details_cache, key@),
    {
        self.details_cache.get(key)
    }

    /// Uses the entry that the details cache holds for `key`: it counts as
    /// just used. The result says whether there is one and, if so, whether
    /// it holds both the dependencies and the dependents.
    pub fn use_details(&mut self, key: &str) -> (level: Option<bool>)
        ensures
            final(self)@ == (AppView {
                details_cache: touched(old(self)@.details_cache, key@),
                ..old(self)@
            }),
            level == match lookup(old(self)@.details_cache, key@) {
                Some(d) => Some(d.deps is Some && d.uses is Some),
                None => None,
            },
    {
        match self.details_cache.access(key) {
            Some(d) => Some(d.deps.is_some() && d.uses.is_some()),
            None => None,
        }
    }

    /// Takes `record` into the details cache for `key`.
    pub fn store_details(&mut self, key: String, record: Details)
        ensures
            final(self)@ == (AppView {
                details_cache: overlaid(
                    old(self)@.details_cache,
                    old(self)@.details_capacity,
                    key@,
                    record@,
                ),
                ..old(self)@
            }),
    {
        self.details_cache.get_mut_or_insert(key, record);
    }

    /// Appends `c` to the text filter.
    pub fn push_leaves_query(&mut self, c: char)
        ensures
            final(self)@ == (AppView { leaves_query: old(self)@.leaves_query.push(c), ..old(self)@ }),
    {
        push_char(&mut self.leaves_query, c);
    }

    /// Removes the last character of the text filter, if it has one.
    pub fn pop_leaves_query(&mut self)
        ensures
            final(self)@ == (AppView {
                leaves_query: if old(self)@.leaves_query.len() > 0 {
                    old(self)@.leaves_query.drop_last()
                } else {
                    old(self)@.leaves_query
                },
                ..old(self)@
            }),
    {
        self.leaves_query = without_last(self.leaves_query.as_str());
    }

    /// Appends `c` to the package search.
    pub fn push_package_query(&mut self, c: char)
        ensures
            final(self)@ == (AppView {
                package_query: old(self)@.package_query.push(c),
                ..old(self)@
            }),
    {
        push_char(&mut self.package_query, c);
    }

    /// Removes the last character of the package search, if it has one.
    pub fn pop_package_query(&mut self)
        ensures
            final(self)@ == (AppView {
                package_query: if old(self)@.package_query.len() > 0 {
                    old(self)@.package_query.drop_last()
                } else {
                    old(self)@.package_query
                },
                ..old(self)@
            }),
    {
        self.package_query = without_last(self.package_query.as_str());
    }

    /// The store of a dashboard that starts at `now`. `icons_ascii` says
    /// whether the caller's environment asks for ASCII icons.
    pub fn new(now: u64, icons_ascii: bool) -> (app: App)
        ensures
            app@ == AppView::initial(now, icons_ascii),
            app@.wf(),
    {
        let app = App {
            started_at: now,
            last_refresh: now,
            status: "Ready".to_owned(),
            toast: None,
            theme_mode: ThemeMode::Auto,
            input_mode: InputMode::Normal,
            leaves_query: String::new(),
            package_query: String::new(),
            active_package_kind: PackageKind::Formula,
            leaves: Vec::new(),
            filtered_leaves: Vec::new(),
            outdated_leaves: Vec::new(),
            filtered_leaves_dirty: true,
            selected_index: None,
            casks: Vec::new(),
            filtered_casks: Vec::new(),
            selected_cask_index: None,
            pending_casks: false,
            last_casks_refresh: None,
            package_results: Vec::new(),
            package_results_selected: None,
            last_package_search: None,
            last_result_details_pkg: None,
            details_cache: DetailsCache::new(),
            pending_details: None,
            view_mode: ViewMode::Details,
            sizes: Vec::new(),
            pending_sizes: false,
            icon_mode: IconMode::Auto,
            icons_ascii: icons_ascii,
            pending_command: false,
            last_command: None,
            last_command_target: None,
            last_command_target_is_cask: false,
            command_started_at: None,
            last_command_completed: None,
            last_command_output: Vec::new(),
            last_command_error: None,
            last_error: None,
            pending_package_action: None,
            pending_upgrade_all_outdated: false,
            pending_self_update: false,
            pending_leaves: false,
            last_leaves_refresh: None,
            last_sizes_refresh: None,
            focus_panel: FocusedPanel::Leaves,
            sizes_scroll_offset: 0,
            details_scroll_offset: 0,
            status_scroll_offset: 0,
            system_status: None,
            pending_status: false,
            last_status_check: None,
            status_tab: StatusTab::Activity,
            leaves_outdated_only: false,
            show_help_popup: false,
            help_scroll_offset: 0,
            needs_redraw: true,
            last_selection_change: None,
            recent_selection_count: 0,
        };
        proof {
            assert(app.leaves.deep_view() =~= Seq::empty());
            assert(app.outdated_leaves.deep_view() =~= Seq::empty());
            assert(app.casks.deep_view() =~= Seq::empty());
            assert(app.package_results.deep_view() =~= Seq::empty());
            assert(app.sizes.deep_view() =~= Seq::empty());
            assert(app.last_command_output.deep_view() =~= Seq::empty());
        }
        app
    }

}

impl AppView {
    /// The store of a dashboard that starts at `now`.
    pub open spec fn initial(now: u64, icons_ascii: bool) -> AppView {
        AppView {
            started_at: now,
            last_refresh: now,
            status: "Ready"@,
            toast: None,
            theme_mode: ThemeMode::Auto,
            input_mode: InputMode::Normal,
            leaves_query: Seq::empty(),
            package_query: Seq::empty(),
            active_package_kind: PackageKind::Formula,
            leaves: Seq::empty(),
            filtered_leaves: Seq::empty(),
            outdated_leaves: Seq::empty(),
            filtered_leaves_dirty: Switch::On,
            selected_index: None,
            casks: Seq::empty(),
            filtered_casks: Seq::empty(),
            selected_cask_index: None,
            pending_casks: Switch::Off,
            last_casks_refresh: None,
            package_results: Seq::empty(),
            package_results_selected: None,
            last_package_search: None,
            last_result_details_pkg: None,
            details_cache: Seq::empty(),
            details_capacity: DETAILS_CACHE_CAPACITY as nat,
            pending_details: None,
            view_mode: ViewMode::Details,
            sizes: Seq::empty(),
            pending_sizes: Switch::Off,
            icon_mode: IconMode::Auto,
            icons_ascii: switch(icons_ascii),
            pending_command: Switch::Off,
            last_command: None,
            last_command_target: None,
            last_command_target_is_cask: Switch::Off,
            command_started_at: None,
            last_command_completed: None,
            last_command_output: Seq::empty(),
            last_command_error: None,
            last_error: None,
            pending_package_action: None,
            pending_upgrade_all_outdated: Switch::Off,
            pending_self_update: Switch::Off,
            pending_leaves: Switch::Off,
            last_leaves_refresh: None,
            last_sizes_refresh: None,
            focus_panel: FocusedPanel::Leaves,
            sizes_scroll_offset: 0,
            details_scroll_offset: 0,
            status_scroll_offset: 0,
            system_status: None,
            pending_status: Switch::Off,
            last_status_check: None,
            status_tab: StatusTab::Activity,
            leaves_outdated_only: Switch::Off,
            show_help_popup: Switch::Off,
            help_scroll_offset: 0,
            needs_redraw: Switch::On,
            last_selection_change: None,
            recent_selection_count: 0,
        }
    }

    /// Whether any of the three confirmations is pending.
    pub open spec fn has_pending_confirmation(self) -> bool {
        self.pending_package_action is Some || self.pending_upgrade_all_outdated.on()
            || self.pending_self_update.on()
    }

    /// At most one of the three confirmations is pending.
    pub open spec fn one_confirmation(self) -> bool {
        &&& !(self.pending_package_action is Some && self.pending_upgrade_all_outdated.on())
        &&& !(self.pending_package_action is Some && self.pending_self_update.on())
        &&& !(self.pending_upgrade_all_outdated.on() && self.pending_self_update.on())
    }

    /// The invariant of the store: both filter indices are well formed, a
    /// selected search result is one of the results, at most one
    /// confirmation is pending, and the details cache holds no key twice and
    /// no more entries than it was made for.
    pub open spec fn wf(self) -> bool {
        &&& self.details_capacity == DETAILS_CACHE_CAPACITY
        &&& self.details_cache.len() <= self.details_capacity
        &&& distinct_keys(self.details_cache)
        &&& self.leaves.len() <= usize::MAX
        &&& self.casks.len() <= usize::MAX
        &&& index_wf(self.leaves.len(), self.filtered_leaves, self.selected_index)
        &&& index_wf(self.casks.len(), self.filtered_casks, self.selected_cask_index)
        &&& self.package_results_selected is Some ==> self.package_results_selected->0
            < self.package_results.len()
        &&& self.one_confirmation()
    }
}

} // verus!