//! Keyboard routing: one handler for each input mode, behind the keys that
//! work everywhere and the help popup that takes every key while it is
//! shown. A key that neither asks for, confirms nor cancels a mutating
//! action withdraws whatever waits for its confirmation.

use vstd::prelude::*;
use vstd::string::*;

use crate::gateway::{CommandKind, DetailsLoad};
use crate::reducers::{effects_of, push_effect};
use crate::requests::{Effect, EffectView};
use crate::scroll::beyond;
use crate::store::{App, AppView};
use crate::text::{join3, trim, trimmed};
use crate::types::{
    kind_noun, FocusedPanel, InputMode, PackageAction, PackageKind, StatusTab, Switch, ViewMode,
};

verus! {

/// The keys that the dashboard tells apart.
#[derive(Clone, Copy, Debug, PartialEq, Eq, Structural)]
pub enum KeyCode {
    Char(char),
    Enter,
    Esc,
    Tab,
    BackTab,
    Up,
    Down,
    Left,
    Right,
    Backspace,
    Other,
}

/// A key press: the key, and whether Alt was held.
#[derive(Clone, Copy, Debug, PartialEq, Eq, Structural)]
pub struct KeyInput {
    pub code: KeyCode,
    pub alt: bool,
}

/// What a key press leads to, besides the change of the store: whether the
/// dashboard is to end, and the effects to launch.
#[derive(Debug)]
pub struct KeyOutcome {
    pub quit: bool,
    pub effects: Vec<Effect>,
}

/// What a key press leads to: the store afterwards, the effects to launch,
/// and whether the dashboard is to end.
pub struct KeyStep {
    pub state: AppView,
    pub effects: Seq<EffectView>,
    pub quit: bool,
}

/// A key press that changes the store and nothing else.
pub open spec fn stay(state: AppView) -> KeyStep {
    KeyStep { state: state, effects: Seq::empty(), quit: false }
}

/// A key press that asked for one piece of background work.
pub open spec fn asked(r: (AppView, Option<EffectView>)) -> KeyStep {
    KeyStep { state: r.0, effects: effects_of(r.1), quit: false }
}

/// Whether a key, in a mode, asks for, confirms or cancels a mutating
/// action. Every other key press withdraws what waits for its
/// confirmation.
pub open spec fn touches_confirmation(mode: InputMode, code: KeyCode) -> bool {
    match mode {
        InputMode::Normal => code == KeyCode::Esc || code == KeyCode::Char('i') || code
            == KeyCode::Char('u') || code == KeyCode::Char('U') || code == KeyCode::Char('P'),
        InputMode::PackageResults => code == KeyCode::Esc || code == KeyCode::Char('i') || code
            == KeyCode::Char('u'),
        _ => false,
    }
}

impl AppView {
    /// Whether the key is one of those that work wherever text is not being
    /// typed: `?` for the help, Alt with `i` for the icons.
    pub open spec fn is_global_key(self, key: KeyInput) -> bool {
        self.input_mode == InputMode::Normal && (key.code == KeyCode::Char('?') || (key.code
            == KeyCode::Char('i') && key.alt))
    }

    /// The store after a key that works everywhere.
    pub open spec fn global_keymap(self, key: KeyInput, now: u64) -> AppView {
        if key.code == KeyCode::Char('?') {
            self.toggle_help()
        } else {
            self.toggle_icons(now)
        }
    }

    /// The store after a key press while the help is shown: Esc hides it,
    /// the arrow keys and `j`, `k` scroll it, no further than
    /// `help_max_offset`, and every other key is swallowed.
    pub open spec fn help_popup_input(self, key: KeyInput, help_max_offset: usize) -> AppView {
        match key.code {
            KeyCode::Esc => AppView { show_help_popup: Switch::Off, ..self },
            KeyCode::Down => self.help_scrolled(true, help_max_offset),
            KeyCode::Up => self.help_scrolled(false, help_max_offset),
            KeyCode::Char(c) => if c == 'j' {
                self.help_scrolled(true, help_max_offset)
            } else if c == 'k' {
                self.help_scrolled(false, help_max_offset)
            } else {
                self
            },
            _ => self,
        }
    }

    /// The store with the help scrolled by one line.
    pub open spec fn help_scrolled(self, down: bool, help_max_offset: usize) -> AppView {
        AppView {
            help_scroll_offset: if down {
                if self.help_scroll_offset < help_max_offset {
                    (self.help_scroll_offset + 1) as usize
                } else {
                    self.help_scroll_offset
                }
            } else {
                beyond(self.help_scroll_offset as int, 1) as usize
            },
            ..self
        }
    }

    /// The store after the selection of the installed list was moved by a
    /// scrolling key: where the list has the focus, the move counts as a
    /// change of selection.
    pub open spec fn scrolled(self, down: bool, now: u64) -> AppView {
        let moved = if down {
            self.scroll_focused_down(now)
        } else {
            self.scroll_focused_up()
        };
        if self.focus_panel == FocusedPanel::Leaves {
            moved.clear_pending_confirmations().on_selection_change(now)
        } else {
            moved
        }
    }

    /// The store after Esc in normal mode: what waits for its confirmation
    /// is cancelled; else the text filter, if there is one, is cleared.
    pub open spec fn normal_escape(self, now: u64) -> AppView {
        if self.has_pending_confirmation() {
            self.cancel_confirmation(now)
        } else if self.leaves_query.len() > 0 {
            AppView {
                leaves_query: Seq::empty(),
                ..self
            }.update_all_installed_filters().set_status("Filters cleared"@, now)
        } else {
            self
        }
    }

    /// A key that asks for a package action on the selected installed
    /// package: refused with a note where the list has not the focus or
    /// nothing is selected.
    pub open spec fn ask_installed_action(
        self,
        action: PackageAction,
        verb: Seq<char>,
        now: u64,
    ) -> KeyStep {
        if self.focus_panel == FocusedPanel::Leaves {
            match self.selected_installed_package() {
                Some(pkg) => asked(
                    self.run_or_confirm_package_action(action, self.active_package_kind, pkg, now),
                ),
                None => stay(
                    self.set_status(
                        "No "@ + kind_noun(self.active_package_kind) + " selected"@,
                        now,
                    ),
                ),
            }
        } else {
            stay(
                self.set_status(
                    "Focus "@ + kind_noun(self.active_package_kind) + " list to "@ + verb,
                    now,
                ),
            )
        }
    }

    /// A key that asks for a package action on the selected search result.
    pub open spec fn ask_result_action(self, action: PackageAction, now: u64) -> KeyStep {
        match self.selected_package_result() {
            Some(pkg) => asked(
                self.run_or_confirm_package_action(action, PackageKind::Formula, pkg, now),
            ),
            None => stay(self.set_status("No result selected"@, now)),
        }
    }

    /// The store with the text filter opened for typing.
    pub open spec fn open_filter(self, now: u64) -> AppView {
        AppView {
            input_mode: InputMode::SearchLeaves,
            leaves_query: Seq::empty(),
            ..self
        }.update_active_installed_filter().set_status("Search"@, now)
    }

    /// The store with the package search opened for typing.
    pub open spec fn open_package_search(self, now: u64) -> AppView {
        AppView {
            input_mode: InputMode::PackageSearch,
            package_query: Seq::empty(),
            ..self
        }.clear_package_results().set_status("Search packages"@, now)
    }

    /// The store with the package search closed.
    pub open spec fn close_package_search(self, now: u64) -> AppView {
        AppView {
            input_mode: InputMode::Normal,
            package_query: Seq::empty(),
            ..self
        }.clear_package_results().set_status("Ready"@, now)
    }

    /// The key `o`: the restriction to outdated formulae is switched, and
    /// a status check is asked for where the restriction is on and no
    /// snapshot has arrived yet.
    pub open spec fn key_outdated(self, now: u64) -> KeyStep {
        let toggled = self.clear_pending_confirmations().toggle_outdated_filter(now);
        if toggled.leaves_outdated_only.on() && !toggled.is_cask_mode() && toggled.system_status
            is None && !toggled.pending_status.on() {
            asked(toggled.request_status(now))
        } else {
            stay(toggled)
        }
    }

    /// The key `C`: the other installed list is shown, fetched first where
    /// it is empty.
    pub open spec fn key_kind(self, now: u64) -> KeyStep {
        let toggled = self.clear_pending_confirmations().toggle_installed_kind(now);
        let fetched = if toggled.is_cask_mode() && toggled.casks.len() == 0
            && !toggled.pending_casks.on() {
            toggled.request_casks(now)
        } else {
            (toggled, None)
        };
        asked((fetched.0.update_active_installed_filter(), fetched.1))
    }

    /// The key `r`: both installed lists are asked for.
    pub open spec fn key_refresh(self, now: u64) -> KeyStep {
        let leaves = self.request_leaves(now);
        let casks = leaves.0.request_casks(now);
        KeyStep {
            state: casks.0,
            effects: effects_of(leaves.1) + effects_of(casks.1),
            quit: false,
        }
    }

    /// The key `U`: the upgrade of everything outdated where the outdated
    /// tab of the status panel has the focus, of the selected package
    /// otherwise.
    pub open spec fn key_upgrade(self, now: u64) -> KeyStep {
        if self.focus_panel == FocusedPanel::Status && self.status_tab == StatusTab::Outdated {
            asked(self.run_or_confirm_upgrade_all_outdated(now))
        } else {
            self.ask_installed_action(PackageAction::Upgrade, "upgrade"@, now)
        }
    }

    /// A letter or sign in normal mode.
    #[verifier::opaque]
    pub open spec fn normal_char(self, c: char, now: u64) -> KeyStep {
        if c == 'q' {
            KeyStep { state: self, effects: Seq::empty(), quit: true }
        } else if c == 'r' {
            self.key_refresh(now)
        } else if c == 't' {
            stay(self.cycle_theme(now))
        } else if c == 's' {
            asked(self.request_sizes(now))
        } else if c == 'h' {
            asked(self.request_status(now))
        } else if c == 'v' {
            stay(
                AppView {
                    view_mode: if self.view_mode == ViewMode::Details {
                        ViewMode::PackageResults
                    } else {
                        ViewMode::Details
                    },
                    ..self
                },
            )
        } else if c == '/' {
            stay(self.open_filter(now))
        } else if c == 'o' {
            self.key_outdated(now)
        } else if c == 'C' {
            self.key_kind(now)
        } else if c == 'f' {
            stay(self.open_package_search(now))
        } else if c == 'i' {
            self.ask_installed_action(PackageAction::Install, "install"@, now)
        } else if c == 'u' {
            self.ask_installed_action(PackageAction::Uninstall, "uninstall"@, now)
        } else if c == 'U' {
            self.key_upgrade(now)
        } else if c == 'c' {
            asked(self.request_command(CommandKind::Cleanup, seq!["cleanup"@, "-s"@], now))
        } else if c == 'a' {
            asked(self.request_command(CommandKind::Autoremove, seq!["autoremove"@], now))
        } else if c == 'b' {
            asked(
                self.request_command(
                    CommandKind::BundleDump,
                    seq!["bundle"@, "dump"@, "--force"@],
                    now,
                ),
            )
        } else if c == 'P' {
            asked(self.run_or_confirm_self_update(now))
        } else if c == 'd' {
            if self.is_cask_mode() {
                stay(self.set_status("Deps/uses are formula-only"@, now))
            } else {
                asked(self.request_details(DetailsLoad::Full, now))
            }
        } else if c == 'k' {
            stay(self.scrolled(false, now))
        } else if c == 'j' {
            stay(self.scrolled(true, now))
        } else if c == 'l' && self.focus_panel == FocusedPanel::Status {
            stay(self.status_tab_prev())
        } else if c == ';' && self.focus_panel == FocusedPanel::Status {
            stay(self.status_tab_next())
        } else {
            stay(self)
        }
    }

    /// A key press in normal mode.
    #[verifier::opaque]
    pub open spec fn handle_normal_mode_key(self, key: KeyInput, now: u64) -> KeyStep {
        match key.code {
            KeyCode::Char(c) => self.normal_char(c, now),
            KeyCode::Esc => stay(self.normal_escape(now)),
            KeyCode::Enter => asked(self.request_details(DetailsLoad::Basic, now)),
            KeyCode::Tab => stay(self.cycle_focus(now)),
            KeyCode::BackTab => stay(self.focus_backtab(now)),
            KeyCode::Up => stay(self.scrolled(false, now)),
            KeyCode::Down => stay(self.scrolled(true, now)),
            KeyCode::Left => if self.focus_panel == FocusedPanel::Status {
                stay(self.status_tab_prev())
            } else {
                stay(self)
            },
            KeyCode::Right => if self.focus_panel == FocusedPanel::Status {
                stay(self.status_tab_next())
            } else {
                stay(self)
            },
            _ => stay(self),
        }
    }

    /// The store with the typing of the text filter ended.
    pub open spec fn close_filter(self, clear: bool, now: u64) -> AppView {
        let cleared = if clear && self.leaves_query.len() > 0 {
            AppView { leaves_query: Seq::empty(), ..self }.update_active_installed_filter()
        } else {
            self
        };
        AppView { input_mode: InputMode::Normal, ..cleared }.set_status("Ready"@, now)
    }

    /// The store after an arrow key moved the selection of the installed
    /// list while the filter is typed.
    pub open spec fn move_selection(self, down: bool, now: u64) -> AppView {
        self.select_step(down).on_selection_change(now)
    }

    /// The store after an arrow key moved the selected search result.
    pub open spec fn move_result(self, down: bool, now: u64) -> AppView {
        self.select_result_step(down).on_selection_change(now)
    }

    /// The store after `c` was typed into the text filter.
    pub open spec fn type_filter(self, c: char) -> AppView {
        AppView {
            leaves_query: self.leaves_query.push(c),
            ..self
        }.update_active_installed_filter()
    }

    /// The store after the last character of the text filter was erased.
    pub open spec fn erase_filter(self) -> AppView {
        AppView {
            leaves_query: if self.leaves_query.len() > 0 {
                self.leaves_query.drop_last()
            } else {
                self.leaves_query
            },
            ..self
        }.update_active_installed_filter()
    }

    /// The store after `c` was typed into the package search: the results
    /// of the search before are dropped.
    pub open spec fn type_package_query(self, c: char) -> AppView {
        AppView { package_query: self.package_query.push(c), ..self }.clear_package_results()
    }

    /// The store after the last character of the package search was
    /// erased.
    pub open spec fn erase_package_query(self) -> AppView {
        AppView {
            package_query: if self.package_query.len() > 0 {
                self.package_query.drop_last()
            } else {
                self.package_query
            },
            ..self
        }.clear_package_results()
    }

    /// A key press while the text filter is typed: letters and Backspace
    /// edit the filter, which rebuilds the index; the arrow keys move the
    /// selection; Enter keeps the filter and Esc drops it.
    #[verifier::opaque]
    pub open spec fn handle_search_leaves_mode_key(self, key: KeyInput, now: u64) -> KeyStep {
        match key.code {
            KeyCode::Enter => stay(self.close_filter(false, now)),
            KeyCode::Esc => stay(self.close_filter(true, now)),
            KeyCode::Up => stay(self.move_selection(false, now)),
            KeyCode::Down => stay(self.move_selection(true, now)),
            KeyCode::Backspace => stay(self.erase_filter()),
            KeyCode::Char(c) => stay(self.type_filter(c)),
            _ => stay(self),
        }
    }

    /// Enter in the package search: the search is asked for, unless nothing
    /// was typed.
    pub open spec fn submit_package_search(self, now: u64) -> KeyStep {
        let query = trimmed(self.package_query);
        if query.len() == 0 {
            stay(self.set_status("Enter a package name"@, now))
        } else {
            let started = self.request_command(CommandKind::Search, seq!["search"@, query], now);
            asked(
                (
                    AppView { last_package_search: Some(query), ..started.0 }.set_status(
                        "Searching..."@,
                        now,
                    ),
                    started.1,
                ),
            )
        }
    }

    /// A key press while the package search is typed.
    #[verifier::opaque]
    pub open spec fn handle_package_search_mode_key(self, key: KeyInput, now: u64) -> KeyStep {
        match key.code {
            KeyCode::Esc => stay(self.close_package_search(now)),
            KeyCode::Up => stay(self.move_result(false, now)),
            KeyCode::Down => stay(self.move_result(true, now)),
            KeyCode::Enter => self.submit_package_search(now),
            KeyCode::Backspace => stay(self.erase_package_query()),
            KeyCode::Char(c) => stay(self.type_package_query(c)),
            _ => stay(self),
        }
    }

    /// Esc among the search results: what waits for its confirmation is
    /// cancelled; else the search is closed.
    pub open spec fn results_escape(self, now: u64) -> AppView {
        if self.has_pending_confirmation() {
            self.cancel_confirmation(now)
        } else {
            self.close_package_search(now)
        }
    }

    /// A letter or sign among the search results.
    #[verifier::opaque]
    pub open spec fn results_char(self, c: char, now: u64) -> KeyStep {
        if c == 'f' {
            stay(self.open_package_search(now))
        } else if c == 'k' {
            stay(self.move_result(false, now))
        } else if c == 'j' {
            stay(self.move_result(true, now))
        } else if c == 'i' {
            self.ask_result_action(PackageAction::Install, now)
        } else if c == 'u' {
            self.ask_result_action(PackageAction::Uninstall, now)
        } else {
            stay(self)
        }
    }

    /// A key press among the search results.
    #[verifier::opaque]
    pub open spec fn handle_package_results_mode_key(self, key: KeyInput, now: u64) -> KeyStep {
        match key.code {
            KeyCode::Esc => stay(self.results_escape(now)),
            KeyCode::Up => stay(self.move_result(false, now)),
            KeyCode::Down => stay(self.move_result(true, now)),
            KeyCode::Char(c) => self.results_char(c, now),
            _ => stay(self),
        }
    }

    /// A key press. The screen is out of date afterwards. The keys that
    /// work everywhere come first, then the help popup, which takes every
    /// key while it is shown, then the handler of the input mode. A key
    /// that neither asks for, confirms nor cancels a mutating action
    /// withdraws what waits for its confirmation.
    #[verifier::opaque]
    pub open spec fn handle_key_event(
        self,
        key: KeyInput,
        now: u64,
        help_max_offset: usize,
    ) -> KeyStep {
        let s = AppView { needs_redraw: Switch::On, ..self };
        if s.is_global_key(key) {
            stay(s.clear_pending_confirmations().global_keymap(key, now))
        } else if s.show_help_popup.on() {
            stay(s.clear_pending_confirmations().help_popup_input(key, help_max_offset))
        } else {
            let t = if touches_confirmation(s.input_mode, key.code) {
                s
            } else {
                s.clear_pending_confirmations()
            };
            match s.input_mode {
                InputMode::Normal => t.handle_normal_mode_key(key, now),
                InputMode::SearchLeaves => t.handle_search_leaves_mode_key(key, now),
                InputMode::PackageSearch => t.handle_package_search_mode_key(key, now),
                InputMode::PackageResults => t.handle_package_results_mode_key(key, now),
            }
        }
    }
}

impl KeyOutcome {
    /// The outcome as the contracts speak of it, for a store that is now
    /// `state`.
    pub open spec fn step(&self, state: AppView) -> KeyStep {
        KeyStep { state: state, effects: self.effects.deep_view(), quit: self.quit }
    }
}

fn done() -> (out: KeyOutcome)
    ensures
        !out.quit,
        out.effects.deep_view() == Seq::<EffectView>::empty(),
{
    let effects: Vec<Effect> = Vec::new();
    proof {
        assert(effects.deep_view() =~= Seq::empty());
    }
    KeyOutcome { quit: false, effects: effects }
}

fn launch(effect: Option<Effect>) -> (out: KeyOutcome)
    ensures
        !out.quit,
        out.effects.deep_view() == effects_of(effect.deep_view()),
{
    let mut effects: Vec<Effect> = Vec::new();
    proof {
        assert(effects.deep_view() =~= Seq::empty());
    }
    push_effect(&mut effects, effect);
    proof {
        assert(Seq::<EffectView>::empty() + effects_of(effect.deep_view()) =~= effects_of(
            effect.deep_view(),
        ));
    }
    KeyOutcome { quit: false, effects: effects }
}

fn words2(a: &str, b: &str) -> (args: Vec<String>)
    ensures
        args.deep_view() == seq![a@, b@],
{
    let mut args: Vec<String> = Vec::new();
    args.push(a.to_owned());
    args.push(b.to_owned());
    proof {
        assert(args.deep_view() =~= seq![a@, b@]);
    }
    args
}

fn words1(a: &str) -> (args: Vec<String>)
    ensures
        args.deep_view() == seq![a@],
{
    let mut args: Vec<String> = Vec::new();
    args.push(a.to_owned());
    proof {
        assert(args.deep_view() =~= seq![a@]);
    }
    args
}

fn words3(a: &str, b: &str, c: &str) -> (args: Vec<String>)
    ensures
        args.deep_view() == seq![a@, b@, c@],
{
    let mut args: Vec<String> = Vec::new();
    args.push(a.to_owned());
    args.push(b.to_owned());
    args.push(c.to_owned());
    proof {
        assert(args.deep_view() =~= seq![a@, b@, c@]);
    }
    args
}

/// Whether a key, in a mode, asks for, confirms or cancels a mutating
/// action.
pub fn key_touches_confirmation(mode: InputMode, code: KeyCode) -> (touches: bool)
    ensures
        touches == touches_confirmation(mode, code),
{
    match mode {
        InputMode::Normal => match code {
            KeyCode::Esc => true,
            KeyCode::Char(c) => c == 'i' || c == 'u' || c == 'U' || c == 'P',
            _ => false,
        },
        InputMode::PackageResults => match code {
            KeyCode::Esc => true,
            KeyCode::Char(c) => c == 'i' || c == 'u',
            _ => false,
        },
        _ => false,
    }
}

impl App {
    fn is_global_key(&self, key: KeyInput) -> (global: bool)
        ensures
            global == self@.is_global_key(key),
    {
        self.input_mode() == InputMode::Normal && match key.code {
            KeyCode::Char(c) => c == '?' || (c == 'i' && key.alt),
            _ => false,
        }
    }

    fn global_keymap(&mut self, key: KeyInput, now: u64)
        ensures
            final(self)@ == old(self)@.global_keymap(key, now),
    {
        match key.code {
            KeyCode::Char(c) => {
                if c == '?' {
                    self.toggle_help();
                } else {
                    self.toggle_icons(now);
                }
            },
            _ => {
                self.toggle_icons(now);
            },
        }
    }

    fn help_scrolled(&mut self, down: bool, help_max_offset: usize)
        ensures
            final(self)@ == old(self)@.help_scrolled(down, help_max_offset),
    {
        let offset = self.help_scroll_offset();
        let next: usize = if down {
            if offset < help_max_offset {
                offset + 1
            } else {
                offset
            }
        } else {
            if offset >= 1 {
                offset - 1
            } else {
                0
            }
        };
        self.set_help_scroll_offset(next);
    }

    fn help_popup_input(&mut self, key: KeyInput, help_max_offset: usize)
        ensures
            final(self)@ == old(self)@.help_popup_input(key, help_max_offset),
    {
        match key.code {
            KeyCode::Esc => {
                self.set_show_help_popup(false);
            },
            KeyCode::Down => {
                self.help_scrolled(true, help_max_offset);
            },
            KeyCode::Up => {
                self.help_scrolled(false, help_max_offset);
            },
            KeyCode::Char(c) => {
                if c == 'j' {
                    self.help_scrolled(true, help_max_offset);
                } else if c == 'k' {
                    self.help_scrolled(false, help_max_offset);
                }
            },
            _ => {},
        }
    }

    fn scrolled(&mut self, down: bool, now: u64)
        ensures
            final(self)@ == old(self)@.scrolled(down, now),
    {
        let listed = self.focus_panel() == FocusedPanel::Leaves;
        if down {
            self.scroll_focused_down(now);
        } else {
            self.scroll_focused_up();
        }
        if listed {
            self.clear_pending_confirmations();
            self.on_selection_change(now);
        }
    }

    fn normal_escape(&mut self, now: u64)
        ensures
            final(self)@ == old(self)@.normal_escape(now),
    {
        if self.has_pending_confirmation() {
            self.cancel_confirmation(now);
        } else if !self.leaves_query().as_str().is_empty() {
            self.set_leaves_query(String::new());
            self.update_all_installed_filters();
            self.set_status("Filters cleared".to_owned(), now);
        }
    }

    fn ask_installed_action(
        &mut self,
        action: PackageAction,
        verb: &str,
        now: u64,
    ) -> (out: KeyOutcome)
        ensures
            out.step(final(self)@) == old(self)@.ask_installed_action(action, verb@, now),
    {
        let noun = self.active_kind_label_singular();
        if self.focus_panel() != FocusedPanel::Leaves {
            let mut status = join3("Focus ", noun, " list to ");
            status.append(verb);
            self.set_status(status, now);
            return done();
        }
        let pkg = match self.selected_installed_package() {
            Some(name) => name.to_owned(),
            None => {
                self.set_status(join3("No ", noun, " selected"), now);
                return done();
            },
        };
        let kind = self.active_package_kind();
        launch(self.run_or_confirm_package_action(action, kind, pkg, now))
    }

    fn ask_result_action(&mut self, action: PackageAction, now: u64) -> (out: KeyOutcome)
        ensures
            out.step(final(self)@) == old(self)@.ask_result_action(action, now),
    {
        let pkg = match self.selected_package_result() {
            Some(name) => name.to_owned(),
            None => {
                self.set_status("No result selected".to_owned(), now);
                return done();
            },
        };
        launch(self.run_or_confirm_package_action(action, PackageKind::Formula, pkg, now))
    }

    fn open_filter(&mut self, now: u64)
        ensures
            final(self)@ == old(self)@.open_filter(now),
    {
        self.set_input_mode(InputMode::SearchLeaves);
        self.set_leaves_query(String::new());
        self.update_active_installed_filter();
        self.set_status("Search".to_owned(), now);
    }

    fn open_package_search(&mut self, now: u64)
        ensures
            final(self)@ == old(self)@.open_package_search(now),
    {
        self.set_input_mode(InputMode::PackageSearch);
        self.set_package_query(String::new());
        self.clear_package_results();
        self.set_status("Search packages".to_owned(), now);
    }

    fn close_package_search(&mut self, now: u64)
        ensures
            final(self)@ == old(self)@.close_package_search(now),
    {
        self.set_input_mode(InputMode::Normal);
        self.set_package_query(String::new());
        self.clear_package_results();
        self.set_status("Ready".to_owned(), now);
    }

    fn key_outdated(&mut self, now: u64) -> (out: KeyOutcome)
        ensures
            out.step(final(self)@) == old(self)@.key_outdated(now),
    {
        self.clear_pending_confirmations();
        self.toggle_outdated_filter(now);
        if self.leaves_outdated_only() && !self.is_cask_mode() && self.system_status().is_none()
            && !self.pending_status() {
            launch(self.request_status(now))
        } else {
            done()
        }
    }

    fn key_kind(&mut self, now: u64) -> (out: KeyOutcome)
        ensures
            out.step(final(self)@) == old(self)@.key_kind(now),
    {
        self.clear_pending_confirmations();
        self.toggle_installed_kind(now);
        let effect = if self.is_cask_mode() && self.casks().len() == 0 && !self.pending_casks() {
            self.request_casks(now)
        } else {
            None
        };
        self.update_active_installed_filter();
        launch(effect)
    }

    fn key_refresh(&mut self, now: u64) -> (out: KeyOutcome)
        ensures
            out.step(final(self)@) == old(self)@.key_refresh(now),
    {
        let mut effects: Vec<Effect> = Vec::new();
        proof {
            assert(effects.deep_view() =~= Seq::empty());
        }
        push_effect(&mut effects, self.request_leaves(now));
        push_effect(&mut effects, self.request_casks(now));
        KeyOutcome { quit: false, effects: effects }
    }

    fn key_upgrade(&mut self, now: u64) -> (out: KeyOutcome)
        ensures
            out.step(final(self)@) == old(self)@.key_upgrade(now),
    {
        if self.focus_panel() == FocusedPanel::Status && self.status_tab() == StatusTab::Outdated {
            launch(self.run_or_confirm_upgrade_all_outdated(now))
        } else {
            self.ask_installed_action(PackageAction::Upgrade, "upgrade", now)
        }
    }

    fn toggle_view_mode(&mut self)
        ensures
            final(self)@ == (AppView {
                view_mode: if old(self)@.view_mode == ViewMode::Details {
                    ViewMode::PackageResults
                } else {
                    ViewMode::Details
                },
                ..old(self)@
            }),
    {
        let mode = if self.view_mode() == ViewMode::Details {
            ViewMode::PackageResults
        } else {
            ViewMode::Details
        };
        self.set_view_mode(mode);
    }

    fn normal_char(&mut self, c: char, now: u64) -> (out: KeyOutcome)
        ensures
            out.step(final(self)@) == old(self)@.normal_char(c, now),
    {
        proof {
            reveal(AppView::normal_char);
        }
        if c == 'q' {
            let mut out = done();
            out.quit = true;
            out
        } else if c == 'r' {
            self.key_refresh(now)
        } else if c == 't' {
            self.cycle_theme(now);
            done()
        } else if c == 's' {
            launch(self.request_sizes(now))
        } else if c == 'h' {
            launch(self.request_status(now))
        } else if c == 'v' {
            self.toggle_view_mode();
            done()
        } else if c == '/' {
            self.open_filter(now);
            done()
        } else if c == 'o' {
            self.key_outdated(now)
        } else if c == 'C' {
            self.key_kind(now)
        } else if c == 'f' {
            self.open_package_search(now);
            done()
        } else if c == 'i' {
            self.ask_installed_action(PackageAction::Install, "install", now)
        } else if c == 'u' {
            self.ask_installed_action(PackageAction::Uninstall, "uninstall", now)
        } else if c == 'U' {
            self.key_upgrade(now)
        } else if c == 'c' {
            launch(self.request_command(CommandKind::Cleanup, words2("cleanup", "-s"), now))
        } else if c == 'a' {
            launch(self.request_command(CommandKind::Autoremove, words1("autoremove"), now))
        } else if c == 'b' {
            launch(
                self.request_command(
                    CommandKind::BundleDump,
                    words3("bundle", "dump", "--force"),
                    now,
                ),
            )
        } else if c == 'P' {
            launch(self.run_or_confirm_self_update(now))
        } else if c == 'd' {
            if self.is_cask_mode() {
                self.set_status("Deps/uses are formula-only".to_owned(), now);
                done()
            } else {
                launch(self.request_details(DetailsLoad::Full, now))
            }
        } else if c == 'k' {
            self.scrolled(false, now);
            done()
        } else if c == 'j' {
            self.scrolled(true, now);
            done()
        } else if c == 'l' && self.focus_panel() == FocusedPanel::Status {
            self.status_tab_prev();
            done()
        } else if c == ';' && self.focus_panel() == FocusedPanel::Status {
            self.status_tab_next();
            done()
        } else {
            done()
        }
    }

    fn handle_normal_mode_key(&mut self, key: KeyInput, now: u64) -> (out: KeyOutcome)
        ensures
            out.step(final(self)@) == old(self)@.handle_normal_mode_key(key, now),
    {
        proof {
            reveal(AppView::handle_normal_mode_key);
        }
        match key.code {
            KeyCode::Char(c) => self.normal_char(c, now),
            KeyCode::Esc => {
                self.normal_escape(now);
                done()
            },
            KeyCode::Enter => launch(self.request_details(DetailsLoad::Basic, now)),
            KeyCode::Tab => {
                self.cycle_focus(now);
                done()
            },
            KeyCode::BackTab => {
                crate::runtime::handle_focus_backtab(self, now);
                done()
            },
            KeyCode::Up => {
                self.scrolled(false, now);
                done()
            },
            KeyCode::Down => {
                self.scrolled(true, now);
                done()
            },
            KeyCode::Left => {
                if self.focus_panel() == FocusedPanel::Status {
                    self.status_tab_prev();
                }
                done()
            },
            KeyCode::Right => {
                if self.focus_panel() == FocusedPanel::Status {
                    self.status_tab_next();
                }
                done()
            },
            _ => done(),
        }
    }

    fn close_filter(&mut self, clear: bool, now: u64)
        ensures
            final(self)@ == old(self)@.close_filter(clear, now),
    {
        if clear && !self.leaves_query().as_str().is_empty() {
            self.set_leaves_query(String::new());
            self.update_active_installed_filter();
        }
        self.set_input_mode(InputMode::Normal);
        self.set_status("Ready".to_owned(), now);
    }

    fn move_selection(&mut self, down: bool, now: u64)
        ensures
            final(self)@ == old(self)@.move_selection(down, now),
    {
        if down {
            self.select_next();
        } else {
            self.select_prev();
        }
        self.on_selection_change(now);
    }

    fn move_result(&mut self, down: bool, now: u64)
        ensures
            final(self)@ == old(self)@.move_result(down, now),
    {
        if down {
            self.select_next_result();
        } else {
            self.select_prev_result();
        }
        self.on_selection_change(now);
    }

    fn type_filter(&mut self, c: char)
        ensures
            final(self)@ == old(self)@.type_filter(c),
    {
        self.push_leaves_query(c);
        self.update_active_installed_filter();
    }

    fn erase_filter(&mut self)
        ensures
            final(self)@ == old(self)@.erase_filter(),
    {
        self.pop_leaves_query();
        self.update_active_installed_filter();
    }

    fn type_package_query(&mut self, c: char)
        ensures
            final(self)@ == old(self)@.type_package_query(c),
    {
        self.push_package_query(c);
        self.clear_package_results();
    }

    fn erase_package_query(&mut self)
        ensures
            final(self)@ == old(self)@.erase_package_query(),
    {
        self.pop_package_query();
        self.clear_package_results();
    }

    fn handle_search_leaves_mode_key(&mut self, key: KeyInput, now: u64) -> (out: KeyOutcome)
        ensures
            out.step(final(self)@) == old(self)@.handle_search_leaves_mode_key(key, now),
    {
        proof {
            reveal(AppView::handle_search_leaves_mode_key);
        }
        match key.code {
            KeyCode::Enter => {
                self.close_filter(false, now);
                done()
            },
            KeyCode::Esc => {
                self.close_filter(true, now);
                done()
            },
            KeyCode::Up => {
                self.move_selection(false, now);
                done()
            },
            KeyCode::Down => {
                self.move_selection(true, now);
                done()
            },
            KeyCode::Backspace => {
                self.erase_filter();
                done()
            },
            KeyCode::Char(c) => {
                self.type_filter(c);
                done()
            },
            _ => done(),
        }
    }

    fn submit_package_search(&mut self, now: u64) -> (out: KeyOutcome)
        ensures
            out.step(final(self)@) == old(self)@.submit_package_search(now),
    {
        let query = trim(self.package_query().as_str()).to_owned();
        if query.as_str().is_empty() {
            self.set_status("Enter a package name".to_owned(), now);
            return done();
        }
        let effect = self.request_command(
            CommandKind::Search,
            words2("search", query.as_str()),
            now,
        );
        self.set_last_package_search(Some(query));
        self.set_status("Searching...".to_owned(), now);
        launch(effect)
    }

    fn handle_package_search_mode_key(&mut self, key: KeyInput, now: u64) -> (out: KeyOutcome)
        ensures
            out.step(final(self)@) == old(self)@.handle_package_search_mode_key(key, now),
    {
        proof {
            reveal(AppView::handle_package_search_mode_key);
        }
        match key.code {
            KeyCode::Esc => {
                self.close_package_search(now);
                done()
            },
            KeyCode::Up => {
                self.move_result(false, now);
                done()
            },
            KeyCode::Down => {
                self.move_result(true, now);
                done()
            },
            KeyCode::Enter => self.submit_package_search(now),
            KeyCode::Backspace => {
                self.erase_package_query();
                done()
            },
            KeyCode::Char(c) => {
                self.type_package_query(c);
                done()
            },
            _ => done(),
        }
    }

    fn results_escape(&mut self, now: u64)
        ensures
            final(self)@ == old(self)@.results_escape(now),
    {
        if self.has_pending_confirmation() {
            self.cancel_confirmation(now);
        } else {
            self.close_package_search(now);
        }
    }

    fn results_char(&mut self, c: char, now: u64) -> (out: KeyOutcome)
        ensures
            out.step(final(self)@) == old(self)@.results_char(c, now),
    {
        proof {
            reveal(AppView::results_char);
        }
        if c == 'f' {
            self.open_package_search(now);
            done()
        } else if c == 'k' {
            self.move_result(false, now);
            done()
        } else if c == 'j' {
            self.move_result(true, now);
            done()
        } else if c == 'i' {
            self.ask_result_action(PackageAction::Install, now)
        } else if c == 'u' {
            self.ask_result_action(PackageAction::Uninstall, now)
        } else {
            done()
        }
    }

    fn handle_package_results_mode_key(&mut self, key: KeyInput, now: u64) -> (out: KeyOutcome)
        ensures
            out.step(final(self)@) == old(self)@.handle_package_results_mode_key(key, now),
    {
        proof {
            reveal(AppView::handle_package_results_mode_key);
        }
        match key.code {
            KeyCode::Esc => {
                self.results_escape(now);
                done()
            },
            KeyCode::Up => {
                self.move_result(false, now);
                done()
            },
            KeyCode::Down => {
                self.move_result(true, now);
                done()
            },
            KeyCode::Char(c) => self.results_char(c, now),
            _ => done(),
        }
    }
}

/// Routes a key press: changes the store and says what to launch and
/// whether to end. `help_max_offset` is how far the help can be scrolled on
/// the caller's screen.
pub fn handle_key_event(app: &mut App, key: KeyInput, now: u64, help_max_offset: usize) -> (out:
    KeyOutcome)
    ensures
        out.step(final(app)@) == old(app)@.handle_key_event(key, now, help_max_offset),
{
    proof {
        reveal(AppView::handle_key_event);
    }
    app.set_needs_redraw(true);
    if app.is_global_key(key) {
        app.clear_pending_confirmations();
        app.global_keymap(key, now);
        return done();
    }
    if app.show_help_popup() {
        app.clear_pending_confirmations();
        app.help_popup_input(key, help_max_offset);
        return done();
    }
    let mode = app.input_mode();
    if !key_touches_confirmation(mode, key.code) {
        app.clear_pending_confirmations();
    }
    match mode {
        InputMode::Normal => app.handle_normal_mode_key(key, now),
        InputMode::SearchLeaves => app.handle_search_leaves_mode_key(key, now),
        InputMode::PackageSearch => app.handle_package_search_mode_key(key, now),
        InputMode::PackageResults => app.handle_package_results_mode_key(key, now),
    }
}

} // verus!
