//! The transitions of the state store that need nothing but the store
//! itself and the time.

use vstd::prelude::*;
use vstd::string::*;

use crate::store::{App, AppView};
use crate::text::{join2, same_text};
use crate::types::{
    panel_name, switch, theme_mode_name, FocusedPanel, IconMode, StatusTab, Switch, ThemeMode,
    Toast, ToastLevel, ToastView,
};

verus! {

/// How long a toast stays on screen.
pub const TOAST_DURATION_MS: u64 = 5000;

/// After how long without activity the status line falls back to "Idle".
pub const IDLE_AFTER_MS: u64 = 5000;

/// After how long without a move of the selection scrolling counts as
/// over.
pub const SCROLL_DECAY_MS: u64 = 300;

/// For how long a finished package action is listed as recent.
pub const RECENT_COMPLETION_MS: u64 = 3000;

/// The time from `since` to `now`; nothing where the clock reads less than
/// `since`.
pub open spec fn elapsed(since: u64, now: u64) -> int {
    if now >= since {
        now - since
    } else {
        0
    }
}

/// The time from `since` to `now`.
pub fn elapsed_ms(since: u64, now: u64) -> (d: u64)
    ensures
        d == elapsed(since, now),
{
    if now >= since {
        now - since
    } else {
        0
    }
}

/// A counter of moves after one more move; it stops at 255.
pub open spec fn counted_up(count: u8) -> u8 {
    if count < 255 {
        (count + 1) as u8
    } else {
        255
    }
}

fn count_up(count: u8) -> (next: u8)
    ensures
        next == counted_up(count),
{
    if count < 255 {
        count + 1
    } else {
        255
    }
}

impl AppView {
    /// The store with a new status line, written at `now`.
    pub open spec fn set_status(self, status: Seq<char>, now: u64) -> AppView {
        AppView { status: status, last_refresh: now, ..self }
    }

    /// The store with no confirmation pending.
    pub open spec fn clear_pending_confirmations(self) -> AppView {
        AppView {
            pending_package_action: None,
            pending_upgrade_all_outdated: Switch::Off,
            pending_self_update: Switch::Off,
            ..self
        }
    }

    /// The store with a toast put up at `now`.
    pub open spec fn show_toast(self, level: ToastLevel, message: Seq<char>, now: u64) -> AppView {
        AppView {
            toast: Some(ToastView { level: level, message: message, created_at: now }),
            ..self
        }
    }

    /// Whether the selection has rested long enough for scrolling to count
    /// as over.
    pub open spec fn scroll_paused(self, now: u64) -> bool {
        match self.last_selection_change {
            Some(t) => elapsed(t, now) >= SCROLL_DECAY_MS,
            None => true,
        }
    }

    /// Whether the toast has been up for longer than it may.
    pub open spec fn toast_expired(self, now: u64) -> bool {
        match self.toast {
            Some(t) => elapsed(t.created_at, now) > TOAST_DURATION_MS,
            None => false,
        }
    }

    /// The store with the scroll counter back at nothing where the selection
    /// has rested; a running command keeps the screen moving.
    pub open spec fn decay_scrolling(self, now: u64) -> AppView {
        AppView {
            needs_redraw: switch(self.needs_redraw.on() || self.pending_command.on()),
            recent_selection_count: if self.scroll_paused(now) {
                0
            } else {
                self.recent_selection_count
            },
            ..self
        }
    }

    /// The store with a status line that was left alone for long enough
    /// fallen back to "Idle".
    pub open spec fn settle_status(self, now: u64) -> AppView {
        if elapsed(self.last_refresh, now) >= IDLE_AFTER_MS {
            AppView {
                last_refresh: now,
                status: "Idle"@,
                needs_redraw: switch(self.needs_redraw.on() || self.status != "Idle"@),
                ..self
            }
        } else {
            self
        }
    }

    /// The store without a toast that has been up for longer than it may.
    pub open spec fn expire_toast(self, now: u64) -> AppView {
        if self.toast_expired(now) {
            AppView { toast: None, needs_redraw: Switch::On, ..self }
        } else {
            self
        }
    }

    /// The housekeeping of one turn of the event loop: a running command
    /// keeps the screen moving, the scroll counter decays, a stale status
    /// line falls back to "Idle", and an expired toast goes.
    pub open spec fn on_tick(self, now: u64) -> AppView {
        self.decay_scrolling(now).settle_status(now).expire_toast(now)
    }

    /// The store after the selection moved at `now`.
    pub open spec fn on_selection_change(self, now: u64) -> AppView {
        AppView {
            last_selection_change: Some(now),
            recent_selection_count: counted_up(self.recent_selection_count),
            needs_redraw: Switch::On,
            ..self
        }
    }

    /// Whether the selection moved more than twice without a pause.
    pub open spec fn is_rapid_scrolling(self) -> bool {
        self.recent_selection_count > 2
    }

    /// The store with the next theme mode.
    pub open spec fn cycle_theme(self, now: u64) -> AppView {
        let mode = match self.theme_mode {
            ThemeMode::Auto => ThemeMode::Light,
            ThemeMode::Light => ThemeMode::Dark,
            ThemeMode::Dark => ThemeMode::Auto,
        };
        AppView { theme_mode: mode, ..self }.set_status("Theme: "@ + theme_mode_name(mode), now)
    }

    /// The store with the icons switched between ASCII and the icon font.
    pub open spec fn toggle_icons(self, now: u64) -> AppView {
        let ascii = self.icon_mode != IconMode::Ascii;
        AppView {
            icon_mode: if ascii {
                IconMode::Ascii
            } else {
                IconMode::Nerd
            },
            icons_ascii: switch(ascii),
            ..self
        }.set_status(
            if ascii {
                "Icons: ASCII"@
            } else {
                "Icons: Nerd"@
            },
            now,
        )
    }

    /// The store with the focus on `panel`.
    pub open spec fn focus(self, panel: FocusedPanel, now: u64) -> AppView {
        AppView { focus_panel: panel, ..self }.set_status("Focus: "@ + panel_name(panel), now)
    }

    /// The store with the focus on the next panel.
    pub open spec fn cycle_focus(self, now: u64) -> AppView {
        self.focus(
            match self.focus_panel {
                FocusedPanel::Leaves => FocusedPanel::Sizes,
                FocusedPanel::Sizes => FocusedPanel::Status,
                FocusedPanel::Status => FocusedPanel::Details,
                FocusedPanel::Details => FocusedPanel::Leaves,
            },
            now,
        )
    }

    /// The store with the focus on the panel before.
    pub open spec fn focus_backtab(self, now: u64) -> AppView {
        self.focus(
            match self.focus_panel {
                FocusedPanel::Leaves => FocusedPanel::Details,
                FocusedPanel::Sizes => FocusedPanel::Leaves,
                FocusedPanel::Status => FocusedPanel::Sizes,
                FocusedPanel::Details => FocusedPanel::Status,
            },
            now,
        )
    }

    /// The store with the next tab of the status panel, scrolled to its
    /// top.
    pub open spec fn status_tab_next(self) -> AppView {
        AppView {
            status_tab: match self.status_tab {
                StatusTab::Activity => StatusTab::Issues,
                StatusTab::Issues => StatusTab::Outdated,
                StatusTab::Outdated => StatusTab::Activity,
            },
            status_scroll_offset: 0,
            ..self
        }
    }

    /// The store with the tab before, scrolled to its top.
    pub open spec fn status_tab_prev(self) -> AppView {
        AppView {
            status_tab: match self.status_tab {
                StatusTab::Activity => StatusTab::Outdated,
                StatusTab::Issues => StatusTab::Activity,
                StatusTab::Outdated => StatusTab::Issues,
            },
            status_scroll_offset: 0,
            ..self
        }
    }

    /// The store with the help shown or hidden, scrolled to its top.
    pub open spec fn toggle_help(self) -> AppView {
        AppView { show_help_popup: switch(!self.show_help_popup.on()), help_scroll_offset: 0, ..self }
    }
}

impl App {
    /// Writes the status line at `now`.
    pub fn set_status(&mut self, status: String, now: u64)
        ensures
            final(self)@ == old(self)@.set_status(status@, now),
    {
        self.set_status_text(status);
        self.set_last_refresh(now);
    }

    /// Withdraws whatever confirmation is pending.
    pub fn clear_pending_confirmations(&mut self)
        ensures
            final(self)@ == old(self)@.clear_pending_confirmations(),
    {
        self.set_pending_package_action(None);
        self.set_pending_upgrade_all_outdated(false);
        self.set_pending_self_update(false);
    }

    /// Whether any of the three confirmations is pending.
    pub fn has_pending_confirmation(&self) -> (pending: bool)
        ensures
            pending == self@.has_pending_confirmation(),
    {
        self.pending_package_action().is_some() || self.pending_upgrade_all_outdated()
            || self.pending_self_update()
    }

    /// Puts up a toast at `now`.
    pub fn show_toast(&mut self, level: ToastLevel, message: String, now: u64)
        ensures
            final(self)@ == old(self)@.show_toast(level, message@, now),
    {
        self.set_toast(Some(Toast { level: level, message: message, created_at: now }));
    }

    fn decay_scrolling(&mut self, now: u64)
        ensures
            final(self)@ == old(self)@.decay_scrolling(now),
    {
        let paused = match self.last_selection_change() {
            Some(t) => elapsed_ms(t, now) >= SCROLL_DECAY_MS,
            None => true,
        };
        let redraw = self.needs_redraw() || self.pending_command();
        let count: u8 = if paused {
            0
        } else {
            self.recent_selection_count()
        };
        self.set_needs_redraw(redraw);
        self.set_recent_selection_count(count);
    }

    fn settle_status(&mut self, now: u64)
        ensures
            final(self)@ == old(self)@.settle_status(now),
    {
        if elapsed_ms(self.last_refresh(), now) >= IDLE_AFTER_MS {
            let redraw = self.needs_redraw() || !same_text(self.status().as_str(), "Idle");
            self.set_last_refresh(now);
            self.set_status_text("Idle".to_owned());
            self.set_needs_redraw(redraw);
        }
    }

    fn expire_toast(&mut self, now: u64)
        ensures
            final(self)@ == old(self)@.expire_toast(now),
    {
        let expired = match self.toast() {
            Some(t) => elapsed_ms(t.created_at, now) > TOAST_DURATION_MS,
            None => false,
        };
        if expired {
            self.set_toast(None);
            self.set_needs_redraw(true);
        }
    }

    /// The housekeeping of one turn of the event loop.
    pub fn on_tick(&mut self, now: u64)
        ensures
            final(self)@ == old(self)@.on_tick(now),
    {
        self.decay_scrolling(now);
        self.settle_status(now);
        self.expire_toast(now);
    }

    /// Notes that the selection moved at `now`.
    pub fn on_selection_change(&mut self, now: u64)
        ensures
            final(self)@ == old(self)@.on_selection_change(now),
    {
        let count = count_up(self.recent_selection_count());
        self.set_last_selection_change(Some(now));
        self.set_recent_selection_count(count);
        self.set_needs_redraw(true);
    }

    /// Whether the selection moved more than twice without a pause.
    pub fn is_rapid_scrolling(&self) -> (rapid: bool)
        ensures
            rapid == self@.is_rapid_scrolling(),
    {
        self.recent_selection_count() > 2
    }

    /// Goes on to the next theme mode.
    pub fn cycle_theme(&mut self, now: u64)
        ensures
            final(self)@ == old(self)@.cycle_theme(now),
    {
        let mode = match self.theme_mode() {
            ThemeMode::Auto => ThemeMode::Light,
            ThemeMode::Light => ThemeMode::Dark,
            ThemeMode::Dark => ThemeMode::Auto,
        };
        self.set_theme_mode(mode);
        self.set_status(join2("Theme: ", mode.name()), now);
    }

    /// Switches the icons between ASCII and the icon font.
    pub fn toggle_icons(&mut self, now: u64)
        ensures
            final(self)@ == old(self)@.toggle_icons(now),
    {
        if self.icon_mode() == IconMode::Ascii {
            self.set_icon_mode(IconMode::Nerd);
            self.set_icons_ascii(false);
            self.set_status("Icons: Nerd".to_owned(), now);
        } else {
            self.set_icon_mode(IconMode::Ascii);
            self.set_icons_ascii(true);
            self.set_status("Icons: ASCII".to_owned(), now);
        }
    }

    fn focus(&mut self, panel: FocusedPanel, now: u64)
        ensures
            final(self)@ == old(self)@.focus(panel, now),
    {
        self.set_focus_panel(panel);
        self.set_status(join2("Focus: ", panel.name()), now);
    }

    /// Moves the focus to the next panel.
    pub fn cycle_focus(&mut self, now: u64)
        ensures
            final(self)@ == old(self)@.cycle_focus(now),
    {
        let panel = match self.focus_panel() {
            FocusedPanel::Leaves => FocusedPanel::Sizes,
            FocusedPanel::Sizes => FocusedPanel::Status,
            FocusedPanel::Status => FocusedPanel::Details,
            FocusedPanel::Details => FocusedPanel::Leaves,
        };
        self.focus(panel, now);
    }

    /// Moves the focus to the panel before.
    pub fn focus_backtab(&mut self, now: u64)
        ensures
            final(self)@ == old(self)@.focus_backtab(now),
    {
        let panel = match self.focus_panel() {
            FocusedPanel::Leaves => FocusedPanel::Details,
            FocusedPanel::Sizes => FocusedPanel::Leaves,
            FocusedPanel::Status => FocusedPanel::Sizes,
            FocusedPanel::Details => FocusedPanel::Status,
        };
        self.focus(panel, now);
    }

    /// Goes on to the next tab of the status panel.
    pub fn status_tab_next(&mut self)
        ensures
            final(self)@ == old(self)@.status_tab_next(),
    {
        let tab = match self.status_tab() {
            StatusTab::Activity => StatusTab::Issues,
            StatusTab::Issues => StatusTab::Outdated,
            StatusTab::Outdated => StatusTab::Activity,
        };
        self.set_status_tab(tab);
        self.set_status_scroll_offset(0);
    }

    /// Goes back to the tab before.
    pub fn status_tab_prev(&mut self)
        ensures
            final(self)@ == old(self)@.status_tab_prev(),
    {
        let tab = match self.status_tab() {
            StatusTab::Activity => StatusTab::Outdated,
            StatusTab::Issues => StatusTab::Activity,
            StatusTab::Outdated => StatusTab::Issues,
        };
        self.set_status_tab(tab);
        self.set_status_scroll_offset(0);
    }

    /// Shows or hides the help.
    pub fn toggle_help(&mut self)
        ensures
            final(self)@ == old(self)@.toggle_help(),
    {
        let shown = !self.show_help_popup();
        self.set_show_help_popup(shown);
        self.set_help_scroll_offset(0);
    }
}

} // verus!
