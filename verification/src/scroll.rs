//! Scrolling of the focused panel, and how far the status panel can be
//! scrolled.

use vstd::prelude::*;
use vstd::string::*;

use crate::gateway::{is_activity_command, CommandKind};
use crate::state::{elapsed, elapsed_ms, RECENT_COMPLETION_MS};
use crate::store::{App, AppView};
use crate::types::{FocusedPanel, StatusTab};

verus! {

/// 1 where `b` holds, 0 where it does not.
pub open spec fn one_if(b: bool) -> int {
    if b {
        1
    } else {
        0
    }
}

/// `count` items less the `spare` that need no scrolling to, and not less
/// than nothing.
pub open spec fn beyond(count: int, spare: int) -> int {
    if count >= spare {
        count - spare
    } else {
        0
    }
}

/// The lesser of two numbers.
pub open spec fn least(a: int, b: int) -> int {
    if a <= b {
        a
    } else {
        b
    }
}

fn grow(count: usize, by: usize) -> (sum: usize)
    ensures
        sum == least(count + by, usize::MAX as int),
{
    if count <= usize::MAX - by {
        count + by
    } else {
        usize::MAX
    }
}

fn grow_if(count: usize, b: bool) -> (sum: usize)
    ensures
        sum == least(count + one_if(b), usize::MAX as int),
{
    if b {
        grow(count, 1)
    } else {
        count
    }
}

fn less(count: usize, spare: usize) -> (rest: usize)
    ensures
        rest == beyond(count as int, spare as int),
{
    if count >= spare {
        count - spare
    } else {
        0
    }
}

fn step_down(offset: usize, max: usize) -> (next: usize)
    ensures
        next == least(offset + 1, max as int),
{
    if offset < max {
        offset + 1
    } else {
        max
    }
}

impl AppView {
    /// Whether a package action finished so lately that the activity tab
    /// still lists it.
    pub open spec fn recently_completed(self, now: u64) -> bool {
        match self.last_command_completed {
            Some(done) => elapsed(done.2, now) < RECENT_COMPLETION_MS,
            None => false,
        }
    }

    /// Whether the activity tab shows a command at work.
    pub open spec fn shows_running_command(self) -> bool {
        self.pending_command.on() && match self.last_command {
            Some(kind) => is_activity_command(kind),
            None => false,
        }
    }

    /// The number of lines that the running command takes in the activity
    /// tab: its headline, its output, and a line for its target where it
    /// has one or acts on everything.
    pub open spec fn running_command_lines(self) -> int {
        1 + self.last_command_output.len() + one_if(
            self.last_command_target is Some || self.last_command == Some(CommandKind::UpgradeAll)
                || self.last_command == Some(CommandKind::SelfUpdate),
        )
    }

    /// The number of lines of the activity tab, as far as it can be
    /// counted; none before the first status snapshot has arrived.
    pub open spec fn activity_item_count(self, now: u64) -> int {
        match self.system_status {
            None => 0,
            Some(snapshot) => least(
                (if self.shows_running_command() {
                    self.running_command_lines()
                } else {
                    0
                }) + one_if(self.recently_completed(now)) + one_if(snapshot.brew_version is Some)
                    + 2 + one_if(snapshot.brew_update_status is Some) + one_if(
                    snapshot.last_brew_update_secs_ago is Some,
                ) + one_if(self.last_status_check is Some) + one_if(
                    self.last_leaves_refresh is Some,
                ) + one_if(self.last_sizes_refresh is Some) + one_if(self.last_command is Some),
                usize::MAX as int,
            ),
        }
    }

    /// How far the status panel can be scrolled: the lines of its tab less
    /// two.
    pub open spec fn max_status_scroll(self, now: u64) -> int {
        match self.system_status {
            None => 0,
            Some(snapshot) => beyond(
                match self.status_tab {
                    StatusTab::Outdated => snapshot.outdated_packages.len() as int,
                    StatusTab::Issues => snapshot.doctor_issues.len() as int,
                    StatusTab::Activity => self.activity_item_count(now),
                },
                2,
            ),
        }
    }

    /// The store with the focused panel scrolled up by one line; in the
    /// list of installed packages the selection moves instead.
    pub open spec fn scroll_focused_up(self) -> AppView {
        match self.focus_panel {
            FocusedPanel::Leaves => self.select_prev(),
            FocusedPanel::Sizes => AppView {
                sizes_scroll_offset: beyond(self.sizes_scroll_offset as int, 1) as usize,
                ..self
            },
            FocusedPanel::Status => AppView {
                status_scroll_offset: beyond(self.status_scroll_offset as int, 1) as usize,
                ..self
            },
            FocusedPanel::Details => AppView {
                details_scroll_offset: beyond(self.details_scroll_offset as int, 1) as usize,
                ..self
            },
        }
    }

    /// The store with the focused panel scrolled down by one line, as far
    /// as it goes; in the list of installed packages the selection moves
    /// instead.
    pub open spec fn scroll_focused_down(self, now: u64) -> AppView {
        match self.focus_panel {
            FocusedPanel::Leaves => self.select_next(),
            FocusedPanel::Sizes => AppView {
                sizes_scroll_offset: least(
                    self.sizes_scroll_offset + 1,
                    beyond(self.sizes.len() as int, 1),
                ) as usize,
                ..self
            },
            FocusedPanel::Status => AppView {
                status_scroll_offset: least(
                    self.status_scroll_offset + 1,
                    self.max_status_scroll(now),
                ) as usize,
                ..self
            },
            FocusedPanel::Details => AppView {
                details_scroll_offset: least(
                    self.details_scroll_offset + 1,
                    usize::MAX as int,
                ) as usize,
                ..self
            },
        }
    }
}

impl App {
    fn running_command_lines(&self) -> (count: usize)
        ensures
            count == least(
                if self@.shows_running_command() {
                    self@.running_command_lines()
                } else {
                    0
                },
                usize::MAX as int,
            ),
    {
        let shown = self.pending_command() && match self.last_command() {
            Some(kind) => kind.is_activity_command(),
            None => false,
        };
        if !shown {
            return 0;
        }
        let with_target = self.last_command_target().is_some() || match self.last_command() {
            Some(CommandKind::UpgradeAll) => true,
            Some(CommandKind::SelfUpdate) => true,
            _ => false,
        };
        let lines = self.last_command_output().len();
        proof {
            assert(lines == self@.last_command_output.len());
        }
        grow_if(grow(lines, 1), with_target)
    }

    fn recently_completed(&self, now: u64) -> (recent: bool)
        ensures
            recent == self@.recently_completed(now),
    {
        match self.last_command_completed() {
            Some(done) => elapsed_ms(done.2, now) < RECENT_COMPLETION_MS,
            None => false,
        }
    }

    /// The number of lines of the activity tab.
    pub fn activity_item_count(&self, now: u64) -> (count: usize)
        ensures
            count == self@.activity_item_count(now),
    {
        let (version, update, updated) = match self.system_status() {
            Some(snapshot) => (
                snapshot.brew_version.is_some(),
                snapshot.brew_update_status.is_some(),
                snapshot.last_brew_update_secs_ago.is_some(),
            ),
            None => {
                return 0;
            },
        };
        let mut count = self.running_command_lines();
        count = grow_if(count, self.recently_completed(now));
        count = grow_if(count, version);
        count = grow(count, 2);
        count = grow_if(count, update);
        count = grow_if(count, updated);
        count = grow_if(count, self.last_status_check().is_some());
        count = grow_if(count, self.last_leaves_refresh().is_some());
        count = grow_if(count, self.last_sizes_refresh().is_some());
        count = grow_if(count, self.last_command().is_some());
        count
    }

    /// How far the status panel can be scrolled.
    pub fn max_status_scroll(&self, now: u64) -> (max: usize)
        ensures
            max == self@.max_status_scroll(now),
    {
        let count = match self.system_status() {
            Some(snapshot) => match self.status_tab() {
                StatusTab::Outdated => snapshot.outdated_packages.len(),
                StatusTab::Issues => snapshot.doctor_issues.len(),
                StatusTab::Activity => self.activity_item_count(now),
            },
            None => {
                return 0;
            },
        };
        less(count, 2)
    }

    /// Scrolls the focused panel up by one line.
    pub fn scroll_focused_up(&mut self)
        ensures
            final(self)@ == old(self)@.scroll_focused_up(),
    {
        match self.focus_panel() {
            FocusedPanel::Leaves => {
                self.select_prev();
            },
            FocusedPanel::Sizes => {
                let offset = less(self.sizes_scroll_offset(), 1);
                self.set_sizes_scroll_offset(offset);
            },
            FocusedPanel::Status => {
                let offset = less(self.status_scroll_offset(), 1);
                self.set_status_scroll_offset(offset);
            },
            FocusedPanel::Details => {
                let offset = less(self.details_scroll_offset(), 1);
                self.set_details_scroll_offset(offset);
            },
        }
    }

    /// Scrolls the focused panel down by one line, as far as it goes.
    pub fn scroll_focused_down(&mut self, now: u64)
        ensures
            final(self)@ == old(self)@.scroll_focused_down(now),
    {
        match self.focus_panel() {
            FocusedPanel::Leaves => {
                self.select_next();
            },
            FocusedPanel::Sizes => {
                let max = less(self.sizes().len(), 1);
                let offset = step_down(self.sizes_scroll_offset(), max);
                self.set_sizes_scroll_offset(offset);
            },
            FocusedPanel::Status => {
                let max = self.max_status_scroll(now);
                let offset = step_down(self.status_scroll_offset(), max);
                self.set_status_scroll_offset(offset);
            },
            FocusedPanel::Details => {
                let offset = step_down(self.details_scroll_offset(), usize::MAX);
                self.set_details_scroll_offset(offset);
            },
        }
    }
}

} // verus!
