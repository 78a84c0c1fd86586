//! What the event loop decides between its waits: whether to draw, how
//! long to wait for a key, and whether the details of the selected package
//! are due to be fetched by themselves.

use vstd::prelude::*;
use vstd::string::*;

use crate::gateway::{
    CasksMessage, CommandMessage, CommandMessageView, DetailsLoad, DetailsMessage,
    DetailsMessageView, LeavesMessage, SizeEntryView, SizesMessage, StatusMessage,
    StatusSnapshotView,
};
use crate::input::{handle_key_event, KeyInput, KeyOutcome, KeyStep};
use crate::reducers::{effects_of, push_effect};
use crate::requests::{Effect, EffectView};
use crate::scroll::beyond;
use crate::state::{elapsed, elapsed_ms};
use crate::store::{App, AppView};
use crate::text::same_text;
use crate::types::{InputMode, Switch};

verus! {

/// How long the selection has to rest before details are fetched by
/// themselves.
pub const DETAILS_DEBOUNCE_MS: u64 = 300;

/// How long the loop waits for a key while a command runs, so that the
/// spinner turns.
pub const ACTIVE_TICK_MS: u64 = 80;

/// How long the loop waits for a key while nothing runs.
pub const IDLE_TICK_MS: u64 = 1000;

/// The height of the help popup at most.
pub const HELP_POPUP_HEIGHT: u16 = 22;

/// How far the help can be scrolled on a screen of `rows` rows, for a help
/// of `total_lines` lines: the popup takes up to 22 rows and leaves four
/// rows of the screen free, and two of its rows are its border.
pub open spec fn help_offset_limit(rows: u16, total_lines: usize) -> int {
    let popup = if beyond(rows as int, 4) < HELP_POPUP_HEIGHT {
        beyond(rows as int, 4)
    } else {
        HELP_POPUP_HEIGHT as int
    };
    beyond(total_lines as int, beyond(popup, 2))
}

/// How far the help can be scrolled on a screen of `rows` rows.
pub fn help_max_offset(rows: u16, total_lines: usize) -> (max: usize)
    ensures
        max == help_offset_limit(rows, total_lines),
{
    let free: u16 = if rows >= 4 {
        rows - 4
    } else {
        0
    };
    let popup: u16 = if free < HELP_POPUP_HEIGHT {
        free
    } else {
        HELP_POPUP_HEIGHT
    };
    let shown: usize = if popup >= 2 {
        (popup - 2) as usize
    } else {
        0
    };
    if total_lines >= shown {
        total_lines - shown
    } else {
        0
    }
}

impl AppView {
    /// Whether the selection has rested for `debounce` or was never moved.
    pub open spec fn selection_rested(self, now: u64, debounce: u64) -> bool {
        match self.last_selection_change {
            Some(t) => elapsed(t, now) >= debounce,
            None => true,
        }
    }

    /// Whether the details of `target` are due to be fetched by
    /// themselves, `fetched` being the target they were last fetched for:
    /// the target is another one, the selection has rested, no details
    /// fetch is in flight, and the user is not scrolling fast.
    pub open spec fn auto_details_due(
        self,
        target: Seq<char>,
        fetched: Option<Seq<char>>,
        now: u64,
        debounce: u64,
    ) -> bool {
        &&& fetched != Some(target)
        &&& self.selection_rested(now, debounce)
        &&& self.pending_details is None
        &&& !self.is_rapid_scrolling()
    }

    /// The debounced fetch of details, once in every turn of the loop. The
    /// target is the selected search result while the search has the keys,
    /// and the selected installed package otherwise. Where its details are
    /// due, a basic fetch is asked for and the target remembered: in the
    /// store for a search result, in `last_fetched_leaf` for an installed
    /// package.
    #[verifier::opaque]
    pub open spec fn handle_auto_details(
        self,
        last_fetched_leaf: Option<Seq<char>>,
        now: u64,
        debounce: u64,
    ) -> (AppView, Option<Seq<char>>, Option<EffectView>) {
        if self.in_package_search() {
            match self.selected_package_result() {
                Some(pkg) => if self.auto_details_due(
                    pkg,
                    self.last_result_details_pkg,
                    now,
                    debounce,
                ) {
                    let asked = self.request_details_for(pkg, DetailsLoad::Basic, now);
                    (
                        AppView { last_result_details_pkg: Some(pkg), ..asked.0 },
                        last_fetched_leaf,
                        asked.1,
                    )
                } else {
                    (self, last_fetched_leaf, None)
                },
                None => (self, last_fetched_leaf, None),
            }
        } else {
            match self.selected_installed_package() {
                Some(pkg) => if self.auto_details_due(pkg, last_fetched_leaf, now, debounce) {
                    let asked = self.request_details_for(pkg, DetailsLoad::Basic, now);
                    (asked.0, Some(pkg), asked.1)
                } else {
                    (self, last_fetched_leaf, None)
                },
                None => (self, last_fetched_leaf, None),
            }
        }
    }

    /// How long the loop waits for a key.
    pub open spec fn tick_rate(self) -> u64 {
        if self.pending_command.on() {
            ACTIVE_TICK_MS
        } else {
            IDLE_TICK_MS
        }
    }
}

fn is_target(fetched: &Option<String>, target: &str) -> (same: bool)
    ensures
        same == (fetched.deep_view() == Some(target@)),
{
    match fetched {
        Some(name) => same_text(name.as_str(), target),
        None => false,
    }
}

impl App {
    fn selection_rested(&self, now: u64, debounce: u64) -> (rested: bool)
        ensures
            rested == self@.selection_rested(now, debounce),
    {
        match self.last_selection_change() {
            Some(t) => elapsed_ms(t, now) >= debounce,
            None => true,
        }
    }

    fn auto_details_due(
        &self,
        target: &str,
        fetched: &Option<String>,
        now: u64,
        debounce: u64,
    ) -> (due:
        bool)
        ensures
            due == self@.auto_details_due(target@, fetched.deep_view(), now, debounce),
    {
        !is_target(fetched, target) && self.selection_rested(now, debounce)
            && self.pending_details().is_none() && !self.is_rapid_scrolling()
    }

    /// How long the loop waits for a key, in milliseconds.
    pub fn tick_rate(&self) -> (wait: u64)
        ensures
            wait == self@.tick_rate(),
    {
        if self.pending_command() {
            ACTIVE_TICK_MS
        } else {
            IDLE_TICK_MS
        }
    }

    /// Whether the screen has to be drawn; it counts as drawn afterwards.
    pub fn take_redraw(&mut self) -> (draw: bool)
        ensures
            draw == old(self)@.needs_redraw.on(),
            final(self)@ == (AppView { needs_redraw: Switch::Off, ..old(self)@ }),
    {
        let draw = self.needs_redraw();
        self.set_needs_redraw(false);
        draw
    }
}

/// Moves the focus to the panel before.
pub fn handle_focus_backtab(app: &mut App, now: u64)
    ensures
        final(app)@ == old(app)@.focus_backtab(now),
{
    app.focus_backtab(now);
}

/// The debounced fetch of details, to be called once in every turn of the
/// loop.
pub fn handle_auto_details(
    app: &mut App,
    last_fetched_leaf: &mut Option<String>,
    now: u64,
    debounce: u64,
) -> (effect: Option<Effect>)
    ensures
        (final(app)@, final(last_fetched_leaf).deep_view(), effect.deep_view()) == old(
            app,
        )@.handle_auto_details(old(last_fetched_leaf).deep_view(), now, debounce),
{
    proof {
        reveal(AppView::handle_auto_details);
    }
    let mode = app.input_mode();
    if mode == InputMode::PackageSearch || mode == InputMode::PackageResults {
        let pkg = match app.selected_package_result() {
            Some(name) => name.to_owned(),
            None => {
                return None;
            },
        };
        if !app.auto_details_due(pkg.as_str(), app.last_result_details_pkg(), now, debounce) {
            return None;
        }
        let effect = app.request_details_for(pkg.as_str(), DetailsLoad::Basic, now);
        app.set_last_result_details_pkg(Some(pkg));
        effect
    } else {
        let pkg = match app.selected_installed_package() {
            Some(name) => name.to_owned(),
            None => {
                return None;
            },
        };
        if !app.auto_details_due(pkg.as_str(), last_fetched_leaf, now, debounce) {
            return None;
        }
        let effect = app.request_details_for(pkg.as_str(), DetailsLoad::Basic, now);
        *last_fetched_leaf = Some(pkg);
        effect
    }
}

/// What the event loop hands to the store, one at a time: a key press, the
/// completion of background work, or one of its own two turns.
pub enum Event {
    /// A key was pressed; `help_max_offset` is how far the help can be
    /// scrolled on the screen as it is.
    Key { key: KeyInput, help_max_offset: usize },
    /// A fetch of the installed formulae completed.
    Leaves(LeavesMessage),
    /// A fetch of the installed casks completed.
    Casks(CasksMessage),
    /// A details fetch completed.
    Details(DetailsMessage),
    /// A fetch of the footprints completed.
    Sizes(SizesMessage),
    /// A status check completed.
    Status(StatusMessage),
    /// A command completed.
    Command(CommandMessage),
    /// The messages are drained: time for the debounced fetch.
    Settled,
    /// The wait for a key is over: time for the housekeeping.
    Tick,
}

/// The mathematical value of an [`Event`].
pub enum EventView {
    Key { key: KeyInput, help_max_offset: usize },
    Leaves(Result<Seq<Seq<char>>, Seq<char>>),
    Casks(Result<Seq<Seq<char>>, Seq<char>>),
    Details(DetailsMessageView),
    Sizes(Result<Seq<SizeEntryView>, Seq<char>>),
    Status(Result<StatusSnapshotView, Seq<char>>),
    Command(CommandMessageView),
    Settled,
    Tick,
}

impl View for Event {
    type V = EventView;

    open spec fn view(&self) -> EventView {
        match self {
            Event::Key { key, help_max_offset } => EventView::Key {
                key: *key,
                help_max_offset: *help_max_offset,
            },
            Event::Leaves(m) => EventView::Leaves(m@),
            Event::Casks(m) => EventView::Casks(m@),
            Event::Details(m) => EventView::Details(m@),
            Event::Sizes(m) => EventView::Sizes(m@),
            Event::Status(m) => EventView::Status(m@),
            Event::Command(m) => EventView::Command(m@),
            Event::Settled => EventView::Settled,
            Event::Tick => EventView::Tick,
        }
    }
}

/// What an event leads to: the store afterwards, the target that details
/// were last fetched for by themselves, the effects to launch, and whether
/// the dashboard is to end.
pub struct Step {
    pub state: AppView,
    pub last_fetched_leaf: Option<Seq<char>>,
    pub effects: Seq<EffectView>,
    pub quit: bool,
}

impl AppView {
    /// The one transition of the dashboard: from the store and an event to
    /// the store afterwards and what is to be done. A key press goes to
    /// the key handler, a completion to the reducer of its family, the
    /// settled turn to the debounced fetch, and the tick to the
    /// housekeeping. Nothing but a key press ends the dashboard.
    #[verifier::opaque]
    pub open spec fn step(
        self,
        event: EventView,
        last_fetched_leaf: Option<Seq<char>>,
        now: u64,
    ) -> Step {
        match event {
            EventView::Key { key, help_max_offset } => {
                let pressed = self.handle_key_event(key, now, help_max_offset);
                Step {
                    state: pressed.state,
                    last_fetched_leaf: last_fetched_leaf,
                    effects: pressed.effects,
                    quit: pressed.quit,
                }
            },
            EventView::Leaves(m) => quiet_step(self.apply_leaves_message(m, now), last_fetched_leaf),
            EventView::Casks(m) => quiet_step(self.apply_casks_message(m, now), last_fetched_leaf),
            EventView::Details(m) => quiet_step(
                self.apply_details_message(m, now),
                last_fetched_leaf,
            ),
            EventView::Sizes(m) => quiet_step(self.apply_sizes_message(m, now), last_fetched_leaf),
            EventView::Status(m) => quiet_step(self.apply_status_message(m, now), last_fetched_leaf),
            EventView::Command(m) => {
                let reduced = self.reduce_command_message(m, now);
                Step {
                    state: reduced.0,
                    last_fetched_leaf: last_fetched_leaf,
                    effects: reduced.1,
                    quit: false,
                }
            },
            EventView::Settled => {
                let fetched = self.handle_auto_details(last_fetched_leaf, now, DETAILS_DEBOUNCE_MS);
                Step {
                    state: fetched.0,
                    last_fetched_leaf: fetched.1,
                    effects: effects_of(fetched.2),
                    quit: false,
                }
            },
            EventView::Tick => quiet_step(self.on_tick(now), last_fetched_leaf),
        }
    }
}

/// A step that launches nothing.
pub open spec fn quiet_step(state: AppView, last_fetched_leaf: Option<Seq<char>>) -> Step {
    Step { state: state, last_fetched_leaf: last_fetched_leaf, effects: Seq::empty(), quit: false }
}

fn nothing_to_do() -> (out: KeyOutcome)
    ensures
        !out.quit,
        out.effects.deep_view() == Seq::<EffectView>::empty(),
{
    let effects: Vec<Effect> = Vec::new();
    proof {
        assert(effects.deep_view() =~= Seq::empty());
    }
    KeyOutcome { quit: false, effects: effects }
}

/// The one transition of the dashboard: hands `event` to the store and
/// says what to launch and whether to end.
pub fn step(app: &mut App, last_fetched_leaf: &mut Option<String>, event: Event, now: u64) -> (out:
    KeyOutcome)
    ensures
        (Step {
            state: final(app)@,
            last_fetched_leaf: final(last_fetched_leaf).deep_view(),
            effects: out.effects.deep_view(),
            quit: out.quit,
        }) == old(app)@.step(event@, old(last_fetched_leaf).deep_view(), now),
{
    proof {
        reveal(AppView::step);
    }
    match event {
        Event::Key { key, help_max_offset } => handle_key_event(app, key, now, help_max_offset),
        Event::Leaves(m) => {
            app.apply_leaves_message(m, now);
            nothing_to_do()
        },
        Event::Casks(m) => {
            app.apply_casks_message(m, now);
            nothing_to_do()
        },
        Event::Details(m) => {
            app.apply_details_message(m, now);
            nothing_to_do()
        },
        Event::Sizes(m) => {
            app.apply_sizes_message(m, now);
            nothing_to_do()
        },
        Event::Status(m) => {
            app.apply_status_message(m, now);
            nothing_to_do()
        },
        Event::Command(m) => {
            let effects = app.reduce_command_message(&m, now);
            KeyOutcome { quit: false, effects: effects }
        },
        Event::Settled => {
            let effect = handle_auto_details(app, last_fetched_leaf, now, DETAILS_DEBOUNCE_MS);
            let mut out = nothing_to_do();
            push_effect(&mut out.effects, effect);
            proof {
                assert(Seq::<EffectView>::empty() + effects_of(effect.deep_view()) =~= effects_of(
                    effect.deep_view(),
                ));
            }
            out
        },
        Event::Tick => {
            app.on_tick(now);
            nothing_to_do()
        },
    }
}

} // verus!
