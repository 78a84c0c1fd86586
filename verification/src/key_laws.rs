//! What holds of key handling as a whole: the store stays well formed
//! under every key, and the confirmation state machine falls back to idle
//! under every key that is not part of a confirmation.

use vstd::prelude::*;

use crate::gateway::{CommandKind, DetailsLoad};
use crate::input::{touches_confirmation, KeyCode, KeyInput};
use crate::laws::{
    lemma_auto_details_keeps_wf, lemma_command_reducer_keeps_wf, lemma_fetch_reducers_keep_wf,
    lemma_filters_keep_wf, lemma_requests_keep_wf, lemma_steps_keep_wf,
};
use crate::runtime::{EventView, DETAILS_DEBOUNCE_MS};
use crate::store::AppView;
use crate::types::{switch, InputMode, PackageAction, PackageKind, Switch};

verus! {

/// Whether the selection of a list or of the search results, the text
/// filter, the restriction to outdated formulae or the kind of list shown
/// differs between two stores.
pub open spec fn selection_differs(s: AppView, t: AppView) -> bool {
    ||| t.selected_index != s.selected_index
    ||| t.selected_cask_index != s.selected_cask_index
    ||| t.package_results_selected != s.package_results_selected
    ||| t.leaves_query != s.leaves_query
    ||| t.leaves_outdated_only != s.leaves_outdated_only
    ||| t.active_package_kind != s.active_package_kind
}

/// A transition that keeps the store well formed and asks for no
/// confirmation.
pub open spec fn calm(s: AppView, t: AppView) -> bool {
    &&& s.wf() ==> t.wf()
    &&& !s.has_pending_confirmation() ==> !t.has_pending_confirmation()
}

/// A transition that keeps the store well formed and leaves selection and
/// filter alone.
pub open spec fn steady(s: AppView, t: AppView) -> bool {
    &&& s.wf() ==> t.wf()
    &&& !selection_differs(s, t)
}

/// A transition that keeps the store well formed and leaves nothing
/// waiting for its confirmation.
pub open spec fn settled(s: AppView, t: AppView) -> bool {
    &&& s.wf() ==> t.wf()
    &&& !t.has_pending_confirmation()
}

proof fn lemma_plain_steps_calm(s: AppView, now: u64, max: usize, key: KeyInput)
    ensures
        calm(s, s.cycle_theme(now)),
        calm(s, s.cycle_focus(now)),
        calm(s, s.focus_backtab(now)),
        calm(s, s.status_tab_next()),
        calm(s, s.status_tab_prev()),
        calm(s, s.toggle_help()),
        calm(s, s.toggle_icons(now)),
        calm(s, s.help_popup_input(key, max)),
        calm(s, s.global_keymap(key, now)),
        calm(s, s.on_selection_change(now)),
        calm(s, s.clear_package_results()),
        settled(s, s.clear_pending_confirmations()),
        settled(s, s.cancel_confirmation(now)),
        calm(s, AppView { needs_redraw: Switch::On, ..s }),
{
}

proof fn lemma_requests_calm(
    s: AppView,
    load: DetailsLoad,
    kind: CommandKind,
    args: Seq<Seq<char>>,
    now: u64,
)
    ensures
        calm(s, s.request_leaves(now).0),
        calm(s, s.request_casks(now).0),
        calm(s, s.request_sizes(now).0),
        calm(s, s.request_status(now).0),
        calm(s, s.request_details(load, now).0),
        calm(s, s.request_command(kind, args, now).0),
        calm(s, s.key_refresh(now).state),
{
    if s.wf() {
        lemma_requests_keep_wf(s, Seq::empty(), load, false, kind, args, now);
        lemma_requests_keep_wf(s.request_leaves(now).0, Seq::empty(), load, false, kind, args, now);
    }
}

proof fn lemma_filter_steps_calm(s: AppView, c: char, now: u64)
    ensures
        calm(s, s.open_filter(now)),
        calm(s, s.close_filter(true, now)),
        calm(s, s.close_filter(false, now)),
        calm(s, s.type_filter(c)),
        calm(s, s.erase_filter()),
        calm(s, s.open_package_search(now)),
        calm(s, s.close_package_search(now)),
        calm(s, s.type_package_query(c)),
        calm(s, s.erase_package_query()),
        calm(
            s,
            AppView {
                leaves_query: Seq::empty(),
                ..s
            }.update_all_installed_filters().set_status("Filters cleared"@, now),
        ),
{
    if s.wf() {
        lemma_filters_keep_wf(AppView { leaves_query: Seq::empty(), ..s });
        lemma_filters_keep_wf(
            AppView { input_mode: InputMode::SearchLeaves, leaves_query: Seq::empty(), ..s },
        );
        lemma_filters_keep_wf(AppView { leaves_query: s.leaves_query.push(c), ..s });
        lemma_filters_keep_wf(
            AppView {
                leaves_query: if s.leaves_query.len() > 0 {
                    s.leaves_query.drop_last()
                } else {
                    s.leaves_query
                },
                ..s
            },
        );
    }
}

proof fn lemma_moves_calm(s: AppView, down: bool, now: u64)
    ensures
        calm(s, s.move_selection(down, now)),
        calm(s, s.move_result(down, now)),
        calm(s, s.scrolled(down, now)),
{
    if s.wf() {
        lemma_steps_keep_wf(s, true);
        lemma_steps_keep_wf(s, false);
    }
}

proof fn lemma_toggles_calm(s: AppView, now: u64)
    ensures
        calm(s, s.key_outdated(now).state),
        calm(s, s.key_kind(now).state),
{
    let cleared = s.clear_pending_confirmations();
    if s.wf() {
        lemma_filters_keep_wf(
            AppView { leaves_outdated_only: switch(!s.leaves_outdated_only.on()), ..cleared },
        );
        let toggled = cleared.toggle_installed_kind(now);
        lemma_filters_keep_wf(toggled);
        lemma_filters_keep_wf(toggled.request_casks(now).0);
    }
}

proof fn lemma_asking_steady(
    s: AppView,
    action: PackageAction,
    kind: PackageKind,
    pkg: Seq<char>,
    now: u64,
)
    ensures
        steady(s, s.run_or_confirm_package_action(action, kind, pkg, now).0),
        steady(s, s.run_or_confirm_upgrade_all_outdated(now).0),
        steady(s, s.run_or_confirm_self_update(now).0),
{
}

proof fn lemma_asking_keys_steady(s: AppView, action: PackageAction, verb: Seq<char>, now: u64)
    ensures
        steady(s, s.ask_installed_action(action, verb, now).state),
        steady(s, s.ask_result_action(action, now).state),
        steady(s, s.key_upgrade(now).state),
{
    if s.selected_installed_package() is Some {
        lemma_asking_steady(s, action, s.active_package_kind, s.selected_installed_package()->0, now);
        lemma_asking_steady(s, PackageAction::Upgrade, s.active_package_kind, s.selected_installed_package()->0, now);
    }
    if s.selected_package_result() is Some {
        lemma_asking_steady(s, action, PackageKind::Formula, s.selected_package_result()->0, now);
    }
    lemma_asking_steady(s, action, PackageKind::Formula, Seq::empty(), now);
}

proof fn lemma_escapes_settle(s: AppView, now: u64)
    ensures
        settled(s, s.normal_escape(now)),
        settled(s, s.results_escape(now)),
{
    lemma_filter_steps_calm(s, 'a', now);
    lemma_plain_steps_calm(s, now, 0, KeyInput { code: KeyCode::Esc, alt: false });
}

#[verifier::rlimit(30)]
proof fn lemma_normal_letters(s: AppView, c: char, now: u64)
    ensures
        !touches_confirmation(InputMode::Normal, KeyCode::Char(c)) ==> calm(
            s,
            s.normal_char(c, now).state,
        ),
        touches_confirmation(InputMode::Normal, KeyCode::Char(c)) ==> steady(
            s,
            s.normal_char(c, now).state,
        ),
{
    reveal(AppView::normal_char);
    let key = KeyInput { code: KeyCode::Char(c), alt: false };
    if c == 'i' {
        lemma_asking_keys_steady(s, PackageAction::Install, "install"@, now);
    } else if c == 'u' {
        lemma_asking_keys_steady(s, PackageAction::Uninstall, "uninstall"@, now);
    } else if c == 'U' {
        lemma_asking_keys_steady(s, PackageAction::Upgrade, "upgrade"@, now);
    } else if c == 'P' {
        lemma_asking_steady(s, PackageAction::Install, PackageKind::Formula, Seq::empty(), now);
    } else if c == 'r' || c == 's' || c == 'h' {
        lemma_requests_calm(s, DetailsLoad::Full, CommandKind::Cleanup, Seq::empty(), now);
    } else if c == 'c' {
        lemma_requests_calm(s, DetailsLoad::Full, CommandKind::Cleanup, seq!["cleanup"@, "-s"@], now);
    } else if c == 'a' {
        lemma_requests_calm(s, DetailsLoad::Full, CommandKind::Autoremove, seq!["autoremove"@], now);
    } else if c == 'b' {
        lemma_requests_calm(
            s,
            DetailsLoad::Full,
            CommandKind::BundleDump,
            seq!["bundle"@, "dump"@, "--force"@],
            now,
        );
    } else if c == 'd' {
        lemma_requests_calm(s, DetailsLoad::Full, CommandKind::Cleanup, Seq::empty(), now);
    } else if c == '/' || c == 'f' {
        lemma_filter_steps_calm(s, c, now);
    } else if c == 'o' || c == 'C' {
        lemma_toggles_calm(s, now);
    } else if c == 'k' {
        lemma_moves_calm(s, false, now);
    } else if c == 'j' {
        lemma_moves_calm(s, true, now);
    } else {
        lemma_plain_steps_calm(s, now, 0, key);
    }
}

proof fn lemma_normal_keys(s: AppView, key: KeyInput, now: u64)
    ensures
        !touches_confirmation(InputMode::Normal, key.code) ==> calm(
            s,
            s.handle_normal_mode_key(key, now).state,
        ),
        key.code == KeyCode::Esc ==> settled(s, s.handle_normal_mode_key(key, now).state),
        touches_confirmation(InputMode::Normal, key.code) && key.code != KeyCode::Esc ==> steady(
            s,
            s.handle_normal_mode_key(key, now).state,
        ),
{
    reveal(AppView::handle_normal_mode_key);
    match key.code {
        KeyCode::Char(c) => {
            lemma_normal_letters(s, c, now);
        },
        KeyCode::Esc => {
            lemma_escapes_settle(s, now);
        },
        KeyCode::Enter => {
            lemma_requests_calm(s, DetailsLoad::Basic, CommandKind::Cleanup, Seq::empty(), now);
        },
        KeyCode::Up => {
            lemma_moves_calm(s, false, now);
        },
        KeyCode::Down => {
            lemma_moves_calm(s, true, now);
        },
        _ => {
            lemma_plain_steps_calm(s, now, 0, key);
        },
    }
}

proof fn lemma_typing_keys(s: AppView, key: KeyInput, now: u64)
    ensures
        calm(s, s.handle_search_leaves_mode_key(key, now).state),
        calm(s, s.handle_package_search_mode_key(key, now).state),
{
    reveal(AppView::handle_search_leaves_mode_key);
    reveal(AppView::handle_package_search_mode_key);
    lemma_moves_calm(s, false, now);
    lemma_moves_calm(s, true, now);
    match key.code {
        KeyCode::Char(c) => {
            lemma_filter_steps_calm(s, c, now);
        },
        KeyCode::Enter => {
            lemma_filter_steps_calm(s, 'a', now);
            lemma_requests_calm(
                s,
                DetailsLoad::Basic,
                CommandKind::Search,
                seq!["search"@, crate::text::trimmed(s.package_query)],
                now,
            );
        },
        _ => {
            lemma_filter_steps_calm(s, 'a', now);
        },
    }
}

proof fn lemma_results_keys(s: AppView, key: KeyInput, now: u64)
    ensures
        !touches_confirmation(InputMode::PackageResults, key.code) ==> calm(
            s,
            s.handle_package_results_mode_key(key, now).state,
        ),
        key.code == KeyCode::Esc ==> settled(s, s.handle_package_results_mode_key(key, now).state),
        touches_confirmation(InputMode::PackageResults, key.code) && key.code != KeyCode::Esc
            ==> steady(s, s.handle_package_results_mode_key(key, now).state),
{
    reveal(AppView::handle_package_results_mode_key);
    reveal(AppView::results_char);
    match key.code {
        KeyCode::Char(c) => {
            if c == 'i' {
                lemma_asking_keys_steady(s, PackageAction::Install, Seq::empty(), now);
            } else if c == 'u' {
                lemma_asking_keys_steady(s, PackageAction::Uninstall, Seq::empty(), now);
            } else if c == 'f' {
                lemma_filter_steps_calm(s, c, now);
            } else if c == 'k' {
                lemma_moves_calm(s, false, now);
            } else if c == 'j' {
                lemma_moves_calm(s, true, now);
            }
        },
        KeyCode::Esc => {
            lemma_escapes_settle(s, now);
        },
        KeyCode::Up => {
            lemma_moves_calm(s, false, now);
        },
        KeyCode::Down => {
            lemma_moves_calm(s, true, now);
        },
        _ => {},
    }
}

/// What a key press does to the store, by the kind of key: a key that
/// the help popup or the keys that work everywhere take, and a key that is
/// no part of a confirmation, leaves nothing waiting; Esc leaves nothing
/// waiting; and a key that asks for or confirms a mutating action leaves
/// selection and filter alone. In every case the store stays well formed.
#[verifier::rlimit(30)]
pub proof fn lemma_key_event(s: AppView, key: KeyInput, now: u64, help_max_offset: usize)
    ensures
        ({
            let after = s.handle_key_event(key, now, help_max_offset).state;
            let taken = s.is_global_key(key) || s.show_help_popup.on();
            &&& s.wf() ==> after.wf()
            &&& taken || !touches_confirmation(s.input_mode, key.code) || key.code == KeyCode::Esc
                ==> !after.has_pending_confirmation()
            &&& !taken && touches_confirmation(s.input_mode, key.code) && key.code != KeyCode::Esc
                ==> !selection_differs(s, after)
        }),
{
    reveal(AppView::handle_key_event);
    let dirty = AppView { needs_redraw: Switch::On, ..s };
    let cleared = dirty.clear_pending_confirmations();
    lemma_plain_steps_calm(s, now, help_max_offset, key);
    lemma_plain_steps_calm(dirty, now, help_max_offset, key);
    lemma_plain_steps_calm(cleared, now, help_max_offset, key);
    if dirty.is_global_key(key) || dirty.show_help_popup.on() {
    } else {
        let t = if touches_confirmation(dirty.input_mode, key.code) {
            dirty
        } else {
            cleared
        };
        match dirty.input_mode {
            InputMode::Normal => {
                lemma_normal_keys(t, key, now);
            },
            InputMode::SearchLeaves => {
                lemma_typing_keys(t, key, now);
            },
            InputMode::PackageSearch => {
                lemma_typing_keys(t, key, now);
            },
            InputMode::PackageResults => {
                lemma_results_keys(t, key, now);
            },
        }
    }
}

/// Key handling keeps the store well formed: whatever key is pressed, in
/// whatever mode, the filter indices stay well formed, the selection stays
/// visible, and at most one confirmation is pending.
pub proof fn lemma_keys_keep_wf(s: AppView, key: KeyInput, now: u64, help_max_offset: usize)
    requires
        s.wf(),
    ensures
        s.handle_key_event(key, now, help_max_offset).state.wf(),
{
    lemma_key_event(s, key, now, help_max_offset);
}

/// The fail-safe of the confirmation state machine. A key press that
/// neither asks for, confirms nor cancels a mutating action, and every key
/// press that the help popup or the keys that work everywhere take,
/// leaves nothing waiting for its confirmation.
pub proof fn lemma_unrelated_key_withdraws(
    s: AppView,
    key: KeyInput,
    now: u64,
    help_max_offset: usize,
)
    requires
        !touches_confirmation(s.input_mode, key.code) || s.is_global_key(key)
            || s.show_help_popup.on(),
    ensures
        !s.handle_key_event(key, now, help_max_offset).state.has_pending_confirmation(),
{
    lemma_key_event(s, key, now, help_max_offset);
}

/// An explicit cancel. Esc leaves nothing waiting for its confirmation, in
/// every mode.
pub proof fn lemma_escape_cancels(s: AppView, alt: bool, now: u64, help_max_offset: usize)
    ensures
        !s.handle_key_event(
            KeyInput { code: KeyCode::Esc, alt: alt },
            now,
            help_max_offset,
        ).state.has_pending_confirmation(),
{
    lemma_key_event(s, KeyInput { code: KeyCode::Esc, alt: alt }, now, help_max_offset);
}

/// A change of selection or filter forces the confirmation state machine
/// back to idle: where a key press changed the selection of a list or of
/// the search results, the text filter, the restriction to outdated
/// formulae or the kind of list shown, nothing waits for its confirmation
/// afterwards.
pub proof fn lemma_selection_change_withdraws(
    s: AppView,
    key: KeyInput,
    now: u64,
    help_max_offset: usize,
)
    ensures
        selection_differs(s, s.handle_key_event(key, now, help_max_offset).state)
            ==> !s.handle_key_event(key, now, help_max_offset).state.has_pending_confirmation(),
{
    lemma_key_event(s, key, now, help_max_offset);
}

/// The invariant of the dashboard. Whatever event the loop hands to the
/// store, at whatever time, the store stays well formed: the cache within
/// its capacity, both filter indices well formed with the selection
/// visible, and at most one confirmation pending. A list that arrives is
/// taken to be no longer than a list can be.
pub proof fn lemma_step_keeps_wf(
    s: AppView,
    event: EventView,
    last_fetched_leaf: Option<Seq<char>>,
    now: u64,
)
    requires
        s.wf(),
        match event {
            EventView::Leaves(m) => m is Ok ==> m->Ok_0.len() <= usize::MAX,
            EventView::Casks(m) => m is Ok ==> m->Ok_0.len() <= usize::MAX,
            _ => true,
        },
    ensures
        s.step(event, last_fetched_leaf, now).state.wf(),
{
    reveal(AppView::step);
    let unused = Ok::<Seq<Seq<char>>, Seq<char>>(Seq::empty());
    match event {
        EventView::Key { key, help_max_offset } => {
            lemma_keys_keep_wf(s, key, now, help_max_offset);
        },
        EventView::Leaves(m) => {
            lemma_fetch_reducers_keep_wf(s, m, arbitrary(), arbitrary(), arbitrary(), now);
        },
        EventView::Casks(m) => {
            lemma_fetch_reducers_keep_wf(s, m, arbitrary(), arbitrary(), arbitrary(), now);
        },
        EventView::Details(m) => {
            lemma_fetch_reducers_keep_wf(s, unused, m, arbitrary(), arbitrary(), now);
        },
        EventView::Sizes(m) => {
            lemma_fetch_reducers_keep_wf(s, unused, arbitrary(), m, arbitrary(), now);
        },
        EventView::Status(m) => {
            lemma_fetch_reducers_keep_wf(s, unused, arbitrary(), arbitrary(), m, now);
        },
        EventView::Command(m) => {
            lemma_command_reducer_keeps_wf(s, m, now);
        },
        EventView::Settled => {
            lemma_auto_details_keeps_wf(s, last_fetched_leaf, now, DETAILS_DEBOUNCE_MS);
        },
        EventView::Tick => {},
    }
}

/// Only the user ends the dashboard: a step ends it only where its event
/// is the key `q`, pressed in normal mode while the help is hidden.
#[verifier::rlimit(30)]
pub proof fn lemma_only_q_quits(
    s: AppView,
    event: EventView,
    last_fetched_leaf: Option<Seq<char>>,
    now: u64,
)
    requires
        s.step(event, last_fetched_leaf, now).quit,
    ensures
        event is Key,
        event->key.code == KeyCode::Char('q'),
        s.input_mode == InputMode::Normal,
        !s.show_help_popup.on(),
{
    reveal(AppView::step);
    reveal(AppView::handle_key_event);
    reveal(AppView::handle_normal_mode_key);
    reveal(AppView::handle_search_leaves_mode_key);
    reveal(AppView::handle_package_search_mode_key);
    reveal(AppView::handle_package_results_mode_key);
    if event is Key {
        let key = event->key;
        let dirty = AppView { needs_redraw: Switch::On, ..s };
        match key.code {
            KeyCode::Char(c) => {
                lemma_letter_quits(dirty, c, now);
                lemma_letter_quits(dirty.clear_pending_confirmations(), c, now);
            },
            _ => {},
        }
    }
}

proof fn lemma_letter_quits(s: AppView, c: char, now: u64)
    ensures
        s.normal_char(c, now).quit ==> c == 'q',
        !s.results_char(c, now).quit,
        !s.submit_package_search(now).quit,
{
    reveal(AppView::normal_char);
    reveal(AppView::results_char);
}

} // verus!
