//! What holds of the dashboard's rules taken together: the laws of the
//! dispatcher, of the confirmation state machine, of the debounced fetch
//! and of the store's invariant.

use vstd::prelude::*;

use crate::cache::{lemma_overlaid_keeps_bound, lemma_touched_keeps_bound};
use crate::confirm::{action_args, action_command};
use crate::filter::{index_wf, lemma_rebuilt_index, lemma_stepped, visible};
use crate::gateway::{
    command_title, is_package_action, refreshes_lists, CommandKind, CommandMessageView,
    CommandResultView, DetailsLoad, DetailsMessageView, SizeEntryView, StatusSnapshotView,
};
use crate::order::{lemma_sorted_names_same_names, sorted_names};
use crate::reducers::failure_reason;
use crate::requests::EffectView;
use crate::state::elapsed;
use crate::store::AppView;
use crate::types::{PackageAction, PackageKind, ToastLevel, ToastView};

verus! {

/// 1 for an effect that was asked for, 0 for none.
pub open spec fn launched(effect: Option<EffectView>) -> nat {
    if effect is Some {
        1
    } else {
        0
    }
}

/// In-flight exclusivity of the list fetches, the sizes and the status:
/// of two requests of one family in a row the second launches nothing and
/// leaves the store as the first left it, and the first launches its fetch
/// exactly where none was in flight.
pub proof fn lemma_fetch_requested_once(s: AppView, now: u64, later: u64)
    ensures
        s.request_leaves(now).0.request_leaves(later) == (s.request_leaves(now).0, None::<EffectView>),
        s.request_leaves(now).1 is Some <==> !s.pending_leaves.on(),
        s.request_casks(now).0.request_casks(later) == (s.request_casks(now).0, None::<EffectView>),
        s.request_casks(now).1 is Some <==> !s.pending_casks.on(),
        s.request_sizes(now).0.request_sizes(later) == (s.request_sizes(now).0, None::<EffectView>),
        s.request_sizes(now).1 is Some <==> !s.pending_sizes.on(),
        s.request_status(now).0.request_status(later) == (s.request_status(now).0, None::<EffectView>),
        s.request_status(now).1 is Some <==> !s.pending_status.on(),
{
}

/// In-flight exclusivity of commands: of two requests in a row, whatever
/// they ask for, the second launches nothing and leaves the store as the
/// first left it, and the first launches its command exactly where none
/// was in flight.
pub proof fn lemma_command_requested_once(
    s: AppView,
    kind: CommandKind,
    args: Seq<Seq<char>>,
    other: CommandKind,
    other_args: Seq<Seq<char>>,
    now: u64,
    later: u64,
)
    ensures
        s.request_command(kind, args, now).0.request_command(other, other_args, later) == (
            s.request_command(kind, args, now).0,
            None::<EffectView>,
        ),
        s.request_command(kind, args, now).1 is Some <==> !s.pending_command.on(),
{
}

/// In-flight exclusivity of details fetches: a request that follows one
/// that launched a fetch launches nothing and leaves the store as it was,
/// whatever it asks for and whether or not it is forced; and a request is
/// dropped without a trace while a fetch is in flight.
pub proof fn lemma_details_requested_once(
    s: AppView,
    pkg: Seq<char>,
    load: DetailsLoad,
    force: bool,
    other: Seq<char>,
    other_load: DetailsLoad,
    other_force: bool,
    now: u64,
    later: u64,
)
    ensures
        s.pending_details is Some ==> s.request_details_for_inner(pkg, load, force, now) == (
            s,
            None::<EffectView>,
        ),
        s.request_details_for_inner(pkg, load, force, now).1 is Some ==> s.request_details_for_inner(
            pkg,
            load,
            force,
            now,
        ).0.request_details_for_inner(other, other_load, other_force, later) == (
            s.request_details_for_inner(pkg, load, force, now).0,
            None::<EffectView>,
        ),
{
}

/// The confirmation two-step. Two equal requests for a package action in
/// a row, with no command in flight, carry the action out exactly once;
/// where the action was not asked for before, the first request only asks,
/// the second launches the command, and nothing waits afterwards.
pub proof fn lemma_confirmation_two_step(
    s: AppView,
    action: PackageAction,
    kind: PackageKind,
    pkg: Seq<char>,
    now: u64,
    later: u64,
)
    requires
        !s.pending_command.on(),
    ensures
        ({
            let first = s.run_or_confirm_package_action(action, kind, pkg, now);
            let second = first.0.run_or_confirm_package_action(action, kind, pkg, later);
            &&& launched(first.1) + launched(second.1) == 1
            &&& !s.awaits(action, kind, pkg) ==> {
                &&& first.1 is None
                &&& first.0.awaits(action, kind, pkg)
                &&& second.1 == Some(
                    EffectView::RunCommand {
                        kind: action_command(action),
                        args: action_args(action, kind, pkg),
                    },
                )
                &&& !second.0.has_pending_confirmation()
            }
        }),
{
}

/// A request for another action or another package, made while one waits
/// for its confirmation, carries nothing out: it takes the place of the
/// one that waited.
pub proof fn lemma_confirmation_overwritten(
    s: AppView,
    action: PackageAction,
    kind: PackageKind,
    pkg: Seq<char>,
    other_action: PackageAction,
    other_kind: PackageKind,
    other_pkg: Seq<char>,
    now: u64,
    later: u64,
)
    requires
        !s.awaits(action, kind, pkg),
        action != other_action || kind != other_kind || pkg != other_pkg,
    ensures
        ({
            let first = s.run_or_confirm_package_action(action, kind, pkg, now);
            let second = first.0.run_or_confirm_package_action(
                other_action,
                other_kind,
                other_pkg,
                later,
            );
            &&& first.1 is None
            &&& second.1 is None
            &&& second.0.awaits(other_action, other_kind, other_pkg)
            &&& !second.0.awaits(action, kind, pkg)
            &&& second.0.one_confirmation()
        }),
{
}

/// Asking for one thing withdraws the others: after a request for any of
/// the three confirmations, and after a cancel, at most one confirmation
/// is pending, whatever was pending before.
pub proof fn lemma_one_confirmation(
    s: AppView,
    action: PackageAction,
    kind: PackageKind,
    pkg: Seq<char>,
    now: u64,
)
    ensures
        s.run_or_confirm_package_action(action, kind, pkg, now).0.one_confirmation(),
        s.outdated_count() > 0 ==> s.run_or_confirm_upgrade_all_outdated(now).0.one_confirmation(),
        s.run_or_confirm_self_update(now).0.one_confirmation(),
        !s.cancel_confirmation(now).has_pending_confirmation(),
{
}

/// The store after the selection moved at each of `times`, in order.
pub open spec fn moved(s: AppView, times: Seq<u64>) -> AppView
    decreases times.len(),
{
    if times.len() == 0 {
        s
    } else {
        moved(s, times.drop_last()).on_selection_change(times.last())
    }
}

/// Each move of the selection counts, up to 255.
pub proof fn lemma_moves_counted(s: AppView, times: Seq<u64>)
    ensures
        times.len() <= 255 ==> moved(s, times).recent_selection_count >= times.len(),
        times.len() > 255 ==> moved(s, times).recent_selection_count == 255,
        times.len() > 0 ==> moved(s, times).last_selection_change == Some(times.last()),
    decreases times.len(),
{
    if times.len() > 0 {
        lemma_moves_counted(s, times.drop_last());
    }
}

/// Debounce suppression. However often the selection moved, as long as
/// its last move is less than the debounce time ago, the turn of the loop
/// fetches nothing and remembers nothing.
pub proof fn lemma_debounce_suppresses(
    s: AppView,
    times: Seq<u64>,
    fetched: Option<Seq<char>>,
    now: u64,
    debounce: u64,
)
    requires
        times.len() > 0,
        elapsed(times.last(), now) < debounce,
    ensures
        moved(s, times).handle_auto_details(fetched, now, debounce) == (
            moved(s, times),
            fetched,
            None::<EffectView>,
        ),
{
    reveal(AppView::handle_auto_details);
    lemma_moves_counted(s, times);
}

/// Fast scrolling suppresses the fetch. After three moves of the
/// selection or more, with no housekeeping in between to let the counter
/// decay, the turn of the loop fetches nothing, however long ago the last
/// move was.
pub proof fn lemma_scrolling_suppresses(
    s: AppView,
    times: Seq<u64>,
    fetched: Option<Seq<char>>,
    now: u64,
    debounce: u64,
)
    requires
        times.len() >= 3,
    ensures
        moved(s, times).handle_auto_details(fetched, now, debounce) == (
            moved(s, times),
            fetched,
            None::<EffectView>,
        ),
{
    reveal(AppView::handle_auto_details);
    lemma_moves_counted(s, times);
}

/// One turn of the loop asks for at most one fetch, and a turn that asked
/// for one is followed by a turn that asks for none and changes nothing.
pub proof fn lemma_auto_details_once(
    s: AppView,
    fetched: Option<Seq<char>>,
    now: u64,
    later: u64,
    debounce: u64,
)
    ensures
        ({
            let first = s.handle_auto_details(fetched, now, debounce);
            first.2 is Some ==> first.0.handle_auto_details(first.1, later, debounce) == (
                first.0,
                first.1,
                None::<EffectView>,
            )
        }),
{
    reveal(AppView::handle_auto_details);
}

/// The housekeeping lets the scroll counter decay: once the selection has
/// rested for the decay time, a tick brings the counter back to nothing,
/// and the user no longer counts as scrolling fast.
pub proof fn lemma_tick_decays_scrolling(s: AppView, now: u64)
    requires
        s.scroll_paused(now),
    ensures
        !s.on_tick(now).is_rapid_scrolling(),
        s.on_tick(now).recent_selection_count == 0,
{
}

/// A toast goes by the clock alone: a tick later than its time takes it
/// down, and an earlier tick leaves it up.
pub proof fn lemma_toast_expires(s: AppView, now: u64)
    ensures
        s.toast_expired(now) ==> s.on_tick(now).toast is None,
        !s.toast_expired(now) ==> s.on_tick(now).toast == s.toast,
{
}

/// The store starts out well formed.
pub proof fn lemma_initial_wf(now: u64, icons_ascii: bool)
    ensures
        AppView::initial(now, icons_ascii).wf(),
        !AppView::initial(now, icons_ascii).has_pending_confirmation(),
{
}

/// Filter reconciliation. After the index of a list was rebuilt, whatever
/// the list, the query and the selection before, the index is well formed:
/// the visible indices point into the list and rise, and the selection is
/// one of them, or there is none where nothing is visible.
pub proof fn lemma_filter_reconciliation(s: AppView)
    requires
        s.leaves.len() <= usize::MAX,
        s.casks.len() <= usize::MAX,
    ensures
        index_wf(
            s.leaves.len(),
            s.update_filtered_leaves().filtered_leaves,
            s.update_filtered_leaves().selected_index,
        ),
        s.update_filtered_leaves().selected_index is None
            <==> s.update_filtered_leaves().filtered_leaves.len() == 0,
        index_wf(
            s.casks.len(),
            s.update_filtered_casks().filtered_casks,
            s.update_filtered_casks().selected_cask_index,
        ),
        s.update_filtered_casks().selected_cask_index is None
            <==> s.update_filtered_casks().filtered_casks.len() == 0,
{
    lemma_rebuilt_index(s.leaves, s.leaves_query, s.only_outdated(), s.selected_index);
    lemma_rebuilt_index(s.casks, s.leaves_query, None, s.selected_cask_index);
}

/// Rebuilding the indices keeps the store well formed.
pub proof fn lemma_filters_keep_wf(s: AppView)
    requires
        s.wf(),
    ensures
        s.update_filtered_leaves().wf(),
        s.update_filtered_casks().wf(),
        s.update_all_installed_filters().wf(),
        s.update_active_installed_filter().wf(),
{
    lemma_filter_reconciliation(s);
    lemma_filter_reconciliation(s.update_filtered_leaves());
}

/// Stepping keeps the selection inside the visible set: a step of either
/// list, in either direction, keeps the store well formed, and so does a
/// step among the search results.
pub proof fn lemma_steps_keep_wf(s: AppView, forward: bool)
    requires
        s.wf(),
    ensures
        s.select_step(forward).wf(),
        s.select_result_step(forward).wf(),
{
    lemma_stepped(s.filtered_leaves, s.selected_index, forward);
    lemma_stepped(s.filtered_casks, s.selected_cask_index, forward);
}

/// The dispatcher keeps the store well formed; in particular the cache
/// stays within its capacity when it is asked.
pub proof fn lemma_requests_keep_wf(
    s: AppView,
    pkg: Seq<char>,
    load: DetailsLoad,
    force: bool,
    kind: CommandKind,
    args: Seq<Seq<char>>,
    now: u64,
)
    requires
        s.wf(),
    ensures
        s.request_leaves(now).0.wf(),
        s.request_casks(now).0.wf(),
        s.request_sizes(now).0.wf(),
        s.request_status(now).0.wf(),
        s.request_details_for_inner(pkg, load, force, now).0.wf(),
        s.request_details(load, now).0.wf(),
        s.request_command(kind, args, now).0.wf(),
{
    lemma_touched_keeps_bound(s.details_cache, pkg);
    if s.selected_installed_package() is Some {
        lemma_touched_keeps_bound(s.details_cache, s.selected_installed_package()->0);
    }
}

/// The reducers of the fetches keep the store well formed: the cache
/// stays within its capacity whatever arrives, and the index of a list
/// that arrived is rebuilt.
pub proof fn lemma_fetch_reducers_keep_wf(
    s: AppView,
    names: Result<Seq<Seq<char>>, Seq<char>>,
    details: DetailsMessageView,
    sizes: Result<Seq<SizeEntryView>, Seq<char>>,
    status: Result<StatusSnapshotView, Seq<char>>,
    now: u64,
)
    requires
        s.wf(),
        names is Ok ==> names->Ok_0.len() <= usize::MAX,
    ensures
        s.apply_leaves_message(names, now).wf(),
        s.apply_casks_message(names, now).wf(),
        s.apply_details_message(details, now).wf(),
        s.apply_sizes_message(sizes, now).wf(),
        s.apply_status_message(status, now).wf(),
{
    reveal(AppView::apply_leaves_message);
    reveal(AppView::apply_casks_message);
    reveal(AppView::apply_details_message);
    reveal(AppView::apply_sizes_message);
    reveal(AppView::apply_status_message);
    if names is Ok {
        let sorted = sorted_names(names->Ok_0);
        lemma_sorted_names_same_names(names->Ok_0);
        lemma_filter_reconciliation(AppView { leaves: sorted, ..s });
        lemma_filter_reconciliation(AppView { casks: sorted, ..s });
    }
    if details.result is Ok {
        lemma_overlaid_keeps_bound(
            s.details_cache,
            s.details_capacity,
            details.pkg,
            details.result->Ok_0,
        );
    }
    if status is Ok {
        lemma_filter_reconciliation(
            AppView {
                system_status: Some(status->Ok_0),
                outdated_leaves: status->Ok_0.outdated_packages,
                ..s
            },
        );
    }
}

/// The reducer of commands keeps the store well formed, with what follows
/// from the command included.
pub proof fn lemma_command_reducer_keeps_wf(s: AppView, m: CommandMessageView, now: u64)
    requires
        s.wf(),
    ensures
        s.apply_command_message(m, now).wf(),
        s.reduce_command_message(m, now).0.wf(),
{
    reveal(AppView::apply_command_message);
    reveal(AppView::reduce_command_message);
    let applied = s.apply_command_message(m, now);
    let leaves = applied.request_leaves(now);
    let status = leaves.0.request_status(now);
    if s.last_command_target is Some {
        lemma_requests_keep_wf(
            status.0,
            s.last_command_target->0,
            DetailsLoad::Basic,
            true,
            m.kind,
            Seq::empty(),
            now,
        );
    }
}

/// Every reducer lowers the flag of its family, on failure as on success.
pub proof fn lemma_reducers_lower_flags(
    s: AppView,
    names: Result<Seq<Seq<char>>, Seq<char>>,
    details: DetailsMessageView,
    sizes: Result<Seq<SizeEntryView>, Seq<char>>,
    status: Result<StatusSnapshotView, Seq<char>>,
    command: CommandMessageView,
    now: u64,
)
    ensures
        !s.apply_leaves_message(names, now).pending_leaves.on(),
        !s.apply_casks_message(names, now).pending_casks.on(),
        s.apply_details_message(details, now).pending_details is None,
        !s.apply_sizes_message(sizes, now).pending_sizes.on(),
        !s.apply_status_message(status, now).pending_status.on(),
        !s.apply_command_message(command, now).pending_command.on(),
        s.apply_leaves_message(names, now).needs_redraw.on(),
        s.apply_casks_message(names, now).needs_redraw.on(),
        s.apply_details_message(details, now).needs_redraw.on(),
        s.apply_sizes_message(sizes, now).needs_redraw.on(),
        s.apply_status_message(status, now).needs_redraw.on(),
        s.apply_command_message(command, now).needs_redraw.on(),
{
    reveal(AppView::apply_leaves_message);
    reveal(AppView::apply_casks_message);
    reveal(AppView::apply_details_message);
    reveal(AppView::apply_sizes_message);
    reveal(AppView::apply_status_message);
    reveal(AppView::apply_command_message);
}

/// The debounced fetch keeps the store well formed.
pub proof fn lemma_auto_details_keeps_wf(
    s: AppView,
    fetched: Option<Seq<char>>,
    now: u64,
    debounce: u64,
)
    requires
        s.wf(),
    ensures
        s.handle_auto_details(fetched, now, debounce).0.wf(),
{
    reveal(AppView::handle_auto_details);
    if s.selected_package_result() is Some {
        lemma_touched_keeps_bound(s.details_cache, s.selected_package_result()->0);
    }
    if s.selected_installed_package() is Some {
        lemma_touched_keeps_bound(s.details_cache, s.selected_installed_package()->0);
    }
}

/// The housekeeping keeps the store well formed.
pub proof fn lemma_tick_keeps_wf(s: AppView, now: u64)
    requires
        s.wf(),
    ensures
        s.on_tick(now).wf(),
{
}

/// What follows from a mutating command that succeeded. With no fetch of
/// its family in flight, the reducer asks for the installed formulae and
/// for the status, in this order, and nothing else; after the upgrade of
/// one package it also asks for that package's details, at the basic
/// level, whatever the cache holds for it.
pub proof fn lemma_success_is_followed_up(
    s: AppView,
    kind: CommandKind,
    ran: CommandResultView,
    now: u64,
)
    requires
        refreshes_lists(kind),
        ran.success,
        !s.pending_leaves.on(),
        !s.pending_status.on(),
        s.pending_details is None,
    ensures
        ({
            let m = CommandMessageView { kind: kind, result: Ok(ran) };
            let effects = s.reduce_command_message(m, now).1;
            if kind == CommandKind::Upgrade && s.last_command_target is Some {
                effects == seq![
                    EffectView::FetchLeaves,
                    EffectView::FetchStatus,
                    EffectView::FetchDetails {
                        pkg: s.last_command_target->0,
                        load: DetailsLoad::Basic,
                    },
                ]
            } else {
                effects == seq![EffectView::FetchLeaves, EffectView::FetchStatus]
            }
        }),
{
    reveal(AppView::apply_command_message);
    reveal(AppView::reduce_command_message);
    let m = CommandMessageView { kind: kind, result: Ok(ran) };
    let applied = s.apply_command_message(m, now);
    let leaves = applied.request_leaves(now);
    let status = leaves.0.request_status(now);
    assert(status.0.pending_details is None);
    let effects = s.reduce_command_message(m, now).1;
    if kind == CommandKind::Upgrade && s.last_command_target is Some {
        assert(effects =~= seq![
            EffectView::FetchLeaves,
            EffectView::FetchStatus,
            EffectView::FetchDetails { pkg: s.last_command_target->0, load: DetailsLoad::Basic },
        ]);
    } else {
        assert(effects =~= seq![EffectView::FetchLeaves, EffectView::FetchStatus]);
    }
}

/// A command that failed, or could not be run, is followed by nothing.
pub proof fn lemma_failure_is_not_followed_up(s: AppView, m: CommandMessageView, now: u64)
    requires
        match m.result {
            Ok(ran) => !ran.success,
            Err(_) => true,
        },
    ensures
        s.reduce_command_message(m, now) == (
            s.apply_command_message(m, now),
            Seq::<EffectView>::empty(),
        ),
{
    reveal(AppView::reduce_command_message);
}

/// A package action that failed is reported by a toast: an error toast,
/// put up when the result is folded in, that names the action, the package
/// and the first line of the error output that is not blank, or of the
/// standard output, or a word for not knowing.
pub proof fn lemma_failed_action_is_toasted(
    s: AppView,
    kind: CommandKind,
    ran: CommandResultView,
    now: u64,
)
    requires
        is_package_action(kind),
        !ran.success,
        s.last_command_target is Some,
    ensures
        s.apply_command_message(CommandMessageView { kind: kind, result: Ok(ran) }, now).toast
            == Some(
            ToastView {
                level: ToastLevel::Error,
                message: command_title(kind) + " failed for "@ + s.last_command_target->0 + ": "@
                    + failure_reason(ran),
                created_at: now,
            },
        ),
{
    reveal(AppView::apply_command_message);
}

} // verus!
