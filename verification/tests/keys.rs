use brewery::confirm::{package_action_args, package_action_labels};
use brewery::gateway::{CommandKind, DetailsLoad, StatusSnapshot};
use brewery::input::{handle_key_event, key_touches_confirmation, KeyCode, KeyInput, KeyOutcome};
use brewery::requests::Effect;
use brewery::store::App;
use brewery::types::{
    FocusedPanel, InputMode, PackageAction, PackageKind, StatusTab, ThemeMode, ViewMode,
};

fn strings(items: &[&str]) -> Vec<String> {
    items.iter().map(|s| s.to_string()).collect()
}

fn app_with_leaves(names: &[&str]) -> App {
    let mut app = App::new(0, false);
    app.leaves = strings(names);
    app.update_filtered_leaves();
    app.needs_redraw = false;
    app
}

fn press(app: &mut App, code: KeyCode, now: u64) -> KeyOutcome {
    handle_key_event(app, KeyInput { code, alt: false }, now, 10)
}

fn ch(app: &mut App, c: char, now: u64) -> KeyOutcome {
    press(app, KeyCode::Char(c), now)
}

fn command_of(out: &KeyOutcome) -> (CommandKind, Vec<String>) {
    assert_eq!(out.effects.len(), 1);
    match &out.effects[0] {
        Effect::RunCommand { kind, args } => (*kind, args.clone()),
        other => panic!("unexpected effect {:?}", other),
    }
}

#[test]
fn install_runs_on_the_second_key_press() {
    let mut app = app_with_leaves(&["bar", "foo"]);
    app.selected_index = Some(1);
    let first = ch(&mut app, 'i', 1);
    assert!(first.effects.is_empty());
    assert!(!first.quit);
    assert_eq!(app.status, "Install formula foo? [i] confirm, [Esc] cancel");
    let pending = app.pending_package_action.as_ref().unwrap();
    assert_eq!((pending.action, pending.kind, pending.pkg.as_str()), (PackageAction::Install, PackageKind::Formula, "foo"));
    assert!(!app.pending_command);

    let second = ch(&mut app, 'i', 2);
    assert_eq!(command_of(&second), (CommandKind::Install, strings(&["install", "foo"])));
    assert!(app.pending_package_action.is_none());
    assert!(!app.has_pending_confirmation());
    assert_eq!(app.status, "Installing formula...");
    assert!(app.pending_command);
    assert_eq!(app.last_command_target, Some("foo".to_string()));

    let third = ch(&mut app, 'i', 3);
    assert!(third.effects.is_empty());
    assert!(app.pending_package_action.is_some());
}

#[test]
fn a_request_for_another_package_asks_anew() {
    let mut app = App::new(0, false);
    assert!(app.run_or_confirm_package_action(PackageAction::Install, PackageKind::Formula, "foo".to_string(), 1).is_none());
    assert!(app.run_or_confirm_package_action(PackageAction::Install, PackageKind::Formula, "bar".to_string(), 2).is_none());
    let pending = app.pending_package_action.as_ref().unwrap();
    assert_eq!(pending.pkg, "bar");
    assert_eq!(pending.action, PackageAction::Install);
    assert!(!app.pending_command);
    assert_eq!(app.status, "Install formula bar? [i] confirm, [Esc] cancel");
    assert!(app.run_or_confirm_package_action(PackageAction::Install, PackageKind::Formula, "bar".to_string(), 3).is_some());
}

#[test]
fn a_request_for_another_action_or_kind_asks_anew() {
    let mut app = App::new(0, false);
    assert!(app.run_or_confirm_package_action(PackageAction::Install, PackageKind::Formula, "foo".to_string(), 1).is_none());
    assert!(app.run_or_confirm_package_action(PackageAction::Uninstall, PackageKind::Formula, "foo".to_string(), 2).is_none());
    assert_eq!(app.status, "Uninstall formula foo? [u] confirm, [Esc] cancel");
    assert!(app.run_or_confirm_package_action(PackageAction::Uninstall, PackageKind::Cask, "foo".to_string(), 3).is_none());
    assert_eq!(app.status, "Uninstall cask foo? [u] confirm, [Esc] cancel");
    match app.run_or_confirm_package_action(PackageAction::Uninstall, PackageKind::Cask, "foo".to_string(), 4) {
        Some(Effect::RunCommand { kind, args }) => {
            assert_eq!(kind, CommandKind::Uninstall);
            assert_eq!(args, strings(&["uninstall", "--cask", "foo"]));
        }
        other => panic!("unexpected effect {:?}", other),
    }
    assert_eq!(app.status, "Uninstalling cask...");
    assert!(app.last_command_target_is_cask);
}

#[test]
fn only_one_confirmation_waits_at_a_time() {
    let mut app = App::new(0, false);
    let mut snapshot = StatusSnapshot::default();
    snapshot.outdated_packages = strings(&["a", "b"]);
    app.system_status = Some(snapshot);
    assert!(app.run_or_confirm_self_update(1).is_none());
    assert!(app.pending_self_update);
    assert!(app.run_or_confirm_upgrade_all_outdated(2).is_none());
    assert!(app.pending_upgrade_all_outdated && !app.pending_self_update);
    assert_eq!(app.status, "Upgrade all 2 outdated packages? [U] confirm, [Esc] cancel");
    assert!(app.run_or_confirm_package_action(PackageAction::Upgrade, PackageKind::Formula, "a".to_string(), 3).is_none());
    assert!(app.pending_package_action.is_some() && !app.pending_upgrade_all_outdated);
    assert_eq!(app.status, "Upgrade formula a? [U] confirm, [Esc] cancel");
    assert!(app.run_or_confirm_self_update(4).is_none());
    assert!(app.pending_self_update && app.pending_package_action.is_none());
    assert_eq!(
        app.status,
        "Update Brewery via `cargo install brewery --locked --force`? [P] confirm, [Esc] cancel"
    );
}

#[test]
fn upgrade_all_runs_on_the_second_request() {
    let mut app = App::new(0, false);
    assert!(app.run_or_confirm_upgrade_all_outdated(1).is_none());
    assert_eq!(app.status, "No outdated packages");
    assert!(!app.pending_upgrade_all_outdated);
    let mut snapshot = StatusSnapshot::default();
    snapshot.outdated_packages = strings(&["a", "b", "c"]);
    app.system_status = Some(snapshot);
    assert_eq!(app.outdated_count(), 3);
    assert!(app.run_or_confirm_upgrade_all_outdated(2).is_none());
    match app.run_or_confirm_upgrade_all_outdated(3) {
        Some(Effect::RunCommand { kind, args }) => {
            assert_eq!(kind, CommandKind::UpgradeAll);
            assert_eq!(args, strings(&["upgrade"]));
        }
        other => panic!("unexpected effect {:?}", other),
    }
    assert_eq!(app.status, "Upgrading 3 outdated packages...");
    assert!(!app.has_pending_confirmation());
}

#[test]
fn self_update_runs_on_the_second_key_press() {
    let mut app = App::new(0, false);
    assert!(ch(&mut app, 'P', 1).effects.is_empty());
    assert!(app.pending_self_update);
    let out = ch(&mut app, 'P', 2);
    assert_eq!(
        command_of(&out),
        (CommandKind::SelfUpdate, strings(&["install", "brewery", "--locked", "--force"]))
    );
    assert_eq!(app.status, "Updating Brewery...");
    assert!(!app.has_pending_confirmation());
}

#[test]
fn escape_cancels_what_waits() {
    let mut app = app_with_leaves(&["foo"]);
    ch(&mut app, 'u', 1);
    assert!(app.has_pending_confirmation());
    press(&mut app, KeyCode::Esc, 2);
    assert!(!app.has_pending_confirmation());
    assert_eq!(app.status, "Canceled");
    assert!(ch(&mut app, 'u', 3).effects.is_empty());
}

#[test]
fn escape_clears_the_filter_when_nothing_waits() {
    let mut app = app_with_leaves(&["foo", "bar"]);
    app.leaves_query = "fo".to_string();
    app.update_all_installed_filters();
    assert_eq!(app.filtered_leaves, vec![0]);
    press(&mut app, KeyCode::Esc, 2);
    assert_eq!(app.leaves_query, "");
    assert_eq!(app.filtered_leaves, vec![0, 1]);
    assert_eq!(app.status, "Filters cleared");
    press(&mut app, KeyCode::Esc, 3);
    assert_eq!(app.last_refresh, 2);
}

#[test]
fn any_other_key_withdraws_what_waits() {
    let keys = [
        KeyCode::Char('t'),
        KeyCode::Char('v'),
        KeyCode::Char('s'),
        KeyCode::Char('x'),
        KeyCode::Char('?'),
        KeyCode::Char('/'),
        KeyCode::Char('o'),
        KeyCode::Char('C'),
        KeyCode::Char('f'),
        KeyCode::Char('j'),
        KeyCode::Tab,
        KeyCode::BackTab,
        KeyCode::Down,
        KeyCode::Up,
        KeyCode::Left,
        KeyCode::Enter,
        KeyCode::Backspace,
        KeyCode::Other,
    ];
    for key in keys {
        let mut app = app_with_leaves(&["foo", "bar"]);
        ch(&mut app, 'i', 1);
        assert!(app.has_pending_confirmation());
        press(&mut app, key, 2);
        assert!(!app.has_pending_confirmation(), "{:?}", key);
        assert!(!key_touches_confirmation(InputMode::Normal, key));
    }
    for c in ['i', 'u', 'U', 'P'] {
        assert!(key_touches_confirmation(InputMode::Normal, KeyCode::Char(c)));
    }
    assert!(key_touches_confirmation(InputMode::Normal, KeyCode::Esc));
    assert!(key_touches_confirmation(InputMode::PackageResults, KeyCode::Char('i')));
    assert!(!key_touches_confirmation(InputMode::PackageResults, KeyCode::Char('U')));
    assert!(!key_touches_confirmation(InputMode::SearchLeaves, KeyCode::Char('i')));
    assert!(!key_touches_confirmation(InputMode::PackageSearch, KeyCode::Esc));
}

#[test]
fn every_key_marks_the_screen_out_of_date() {
    let mut app = app_with_leaves(&["foo"]);
    assert!(!app.needs_redraw);
    press(&mut app, KeyCode::Other, 1);
    assert!(app.needs_redraw);
}

#[test]
fn q_ends_the_dashboard() {
    let mut app = App::new(0, false);
    let out = ch(&mut app, 'q', 1);
    assert!(out.quit);
    assert!(out.effects.is_empty());
    for c in ['r', 't', 'x'] {
        assert!(!ch(&mut app, c, 2).quit);
    }
}

#[test]
fn plain_keys_of_normal_mode() {
    let mut app = app_with_leaves(&["bar", "foo"]);
    let out = ch(&mut app, 'r', 1);
    assert_eq!(out.effects.len(), 2);
    assert!(matches!(out.effects[0], Effect::FetchLeaves));
    assert!(matches!(out.effects[1], Effect::FetchCasks));
    assert!(ch(&mut app, 'r', 2).effects.is_empty());
    assert!(matches!(ch(&mut app, 's', 3).effects[0], Effect::FetchSizes));
    assert!(matches!(ch(&mut app, 'h', 4).effects[0], Effect::FetchStatus));
    ch(&mut app, 't', 5);
    assert_eq!(app.theme_mode, ThemeMode::Light);
    ch(&mut app, 'v', 6);
    assert_eq!(app.view_mode, ViewMode::PackageResults);
    ch(&mut app, 'v', 7);
    assert_eq!(app.view_mode, ViewMode::Details);
    press(&mut app, KeyCode::Tab, 8);
    assert_eq!(app.focus_panel, FocusedPanel::Sizes);
    press(&mut app, KeyCode::BackTab, 9);
    assert_eq!(app.focus_panel, FocusedPanel::Leaves);
    assert_eq!(command_of(&ch(&mut app, 'c', 10)), (CommandKind::Cleanup, strings(&["cleanup", "-s"])));
    app.pending_command = false;
    assert_eq!(command_of(&ch(&mut app, 'a', 11)), (CommandKind::Autoremove, strings(&["autoremove"])));
    app.pending_command = false;
    assert_eq!(command_of(&ch(&mut app, 'b', 12)), (CommandKind::BundleDump, strings(&["bundle", "dump", "--force"])));
}

#[test]
fn details_keys_of_normal_mode() {
    let mut app = app_with_leaves(&["bar", "foo"]);
    let out = press(&mut app, KeyCode::Enter, 1);
    match &out.effects[0] {
        Effect::FetchDetails { pkg, load } => {
            assert_eq!(pkg, "bar");
            assert_eq!(*load, DetailsLoad::Basic);
        }
        other => panic!("unexpected effect {:?}", other),
    }
    app.pending_details = None;
    let out = ch(&mut app, 'd', 2);
    match &out.effects[0] {
        Effect::FetchDetails { pkg, load } => {
            assert_eq!(pkg, "bar");
            assert_eq!(*load, DetailsLoad::Full);
        }
        other => panic!("unexpected effect {:?}", other),
    }
    app.pending_details = None;
    app.active_package_kind = PackageKind::Cask;
    assert!(ch(&mut app, 'd', 3).effects.is_empty());
    assert_eq!(app.status, "Deps/uses are formula-only");
}

#[test]
fn arrow_keys_move_the_selection_of_the_focused_list() {
    let mut app = app_with_leaves(&["a", "b", "c"]);
    press(&mut app, KeyCode::Down, 5);
    assert_eq!(app.selected_index, Some(1));
    assert_eq!(app.last_selection_change, Some(5));
    assert_eq!(app.recent_selection_count, 1);
    ch(&mut app, 'j', 6);
    ch(&mut app, 'j', 7);
    assert_eq!(app.selected_index, Some(2));
    ch(&mut app, 'k', 8);
    press(&mut app, KeyCode::Up, 9);
    press(&mut app, KeyCode::Up, 10);
    assert_eq!(app.selected_index, Some(0));
    assert_eq!(app.recent_selection_count, 6);
    app.focus_panel = FocusedPanel::Details;
    press(&mut app, KeyCode::Down, 11);
    assert_eq!(app.details_scroll_offset, 1);
    assert_eq!(app.selected_index, Some(0));
    assert_eq!(app.last_selection_change, Some(10));
}

#[test]
fn tab_keys_of_the_status_panel() {
    let mut app = App::new(0, false);
    press(&mut app, KeyCode::Right, 1);
    ch(&mut app, ';', 1);
    assert_eq!(app.status_tab, StatusTab::Activity);
    app.focus_panel = FocusedPanel::Status;
    press(&mut app, KeyCode::Right, 1);
    assert_eq!(app.status_tab, StatusTab::Issues);
    ch(&mut app, ';', 1);
    assert_eq!(app.status_tab, StatusTab::Outdated);
    press(&mut app, KeyCode::Left, 1);
    assert_eq!(app.status_tab, StatusTab::Issues);
    ch(&mut app, 'l', 1);
    assert_eq!(app.status_tab, StatusTab::Activity);
}

#[test]
fn action_keys_need_the_list_and_a_selection() {
    let mut app = App::new(0, false);
    assert!(ch(&mut app, 'i', 1).effects.is_empty());
    assert_eq!(app.status, "No formula selected");
    assert!(!app.has_pending_confirmation());
    app.active_package_kind = PackageKind::Cask;
    ch(&mut app, 'u', 2);
    assert_eq!(app.status, "No cask selected");
    app.focus_panel = FocusedPanel::Sizes;
    ch(&mut app, 'i', 3);
    assert_eq!(app.status, "Focus cask list to install");
    ch(&mut app, 'u', 4);
    assert_eq!(app.status, "Focus cask list to uninstall");
    app.active_package_kind = PackageKind::Formula;
    ch(&mut app, 'U', 5);
    assert_eq!(app.status, "Focus formula list to upgrade");
    assert!(!app.has_pending_confirmation());
}

#[test]
fn upgrade_key_upgrades_everything_in_the_outdated_tab() {
    let mut app = app_with_leaves(&["foo"]);
    let mut snapshot = StatusSnapshot::default();
    snapshot.outdated_packages = strings(&["foo"]);
    app.system_status = Some(snapshot);
    ch(&mut app, 'U', 1);
    assert_eq!(app.status, "Upgrade formula foo? [U] confirm, [Esc] cancel");
    app.focus_panel = FocusedPanel::Status;
    app.status_tab = StatusTab::Outdated;
    ch(&mut app, 'U', 2);
    assert!(app.pending_upgrade_all_outdated);
    assert!(app.pending_package_action.is_none());
    assert_eq!(command_of(&ch(&mut app, 'U', 3)), (CommandKind::UpgradeAll, strings(&["upgrade"])));
}

#[test]
fn outdated_key_asks_for_the_status_it_needs() {
    let mut app = app_with_leaves(&["foo"]);
    let out = ch(&mut app, 'o', 1);
    assert!(app.leaves_outdated_only);
    assert!(matches!(out.effects[0], Effect::FetchStatus));
    assert!(app.filtered_leaves.is_empty());
    assert_eq!(app.selected_index, None);
    assert!(ch(&mut app, 'o', 2).effects.is_empty());
    assert!(!app.leaves_outdated_only);
    assert_eq!(app.selected_index, Some(0));
    app.pending_status = false;
    app.system_status = Some(StatusSnapshot::default());
    assert!(ch(&mut app, 'o', 3).effects.is_empty());
}

#[test]
fn kind_key_shows_the_casks_and_fetches_them_once() {
    let mut app = app_with_leaves(&["foo"]);
    let out = ch(&mut app, 'C', 1);
    assert!(app.is_cask_mode());
    assert!(matches!(out.effects[0], Effect::FetchCasks));
    assert_eq!(app.status, "Loading casks...");
    assert!(ch(&mut app, 'C', 2).effects.is_empty());
    assert!(!app.is_cask_mode());
    assert!(ch(&mut app, 'C', 3).effects.is_empty());
    app.pending_casks = false;
    app.casks = strings(&["firefox"]);
    ch(&mut app, 'C', 4);
    assert!(ch(&mut app, 'C', 5).effects.is_empty());
    assert!(app.is_cask_mode());
    assert_eq!(app.filtered_casks, vec![0]);
    assert_eq!(app.selected_cask_index, Some(0));
}

#[test]
fn global_keys_work_in_normal_mode_only() {
    let mut app = App::new(0, false);
    ch(&mut app, '?', 1);
    assert!(app.show_help_popup);
    ch(&mut app, '?', 2);
    assert!(!app.show_help_popup);
    handle_key_event(&mut app, KeyInput { code: KeyCode::Char('i'), alt: true }, 3, 10);
    assert_eq!(app.status, "Icons: ASCII");
    assert!(!app.has_pending_confirmation());
    app.input_mode = InputMode::SearchLeaves;
    ch(&mut app, '?', 4);
    assert!(!app.show_help_popup);
    assert_eq!(app.leaves_query, "?");
}

#[test]
fn the_help_takes_every_key_while_it_is_shown() {
    let mut app = app_with_leaves(&["foo"]);
    app.show_help_popup = true;
    assert!(!ch(&mut app, 'q', 1).quit);
    assert!(ch(&mut app, 'r', 1).effects.is_empty());
    assert!(!app.pending_leaves);
    for _ in 0..12 {
        press(&mut app, KeyCode::Down, 1);
    }
    assert_eq!(app.help_scroll_offset, 10);
    ch(&mut app, 'k', 1);
    press(&mut app, KeyCode::Up, 1);
    assert_eq!(app.help_scroll_offset, 8);
    ch(&mut app, 'j', 1);
    assert_eq!(app.help_scroll_offset, 9);
    app.help_scroll_offset = 0;
    press(&mut app, KeyCode::Up, 1);
    assert_eq!(app.help_scroll_offset, 0);
    press(&mut app, KeyCode::Esc, 1);
    assert!(!app.show_help_popup);
}

#[test]
fn the_filter_is_typed_letter_by_letter() {
    let mut app = app_with_leaves(&["bat", "curl", "wget"]);
    app.leaves_query = "old".to_string();
    ch(&mut app, '/', 1);
    assert_eq!(app.input_mode, InputMode::SearchLeaves);
    assert_eq!(app.leaves_query, "");
    assert_eq!(app.status, "Search");
    ch(&mut app, 'w', 2);
    ch(&mut app, 'q', 3);
    assert_eq!(app.leaves_query, "wq");
    assert!(app.filtered_leaves.is_empty());
    assert_eq!(app.selected_index, None);
    press(&mut app, KeyCode::Backspace, 4);
    assert_eq!(app.leaves_query, "w");
    assert_eq!(app.filtered_leaves, vec![2]);
    assert_eq!(app.selected_index, Some(2));
    press(&mut app, KeyCode::Enter, 5);
    assert_eq!(app.input_mode, InputMode::Normal);
    assert_eq!(app.leaves_query, "w");
    assert_eq!(app.status, "Ready");
    ch(&mut app, '/', 6);
    press(&mut app, KeyCode::Backspace, 7);
    assert_eq!(app.leaves_query, "");
    ch(&mut app, 't', 8);
    assert_eq!(app.filtered_leaves, vec![0, 2]);
    press(&mut app, KeyCode::Down, 9);
    assert_eq!(app.selected_index, Some(2));
    assert_eq!(app.last_selection_change, Some(9));
    press(&mut app, KeyCode::Up, 10);
    assert_eq!(app.selected_index, Some(0));
    press(&mut app, KeyCode::Esc, 11);
    assert_eq!(app.input_mode, InputMode::Normal);
    assert_eq!(app.leaves_query, "");
    assert_eq!(app.filtered_leaves, vec![0, 1, 2]);
}

#[test]
fn the_package_search_is_typed_and_sent() {
    let mut app = App::new(0, false);
    ch(&mut app, 'f', 1);
    assert_eq!(app.input_mode, InputMode::PackageSearch);
    assert_eq!(app.status, "Search packages");
    assert!(press(&mut app, KeyCode::Enter, 2).effects.is_empty());
    assert_eq!(app.status, "Enter a package name");
    for c in " wge".chars() {
        ch(&mut app, c, 3);
    }
    ch(&mut app, 'x', 3);
    press(&mut app, KeyCode::Backspace, 3);
    ch(&mut app, 't', 3);
    ch(&mut app, ' ', 3);
    assert_eq!(app.package_query, " wget ");
    let out = press(&mut app, KeyCode::Enter, 4);
    assert_eq!(command_of(&out), (CommandKind::Search, strings(&["search", "wget"])));
    assert_eq!(app.last_package_search, Some("wget".to_string()));
    assert_eq!(app.status, "Searching...");
    app.package_results = strings(&["wget"]);
    ch(&mut app, '2', 5);
    assert!(app.package_results.is_empty());
    assert_eq!(app.last_package_search, None);
    press(&mut app, KeyCode::Esc, 6);
    assert_eq!(app.input_mode, InputMode::Normal);
    assert_eq!(app.package_query, "");
    assert_eq!(app.status, "Ready");
}

#[test]
fn keys_among_the_search_results() {
    let mut app = App::new(0, false);
    app.input_mode = InputMode::PackageResults;
    app.package_results = strings(&["wget", "wgetpaste"]);
    app.package_results_selected = Some(0);
    press(&mut app, KeyCode::Down, 1);
    assert_eq!(app.package_results_selected, Some(1));
    assert_eq!(app.last_selection_change, Some(1));
    ch(&mut app, 'k', 2);
    assert_eq!(app.package_results_selected, Some(0));
    ch(&mut app, 'j', 3);
    press(&mut app, KeyCode::Up, 4);
    assert_eq!(app.package_results_selected, Some(0));
    assert!(ch(&mut app, 'i', 5).effects.is_empty());
    assert_eq!(app.status, "Install formula wget? [i] confirm, [Esc] cancel");
    press(&mut app, KeyCode::Esc, 6);
    assert_eq!(app.status, "Canceled");
    assert_eq!(app.input_mode, InputMode::PackageResults);
    ch(&mut app, 'u', 7);
    assert_eq!(command_of(&ch(&mut app, 'u', 8)), (CommandKind::Uninstall, strings(&["uninstall", "wget"])));
    ch(&mut app, 'f', 9);
    assert_eq!(app.input_mode, InputMode::PackageSearch);
    assert!(app.package_results.is_empty());
    app.input_mode = InputMode::PackageResults;
    assert!(ch(&mut app, 'i', 10).effects.is_empty());
    assert_eq!(app.status, "No result selected");
    press(&mut app, KeyCode::Esc, 11);
    assert_eq!(app.input_mode, InputMode::Normal);
    assert_eq!(app.status, "Ready");
}

#[test]
fn labels_and_arguments_of_package_actions() {
    assert_eq!(package_action_labels(PackageAction::Install), (CommandKind::Install, "Installing", "Install", 'i'));
    assert_eq!(package_action_labels(PackageAction::Uninstall), (CommandKind::Uninstall, "Uninstalling", "Uninstall", 'u'));
    assert_eq!(package_action_labels(PackageAction::Upgrade), (CommandKind::Upgrade, "Upgrading", "Upgrade", 'U'));
    assert_eq!(package_action_args(PackageAction::Install, PackageKind::Formula, "x"), strings(&["install", "x"]));
    assert_eq!(package_action_args(PackageAction::Install, PackageKind::Cask, "x"), strings(&["install", "--cask", "x"]));
    assert_eq!(package_action_args(PackageAction::Uninstall, PackageKind::Formula, "x"), strings(&["uninstall", "x"]));
    assert_eq!(package_action_args(PackageAction::Uninstall, PackageKind::Cask, "x"), strings(&["uninstall", "--cask", "x"]));
    assert_eq!(package_action_args(PackageAction::Upgrade, PackageKind::Formula, "x"), strings(&["upgrade", "x"]));
    assert_eq!(package_action_args(PackageAction::Upgrade, PackageKind::Cask, "x"), strings(&["upgrade", "--cask", "x"]));
}

#[test]
fn backspace_on_an_empty_filter_changes_nothing() {
    let mut app = app_with_leaves(&["bat"]);
    ch(&mut app, '/', 1);
    press(&mut app, KeyCode::Backspace, 2);
    assert_eq!(app.leaves_query, "");
    assert_eq!(app.filtered_leaves, vec![0]);
    ch(&mut app, 'é', 3);
    ch(&mut app, 'x', 4);
    press(&mut app, KeyCode::Backspace, 5);
    assert_eq!(app.leaves_query, "é");
    press(&mut app, KeyCode::Backspace, 6);
    assert_eq!(app.leaves_query, "");
    app.input_mode = InputMode::PackageSearch;
    press(&mut app, KeyCode::Backspace, 7);
    assert_eq!(app.package_query, "");
}
