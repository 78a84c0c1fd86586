use brewery::gateway::{
    CasksMessage, CommandKind, CommandMessage, CommandResult, Details, DetailsLoad,
    DetailsMessage, LeavesMessage, SizeEntry, SizesMessage, StatusMessage, StatusSnapshot,
};
use brewery::reducers::command_toast_of;
use brewery::requests::Effect;
use brewery::store::App;
use brewery::types::{InputMode, StatusTab, ToastLevel};

fn strings(items: &[&str]) -> Vec<String> {
    items.iter().map(|s| s.to_string()).collect()
}

fn details(desc: &str, deps: bool) -> Details {
    Details {
        desc: Some(desc.to_string()),
        homepage: None,
        latest: None,
        installed: Vec::new(),
        deps: if deps { Some(strings(&["openssl"])) } else { None },
        uses: if deps { Some(Vec::new()) } else { None },
        artifacts: None,
    }
}

fn ran(kind: CommandKind, stdout: &str, stderr: &str, success: bool) -> CommandMessage {
    CommandMessage {
        kind,
        result: Ok(CommandResult {
            stdout: stdout.to_string(),
            stderr: stderr.to_string(),
            success,
        }),
    }
}

fn running(kind: CommandKind, args: &[&str]) -> App {
    let mut app = App::new(0, false);
    assert!(app.request_command(kind, strings(args), 1).is_some());
    app.needs_redraw = false;
    app
}

#[test]
fn leaves_arrive_sorted_and_selected() {
    let mut app = App::new(0, false);
    assert!(app.request_leaves(1).is_some());
    app.apply_leaves_message(LeavesMessage { result: Ok(strings(&["wget", "bat", "curl"])) }, 9);
    assert_eq!(app.leaves, strings(&["bat", "curl", "wget"]));
    assert_eq!(app.filtered_leaves, vec![0, 1, 2]);
    assert_eq!(app.selected_index, Some(0));
    assert!(!app.filtered_leaves_dirty);
    assert_eq!(app.last_leaves_refresh, Some(9));
    assert_eq!(app.last_error, None);
    assert_eq!(app.status, "Leaves updated");
    assert!(!app.pending_leaves);
    assert_eq!(app.last_refresh, 9);
    assert!(app.needs_redraw);
}

#[test]
fn leaves_that_shrink_move_the_selection_back() {
    let mut app = App::new(0, false);
    app.apply_leaves_message(LeavesMessage { result: Ok(strings(&["a", "b", "c"])) }, 1);
    app.selected_index = Some(2);
    app.apply_leaves_message(LeavesMessage { result: Ok(strings(&["a"])) }, 2);
    assert_eq!(app.selected_index, Some(0));
    app.apply_leaves_message(LeavesMessage { result: Ok(Vec::new()) }, 3);
    assert_eq!(app.selected_index, None);
    assert!(app.filtered_leaves.is_empty());
}

#[test]
fn leaves_under_a_filter_that_matches_nothing_select_nothing() {
    let mut app = App::new(0, false);
    app.leaves_query = "zzz".to_string();
    app.apply_leaves_message(LeavesMessage { result: Ok(strings(&["a", "b"])) }, 1);
    assert!(app.filtered_leaves.is_empty());
    assert_eq!(app.selected_index, None);
}

#[test]
fn leaves_that_fail_lower_the_flag_all_the_same() {
    let mut app = App::new(0, false);
    assert!(app.request_leaves(1).is_some());
    app.apply_leaves_message(LeavesMessage { result: Err("brew leaves failed".to_string()) }, 9);
    assert!(!app.pending_leaves);
    assert_eq!(app.last_error, Some("brew leaves failed".to_string()));
    assert_eq!(app.status, "Failed to refresh");
    assert!(app.leaves.is_empty());
    assert_eq!(app.last_leaves_refresh, None);
    assert!(app.needs_redraw);
    assert!(app.request_leaves(10).is_some());
}

#[test]
fn casks_arrive_sorted_and_selected() {
    let mut app = App::new(0, false);
    assert!(app.request_casks(1).is_some());
    app.apply_casks_message(CasksMessage { result: Ok(strings(&["zoom", "firefox"])) }, 9);
    assert_eq!(app.casks, strings(&["firefox", "zoom"]));
    assert_eq!(app.filtered_casks, vec![0, 1]);
    assert_eq!(app.selected_cask_index, Some(0));
    assert_eq!(app.last_casks_refresh, Some(9));
    assert_eq!(app.status, "Casks updated");
    assert!(!app.pending_casks);
}

#[test]
fn casks_that_fail_lower_the_flag_all_the_same() {
    let mut app = App::new(0, false);
    assert!(app.request_casks(1).is_some());
    app.apply_casks_message(CasksMessage { result: Err("no brew".to_string()) }, 9);
    assert!(!app.pending_casks);
    assert_eq!(app.last_error, Some("no brew".to_string()));
    assert_eq!(app.status, "Failed to refresh casks");
}

#[test]
fn details_arrive_in_the_cache() {
    let mut app = App::new(0, false);
    assert!(app.request_details_for("wget", DetailsLoad::Basic, 1).is_some());
    app.apply_details_message(
        DetailsMessage { pkg: "wget".to_string(), load: DetailsLoad::Basic, result: Ok(details("fetcher", false)) },
        5,
    );
    assert_eq!(app.pending_details, None);
    assert_eq!(app.status, "Details loaded");
    assert_eq!(app.last_error, None);
    assert_eq!(app.details("wget").unwrap().desc, Some("fetcher".to_string()));
    assert!(app.needs_redraw);
}

#[test]
fn full_details_are_laid_over_basic_ones() {
    let mut app = App::new(0, false);
    app.apply_details_message(
        DetailsMessage { pkg: "wget".to_string(), load: DetailsLoad::Full, result: Ok(details("first", true)) },
        5,
    );
    assert_eq!(app.status, "Deps/uses loaded");
    app.apply_details_message(
        DetailsMessage { pkg: "wget".to_string(), load: DetailsLoad::Basic, result: Ok(details("second", false)) },
        6,
    );
    let held = app.details("wget").unwrap();
    assert_eq!(held.desc, Some("second".to_string()));
    assert_eq!(held.deps, Some(strings(&["openssl"])));
}

#[test]
fn details_for_a_package_no_longer_selected_still_arrive() {
    let mut app = App::new(0, false);
    app.apply_leaves_message(LeavesMessage { result: Ok(strings(&["bat", "wget"])) }, 1);
    assert!(app.request_details(DetailsLoad::Basic, 2).is_some());
    app.select_next();
    app.apply_details_message(
        DetailsMessage { pkg: "bat".to_string(), load: DetailsLoad::Basic, result: Ok(details("cat clone", false)) },
        3,
    );
    assert_eq!(app.selected_leaf(), Some("wget"));
    assert!(app.details("bat").is_some());
    assert_eq!(app.pending_details, None);
}

#[test]
fn details_that_fail_lower_the_flag_all_the_same() {
    let mut app = App::new(0, false);
    assert!(app.request_details_for("wget", DetailsLoad::Basic, 1).is_some());
    app.apply_details_message(
        DetailsMessage { pkg: "wget".to_string(), load: DetailsLoad::Basic, result: Err("No package info for wget".to_string()) },
        5,
    );
    assert_eq!(app.pending_details, None);
    assert_eq!(app.last_error, Some("No package info for wget".to_string()));
    assert_eq!(app.status, "Details failed");
    assert!(app.details("wget").is_none());
}

#[test]
fn sizes_arrive_and_hold_the_scroll_offset() {
    let mut app = App::new(0, false);
    app.sizes_scroll_offset = 7;
    assert!(app.request_sizes(1).is_some());
    let sizes = vec![
        SizeEntry { name: "llvm".to_string(), size_kb: 900 },
        SizeEntry { name: "bat".to_string(), size_kb: 5 },
        SizeEntry { name: "jq".to_string(), size_kb: 1 },
    ];
    app.apply_sizes_message(SizesMessage { result: Ok(sizes) }, 4);
    assert_eq!(app.sizes.len(), 3);
    assert_eq!(app.sizes[0].name, "llvm");
    assert_eq!(app.sizes_scroll_offset, 2);
    assert_eq!(app.status, "Sizes updated");
    assert_eq!(app.last_sizes_refresh, Some(4));
    assert!(!app.pending_sizes);
    app.apply_sizes_message(SizesMessage { result: Ok(Vec::new()) }, 5);
    assert_eq!(app.sizes_scroll_offset, 0);
}

#[test]
fn sizes_that_fail_lower_the_flag_all_the_same() {
    let mut app = App::new(0, false);
    assert!(app.request_sizes(1).is_some());
    app.apply_sizes_message(SizesMessage { result: Err("du failed".to_string()) }, 4);
    assert!(!app.pending_sizes);
    assert_eq!(app.last_error, Some("du failed".to_string()));
    assert_eq!(app.status, "Sizes failed");
    assert_eq!(app.last_sizes_refresh, None);
}

#[test]
fn status_arrives_with_the_outdated_formulae() {
    let mut app = App::new(0, false);
    app.apply_leaves_message(LeavesMessage { result: Ok(strings(&["bat", "curl", "wget"])) }, 1);
    app.leaves_outdated_only = true;
    app.status_scroll_offset = 50;
    app.status_tab = StatusTab::Outdated;
    assert!(app.request_status(2).is_some());
    let mut snapshot = StatusSnapshot::default();
    snapshot.outdated_packages = strings(&["wget", "curl", "bat"]);
    app.apply_status_message(StatusMessage { result: Ok(snapshot) }, 3);
    assert_eq!(app.outdated_leaves, strings(&["wget", "curl", "bat"]));
    assert_eq!(app.filtered_leaves, vec![0, 1, 2]);
    assert_eq!(app.status_scroll_offset, 1);
    assert_eq!(app.status, "Status check complete");
    assert_eq!(app.last_status_check, Some(3));
    assert!(!app.pending_status);
    assert!(app.system_status.is_some());
}

#[test]
fn status_restricts_the_formulae_to_the_outdated() {
    let mut app = App::new(0, false);
    app.apply_leaves_message(LeavesMessage { result: Ok(strings(&["bat", "curl", "wget"])) }, 1);
    app.leaves_outdated_only = true;
    app.selected_index = Some(0);
    let mut snapshot = StatusSnapshot::default();
    snapshot.outdated_packages = strings(&["wget"]);
    app.apply_status_message(StatusMessage { result: Ok(snapshot) }, 3);
    assert_eq!(app.filtered_leaves, vec![2]);
    assert_eq!(app.selected_index, Some(2));
}

#[test]
fn status_that_fails_lowers_the_flag_all_the_same() {
    let mut app = App::new(0, false);
    assert!(app.request_status(2).is_some());
    app.apply_status_message(StatusMessage { result: Err("brew missing".to_string()) }, 3);
    assert!(!app.pending_status);
    assert_eq!(app.last_error, Some("brew missing".to_string()));
    assert_eq!(app.status, "Status check failed");
    assert!(app.system_status.is_none());
}

#[test]
fn command_that_succeeds_is_logged_and_toasted() {
    let mut app = running(CommandKind::Install, &["install", "wget"]);
    app.apply_command_message(&ran(CommandKind::Install, "line1\nline2\n", "", true), 50);
    assert_eq!(app.last_command_output, strings(&["line1", "line2"]));
    assert_eq!(app.status, "install complete");
    assert_eq!(app.last_command_error, None);
    let toast = app.toast.as_ref().unwrap();
    assert_eq!(toast.level, ToastLevel::Success);
    assert_eq!(toast.message, "Install succeeded for wget");
    assert_eq!(toast.created_at, 50);
    assert_eq!(app.last_command_completed, Some(("install".to_string(), "wget".to_string(), 50)));
    assert!(!app.pending_command);
    assert_eq!(app.command_started_at, None);
    assert_eq!(app.last_refresh, 50);
    assert!(app.needs_redraw);
}

#[test]
fn command_output_is_cut_to_eight_lines() {
    let mut app = running(CommandKind::Cleanup, &["cleanup", "-s"]);
    app.apply_command_message(&ran(CommandKind::Cleanup, "1\n2\n3\n4\n5\n6\n7\n8\n9\n10\n", "", true), 50);
    assert_eq!(app.last_command_output, strings(&["1", "2", "3", "4", "5", "6", "7", "8"]));
    assert!(app.toast.is_none());
    assert_eq!(app.status, "cleanup complete");
    assert_eq!(app.last_command_completed, None);
}

#[test]
fn command_that_succeeds_silently_logs_its_error_output() {
    let mut app = running(CommandKind::Autoremove, &["autoremove"]);
    app.apply_command_message(&ran(CommandKind::Autoremove, " \n", "note\n", true), 50);
    assert_eq!(app.last_command_output, strings(&["note"]));
    assert_eq!(app.last_command_error, None);
}

#[test]
fn command_that_fails_is_logged_and_toasted() {
    let mut app = running(CommandKind::Uninstall, &["uninstall", "wget"]);
    app.apply_command_message(
        &ran(CommandKind::Uninstall, "out\n", "\n  Error: No such keg: wget  \nsecond\n", false),
        50,
    );
    assert_eq!(app.last_command_output, strings(&["", "  Error: No such keg: wget  ", "second"]));
    assert_eq!(app.status, "uninstall failed");
    assert_eq!(app.last_command_error, Some("Error: No such keg: wget  \nsecond".to_string()));
    let toast = app.toast.as_ref().unwrap();
    assert_eq!(toast.level, ToastLevel::Error);
    assert_eq!(toast.message, "Uninstall failed for wget: Error: No such keg: wget");
    assert_eq!(app.last_command_completed, None);
    assert!(!app.pending_command);
}

#[test]
fn failure_reason_falls_back_to_standard_output_and_then_to_a_word() {
    let mut app = running(CommandKind::Upgrade, &["upgrade", "wget"]);
    app.apply_command_message(&ran(CommandKind::Upgrade, "\nalready upgraded\n", " \n", false), 50);
    assert_eq!(app.toast.as_ref().unwrap().message, "Upgrade failed for wget: already upgraded");
    assert_eq!(app.last_command_output, strings(&["", "already upgraded"]));
    assert_eq!(app.last_command_error, None);

    let mut app = running(CommandKind::Upgrade, &["upgrade", "wget"]);
    app.apply_command_message(&ran(CommandKind::Upgrade, "", "", false), 50);
    assert_eq!(app.toast.as_ref().unwrap().message, "Upgrade failed for wget: Unknown error");
}

#[test]
fn command_that_could_not_be_run_is_an_error() {
    let mut app = running(CommandKind::Install, &["install", "wget"]);
    app.apply_command_message(
        &CommandMessage { kind: CommandKind::Install, result: Err("No such file or directory".to_string()) },
        50,
    );
    assert_eq!(app.last_command_error, Some("No such file or directory".to_string()));
    assert_eq!(app.status, "install failed");
    let toast = app.toast.as_ref().unwrap();
    assert_eq!(toast.level, ToastLevel::Error);
    assert_eq!(toast.message, "Install failed for wget: No such file or directory");
    assert!(!app.pending_command);
    assert_eq!(app.command_started_at, None);
}

#[test]
fn toasts_of_the_commands_without_a_target() {
    let none: Option<String> = None;
    let text = |m: &CommandMessage| command_toast_of(m, &none).map(|t| (t.0, t.1));
    assert_eq!(
        text(&ran(CommandKind::UpgradeAll, "", "", true)),
        Some((ToastLevel::Success, "Upgrade succeeded for outdated packages".to_string()))
    );
    assert_eq!(
        text(&ran(CommandKind::SelfUpdate, "", "", true)),
        Some((ToastLevel::Success, "Brewery updated. Restart to use the new version".to_string()))
    );
    assert_eq!(
        text(&ran(CommandKind::UpgradeAll, "", "boom", false)),
        Some((ToastLevel::Error, "Upgrade failed for outdated packages: boom".to_string()))
    );
    assert_eq!(
        text(&ran(CommandKind::SelfUpdate, "", "boom", false)),
        Some((ToastLevel::Error, "Brewery update failed: boom".to_string()))
    );
    assert_eq!(
        text(&CommandMessage { kind: CommandKind::UpgradeAll, result: Err("gone".to_string()) }),
        Some((ToastLevel::Error, "Upgrade failed for outdated packages: gone".to_string()))
    );
    assert_eq!(
        text(&CommandMessage { kind: CommandKind::SelfUpdate, result: Err("gone".to_string()) }),
        Some((ToastLevel::Error, "Brewery update failed: gone".to_string()))
    );
    assert_eq!(text(&ran(CommandKind::Search, "", "", true)), None);
    assert_eq!(text(&ran(CommandKind::Cleanup, "", "boom", false)), None);
    assert_eq!(text(&ran(CommandKind::Install, "", "", true)), None);
}

#[test]
fn search_results_replace_the_list_and_take_the_keys() {
    let mut app = running(CommandKind::Search, &["search", "wg"]);
    app.input_mode = InputMode::PackageSearch;
    app.last_result_details_pkg = Some("old".to_string());
    app.package_results = strings(&["old"]);
    app.package_results_selected = Some(0);
    app.apply_command_message(&ran(CommandKind::Search, "  wget \n\nwgetpaste\n", "", true), 50);
    assert_eq!(app.package_results, strings(&["wget", "wgetpaste"]));
    assert_eq!(app.package_results_selected, Some(0));
    assert_eq!(app.input_mode, InputMode::PackageResults);
    assert_eq!(app.status, "2 results");
    assert_eq!(app.last_result_details_pkg, None);
    assert!(app.toast.is_none());
}

#[test]
fn search_without_results_selects_nothing() {
    let mut app = running(CommandKind::Search, &["search", "zz"]);
    app.input_mode = InputMode::PackageSearch;
    app.package_results = strings(&["old"]);
    app.package_results_selected = Some(0);
    app.apply_command_message(&ran(CommandKind::Search, "\n", "Error: No formulae found", false), 50);
    assert!(app.package_results.is_empty());
    assert_eq!(app.package_results_selected, None);
    assert_eq!(app.input_mode, InputMode::PackageSearch);
    assert_eq!(app.status, "No results found");
}

#[test]
fn an_upgrade_that_succeeds_is_followed_by_three_fetches() {
    let mut app = running(CommandKind::Upgrade, &["upgrade", "wget"]);
    app.details_cache.get_mut_or_insert("wget".to_string(), details("stale", true));
    let effects = app.reduce_command_message(&ran(CommandKind::Upgrade, "done", "", true), 50);
    assert_eq!(effects.len(), 3);
    assert!(matches!(effects[0], Effect::FetchLeaves));
    assert!(matches!(effects[1], Effect::FetchStatus));
    match &effects[2] {
        Effect::FetchDetails { pkg, load } => {
            assert_eq!(pkg, "wget");
            assert_eq!(*load, DetailsLoad::Basic);
        }
        other => panic!("unexpected effect {:?}", other),
    }
    assert!(app.pending_leaves);
    assert!(app.pending_status);
    assert_eq!(app.pending_details, Some("wget".to_string()));
    assert!(!app.pending_command);
    assert_eq!(app.toast.as_ref().unwrap().message, "Upgrade succeeded for wget");
}

#[test]
fn an_install_that_succeeds_is_followed_by_two_fetches() {
    for (kind, args) in [
        (CommandKind::Install, vec!["install", "wget"]),
        (CommandKind::Uninstall, vec!["uninstall", "wget"]),
        (CommandKind::UpgradeAll, vec!["upgrade"]),
    ] {
        let mut app = running(kind, &args);
        let effects = app.reduce_command_message(&ran(kind, "done", "", true), 50);
        assert_eq!(effects.len(), 2);
        assert!(matches!(effects[0], Effect::FetchLeaves));
        assert!(matches!(effects[1], Effect::FetchStatus));
        assert_eq!(app.pending_details, None);
    }
}

#[test]
fn a_command_that_fails_is_followed_by_nothing() {
    let mut app = running(CommandKind::Upgrade, &["upgrade", "wget"]);
    assert!(app.reduce_command_message(&ran(CommandKind::Upgrade, "", "boom", false), 50).is_empty());
    let mut app = running(CommandKind::Install, &["install", "wget"]);
    assert!(app
        .reduce_command_message(&CommandMessage { kind: CommandKind::Install, result: Err("gone".to_string()) }, 50)
        .is_empty());
    assert!(!app.pending_command);
    assert!(!app.pending_leaves);
}

#[test]
fn a_command_that_changes_nothing_is_followed_by_nothing() {
    for (kind, args) in [
        (CommandKind::Search, vec!["search", "x"]),
        (CommandKind::Cleanup, vec!["cleanup", "-s"]),
        (CommandKind::Autoremove, vec!["autoremove"]),
        (CommandKind::BundleDump, vec!["bundle", "dump", "--force"]),
        (CommandKind::SelfUpdate, vec!["install", "brewery", "--locked", "--force"]),
    ] {
        let mut app = running(kind, &args);
        assert!(app.reduce_command_message(&ran(kind, "", "", true), 50).is_empty());
    }
}

#[test]
fn follow_up_fetches_already_in_flight_are_not_launched_again() {
    let mut app = running(CommandKind::Upgrade, &["upgrade", "wget"]);
    assert!(app.request_leaves(2).is_some());
    assert!(app.request_details_for("curl", DetailsLoad::Basic, 2).is_some());
    let effects = app.reduce_command_message(&ran(CommandKind::Upgrade, "done", "", true), 50);
    assert_eq!(effects.len(), 1);
    assert!(matches!(effects[0], Effect::FetchStatus));
    assert_eq!(app.pending_details, Some("curl".to_string()));
}
