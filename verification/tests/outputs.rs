use brewery::detect::{dark_background, icons_ascii_asked, same_ignoring_ascii_case};
use brewery::format::{format_elapsed, format_list_inline, icon_label, symbol};
use brewery::gateway::{CommandKind, CommandResult, SizeEntry};
use brewery::order::sort_sizes;
use brewery::outputs::{
    assemble_status, doctor_issues, failure_message, has_prefix, is_newer_version,
    outdated_among, parse_latest_brewery_version, parse_semver_triplet, parse_u64,
    update_status_text, StatusInput,
};
use brewery::reducers::package_action_target;
use brewery::store::App;

fn strings(items: &[&str]) -> Vec<String> {
    items.iter().map(|s| s.to_string()).collect()
}

fn ran(stdout: &str, stderr: &str, success: bool) -> CommandResult {
    CommandResult { stdout: stdout.to_string(), stderr: stderr.to_string(), success }
}

#[test]
fn failure_message_prefers_the_error_output() {
    assert_eq!(failure_message("  Error: boom \n", "brew leaves failed"), "Error: boom");
    assert_eq!(failure_message(" \n", "brew leaves failed"), "brew leaves failed");
    assert_eq!(failure_message("", "du failed"), "du failed");
}

#[test]
fn parse_u64_reads_decimal_numbers() {
    assert_eq!(parse_u64("0"), Some(0));
    assert_eq!(parse_u64("007"), Some(7));
    assert_eq!(parse_u64("+42"), Some(42));
    assert_eq!(parse_u64("18446744073709551615"), Some(u64::MAX));
    assert_eq!(parse_u64("18446744073709551616"), None);
    assert_eq!(parse_u64("99999999999999999999999"), None);
    assert_eq!(parse_u64(""), None);
    assert_eq!(parse_u64("+"), None);
    assert_eq!(parse_u64("-1"), None);
    assert_eq!(parse_u64("++1"), None);
    assert_eq!(parse_u64("1+"), None);
    assert_eq!(parse_u64("12a"), None);
    assert_eq!(parse_u64(" 12"), None);
    assert_eq!(parse_u64("١٢"), None);
}

#[test]
fn parse_u64_agrees_with_the_standard_library() {
    for s in ["", "0", "1", "+1", "-0", "00", "123456789", "18446744073709551615", "18446744073709551616", "1_0", "1.0", "+", "x"] {
        assert_eq!(parse_u64(s), s.parse::<u64>().ok(), "{:?}", s);
    }
}

#[test]
fn parse_semver_triplet_reads_three_numbers() {
    assert_eq!(parse_semver_triplet("1.2.3"), (1, 2, 3));
    assert_eq!(parse_semver_triplet("0.10.0-beta.4"), (0, 10, 0));
    assert_eq!(parse_semver_triplet("2"), (2, 0, 0));
    assert_eq!(parse_semver_triplet("2.5"), (2, 5, 0));
    assert_eq!(parse_semver_triplet("1.2.3.4"), (1, 2, 3));
    assert_eq!(parse_semver_triplet(""), (0, 0, 0));
    assert_eq!(parse_semver_triplet("v1.2.3"), (0, 2, 3));
    assert_eq!(parse_semver_triplet("1..3"), (1, 0, 3));
    assert_eq!(parse_semver_triplet("-1.2.3"), (0, 0, 0));
    assert_eq!(parse_semver_triplet("1.x.3-rc-1"), (1, 0, 3));
}

#[test]
fn is_newer_version_orders_by_major_minor_patch() {
    assert!(is_newer_version("1.0.0", "0.9.9"));
    assert!(is_newer_version("0.10.0", "0.9.9"));
    assert!(is_newer_version("0.9.10", "0.9.9"));
    assert!(!is_newer_version("0.9.9", "0.9.9"));
    assert!(!is_newer_version("0.9.9", "0.9.10"));
    assert!(!is_newer_version("0.9.9", "1.0.0"));
    assert!(!is_newer_version("1.0.0-beta", "1.0.0"));
    assert!(!is_newer_version("garbage", "0.0.1"));
}

#[test]
fn parse_latest_brewery_version_reads_the_quoted_version() {
    let out = "other = \"9.9.9\"\n  brewery = \" 0.4.2 \"    # A terminal dashboard\n";
    assert_eq!(parse_latest_brewery_version(out), Some("0.4.2".to_string()));
    assert_eq!(parse_latest_brewery_version("brewery = \"1.0.0\""), Some("1.0.0".to_string()));
    assert_eq!(parse_latest_brewery_version("brewery = \"1.0.0"), None);
    assert_eq!(parse_latest_brewery_version("brewery = 1.0.0"), None);
    assert_eq!(parse_latest_brewery_version("brewery = \"  \""), None);
    assert_eq!(parse_latest_brewery_version("brewery-extra = \"1.0.0\""), None);
    assert_eq!(parse_latest_brewery_version("brewery = 1\nbrewery = \"2.0.0\""), None);
    assert_eq!(parse_latest_brewery_version(""), None);
}

#[test]
fn has_prefix_compares_the_beginning() {
    assert!(has_prefix("Warning: x", "Warning:"));
    assert!(has_prefix("Warning:", "Warning:"));
    assert!(has_prefix("abc", ""));
    assert!(!has_prefix("Warn", "Warning:"));
    assert!(!has_prefix(" Warning:", "Warning:"));
    assert!(has_prefix("été", "ét"));
    assert!(!has_prefix("ete", "ét"));
}

#[test]
fn doctor_issues_keeps_the_first_five_findings() {
    let out = "Please note\nWarning: a\n  Warning: indented\nError: b\nWarning: c\nWarning: d\nWarning: e\nWarning: f\n";
    assert_eq!(
        doctor_issues(&ran("Warning: from stdout", out, false)),
        strings(&["Warning: a", "Error: b", "Warning: c", "Warning: d", "Warning: e"])
    );
    assert_eq!(doctor_issues(&ran("Warning: from stdout\nfine", "", false)), strings(&["Warning: from stdout"]));
    assert_eq!(doctor_issues(&ran("Warning: hidden", " ", false)), Vec::<String>::new());
    assert_eq!(doctor_issues(&ran("", "", false)), Vec::<String>::new());
}

#[test]
fn update_status_text_turns_after_a_day() {
    assert_eq!(update_status_text(Some(0)), "Up to date");
    assert_eq!(update_status_text(Some(86_400)), "Up to date");
    assert_eq!(update_status_text(Some(86_401)), "Update recommended");
    assert_eq!(update_status_text(None), "Unknown");
}

#[test]
fn outdated_among_keeps_the_leaves() {
    assert_eq!(outdated_among(" wget \nopenssl\n\ncurl\n", "curl\nwget\nbat\n"), strings(&["wget", "curl"]));
    assert_eq!(outdated_among("wget\n", ""), Vec::<String>::new());
    assert_eq!(outdated_among("", "wget\n"), Vec::<String>::new());
}

#[test]
fn assemble_status_puts_the_snapshot_together() {
    let snapshot = assemble_status(StatusInput {
        version: Some(ran("\nHomebrew 4.2.0\nHomebrew/homebrew-core\n", "", true)),
        info: Some(ran("120 kegs, 80,000 files, 4GB\n", "", true)),
        leaves: Some(ran("bat\nwget\n", "", true)),
        doctor: Some(ran("", "Warning: unlinked kegs\nsome advice\n", false)),
        outdated: Some(ran("wget\nopenssl\n", "", true)),
        last_update_secs_ago: Some(90_000),
        latest_version: Some("9.0.0".to_string()),
        current_version: "0.1.0".to_string(),
    });
    assert_eq!(snapshot.brew_version, Some("Homebrew 4.2.0".to_string()));
    assert_eq!(snapshot.brew_info, Some("120 kegs, 80,000 files, 4GB".to_string()));
    assert_eq!(snapshot.doctor_ok, Some(false));
    assert_eq!(snapshot.doctor_issues, strings(&["Warning: unlinked kegs"]));
    assert_eq!(snapshot.outdated_count, Some(1));
    assert_eq!(snapshot.outdated_packages, strings(&["wget"]));
    assert_eq!(snapshot.brew_update_status, Some("Update recommended".to_string()));
    assert_eq!(snapshot.last_brew_update_secs_ago, Some(90_000));
    assert_eq!(snapshot.brewery_latest_version, Some("9.0.0".to_string()));
    assert!(snapshot.brewery_update_available);
}

#[test]
fn assemble_status_of_commands_that_could_not_be_run() {
    let snapshot = assemble_status(StatusInput {
        version: None,
        info: Some(ran("ignored", "", false)),
        leaves: None,
        doctor: None,
        outdated: None,
        last_update_secs_ago: None,
        latest_version: None,
        current_version: "0.1.0".to_string(),
    });
    assert_eq!(snapshot.brew_version, None);
    assert_eq!(snapshot.brew_info, None);
    assert_eq!(snapshot.doctor_ok, None);
    assert!(snapshot.doctor_issues.is_empty());
    assert_eq!(snapshot.outdated_count, None);
    assert!(snapshot.outdated_packages.is_empty());
    assert_eq!(snapshot.brew_update_status, Some("Unknown".to_string()));
    assert_eq!(snapshot.brewery_latest_version, None);
    assert!(!snapshot.brewery_update_available);
}

#[test]
fn assemble_status_of_a_healthy_system() {
    let snapshot = assemble_status(StatusInput {
        version: Some(ran("Homebrew 4.2.0", "", true)),
        info: None,
        leaves: None,
        doctor: Some(ran("Your system is ready to brew.", "Warning: ignored", true)),
        outdated: Some(ran("wget\n", "", true)),
        last_update_secs_ago: Some(10),
        latest_version: Some("0.1.0".to_string()),
        current_version: "0.1.0".to_string(),
    });
    assert_eq!(snapshot.doctor_ok, Some(true));
    assert!(snapshot.doctor_issues.is_empty());
    assert_eq!(snapshot.outdated_count, Some(0));
    assert_eq!(snapshot.brew_update_status, Some("Up to date".to_string()));
    assert!(!snapshot.brewery_update_available);
}

#[test]
fn sort_sizes_puts_the_largest_first() {
    let entry = |name: &str, size_kb: u64| SizeEntry { name: name.to_string(), size_kb };
    let sorted = sort_sizes(vec![entry("a", 5), entry("b", 900), entry("c", 5), entry("d", 0), entry("e", 901)]);
    let order: Vec<(&str, u64)> = sorted.iter().map(|e| (e.name.as_str(), e.size_kb)).collect();
    assert_eq!(order, vec![("e", 901), ("b", 900), ("a", 5), ("c", 5), ("d", 0)]);
    assert!(sort_sizes(Vec::new()).is_empty());
}

#[test]
fn format_elapsed_uses_the_largest_whole_unit() {
    assert_eq!(format_elapsed(0), "0s");
    assert_eq!(format_elapsed(59), "59s");
    assert_eq!(format_elapsed(60), "1m");
    assert_eq!(format_elapsed(3599), "59m");
    assert_eq!(format_elapsed(3600), "1h");
    assert_eq!(format_elapsed(86_399), "23h");
    assert_eq!(format_elapsed(86_400), "1d");
    assert_eq!(format_elapsed(u64::MAX), "213503982334601d");
}

#[test]
fn format_list_inline_joins_with_commas() {
    assert_eq!(format_list_inline(&strings(&[])), "none");
    assert_eq!(format_list_inline(&strings(&["1.0"])), "1.0");
    assert_eq!(format_list_inline(&strings(&["1.0", "1.1", "2.0"])), "1.0, 1.1, 2.0");
}

#[test]
fn icons_follow_the_store() {
    let ascii = App::new(0, true);
    let nerd = App::new(0, false);
    assert_eq!(symbol(&ascii, "↑", "^"), "^");
    assert_eq!(symbol(&nerd, "↑", "^"), "↑");
    assert_eq!(icon_label(&ascii, "↑", "^"), "^");
    assert_eq!(icon_label(&nerd, "↑", "^"), "↑");
}

#[test]
fn visible_formulae_are_listed_with_their_indices() {
    let mut app = App::new(0, false);
    app.leaves = strings(&["bat", "curl", "wget"]);
    app.leaves_query = "t".to_string();
    app.update_filtered_leaves();
    assert_eq!(app.filtered_leaves(), vec![(0, "bat"), (2, "wget")]);
    app.filtered_leaves = vec![1, 7];
    assert_eq!(app.filtered_leaves(), vec![(1, "curl")]);
}

#[test]
fn icons_in_ascii_are_asked_for_by_one_or_true() {
    assert!(icons_ascii_asked(Some("1")));
    assert!(icons_ascii_asked(Some("true")));
    assert!(icons_ascii_asked(Some("TRUE")));
    assert!(icons_ascii_asked(Some("tRuE")));
    assert!(!icons_ascii_asked(Some("0")));
    assert!(!icons_ascii_asked(Some("yes")));
    assert!(!icons_ascii_asked(Some("true ")));
    assert!(!icons_ascii_asked(Some("")));
    assert!(!icons_ascii_asked(None));
    assert!(same_ignoring_ascii_case("Dark", "dARK"));
    assert!(!same_ignoring_ascii_case("dark", "dar"));
    assert!(!same_ignoring_ascii_case("d@rk", "d`rk"));
}

#[test]
fn background_is_told_from_the_environment() {
    assert!(dark_background(Some("15;0"), None, None, None));
    assert!(dark_background(Some("0;default;8"), None, None, None));
    assert!(dark_background(Some("15"), None, None, None));
    assert!(!dark_background(Some("0;7"), None, None, None));
    assert!(!dark_background(Some("0;16"), None, None, None));
    assert!(dark_background(Some("0;default"), None, None, None));
    assert!(dark_background(Some("0;300"), None, None, None));
    assert!(!dark_background(Some("0;7"), Some("iTerm.app"), Some("3.4"), Some(&ran("Dark\n", "", true))));
    assert!(!dark_background(None, Some("iTerm.app"), Some("3.4-light"), None));
    assert!(!dark_background(None, Some("KITTY"), Some("light"), Some(&ran("Dark\n", "", true))));
    assert!(dark_background(None, Some("Apple_Terminal"), Some("light"), None));
    assert!(dark_background(None, Some("alacritty"), None, None));
    assert!(dark_background(None, None, None, Some(&ran(" dark \n", "", true))));
    assert!(!dark_background(None, None, None, Some(&ran("Dark\n", "", false))));
    assert!(!dark_background(None, None, None, Some(&ran("", "does not exist", false))));
    assert!(!dark_background(None, None, None, Some(&ran("Light", "", true))));
    assert!(dark_background(None, None, None, None));
}

#[test]
fn only_package_actions_have_a_target() {
    assert_eq!(package_action_target(CommandKind::Install, Some("wget")), Some("wget"));
    assert_eq!(package_action_target(CommandKind::Uninstall, None), None);
    assert_eq!(package_action_target(CommandKind::UpgradeAll, Some("wget")), None);
    assert_eq!(package_action_target(CommandKind::Search, Some("wget")), None);
}

#[test]
fn command_kinds_have_their_labels() {
    let all = [
        (CommandKind::Search, "search", "Action", false, false, false),
        (CommandKind::Install, "install", "Install", true, true, true),
        (CommandKind::Uninstall, "uninstall", "Uninstall", true, true, true),
        (CommandKind::Upgrade, "upgrade", "Upgrade", true, true, true),
        (CommandKind::UpgradeAll, "upgrade-all", "Action", false, true, true),
        (CommandKind::SelfUpdate, "self-update", "Action", false, true, false),
        (CommandKind::Cleanup, "cleanup", "Action", false, false, false),
        (CommandKind::Autoremove, "autoremove", "Action", false, false, false),
        (CommandKind::BundleDump, "bundle dump", "Action", false, false, false),
    ];
    for (kind, label, title, package, activity, refreshes) in all {
        assert_eq!(kind.label(), label);
        assert_eq!(kind.action_title(), title);
        assert_eq!(kind.is_package_action(), package);
        assert_eq!(kind.is_activity_command(), activity);
        assert_eq!(kind.refreshes_lists_on_success(), refreshes);
    }
}
