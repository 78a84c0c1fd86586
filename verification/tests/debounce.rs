use brewery::gateway::{Details, DetailsLoad};
use brewery::requests::Effect;
use brewery::runtime::{handle_auto_details, DETAILS_DEBOUNCE_MS};
use brewery::store::App;
use brewery::types::{InputMode, PackageKind};

fn strings(items: &[&str]) -> Vec<String> {
    items.iter().map(|s| s.to_string()).collect()
}

fn app_with_leaves(names: &[&str]) -> App {
    let mut app = App::new(0, false);
    app.leaves = strings(names);
    app.update_filtered_leaves();
    app
}

fn fetched_pkg(effect: Option<Effect>) -> String {
    match effect {
        Some(Effect::FetchDetails { pkg, load }) => {
            assert_eq!(load, DetailsLoad::Basic);
            pkg
        }
        other => panic!("unexpected effect {:?}", other),
    }
}

#[test]
fn details_of_the_first_selection_are_fetched_at_once() {
    let mut app = app_with_leaves(&["bat", "wget"]);
    let mut last = None;
    let effect = handle_auto_details(&mut app, &mut last, 0, DETAILS_DEBOUNCE_MS);
    assert_eq!(fetched_pkg(effect), "bat");
    assert_eq!(last, Some("bat".to_string()));
    assert_eq!(app.pending_details, Some("bat".to_string()));
}

#[test]
fn many_moves_within_the_window_fetch_once() {
    let mut app = app_with_leaves(&["a", "b", "c", "d", "e", "f"]);
    let mut last = None;
    let mut launched = 0;
    for t in 0..5 {
        app.select_next();
        app.on_selection_change(100 + 10 * t);
        if handle_auto_details(&mut app, &mut last, 100 + 10 * t + 1, DETAILS_DEBOUNCE_MS).is_some() {
            launched += 1;
        }
    }
    assert_eq!(launched, 0);
    assert_eq!(app.selected_leaf(), Some("f"));
    assert!(handle_auto_details(&mut app, &mut last, 140 + DETAILS_DEBOUNCE_MS - 1, DETAILS_DEBOUNCE_MS).is_none());
    app.on_tick(140 + DETAILS_DEBOUNCE_MS);
    let effect = handle_auto_details(&mut app, &mut last, 140 + DETAILS_DEBOUNCE_MS, DETAILS_DEBOUNCE_MS);
    assert_eq!(fetched_pkg(effect), "f");
    assert!(handle_auto_details(&mut app, &mut last, 141 + DETAILS_DEBOUNCE_MS, DETAILS_DEBOUNCE_MS).is_none());
    assert_eq!(last, Some("f".to_string()));
}

#[test]
fn fast_scrolling_holds_the_fetch_until_the_counter_has_decayed() {
    let mut app = app_with_leaves(&["a", "b", "c", "d"]);
    let mut last = None;
    for t in 0..3 {
        app.select_next();
        app.on_selection_change(t);
    }
    assert!(app.is_rapid_scrolling());
    assert!(handle_auto_details(&mut app, &mut last, 10_000, DETAILS_DEBOUNCE_MS).is_none());
    app.on_tick(10_000);
    assert!(handle_auto_details(&mut app, &mut last, 10_000, DETAILS_DEBOUNCE_MS).is_some());
}

#[test]
fn two_moves_are_not_fast_scrolling() {
    let mut app = app_with_leaves(&["a", "b", "c", "d"]);
    let mut last = None;
    app.select_next();
    app.on_selection_change(0);
    app.select_next();
    app.on_selection_change(1);
    let effect = handle_auto_details(&mut app, &mut last, 1 + DETAILS_DEBOUNCE_MS, DETAILS_DEBOUNCE_MS);
    assert_eq!(fetched_pkg(effect), "c");
}

#[test]
fn nothing_is_fetched_while_a_fetch_is_in_flight() {
    let mut app = app_with_leaves(&["a", "b"]);
    let mut last = None;
    assert!(app.request_details_for("zsh", DetailsLoad::Full, 0).is_some());
    assert!(handle_auto_details(&mut app, &mut last, 1000, DETAILS_DEBOUNCE_MS).is_none());
    assert_eq!(last, None);
    assert_eq!(app.pending_details, Some("zsh".to_string()));
}

#[test]
fn nothing_is_fetched_twice_for_the_same_target() {
    let mut app = app_with_leaves(&["a", "b"]);
    let mut last = Some("a".to_string());
    assert!(handle_auto_details(&mut app, &mut last, 1000, DETAILS_DEBOUNCE_MS).is_none());
    app.select_next();
    assert!(handle_auto_details(&mut app, &mut last, 1000, DETAILS_DEBOUNCE_MS).is_some());
    assert_eq!(last, Some("b".to_string()));
}

#[test]
fn a_target_that_the_cache_answers_is_remembered_without_a_fetch() {
    let mut app = app_with_leaves(&["a", "b"]);
    app.details_cache.get_mut_or_insert(
        "a".to_string(),
        Details { desc: None, homepage: None, latest: None, installed: Vec::new(), deps: None, uses: None, artifacts: None },
    );
    let mut last = None;
    assert!(handle_auto_details(&mut app, &mut last, 1000, DETAILS_DEBOUNCE_MS).is_none());
    assert_eq!(last, Some("a".to_string()));
    assert_eq!(app.pending_details, None);
}

#[test]
fn nothing_is_fetched_without_a_selection() {
    let mut app = App::new(0, false);
    let mut last = None;
    assert!(handle_auto_details(&mut app, &mut last, 1000, DETAILS_DEBOUNCE_MS).is_none());
    app.input_mode = InputMode::PackageResults;
    assert!(handle_auto_details(&mut app, &mut last, 1000, DETAILS_DEBOUNCE_MS).is_none());
    assert_eq!(last, None);
}

#[test]
fn the_selected_search_result_is_the_target_while_searching() {
    let mut app = app_with_leaves(&["a", "b"]);
    app.input_mode = InputMode::PackageResults;
    app.package_results = strings(&["wget", "wgetpaste"]);
    app.package_results_selected = Some(1);
    let mut last = None;
    let effect = handle_auto_details(&mut app, &mut last, 1000, DETAILS_DEBOUNCE_MS);
    assert_eq!(fetched_pkg(effect), "wgetpaste");
    assert_eq!(app.last_result_details_pkg, Some("wgetpaste".to_string()));
    assert_eq!(last, None);
    app.pending_details = None;
    assert!(handle_auto_details(&mut app, &mut last, 2000, DETAILS_DEBOUNCE_MS).is_none());
    app.select_prev_result();
    let effect = handle_auto_details(&mut app, &mut last, 3000, DETAILS_DEBOUNCE_MS);
    assert_eq!(fetched_pkg(effect), "wget");
}

#[test]
fn the_selected_cask_is_the_target_while_casks_are_shown() {
    let mut app = app_with_leaves(&["a", "b"]);
    app.casks = strings(&["firefox"]);
    app.update_filtered_casks();
    app.active_package_kind = PackageKind::Cask;
    let mut last = None;
    let effect = handle_auto_details(&mut app, &mut last, 1000, DETAILS_DEBOUNCE_MS);
    assert_eq!(fetched_pkg(effect), "firefox");
    assert_eq!(last, Some("firefox".to_string()));
}
