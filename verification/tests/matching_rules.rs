use brewery::filter::{find_position, next, prev, rebuild, reconcile};
use brewery::matching::{
    contains_ascii_case_insensitive, contains_name, contains_text, leaf_matches_query,
    matches_query,
};

fn strings(items: &[&str]) -> Vec<String> {
    items.iter().map(|s| s.to_string()).collect()
}

#[test]
fn empty_needle_is_found_everywhere() {
    assert!(contains_ascii_case_insensitive(b"", b""));
    assert!(contains_ascii_case_insensitive(b"abc", b""));
    assert!(contains_text("", ""));
    assert!(contains_text("abc", ""));
}

#[test]
fn needle_longer_than_haystack_is_not_found() {
    assert!(!contains_ascii_case_insensitive(b"ab", b"abc"));
    assert!(!contains_text("ab", "abc"));
}

#[test]
fn ascii_search_finds_at_every_offset() {
    assert!(contains_ascii_case_insensitive(b"openssl", b"OPEN"));
    assert!(contains_ascii_case_insensitive(b"openssl", b"Ens"));
    assert!(contains_ascii_case_insensitive(b"openssl", b"SSL"));
    assert!(contains_ascii_case_insensitive(b"openssl", b"openssl"));
    assert!(!contains_ascii_case_insensitive(b"openssl", b"opensl"));
}

#[test]
fn ascii_search_folds_letters_only() {
    assert!(!contains_ascii_case_insensitive(b"a@b", b"a`b"));
    assert!(!contains_ascii_case_insensitive(b"[", b"{"));
    assert!(contains_ascii_case_insensitive(b"A-Z_09", b"a-z_09"));
}

#[test]
fn text_search_is_exact() {
    assert!(contains_text("éclair au café", "au"));
    assert!(contains_text("éclair au café", "café"));
    assert!(!contains_text("éclair au café", "Café"));
}

#[test]
fn query_of_other_scripts_is_matched_by_lowercase_forms() {
    assert!(matches_query("ÄPFEL", "äpfel"));
    assert!(matches_query("Äpfel-Saft", "ÄPFEL"));
    assert!(!matches_query("apfel", "äpfel"));
    assert!(leaf_matches_query("ÉCLAIR", "éclair", Some("éclair"), false));
    assert!(!leaf_matches_query("eclair", "éclair", Some("éclair"), false));
}

#[test]
fn ascii_query_is_searched_bytewise_in_any_item() {
    assert!(matches_query("café-TOOLS", "tools"));
    assert!(!matches_query("café", "tools"));
    assert!(!leaf_matches_query("café", "tools", None, true));
}

#[test]
fn empty_query_matches_everything() {
    assert!(matches_query("wget", ""));
    assert!(matches_query("", ""));
    assert!(matches_query("日本語", ""));
}

#[test]
fn query_without_lowercase_form_passes_everything() {
    assert!(leaf_matches_query("wget", "é", None, false));
}

#[test]
fn contains_name_looks_for_the_whole_name() {
    let names = strings(&["wget", "curl"]);
    assert!(contains_name(&names, "curl"));
    assert!(!contains_name(&names, "cur"));
    assert!(!contains_name(&Vec::new(), "curl"));
}

#[test]
fn rebuild_lists_the_matching_indices_in_order() {
    let list = strings(&["a", "b", "c", "ab"]);
    assert_eq!(rebuild(&list, "", None), vec![0, 1, 2, 3]);
    assert_eq!(rebuild(&list, "b", None), vec![1, 3]);
    assert_eq!(rebuild(&list, " B ", None), vec![1, 3]);
    assert_eq!(rebuild(&list, "x", None), Vec::<usize>::new());
    assert_eq!(rebuild(&Vec::new(), "x", None), Vec::<usize>::new());
}

#[test]
fn rebuild_joins_the_restriction_with_the_query() {
    let list = strings(&["bat", "curl", "wget", "zsh"]);
    let outdated = strings(&["wget", "bat"]);
    assert_eq!(rebuild(&list, "", Some(&outdated)), vec![0, 2]);
    assert_eq!(rebuild(&list, "w", Some(&outdated)), vec![2]);
    assert_eq!(rebuild(&list, "curl", Some(&outdated)), Vec::<usize>::new());
    assert_eq!(rebuild(&list, "", Some(&Vec::new())), Vec::<usize>::new());
}

#[test]
fn reconcile_keeps_a_visible_selection() {
    assert_eq!(reconcile(&vec![1, 3], Some(3)), Some(3));
    assert_eq!(reconcile(&vec![1, 3], Some(2)), Some(1));
    assert_eq!(reconcile(&vec![1, 3], None), Some(1));
    assert_eq!(reconcile(&vec![], Some(2)), None);
    assert_eq!(reconcile(&vec![], None), None);
}

#[test]
fn steps_stay_within_the_visible_set() {
    let visible = vec![2, 5, 9];
    assert_eq!(next(&visible, Some(2)), Some(5));
    assert_eq!(next(&visible, Some(5)), Some(9));
    assert_eq!(next(&visible, Some(9)), Some(9));
    assert_eq!(prev(&visible, Some(9)), Some(5));
    assert_eq!(prev(&visible, Some(2)), Some(2));
    assert_eq!(next(&visible, None), Some(2));
    assert_eq!(prev(&visible, None), Some(2));
    assert_eq!(next(&visible, Some(4)), Some(2));
    assert_eq!(prev(&visible, Some(4)), Some(2));
    assert_eq!(next(&vec![], Some(4)), None);
    assert_eq!(prev(&vec![], None), None);
}

#[test]
fn find_position_finds_the_first_occurrence() {
    assert_eq!(find_position(&vec![4, 7, 7], 7), Some(1));
    assert_eq!(find_position(&vec![4, 7, 7], 5), None);
    assert_eq!(find_position(&vec![], 5), None);
}
