use std::collections::HashMap;

use pdf_folio_ui::library_view::{search_match_label, visible_entry_positions, EntryFilters, EntryViewFacts};

fn entry(tags: &[&str], in_folder_scope: bool, opened_at: Option<i64>, manual_order: i64, missing: bool) -> EntryViewFacts {
    EntryViewFacts {
        tags: tags.iter().map(|t| t.to_string()).collect(),
        in_folder_scope,
        passes_reading_filter: true,
        opened_at,
        manual_order,
        missing,
    }
}

fn no_filters() -> EntryFilters {
    EntryFilters { tag: None, recently_opened: false, missing_only: false }
}

fn sample() -> Vec<EntryViewFacts> {
    vec![
        entry(&["rust"], true, Some(10), 3, false),
        entry(&["math"], false, Some(30), 1, false),
        entry(&[], true, None, 2, true),
        entry(&["rust", "math"], true, Some(30), 0, false),
        entry(&["rust"], true, Some(10), 3, false),
    ]
}

#[test]
fn folder_scope_narrows_the_view_without_a_tag() {
    assert_eq!(visible_entry_positions(&sample(), &no_filters()), vec![0, 2, 3, 4]);
}

#[test]
fn tag_filter_ignores_the_folder_shown() {
    let filters = EntryFilters { tag: Some("math".to_string()), recently_opened: false, missing_only: false };
    assert_eq!(visible_entry_positions(&sample(), &filters), vec![1, 3]);
}

#[test]
fn reading_filter_hides_entries_that_fail_it() {
    let mut entries = sample();
    entries[0].passes_reading_filter = false;
    assert_eq!(visible_entry_positions(&entries, &no_filters()), vec![2, 3, 4]);
}

#[test]
fn missing_filter_keeps_missing_files_only() {
    let filters = EntryFilters { tag: None, recently_opened: false, missing_only: true };
    assert_eq!(visible_entry_positions(&sample(), &filters), vec![2]);
}

#[test]
fn recently_opened_sorts_newest_first_then_by_manual_order() {
    let filters = EntryFilters { tag: Some("rust".to_string()), recently_opened: true, missing_only: false };
    // Entry 3 was opened last; entries 0 and 4 tie on both keys and keep list order.
    assert_eq!(visible_entry_positions(&sample(), &filters), vec![3, 0, 4]);
    let all = EntryFilters { tag: None, recently_opened: true, missing_only: false };
    assert_eq!(visible_entry_positions(&sample(), &all), vec![3, 0, 4]);
    let mut entries = sample();
    entries[1].in_folder_scope = true;
    // Entries 1 and 3 were opened at the same time: the hand-made order decides.
    assert_eq!(visible_entry_positions(&entries, &all), vec![3, 1, 0, 4]);
}

#[test]
fn empty_library_shows_nothing() {
    assert!(visible_entry_positions(&Vec::new(), &no_filters()).is_empty());
}

#[test]
fn search_note_names_the_page_of_a_text_hit() {
    let mut hits: HashMap<u64, u16> = HashMap::new();
    hits.insert(7, 4);
    hits.insert(8, u16::MAX);
    assert_eq!(search_match_label("Rust", &hits, 7, Some("Title".to_string())), Some("Match on page 5".to_string()));
    assert_eq!(search_match_label("rust", &hits, 8, None), Some("Match on page 65536".to_string()));
}

#[test]
fn search_note_falls_back_to_the_matching_field() {
    let hits: HashMap<u64, u16> = HashMap::new();
    assert_eq!(search_match_label("rust", &hits, 7, Some("Author match".to_string())), Some("Author match".to_string()));
    assert_eq!(search_match_label("rust", &hits, 7, None), None);
}

#[test]
fn search_note_is_absent_without_a_query() {
    let mut hits: HashMap<u64, u16> = HashMap::new();
    hits.insert(7, 0);
    assert_eq!(search_match_label("   ", &hits, 7, Some("Title".to_string())), None);
    assert_eq!(search_match_label("", &hits, 7, None), None);
}
