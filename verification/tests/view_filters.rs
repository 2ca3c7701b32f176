use pdf_folio_ui::drag::begin_library_drag;
use pdf_folio_ui::view_filters::{LibraryView, ViewFilters};

#[derive(Debug, Clone, Copy, PartialEq)]
enum Reading {
    Unread,
    Finished,
}

fn filtered_view() -> LibraryView<Reading, Vec<u64>, f32> {
    LibraryView {
        filters: ViewFilters {
            search_query: String::from("rust"),
            search: Some(vec![3, 5]),
            tag_filter: None,
            reading_filter: Some(Reading::Unread),
            recently_opened_filter: false,
            missing_filter: true,
            selected_folder: Some(7),
            scroll_offset: 120.0,
        },
        before_tag_pill: None,
    }
}

#[test]
fn tag_pill_shows_the_tag_alone_and_back_restores() {
    let mut view = filtered_view();
    let mut details = Some(7);
    view.tag_pill_clicked(&mut details, String::from("papers"), 0.0);
    assert_eq!(view.filters.tag_filter.as_deref(), Some("papers"));
    assert_eq!(view.filters.search_query, "");
    assert_eq!(view.filters.search, None);
    assert_eq!(view.filters.reading_filter, None);
    assert!(!view.filters.missing_filter);
    assert_eq!(view.filters.selected_folder, None);
    assert_eq!(view.filters.scroll_offset, 0.0);
    assert_eq!(details, None);

    let mut drag = begin_library_drag(5, &vec![3, 5], &vec![]);
    assert!(drag.is_some());
    assert!(view.restore_before_tag(&mut details, &mut drag));
    assert!(drag.is_none());
    assert_eq!(view.filters.search_query, "rust");
    assert_eq!(view.filters.search, Some(vec![3, 5]));
    assert_eq!(view.filters.tag_filter, None);
    assert_eq!(view.filters.reading_filter, Some(Reading::Unread));
    assert!(view.filters.missing_filter);
    assert_eq!(view.filters.selected_folder, Some(7));
    assert_eq!(view.filters.scroll_offset, 120.0);
    assert_eq!(details, Some(7));
    assert!(view.before_tag_pill.is_none());
    let mut drag = begin_library_drag(5, &vec![3, 5], &vec![]);
    assert!(!view.restore_before_tag(&mut details, &mut drag));
    assert!(drag.is_some());
    assert_eq!(view.filters.search_query, "rust");
}

#[test]
fn other_filters_forget_the_view_kept_aside() {
    let mut view = filtered_view();
    let mut details = Some(7);
    view.tag_pill_clicked(&mut details, String::from("papers"), 0.0);
    view.missing_filter_changed(false);
    assert!(view.before_tag_pill.is_none());
    let mut drag = None;
    assert!(!view.restore_before_tag(&mut details, &mut drag));
    assert_eq!(view.filters.tag_filter.as_deref(), Some("papers"));
}

#[test]
fn reading_filter_drops_the_other_filters() {
    let mut view = filtered_view();
    let mut details = Some(7);
    view.reading_filter_changed(&mut details, Some(Reading::Finished), 0.0);
    assert_eq!(view.filters.reading_filter, Some(Reading::Finished));
    assert!(!view.filters.missing_filter);
    assert_eq!(view.filters.selected_folder, None);
    assert_eq!(view.filters.search_query, "rust");
    assert_eq!(details, None);
}

#[test]
fn recently_opened_filter_on_and_off() {
    let mut view = filtered_view();
    let mut details = Some(7);
    view.recently_opened_filter_changed(&mut details, false, 0.0);
    assert_eq!(view.filters.selected_folder, Some(7));
    assert_eq!(details, Some(7));
    view.recently_opened_filter_changed(&mut details, true, 0.0);
    assert!(view.filters.recently_opened_filter);
    assert_eq!(view.filters.reading_filter, None);
    assert_eq!(view.filters.selected_folder, None);
    assert_eq!(details, None);
    view.missing_filter_changed(true);
    assert!(view.filters.missing_filter);
    assert!(!view.filters.recently_opened_filter);
}

#[test]
fn tag_filter_and_folder_selection() {
    let mut view = filtered_view();
    let mut details = Some(7);
    view.tag_filter_changed(&mut details, None, 0.0);
    assert_eq!(view.filters.selected_folder, Some(7));
    assert_eq!(details, Some(7));
    view.tag_filter_changed(&mut details, Some(String::from("math")), 0.0);
    assert_eq!(view.filters.selected_folder, None);
    assert_eq!(details, None);
    view.folder_selected(Some(2), 0.0);
    assert_eq!(view.filters.selected_folder, Some(2));
    assert_eq!(view.filters.tag_filter.as_deref(), Some("math"));
}

#[test]
fn clearing_filters_shows_the_root() {
    let mut view = filtered_view();
    let mut details = Some(7);
    view.clear_filters(&mut details, 0.0);
    assert_eq!(view.filters.search_query, "");
    assert_eq!(view.filters.search, None);
    assert_eq!(view.filters.reading_filter, None);
    assert!(!view.filters.missing_filter);
    assert_eq!(view.filters.selected_folder, None);
    assert_eq!(details, None);
}

#[test]
fn blank_search_queries_clear_results() {
    let mut view = filtered_view();
    assert!(view.search_query_changed(String::from("graphs")));
    assert_eq!(view.filters.search, Some(vec![3, 5]));
    assert!(view.search_still_wanted("graphs"));
    assert!(!view.search_still_wanted("graph"));
    assert!(!view.search_query_changed(String::from("  \t")));
    assert_eq!(view.filters.search, None);
    view.search_results_arrived(vec![9]);
    assert_eq!(view.filters.search, Some(vec![9]));
}

#[test]
fn switching_libraries_resets_the_view() {
    let mut view = filtered_view();
    view.filters.recently_opened_filter = true;
    let mut details = Some(7);
    view.tag_pill_clicked(&mut details, String::from("papers"), 0.0);
    view.reset_for_library(&mut details, Some(4), 0.0);
    assert_eq!(view.filters.selected_folder, Some(4));
    assert_eq!(view.filters.tag_filter, None);
    assert_eq!(view.filters.search_query, "");
    assert!(view.before_tag_pill.is_none());
    assert_eq!(details, None);
}
