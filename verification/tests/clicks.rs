use pdf_folio_ui::clicks::{ClickTracker, TagClickTracker};

#[test]
fn second_click_soon_on_the_same_entry_is_a_double_click() {
    let mut clicks = ClickTracker { last: None };
    assert!(!clicks.register_click(4, 1_000));
    assert!(clicks.register_click(4, 1_500));
    assert_eq!(clicks.last, Some((4, 1_500)));
}

#[test]
fn late_or_other_clicks_are_single() {
    let mut clicks = ClickTracker { last: None };
    assert!(!clicks.register_click(4, 1_000));
    assert!(!clicks.register_click(4, 1_501));
    assert!(!clicks.register_click(5, 1_600));
    assert!(clicks.register_click(5, 1_600));
}

#[test]
fn a_clock_going_back_counts_as_no_time() {
    let mut clicks = ClickTracker { last: Some((4, 2_000)) };
    assert!(clicks.register_click(4, 1_000));
}

#[test]
fn tag_double_clicks() {
    let mut clicks = TagClickTracker { last: None };
    assert!(!clicks.register_click(String::from("math"), 10));
    assert!(!clicks.register_click(String::from("Math"), 20));
    assert!(clicks.register_click(String::from("Math"), 520));
    assert!(!clicks.register_click(String::from("Math"), 1_100));
}
