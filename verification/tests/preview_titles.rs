use pdf_folio_ui::preview_title::wrap_preview_title;

#[test]
fn preview_title_fits_on_one_line() {
    assert_eq!(wrap_preview_title("Short", 10, 2), "Short");
}

#[test]
fn preview_title_collapses_white_space() {
    assert_eq!(wrap_preview_title("  Deep \t  Work\n", 20, 2), "Deep Work");
}

#[test]
fn preview_title_without_words_is_empty() {
    assert_eq!(wrap_preview_title(" \t\n ", 20, 2), "");
    assert_eq!(wrap_preview_title("Anything", 20, 0), "");
}

#[test]
fn preview_title_wraps_at_a_space_and_cuts_the_last_line() {
    assert_eq!(wrap_preview_title("Annual Report 2024 Final", 10, 2), "Annual\nReport ...");
}

#[test]
fn preview_title_wraps_over_three_lines() {
    assert_eq!(wrap_preview_title("Annual Report 2024 Final", 10, 3), "Annual\nReport\n2024 Final");
}

#[test]
fn preview_title_breaks_a_long_word() {
    assert_eq!(wrap_preview_title("Supercalifragilistic tale", 8, 2), "Supercal\nifrag...");
}

#[test]
fn preview_title_ignores_an_early_space() {
    // The only space lies less than half way in, so the line is cut at the width.
    assert_eq!(wrap_preview_title("A verylongword", 8, 2), "A verylo\nngword");
}

#[test]
fn preview_title_counts_bytes_for_the_split() {
    // "éé" takes four bytes, so the space after it counts as half way in.
    assert_eq!(wrap_preview_title("éé abcdefgh", 6, 2), "éé\nabc...");
    assert_eq!(wrap_preview_title("é abcdefgh", 6, 2), "é abcd\nefgh");
}

#[test]
fn preview_title_small_widths_keep_one_character() {
    assert_eq!(wrap_preview_title("abcdef", 3, 1), "a...");
}
