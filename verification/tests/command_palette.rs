use pdf_folio_ui::command_palette::{
    command_palette_list, palette_command_to_run, CommandTarget, PaletteCommand, PaletteTone,
};

fn command(
    visible: bool,
    enabled: bool,
    matches_query: bool,
    destructive: bool,
    category: &str,
    target: CommandTarget,
    shortcut: Option<&str>,
) -> PaletteCommand {
    PaletteCommand {
        visible,
        enabled,
        matches_query,
        destructive,
        has_icon: shortcut.is_some(),
        category_label: category.to_string(),
        target,
        shortcut: shortcut.map(|s| s.to_string()),
    }
}

fn sample() -> Vec<PaletteCommand> {
    vec![
        command(true, true, true, false, "Library", CommandTarget::Library, Some("Ctrl+N")),
        command(false, true, true, false, "Library", CommandTarget::Folder, None),
        command(true, false, true, false, "Edit", CommandTarget::MultiplePdfs, None),
        command(true, true, true, true, "Danger", CommandTarget::NoTarget, None),
        command(true, true, false, false, "View", CommandTarget::Viewer, None),
    ]
}

#[test]
fn palette_lists_enabled_matching_commands_in_order() {
    let list = command_palette_list(&sample(), 0);
    assert!(!list.shows_empty_notice);
    assert_eq!(list.rows.len(), 2);
    assert_eq!(list.rows[0].command, 0);
    assert!(list.rows[0].highlighted);
    assert_eq!(list.rows[0].tone, PaletteTone::Highlighted);
    assert_eq!(list.rows[0].metadata, "Library Library");
    assert_eq!(list.rows[0].shortcut, "Ctrl+N");
    assert!(list.rows[0].icon_dot);
    assert_eq!(list.rows[1].command, 3);
    assert!(!list.rows[1].highlighted);
    assert_eq!(list.rows[1].tone, PaletteTone::Destructive);
    assert_eq!(list.rows[1].metadata, "Danger");
    assert_eq!(list.rows[1].shortcut, "");
    assert!(!list.rows[1].icon_dot);
}

#[test]
fn palette_target_words() {
    let commands = vec![
        command(true, true, true, false, "File", CommandTarget::SinglePdf, None),
        command(true, true, true, false, "Search", CommandTarget::SearchResult, None),
        command(true, true, true, false, "", CommandTarget::Document, None),
    ];
    let list = command_palette_list(&commands, 2);
    assert_eq!(list.rows[0].metadata, "File PDF");
    assert_eq!(list.rows[0].tone, PaletteTone::Secondary);
    assert_eq!(list.rows[1].metadata, "Search Visible");
    assert_eq!(list.rows[2].metadata, "Document");
    assert_eq!(list.rows[2].tone, PaletteTone::Highlighted);
}

#[test]
fn palette_without_matches_shows_the_empty_notice() {
    let commands = vec![command(true, true, false, false, "View", CommandTarget::Viewer, None)];
    let list = command_palette_list(&commands, 0);
    assert!(list.rows.is_empty());
    assert!(list.shows_empty_notice);
    assert!(command_palette_list(&Vec::new(), 0).shows_empty_notice);
}

#[test]
fn enter_picks_among_matching_commands_enabled_or_not() {
    let commands = sample();
    assert_eq!(palette_command_to_run(&commands, 0), Some(0));
    assert_eq!(palette_command_to_run(&commands, 1), Some(2));
    assert_eq!(palette_command_to_run(&commands, 2), Some(3));
    assert_eq!(palette_command_to_run(&commands, 3), None);
    assert_eq!(palette_command_to_run(&Vec::new(), 0), None);
}

#[test]
fn enter_runs_the_highlighted_row_when_all_are_enabled() {
    let commands = vec![
        command(true, true, true, false, "Library", CommandTarget::Library, None),
        command(true, true, false, false, "View", CommandTarget::Viewer, None),
        command(true, true, true, false, "Folder", CommandTarget::Folder, None),
    ];
    for highlighted in 0..3 {
        let list = command_palette_list(&commands, highlighted);
        let run = palette_command_to_run(&commands, highlighted);
        assert_eq!(run, list.rows.get(highlighted).map(|row| row.command));
    }
}
