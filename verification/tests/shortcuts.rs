use pdf_folio_ui::shortcuts::{
    escape_action, handle_shortcut, keyboard_event_message, EscapeAction, EscapeContext, EventStatus, KeyPress,
    KeyboardKey, NamedKey, Shortcut, ShortcutAction, ShortcutContext, ViewerScrollMode,
};
use pdf_folio_ui::state::AppMode;

fn key_event(character: &str, text: Option<&str>, control: bool, shift: bool) -> KeyPress {
    KeyPress {
        key: KeyboardKey::Character(character.to_string()),
        text: text.map(|t| t.to_string()),
        control,
        shift,
    }
}

fn ctrl_key_event(character: &str, text: Option<&str>) -> KeyPress {
    key_event(character, text, true, false)
}

fn named_event(key: NamedKey, shift: bool) -> KeyPress {
    KeyPress { key: KeyboardKey::Named(key), text: None, control: false, shift }
}

fn escape_event() -> KeyPress {
    named_event(NamedKey::Escape, false)
}

#[test]
fn ctrl_f_opens_search_even_when_event_is_captured() {
    let message = keyboard_event_message(&ctrl_key_event("f", None), EventStatus::Captured);
    assert!(matches!(message, Some(Shortcut::FocusSearch)));
}

#[test]
fn ctrl_c_copies_even_when_event_is_captured() {
    let message = keyboard_event_message(&ctrl_key_event("c", None), EventStatus::Captured);
    assert!(matches!(message, Some(Shortcut::Copy)));
}

#[test]
fn captured_non_ctrl_shortcuts_are_ignored() {
    let message = keyboard_event_message(&key_event("f", None, false, false), EventStatus::Captured);
    assert!(message.is_none());
}

#[test]
fn escape_closes_overlays_even_when_event_is_captured() {
    let message = keyboard_event_message(&escape_event(), EventStatus::Captured);
    assert!(matches!(message, Some(Shortcut::Escape)));
}

#[test]
fn uppercase_ctrl_f_also_opens_search() {
    let message = keyboard_event_message(&ctrl_key_event("F", None), EventStatus::Ignored);
    assert_eq!(message, Some(Shortcut::FocusSearch));
}

#[test]
fn ctrl_shift_t_toggles_theme_and_ctrl_shift_r_reloads_styles() {
    assert_eq!(
        keyboard_event_message(&key_event("t", Some("T"), true, true), EventStatus::Ignored),
        Some(Shortcut::ToggleTheme)
    );
    assert_eq!(
        keyboard_event_message(&key_event("r", Some("r"), true, true), EventStatus::Ignored),
        Some(Shortcut::ReloadStyles)
    );
    // Ctrl+T without shift is not the theme toggle.
    assert_eq!(keyboard_event_message(&key_event("t", Some("t"), true, false), EventStatus::Ignored), None);
}

#[test]
fn ctrl_g_jumps_and_ctrl_a_selects_all() {
    assert_eq!(keyboard_event_message(&key_event("g", Some("g"), true, false), EventStatus::Ignored), Some(Shortcut::Jump));
    assert_eq!(
        keyboard_event_message(&key_event("a", Some("a"), true, false), EventStatus::Ignored),
        Some(Shortcut::SelectAll)
    );
    assert_eq!(keyboard_event_message(&key_event("a", Some("a"), false, false), EventStatus::Ignored), None);
}

#[test]
fn plus_equals_and_minus_zoom() {
    assert_eq!(keyboard_event_message(&key_event("+", Some("+"), false, false), EventStatus::Ignored), Some(Shortcut::In));
    assert_eq!(keyboard_event_message(&key_event("=", Some("="), false, false), EventStatus::Ignored), Some(Shortcut::In));
    assert_eq!(keyboard_event_message(&key_event("-", Some("-"), false, false), EventStatus::Ignored), Some(Shortcut::Out));
    assert_eq!(keyboard_event_message(&key_event("0", Some("0"), false, false), EventStatus::Ignored), Some(Shortcut::Reset));
}

#[test]
fn named_keys_map_to_navigation() {
    let ignored = EventStatus::Ignored;
    assert_eq!(keyboard_event_message(&named_event(NamedKey::Enter, false), ignored), Some(Shortcut::OpenSelected));
    assert_eq!(keyboard_event_message(&named_event(NamedKey::Delete, false), ignored), Some(Shortcut::DeleteSelected));
    assert_eq!(keyboard_event_message(&named_event(NamedKey::F2, false), ignored), Some(Shortcut::RenameSelected));
    assert_eq!(keyboard_event_message(&named_event(NamedKey::Space, false), ignored), Some(Shortcut::PageDown));
    assert_eq!(keyboard_event_message(&named_event(NamedKey::Space, true), ignored), Some(Shortcut::PageUp));
    assert_eq!(keyboard_event_message(&named_event(NamedKey::ArrowDown, false), ignored), Some(Shortcut::FineScroll(64)));
    assert_eq!(keyboard_event_message(&named_event(NamedKey::ArrowUp, false), ignored), Some(Shortcut::FineScroll(-64)));
    assert_eq!(keyboard_event_message(&named_event(NamedKey::ArrowRight, false), ignored), Some(Shortcut::HorizontalPan(96)));
    assert_eq!(keyboard_event_message(&named_event(NamedKey::ArrowLeft, false), ignored), Some(Shortcut::HorizontalPan(-96)));
    assert_eq!(keyboard_event_message(&named_event(NamedKey::Other, false), ignored), None);
}

fn quiet_escape(mode: AppMode) -> EscapeContext {
    EscapeContext {
        mode,
        pending_confirmation: false,
        app_menu_open: false,
        selection_menu_open: false,
        zoom_menu_open: false,
        zoom_editing: false,
        page_input_editing: false,
        viewer_find_open: false,
        viewer_text_selected: false,
        library_selection_nonempty: false,
        jump_dialog_open: false,
        create_folder_dialog_open: false,
    }
}

#[test]
fn escape_closes_the_innermost_overlay_first() {
    let mut ctx = quiet_escape(AppMode::Library);
    assert_eq!(escape_action(&ctx), EscapeAction::CloseTableOfContents);
    ctx.create_folder_dialog_open = true;
    assert_eq!(escape_action(&ctx), EscapeAction::CloseCreateFolderDialog);
    ctx.library_selection_nonempty = true;
    assert_eq!(escape_action(&ctx), EscapeAction::ClearLibrarySelection);
    ctx.app_menu_open = true;
    assert_eq!(escape_action(&ctx), EscapeAction::CloseAppMenu);
    ctx.pending_confirmation = true;
    assert_eq!(escape_action(&ctx), EscapeAction::CloseConfirmation);
    let mut viewer = quiet_escape(AppMode::Viewer);
    viewer.library_selection_nonempty = true;
    viewer.viewer_find_open = true;
    assert_eq!(escape_action(&viewer), EscapeAction::CloseViewerFind);
}

fn context(mode: AppMode, selected: Vec<u64>, folder: Option<u64>) -> ShortcutContext {
    ShortcutContext {
        mode,
        selected_library_entries: selected,
        selected_folder: folder,
        viewer_scroll_mode: ViewerScrollMode::Vertical,
        zoom_width: 800,
        default_zoom_width: 900,
        current_page: 4,
        escape: quiet_escape(mode),
    }
}

#[test]
fn shortcut_actions_follow_mode_and_selection() {
    let library_one = context(AppMode::Library, vec![7], None);
    assert_eq!(handle_shortcut(Shortcut::OpenSelected, &library_one), ShortcutAction::OpenEntry(7));
    assert_eq!(handle_shortcut(Shortcut::RenameSelected, &library_one), ShortcutAction::FocusDetailsTitle);
    assert_eq!(handle_shortcut(Shortcut::DeleteSelected, &library_one), ShortcutAction::ConfirmBulkDelete);
    let library_folder = context(AppMode::Library, vec![], Some(3));
    assert_eq!(handle_shortcut(Shortcut::DeleteSelected, &library_folder), ShortcutAction::ConfirmDeleteFolder(3));
    assert_eq!(handle_shortcut(Shortcut::RenameSelected, &library_folder), ShortcutAction::FocusFolderRename);
    let viewer = context(AppMode::Viewer, vec![1, 2], None);
    assert_eq!(handle_shortcut(Shortcut::OpenSelected, &viewer), ShortcutAction::Nothing);
    assert_eq!(handle_shortcut(Shortcut::FocusSearch, &viewer), ShortcutAction::OpenViewerFind);
    assert_eq!(handle_shortcut(Shortcut::Copy, &viewer), ShortcutAction::CopyViewerText);
    assert_eq!(handle_shortcut(Shortcut::Jump, &viewer), ShortcutAction::OpenJumpDialog(5));
    assert_eq!(handle_shortcut(Shortcut::In, &viewer), ShortcutAction::ZoomToWidth(900));
    assert_eq!(handle_shortcut(Shortcut::Reset, &viewer), ShortcutAction::ResetZoom(900));
    assert_eq!(handle_shortcut(Shortcut::Out, &viewer), ShortcutAction::ZoomToWidth(700));
    assert_eq!(handle_shortcut(Shortcut::PageDown, &viewer), ShortcutAction::ScrollViewports(1));
}

#[test]
fn zoom_shortcuts_saturate() {
    let mut wide = context(AppMode::Viewer, vec![], None);
    wide.zoom_width = 65500;
    assert_eq!(handle_shortcut(Shortcut::In, &wide), ShortcutAction::ZoomToWidth(u16::MAX));
    wide.zoom_width = 40;
    assert_eq!(handle_shortcut(Shortcut::Out, &wide), ShortcutAction::ZoomToWidth(0));
    wide.viewer_scroll_mode = ViewerScrollMode::Page;
    assert_eq!(handle_shortcut(Shortcut::PageUp, &wide), ShortcutAction::ScrollPages(-1));
    wide.viewer_scroll_mode = ViewerScrollMode::Horizontal;
    assert_eq!(handle_shortcut(Shortcut::FineScroll(64), &wide), ShortcutAction::PanBy(64));
}
