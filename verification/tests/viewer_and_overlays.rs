use pdf_folio_ui::document_errors::DocumentErrors;
use pdf_folio_ui::screen::{screen_layers, BaseScreen, DialogLayer, LoadingLayer, MenuLayer, ScreenInputs};
use pdf_folio_ui::state::AppMode;
use pdf_folio_ui::subscriptions::{listeners, AnimationClock, ListenerInputs};
use pdf_folio_ui::overlays::{overlay_to_close, palette_selection_after_move, OpenOverlays, Overlay};
use pdf_folio_ui::viewer_pages::{
    clamp_to_document, jump_input_from, jump_target, next_page, page_after_step, page_input_on_open, previous_page,
};

fn nothing_open() -> OpenOverlays {
    OpenOverlays {
        command_palette: false,
        library_name_dialog: false,
        library_card_menu: false,
        library_switcher: false,
        jump_dialog: false,
        page_input: false,
        viewer_find: false,
        create_folder_dialog: false,
        move_picker: false,
        import_menu: false,
        raindrop_connect_dialog: false,
        raindrop_import_dialog: false,
        import_review: false,
        tag_manager: false,
        export_panel: false,
        confirmation: false,
        context_menu: false,
    }
}

#[test]
fn jump_is_clamped_to_the_last_page() {
    assert_eq!(clamp_to_document(3, 10), 3);
    assert_eq!(clamp_to_document(12, 10), 9);
    assert_eq!(clamp_to_document(5, 0), 0);
}

#[test]
fn previous_and_next_page_stay_in_the_document() {
    assert_eq!(previous_page(0), 0);
    assert_eq!(previous_page(4), 3);
    assert_eq!(next_page(4, 10), 5);
    assert_eq!(next_page(9, 10), 9);
    assert_eq!(next_page(u16::MAX, u16::MAX), u16::MAX - 1);
}

#[test]
fn page_mode_steps_are_held_in_range() {
    assert_eq!(page_after_step(0, -1, 5), 0);
    assert_eq!(page_after_step(2, 1, 5), 3);
    assert_eq!(page_after_step(4, 1, 5), 4);
    assert_eq!(page_after_step(3, -2, 5), 1);
}

#[test]
fn page_input_keeps_five_digits() {
    assert_eq!(jump_input_from("12a3"), "123");
    assert_eq!(jump_input_from("1234567"), "12345");
    assert_eq!(jump_input_from("page"), "");
    assert_eq!(jump_input_from("٣4"), "4");
}

#[test]
fn submitted_page_numbers_count_from_one() {
    assert_eq!(jump_target("12"), Some(11));
    assert_eq!(jump_target("1"), Some(0));
    assert_eq!(jump_target("0"), Some(0));
    assert_eq!(jump_target("+7"), Some(6));
    assert_eq!(jump_target("65535"), Some(65534));
    assert_eq!(jump_target("65536"), None);
    assert_eq!(jump_target("99999"), None);
    assert_eq!(jump_target(""), None);
    assert_eq!(jump_target("+"), None);
    assert_eq!(jump_target("1x"), None);
    assert_eq!(jump_target("99999x"), None);
}

#[test]
fn escape_closes_the_topmost_overlay() {
    let mut open = nothing_open();
    assert_eq!(overlay_to_close(&open), Overlay::Outline);
    open.context_menu = true;
    assert_eq!(overlay_to_close(&open), Overlay::ContextMenu);
    open.viewer_find = true;
    assert_eq!(overlay_to_close(&open), Overlay::ViewerFind);
    open.library_switcher = true;
    assert_eq!(overlay_to_close(&open), Overlay::LibrarySwitcher);
    open.command_palette = true;
    assert_eq!(overlay_to_close(&open), Overlay::CommandPalette);
}

#[test]
fn escape_prefers_dialogs_over_menus() {
    let mut open = nothing_open();
    open.export_panel = true;
    open.confirmation = true;
    assert_eq!(overlay_to_close(&open), Overlay::ExportPanel);
    open.move_picker = true;
    assert_eq!(overlay_to_close(&open), Overlay::MovePicker);
}

#[test]
fn palette_selection_wraps_around() {
    assert_eq!(palette_selection_after_move(0, 1, 3), 1);
    assert_eq!(palette_selection_after_move(2, 1, 3), 0);
    assert_eq!(palette_selection_after_move(0, -1, 3), 2);
    assert_eq!(palette_selection_after_move(1, -4, 3), 0);
    assert_eq!(palette_selection_after_move(1, -5, 3), 2);
    assert_eq!(palette_selection_after_move(4, 1, 0), 4);
}

#[test]
fn dismissed_document_errors_stay_hidden() {
    let mut errors = DocumentErrors { shown: None, dismissed: vec![] };
    errors.reported(String::from("Could not open file"));
    assert_eq!(errors.shown.as_deref(), Some("Could not open file"));
    errors.dismiss();
    assert_eq!(errors.shown, None);
    assert_eq!(errors.dismissed, vec![String::from("Could not open file")]);
    errors.reported(String::from("Could not open file"));
    assert_eq!(errors.shown, None);
    errors.reported(String::from("Render failed"));
    assert_eq!(errors.shown.as_deref(), Some("Render failed"));
    errors.dismiss();
    errors.dismiss();
    assert_eq!(errors.dismissed.len(), 2);
}

fn quiet_library() -> ListenerInputs {
    ListenerInputs {
        mode: AppMode::Library,
        has_watch_directories: false,
        has_style_directories: true,
        resizing_sidebar: false,
        library_drag: false,
        folder_drag: false,
        card_hover_animating: false,
        bulk_operation_running: false,
        history_restoring: false,
        folder_drop_flashing: false,
        document_opening: false,
        zoom_preview_shown: false,
        page_fade_running: false,
        signed_in: true,
        sync_running: false,
        has_active_library: true,
    }
}

#[test]
fn listeners_follow_the_state() {
    let l = listeners(quiet_library());
    assert!(l.keyboard && l.cursor && l.style_watcher && l.auto_sync && l.live_sync);
    assert!(!l.directory_watcher && !l.library_drag);
    assert_eq!(l.animation, AnimationClock::Off);

    let mut busy = quiet_library();
    busy.bulk_operation_running = true;
    busy.sync_running = true;
    let l = listeners(busy);
    assert_eq!(l.animation, AnimationClock::Library);
    assert!(!l.auto_sync && !l.live_sync);

    let mut viewer = quiet_library();
    viewer.mode = AppMode::Viewer;
    viewer.bulk_operation_running = true;
    let l = listeners(viewer);
    assert!(!l.cursor);
    assert_eq!(l.animation, AnimationClock::Off);
    viewer.page_fade_running = true;
    assert_eq!(listeners(viewer).animation, AnimationClock::Viewer);
}

fn plain_screen() -> ScreenInputs {
    ScreenInputs {
        mode: AppMode::Viewer,
        has_document: true,
        app_menu_open: false,
        selection_menu_open: false,
        zoom_menu_open: false,
        context_menu_open: false,
        library_name_dialog_open: false,
        confirmation_pending: false,
        create_folder_dialog_open: false,
        move_picker_open: false,
        raindrop_connect_dialog_open: false,
        raindrop_import_dialog_open: false,
        raindrop_import_running: false,
        folder_drag_preview: false,
        library_drag_preview: false,
        startup_loading: false,
        document_opening: false,
        history_restoring: false,
    }
}

#[test]
fn window_layers() {
    let layers = screen_layers(plain_screen());
    assert_eq!(layers.base, BaseScreen::Viewer);
    assert_eq!(layers.menu, MenuLayer::NoMenu);
    assert_eq!(layers.dialog, DialogLayer::NoDialog);
    assert_eq!(layers.loading, LoadingLayer::NotLoading);

    let mut busy = plain_screen();
    busy.has_document = false;
    busy.context_menu_open = true;
    busy.zoom_menu_open = true;
    busy.move_picker_open = true;
    busy.library_drag_preview = true;
    busy.document_opening = true;
    busy.startup_loading = true;
    busy.history_restoring = true;
    let layers = screen_layers(busy);
    assert_eq!(layers.base, BaseScreen::Library);
    assert_eq!(layers.menu, MenuLayer::ZoomMenu);
    assert_eq!(layers.dialog, DialogLayer::MovePicker);
    assert_eq!(layers.loading, LoadingLayer::Startup);
    assert!(layers.history_spinner);

    let mut switcher = plain_screen();
    switcher.mode = AppMode::LibrarySwitcher;
    assert_eq!(screen_layers(switcher).base, BaseScreen::LibrarySwitcher);
}

#[test]
fn page_input_opens_on_the_current_page() {
    assert_eq!(page_input_on_open(Some(0)), "1");
    assert_eq!(page_input_on_open(Some(41)), "42");
    assert_eq!(page_input_on_open(None), "");
}
