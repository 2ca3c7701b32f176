//! Keyboard shortcuts: which key press means which shortcut, and what each
//! shortcut does in the current state of the application.

use vstd::prelude::*;

use crate::model::{EntryId, FolderId};
use crate::state::AppMode;
use crate::text::{ascii_lower, eq_ignore_ascii_case, eq_ignore_ascii_case_spec, str_eq};

verus! {

/// Keyboard shortcuts understood by the application.
#[derive(Debug, Clone, Copy, PartialEq, Eq, Structural)]
pub enum Shortcut {
    In,
    Out,
    Reset,
    ToggleTheme,
    ReloadStyles,
    PageDown,
    PageUp,
    FineScroll(i16),
    HorizontalPan(i16),
    SelectAll,
    OpenSelected,
    FocusSearch,
    RenameSelected,
    DeleteSelected,
    Cut,
    Jump,
    Copy,
    Paste,
    Undo,
    Redo,
    Escape,
}

/// Named keys the shortcut table reads; every other named key is `Other`.
#[derive(Debug, Clone, Copy, PartialEq, Eq, Structural)]
pub enum NamedKey {
    Enter,
    Delete,
    F2,
    Space,
    ArrowDown,
    ArrowUp,
    ArrowRight,
    ArrowLeft,
    Escape,
    Other,
}

/// The logical key of a key press.
#[derive(Debug)]
pub enum KeyboardKey {
    Character(String),
    Named(NamedKey),
    Unidentified,
}

/// A key press: its key, the text it types, and the modifiers held.
#[derive(Debug)]
pub struct KeyPress {
    pub key: KeyboardKey,
    pub text: Option<String>,
    pub control: bool,
    pub shift: bool,
}

/// Whether a widget already handled the event.
#[derive(Debug, Clone, Copy, PartialEq, Eq, Structural)]
pub enum EventStatus {
    Ignored,
    Captured,
}

/// The key is the character `target`, ignoring ASCII case.
pub open spec fn key_is_character_spec(key: KeyboardKey, target: Seq<char>) -> bool {
    match key {
        KeyboardKey::Character(value) => eq_ignore_ascii_case_spec(value@, target),
        _ => false,
    }
}

/// Ctrl is held and the key or its text is `target`, ignoring ASCII case.
pub open spec fn is_ctrl_character_spec(press: KeyPress, target: Seq<char>) -> bool {
    press.control && (key_is_character_spec(press.key, target) || match press.text {
        Some(t) => eq_ignore_ascii_case_spec(t@, target),
        None => false,
    })
}

/// The press types exactly one of the given texts.
pub open spec fn text_is(press: KeyPress, a: Seq<char>, b: Seq<char>) -> bool {
    match press.text {
        Some(t) => t@ == a || t@ == b,
        None => false,
    }
}

/// The named key of the press, if it is one.
pub open spec fn named(press: KeyPress) -> Option<NamedKey> {
    match press.key {
        KeyboardKey::Named(n) => Some(n),
        _ => None,
    }
}

/// The shortcut table. A press that a widget captured only counts when it
/// is Ctrl+F, Ctrl+C or Escape; otherwise the first matching row wins.
pub open spec fn shortcut_for(press: KeyPress, status: EventStatus) -> Option<Shortcut> {
    if status == EventStatus::Captured && !is_ctrl_character_spec(press, "f"@) && !is_ctrl_character_spec(press, "c"@)
        && named(press) != Some(NamedKey::Escape) {
        None
    } else if text_is(press, "t"@, "T"@) && press.control && press.shift {
        Some(Shortcut::ToggleTheme)
    } else if text_is(press, "r"@, "R"@) && press.control && press.shift {
        Some(Shortcut::ReloadStyles)
    } else if text_is(press, "g"@, "G"@) && press.control {
        Some(Shortcut::Jump)
    } else if is_ctrl_character_spec(press, "c"@) {
        Some(Shortcut::Copy)
    } else if is_ctrl_character_spec(press, "f"@) {
        Some(Shortcut::FocusSearch)
    } else if text_is(press, "a"@, "A"@) && press.control {
        Some(Shortcut::SelectAll)
    } else if text_is(press, "+"@, "="@) {
        Some(Shortcut::In)
    } else if text_is(press, "-"@, "-"@) {
        Some(Shortcut::Out)
    } else if named(press) == Some(NamedKey::Enter) {
        Some(Shortcut::OpenSelected)
    } else if named(press) == Some(NamedKey::Delete) {
        Some(Shortcut::DeleteSelected)
    } else if named(press) == Some(NamedKey::F2) {
        Some(Shortcut::RenameSelected)
    } else if key_is_character_spec(press.key, "0"@) {
        Some(Shortcut::Reset)
    } else if named(press) == Some(NamedKey::Space) && press.shift {
        Some(Shortcut::PageUp)
    } else if named(press) == Some(NamedKey::Space) {
        Some(Shortcut::PageDown)
    } else if named(press) == Some(NamedKey::ArrowDown) {
        Some(Shortcut::FineScroll(64))
    } else if named(press) == Some(NamedKey::ArrowUp) {
        Some(Shortcut::FineScroll(-64i16))
    } else if named(press) == Some(NamedKey::ArrowRight) {
        Some(Shortcut::HorizontalPan(96))
    } else if named(press) == Some(NamedKey::ArrowLeft) {
        Some(Shortcut::HorizontalPan(-96i16))
    } else if named(press) == Some(NamedKey::Escape) {
        Some(Shortcut::Escape)
    } else {
        None
    }
}

/// Whether the key is the character `target`, ignoring ASCII case.
pub fn key_is_character(key: &KeyboardKey, target: &str) -> (matches: bool)
    ensures
        matches == key_is_character_spec(*key, target@),
{
    match key {
        KeyboardKey::Character(value) => eq_ignore_ascii_case(value.as_str(), target),
        _ => false,
    }
}

/// Whether Ctrl is held and the key or its text is `target`.
pub fn is_ctrl_character(press: &KeyPress, target: &str) -> (matches: bool)
    ensures
        matches == is_ctrl_character_spec(*press, target@),
{
    press.control && (key_is_character(&press.key, target) || match &press.text {
        Some(t) => eq_ignore_ascii_case(t.as_str(), target),
        None => false,
    })
}

fn text_matches(press: &KeyPress, a: &str, b: &str) -> (matches: bool)
    ensures
        matches == text_is(*press, a@, b@),
{
    match &press.text {
        Some(t) => str_eq(t.as_str(), a) || str_eq(t.as_str(), b),
        None => false,
    }
}

fn named_key(press: &KeyPress) -> (key: Option<NamedKey>)
    ensures
        key == named(*press),
{
    match &press.key {
        KeyboardKey::Named(n) => Some(*n),
        _ => None,
    }
}

/// The shortcut a key press stands for, if any.
pub fn keyboard_event_message(press: &KeyPress, status: EventStatus) -> (shortcut: Option<Shortcut>)
    ensures
        shortcut == shortcut_for(*press, status),
{
    let key = named_key(press);
    if status == EventStatus::Captured && !is_ctrl_character(press, "f") && !is_ctrl_character(press, "c")
        && key != Some(NamedKey::Escape) {
        return None;
    }
    if text_matches(press, "t", "T") && press.control && press.shift {
        Some(Shortcut::ToggleTheme)
    } else if text_matches(press, "r", "R") && press.control && press.shift {
        Some(Shortcut::ReloadStyles)
    } else if text_matches(press, "g", "G") && press.control {
        Some(Shortcut::Jump)
    } else if is_ctrl_character(press, "c") {
        Some(Shortcut::Copy)
    } else if is_ctrl_character(press, "f") {
        Some(Shortcut::FocusSearch)
    } else if text_matches(press, "a", "A") && press.control {
        Some(Shortcut::SelectAll)
    } else if text_matches(press, "+", "=") {
        Some(Shortcut::In)
    } else if text_matches(press, "-", "-") {
        Some(Shortcut::Out)
    } else if key == Some(NamedKey::Enter) {
        Some(Shortcut::OpenSelected)
    } else if key == Some(NamedKey::Delete) {
        Some(Shortcut::DeleteSelected)
    } else if key == Some(NamedKey::F2) {
        Some(Shortcut::RenameSelected)
    } else if key_is_character(&press.key, "0") {
        Some(Shortcut::Reset)
    } else if key == Some(NamedKey::Space) && press.shift {
        Some(Shortcut::PageUp)
    } else if key == Some(NamedKey::Space) {
        Some(Shortcut::PageDown)
    } else if key == Some(NamedKey::ArrowDown) {
        Some(Shortcut::FineScroll(64))
    } else if key == Some(NamedKey::ArrowUp) {
        Some(Shortcut::FineScroll(-64i16))
    } else if key == Some(NamedKey::ArrowRight) {
        Some(Shortcut::HorizontalPan(96))
    } else if key == Some(NamedKey::ArrowLeft) {
        Some(Shortcut::HorizontalPan(-96i16))
    } else if key == Some(NamedKey::Escape) {
        Some(Shortcut::Escape)
    } else {
        None
    }
}

} // verus!

verus! {

/// The overlays and editing states that Escape can close, in the order it
/// tries them.
#[derive(Debug, Clone, Copy)]
pub struct EscapeContext {
    pub mode: AppMode,
    pub pending_confirmation: bool,
    pub app_menu_open: bool,
    pub selection_menu_open: bool,
    pub zoom_menu_open: bool,
    pub zoom_editing: bool,
    pub page_input_editing: bool,
    pub viewer_find_open: bool,
    pub viewer_text_selected: bool,
    pub library_selection_nonempty: bool,
    pub jump_dialog_open: bool,
    pub create_folder_dialog_open: bool,
}

/// What one press of Escape does.
#[derive(Debug, Clone, Copy, PartialEq, Eq, Structural)]
pub enum EscapeAction {
    CloseConfirmation,
    CloseAppMenu,
    CloseSelectionMenu,
    CloseZoomMenu,
    StopZoomEditing,
    StopPageInputEditing,
    CloseViewerFind,
    ClearViewerTextSelection,
    ClearLibrarySelection,
    CloseJumpDialog,
    CloseCreateFolderDialog,
    CloseTableOfContents,
}

/// Escape closes the innermost thing that is open: a confirmation, then
/// the app menu, the selection menu, the zoom menu, zoom editing, page
/// editing, the viewer's find bar, the viewer's text selection, the
/// library selection, the jump dialog, the create-folder dialog; with
/// nothing open it hides the table of contents.
pub open spec fn escape_spec(c: EscapeContext) -> EscapeAction {
    if c.pending_confirmation {
        EscapeAction::CloseConfirmation
    } else if c.app_menu_open {
        EscapeAction::CloseAppMenu
    } else if c.selection_menu_open {
        EscapeAction::CloseSelectionMenu
    } else if c.zoom_menu_open {
        EscapeAction::CloseZoomMenu
    } else if c.zoom_editing {
        EscapeAction::StopZoomEditing
    } else if c.page_input_editing {
        EscapeAction::StopPageInputEditing
    } else if c.mode == AppMode::Viewer && c.viewer_find_open {
        EscapeAction::CloseViewerFind
    } else if c.mode == AppMode::Viewer && c.viewer_text_selected {
        EscapeAction::ClearViewerTextSelection
    } else if c.mode == AppMode::Library && c.library_selection_nonempty {
        EscapeAction::ClearLibrarySelection
    } else if c.jump_dialog_open {
        EscapeAction::CloseJumpDialog
    } else if c.create_folder_dialog_open {
        EscapeAction::CloseCreateFolderDialog
    } else {
        EscapeAction::CloseTableOfContents
    }
}

/// What Escape does in the given state.
pub fn escape_action(c: &EscapeContext) -> (action: EscapeAction)
    ensures
        action == escape_spec(*c),
{
    if c.pending_confirmation {
        EscapeAction::CloseConfirmation
    } else if c.app_menu_open {
        EscapeAction::CloseAppMenu
    } else if c.selection_menu_open {
        EscapeAction::CloseSelectionMenu
    } else if c.zoom_menu_open {
        EscapeAction::CloseZoomMenu
    } else if c.zoom_editing {
        EscapeAction::StopZoomEditing
    } else if c.page_input_editing {
        EscapeAction::StopPageInputEditing
    } else if c.mode == AppMode::Viewer && c.viewer_find_open {
        EscapeAction::CloseViewerFind
    } else if c.mode == AppMode::Viewer && c.viewer_text_selected {
        EscapeAction::ClearViewerTextSelection
    } else if c.mode == AppMode::Library && c.library_selection_nonempty {
        EscapeAction::ClearLibrarySelection
    } else if c.jump_dialog_open {
        EscapeAction::CloseJumpDialog
    } else if c.create_folder_dialog_open {
        EscapeAction::CloseCreateFolderDialog
    } else {
        EscapeAction::CloseTableOfContents
    }
}

/// How the viewer scrolls.
#[derive(Debug, Clone, Copy, PartialEq, Eq, Structural)]
pub enum ViewerScrollMode {
    Vertical,
    Horizontal,
    Wrapped,
    Page,
}

/// The state a shortcut is decided in.
#[derive(Debug)]
pub struct ShortcutContext {
    pub mode: AppMode,
    pub selected_library_entries: Vec<EntryId>,
    pub selected_folder: Option<FolderId>,
    pub viewer_scroll_mode: ViewerScrollMode,
    pub zoom_width: u16,
    /// The page width the settings name as the default zoom.
    pub default_zoom_width: u16,
    /// The page shown, counted from zero.
    pub current_page: u16,
    pub escape: EscapeContext,
}

/// What a shortcut does.
#[derive(Debug, Clone, Copy, PartialEq, Eq, Structural)]
pub enum ShortcutAction {
    Nothing,
    /// Zoom the viewer to this page width; `ViewerZoom::apply_shortcut`
    /// clamps it to the allowed range.
    ZoomToWidth(u16),
    /// Go back to the configured default page width, clamped the same way.
    ResetZoom(u16),
    ToggleTheme,
    ReloadStyles,
    /// Move this many pages in page-by-page scrolling.
    ScrollPages(i16),
    /// Scroll this many viewports (a fraction of the viewport per step).
    ScrollViewports(i16),
    ScrollBy(i16),
    PanBy(i16),
    SelectAllVisible,
    OpenEntry(EntryId),
    FocusLibrarySearch,
    OpenViewerFind,
    FocusDetailsTitle,
    FocusFolderRename,
    ConfirmBulkDelete,
    ConfirmDeleteFolder(FolderId),
    /// Open the jump dialog with this page (counted from one) entered.
    OpenJumpDialog(u32),
    CopyViewerText,
    Escape(EscapeAction),
}

/// What each shortcut does in the given state. Cut, paste, undo and redo
/// are not handled here.
pub open spec fn shortcut_action_spec(shortcut: Shortcut, c: ShortcutContext) -> ShortcutAction {
    let library = c.mode == AppMode::Library;
    let count = c.selected_library_entries@.len();
    match shortcut {
        Shortcut::In => ShortcutAction::ZoomToWidth(if c.zoom_width + 100 > 0xFFFF { 0xFFFFu16 } else { (c.zoom_width + 100) as u16 }),
        Shortcut::Out => ShortcutAction::ZoomToWidth(if c.zoom_width < 100 { 0u16 } else { (c.zoom_width - 100) as u16 }),
        Shortcut::Reset => ShortcutAction::ResetZoom(c.default_zoom_width),
        Shortcut::ToggleTheme => ShortcutAction::ToggleTheme,
        Shortcut::ReloadStyles => ShortcutAction::ReloadStyles,
        Shortcut::PageDown => if c.viewer_scroll_mode == ViewerScrollMode::Page {
            ShortcutAction::ScrollPages(1)
        } else {
            ShortcutAction::ScrollViewports(1)
        },
        Shortcut::PageUp => if c.viewer_scroll_mode == ViewerScrollMode::Page {
            ShortcutAction::ScrollPages(-1i16)
        } else {
            ShortcutAction::ScrollViewports(-1i16)
        },
        Shortcut::FineScroll(delta) => if c.viewer_scroll_mode == ViewerScrollMode::Horizontal {
            ShortcutAction::PanBy(delta)
        } else {
            ShortcutAction::ScrollBy(delta)
        },
        Shortcut::HorizontalPan(delta) => ShortcutAction::PanBy(delta),
        Shortcut::SelectAll => if library { ShortcutAction::SelectAllVisible } else { ShortcutAction::Nothing },
        Shortcut::OpenSelected => if library && count == 1 {
            ShortcutAction::OpenEntry(c.selected_library_entries@[0])
        } else {
            ShortcutAction::Nothing
        },
        Shortcut::FocusSearch => if library {
            ShortcutAction::FocusLibrarySearch
        } else if c.mode == AppMode::Viewer {
            ShortcutAction::OpenViewerFind
        } else {
            ShortcutAction::Nothing
        },
        Shortcut::RenameSelected => if library && count == 1 {
            ShortcutAction::FocusDetailsTitle
        } else if library && c.selected_folder.is_some() {
            ShortcutAction::FocusFolderRename
        } else {
            ShortcutAction::Nothing
        },
        Shortcut::DeleteSelected => if library && count > 0 {
            ShortcutAction::ConfirmBulkDelete
        } else if library && c.selected_folder.is_some() {
            ShortcutAction::ConfirmDeleteFolder(c.selected_folder.unwrap())
        } else {
            ShortcutAction::Nothing
        },
        Shortcut::Jump => ShortcutAction::OpenJumpDialog((c.current_page + 1) as u32),
        Shortcut::Copy => if c.mode == AppMode::Viewer { ShortcutAction::CopyViewerText } else { ShortcutAction::Nothing },
        Shortcut::Escape => ShortcutAction::Escape(escape_spec(c.escape)),
        Shortcut::Cut | Shortcut::Paste | Shortcut::Undo | Shortcut::Redo => ShortcutAction::Nothing,
    }
}

/// Decides what a shortcut does in the given state.
pub fn handle_shortcut(shortcut: Shortcut, c: &ShortcutContext) -> (action: ShortcutAction)
    ensures
        action == shortcut_action_spec(shortcut, *c),
{
    let library = c.mode == AppMode::Library;
    let count = c.selected_library_entries.len();
    match shortcut {
        Shortcut::In => ShortcutAction::ZoomToWidth(c.zoom_width.saturating_add(100)),
        Shortcut::Out => ShortcutAction::ZoomToWidth(c.zoom_width.saturating_sub(100)),
        Shortcut::Reset => ShortcutAction::ResetZoom(c.default_zoom_width),
        Shortcut::ToggleTheme => ShortcutAction::ToggleTheme,
        Shortcut::ReloadStyles => ShortcutAction::ReloadStyles,
        Shortcut::PageDown => if c.viewer_scroll_mode == ViewerScrollMode::Page {
            ShortcutAction::ScrollPages(1)
        } else {
            ShortcutAction::ScrollViewports(1)
        },
        Shortcut::PageUp => if c.viewer_scroll_mode == ViewerScrollMode::Page {
            ShortcutAction::ScrollPages(-1i16)
        } else {
            ShortcutAction::ScrollViewports(-1i16)
        },
        Shortcut::FineScroll(delta) => if c.viewer_scroll_mode == ViewerScrollMode::Horizontal {
            ShortcutAction::PanBy(delta)
        } else {
            ShortcutAction::ScrollBy(delta)
        },
        Shortcut::HorizontalPan(delta) => ShortcutAction::PanBy(delta),
        Shortcut::SelectAll => if library { ShortcutAction::SelectAllVisible } else { ShortcutAction::Nothing },
        Shortcut::OpenSelected => if library && count == 1 {
            ShortcutAction::OpenEntry(c.selected_library_entries[0])
        } else {
            ShortcutAction::Nothing
        },
        Shortcut::FocusSearch => if library {
            ShortcutAction::FocusLibrarySearch
        } else if c.mode == AppMode::Viewer {
            ShortcutAction::OpenViewerFind
        } else {
            ShortcutAction::Nothing
        },
        Shortcut::RenameSelected => if library && count == 1 {
            ShortcutAction::FocusDetailsTitle
        } else if library && c.selected_folder.is_some() {
            ShortcutAction::FocusFolderRename
        } else {
            ShortcutAction::Nothing
        },
        Shortcut::DeleteSelected => if library && count > 0 {
            ShortcutAction::ConfirmBulkDelete
        } else if library {
            match c.selected_folder {
                Some(folder_id) => ShortcutAction::ConfirmDeleteFolder(folder_id),
                None => ShortcutAction::Nothing,
            }
        } else {
            ShortcutAction::Nothing
        },
        Shortcut::Jump => ShortcutAction::OpenJumpDialog((c.current_page as u32) + 1),
        Shortcut::Copy => if c.mode == AppMode::Viewer { ShortcutAction::CopyViewerText } else { ShortcutAction::Nothing },
        Shortcut::Escape => ShortcutAction::Escape(escape_action(&c.escape)),
        Shortcut::Cut | Shortcut::Paste | Shortcut::Undo | Shortcut::Redo => ShortcutAction::Nothing,
    }
}

} // verus!

verus! {

/// In the library, the Delete shortcut asks to delete the selected PDFs
/// whenever at least one is selected, whether or not a folder is open; with
/// none selected it asks to delete the open folder, if any; outside the
/// library it does nothing.
pub proof fn law_delete_shortcut_targets_the_selection(c: ShortcutContext)
    ensures
        c.mode == AppMode::Library && c.selected_library_entries@.len() > 0
            ==> shortcut_action_spec(Shortcut::DeleteSelected, c) == ShortcutAction::ConfirmBulkDelete,
        c.mode == AppMode::Library && c.selected_library_entries@.len() == 0 && c.selected_folder.is_some()
            ==> shortcut_action_spec(Shortcut::DeleteSelected, c) == ShortcutAction::ConfirmDeleteFolder(c.selected_folder.unwrap()),
        c.mode != AppMode::Library ==> shortcut_action_spec(Shortcut::DeleteSelected, c) == ShortcutAction::Nothing,
{
}

/// Enter opens the selected PDF exactly when the library shows one
/// selected PDF; the jump dialog opens on the page after the one counted
/// from zero; rename focuses the title of one selected PDF, else the open
/// folder's name.
pub proof fn law_open_jump_and_rename_shortcuts(c: ShortcutContext)
    ensures
        c.mode == AppMode::Library && c.selected_library_entries@.len() == 1
            ==> shortcut_action_spec(Shortcut::OpenSelected, c) == ShortcutAction::OpenEntry(c.selected_library_entries@[0]),
        !(c.mode == AppMode::Library && c.selected_library_entries@.len() == 1)
            ==> shortcut_action_spec(Shortcut::OpenSelected, c) == ShortcutAction::Nothing,
        shortcut_action_spec(Shortcut::Jump, c) == ShortcutAction::OpenJumpDialog((c.current_page + 1) as u32),
        c.mode == AppMode::Library && c.selected_library_entries@.len() == 1
            ==> shortcut_action_spec(Shortcut::RenameSelected, c) == ShortcutAction::FocusDetailsTitle,
        c.mode == AppMode::Library && c.selected_library_entries@.len() != 1 && c.selected_folder.is_some()
            ==> shortcut_action_spec(Shortcut::RenameSelected, c) == ShortcutAction::FocusFolderRename,
{
}

/// Ctrl+F opens the search whether or not a widget captured the press.
pub proof fn law_ctrl_f_opens_search(press: KeyPress, status: EventStatus)
    requires
        press.control,
        key_is_character_spec(press.key, "f"@),
        press.text.is_none(),
    ensures
        shortcut_for(press, status) == Some(Shortcut::FocusSearch),
{
    reveal_strlit("f");
    reveal_strlit("c");
    if let KeyboardKey::Character(v) = press.key {
        assert(ascii_lower(v@[0]) == ascii_lower('f'));
    }
}

/// Ctrl+C copies whether or not a widget captured the press.
pub proof fn law_ctrl_c_copies(press: KeyPress, status: EventStatus)
    requires
        press.control,
        key_is_character_spec(press.key, "c"@),
        press.text.is_none(),
    ensures
        shortcut_for(press, status) == Some(Shortcut::Copy),
{
    reveal_strlit("c");
    reveal_strlit("f");
}

/// Escape closes overlays whether or not a widget captured the press.
pub proof fn law_escape_always_escapes(press: KeyPress, status: EventStatus)
    requires
        press.key == KeyboardKey::Named(NamedKey::Escape),
        press.text.is_none(),
    ensures
        shortcut_for(press, status) == Some(Shortcut::Escape),
{
}

/// A captured press without Ctrl is ignored unless it is Escape.
pub proof fn law_captured_plain_press_ignored(press: KeyPress)
    requires
        !press.control,
        named(press) != Some(NamedKey::Escape),
    ensures
        shortcut_for(press, EventStatus::Captured).is_none(),
{
}

} // verus!
