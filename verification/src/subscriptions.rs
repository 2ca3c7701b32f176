//! Which event sources the shell listens to in a given state: keyboard,
//! cursor, file watchers, drags, animation ticks and sync timers.

use vstd::prelude::*;

use crate::state::AppMode;

verus! {

/// What the choice of event sources reads of the shell's state.
#[derive(Debug, Clone, Copy)]
pub struct ListenerInputs {
    pub mode: AppMode,
    /// Some directories are watched for PDFs.
    pub has_watch_directories: bool,
    /// The style book has directories to watch.
    pub has_style_directories: bool,
    /// The tag sidebar is being resized.
    pub resizing_sidebar: bool,
    pub library_drag: bool,
    pub folder_drag: bool,
    /// A library card's hover animation runs.
    pub card_hover_animating: bool,
    pub bulk_operation_running: bool,
    pub history_restoring: bool,
    pub folder_drop_flashing: bool,
    pub document_opening: bool,
    pub zoom_preview_shown: bool,
    pub page_fade_running: bool,
    pub signed_in: bool,
    pub sync_running: bool,
    /// A library is active.
    pub has_active_library: bool,
}

/// Which animation clock ticks.
#[derive(Debug, Clone, Copy, PartialEq, Eq, Structural)]
pub enum AnimationClock {
    Off,
    /// The library's clock.
    Library,
    /// The viewer's clock.
    Viewer,
}

/// The event sources listened to.
#[derive(Debug, Clone, Copy)]
pub struct Listeners {
    /// Key presses, always.
    pub keyboard: bool,
    /// Cursor moves, in the library.
    pub cursor: bool,
    /// The watched PDF directories.
    pub directory_watcher: bool,
    /// The style directories.
    pub style_watcher: bool,
    /// Cursor moves and releases while the sidebar is resized.
    pub sidebar_resize: bool,
    /// Cursor moves, releases and the auto-scroll clock while PDFs are
    /// dragged.
    pub library_drag: bool,
    /// The same while a folder is dragged.
    pub folder_drag: bool,
    pub animation: AnimationClock,
    /// The periodic sync timer.
    pub auto_sync: bool,
    /// The live watch of the active library's remote changes.
    pub live_sync: bool,
}

/// The animation clock that ticks: the library's while a library
/// animation runs in the library, the viewer's while a document opens, a
/// zoom preview shows or pages fade in the viewer.
pub open spec fn animation_clock(i: ListenerInputs) -> AnimationClock {
    if i.mode == AppMode::Library && (i.card_hover_animating || i.bulk_operation_running || i.history_restoring
        || i.folder_drop_flashing) {
        AnimationClock::Library
    } else if i.mode == AppMode::Viewer && (i.document_opening || i.zoom_preview_shown || i.page_fade_running) {
        AnimationClock::Viewer
    } else {
        AnimationClock::Off
    }
}

/// The event sources listened to in the state `inputs` describes.
pub fn listeners(inputs: ListenerInputs) -> (l: Listeners)
    ensures
        l.keyboard,
        l.cursor == (inputs.mode == AppMode::Library),
        l.directory_watcher == inputs.has_watch_directories,
        l.style_watcher == inputs.has_style_directories,
        l.sidebar_resize == inputs.resizing_sidebar,
        l.library_drag == inputs.library_drag,
        l.folder_drag == inputs.folder_drag,
        l.animation == animation_clock(inputs),
        l.auto_sync == (inputs.signed_in && !inputs.sync_running),
        l.live_sync == (inputs.signed_in && !inputs.sync_running && inputs.has_active_library),
{
    let animation = if inputs.mode == AppMode::Library && (inputs.card_hover_animating || inputs.bulk_operation_running
        || inputs.history_restoring || inputs.folder_drop_flashing) {
        AnimationClock::Library
    } else if inputs.mode == AppMode::Viewer && (inputs.document_opening || inputs.zoom_preview_shown
        || inputs.page_fade_running) {
        AnimationClock::Viewer
    } else {
        AnimationClock::Off
    };
    let syncing_allowed = inputs.signed_in && !inputs.sync_running;
    Listeners {
        keyboard: true,
        cursor: inputs.mode == AppMode::Library,
        directory_watcher: inputs.has_watch_directories,
        style_watcher: inputs.has_style_directories,
        sidebar_resize: inputs.resizing_sidebar,
        library_drag: inputs.library_drag,
        folder_drag: inputs.folder_drag,
        animation,
        auto_sync: syncing_allowed,
        live_sync: syncing_allowed && inputs.has_active_library,
    }
}

} // verus!
