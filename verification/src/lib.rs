//! Verified core of the PDF-Folio desktop shell: menus, toolbars and
//! labels, the library undo tree, folder-tree queries, selection,
//! clipboard, drag and drop decisions, the multi-library registry and its
//! switcher, keyboard shortcuts, context menus, overlays and confirmations,
//! view filters and the entries they keep, the command palette, the move
//! picker, tag and folder editing, viewer page navigation and zoom, the
//! library's answers to its background work, Raindrop import,
//! export, sync follow-ups, the window's layering and the event sources
//! listened to.

pub mod labels;
pub mod text;
pub mod history;
pub mod order;
pub mod model;
pub mod seqs;
pub mod folders;
pub mod metadata;
pub mod selection;
pub mod state;
pub mod clipboard;
pub mod registry;
pub mod shortcuts;
pub mod context_menu;
pub mod drag;
pub mod raindrop;
pub mod export;
pub mod menu;
pub mod shell;
pub mod style_files;
pub mod navigation;
pub mod preview_title;
pub mod viewer_pages;
pub mod overlays;
pub mod view_filters;
pub mod move_picker;
pub mod folder_edits;
pub mod clicks;
pub mod confirmations;
pub mod tags;
pub mod raindrop_dialog;
pub mod document_errors;
pub mod subscriptions;
pub mod screen;
pub mod menu_panel;
pub mod selection_row;
pub mod command_palette;
pub mod library_view;
pub mod zoom;
pub mod library_events;
