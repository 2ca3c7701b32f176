//! How the library's state answers the events of its background work and
//! its text fields: errors and their banner, statuses, undo and redo, the
//! end of a paste or a bulk edit, and the switch to another library.
//!
//! The kinds of the import progress `P` and the bulk-edit progress `B` are
//! carried as they are: no decision here reads them.

use vstd::prelude::*;

use crate::clipboard::{clipboard_paste_label_spec, LibraryClipboard, LibraryClipboardMode};
use crate::document_errors::{after_dismiss, after_report, contains_text};
use crate::drag::LibraryDragState;
use crate::history::{LibraryHistory, LibraryHistoryAction, LibraryOrganizationSnapshot};
use crate::model::{EntryId, Folder, FolderId, LibraryEntry, LibrarySortMode};
use crate::move_picker::LibraryMovePicker;
use crate::selection::LibrarySelection;
use crate::state::AppMode;
use crate::text::{decimal, decimal_string, format_count, format_count_spec, typed_text, typed_text_spec};
use crate::view_filters::{cleared_filters, FiltersView, LibraryView};

verus! {

/// The library's state that its events change.
#[derive(Debug)]
pub struct LibraryRuntime<P, B> {
    /// The status line.
    pub status: Option<String>,
    /// The error shown in the library's banner.
    pub error: Option<String>,
    /// The errors dismissed so far; they are not shown again.
    pub dismissed_errors: Vec<String>,
    /// The library is still loading after start or a switch.
    pub startup_loading: bool,
    /// An undo or redo is being carried out.
    pub history_restore_running: bool,
    pub rollback_recovery_active: bool,
    pub rollback_recovery_status: Option<String>,
    pub import_progress: Option<P>,
    pub bulk_progress: Option<B>,
    /// Entries whose thumbnails are being made.
    pub pending_thumbnails: Vec<EntryId>,
    pub selection: LibrarySelection,
    pub history: LibraryHistory,
    pub clipboard: Option<LibraryClipboard>,
    pub drag: Option<LibraryDragState>,
    pub entries: Vec<LibraryEntry>,
    pub folders: Vec<Folder>,
    pub sort_mode: LibrarySortMode,
    /// The list layout is shown rather than the grid.
    pub compact_view_mode: bool,
    pub move_picker: Option<LibraryMovePicker>,
    pub raindrop_connect_dialog_open: bool,
    pub raindrop_import_dialog_open: bool,
    pub new_folder_name: String,
    pub folder_rename_input: String,
    pub bulk_tag_input: String,
    pub tag_rename_input: String,
}

/// The error banner as text: the error shown and the dismissed ones.
pub open spec fn error_banner<P, B>(r: LibraryRuntime<P, B>) -> (Option<Seq<char>>, Seq<Seq<char>>) {
    (
        match r.error {
            Some(e) => Some(e@),
            None => None,
        },
        r.dismissed_errors@.map_values(|e: String| e@),
    )
}

/// The characters of an optional string.
pub open spec fn text_of(s: Option<String>) -> Option<Seq<char>> {
    match s {
        Some(t) => Some(t@),
        None => None,
    }
}

/// A text field of the library.
#[derive(Debug, Clone, Copy, PartialEq, Eq, Structural)]
pub enum LibraryTextField {
    NewFolderName,
    FolderRename,
    BulkTag,
    TagRename,
    DetailsTitle,
    DetailsAuthor,
}

/// How many characters a field keeps: 240 for an entry's title and author,
/// 80 for the others.
pub open spec fn field_limit(field: LibraryTextField) -> nat {
    match field {
        LibraryTextField::DetailsTitle | LibraryTextField::DetailsAuthor => 240,
        _ => 80,
    }
}

/// The text of `field`.
pub open spec fn field_text<P, B>(r: LibraryRuntime<P, B>, field: LibraryTextField) -> String {
    match field {
        LibraryTextField::NewFolderName => r.new_folder_name,
        LibraryTextField::FolderRename => r.folder_rename_input,
        LibraryTextField::BulkTag => r.bulk_tag_input,
        LibraryTextField::TagRename => r.tag_rename_input,
        LibraryTextField::DetailsTitle => r.selection.details_title_input,
        LibraryTextField::DetailsAuthor => r.selection.details_author_input,
    }
}

/// `r` with `text` in `field`.
pub open spec fn with_field<P, B>(r: LibraryRuntime<P, B>, field: LibraryTextField, text: String) -> LibraryRuntime<P, B> {
    match field {
        LibraryTextField::NewFolderName => LibraryRuntime { new_folder_name: text, ..r },
        LibraryTextField::FolderRename => LibraryRuntime { folder_rename_input: text, ..r },
        LibraryTextField::BulkTag => LibraryRuntime { bulk_tag_input: text, ..r },
        LibraryTextField::TagRename => LibraryRuntime { tag_rename_input: text, ..r },
        LibraryTextField::DetailsTitle => LibraryRuntime {
            selection: LibrarySelection { details_title_input: text, ..r.selection },
            ..r
        },
        LibraryTextField::DetailsAuthor => LibraryRuntime {
            selection: LibrarySelection { details_author_input: text, ..r.selection },
            ..r
        },
    }
}

/// The status after a batch of edits labelled `label`: "<label> N item(s)."
/// or, where some failed, "<label> N item(s); F failed.".
pub open spec fn outcome_status(label: Seq<char>, updated: nat, failed: nat) -> Seq<char> {
    label + " "@ + format_count_spec(updated, "item"@) + if failed == 0 {
        "."@
    } else {
        "; "@ + decimal(failed) + " failed."@
    }
}

/// `lines` joined with a newline between each two.
pub open spec fn joined_lines(lines: Seq<Seq<char>>) -> Seq<char>
    decreases lines.len(),
{
    if lines.len() == 0 {
        Seq::empty()
    } else if lines.len() == 1 {
        lines[0]
    } else {
        joined_lines(lines.drop_last()) + "\n"@ + lines.last()
    }
}

/// The error banner after a batch of edits: cleared when nothing failed,
/// else the failures, one per line.
pub open spec fn outcome_error(errors: Seq<String>) -> Option<Seq<char>> {
    if errors.len() == 0 {
        None
    } else {
        Some(joined_lines(errors.map_values(|e: String| e@)))
    }
}

fn join_lines(lines: &Vec<String>) -> (text: String)
    ensures
        text@ == joined_lines(lines@.map_values(|e: String| e@)),
{
    let ghost all = lines@.map_values(|e: String| e@);
    let mut text = String::new();
    let mut i: usize = 0;
    while i < lines.len()
        invariant
            all == lines@.map_values(|e: String| e@),
            i <= lines@.len(),
            text@ == joined_lines(all.take(i as int)),
        decreases lines@.len() - i,
    {
        proof {
            reveal_strlit("\n");
            assert(all.take(i as int + 1).drop_last() =~= all.take(i as int));
            assert(all.take(i as int + 1).last() == lines@[i as int]@);
            if i == 0 {
                assert(all.take(1) =~= seq![lines@[0]@]);
            }
        }
        if i > 0 {
            text.append("\n");
        }
        text.append(lines[i].as_str());
        proof {
            if i == 0 {
                assert(text@ =~= joined_lines(all.take(1)));
            } else {
                assert(text@ =~= joined_lines(all.take(i as int + 1)));
            }
        }
        i = i + 1;
    }
    proof {
        assert(all.take(lines@.len() as int) =~= all);
    }
    text
}

fn outcome_status_text(label: &str, updated: usize, failed: usize) -> (status: String)
    ensures
        status@ == outcome_status(label@, updated as nat, failed as nat),
{
    proof {
        reveal_strlit(" ");
        reveal_strlit("item");
        reveal_strlit(".");
        reveal_strlit("; ");
        reveal_strlit(" failed.");
    }
    let mut status = label.to_owned();
    status.append(" ");
    let count = format_count(updated, "item");
    status.append(count.as_str());
    if failed == 0 {
        status.append(".");
    } else {
        status.append("; ");
        let n = decimal_string(failed as u64);
        status.append(n.as_str());
        status.append(" failed.");
    }
    status
}

impl<P, B> LibraryRuntime<P, B> {
    /// A library operation failed with `error`: loading, undo or redo and
    /// the rollback recovery stop, the status says "Library operation
    /// failed.", the import and bulk progress and the pending thumbnails are
    /// dropped, and the error is shown unless it was dismissed before.
    pub fn library_error(&mut self, error: String)
        ensures
            error_banner(*final(self)) == after_report(error_banner(*old(self)), error@),
            final(self).status.is_some() && final(self).status.unwrap()@ == "Library operation failed."@,
            *final(self) == (LibraryRuntime {
                error: final(self).error,
                status: final(self).status,
                startup_loading: false,
                history_restore_running: false,
                rollback_recovery_active: false,
                rollback_recovery_status: None,
                import_progress: None,
                bulk_progress: None,
                pending_thumbnails: final(self).pending_thumbnails,
                ..*old(self)
            }),
            final(self).pending_thumbnails@.len() == 0,
    {
        proof {
            reveal_strlit("Library operation failed.");
        }
        self.startup_loading = false;
        self.history_restore_running = false;
        self.rollback_recovery_active = false;
        self.rollback_recovery_status = None;
        self.status = Some("Library operation failed.".to_owned());
        if !contains_text(&self.dismissed_errors, error.as_str()) {
            self.error = Some(error);
        }
        self.import_progress = None;
        self.bulk_progress = None;
        self.pending_thumbnails = Vec::new();
    }

    /// The error banner is dismissed: its error joins the dismissed ones.
    pub fn dismiss_library_error(&mut self)
        ensures
            error_banner(*final(self)) == after_dismiss(error_banner(*old(self))),
            *final(self) == (LibraryRuntime {
                error: final(self).error,
                dismissed_errors: final(self).dismissed_errors,
                ..*old(self)
            }),
    {
        if let Some(error) = self.error.take() {
            let ghost before = self.dismissed_errors@.map_values(|e: String| e@);
            self.dismissed_errors.push(error);
            assert(self.dismissed_errors@.map_values(|e: String| e@) =~= before.push(self.dismissed_errors@.last()@));
        }
    }

    /// A status arrives: it is shown and the error banner is cleared.
    pub fn library_status(&mut self, status: String)
        ensures
            *final(self) == (LibraryRuntime { status: Some(status), error: None, ..*old(self) }),
    {
        self.status = Some(status);
        self.error = None;
    }

    /// Typing `value` into `field`: the field keeps its characters other
    /// than control characters, up to the field's limit.
    pub fn text_field_changed(&mut self, field: LibraryTextField, value: &str)
        ensures
            field_text(*final(self), field)@ == typed_text_spec(value@, field_limit(field)),
            *final(self) == with_field(*old(self), field, field_text(*final(self), field)),
    {
        match field {
            LibraryTextField::NewFolderName => self.new_folder_name = typed_text(value, 80),
            LibraryTextField::FolderRename => self.folder_rename_input = typed_text(value, 80),
            LibraryTextField::BulkTag => self.bulk_tag_input = typed_text(value, 80),
            LibraryTextField::TagRename => self.tag_rename_input = typed_text(value, 80),
            LibraryTextField::DetailsTitle => self.selection.details_title_input = typed_text(value, 240),
            LibraryTextField::DetailsAuthor => self.selection.details_author_input = typed_text(value, 240),
        }
    }
}

/// An undo or redo to carry out: the arrangement to bring back, the history
/// node that becomes current once it is back, and the status to show then.
#[derive(Debug)]
pub struct HistoryRestore {
    pub snapshot: LibraryOrganizationSnapshot,
    pub target_index: usize,
    pub done_status: String,
}

/// The history as it stands after an edit is recorded by `push`: an edit
/// that changes nothing is not recorded; any other becomes a new child of
/// the current node and current itself.
pub open spec fn recorded(before: LibraryHistory, after: LibraryHistory, action: LibraryHistoryAction) -> bool {
    &&& after.wf()
    &&& action.before.encoded@ == action.after.encoded@ ==> after.nodes@ == before.nodes@ && after.current == before.current
    &&& action.before.encoded@ != action.after.encoded@ ==> {
        &&& after.nodes@.len() == before.nodes@.len() + 1
        &&& after.current == before.nodes@.len()
        &&& after.current_node().parent == Some(before.current)
        &&& after.current_node().action == Some(action)
    }
}

impl<P, B> LibraryRuntime<P, B> {
    /// Undo asked for. While an undo or redo runs nothing happens. With
    /// nothing to undo the status says "Nothing to undo.". Otherwise the
    /// restore starts, the status says "Undoing <label>...", and the
    /// arrangement before the edit is to be brought back, ending on the
    /// node undo leads to with "Undid <label>."; the history itself moves
    /// only once the restore is done.
    pub fn undo_requested(&mut self) -> (restore: Option<HistoryRestore>)
        requires
            old(self).history.wf(),
        ensures
            old(self).history_restore_running ==> restore.is_none() && *final(self) == *old(self),
            !old(self).history_restore_running && old(self).history.undo_spec().is_none() ==> {
                &&& restore.is_none()
                &&& final(self).status.is_some() && final(self).status.unwrap()@ == "Nothing to undo."@
                &&& *final(self) == (LibraryRuntime { status: final(self).status, ..*old(self) })
            },
            !old(self).history_restore_running && old(self).history.undo_spec().is_some() ==> {
                let (target, action) = old(self).history.undo_spec().unwrap();
                &&& restore.is_some()
                &&& restore.unwrap().target_index == target
                &&& restore.unwrap().snapshot.encoded@ == action.before
                &&& restore.unwrap().done_status@ == "Undid "@ + action.label + "."@
                &&& final(self).status.is_some() && final(self).status.unwrap()@ == "Undoing "@ + action.label + "..."@
                &&& *final(self) == (LibraryRuntime {
                    status: final(self).status,
                    history_restore_running: true,
                    ..*old(self)
                })
            },
    {
        proof {
            reveal_strlit("Nothing to undo.");
            reveal_strlit("Undid ");
            reveal_strlit("Undoing ");
            reveal_strlit(".");
            reveal_strlit("...");
        }
        if self.history_restore_running {
            return None;
        }
        match self.history.undo_target() {
            None => {
                self.status = Some("Nothing to undo.".to_owned());
                None
            },
            Some((target_index, action)) => {
                self.history_restore_running = true;
                let mut status = "Undoing ".to_owned();
                status.append(action.label.as_str());
                status.append("...");
                self.status = Some(status);
                let mut done_status = "Undid ".to_owned();
                done_status.append(action.label.as_str());
                done_status.append(".");
                Some(HistoryRestore { snapshot: action.before, target_index, done_status })
            },
        }
    }

    /// Redo asked for, as undo is: "Nothing to redo." with nothing to redo,
    /// else "Redoing <label>..." while the arrangement after the edit is
    /// brought back, ending on the node redo leads to with "Redid <label>.".
    pub fn redo_requested(&mut self) -> (restore: Option<HistoryRestore>)
        requires
            old(self).history.wf(),
        ensures
            old(self).history_restore_running ==> restore.is_none() && *final(self) == *old(self),
            !old(self).history_restore_running && old(self).history.redo_spec().is_none() ==> {
                &&& restore.is_none()
                &&& final(self).status.is_some() && final(self).status.unwrap()@ == "Nothing to redo."@
                &&& *final(self) == (LibraryRuntime { status: final(self).status, ..*old(self) })
            },
            !old(self).history_restore_running && old(self).history.redo_spec().is_some() ==> {
                let (target, action) = old(self).history.redo_spec().unwrap();
                &&& restore.is_some()
                &&& restore.unwrap().target_index == target
                &&& restore.unwrap().snapshot.encoded@ == action.after
                &&& restore.unwrap().done_status@ == "Redid "@ + action.label + "."@
                &&& final(self).status.is_some() && final(self).status.unwrap()@ == "Redoing "@ + action.label + "..."@
                &&& *final(self) == (LibraryRuntime {
                    status: final(self).status,
                    history_restore_running: true,
                    ..*old(self)
                })
            },
    {
        proof {
            reveal_strlit("Nothing to redo.");
            reveal_strlit("Redid ");
            reveal_strlit("Redoing ");
            reveal_strlit(".");
            reveal_strlit("...");
        }
        if self.history_restore_running {
            return None;
        }
        match self.history.redo_target() {
            None => {
                self.status = Some("Nothing to redo.".to_owned());
                None
            },
            Some((target_index, action)) => {
                self.history_restore_running = true;
                let mut status = "Redoing ".to_owned();
                status.append(action.label.as_str());
                status.append("...");
                self.status = Some(status);
                let mut done_status = "Redid ".to_owned();
                done_status.append(action.label.as_str());
                done_status.append(".");
                Some(HistoryRestore { snapshot: action.after, target_index, done_status })
            },
        }
    }

    /// An undo or redo is done: the node `target_index` becomes current
    /// when it names one, `status` is shown, and the selection and the
    /// pending thumbnails are cleared.
    pub fn history_restore_finished(&mut self, target_index: usize, status: String)
        requires
            old(self).history.wf(),
        ensures
            final(self).history.wf(),
            final(self).history.nodes@ == old(self).history.nodes@,
            final(self).history.current == (if target_index < old(self).history.nodes@.len() {
                target_index
            } else {
                old(self).history.current
            }),
            final(self).status == Some(status),
            final(self).selection.is_cleared(),
            final(self).pending_thumbnails@.len() == 0,
            *final(self) == (LibraryRuntime {
                history: final(self).history,
                status: final(self).status,
                selection: final(self).selection,
                pending_thumbnails: final(self).pending_thumbnails,
                ..*old(self)
            }),
    {
        self.history.set_current(target_index);
        self.status = Some(status);
        self.selection = LibrarySelection::new();
        self.pending_thumbnails = Vec::new();
    }

    /// A paste is done: the edit is recorded, a cut clipboard is emptied
    /// once everything moved without an error, the status says "<paste
    /// label> N item(s)." (with "; F failed." where some failed), the
    /// failures fill the error banner one per line (which is cleared
    /// otherwise), and the selection and pending thumbnails are cleared.
    pub fn paste_finished(&mut self, action: LibraryHistoryAction, clipboard: &LibraryClipboard, updated: usize, errors: &Vec<String>)
        requires
            old(self).history.wf(),
            old(self).history.nodes@.len() < usize::MAX,
        ensures
            recorded(old(self).history, final(self).history, action),
            final(self).clipboard == (if clipboard.mode == LibraryClipboardMode::Cut && errors@.len() == 0 {
                None
            } else {
                old(self).clipboard
            }),
            final(self).status.is_some() && final(self).status.unwrap()@ == outcome_status(
                clipboard_paste_label_spec(clipboard.mode, clipboard.holds_entries()),
                updated as nat,
                errors@.len(),
            ),
            text_of(final(self).error) == outcome_error(errors@),
            final(self).selection.is_cleared(),
            final(self).pending_thumbnails@.len() == 0,
            *final(self) == (LibraryRuntime {
                history: final(self).history,
                clipboard: final(self).clipboard,
                status: final(self).status,
                error: final(self).error,
                selection: final(self).selection,
                pending_thumbnails: final(self).pending_thumbnails,
                ..*old(self)
            }),
    {
        self.history.push(action);
        if clipboard.emptied_after_paste(errors.len()) {
            self.clipboard = None;
        }
        self.report_outcome(clipboard.paste_label(), updated, errors);
    }

    /// A bulk edit labelled `label` is done: its progress is dropped, the
    /// edit is recorded, and status, error banner, selection and pending
    /// thumbnails go as after a paste.
    pub fn history_action_finished(&mut self, action: LibraryHistoryAction, label: &str, updated: usize, errors: &Vec<String>)
        requires
            old(self).history.wf(),
            old(self).history.nodes@.len() < usize::MAX,
        ensures
            recorded(old(self).history, final(self).history, action),
            final(self).bulk_progress.is_none(),
            final(self).status.is_some() && final(self).status.unwrap()@ == outcome_status(label@, updated as nat, errors@.len()),
            text_of(final(self).error) == outcome_error(errors@),
            final(self).selection.is_cleared(),
            final(self).pending_thumbnails@.len() == 0,
            *final(self) == (LibraryRuntime {
                history: final(self).history,
                bulk_progress: None,
                status: final(self).status,
                error: final(self).error,
                selection: final(self).selection,
                pending_thumbnails: final(self).pending_thumbnails,
                ..*old(self)
            }),
    {
        self.bulk_progress = None;
        self.history.push(action);
        self.report_outcome(label, updated, errors);
    }

    fn report_outcome(&mut self, label: &str, updated: usize, errors: &Vec<String>)
        ensures
            final(self).status.is_some() && final(self).status.unwrap()@ == outcome_status(label@, updated as nat, errors@.len()),
            text_of(final(self).error) == outcome_error(errors@),
            final(self).selection.is_cleared(),
            final(self).pending_thumbnails@.len() == 0,
            *final(self) == (LibraryRuntime {
                status: final(self).status,
                error: final(self).error,
                selection: final(self).selection,
                pending_thumbnails: final(self).pending_thumbnails,
                ..*old(self)
            }),
    {
        if errors.len() == 0 {
            self.error = None;
        } else {
            self.error = Some(join_lines(errors));
        }
        self.status = Some(outcome_status_text(label, updated, errors.len()));
        self.selection = LibrarySelection::new();
        self.pending_thumbnails = Vec::new();
    }
}

/// The document open in the viewer, as far as the library's switch reads
/// it.
#[derive(Debug)]
pub struct ViewerDocument {
    pub entry_id: Option<EntryId>,
    pub path: Option<String>,
    /// A document is being opened.
    pub pending_open: bool,
    /// The error shown in the document banner.
    pub error: Option<String>,
}

/// What a library's saved preferences decide when it becomes active.
#[derive(Debug, Clone, Copy)]
pub struct LibraryStartPreferences {
    pub sort_mode: LibrarySortMode,
    pub selected_folder: Option<FolderId>,
    /// The list layout was chosen rather than the grid.
    pub list_layout: bool,
}

impl<P, B> LibraryRuntime<P, B> {
    /// Another library becomes active. The app goes back to the library,
    /// the viewer closes its document, and the view shows the library's
    /// saved folder from `top` with no search, tag, reading or
    /// missing-files filter (`LibraryView::reset_for_library`). The
    /// selection, entries, folders, pending thumbnails, drag, move picker,
    /// error, progress and Raindrop dialogs are cleared; the sort order and
    /// layout come from `preferences`; the library is loading, and the
    /// status says "Loading <name>...". The history, clipboard, dismissed
    /// errors and text fields stay.
    pub fn reset_for_active_library<F, R, S>(
        &mut self,
        mode: &mut AppMode,
        viewer: &mut ViewerDocument,
        view: &mut LibraryView<F, R, S>,
        details_folder_id: &mut Option<FolderId>,
        preferences: LibraryStartPreferences,
        top: S,
        library_name: &str,
    )
        ensures
            *final(mode) == AppMode::Library,
            final(viewer).entry_id.is_none(),
            final(viewer).path.is_none(),
            !final(viewer).pending_open,
            final(viewer).error.is_none(),
            final(view).filters.view() == (FiltersView {
                selected_folder: preferences.selected_folder,
                recently_opened_filter: old(view).filters.recently_opened_filter,
                ..cleared_filters::<F, R, S>(top)
            }),
            final(view).before_tag_pill.is_none(),
            final(details_folder_id).is_none(),
            final(self).selection.is_cleared(),
            final(self).entries@.len() == 0,
            final(self).folders@.len() == 0,
            final(self).pending_thumbnails@.len() == 0,
            final(self).status.is_some() && final(self).status.unwrap()@ == "Loading "@ + library_name@ + "..."@,
            *final(self) == (LibraryRuntime {
                status: final(self).status,
                error: None,
                startup_loading: true,
                import_progress: None,
                bulk_progress: None,
                pending_thumbnails: final(self).pending_thumbnails,
                selection: final(self).selection,
                drag: None,
                entries: final(self).entries,
                folders: final(self).folders,
                sort_mode: preferences.sort_mode,
                compact_view_mode: preferences.list_layout,
                move_picker: None,
                raindrop_connect_dialog_open: false,
                raindrop_import_dialog_open: false,
                ..*old(self)
            }),
    {
        proof {
            reveal_strlit("Loading ");
            reveal_strlit("...");
        }
        *mode = AppMode::Library;
        viewer.entry_id = None;
        viewer.path = None;
        viewer.pending_open = false;
        viewer.error = None;
        self.compact_view_mode = preferences.list_layout;
        self.sort_mode = preferences.sort_mode;
        view.reset_for_library(details_folder_id, preferences.selected_folder, top);
        self.entries = Vec::new();
        self.folders = Vec::new();
        self.pending_thumbnails = Vec::new();
        self.selection = LibrarySelection::new();
        self.error = None;
        self.startup_loading = true;
        self.raindrop_connect_dialog_open = false;
        self.raindrop_import_dialog_open = false;
        self.import_progress = None;
        self.bulk_progress = None;
        self.move_picker = None;
        self.drag = None;
        let mut status = "Loading ".to_owned();
        status.append(library_name);
        status.append("...");
        self.status = Some(status);
    }
}

/// A dismissed library error is not shown again: after dismissing the
/// banner, the same error reported again leaves it empty.
pub proof fn law_dismissed_library_error_stays_hidden<P, B>(r: LibraryRuntime<P, B>, error: String)
    requires
        r.error == Some(error),
    ensures
        after_report(after_dismiss(error_banner(r)), error@).0.is_none(),
{
    let banner = error_banner(r);
    assert(banner.1.push(error@)[banner.1.len() as int] == error@);
}

} // verus!
