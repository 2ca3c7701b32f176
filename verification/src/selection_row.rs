//! The toolbar row shown above the library while something is selected:
//! its count label and which controls it offers.

use vstd::prelude::*;

use crate::labels::SelectionMenu;
use crate::model::FolderId;
use crate::text::{decimal, decimal_string};

verus! {

/// A control of the selection row.
#[derive(Debug, Clone, Copy, PartialEq, Eq, Structural)]
pub enum SelectionControl {
    /// Clears the entry selection.
    Clear,
    /// Closes the folder shown in the details panel.
    ClearFolderDetails,
    RestoreFromTrash,
    /// Asks to delete the selected entries for good.
    DeleteEntriesForever,
    /// Asks to delete this trashed folder for good.
    DeleteFolderForever(FolderId),
    TitleField,
    AuthorField,
    SaveDetails,
    FolderNameField,
    RenameFolder,
    TagField,
    /// Opens one of the selection menus; `open` when it is the one open.
    MenuButton { menu: SelectionMenu, open: bool },
    /// Asks to move the selected entries to the Trash.
    TrashButton,
    /// Asks to move the folder to the Trash.
    FolderTrashButton,
    /// The app's name, shown at the end in the Trash Can.
    AppName,
}

/// The selection row: its label and its controls, left to right.
#[derive(Debug)]
pub struct SelectionRow {
    pub label: String,
    pub controls: Vec<SelectionControl>,
}

/// The row for a folder alone shows when no entry is selected, outside the
/// Trash Can, with a known folder in the details panel.
pub open spec fn folder_row_shown(entry_count: nat, trash_view_active: bool, details_folder_known: bool) -> bool {
    entry_count == 0 && !trash_view_active && details_folder_known
}

/// The label of the row: "1 folder selected" for a folder alone, else the
/// count of selected entries (and, in the Trash Can, of the known folder in
/// the details panel) and "selected".
pub open spec fn row_label(entry_count: nat, trash_view_active: bool, details_folder_known: bool) -> Seq<char> {
    if folder_row_shown(entry_count, trash_view_active, details_folder_known) {
        "1 folder selected"@
    } else {
        decimal(entry_count + if trash_view_active && details_folder_known { 1nat } else { 0nat }) + " selected"@
    }
}

/// The menu button for `menu`.
pub open spec fn menu_button(menu: SelectionMenu, open_menu: Option<SelectionMenu>) -> SelectionControl {
    SelectionControl::MenuButton { menu, open: open_menu == Some(menu) }
}

/// The controls of the row, left to right.
pub open spec fn row_controls(
    entry_count: nat,
    trash_view_active: bool,
    details_folder_id: Option<FolderId>,
    details_folder_known: bool,
    open_menu: Option<SelectionMenu>,
) -> Seq<SelectionControl> {
    if folder_row_shown(entry_count, trash_view_active, details_folder_known) {
        seq![
            SelectionControl::ClearFolderDetails,
            SelectionControl::FolderNameField,
            SelectionControl::RenameFolder,
            SelectionControl::FolderTrashButton,
        ]
    } else if trash_view_active {
        seq![SelectionControl::Clear, SelectionControl::RestoreFromTrash]
            + (if entry_count > 0 { seq![SelectionControl::DeleteEntriesForever] } else { Seq::empty() })
            + (match details_folder_id {
            Some(f) => seq![SelectionControl::DeleteFolderForever(f)],
            None => Seq::empty(),
        }) + seq![SelectionControl::AppName]
    } else if entry_count == 1 {
        seq![
            SelectionControl::Clear,
            SelectionControl::TitleField,
            SelectionControl::AuthorField,
            SelectionControl::SaveDetails,
            menu_button(SelectionMenu::More, open_menu),
            SelectionControl::TrashButton,
        ]
    } else {
        seq![
            SelectionControl::Clear,
            SelectionControl::TagField,
            menu_button(SelectionMenu::Tags, open_menu),
            menu_button(SelectionMenu::Folders, open_menu),
            menu_button(SelectionMenu::Metadata, open_menu),
            menu_button(SelectionMenu::Maintenance, open_menu),
            SelectionControl::TrashButton,
        ]
    }
}

fn menu_control(menu: SelectionMenu, open_menu: Option<SelectionMenu>) -> (c: SelectionControl)
    ensures
        c == menu_button(menu, open_menu),
{
    SelectionControl::MenuButton { menu, open: open_menu == Some(menu) }
}

/// The selection row for `entry_count` selected entries; `details_folder_id`
/// is the folder in the details panel and `details_folder_known` whether it
/// is among the folders in view.
pub fn selection_row(
    entry_count: usize,
    trash_view_active: bool,
    details_folder_id: Option<FolderId>,
    details_folder_known: bool,
    open_menu: Option<SelectionMenu>,
) -> (row: SelectionRow)
    requires
        entry_count < usize::MAX,
    ensures
        row.label@ == row_label(entry_count as nat, trash_view_active, details_folder_known),
        row.controls@ == row_controls(entry_count as nat, trash_view_active, details_folder_id, details_folder_known, open_menu),
{
    proof {
        reveal_strlit("1 folder selected");
        reveal_strlit(" selected");
    }
    let mut controls: Vec<SelectionControl> = Vec::new();
    if entry_count == 0 && !trash_view_active && details_folder_known {
        controls.push(SelectionControl::ClearFolderDetails);
        controls.push(SelectionControl::FolderNameField);
        controls.push(SelectionControl::RenameFolder);
        controls.push(SelectionControl::FolderTrashButton);
        assert(controls@ =~= row_controls(entry_count as nat, trash_view_active, details_folder_id, details_folder_known, open_menu));
        return SelectionRow { label: "1 folder selected".to_owned(), controls };
    }
    controls.push(SelectionControl::Clear);
    if trash_view_active {
        controls.push(SelectionControl::RestoreFromTrash);
        if entry_count > 0 {
            controls.push(SelectionControl::DeleteEntriesForever);
        }
        if let Some(f) = details_folder_id {
            controls.push(SelectionControl::DeleteFolderForever(f));
        }
        controls.push(SelectionControl::AppName);
    } else if entry_count == 1 {
        controls.push(SelectionControl::TitleField);
        controls.push(SelectionControl::AuthorField);
        controls.push(SelectionControl::SaveDetails);
        controls.push(menu_control(SelectionMenu::More, open_menu));
        controls.push(SelectionControl::TrashButton);
    } else {
        controls.push(SelectionControl::TagField);
        controls.push(menu_control(SelectionMenu::Tags, open_menu));
        controls.push(menu_control(SelectionMenu::Folders, open_menu));
        controls.push(menu_control(SelectionMenu::Metadata, open_menu));
        controls.push(menu_control(SelectionMenu::Maintenance, open_menu));
        controls.push(SelectionControl::TrashButton);
    }
    assert(controls@ =~= row_controls(entry_count as nat, trash_view_active, details_folder_id, details_folder_known, open_menu));
    let count: usize = if trash_view_active && details_folder_known { entry_count + 1 } else { entry_count };
    let mut label = decimal_string(count as u64);
    label.append(" selected");
    SelectionRow { label, controls }
}

} // verus!
