//! Editing folders from the details panel: the name fields, and the
//! create, rename and move-up requests they lead to.

use vstd::prelude::*;

use crate::folders::{find_folder, find_folder_index};
use crate::model::{Folder, FolderId};
use crate::text::{trim, trim_spec, typed_text, typed_text_spec};

verus! {

/// The folder name field after typing `value`: no control characters, and
/// at most 80 characters.
pub fn folder_name_input(value: &str) -> (input: String)
    ensures
        input@ == typed_text_spec(value@, 80),
{
    typed_text(value, 80)
}

/// The folder to create from the name field: its trimmed name and the
/// folder shown as its parent; `None` when the name is blank.
pub fn create_folder_request(name_input: &str, selected_folder: Option<FolderId>) -> (request: Option<(String, Option<FolderId>)>)
    ensures
        request.is_some() == (trim_spec(name_input@).len() > 0),
        request matches Some((name, parent)) ==> name@ == trim_spec(name_input@) && parent == selected_folder,
{
    let name = trim(name_input);
    if name.unicode_len() == 0 {
        None
    } else {
        Some((name, selected_folder))
    }
}

/// The rename that the rename field asks for: the folder shown in the
/// details panel and the trimmed name; `None` when no folder is shown or
/// the name is blank.
pub fn rename_folder_request(details_folder_id: Option<FolderId>, rename_input: &str) -> (request: Option<(FolderId, String)>)
    ensures
        request.is_some() == (details_folder_id.is_some() && trim_spec(rename_input@).len() > 0),
        request matches Some((id, name)) ==> id == details_folder_id.unwrap() && name@ == trim_spec(rename_input@),
{
    match details_folder_id {
        None => None,
        Some(id) => {
            let name = trim(rename_input);
            if name.unicode_len() == 0 {
                None
            } else {
                Some((id, name))
            }
        },
    }
}

/// Where "move up one level" puts the folder shown in the details panel:
/// under its parent's parent (the root for `None`). Nothing moves when no
/// known folder is shown or it already sits at the root.
pub open spec fn move_up_spec(folders: Seq<Folder>, details_folder_id: Option<FolderId>) -> Option<(FolderId, Option<FolderId>)> {
    match details_folder_id {
        None => None,
        Some(id) => match find_folder(folders, id) {
            None => None,
            Some(folder) => match folder.parent_id {
                None => None,
                Some(parent) => Some((folder.id, match find_folder(folders, parent) {
                    None => None,
                    Some(p) => p.parent_id,
                })),
            },
        },
    }
}

/// The move that "move up one level" asks for: the folder and its new
/// parent.
pub fn move_up_request(folders: &Vec<Folder>, details_folder_id: Option<FolderId>) -> (request: Option<(FolderId, Option<FolderId>)>)
    ensures
        request == move_up_spec(folders@, details_folder_id),
{
    let id = match details_folder_id {
        None => return None,
        Some(id) => id,
    };
    let index = match find_folder_index(folders, id) {
        None => return None,
        Some(i) => i,
    };
    let parent = match folders[index].parent_id {
        None => return None,
        Some(p) => p,
    };
    let grandparent = match find_folder_index(folders, parent) {
        None => None,
        Some(j) => folders[j].parent_id,
    };
    Some((folders[index].id, grandparent))
}

} // verus!
