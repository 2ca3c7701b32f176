//! The library's internal clipboard: what cut or copy captures, how it is
//! labelled, and when a paste is possible.

use vstd::prelude::*;

use crate::folders::in_subtree;
use crate::model::{EntryId, Folder, FolderId};
use crate::state::AppMode;

verus! {

/// Whether a paste moves (cut) or duplicates (copy).
#[derive(Debug, Clone, Copy, PartialEq, Eq, Structural)]
pub enum LibraryClipboardMode {
    Cut,
    Copy,
}

/// What the clipboard holds: some PDFs, or one folder.
#[derive(Debug)]
pub enum LibraryClipboardTarget {
    Entries(Vec<EntryId>),
    Folder(FolderId),
}

/// The library clipboard.
#[derive(Debug)]
pub struct LibraryClipboard {
    pub mode: LibraryClipboardMode,
    pub target: LibraryClipboardTarget,
}

/// The label of the clipboard's content.
pub open spec fn clipboard_label_spec(mode: LibraryClipboardMode, holds_entries: bool) -> Seq<char> {
    match (mode, holds_entries) {
        (LibraryClipboardMode::Cut, true) => "Cut PDFs"@,
        (LibraryClipboardMode::Copy, true) => "Copy PDFs"@,
        (LibraryClipboardMode::Cut, false) => "Cut Folder"@,
        (LibraryClipboardMode::Copy, false) => "Copy Folder"@,
    }
}

/// The label of the paste command for the clipboard's content.
pub open spec fn clipboard_paste_label_spec(mode: LibraryClipboardMode, holds_entries: bool) -> Seq<char> {
    match (mode, holds_entries) {
        (LibraryClipboardMode::Cut, true) => "Move PDFs"@,
        (LibraryClipboardMode::Copy, true) => "Paste PDFs"@,
        (LibraryClipboardMode::Cut, false) => "Move Folder"@,
        (LibraryClipboardMode::Copy, false) => "Paste Folder"@,
    }
}

impl LibraryClipboard {
    /// Whether the clipboard holds PDFs rather than a folder.
    pub open spec fn holds_entries(&self) -> bool {
        self.target is Entries
    }

    /// What the clipboard holds, as shown in menus.
    pub fn label(&self) -> (label: &'static str)
        ensures
            label@ == clipboard_label_spec(self.mode, self.holds_entries()),
    {
        match (&self.mode, &self.target) {
            (LibraryClipboardMode::Cut, LibraryClipboardTarget::Entries(_)) => "Cut PDFs",
            (LibraryClipboardMode::Copy, LibraryClipboardTarget::Entries(_)) => "Copy PDFs",
            (LibraryClipboardMode::Cut, LibraryClipboardTarget::Folder(_)) => "Cut Folder",
            (LibraryClipboardMode::Copy, LibraryClipboardTarget::Folder(_)) => "Copy Folder",
        }
    }

    /// The status shown once the clipboard is filled: "<label> ready to
    /// paste.".
    pub fn ready_status(&self) -> (status: String)
        ensures
            status@ == clipboard_label_spec(self.mode, self.holds_entries()) + " ready to paste."@,
    {
        let mut status = self.label().to_owned();
        status.append(" ready to paste.");
        status
    }

    /// The status shown while pasting: "<paste label>...".
    pub fn pasting_status(&self) -> (status: String)
        ensures
            status@ == clipboard_paste_label_spec(self.mode, self.holds_entries()) + "..."@,
    {
        let mut status = self.paste_label().to_owned();
        status.append("...");
        status
    }

    /// Whether the clipboard is emptied after a paste: a cut is, once it
    /// moved everything without an error; a copy stays for more pastes.
    pub fn emptied_after_paste(&self, errors: usize) -> (emptied: bool)
        ensures
            emptied == (self.mode == LibraryClipboardMode::Cut && errors == 0),
    {
        self.mode == LibraryClipboardMode::Cut && errors == 0
    }

    /// The label of the paste command.
    pub fn paste_label(&self) -> (label: &'static str)
        ensures
            label@ == clipboard_paste_label_spec(self.mode, self.holds_entries()),
    {
        match (&self.mode, &self.target) {
            (LibraryClipboardMode::Cut, LibraryClipboardTarget::Entries(_)) => "Move PDFs",
            (LibraryClipboardMode::Copy, LibraryClipboardTarget::Entries(_)) => "Paste PDFs",
            (LibraryClipboardMode::Cut, LibraryClipboardTarget::Folder(_)) => "Move Folder",
            (LibraryClipboardMode::Copy, LibraryClipboardTarget::Folder(_)) => "Paste Folder",
        }
    }
}

/// Cut and copy are offered in the library when PDFs are selected or a
/// folder is shown in the details panel.
pub fn can_cut_or_copy_library_selection(mode: AppMode, selected: &Vec<EntryId>, details_folder_id: Option<FolderId>) -> (can: bool)
    ensures
        can == (mode == AppMode::Library && (selected@.len() > 0 || details_folder_id.is_some())),
{
    mode == AppMode::Library && (selected.len() > 0 || details_folder_id.is_some())
}

/// When paste is possible, in the library and with a clipboard: copied PDFs
/// need an open folder to go to; a cut folder cannot go into the folder
/// that is open if that is the folder itself or lies below it; anything
/// else can always be pasted.
pub open spec fn can_paste_spec(mode: AppMode, clipboard: Option<LibraryClipboard>, selected_folder: Option<FolderId>, folders: Seq<Folder>) -> bool {
    mode == AppMode::Library && match clipboard {
        None => false,
        Some(c) => match (c.mode, c.target) {
            (LibraryClipboardMode::Copy, LibraryClipboardTarget::Entries(_)) => selected_folder.is_some(),
            (LibraryClipboardMode::Cut, LibraryClipboardTarget::Folder(folder_id)) => selected_folder != Some(folder_id)
                && (selected_folder.is_none() || !in_subtree(folders, folder_id, selected_folder.unwrap())),
            _ => true,
        },
    }
}

/// In the library a clipboard holding cut PDFs can always be pasted, with or
/// without an open folder; copied PDFs need an open folder; nothing can be
/// pasted outside the library or from an empty clipboard.
pub proof fn law_cut_entries_paste_anywhere(
    mode: AppMode,
    clipboard: Option<LibraryClipboard>,
    selected_folder: Option<FolderId>,
    folders: Seq<Folder>,
)
    ensures
        mode == AppMode::Library && clipboard.is_some() && clipboard.unwrap().mode == LibraryClipboardMode::Cut
            && clipboard.unwrap().holds_entries() ==> can_paste_spec(mode, clipboard, selected_folder, folders),
        mode == AppMode::Library && clipboard.is_some() && clipboard.unwrap().mode == LibraryClipboardMode::Copy
            && clipboard.unwrap().holds_entries() ==> can_paste_spec(mode, clipboard, selected_folder, folders) == selected_folder.is_some(),
        mode != AppMode::Library || clipboard.is_none() ==> !can_paste_spec(mode, clipboard, selected_folder, folders),
{
}

/// Whether the clipboard can be pasted into the open folder.
pub fn can_paste_library_clipboard(
    mode: AppMode,
    clipboard: &Option<LibraryClipboard>,
    selected_folder: Option<FolderId>,
    folders: &Vec<Folder>,
) -> (can: bool)
    ensures
        can == can_paste_spec(mode, *clipboard, selected_folder, folders@),
{
    if mode != AppMode::Library {
        return false;
    }
    match clipboard {
        None => false,
        Some(c) => match (&c.mode, &c.target) {
            (LibraryClipboardMode::Copy, LibraryClipboardTarget::Entries(_)) => selected_folder.is_some(),
            (LibraryClipboardMode::Cut, LibraryClipboardTarget::Folder(folder_id)) => {
                selected_folder != Some(*folder_id) && match selected_folder {
                    None => true,
                    Some(destination) => crate::folders::folder_can_move_into(folders, *folder_id, destination),
                }
            },
            _ => true,
        },
    }
}

/// The ids in ascending order.
fn sorted_ids(ids: &Vec<EntryId>) -> (sorted: Vec<EntryId>)
    ensures
        sorted@.len() == ids@.len(),
        sorted@.to_multiset() == ids@.to_multiset(),
        forall|i: int, j: int| 0 <= i < j < sorted@.len() ==> sorted@[i] <= sorted@[j],
{
    let mut sorted: Vec<EntryId> = Vec::new();
    let mut k: usize = 0;
    assert(sorted@ =~= ids@.take(0));
    while k < ids.len()
        invariant
            k <= ids@.len(),
            sorted@.len() == k,
            sorted@.to_multiset() == ids@.take(k as int).to_multiset(),
            forall|i: int, j: int| 0 <= i < j < sorted@.len() ==> sorted@[i] <= sorted@[j],
        decreases ids@.len() - k,
    {
        let x = ids[k];
        let mut pos: usize = 0;
        while pos < sorted.len() && sorted[pos] <= x
            invariant
                pos <= sorted@.len(),
                forall|i: int| 0 <= i < pos ==> sorted@[i] <= x,
            decreases sorted@.len() - pos,
        {
            pos = pos + 1;
        }
        let ghost before = sorted@;
        sorted.insert(pos, x);
        proof {
            broadcast use vstd::seq_lib::group_to_multiset_ensures;
            before.insert_ensures(pos as int, x);
            assert(ids@.take(k as int + 1) =~= ids@.take(k as int).push(x));
            assert(sorted@.remove(pos as int) =~= before);
            assert(sorted@[pos as int] == x);
            assert(sorted@.to_multiset().remove(x) =~= before.to_multiset());
            assert(sorted@.to_multiset().count(x) > 0);
            assert(sorted@.to_multiset() =~= before.to_multiset().insert(x));
            assert(ids@.take(k as int + 1).to_multiset() =~= ids@.take(k as int).to_multiset().insert(x));
            assert forall|i: int, j: int| 0 <= i < j < sorted@.len() implies sorted@[i] <= sorted@[j] by {
                if i < pos as int && j == pos as int {
                } else if i == pos as int && j > i {
                    assert(sorted@[j] == before[j - 1]);
                    assert(before[pos as int] > x);
                    if j - 1 > pos as int {
                        assert(before[pos as int] <= before[j - 1]);
                    }
                } else if j > pos as int && i < pos as int {
                    assert(sorted@[j] == before[j - 1]);
                } else if j > pos as int && i > pos as int {
                    assert(sorted@[j] == before[j - 1]);
                    assert(sorted@[i] == before[i - 1]);
                }
            }
        }
        k = k + 1;
    }
    assert(ids@.take(ids@.len() as int) =~= ids@);
    sorted
}

/// The clipboard content that cut or copy captures: the selected PDFs in
/// ascending id order, else the folder shown in the details panel, else
/// nothing.
pub open spec fn clipboard_capture_ok(
    clipboard: LibraryClipboard,
    mode: LibraryClipboardMode,
    selected: Seq<EntryId>,
    details_folder_id: Option<FolderId>,
) -> bool {
    clipboard.mode == mode && if selected.len() > 0 {
        match clipboard.target {
            LibraryClipboardTarget::Entries(ids) => ids@.to_multiset() == selected.to_multiset()
                && forall|i: int, j: int| 0 <= i < j < ids@.len() ==> ids@[i] <= ids@[j],
            LibraryClipboardTarget::Folder(_) => false,
        }
    } else {
        clipboard.target == LibraryClipboardTarget::Folder(details_folder_id.unwrap())
    }
}

/// Cut or copy: fills the clipboard from the selection and reports whether
/// there was anything to capture; with nothing to capture the clipboard is
/// left as it was.
pub fn set_library_clipboard(
    clipboard: &mut Option<LibraryClipboard>,
    mode: LibraryClipboardMode,
    selected: &Vec<EntryId>,
    details_folder_id: Option<FolderId>,
) -> (captured: bool)
    ensures
        captured == (selected@.len() > 0 || details_folder_id.is_some()),
        !captured ==> *final(clipboard) == *old(clipboard),
        captured ==> final(clipboard).is_some() && clipboard_capture_ok(final(clipboard).unwrap(), mode, selected@, details_folder_id),
{
    let target = if selected.len() > 0 {
        LibraryClipboardTarget::Entries(sorted_ids(selected))
    } else {
        match details_folder_id {
            Some(folder_id) => LibraryClipboardTarget::Folder(folder_id),
            None => return false,
        }
    };
    *clipboard = Some(LibraryClipboard { mode, target });
    true
}

} // verus!
