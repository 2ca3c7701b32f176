//! The library's records as the logic reads them: PDF entries and folders,
//! identified by integer ids, and the library's current content.

use vstd::prelude::*;

verus! {

/// Identifies a PDF entry of a library.
pub type EntryId = u64;

/// Identifies a folder of a library.
pub type FolderId = u64;

/// A folder of the library tree.
#[derive(Debug)]
pub struct Folder {
    pub id: FolderId,
    pub name: String,
    pub parent_id: Option<FolderId>,
    pub manual_order: i64,
}

/// The plain content of a folder.
pub struct FolderView {
    pub id: FolderId,
    pub name: Seq<char>,
    pub parent_id: Option<FolderId>,
    pub manual_order: i64,
}

impl View for Folder {
    type V = FolderView;

    open spec fn view(&self) -> FolderView {
        FolderView { id: self.id, name: self.name@, parent_id: self.parent_id, manual_order: self.manual_order }
    }
}

impl Folder {
    /// A copy with the same content.
    pub fn duplicate(&self) -> (copy: Self)
        ensures
            copy@ == self@,
    {
        Folder { id: self.id, name: self.name.clone(), parent_id: self.parent_id, manual_order: self.manual_order }
    }
}

/// A PDF entry of the library.
#[derive(Debug)]
pub struct LibraryEntry {
    pub id: EntryId,
    pub title: Option<String>,
    pub display_title: Option<String>,
    pub author: Option<String>,
    pub display_author: Option<String>,
    /// The file's path.
    pub path: String,
    pub tags: Vec<String>,
    /// The folders that hold the entry.
    pub folders: Vec<FolderId>,
    /// Whether the file is missing on disk.
    pub missing: bool,
    pub page_count: Option<u32>,
    /// The page last read, counted from zero.
    pub last_page: u32,
}

/// Whether an entry is started but not finished: it has pages and the page
/// after the last one read still exists.
pub open spec fn entry_in_progress(entry: LibraryEntry) -> bool {
    match entry.page_count {
        Some(count) => count > 0 && entry.last_page + 1 < count,
        None => false,
    }
}

} // verus!

verus! {

/// How the library orders its entries.
#[derive(Debug, Clone, Copy, PartialEq, Eq, Structural)]
pub enum LibrarySortMode {
    Manual,
    TitleAsc,
    TitleDesc,
    AuthorAsc,
    AuthorDesc,
    RecentlyAdded,
    RecentlyOpened,
    ReadingProgress,
    PageCount,
    MissingFiles,
}

/// Destructive or resetting actions that ask for confirmation first.
#[derive(Debug, PartialEq, Eq)]
pub enum ConfirmationAction {
    BulkResetDisplayMetadata,
    BulkDeleteFromLibrary,
    PermanentlyDeleteFromTrash,
    PermanentlyDeleteFolderFromTrash(FolderId),
    ResetDetailsMetadata(EntryId),
    DeleteFolder(FolderId),
    DeleteTag(String),
    DeleteLibrary(String),
}

/// What an export takes its PDFs from.
#[derive(Debug, PartialEq, Eq)]
pub enum ExportSource {
    SelectedEntries,
    SingleEntry(EntryId),
    Folder(FolderId),
    Tag(String),
}

} // verus!

verus! {

/// The characters of an optional string.
pub open spec fn opt_chars(o: Option<String>) -> Option<Seq<char>> {
    match o {
        Some(s) => Some(s@),
        None => None,
    }
}

/// The plain content of an entry.
pub struct EntryView {
    pub id: EntryId,
    pub title: Option<Seq<char>>,
    pub display_title: Option<Seq<char>>,
    pub author: Option<Seq<char>>,
    pub display_author: Option<Seq<char>>,
    pub path: Seq<char>,
    pub tags: Seq<Seq<char>>,
    pub folders: Seq<FolderId>,
    pub missing: bool,
    pub page_count: Option<u32>,
    pub last_page: u32,
}

impl View for LibraryEntry {
    type V = EntryView;

    open spec fn view(&self) -> EntryView {
        EntryView {
            id: self.id,
            title: opt_chars(self.title),
            display_title: opt_chars(self.display_title),
            author: opt_chars(self.author),
            display_author: opt_chars(self.display_author),
            path: self.path@,
            tags: self.tags@.map_values(|t: String| t@),
            folders: self.folders@,
            missing: self.missing,
            page_count: self.page_count,
            last_page: self.last_page,
        }
    }
}

fn copy_opt(o: &Option<String>) -> (copy: Option<String>)
    ensures
        opt_chars(copy) == opt_chars(*o),
{
    match o {
        Some(s) => Some(s.clone()),
        None => None,
    }
}

impl LibraryEntry {
    /// A copy with the same content.
    pub fn duplicate(&self) -> (copy: Self)
        ensures
            copy@ == self@,
    {
        let mut tags: Vec<String> = Vec::new();
        let mut i: usize = 0;
        while i < self.tags.len()
            invariant
                i <= self.tags@.len(),
                tags@.len() == i,
                forall|j: int| 0 <= j < i ==> (#[trigger] tags@[j])@ == self.tags@[j]@,
            decreases self.tags@.len() - i,
        {
            tags.push(self.tags[i].clone());
            i = i + 1;
        }
        assert(tags@.map_values(|t: String| t@) =~= self.tags@.map_values(|t: String| t@));
        let folders = crate::seqs::vec_copy_u64(&self.folders);
        LibraryEntry {
            id: self.id,
            title: copy_opt(&self.title),
            display_title: copy_opt(&self.display_title),
            author: copy_opt(&self.author),
            display_author: copy_opt(&self.display_author),
            path: self.path.clone(),
            tags,
            folders,
            missing: self.missing,
            page_count: self.page_count,
            last_page: self.last_page,
        }
    }
}

} // verus!
