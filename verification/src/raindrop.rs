//! Raindrop.io import: where imported PDFs go, what a canceled import must
//! roll back, and the review shown after an import.

use vstd::prelude::*;

use crate::model::{EntryId, FolderId};

verus! {

/// Where imported Raindrop PDFs go.
#[derive(Debug, Clone, Copy, PartialEq, Eq, Structural)]
pub enum RaindropImportDestination {
    /// Everything at the library root.
    LibraryRoot,
    /// Everything into one local folder.
    LocalFolder(FolderId),
    /// Mirror Raindrop's collections as folders at the root.
    PreserveRaindropFolders,
    /// Mirror Raindrop's collections as folders under a local folder.
    PreserveRaindropFoldersUnder(Option<FolderId>),
}

/// Whether the import mirrors Raindrop's collections.
pub open spec fn preserves_structure_spec(destination: RaindropImportDestination) -> bool {
    match destination {
        RaindropImportDestination::PreserveRaindropFolders => true,
        RaindropImportDestination::PreserveRaindropFoldersUnder(_) => true,
        _ => false,
    }
}

/// The local folder the import lands in, if not the root.
pub open spec fn root_folder_spec(destination: RaindropImportDestination) -> Option<FolderId> {
    match destination {
        RaindropImportDestination::PreserveRaindropFoldersUnder(folder_id) => folder_id,
        RaindropImportDestination::LocalFolder(folder_id) => Some(folder_id),
        _ => None,
    }
}

/// The destination chosen by the two controls of the import dialog.
pub open spec fn destination_spec(preserve_structure: bool, root_folder: Option<FolderId>) -> RaindropImportDestination {
    if preserve_structure {
        match root_folder {
            Some(f) => RaindropImportDestination::PreserveRaindropFoldersUnder(Some(f)),
            None => RaindropImportDestination::PreserveRaindropFolders,
        }
    } else {
        match root_folder {
            Some(f) => RaindropImportDestination::LocalFolder(f),
            None => RaindropImportDestination::LibraryRoot,
        }
    }
}

/// Whether the import mirrors Raindrop's collections.
pub fn raindrop_import_preserves_structure(destination: &RaindropImportDestination) -> (preserves: bool)
    ensures
        preserves == preserves_structure_spec(*destination),
{
    match destination {
        RaindropImportDestination::PreserveRaindropFolders => true,
        RaindropImportDestination::PreserveRaindropFoldersUnder(_) => true,
        _ => false,
    }
}

/// The local folder the import lands in, if not the root.
pub fn raindrop_import_root_folder(destination: &RaindropImportDestination) -> (folder: Option<FolderId>)
    ensures
        folder == root_folder_spec(*destination),
{
    match destination {
        RaindropImportDestination::PreserveRaindropFoldersUnder(folder_id) => *folder_id,
        RaindropImportDestination::LocalFolder(folder_id) => Some(*folder_id),
        _ => None,
    }
}

/// The destination chosen by the import dialog's two controls.
pub fn raindrop_import_destination(preserve_structure: bool, root_folder: Option<FolderId>) -> (destination: RaindropImportDestination)
    ensures
        destination == destination_spec(preserve_structure, root_folder),
{
    if preserve_structure {
        match root_folder {
            Some(folder_id) => RaindropImportDestination::PreserveRaindropFoldersUnder(Some(folder_id)),
            None => RaindropImportDestination::PreserveRaindropFolders,
        }
    } else {
        match root_folder {
            Some(folder_id) => RaindropImportDestination::LocalFolder(folder_id),
            None => RaindropImportDestination::LibraryRoot,
        }
    }
}

/// Reading the two controls back from the destination they chose gives
/// the same controls.
pub proof fn law_destination_controls_round_trip(preserve_structure: bool, root_folder: Option<FolderId>)
    ensures
        preserves_structure_spec(destination_spec(preserve_structure, root_folder)) == preserve_structure,
        root_folder_spec(destination_spec(preserve_structure, root_folder)) == root_folder,
{
}

/// Rebuilding a destination from its two controls gives it back, except
/// that mirroring under no folder reads back as mirroring at the root.
pub proof fn law_destination_rebuilds(destination: RaindropImportDestination)
    requires
        destination != RaindropImportDestination::PreserveRaindropFoldersUnder(None),
    ensures
        destination_spec(preserves_structure_spec(destination), root_folder_spec(destination)) == destination,
{
}

/// A PDF an import added (or found already present).
#[derive(Debug)]
pub struct ImportedEntry {
    pub id: EntryId,
    pub path: String,
    /// False when the PDF was already in the library.
    pub inserted: bool,
}

/// One PDF a canceled import must remove.
#[derive(Debug)]
pub struct PendingRaindropRollbackEntry {
    pub id: EntryId,
    pub path: String,
    pub inserted: bool,
}

/// What a canceled Raindrop import must undo: its PDFs and the folders it
/// created.
#[derive(Debug)]
pub struct PendingRaindropRollback {
    pub entries: Vec<PendingRaindropRollbackEntry>,
    pub folders: Vec<FolderId>,
}

impl PendingRaindropRollback {
    /// The rollback for the progress an import made so far.
    pub fn from_progress(imported_entries: Vec<ImportedEntry>, created_folders: Vec<FolderId>) -> (rollback: Self)
        ensures
            rollback.entries@.len() == imported_entries@.len(),
            forall|i: int| 0 <= i < imported_entries@.len() ==> {
                &&& (#[trigger] rollback.entries@[i]).id == imported_entries@[i].id
                &&& rollback.entries@[i].path@ == imported_entries@[i].path@
                &&& rollback.entries@[i].inserted == imported_entries@[i].inserted
            },
            rollback.folders@ == created_folders@,
    {
        let mut entries: Vec<PendingRaindropRollbackEntry> = Vec::new();
        let mut i: usize = 0;
        while i < imported_entries.len()
            invariant
                i <= imported_entries@.len(),
                entries@.len() == i,
                forall|j: int| 0 <= j < i ==> {
                    &&& (#[trigger] entries@[j]).id == imported_entries@[j].id
                    &&& entries@[j].path@ == imported_entries@[j].path@
                    &&& entries@[j].inserted == imported_entries@[j].inserted
                },
            decreases imported_entries@.len() - i,
        {
            let entry = &imported_entries[i];
            entries.push(PendingRaindropRollbackEntry { id: entry.id, path: entry.path.clone(), inserted: entry.inserted });
            i = i + 1;
        }
        PendingRaindropRollback { entries, folders: created_folders }
    }

    /// Whether there is nothing to undo.
    pub fn is_empty(&self) -> (empty: bool)
        ensures
            empty == (self.entries@.len() == 0 && self.folders@.len() == 0),
    {
        self.entries.len() == 0 && self.folders.len() == 0
    }
}

/// Whether one of `entries` has the file `path`.
pub open spec fn has_path(entries: Seq<ImportedEntry>, path: Seq<char>) -> bool {
    exists|i: int| 0 <= i < entries.len() && (#[trigger] entries[i]).path@ == path
}

/// `acc` followed by the ids of `new` it lacks, each once, in order.
pub open spec fn append_new(acc: Seq<FolderId>, new: Seq<FolderId>) -> Seq<FolderId>
    decreases new.len(),
{
    if new.len() == 0 {
        acc
    } else {
        let before = append_new(acc, new.drop_last());
        if before.contains(new.last()) {
            before
        } else {
            before.push(new.last())
        }
    }
}

proof fn lemma_push_new_distinct(s: Seq<FolderId>, x: FolderId)
    requires
        s.no_duplicates(),
        !s.contains(x),
    ensures
        s.push(x).no_duplicates(),
{
    assert forall|i: int, j: int| 0 <= i < s.push(x).len() && 0 <= j < s.push(x).len() && i != j
        implies s.push(x)[i] != s.push(x)[j] by {
        if i == s.len() {
            assert(s[j] != x);
        } else if j == s.len() {
            assert(s[i] != x);
        }
    }
}

/// What an import has made so far: the PDFs it added or found, and the
/// folders it created.
#[derive(Debug)]
pub struct ImportRecord {
    pub imported_entries: Vec<ImportedEntry>,
    pub created_folders: Vec<FolderId>,
}

impl ImportRecord {
    /// Adds a progress report: its PDF, unless one with the same file is
    /// recorded, and each folder it created that is not recorded yet.
    pub fn record_progress(&mut self, entry: Option<ImportedEntry>, created_folders: &Vec<FolderId>)
        ensures
            final(self).imported_entries@ == (match entry {
                Some(e) => if has_path(old(self).imported_entries@, e.path@) {
                    old(self).imported_entries@
                } else {
                    old(self).imported_entries@.push(e)
                },
                None => old(self).imported_entries@,
            }),
            final(self).created_folders@ == append_new(old(self).created_folders@, created_folders@),
            old(self).created_folders@.no_duplicates() ==> final(self).created_folders@.no_duplicates(),
    {
        if let Some(e) = entry {
            let mut known = false;
            let mut i: usize = 0;
            while i < self.imported_entries.len()
                invariant
                    i <= self.imported_entries@.len(),
                    known == exists|j: int| 0 <= j < i && (#[trigger] self.imported_entries@[j]).path@ == e.path@,
                decreases self.imported_entries@.len() - i,
            {
                if crate::text::str_eq(self.imported_entries[i].path.as_str(), e.path.as_str()) {
                    known = true;
                }
                i = i + 1;
            }
            if !known {
                self.imported_entries.push(e);
            }
        }
        let mut k: usize = 0;
        assert(created_folders@.take(0) =~= Seq::<FolderId>::empty());
        while k < created_folders.len()
            invariant
                k <= created_folders@.len(),
                self.created_folders@ == append_new(old(self).created_folders@, created_folders@.take(k as int)),
                old(self).created_folders@.no_duplicates() ==> self.created_folders@.no_duplicates(),
                self.imported_entries@ == (match entry {
                    Some(e) => if has_path(old(self).imported_entries@, e.path@) {
                        old(self).imported_entries@
                    } else {
                        old(self).imported_entries@.push(e)
                    },
                    None => old(self).imported_entries@,
                }),
            decreases created_folders@.len() - k,
        {
            let id = created_folders[k];
            assert(created_folders@.take(k as int + 1).drop_last() =~= created_folders@.take(k as int));
            if !crate::seqs::vec_contains_u64(&self.created_folders, id) {
                proof {
                    if self.created_folders@.no_duplicates() {
                        lemma_push_new_distinct(self.created_folders@, id);
                    }
                }
                self.created_folders.push(id);
            }
            k = k + 1;
        }
        assert(created_folders@.take(created_folders@.len() as int) =~= created_folders@);
    }

    /// Records a folder the import created, unless it is recorded.
    pub fn record_created_folder(&mut self, folder_id: FolderId)
        ensures
            final(self).created_folders@ == (if old(self).created_folders@.contains(folder_id) {
                old(self).created_folders@
            } else {
                old(self).created_folders@.push(folder_id)
            }),
            final(self).imported_entries@ == old(self).imported_entries@,
    {
        if !crate::seqs::vec_contains_u64(&self.created_folders, folder_id) {
            self.created_folders.push(folder_id);
        }
    }
}

/// The outcome of an import run.
#[derive(Debug)]
pub struct ImportSummary {
    pub entries: Vec<ImportedEntry>,
    pub errors: Vec<String>,
}

/// The review shown after an import.
#[derive(Debug)]
pub struct ImportReviewState {
    pub title: String,
    pub imported_entry_ids: Vec<EntryId>,
    pub imported_count: usize,
    pub duplicate_count: usize,
    pub failed_count: usize,
    pub destination_label: String,
    pub suggested_tags: Vec<String>,
    pub errors: Vec<String>,
}

/// How many of the imported entries were already in the library.
pub open spec fn duplicates_in(entries: Seq<ImportedEntry>) -> nat
    decreases entries.len(),
{
    if entries.len() == 0 {
        0
    } else {
        duplicates_in(entries.drop_last()) + if entries.last().inserted { 0nat } else { 1nat }
    }
}

proof fn lemma_duplicates_bound(entries: Seq<ImportedEntry>)
    ensures
        duplicates_in(entries) <= entries.len(),
    decreases entries.len(),
{
    if entries.len() > 0 {
        lemma_duplicates_bound(entries.drop_last());
    }
}

/// The review of an import: every entry's id, the new and the duplicate
/// counts, and the failures.
pub fn import_review_from_summary(
    title: String,
    summary: &ImportSummary,
    destination_label: String,
    suggested_tags: Vec<String>,
) -> (review: ImportReviewState)
    ensures
        review.title == title,
        review.imported_entry_ids@ == summary.entries@.map_values(|e: ImportedEntry| e.id),
        review.duplicate_count == duplicates_in(summary.entries@),
        review.imported_count == summary.entries@.len() - duplicates_in(summary.entries@),
        review.failed_count == summary.errors@.len(),
        review.destination_label == destination_label,
        review.suggested_tags == suggested_tags,
        review.errors@.len() == summary.errors@.len(),
        forall|i: int| 0 <= i < summary.errors@.len() ==> (#[trigger] review.errors@[i])@ == summary.errors@[i]@,
{
    let mut ids: Vec<EntryId> = Vec::new();
    let mut duplicates: usize = 0;
    let mut i: usize = 0;
    while i < summary.entries.len()
        invariant
            i <= summary.entries@.len(),
            ids@ == summary.entries@.take(i as int).map_values(|e: ImportedEntry| e.id),
            duplicates == duplicates_in(summary.entries@.take(i as int)),
            duplicates <= i,
        decreases summary.entries@.len() - i,
    {
        proof {
            assert(summary.entries@.take(i as int + 1).drop_last() =~= summary.entries@.take(i as int));
        }
        ids.push(summary.entries[i].id);
        if !summary.entries[i].inserted {
            duplicates = duplicates + 1;
        }
        i = i + 1;
        assert(ids@ =~= summary.entries@.take(i as int).map_values(|e: ImportedEntry| e.id));
    }
    assert(summary.entries@.take(summary.entries@.len() as int) =~= summary.entries@);
    let mut errors: Vec<String> = Vec::new();
    let mut k: usize = 0;
    while k < summary.errors.len()
        invariant
            k <= summary.errors@.len(),
            errors@.len() == k,
            forall|j: int| 0 <= j < k ==> (#[trigger] errors@[j])@ == summary.errors@[j]@,
        decreases summary.errors@.len() - k,
    {
        errors.push(summary.errors[k].clone());
        k = k + 1;
    }
    ImportReviewState {
        title,
        imported_entry_ids: ids,
        imported_count: summary.entries.len() - duplicates,
        duplicate_count: duplicates,
        failed_count: summary.errors.len(),
        destination_label,
        suggested_tags,
        errors,
    }
}

} // verus!
