//! Export: the dialog's defaults and which PDFs a source exports.

use vstd::prelude::*;

use crate::labels::{ExportConflictBehavior, ExportFilenameTemplate, ExportMode};
use crate::model::{EntryId, ExportSource, LibraryEntry, EntryView};
use crate::seqs::vec_contains_u64;
use crate::text::str_eq;

verus! {

/// The export dialog's choices.
#[derive(Debug)]
pub struct LibraryExportDialog {
    pub source: ExportSource,
    pub destination: Option<String>,
    pub mode: ExportMode,
    pub filename_template: ExportFilenameTemplate,
    pub include_metadata_csv: bool,
    pub include_metadata_json: bool,
    pub include_tags: bool,
    pub include_reading_progress: bool,
    pub conflict_behavior: ExportConflictBehavior,
}

impl LibraryExportDialog {
    /// The dialog for `source`: no destination yet, PDFs copied flat under
    /// their original names, a CSV with tags and reading progress but no
    /// JSON, and existing files kept beside the new ones.
    pub fn new(source: ExportSource) -> (dialog: Self)
        ensures
            dialog.source == source,
            dialog.destination.is_none(),
            dialog.mode == ExportMode::CopyFlat,
            dialog.filename_template == ExportFilenameTemplate::OriginalFilename,
            dialog.include_metadata_csv,
            !dialog.include_metadata_json,
            dialog.include_tags,
            dialog.include_reading_progress,
            dialog.conflict_behavior == ExportConflictBehavior::KeepBoth,
    {
        LibraryExportDialog {
            source,
            destination: None,
            mode: ExportMode::CopyFlat,
            filename_template: ExportFilenameTemplate::OriginalFilename,
            include_metadata_csv: true,
            include_metadata_json: false,
            include_tags: true,
            include_reading_progress: true,
            conflict_behavior: ExportConflictBehavior::KeepBoth,
        }
    }
}

/// Whether an entry belongs to an export source: the selected entries,
/// one entry, the entries filed in a folder, or those carrying a tag.
pub open spec fn entry_matches_source(entry: EntryView, source: ExportSource, selected: Seq<EntryId>) -> bool {
    match source {
        ExportSource::SelectedEntries => selected.contains(entry.id),
        ExportSource::SingleEntry(id) => entry.id == id,
        ExportSource::Folder(folder_id) => entry.folders.contains(folder_id),
        ExportSource::Tag(tag) => entry.tags.contains(tag@),
    }
}

/// The entries of `pool` that belong to the source, in order.
pub open spec fn matching_entries(pool: Seq<LibraryEntry>, source: ExportSource, selected: Seq<EntryId>) -> Seq<EntryView> {
    pool.map_values(|e: LibraryEntry| e@).filter(|v: EntryView| entry_matches_source(v, source, selected))
}

fn has_tag(entry: &LibraryEntry, tag: &String) -> (found: bool)
    ensures
        found == entry@.tags.contains(tag@),
{
    let ghost tags = entry.tags@.map_values(|t: String| t@);
    let mut i: usize = 0;
    while i < entry.tags.len()
        invariant
            tags == entry.tags@.map_values(|t: String| t@),
            i <= entry.tags@.len(),
            forall|j: int| 0 <= j < i ==> tags[j] != tag@,
        decreases entry.tags@.len() - i,
    {
        if str_eq(entry.tags[i].as_str(), tag.as_str()) {
            assert(tags[i as int] == tag@);
            return true;
        }
        i = i + 1;
    }
    false
}

fn matches(entry: &LibraryEntry, source: &ExportSource, selected: &Vec<EntryId>) -> (m: bool)
    ensures
        m == entry_matches_source(entry@, *source, selected@),
{
    match source {
        ExportSource::SelectedEntries => vec_contains_u64(selected, entry.id),
        ExportSource::SingleEntry(id) => entry.id == *id,
        ExportSource::Folder(folder_id) => vec_contains_u64(&entry.folders, *folder_id),
        ExportSource::Tag(tag) => has_tag(entry, tag),
    }
}

fn collect_matching(pool: &Vec<LibraryEntry>, source: &ExportSource, selected: &Vec<EntryId>, out: &mut Vec<LibraryEntry>)
    ensures
        final(out)@.map_values(|e: LibraryEntry| e@) == old(out)@.map_values(|e: LibraryEntry| e@) + matching_entries(pool@, *source, selected@),
{
    let ghost pred = |v: EntryView| entry_matches_source(v, *source, selected@);
    let ghost start = out@.map_values(|e: LibraryEntry| e@);
    let ghost views = pool@.map_values(|e: LibraryEntry| e@);
    let mut i: usize = 0;
    while i < pool.len()
        invariant
            pred == |v: EntryView| entry_matches_source(v, *source, selected@),
            views == pool@.map_values(|e: LibraryEntry| e@),
            start == old(out)@.map_values(|e: LibraryEntry| e@),
            i <= pool@.len(),
            out@.map_values(|e: LibraryEntry| e@) == start + views.take(i as int).filter(pred),
        decreases pool@.len() - i,
    {
        let ghost v = views[i as int];
        proof {
            assert(views.take(i as int + 1) =~= views.take(i as int).push(v));
            views.take(i as int).lemma_filter_push(v, pred);
        }
        if matches(&pool[i], source, selected) {
            let ghost before = out@;
            out.push(pool[i].duplicate());
            assert(out@.map_values(|e: LibraryEntry| e@) =~= before.map_values(|e: LibraryEntry| e@).push(v));
        }
        i = i + 1;
    }
    assert(views.take(pool@.len() as int) =~= views);
}

/// The PDFs an export of `source` covers: for the selection, the selected
/// entries in view; otherwise the matching entries of the library and
/// then of the Trash Can.
pub fn export_entries_for_source(
    library_entries: &Vec<LibraryEntry>,
    trash_entries: &Vec<LibraryEntry>,
    active_entries: &Vec<LibraryEntry>,
    selected: &Vec<EntryId>,
    source: &ExportSource,
) -> (entries: Vec<LibraryEntry>)
    ensures
        *source == ExportSource::SelectedEntries ==> entries@.map_values(|e: LibraryEntry| e@)
            == matching_entries(active_entries@, *source, selected@),
        *source != ExportSource::SelectedEntries ==> entries@.map_values(|e: LibraryEntry| e@)
            == matching_entries(library_entries@, *source, selected@) + matching_entries(trash_entries@, *source, selected@),
{
    let mut entries: Vec<LibraryEntry> = Vec::new();
    assert(entries@.map_values(|e: LibraryEntry| e@) =~= Seq::<EntryView>::empty());
    match source {
        ExportSource::SelectedEntries => {
            collect_matching(active_entries, source, selected, &mut entries);
            assert(Seq::<EntryView>::empty() + matching_entries(active_entries@, *source, selected@)
                =~= matching_entries(active_entries@, *source, selected@));
        },
        _ => {
            collect_matching(library_entries, source, selected, &mut entries);
            collect_matching(trash_entries, source, selected, &mut entries);
            assert(Seq::<EntryView>::empty() + matching_entries(library_entries@, *source, selected@)
                =~= matching_entries(library_entries@, *source, selected@));
        },
    }
    entries
}

/// What "Export" does.
#[derive(Debug, PartialEq, Eq)]
pub enum ExportStart {
    /// The dialog is closed: nothing.
    Nothing,
    /// No destination yet: ask for one.
    ChooseDestination,
    /// Nothing to export; the error shown.
    Refused { error: String },
    /// Export this many PDFs.
    Start { total: usize },
}

/// The error shown when a source has no PDFs.
pub open spec fn nothing_to_export_error() -> Seq<char> {
    "There are no PDFs available for this export."@
}

/// What "Export" does with the dialog open (or not) and `entry_count` PDFs
/// in its source: ask for a destination first, refuse an empty export,
/// else start.
pub fn export_start(dialog: Option<&LibraryExportDialog>, entry_count: usize) -> (start: ExportStart)
    ensures
        match dialog {
            None => start == ExportStart::Nothing,
            Some(d) => if d.destination.is_none() {
                start == ExportStart::ChooseDestination
            } else if entry_count == 0 {
                start matches ExportStart::Refused { error } && error@ == nothing_to_export_error()
            } else {
                start == ExportStart::Start { total: entry_count }
            },
        },
{
    proof {
        reveal_strlit("There are no PDFs available for this export.");
    }
    match dialog {
        None => ExportStart::Nothing,
        Some(d) => {
            if d.destination.is_none() {
                ExportStart::ChooseDestination
            } else if entry_count == 0 {
                ExportStart::Refused { error: "There are no PDFs available for this export.".to_owned() }
            } else {
                ExportStart::Start { total: entry_count }
            }
        },
    }
}

} // verus!
