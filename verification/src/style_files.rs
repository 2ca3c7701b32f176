//! Style-file watching: which file events reload the styles, and the
//! snapshot that polling compares to notice changes.

use vstd::prelude::*;

use crate::order::{stable_order, stably_sorted};
use crate::text::{eq_ignore_ascii_case, eq_ignore_ascii_case_spec, str_eq};

verus! {

/// The kind of a file-system event.
#[derive(Debug, Clone, Copy, PartialEq, Eq, Structural)]
pub enum WatchEventKind {
    Any,
    Access,
    Create,
    Modify,
    Remove,
    Other,
}

/// A path named by a file-system event, as the reload rule reads it.
#[derive(Debug)]
pub struct WatchedPath {
    pub is_dir: bool,
    pub extension: Option<String>,
}

/// Whether a path concerns style files: a directory, or a `.kdl` file in
/// any letter case.
pub open spec fn style_path_relevant(path: WatchedPath) -> bool {
    path.is_dir || match path.extension {
        Some(e) => eq_ignore_ascii_case_spec(e@, "kdl"@),
        None => false,
    }
}

/// Styles reload on any event, creation, change or removal that names no
/// path or names a directory or a `.kdl` file.
pub open spec fn should_reload_spec(kind: WatchEventKind, paths: Seq<WatchedPath>) -> bool {
    (kind == WatchEventKind::Any || kind == WatchEventKind::Create || kind == WatchEventKind::Modify
        || kind == WatchEventKind::Remove) && (paths.len() == 0 || exists|i: int|
        0 <= i < paths.len() && style_path_relevant(#[trigger] paths[i]))
}

/// Whether a file-system event should reload the styles.
pub fn style_watch_event_should_reload(kind: WatchEventKind, paths: &Vec<WatchedPath>) -> (reload: bool)
    ensures
        reload == should_reload_spec(kind, paths@),
{
    if !(kind == WatchEventKind::Any || kind == WatchEventKind::Create || kind == WatchEventKind::Modify
        || kind == WatchEventKind::Remove) {
        return false;
    }
    if paths.len() == 0 {
        return true;
    }
    let mut i: usize = 0;
    while i < paths.len()
        invariant
            kind == WatchEventKind::Any || kind == WatchEventKind::Create || kind == WatchEventKind::Modify
                || kind == WatchEventKind::Remove,
            paths@.len() > 0,
            i <= paths@.len(),
            forall|j: int| 0 <= j < i ==> !style_path_relevant(#[trigger] paths@[j]),
        decreases paths@.len() - i,
    {
        let path = &paths[i];
        let relevant = path.is_dir || match &path.extension {
            Some(e) => eq_ignore_ascii_case(e.as_str(), "kdl"),
            None => false,
        };
        if relevant {
            assert(style_path_relevant(paths@[i as int]));
            return true;
        }
        i = i + 1;
    }
    false
}

/// A style file as polling sees it: its path, modification time and size.
#[derive(Debug)]
pub struct StyleFile {
    pub path: String,
    /// Modification time in milliseconds since the Unix epoch, if known.
    pub modified: Option<u64>,
    pub len: u64,
}

/// The plain content of a style file record.
pub struct StyleFileView {
    pub path: Seq<char>,
    pub modified: Option<u64>,
    pub len: u64,
}

impl View for StyleFile {
    type V = StyleFileView;

    open spec fn view(&self) -> StyleFileView {
        StyleFileView { path: self.path@, modified: self.modified, len: self.len }
    }
}

/// The records with each run of equal paths reduced to its first record.
pub open spec fn dedup_paths(s: Seq<StyleFileView>) -> Seq<StyleFileView>
    decreases s.len(),
{
    if s.len() == 0 {
        s
    } else {
        let d = dedup_paths(s.drop_last());
        if s.len() >= 2 && s[s.len() - 2].path == s.last().path {
            d
        } else {
            d.push(s.last())
        }
    }
}

/// The paths of the records.
pub open spec fn file_paths(files: Seq<StyleFile>) -> Seq<Seq<char>> {
    files.map_values(|f: StyleFile| f.path@)
}

/// Each record with rank zero, so that files sort by path alone.
pub open spec fn zero_ranks(n: nat) -> Seq<i64> {
    Seq::new(n, |i: int| 0i64)
}

/// `snapshot` holds the records sorted by path (ties in their input
/// order), with each run of equal paths reduced to its first record.
pub open spec fn snapshot_of(snapshot: Seq<StyleFileView>, files: Seq<StyleFile>) -> bool {
    exists|order: Seq<usize>|
        #![trigger stably_sorted(zero_ranks(files.len()), file_paths(files), order, files.len() as int)]
        stably_sorted(zero_ranks(files.len()), file_paths(files), order, files.len() as int)
        && snapshot == dedup_paths(Seq::new(files.len(), |i: int| files[order[i] as int]@))
}

/// The polling snapshot of the collected style files.
pub fn style_files_snapshot(files: &Vec<StyleFile>) -> (snapshot: Vec<StyleFile>)
    ensures
        snapshot_of(snapshot@.map_values(|f: StyleFile| f@), files@),
{
    let mut ranks: Vec<i64> = Vec::new();
    let mut paths: Vec<String> = Vec::new();
    let mut i: usize = 0;
    while i < files.len()
        invariant
            i <= files@.len(),
            ranks@ == zero_ranks(files@.len()).take(i as int),
            paths@.map_values(|s: String| s@) == file_paths(files@).take(i as int),
        decreases files@.len() - i,
    {
        ranks.push(0);
        let ghost before = paths@;
        paths.push(files[i].path.clone());
        assert(ranks@ =~= zero_ranks(files@.len()).take(i as int + 1));
        assert(paths@.map_values(|s: String| s@) =~= file_paths(files@).take(i as int + 1)) by {
            assert(paths@.map_values(|s: String| s@) =~= before.map_values(|s: String| s@).push(files@[i as int].path@));
        }
        i = i + 1;
    }
    assert(ranks@ =~= zero_ranks(files@.len()));
    assert(paths@.map_values(|s: String| s@) =~= file_paths(files@));
    let order = stable_order(&ranks, &paths);
    let ghost sorted = Seq::new(files@.len(), |t: int| files@[order@[t] as int]@);
    let mut snapshot: Vec<StyleFile> = Vec::new();
    let mut j: usize = 0;
    while j < order.len()
        invariant
            stably_sorted(zero_ranks(files@.len()), file_paths(files@), order@, files@.len() as int),
            sorted == Seq::new(files@.len(), |t: int| files@[order@[t] as int]@),
            j <= order@.len(),
            order@.len() == files@.len(),
            snapshot@.map_values(|f: StyleFile| f@) == dedup_paths(sorted.take(j as int)),
        decreases order@.len() - j,
    {
        let p = order[j];
        let ghost prefix = sorted.take(j as int + 1);
        assert(prefix.drop_last() =~= sorted.take(j as int));
        assert(prefix.last() == files@[p as int]@);
        let duplicate = j > 0 && str_eq(files[order[j - 1]].path.as_str(), files[p].path.as_str());
        if !duplicate {
            let record = StyleFile { path: files[p].path.clone(), modified: files[p].modified, len: files[p].len };
            let ghost before = snapshot@;
            snapshot.push(record);
            assert(snapshot@.map_values(|f: StyleFile| f@) =~= before.map_values(|f: StyleFile| f@).push(files@[p as int]@));
        }
        j = j + 1;
    }
    assert(sorted.take(order@.len() as int) =~= sorted);
    snapshot
}

} // verus!

verus! {

/// The polling snapshot is determined by the collected records: two
/// snapshots of the same records are equal.
pub proof fn law_snapshot_is_determined(a: Seq<StyleFileView>, b: Seq<StyleFileView>, files: Seq<StyleFile>)
    requires
        snapshot_of(a, files),
        snapshot_of(b, files),
    ensures
        a == b,
{
    let ranks = zero_ranks(files.len());
    let names = file_paths(files);
    let n = files.len() as int;
    let oa = choose|order: Seq<usize>|
        #![trigger stably_sorted(ranks, names, order, n)]
        stably_sorted(ranks, names, order, n)
        && a == dedup_paths(Seq::new(files.len(), |i: int| files[order[i] as int]@));
    let ob = choose|order: Seq<usize>|
        #![trigger stably_sorted(ranks, names, order, n)]
        stably_sorted(ranks, names, order, n)
        && b == dedup_paths(Seq::new(files.len(), |i: int| files[order[i] as int]@));
    crate::order::lemma_stable_order_unique(ranks, names, oa, ob, n);
}

} // verus!

verus! {

/// How the wait for a watcher signal ended.
#[derive(Debug, Clone, Copy, PartialEq, Eq, Structural)]
pub enum WatchWait {
    /// The watcher signalled a change.
    Signalled,
    /// Nothing came before the timeout.
    TimedOut,
    /// The watcher is gone.
    Disconnected,
    /// The wait itself failed.
    Failed,
}

/// What the style watcher does after a wait.
#[derive(Debug, Clone, Copy, PartialEq, Eq, Structural)]
pub enum StyleWatchStep {
    /// Take the new snapshot and reload the styles.
    Reload,
    /// Wait again.
    Wait,
    /// Stop watching.
    Stop,
}

/// One round of the style watcher: a signal or a changed snapshot reloads
/// the styles; otherwise a lost watcher or a failed wait stops it, and a
/// timeout waits again.
pub fn style_watch_step(wait: WatchWait, snapshot_changed: bool) -> (step: StyleWatchStep)
    ensures
        step == (if wait == WatchWait::Signalled || snapshot_changed {
            StyleWatchStep::Reload
        } else if wait == WatchWait::Disconnected || wait == WatchWait::Failed {
            StyleWatchStep::Stop
        } else {
            StyleWatchStep::Wait
        }),
{
    if wait == WatchWait::Signalled || snapshot_changed {
        StyleWatchStep::Reload
    } else if wait == WatchWait::Disconnected || wait == WatchWait::Failed {
        StyleWatchStep::Stop
    } else {
        StyleWatchStep::Wait
    }
}

} // verus!
