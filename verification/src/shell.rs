//! Shell-level decisions: the window title, the device name used for sync,
//! which library syncs next, and what a finished sync or a timer tick
//! leads to.

use vstd::prelude::*;

use crate::registry::{find_profile, lemma_profile_position, profile_position, LibraryProfile};
use crate::state::AppMode;
use crate::text::{decimal, decimal_string, file_name, path_file_name, str_eq, trim, trim_spec};

verus! {

/// The window title: the open document's file name before the app name in
/// the viewer, the app name alone otherwise.
pub open spec fn window_title_spec(mode: AppMode, document_path: Option<Seq<char>>) -> Seq<char> {
    if mode == AppMode::Library || document_path.is_none() || path_file_name(document_path.unwrap()).is_none() {
        "PDF-Folio"@
    } else {
        path_file_name(document_path.unwrap()).unwrap() + " - PDF-Folio"@
    }
}

/// The window title.
pub fn title(mode: AppMode, document_path: Option<&str>) -> (title: String)
    ensures
        title@ == window_title_spec(mode, match document_path { Some(p) => Some(p@), None => None }),
{
    if mode == AppMode::Library {
        return "PDF-Folio".to_owned();
    }
    match document_path {
        None => "PDF-Folio".to_owned(),
        Some(path) => match file_name(path) {
            None => "PDF-Folio".to_owned(),
            Some(name) => {
                let mut title = name;
                title.append(" - PDF-Folio");
                title
            },
        },
    }
}

/// The device name used for sync: the trimmed host name, or
/// "local-device" when it cannot be read or is blank.
pub open spec fn device_id_spec(hostname: Option<Seq<char>>) -> Seq<char> {
    if hostname.is_some() && trim_spec(hostname.unwrap()).len() > 0 {
        trim_spec(hostname.unwrap())
    } else {
        "local-device"@
    }
}

/// The device name used for sync, from the host name file's contents.
pub fn device_id_from_hostname(hostname: Option<String>) -> (id: String)
    ensures
        id@ == device_id_spec(match hostname { Some(h) => Some(h@), None => None }),
{
    match hostname {
        Some(contents) => {
            let trimmed = trim(contents.as_str());
            if trimmed.unicode_len() > 0 {
                trimmed
            } else {
                "local-device".to_owned()
            }
        },
        None => "local-device".to_owned(),
    }
}

/// Which library is syncing and which wait for their turn.
#[derive(Debug)]
pub struct SyncQueue {
    pub in_progress: Option<String>,
    /// The libraries waiting, each once.
    pub queued: Vec<String>,
}

/// What a sync request leads to.
#[derive(Debug)]
pub enum SyncDecision {
    /// Not signed in, or the library is unknown: nothing happens.
    Skip,
    /// Another sync runs: the library waits its turn.
    Queued,
    /// Start syncing this library.
    Start(LibraryProfile),
}

/// Whether a queued id is other than `id`.
pub open spec fn other_than(id: Seq<char>) -> spec_fn(Seq<char>) -> bool {
    |q: Seq<char>| q != id
}

/// The queued ids without `id`.
pub open spec fn without_id(queued: Seq<Seq<char>>, id: Seq<char>) -> Seq<Seq<char>> {
    queued.filter(other_than(id))
}

/// The queued ids' characters.
pub open spec fn queue_view(queued: Seq<String>) -> Seq<Seq<char>> {
    queued.map_values(|s: String| s@)
}

fn queue_contains(queued: &Vec<String>, id: &str) -> (found: bool)
    ensures
        found == queue_view(queued@).contains(id@),
{
    let ghost view = queue_view(queued@);
    let mut i: usize = 0;
    while i < queued.len()
        invariant
            view == queue_view(queued@),
            i <= queued@.len(),
            forall|j: int| 0 <= j < i ==> view[j] != id@,
        decreases queued@.len() - i,
    {
        if str_eq(queued[i].as_str(), id) {
            assert(view[i as int] == id@);
            return true;
        }
        i = i + 1;
    }
    false
}

fn queue_remove(queued: &Vec<String>, id: &str) -> (kept: Vec<String>)
    ensures
        queue_view(kept@) == without_id(queue_view(queued@), id@),
{
    let ghost view = queue_view(queued@);
    let ghost pred = other_than(id@);
    let mut kept: Vec<String> = Vec::new();
    let mut i: usize = 0;
    while i < queued.len()
        invariant
            view == queue_view(queued@),
            pred == other_than(id@),
            i <= queued@.len(),
            queue_view(kept@) == view.take(i as int).filter(pred),
        decreases queued@.len() - i,
    {
        let ghost item = view[i as int];
        proof {
            assert(view.take(i as int + 1) =~= view.take(i as int).push(item));
            view.take(i as int).lemma_filter_push(item, pred);
        }
        if !str_eq(queued[i].as_str(), id) {
            let ghost before = kept@;
            kept.push(queued[i].clone());
            assert(queue_view(kept@) =~= queue_view(before).push(item));
        }
        i = i + 1;
    }
    assert(view.take(view.len() as int) =~= view);
    kept
}

proof fn lemma_without_id_distinct(queued: Seq<Seq<char>>, id: Seq<char>)
    requires
        queued.no_duplicates(),
    ensures
        without_id(queued, id).no_duplicates(),
    decreases queued.len(),
{
    broadcast use vstd::seq_lib::group_filter_ensures;
    if queued.len() > 0 {
        let rest = queued.drop_last();
        let last = queued.last();
        assert(rest.no_duplicates()) by {
            assert forall|i: int, j: int| 0 <= i < rest.len() && 0 <= j < rest.len() && i != j implies rest[i] != rest[j] by {
                assert(rest[i] == queued[i] && rest[j] == queued[j]);
            }
        }
        lemma_without_id_distinct(rest, id);
        let pred = other_than(id);
        assert(rest.push(last) =~= queued);
        rest.lemma_filter_push(last, pred);
        assert(rest.filter(pred).no_duplicates());
        if pred(last) {
            assert(!rest.filter(pred).contains(last)) by {
                if rest.filter(pred).contains(last) {
                    rest.lemma_filter_contains_rev(pred, last);
                    let k = rest.index_of(last);
                    assert(queued[k] == rest[k]);
                    assert(queued[queued.len() - 1] == last);
                }
            }
            let f = rest.filter(pred);
            assert forall|i: int, j: int| 0 <= i < f.push(last).len() && 0 <= j < f.push(last).len() && i != j
                implies f.push(last)[i] != f.push(last)[j] by {
                if i == f.len() {
                    assert(f[j] != last);
                } else if j == f.len() {
                    assert(f[i] != last);
                }
            }
        }
    }
}

impl SyncQueue {
    /// Each library waits at most once.
    pub open spec fn wf(&self) -> bool {
        queue_view(self.queued@).no_duplicates()
    }

    /// Handles a request to sync `library_id`: nothing when signed out;
    /// queued (once) while another sync runs; otherwise the library's sync
    /// starts and it leaves the queue, or nothing happens when it is not
    /// registered.
    pub fn request_sync(&mut self, signed_in: bool, profiles: &Vec<LibraryProfile>, library_id: &str) -> (decision: SyncDecision)
        ensures
            old(self).wf() ==> final(self).wf(),
            !signed_in ==> decision is Skip && final(self).in_progress == old(self).in_progress
                && final(self).queued@ == old(self).queued@,
            signed_in && old(self).in_progress.is_some() ==> decision is Queued
                && final(self).in_progress == old(self).in_progress
                && queue_view(final(self).queued@) == (if queue_view(old(self).queued@).contains(library_id@) {
                    queue_view(old(self).queued@)
                } else {
                    queue_view(old(self).queued@).push(library_id@)
                }),
            signed_in && old(self).in_progress.is_none() && profile_position(profiles@, library_id@) < 0
                ==> decision is Skip && final(self).in_progress == old(self).in_progress
                && final(self).queued@ == old(self).queued@,
            signed_in && old(self).in_progress.is_none() && profile_position(profiles@, library_id@) >= 0 ==> {
                let p = profiles@[profile_position(profiles@, library_id@)];
                &&& decision is Start
                &&& decision->Start_0@ == p@
                &&& final(self).in_progress.is_some() && final(self).in_progress.unwrap()@ == p.id@
                &&& queue_view(final(self).queued@) == without_id(queue_view(old(self).queued@), p.id@)
            },
    {
        proof {
            lemma_profile_position(profiles@, library_id@);
        }
        if !signed_in {
            return SyncDecision::Skip;
        }
        if self.in_progress.is_some() {
            if !queue_contains(&self.queued, library_id) {
                let ghost before = self.queued@;
                self.queued.push(library_id.to_owned());
                assert(queue_view(self.queued@) =~= queue_view(before).push(library_id@));
                proof {
                    let v = queue_view(before);
                    if v.no_duplicates() {
                        assert forall|i: int, j: int| 0 <= i < v.push(library_id@).len() && 0 <= j < v.push(library_id@).len() && i != j
                            implies v.push(library_id@)[i] != v.push(library_id@)[j] by {
                            if i == v.len() {
                                assert(v[j] != library_id@);
                            } else if j == v.len() {
                                assert(v[i] != library_id@);
                            }
                        }
                    }
                }
            }
            return SyncDecision::Queued;
        }
        let index = match find_profile(profiles, library_id) {
            None => return SyncDecision::Skip,
            Some(i) => i,
        };
        let profile = profiles[index].duplicate();
        proof {
            if queue_view(self.queued@).no_duplicates() {
                lemma_without_id_distinct(queue_view(self.queued@), profile.id@);
            }
        }
        self.queued = queue_remove(&self.queued, profile.id.as_str());
        self.in_progress = Some(profile.id.clone());
        SyncDecision::Start(profile)
    }

    /// The library whose sync starts next once the current one ends: one of
    /// the queued libraries, if any.
    pub fn next_queued(&self) -> (next: Option<String>)
        ensures
            next.is_none() == (self.queued@.len() == 0),
            next.is_some() ==> queue_view(self.queued@).contains(next.unwrap()@),
    {
        if self.queued.len() == 0 {
            None
        } else {
            assert(queue_view(self.queued@)[0] == self.queued@[0]@);
            Some(self.queued[0].clone())
        }
    }
}

} // verus!

verus! {

/// What one library's sync did: blobs uploaded or failed, CRDT operations
/// generated, pushed and pulled, and what was hydrated or found missing.
#[derive(Debug, Clone, Copy)]
pub struct SyncCounts {
    pub uploaded_blobs: usize,
    pub failed_blobs: usize,
    pub generated_operations: usize,
    pub pushed_operations: usize,
    pub pulled_operations: usize,
    pub hydrated_entries: usize,
    pub relinked_entries: usize,
    pub hydrated_folders: usize,
    pub hydrated_memberships: usize,
    pub missing_blobs: usize,
}

/// Whether a sync changed anything.
pub open spec fn sync_changed(c: SyncCounts) -> bool {
    c.uploaded_blobs > 0 || c.failed_blobs > 0 || c.generated_operations > 0 || c.pushed_operations > 0
        || c.pulled_operations > 0 || c.hydrated_entries > 0 || c.relinked_entries > 0 || c.hydrated_folders > 0
        || c.hydrated_memberships > 0 || c.missing_blobs > 0
}

/// Whether a sync brought changes into the library from elsewhere.
pub open spec fn sync_brought_changes(c: SyncCounts) -> bool {
    c.pulled_operations > 0 || c.hydrated_entries > 0 || c.relinked_entries > 0 || c.hydrated_folders > 0
        || c.hydrated_memberships > 0 || c.missing_blobs > 0
}

/// The status shown after a sync of the library named `name` that changed
/// something.
pub open spec fn synced_status(name: Seq<char>, c: SyncCounts) -> Seq<char> {
    "Synced "@ + name + ": "@ + decimal(c.uploaded_blobs as nat) + " PDFs, "@ + decimal(c.generated_operations as nat)
        + " new, "@ + decimal(c.pushed_operations as nat) + " pushed, "@ + decimal(c.pulled_operations as nat)
        + " pulled, "@ + decimal(c.hydrated_entries as nat) + " entries hydrated, "@ + decimal(
        c.relinked_entries as nat,
    ) + " PDFs healed, "@ + decimal(c.hydrated_folders as nat) + " folders, "@ + decimal(
        c.hydrated_memberships as nat,
    ) + " memberships hydrated, "@ + decimal(c.missing_blobs as nat) + " PDFs missing."@
}

/// What follows the end of a library's sync.
#[derive(Debug)]
pub struct SyncFollowUp {
    /// The status to show, if it changes.
    pub status: Option<String>,
    /// Refresh the library's preview in the switcher.
    pub refresh_preview: bool,
    /// Reload the folders and entries on screen.
    pub refresh_library: bool,
    /// Start the next queued sync.
    pub start_next: bool,
}

/// The name a library is shown under in sync messages: its profile's name,
/// or its id when it is not registered.
pub open spec fn sync_name(profiles: Seq<LibraryProfile>, library_id: Seq<char>) -> Seq<char> {
    let p = profile_position(profiles, library_id);
    if p >= 0 {
        profiles[p].name@
    } else {
        library_id
    }
}

fn append_count(status: &mut String, count: usize, text: &str)
    ensures
        final(status)@ == old(status)@ + decimal(count as nat) + text@,
{
    let digits = decimal_string(count as u64);
    status.append(digits.as_str());
    status.append(text);
}

impl SyncQueue {
    /// A library's sync ended, with its counts or an error. It is no longer
    /// in progress (when it was the one); a sync that changed something is
    /// reported and its preview refreshed; the library on screen reloads when
    /// the sync brought changes to it; an error pauses syncing with a
    /// message; and the next queued library, if any, syncs next.
    pub fn sync_finished(
        &mut self,
        library_id: &str,
        active_library_id: &str,
        profiles: &Vec<LibraryProfile>,
        result: Result<SyncCounts, String>,
    ) -> (follow_up: SyncFollowUp)
        ensures
            final(self).in_progress == (match old(self).in_progress {
                Some(id) => if id@ == library_id@ { None } else { Some(id) },
                None => None,
            }),
            final(self).queued@ == old(self).queued@,
            follow_up.start_next == (old(self).queued@.len() > 0),
            match result {
                Ok(c) => {
                    &&& follow_up.refresh_preview == sync_changed(c)
                    &&& follow_up.refresh_library == (library_id@ == active_library_id@ && sync_brought_changes(c))
                    &&& if sync_changed(c) {
                        follow_up.status matches Some(s) && s@ == synced_status(sync_name(profiles@, library_id@), c)
                    } else {
                        follow_up.status.is_none()
                    }
                },
                Err(e) => {
                    &&& !follow_up.refresh_preview
                    &&& !follow_up.refresh_library
                    &&& follow_up.status matches Some(s) && s@ == "Sync paused: "@ + e@
                },
            },
    {
        proof {
            lemma_profile_position(profiles@, library_id@);
            reveal_strlit("Sync paused: ");
            reveal_strlit("Synced ");
            reveal_strlit(": ");
            reveal_strlit(" PDFs, ");
            reveal_strlit(" new, ");
            reveal_strlit(" pushed, ");
            reveal_strlit(" pulled, ");
            reveal_strlit(" entries hydrated, ");
            reveal_strlit(" PDFs healed, ");
            reveal_strlit(" folders, ");
            reveal_strlit(" memberships hydrated, ");
            reveal_strlit(" PDFs missing.");
        }
        let finished = match &self.in_progress {
            Some(id) => str_eq(id.as_str(), library_id),
            None => false,
        };
        if finished {
            self.in_progress = None;
        }
        let start_next = self.queued.len() > 0;
        match result {
            Err(error) => {
                let mut status = "Sync paused: ".to_owned();
                status.append(error.as_str());
                SyncFollowUp { status: Some(status), refresh_preview: false, refresh_library: false, start_next }
            },
            Ok(c) => {
                let changed = c.uploaded_blobs > 0 || c.failed_blobs > 0 || c.generated_operations > 0
                    || c.pushed_operations > 0 || c.pulled_operations > 0 || c.hydrated_entries > 0
                    || c.relinked_entries > 0 || c.hydrated_folders > 0 || c.hydrated_memberships > 0
                    || c.missing_blobs > 0;
                let brought = c.pulled_operations > 0 || c.hydrated_entries > 0 || c.relinked_entries > 0
                    || c.hydrated_folders > 0 || c.hydrated_memberships > 0 || c.missing_blobs > 0;
                let status = if changed {
                    let mut s = "Synced ".to_owned();
                    match find_profile(profiles, library_id) {
                        Some(i) => s.append(profiles[i].name.as_str()),
                        None => s.append(library_id),
                    }
                    s.append(": ");
                    append_count(&mut s, c.uploaded_blobs, " PDFs, ");
                    append_count(&mut s, c.generated_operations, " new, ");
                    append_count(&mut s, c.pushed_operations, " pushed, ");
                    append_count(&mut s, c.pulled_operations, " pulled, ");
                    append_count(&mut s, c.hydrated_entries, " entries hydrated, ");
                    append_count(&mut s, c.relinked_entries, " PDFs healed, ");
                    append_count(&mut s, c.hydrated_folders, " folders, ");
                    append_count(&mut s, c.hydrated_memberships, " memberships hydrated, ");
                    append_count(&mut s, c.missing_blobs, " PDFs missing.");
                    Some(s)
                } else {
                    None
                };
                let active = str_eq(library_id, active_library_id);
                SyncFollowUp { status, refresh_preview: changed, refresh_library: active && brought, start_next }
            },
        }
    }
}

/// What the shell does as it starts.
#[derive(Debug, PartialEq, Eq)]
pub struct StartupPlan {
    /// The document to open.
    pub open_document: Option<String>,
    /// Look for an interrupted Raindrop import to roll back.
    pub check_pending_rollback: bool,
}

/// The startup plan: once signed in, open the file given on the command
/// line, else the document of the previous session, and look for an
/// interrupted import; signed out, nothing yet.
pub fn startup_plan(signed_in: bool, initial_file: Option<String>, session_document: Option<String>) -> (plan: StartupPlan)
    ensures
        plan.open_document == (if !signed_in {
            None
        } else if initial_file.is_some() {
            initial_file
        } else {
            session_document
        }),
        plan.check_pending_rollback == signed_in,
{
    let open_document = if !signed_in {
        None
    } else if initial_file.is_some() {
        initial_file
    } else {
        session_document
    };
    StartupPlan { open_document, check_pending_rollback: signed_in }
}

/// What a tick of the sync timer does.
#[derive(Debug, PartialEq, Eq)]
pub enum SyncTick {
    /// Signed out: nothing.
    Nothing,
    /// Sync the library registry.
    SyncRegistry,
    /// Start the next queued library's sync.
    StartNext,
}

/// A tick of the sync timer: nothing when signed out, the registry when no
/// library waits, else the next library waiting.
pub fn sync_tick(signed_in: bool, queue: &SyncQueue) -> (tick: SyncTick)
    ensures
        tick == (if !signed_in {
            SyncTick::Nothing
        } else if queue.queued@.len() == 0 {
            SyncTick::SyncRegistry
        } else {
            SyncTick::StartNext
        }),
{
    if !signed_in {
        SyncTick::Nothing
    } else if queue.queued.len() == 0 {
        SyncTick::SyncRegistry
    } else {
        SyncTick::StartNext
    }
}

} // verus!
