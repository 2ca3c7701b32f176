//! The Raindrop import dialog: which PDFs are ticked, where they go, and
//! what starting the import asks for.

use vstd::prelude::*;

use crate::model::FolderId;
use crate::move_picker::toggled_open;
use crate::raindrop::{
    destination_spec, preserves_structure_spec, raindrop_import_destination, raindrop_import_preserves_structure,
    raindrop_import_root_folder, root_folder_spec, RaindropImportDestination,
};
use crate::seqs::vec_contains_u64;
use crate::text::{decimal, decimal_string, trim, trim_spec};

verus! {

/// The import dialog's choices.
#[derive(Debug)]
pub struct RaindropImportDialog {
    /// The ids of the PDFs the loaded preview lists, in its order; `None`
    /// while it loads.
    pub preview_pdf_ids: Option<Vec<u64>>,
    /// The ids of the PDFs ticked for import.
    pub selected_pdf_ids: Vec<u64>,
    pub destination: RaindropImportDestination,
    pub location_menu_open: bool,
    /// The PDFs go into a new folder, named below.
    pub new_folder_active: bool,
    pub new_folder_name: String,
    /// The folders open in the location menu's tree.
    pub expanded_location_folders: Vec<FolderId>,
}

/// What "Import" asks for.
#[derive(Debug, PartialEq, Eq)]
pub enum RaindropImportRequest {
    /// Nothing to import.
    Nothing,
    /// The import cannot start; the error shown.
    Refused { error: String },
    /// Import these PDFs (in the preview's order) with these choices,
    /// showing `status`.
    Start {
        pdf_ids: Vec<u64>,
        preserve_structure: bool,
        root_folder: Option<FolderId>,
        new_folder_name: Option<String>,
        status: String,
    },
}

/// The preview's PDFs that are ticked, in the preview's order.
pub open spec fn ticked(preview: Seq<u64>, selected: Seq<u64>) -> Seq<u64> {
    preview.filter(|id: u64| selected.contains(id))
}

/// The status shown when an import of `count` PDFs starts.
pub open spec fn importing_status(count: nat) -> Seq<char> {
    "Importing "@ + decimal(count) + " Raindrop PDFs..."@
}

/// The error shown when the preview has not loaded.
pub open spec fn still_loading_error() -> Seq<char> {
    "Raindrop import metadata is still loading. Try again once the list appears."@
}

/// The error shown when a new folder is chosen but not named.
pub open spec fn unnamed_folder_error() -> Seq<char> {
    "Enter a new folder name before importing to a new folder."@
}

/// The same choices in the dialog, apart from the ticked PDFs.
pub open spec fn same_place(a: RaindropImportDialog, b: RaindropImportDialog) -> bool {
    &&& a.preview_pdf_ids == b.preview_pdf_ids
    &&& a.destination == b.destination
    &&& a.location_menu_open == b.location_menu_open
    &&& a.new_folder_active == b.new_folder_active
    &&& a.new_folder_name@ == b.new_folder_name@
    &&& a.expanded_location_folders@ == b.expanded_location_folders@
}

fn copy_ids(ids: &Vec<u64>) -> (copy: Vec<u64>)
    ensures
        copy@ == ids@,
{
    crate::seqs::vec_copy_u64(ids)
}

fn without(ids: &Vec<u64>, id: u64) -> (kept: Vec<u64>)
    ensures
        forall|x: u64| kept@.contains(x) == (x != id && ids@.contains(x)),
{
    let mut kept: Vec<u64> = Vec::new();
    let mut i: usize = 0;
    while i < ids.len()
        invariant
            i <= ids@.len(),
            forall|x: u64| kept@.contains(x) == (x != id && ids@.take(i as int).contains(x)),
        decreases ids@.len() - i,
    {
        let x = ids[i];
        let ghost before = kept@;
        proof {
            assert(ids@.take(i as int + 1) =~= ids@.take(i as int).push(x));
        }
        if x != id {
            kept.push(x);
        }
        proof {
            assert forall|y: u64| kept@.contains(y) == (y != id && ids@.take(i as int + 1).contains(y)) by {
                let prefix = ids@.take(i as int);
                if prefix.contains(y) {
                    let t = prefix.index_of(y);
                    assert(prefix.push(x)[t] == y);
                }
                if ids@.take(i as int + 1).contains(y) && y != x {
                    let t = ids@.take(i as int + 1).index_of(y);
                    assert(prefix[t] == y);
                }
                if kept@.contains(y) && y != x {
                    let t = kept@.index_of(y);
                    assert(before[t] == y);
                }
                if before.contains(y) {
                    let t = before.index_of(y);
                    assert(kept@[t] == y);
                }
                if y == x && y != id {
                    assert(kept@[kept@.len() - 1] == y);
                    assert(ids@.take(i as int + 1)[i as int] == y);
                }
            }
        }
        i = i + 1;
    }
    assert(ids@.take(ids@.len() as int) =~= ids@);
    kept
}

impl RaindropImportDialog {
    /// A preview arrived: every PDF it lists is ticked and the location
    /// menu closes.
    pub fn preview_loaded(&mut self, pdf_ids: Vec<u64>)
        ensures
            final(self).preview_pdf_ids == Some(pdf_ids),
            final(self).selected_pdf_ids@ == pdf_ids@,
            !final(self).location_menu_open,
            final(self).destination == old(self).destination,
            final(self).new_folder_active == old(self).new_folder_active,
            final(self).new_folder_name@ == old(self).new_folder_name@,
            final(self).expanded_location_folders@ == old(self).expanded_location_folders@,
    {
        self.selected_pdf_ids = copy_ids(&pdf_ids);
        self.preview_pdf_ids = Some(pdf_ids);
        self.location_menu_open = false;
    }

    /// Ticks or unticks one PDF.
    pub fn pdf_toggled(&mut self, id: u64, selected: bool)
        ensures
            forall|x: u64| final(self).selected_pdf_ids@.contains(x) == (if x == id {
                selected
            } else {
                old(self).selected_pdf_ids@.contains(x)
            }),
            same_place(*final(self), *old(self)),
    {
        if selected {
            if !vec_contains_u64(&self.selected_pdf_ids, id) {
                let ghost before = self.selected_pdf_ids@;
                self.selected_pdf_ids.push(id);
                proof {
                    assert forall|x: u64| self.selected_pdf_ids@.contains(x) == (x == id || before.contains(x)) by {
                        if before.contains(x) {
                            let t = before.index_of(x);
                            assert(self.selected_pdf_ids@[t] == x);
                        }
                        if self.selected_pdf_ids@.contains(x) && x != id {
                            let t = self.selected_pdf_ids@.index_of(x);
                            assert(before[t] == x);
                        }
                        if x == id {
                            assert(self.selected_pdf_ids@[before.len() as int] == x);
                        }
                    }
                }
            }
        } else {
            self.selected_pdf_ids = without(&self.selected_pdf_ids, id);
        }
    }

    /// Ticks every PDF of the preview, when it has loaded.
    pub fn select_all(&mut self)
        ensures
            match old(self).preview_pdf_ids {
                Some(ids) => final(self).selected_pdf_ids@ == ids@,
                None => final(self).selected_pdf_ids@ == old(self).selected_pdf_ids@,
            },
            same_place(*final(self), *old(self)),
    {
        if let Some(ids) = &self.preview_pdf_ids {
            self.selected_pdf_ids = copy_ids(ids);
        }
    }

    /// Opens or closes the location menu.
    pub fn toggle_location_menu(&mut self)
        ensures
            final(self).location_menu_open == !old(self).location_menu_open,
            final(self).destination == old(self).destination,
            final(self).selected_pdf_ids@ == old(self).selected_pdf_ids@,
            final(self).expanded_location_folders@ == old(self).expanded_location_folders@,
    {
        self.location_menu_open = !self.location_menu_open;
    }

    /// Opens `folder_id` in the location menu's tree, or closes it when
    /// open.
    pub fn toggle_location_folder(&mut self, folder_id: FolderId)
        ensures
            forall|x: FolderId| final(self).expanded_location_folders@.contains(x)
                == toggled_open(old(self).expanded_location_folders@, folder_id, x),
            final(self).destination == old(self).destination,
            final(self).location_menu_open == old(self).location_menu_open,
            final(self).selected_pdf_ids@ == old(self).selected_pdf_ids@,
    {
        if vec_contains_u64(&self.expanded_location_folders, folder_id) {
            self.expanded_location_folders = without(&self.expanded_location_folders, folder_id);
        } else {
            let ghost before = self.expanded_location_folders@;
            self.expanded_location_folders.push(folder_id);
            proof {
                assert forall|x: FolderId| self.expanded_location_folders@.contains(x) == (before.contains(x) || x == folder_id) by {
                    if before.contains(x) {
                        let t = before.index_of(x);
                        assert(self.expanded_location_folders@[t] == x);
                    }
                    if self.expanded_location_folders@.contains(x) && x != folder_id {
                        let t = self.expanded_location_folders@.index_of(x);
                        assert(before[t] == x);
                    }
                    if x == folder_id {
                        assert(self.expanded_location_folders@[before.len() as int] == x);
                    }
                }
            }
        }
    }

    /// Unticks every PDF.
    pub fn clear_all(&mut self)
        ensures
            final(self).selected_pdf_ids@.len() == 0,
            same_place(*final(self), *old(self)),
    {
        self.selected_pdf_ids = Vec::new();
    }

    /// Turns mirroring of Raindrop's collections on or off, keeping the
    /// local folder.
    pub fn preserve_structure_toggled(&mut self, preserve_structure: bool)
        ensures
            final(self).destination == destination_spec(preserve_structure, root_folder_spec(old(self).destination)),
            final(self).selected_pdf_ids@ == old(self).selected_pdf_ids@,
            final(self).location_menu_open == old(self).location_menu_open,
            final(self).new_folder_active == old(self).new_folder_active,
            final(self).new_folder_name@ == old(self).new_folder_name@,
    {
        let root = raindrop_import_root_folder(&self.destination);
        self.destination = raindrop_import_destination(preserve_structure, root);
    }

    /// Chooses the local folder (or the root): the menu closes and no new
    /// folder is made.
    pub fn root_changed(&mut self, folder_id: Option<FolderId>)
        ensures
            final(self).destination == destination_spec(preserves_structure_spec(old(self).destination), folder_id),
            !final(self).location_menu_open,
            !final(self).new_folder_active,
            final(self).new_folder_name@.len() == 0,
            final(self).selected_pdf_ids@ == old(self).selected_pdf_ids@,
    {
        let preserve = raindrop_import_preserves_structure(&self.destination);
        self.destination = raindrop_import_destination(preserve, folder_id);
        self.location_menu_open = false;
        self.new_folder_active = false;
        self.new_folder_name = String::new();
    }

    /// Chooses a new folder at the root, to be named: the menu closes.
    pub fn start_new_folder(&mut self)
        ensures
            final(self).destination == destination_spec(preserves_structure_spec(old(self).destination), None),
            !final(self).location_menu_open,
            final(self).new_folder_active,
            final(self).new_folder_name@.len() == 0,
            final(self).selected_pdf_ids@ == old(self).selected_pdf_ids@,
    {
        let preserve = raindrop_import_preserves_structure(&self.destination);
        self.destination = raindrop_import_destination(preserve, None);
        self.location_menu_open = false;
        self.new_folder_active = true;
        self.new_folder_name = String::new();
    }

    /// What "Import" asks for: nothing without ticked PDFs; an error while
    /// the preview loads; nothing when none of the ticked PDFs is listed; an
    /// error when a new folder is chosen but its name is blank; otherwise
    /// the ticked PDFs of the preview, in its order, with the destination's
    /// choices and the trimmed new folder name.
    pub fn import_request(&self) -> (request: RaindropImportRequest)
        ensures
            self.selected_pdf_ids@.len() == 0 ==> request == RaindropImportRequest::Nothing,
            self.selected_pdf_ids@.len() > 0 ==> match self.preview_pdf_ids {
                None => request matches RaindropImportRequest::Refused { error } && error@ == still_loading_error(),
                Some(preview) => {
                    let pdfs = ticked(preview@, self.selected_pdf_ids@);
                    if pdfs.len() == 0 {
                        request == RaindropImportRequest::Nothing
                    } else if self.new_folder_active && trim_spec(self.new_folder_name@).len() == 0 {
                        request matches RaindropImportRequest::Refused { error } && error@ == unnamed_folder_error()
                    } else {
                        request matches RaindropImportRequest::Start {
                            pdf_ids,
                            preserve_structure,
                            root_folder,
                            new_folder_name,
                            status,
                        } && pdf_ids@ == pdfs && preserve_structure == preserves_structure_spec(self.destination)
                            && root_folder == root_folder_spec(self.destination) && status@ == importing_status(pdfs.len())
                            && (if self.new_folder_active {
                            new_folder_name matches Some(name) && name@ == trim_spec(self.new_folder_name@)
                        } else {
                            new_folder_name.is_none()
                        })
                    }
                },
            },
    {
        proof {
            reveal_strlit("Raindrop import metadata is still loading. Try again once the list appears.");
            reveal_strlit("Enter a new folder name before importing to a new folder.");
            reveal_strlit("Importing ");
            reveal_strlit(" Raindrop PDFs...");
        }
        if self.selected_pdf_ids.len() == 0 {
            return RaindropImportRequest::Nothing;
        }
        let preview = match &self.preview_pdf_ids {
            None => {
                return RaindropImportRequest::Refused {
                    error: "Raindrop import metadata is still loading. Try again once the list appears.".to_owned(),
                };
            },
            Some(p) => p,
        };
        let ghost pred = |id: u64| self.selected_pdf_ids@.contains(id);
        let mut pdf_ids: Vec<u64> = Vec::new();
        let mut i: usize = 0;
        while i < preview.len()
            invariant
                i <= preview@.len(),
                pred == |id: u64| self.selected_pdf_ids@.contains(id),
                pdf_ids@ == preview@.take(i as int).filter(pred),
            decreases preview@.len() - i,
        {
            let id = preview[i];
            proof {
                assert(preview@.take(i as int + 1) =~= preview@.take(i as int).push(id));
                preview@.take(i as int).lemma_filter_push(id, pred);
            }
            if vec_contains_u64(&self.selected_pdf_ids, id) {
                pdf_ids.push(id);
            }
            i = i + 1;
        }
        assert(preview@.take(preview@.len() as int) =~= preview@);
        if pdf_ids.len() == 0 {
            return RaindropImportRequest::Nothing;
        }
        let name = trim(self.new_folder_name.as_str());
        if self.new_folder_active && name.unicode_len() == 0 {
            return RaindropImportRequest::Refused {
                error: "Enter a new folder name before importing to a new folder.".to_owned(),
            };
        }
        let mut status = "Importing ".to_owned();
        let count = decimal_string(pdf_ids.len() as u64);
        status.append(count.as_str());
        status.append(" Raindrop PDFs...");
        RaindropImportRequest::Start {
            preserve_structure: raindrop_import_preserves_structure(&self.destination),
            root_folder: raindrop_import_root_folder(&self.destination),
            new_folder_name: if self.new_folder_active { Some(name) } else { None },
            status,
            pdf_ids,
        }
    }
}

} // verus!
