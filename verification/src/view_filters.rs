//! What the library shows: the search, the tag, reading, recently-opened
//! and missing-file filters, the folder shown and the scroll position, and
//! the view kept aside while a tag pill is followed.
//!
//! The reading filter's kind `F`, the search results `R` and the scroll
//! position `S` are carried as they are: no decision here reads them.

use vstd::prelude::*;

use crate::drag::LibraryDragState;
use crate::model::FolderId;
use crate::text::{trim, trim_spec};

verus! {

/// The filters and position of the library view.
#[derive(Debug)]
pub struct ViewFilters<F, R, S> {
    pub search_query: String,
    /// The results of the last search, with their hit pages; `None` while
    /// no search is shown.
    pub search: Option<R>,
    pub tag_filter: Option<String>,
    pub reading_filter: Option<F>,
    pub recently_opened_filter: bool,
    pub missing_filter: bool,
    pub selected_folder: Option<FolderId>,
    pub scroll_offset: S,
}

/// The view as it was before a tag pill was followed, with the folder then
/// shown in the details panel.
#[derive(Debug)]
pub struct LibraryViewSnapshot<F, R, S> {
    pub filters: ViewFilters<F, R, S>,
    pub details_folder_id: Option<FolderId>,
}

/// The library view and the view it can go back to.
#[derive(Debug)]
pub struct LibraryView<F, R, S> {
    pub filters: ViewFilters<F, R, S>,
    pub before_tag_pill: Option<LibraryViewSnapshot<F, R, S>>,
}

/// The plain content of the filters.
pub struct FiltersView<F, R, S> {
    pub search_query: Seq<char>,
    pub search: Option<R>,
    pub tag_filter: Option<Seq<char>>,
    pub reading_filter: Option<F>,
    pub recently_opened_filter: bool,
    pub missing_filter: bool,
    pub selected_folder: Option<FolderId>,
    pub scroll_offset: S,
}

impl<F, R, S> ViewFilters<F, R, S> {
    pub open spec fn view(&self) -> FiltersView<F, R, S> {
        FiltersView {
            search_query: self.search_query@,
            search: self.search,
            tag_filter: match self.tag_filter {
                Some(t) => Some(t@),
                None => None,
            },
            reading_filter: self.reading_filter,
            recently_opened_filter: self.recently_opened_filter,
            missing_filter: self.missing_filter,
            selected_folder: self.selected_folder,
            scroll_offset: self.scroll_offset,
        }
    }
}

/// The filters shown right after following the pill of `tag`: only that
/// tag, no search, no other filter and no folder, scrolled to `top`.
pub open spec fn tag_pill_filters<F, R, S>(tag: Seq<char>, top: S) -> FiltersView<F, R, S> {
    FiltersView {
        search_query: Seq::empty(),
        search: None,
        tag_filter: Some(tag),
        reading_filter: None,
        recently_opened_filter: false,
        missing_filter: false,
        selected_folder: None,
        scroll_offset: top,
    }
}

/// The filters shown right after clearing them all, scrolled to `top`.
pub open spec fn cleared_filters<F, R, S>(top: S) -> FiltersView<F, R, S> {
    FiltersView {
        search_query: Seq::empty(),
        search: None,
        tag_filter: None,
        reading_filter: None,
        recently_opened_filter: false,
        missing_filter: false,
        selected_folder: None,
        scroll_offset: top,
    }
}

/// The whole view state: the filters, the folder in the details panel and
/// the view kept aside, with that folder, by the last tag pill followed.
pub struct ViewState<F, R, S> {
    pub filters: FiltersView<F, R, S>,
    pub details_folder_id: Option<FolderId>,
    pub before_tag_pill: Option<(FiltersView<F, R, S>, Option<FolderId>)>,
}

/// The view state of `view` with `details_folder_id` in the details panel.
pub open spec fn view_state<F, R, S>(view: LibraryView<F, R, S>, details_folder_id: Option<FolderId>) -> ViewState<F, R, S> {
    ViewState {
        filters: view.filters.view(),
        details_folder_id,
        before_tag_pill: match view.before_tag_pill {
            Some(snapshot) => Some((snapshot.filters.view(), snapshot.details_folder_id)),
            None => None,
        },
    }
}

/// Following the pill of `tag`: the view and its details folder are kept
/// aside, the tag alone is shown from `top`, and no folder is in the
/// details panel.
pub open spec fn after_tag_pill<F, R, S>(state: ViewState<F, R, S>, tag: Seq<char>, top: S) -> ViewState<F, R, S> {
    ViewState {
        filters: tag_pill_filters(tag, top),
        details_folder_id: None,
        before_tag_pill: Some((state.filters, state.details_folder_id)),
    }
}

/// Going back to the view kept aside, if any; it is forgotten either way.
pub open spec fn after_restore<F, R, S>(state: ViewState<F, R, S>) -> ViewState<F, R, S> {
    match state.before_tag_pill {
        Some((filters, details_folder_id)) => ViewState { filters, details_folder_id, before_tag_pill: None },
        None => ViewState { before_tag_pill: None, ..state },
    }
}

impl<F, R, S> LibraryView<F, R, S> {
    /// Follows the pill of `tag`: the current view and the folder shown in
    /// the details panel are kept aside, and the library shows that tag
    /// alone, scrolled to `top`, with no folder in the details panel.
    pub fn tag_pill_clicked(&mut self, details_folder_id: &mut Option<FolderId>, tag: String, top: S)
        ensures
            view_state(*final(self), *final(details_folder_id)) == after_tag_pill(view_state(*old(self), *old(details_folder_id)), tag@, top),
    {
        let mut fresh = ViewFilters {
            search_query: String::new(),
            search: None,
            tag_filter: Some(tag),
            reading_filter: None,
            recently_opened_filter: false,
            missing_filter: false,
            selected_folder: None,
            scroll_offset: top,
        };
        std::mem::swap(&mut self.filters, &mut fresh);
        let details = details_folder_id.take();
        self.before_tag_pill = Some(LibraryViewSnapshot { filters: fresh, details_folder_id: details });
    }

    /// Goes back to the view kept aside by the last tag pill followed, if
    /// any, and forgets it; says whether there was one. Going back drops a
    /// pending entry drag. Without a view kept aside nothing changes.
    pub fn restore_before_tag(&mut self, details_folder_id: &mut Option<FolderId>, drag: &mut Option<LibraryDragState>) -> (restored: bool)
        ensures
            restored == old(self).before_tag_pill.is_some(),
            view_state(*final(self), *final(details_folder_id)) == after_restore(view_state(*old(self), *old(details_folder_id))),
            restored ==> final(drag).is_none(),
            !restored ==> *final(drag) == *old(drag),
    {
        match self.before_tag_pill.take() {
            Some(snapshot) => {
                self.filters = snapshot.filters;
                *details_folder_id = snapshot.details_folder_id;
                *drag = None;
                true
            },
            None => false,
        }
    }

    /// Picks a tag filter (or none): the recently-opened filter goes off and
    /// the view kept aside is forgotten; with a tag, no folder is shown.
    pub fn tag_filter_changed(&mut self, details_folder_id: &mut Option<FolderId>, tag: Option<String>, top: S)
        ensures
            final(self).filters.view() == (FiltersView {
                tag_filter: match tag {
                    Some(t) => Some(t@),
                    None => None,
                },
                recently_opened_filter: false,
                selected_folder: if tag.is_some() { None } else { old(self).filters.selected_folder },
                scroll_offset: top,
                ..old(self).filters.view()
            }),
            *final(details_folder_id) == (if tag.is_some() { None } else { *old(details_folder_id) }),
            final(self).before_tag_pill.is_none(),
    {
        let has_tag = tag.is_some();
        self.filters.tag_filter = tag;
        self.filters.recently_opened_filter = false;
        self.before_tag_pill = None;
        if has_tag {
            self.filters.selected_folder = None;
            *details_folder_id = None;
        }
        self.filters.scroll_offset = top;
    }

    /// Picks a reading filter (or none): the other filters and the folder
    /// go, and the view kept aside is forgotten. The search stays.
    pub fn reading_filter_changed(&mut self, details_folder_id: &mut Option<FolderId>, filter: Option<F>, top: S)
        ensures
            final(self).filters.view() == (FiltersView {
                reading_filter: filter,
                recently_opened_filter: false,
                missing_filter: false,
                tag_filter: None,
                selected_folder: None,
                scroll_offset: top,
                ..old(self).filters.view()
            }),
            final(details_folder_id).is_none(),
            final(self).before_tag_pill.is_none(),
    {
        self.filters.reading_filter = filter;
        self.filters.recently_opened_filter = false;
        self.filters.missing_filter = false;
        self.filters.tag_filter = None;
        self.filters.selected_folder = None;
        *details_folder_id = None;
        self.before_tag_pill = None;
        self.filters.scroll_offset = top;
    }

    /// Turns the recently-opened filter on or off; turning it on drops the
    /// other filters and the folder. The view kept aside is forgotten.
    pub fn recently_opened_filter_changed(&mut self, details_folder_id: &mut Option<FolderId>, active: bool, top: S)
        ensures
            active ==> final(self).filters.view() == (FiltersView {
                recently_opened_filter: true,
                reading_filter: None,
                missing_filter: false,
                tag_filter: None,
                selected_folder: None,
                scroll_offset: top,
                ..old(self).filters.view()
            }) && final(details_folder_id).is_none(),
            !active ==> final(self).filters.view() == (FiltersView {
                recently_opened_filter: false,
                scroll_offset: top,
                ..old(self).filters.view()
            }) && *final(details_folder_id) == *old(details_folder_id),
            final(self).before_tag_pill.is_none(),
    {
        self.filters.recently_opened_filter = active;
        if active {
            self.filters.reading_filter = None;
            self.filters.missing_filter = false;
            self.filters.tag_filter = None;
            self.filters.selected_folder = None;
            *details_folder_id = None;
        }
        self.before_tag_pill = None;
        self.filters.scroll_offset = top;
    }

    /// Turns the missing-files filter on or off; turning it on drops the
    /// recently-opened filter. The view kept aside is forgotten; the scroll
    /// position stays.
    pub fn missing_filter_changed(&mut self, active: bool)
        ensures
            final(self).filters.view() == (FiltersView {
                missing_filter: active,
                recently_opened_filter: if active { false } else { old(self).filters.recently_opened_filter },
                ..old(self).filters.view()
            }),
            final(self).before_tag_pill.is_none(),
    {
        self.filters.missing_filter = active;
        if active {
            self.filters.recently_opened_filter = false;
        }
        self.before_tag_pill = None;
    }

    /// Shows folder `folder_id` (or the root): the recently-opened filter
    /// goes off and the view kept aside is forgotten.
    pub fn folder_selected(&mut self, folder_id: Option<FolderId>, top: S)
        ensures
            final(self).filters.view() == (FiltersView {
                selected_folder: folder_id,
                recently_opened_filter: false,
                scroll_offset: top,
                ..old(self).filters.view()
            }),
            final(self).before_tag_pill.is_none(),
    {
        self.filters.selected_folder = folder_id;
        self.filters.recently_opened_filter = false;
        self.before_tag_pill = None;
        self.filters.scroll_offset = top;
    }

    /// Clears the search and every filter, shows the root with no folder in
    /// the details panel, and forgets the view kept aside.
    pub fn clear_filters(&mut self, details_folder_id: &mut Option<FolderId>, top: S)
        ensures
            final(self).filters.view() == cleared_filters::<F, R, S>(top),
            final(details_folder_id).is_none(),
            final(self).before_tag_pill.is_none(),
    {
        self.filters = ViewFilters {
            search_query: String::new(),
            search: None,
            tag_filter: None,
            reading_filter: None,
            recently_opened_filter: false,
            missing_filter: false,
            selected_folder: None,
            scroll_offset: top,
        };
        *details_folder_id = None;
        self.before_tag_pill = None;
    }

    /// The view when another library becomes active: its saved folder is
    /// shown from `top`, with no search, tag, reading or missing-files
    /// filter and nothing in the details panel; the recently-opened filter
    /// stays as it was, and the view kept aside is forgotten.
    pub fn reset_for_library(&mut self, details_folder_id: &mut Option<FolderId>, saved_folder: Option<FolderId>, top: S)
        ensures
            final(self).filters.view() == (FiltersView {
                selected_folder: saved_folder,
                recently_opened_filter: old(self).filters.recently_opened_filter,
                ..cleared_filters::<F, R, S>(top)
            }),
            final(details_folder_id).is_none(),
            final(self).before_tag_pill.is_none(),
    {
        let recently = self.filters.recently_opened_filter;
        self.filters = ViewFilters {
            search_query: String::new(),
            search: None,
            tag_filter: None,
            reading_filter: None,
            recently_opened_filter: recently,
            missing_filter: false,
            selected_folder: saved_folder,
            scroll_offset: top,
        };
        *details_folder_id = None;
        self.before_tag_pill = None;
    }

    /// Takes a new search query; says whether a search has to run. A query
    /// of white space only clears the results at once.
    pub fn search_query_changed(&mut self, query: String) -> (search_needed: bool)
        ensures
            search_needed == (trim_spec(query@).len() > 0),
            final(self).filters.view() == (FiltersView {
                search_query: query@,
                search: if search_needed { old(self).filters.search } else { None },
                ..old(self).filters.view()
            }),
            final(self).before_tag_pill == old(self).before_tag_pill,
    {
        let search_needed = trim(query.as_str()).unicode_len() > 0;
        self.filters.search_query = query;
        if !search_needed {
            self.filters.search = None;
        }
        search_needed
    }

    /// Whether a debounced search for `query` is still wanted: the query has
    /// not changed since.
    pub fn search_still_wanted(&self, query: &str) -> (wanted: bool)
        ensures
            wanted == (query@ == self.filters.search_query@),
    {
        crate::text::str_eq(query, self.filters.search_query.as_str())
    }

    /// Shows the results of a search.
    pub fn search_results_arrived(&mut self, results: R)
        ensures
            final(self).filters.view() == (FiltersView { search: Some(results), ..old(self).filters.view() }),
            final(self).before_tag_pill == old(self).before_tag_pill,
    {
        self.filters.search = Some(results);
    }
}

/// Following a tag pill and then going back restores the view exactly as
/// it was, the folder in the details panel included, and keeps nothing
/// aside.
pub proof fn law_tag_pill_round_trip<F, R, S>(state: ViewState<F, R, S>, tag: Seq<char>, top: S)
    ensures
        after_restore(after_tag_pill(state, tag, top)) == (ViewState { before_tag_pill: None, ..state }),
{
}

} // verus!
