//! How an entry's title and author are shown.

use vstd::prelude::*;

use crate::model::LibraryEntry;
use crate::text::{file_name, file_stem, path_file_name, path_file_stem};

verus! {

/// The title shown for an entry: its display title, else its extracted
/// title, else its file's stem, else its file name, else "PDF".
pub open spec fn entry_title_spec(entry: LibraryEntry) -> Seq<char> {
    if entry.display_title.is_some() {
        entry.display_title.unwrap()@
    } else if entry.title.is_some() {
        entry.title.unwrap()@
    } else if path_file_stem(entry.path@).is_some() {
        path_file_stem(entry.path@).unwrap()
    } else if path_file_name(entry.path@).is_some() {
        path_file_name(entry.path@).unwrap()
    } else {
        "PDF"@
    }
}

/// The title shown for an entry.
pub fn library_preview_title(entry: &LibraryEntry) -> (title: String)
    ensures
        title@ == entry_title_spec(*entry),
{
    if let Some(title) = &entry.display_title {
        return title.clone();
    }
    if let Some(title) = &entry.title {
        return title.clone();
    }
    if let Some(stem) = file_stem(entry.path.as_str()) {
        return stem;
    }
    if let Some(name) = file_name(entry.path.as_str()) {
        return name;
    }
    "PDF".to_owned()
}

/// The title the details editor starts from: the shown title.
pub fn entry_title(entry: &LibraryEntry) -> (title: String)
    ensures
        title@ == entry_title_spec(*entry),
{
    library_preview_title(entry)
}

/// The author the details editor starts from: the display author, else the
/// extracted author, else empty.
pub open spec fn entry_author_spec(entry: LibraryEntry) -> Seq<char> {
    if entry.display_author.is_some() {
        entry.display_author.unwrap()@
    } else if entry.author.is_some() {
        entry.author.unwrap()@
    } else {
        Seq::empty()
    }
}

/// The author the details editor starts from.
pub fn entry_author(entry: &LibraryEntry) -> (author: String)
    ensures
        author@ == entry_author_spec(*entry),
{
    if let Some(author) = &entry.display_author {
        return author.clone();
    }
    if let Some(author) = &entry.author {
        return author.clone();
    }
    String::new()
}

} // verus!
