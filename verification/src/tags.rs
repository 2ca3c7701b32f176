//! Tag editing: adding a tag to an entry, renaming a tag from the sidebar,
//! and what deleting a tag changes in the view.

use vstd::prelude::*;

use crate::text::{push_char, str_eq, trim, trim_spec, typed_text, typed_text_spec};

verus! {

/// The tag that submitting the tag field adds: the field trimmed; `None`
/// when it is blank.
pub fn tag_to_add(input: &str) -> (tag: Option<String>)
    ensures
        tag.is_some() == (trim_spec(input@).len() > 0),
        tag matches Some(t) ==> t@ == trim_spec(input@),
{
    let tag = trim(input);
    if tag.unicode_len() == 0 {
        None
    } else {
        Some(tag)
    }
}

/// What submitting a tag rename does.
#[derive(Debug, PartialEq, Eq)]
pub enum TagRenameOutcome {
    /// Nothing: no rename under way, a blank name, or the same name.
    Unchanged,
    /// The new name is taken; the error shown.
    AlreadyExists { error: String },
    /// Rename `old_tag` to `new_tag`, showing `status`.
    Rename { old_tag: String, new_tag: String, status: String },
}

/// The error shown when renaming to a tag that exists.
pub open spec fn tag_exists_error(tag: Seq<char>) -> Seq<char> {
    "The tag \""@ + tag + "\" already exists."@
}

/// The status shown while a tag is renamed.
pub open spec fn renaming_tag_status(old_tag: Seq<char>) -> Seq<char> {
    "Renaming tag \""@ + old_tag + "\"..."@
}

/// Whether `tags` holds a tag written `tag`.
pub open spec fn has_tag(tags: Seq<String>, tag: Seq<char>) -> bool {
    exists|i: int| 0 <= i < tags.len() && (#[trigger] tags[i])@ == tag
}

pub(crate) fn contains_tag(tags: &Vec<String>, tag: &str) -> (found: bool)
    ensures
        found == has_tag(tags@, tag@),
{
    let mut i: usize = 0;
    while i < tags.len()
        invariant
            i <= tags@.len(),
            forall|j: int| 0 <= j < i ==> (#[trigger] tags@[j])@ != tag@,
        decreases tags@.len() - i,
    {
        if str_eq(tags[i].as_str(), tag) {
            return true;
        }
        i = i + 1;
    }
    false
}

/// Submits the tag rename field. The rename under way ends either way. A
/// blank name or the same name changes nothing; a name already used is
/// refused with an error; otherwise the tag is renamed and, when it is the
/// tag filter shown, the filter follows it.
pub fn submit_tag_rename(
    renaming_tag: &mut Option<String>,
    rename_input: &mut String,
    active_tag_filter: &mut Option<String>,
    existing_tags: &Vec<String>,
) -> (outcome: TagRenameOutcome)
    ensures
        final(renaming_tag).is_none(),
        old(renaming_tag).is_some() ==> final(rename_input)@.len() == 0,
        old(renaming_tag).is_none() ==> final(rename_input)@ == old(rename_input)@,
        ({
            let new_tag = trim_spec(old(rename_input)@);
            match *old(renaming_tag) {
                None => outcome == TagRenameOutcome::Unchanged && *final(active_tag_filter) == *old(active_tag_filter),
                Some(old_tag) => if new_tag.len() == 0 || new_tag == old_tag@ {
                    outcome == TagRenameOutcome::Unchanged && *final(active_tag_filter) == *old(active_tag_filter)
                } else if has_tag(existing_tags@, new_tag) {
                    (outcome matches TagRenameOutcome::AlreadyExists { error } && error@ == tag_exists_error(new_tag))
                        && *final(active_tag_filter) == *old(active_tag_filter)
                } else {
                    &&& outcome matches TagRenameOutcome::Rename { old_tag: o, new_tag: n, status }
                        && o@ == old_tag@ && n@ == new_tag && status@ == renaming_tag_status(old_tag@)
                    &&& match *old(active_tag_filter) {
                        Some(active) => if active@ == old_tag@ {
                            *final(active_tag_filter) matches Some(f) && f@ == new_tag
                        } else {
                            *final(active_tag_filter) == *old(active_tag_filter)
                        },
                        None => final(active_tag_filter).is_none(),
                    }
                },
            }
        }),
{
    proof {
        reveal_strlit("The tag \"");
        reveal_strlit("\" already exists.");
        reveal_strlit("Renaming tag \"");
        reveal_strlit("\"...");
    }
    let old_tag = match renaming_tag.take() {
        None => return TagRenameOutcome::Unchanged,
        Some(t) => t,
    };
    let new_tag = trim(rename_input.as_str());
    *rename_input = String::new();
    if new_tag.unicode_len() == 0 || str_eq(new_tag.as_str(), old_tag.as_str()) {
        return TagRenameOutcome::Unchanged;
    }
    if contains_tag(existing_tags, new_tag.as_str()) {
        let mut error = String::from_str("The tag \"");
        error.append(new_tag.as_str());
        error.append("\" already exists.");
        return TagRenameOutcome::AlreadyExists { error };
    }
    let follows = match active_tag_filter {
        Some(active) => str_eq(active.as_str(), old_tag.as_str()),
        None => false,
    };
    if follows {
        *active_tag_filter = Some(new_tag.clone());
    }
    let mut status = String::from_str("Renaming tag \"");
    status.append(old_tag.as_str());
    status.append("\"...");
    TagRenameOutcome::Rename { old_tag, new_tag, status }
}

/// The status shown while a tag is deleted.
pub open spec fn deleting_tag_status(tag: Seq<char>) -> Seq<char> {
    "Deleting tag \""@ + tag + "\"..."@
}

/// Deleting tag `tag`: the tag filter goes when it shows that tag, a rename
/// of that tag under way ends; returns the status to show.
pub fn tag_deleted(
    tag: &str,
    active_tag_filter: &mut Option<String>,
    renaming_tag: &mut Option<String>,
    rename_input: &mut String,
) -> (status: String)
    ensures
        status@ == deleting_tag_status(tag@),
        *final(active_tag_filter) == (match *old(active_tag_filter) {
            Some(active) => if active@ == tag@ { None } else { Some(active) },
            None => None,
        }),
        *final(renaming_tag) == (match *old(renaming_tag) {
            Some(renaming) => if renaming@ == tag@ { None } else { Some(renaming) },
            None => None,
        }),
        (*old(renaming_tag) matches Some(renaming) && renaming@ == tag@) ==> final(rename_input)@.len() == 0,
        !(*old(renaming_tag) matches Some(renaming) && renaming@ == tag@) ==> final(rename_input)@ == old(rename_input)@,
{
    proof {
        reveal_strlit("Deleting tag \"");
        reveal_strlit("\"...");
    }
    let clear_filter = match active_tag_filter {
        Some(active) => str_eq(active.as_str(), tag),
        None => false,
    };
    if clear_filter {
        *active_tag_filter = None;
    }
    let end_rename = match renaming_tag {
        Some(renaming) => str_eq(renaming.as_str(), tag),
        None => false,
    };
    if end_rename {
        *renaming_tag = None;
        *rename_input = String::new();
    }
    let mut status = String::from_str("Deleting tag \"");
    status.append(tag);
    status.append("\"...");
    status
}

/// The fields of `s` between commas, as `str::split(',')` gives them (one
/// empty field for an empty string).
pub open spec fn comma_fields(s: Seq<char>) -> Seq<Seq<char>>
    decreases s.len(),
{
    if s.len() == 0 {
        seq![Seq::empty()]
    } else {
        let before = comma_fields(s.drop_last());
        if s.last() == ',' {
            before.push(Seq::empty())
        } else {
            before.update(before.len() - 1, before.last().push(s.last()))
        }
    }
}

proof fn lemma_comma_fields_nonempty(s: Seq<char>)
    ensures
        comma_fields(s).len() >= 1,
    decreases s.len(),
{
    if s.len() > 0 {
        lemma_comma_fields_nonempty(s.drop_last());
    }
}

/// The tags typed as a comma-separated list: each field trimmed, blank ones
/// dropped, in order.
pub open spec fn tags_in_list(input: Seq<char>) -> Seq<Seq<char>> {
    comma_fields(input).map_values(|f: Seq<char>| trim_spec(f)).filter(|t: Seq<char>| t.len() > 0)
}

/// The tags of a comma-separated list.
pub fn tags_from_list(input: &str) -> (tags: Vec<String>)
    ensures
        tags@.map_values(|t: String| t@) == tags_in_list(input@),
{
    let n = input.unicode_len();
    let mut done: Vec<String> = Vec::new();
    let mut current = String::new();
    let mut i: usize = 0;
    assert(input@.take(0) =~= Seq::<char>::empty());
    assert(done@.map_values(|f: String| f@).push(current@) =~= comma_fields(input@.take(0)));
    while i < n
        invariant
            n == input@.len(),
            i <= n,
            done@.map_values(|f: String| f@).push(current@) == comma_fields(input@.take(i as int)),
        decreases n - i,
    {
        let c = input.get_char(i);
        let ghost prefix = input@.take(i as int + 1);
        assert(prefix.drop_last() =~= input@.take(i as int));
        assert(prefix.last() == c);
        let ghost fields = done@.map_values(|f: String| f@);
        if c == ',' {
            let finished = current;
            current = String::new();
            done.push(finished);
            assert(done@.map_values(|f: String| f@) =~= fields.push(finished@));
            assert(done@.map_values(|f: String| f@).push(current@) =~= fields.push(finished@).push(Seq::empty()));
        } else {
            let ghost before = current@;
            push_char(&mut current, c);
            assert(done@.map_values(|f: String| f@).push(current@) =~= fields.push(before).update(fields.len() as int, before.push(c)));
        }
        i = i + 1;
    }
    assert(input@.take(n as int) =~= input@);
    done.push(current);
    let ghost fields = comma_fields(input@);
    assert(done@.map_values(|f: String| f@) =~= fields);
    let ghost pred = |t: Seq<char>| t.len() > 0;
    let ghost trimmed = fields.map_values(|f: Seq<char>| trim_spec(f));
    let mut tags: Vec<String> = Vec::new();
    let mut j: usize = 0;
    while j < done.len()
        invariant
            j <= done@.len(),
            done@.map_values(|f: String| f@) == fields,
            trimmed == fields.map_values(|f: Seq<char>| trim_spec(f)),
            pred == |t: Seq<char>| t.len() > 0,
            tags@.map_values(|t: String| t@) == trimmed.take(j as int).filter(pred),
        decreases done@.len() - j,
    {
        let tag = trim(done[j].as_str());
        proof {
            assert(trimmed.take(j as int + 1) =~= trimmed.take(j as int).push(trimmed[j as int]));
            trimmed.take(j as int).lemma_filter_push(trimmed[j as int], pred);
            assert(done@.map_values(|f: String| f@)[j as int] == done@[j as int]@);
        }
        if tag.unicode_len() > 0 {
            let ghost before = tags@.map_values(|t: String| t@);
            tags.push(tag);
            assert(tags@.map_values(|t: String| t@) =~= before.push(trimmed[j as int]));
        }
        j = j + 1;
    }
    assert(trimmed.take(done@.len() as int) =~= trimmed);
    tags
}

/// The inspector's tag field after typing `value` (no control characters,
/// at most 120 of them), and whether its suggestions open: they do when
/// the field is not blank.
pub fn inspector_tag_input(value: &str) -> (result: (String, bool))
    ensures
        result.0@ == typed_text_spec(value@, 120),
        result.1 == (trim_spec(typed_text_spec(value@, 120)).len() > 0),
{
    let input = typed_text(value, 120);
    let open = trim(input.as_str()).unicode_len() > 0;
    (input, open)
}

} // verus!
