//! Errors opening or rendering a document: the one shown, and those the
//! user dismissed, which are not shown again.

use vstd::prelude::*;

use crate::text::str_eq;

verus! {

/// The document error banner.
#[derive(Debug)]
pub struct DocumentErrors {
    /// The error shown, if any.
    pub shown: Option<String>,
    /// The errors dismissed so far.
    pub dismissed: Vec<String>,
}

/// The banner as text: the error shown and the dismissed ones.
pub open spec fn banner_state(errors: DocumentErrors) -> (Option<Seq<char>>, Seq<Seq<char>>) {
    (
        match errors.shown {
            Some(e) => Some(e@),
            None => None,
        },
        errors.dismissed@.map_values(|e: String| e@),
    )
}

/// The banner after `error` is reported: shown unless dismissed before.
pub open spec fn after_report(state: (Option<Seq<char>>, Seq<Seq<char>>), error: Seq<char>) -> (Option<Seq<char>>, Seq<Seq<char>>) {
    if state.1.contains(error) {
        state
    } else {
        (Some(error), state.1)
    }
}

/// The banner after it is dismissed: empty, its error now dismissed.
pub open spec fn after_dismiss(state: (Option<Seq<char>>, Seq<Seq<char>>)) -> (Option<Seq<char>>, Seq<Seq<char>>) {
    match state.0 {
        Some(e) => (None, state.1.push(e)),
        None => (None, state.1),
    }
}

pub(crate) fn contains_text(list: &Vec<String>, text: &str) -> (found: bool)
    ensures
        found == list@.map_values(|e: String| e@).contains(text@),
{
    let ghost view = list@.map_values(|e: String| e@);
    let mut i: usize = 0;
    while i < list.len()
        invariant
            view == list@.map_values(|e: String| e@),
            i <= list@.len(),
            forall|j: int| 0 <= j < i ==> view[j] != text@,
        decreases list@.len() - i,
    {
        if str_eq(list[i].as_str(), text) {
            assert(view[i as int] == text@);
            return true;
        }
        i = i + 1;
    }
    false
}

impl DocumentErrors {
    /// An error was reported: it is shown unless it was dismissed before.
    pub fn reported(&mut self, error: String)
        ensures
            banner_state(*final(self)) == after_report(banner_state(*old(self)), error@),
    {
        if !contains_text(&self.dismissed, error.as_str()) {
            self.shown = Some(error);
        }
    }

    /// The banner is dismissed: its error joins the dismissed ones.
    pub fn dismiss(&mut self)
        ensures
            banner_state(*final(self)) == after_dismiss(banner_state(*old(self))),
    {
        if let Some(error) = self.shown.take() {
            let ghost before = self.dismissed@.map_values(|e: String| e@);
            self.dismissed.push(error);
            assert(self.dismissed@.map_values(|e: String| e@) =~= before.push(self.dismissed@.last()@));
        }
    }
}

/// A dismissed error is not shown again: after dismissing the banner,
/// reporting the same error leaves it empty.
pub proof fn law_dismissed_error_stays_hidden(state: (Option<Seq<char>>, Seq<Seq<char>>), error: Seq<char>)
    requires
        state.0 == Some(error),
    ensures
        after_report(after_dismiss(state), error).0.is_none(),
{
    assert(state.1.push(error)[state.1.len() as int] == error);
}

} // verus!
