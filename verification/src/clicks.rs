//! Double clicks: a second click on the same item soon after the first.
//! Times are milliseconds of a monotonic clock.

use vstd::prelude::*;

use crate::text::str_eq;

verus! {

/// Two clicks on the same item at most this many milliseconds apart make a
/// double click.
pub const DOUBLE_CLICK_MILLIS: u64 = 500;

/// The time from `earlier` to `now`, or zero when `now` comes first.
pub open spec fn elapsed(earlier: u64, now: u64) -> int {
    if now >= earlier {
        now - earlier
    } else {
        0
    }
}

/// The last click on an entry or a folder: its id and when it came.
#[derive(Debug)]
pub struct ClickTracker {
    pub last: Option<(u64, u64)>,
}

/// The last click on a tag: its name and when it came.
#[derive(Debug)]
pub struct TagClickTracker {
    pub last: Option<(String, u64)>,
}

impl ClickTracker {
    /// Records a click on `id` at `now`; says whether it makes a double
    /// click with the one before.
    pub fn register_click(&mut self, id: u64, now: u64) -> (double: bool)
        ensures
            double == (old(self).last matches Some((last_id, at)) && last_id == id && elapsed(at, now) <= DOUBLE_CLICK_MILLIS),
            final(self).last == Some((id, now)),
    {
        let double = match self.last {
            Some((last_id, at)) => last_id == id && (now < at || now - at <= DOUBLE_CLICK_MILLIS),
            None => false,
        };
        self.last = Some((id, now));
        double
    }
}

impl TagClickTracker {
    /// Records a click on tag `tag` at `now`; says whether it makes a double
    /// click with the one before.
    pub fn register_click(&mut self, tag: String, now: u64) -> (double: bool)
        ensures
            double == (old(self).last matches Some((last_tag, at)) && last_tag@ == tag@ && elapsed(at, now)
                <= DOUBLE_CLICK_MILLIS),
            final(self).last matches Some((last_tag, at)) && last_tag@ == tag@ && at == now,
    {
        let double = match &self.last {
            Some((last_tag, at)) => str_eq(last_tag.as_str(), tag.as_str()) && (now < *at || now - *at <= DOUBLE_CLICK_MILLIS),
            None => false,
        };
        self.last = Some((tag, now));
        double
    }
}

} // verus!
