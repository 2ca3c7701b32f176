//! Titles of the library switcher's preview tiles: white space collapsed,
//! wrapped onto a few lines of a given width in characters, the last line
//! cut with an ellipsis.

use vstd::prelude::*;

use crate::text::{
    is_whitespace, is_whitespace_spec, lemma_trim_start, lemma_trim_start_stops, push_char, string_from_chars,
    trim, trim_spec, trim_start_index,
};

verus! {

/// `s` with every run of white space made one space and none left at either
/// end, as joining `split_whitespace` with spaces gives it. `out` is what
/// was written so far; `pending` says a space is owed before the next word.
pub open spec fn collapse_from(s: Seq<char>, out: Seq<char>, pending: bool) -> Seq<char>
    decreases s.len(),
{
    if s.len() == 0 {
        out
    } else if is_whitespace_spec(s[0]) {
        collapse_from(s.drop_first(), out, out.len() > 0)
    } else {
        let spaced = if pending { out.push(' ') } else { out };
        collapse_from(s.drop_first(), spaced.push(s[0]), false)
    }
}

/// The words of `s` joined by single spaces.
pub open spec fn collapse_whitespace(s: Seq<char>) -> Seq<char> {
    collapse_from(s, Seq::empty(), false)
}

/// `s` without its leading white space.
pub open spec fn trim_start_spec(s: Seq<char>) -> Seq<char> {
    s.skip(trim_start_index(s))
}

/// The number of bytes `c` takes in UTF-8.
pub open spec fn utf8_width(c: char) -> nat {
    let v = c as u32;
    if v < 0x80 {
        1
    } else if v < 0x800 {
        2
    } else if v < 0x10000 {
        3
    } else {
        4
    }
}

/// The number of bytes `s` takes in UTF-8.
pub open spec fn utf8_len(s: Seq<char>) -> nat
    decreases s.len(),
{
    if s.len() == 0 {
        0
    } else {
        utf8_len(s.drop_last()) + utf8_width(s.last())
    }
}

/// The position of the last white space character of `s`, if any.
pub open spec fn last_whitespace(s: Seq<char>) -> Option<int>
    decreases s.len(),
{
    if s.len() == 0 {
        None
    } else if is_whitespace_spec(s.last()) {
        Some(s.len() - 1)
    } else {
        last_whitespace(s.drop_last())
    }
}

/// Where a line taken from `candidate` (the first `max_chars` characters
/// left) ends: at its last white space when that lies at least
/// `max_chars / 2` bytes in, else after the whole candidate.
pub open spec fn split_point(candidate: Seq<char>, max_chars: nat) -> int {
    match last_whitespace(candidate) {
        Some(w) => if utf8_len(candidate.take(w)) >= max_chars / 2 { w } else { candidate.len() as int },
        None => candidate.len() as int,
    }
}

/// The characters kept on a last line that has to be cut: three fewer than
/// fit, for the ellipsis, and at least one.
pub open spec fn kept_on_last_line(max_chars: nat) -> nat {
    if max_chars > 3 {
        (max_chars - 3) as nat
    } else {
        1
    }
}

/// The lines that `remaining` fills with `lines_left` lines of `max_chars`
/// characters: what fits goes on one line; the last line allowed is cut
/// and ends in "..."; any other line ends at its split point, trimmed,
/// and the rest continues without its leading white space.
pub open spec fn wrap_lines(remaining: Seq<char>, max_chars: nat, lines_left: nat) -> Seq<Seq<char>>
    decreases lines_left,
{
    if lines_left == 0 {
        Seq::empty()
    } else if remaining.len() <= max_chars {
        seq![remaining]
    } else if lines_left == 1 {
        seq![remaining.take(kept_on_last_line(max_chars) as int) + seq!['.', '.', '.']]
    } else {
        let split = split_point(remaining.take(max_chars as int), max_chars);
        seq![trim_spec(remaining.take(split))]
            + wrap_lines(trim_start_spec(remaining.skip(split)), max_chars, (lines_left - 1) as nat)
    }
}

/// The lines joined by newlines.
pub open spec fn join_lines(lines: Seq<Seq<char>>) -> Seq<char>
    decreases lines.len(),
{
    if lines.len() == 0 {
        Seq::empty()
    } else if lines.len() == 1 {
        lines[0]
    } else {
        join_lines(lines.drop_last()) + seq!['\n'] + lines.last()
    }
}

/// The title a preview tile shows: empty when the label has no words or no
/// line is allowed, else its wrapped lines joined by newlines.
pub open spec fn wrapped_title(label: Seq<char>, max_chars: nat, max_lines: nat) -> Seq<char> {
    let words = collapse_whitespace(label);
    if words.len() == 0 || max_lines == 0 {
        Seq::empty()
    } else {
        join_lines(wrap_lines(words, max_chars, max_lines))
    }
}

proof fn lemma_last_whitespace_bounded(s: Seq<char>)
    ensures
        last_whitespace(s) matches Some(i) ==> 0 <= i < s.len(),
    decreases s.len(),
{
    if s.len() > 0 && !is_whitespace_spec(s.last()) {
        lemma_last_whitespace_bounded(s.drop_last());
    }
}

/// The characters of `label` with white space collapsed.
fn collapse_whitespace_chars(label: &str) -> (words: Vec<char>)
    ensures
        words@ == collapse_whitespace(label@),
{
    let n = label.unicode_len();
    let mut out: Vec<char> = Vec::new();
    let mut pending = false;
    let mut i: usize = 0;
    assert(label@.skip(0) =~= label@);
    while i < n
        invariant
            n == label@.len(),
            i <= n,
            collapse_whitespace(label@) == collapse_from(label@.skip(i as int), out@, pending),
        decreases n - i,
    {
        let c = label.get_char(i);
        let ghost rest = label@.skip(i as int);
        assert(rest[0] == c);
        assert(rest.drop_first() =~= label@.skip(i as int + 1));
        if is_whitespace(c) {
            pending = out.len() > 0;
        } else {
            if pending {
                out.push(' ');
            }
            out.push(c);
            pending = false;
        }
        i = i + 1;
    }
    assert(label@.skip(n as int).len() == 0);
    out
}

/// The position, counted from `from`, of the last white space character of
/// `chars[from..to]`.
fn last_whitespace_in(chars: &Vec<char>, from: usize, to: usize) -> (w: Option<usize>)
    requires
        from <= to <= chars@.len(),
    ensures
        match last_whitespace(chars@.subrange(from as int, to as int)) {
            Some(i) => w == Some(i as usize),
            None => w.is_none(),
        },
{
    let mut i: usize = to;
    while i > from
        invariant
            from <= i <= to <= chars@.len(),
            last_whitespace(chars@.subrange(from as int, to as int)) == last_whitespace(chars@.subrange(from as int, i as int)),
        decreases i - from,
    {
        let ghost sub = chars@.subrange(from as int, i as int);
        assert(sub.last() == chars@[i - 1]);
        assert(sub.drop_last() =~= chars@.subrange(from as int, i - 1));
        if is_whitespace(chars[i - 1]) {
            return Some(i - 1 - from);
        }
        i = i - 1;
    }
    None
}

/// The number of UTF-8 bytes of `chars[from..to]`.
fn utf8_len_of(chars: &Vec<char>, from: usize, to: usize) -> (bytes: u128)
    requires
        from <= to <= chars@.len(),
    ensures
        bytes == utf8_len(chars@.subrange(from as int, to as int)),
{
    let mut bytes: u128 = 0;
    let mut i: usize = from;
    while i < to
        invariant
            from <= i <= to <= chars@.len(),
            bytes == utf8_len(chars@.subrange(from as int, i as int)),
            bytes <= 4 * (i - from),
        decreases to - i,
    {
        let v = chars[i] as u32;
        let width: u128 = if v < 0x80 {
            1
        } else if v < 0x800 {
            2
        } else if v < 0x10000 {
            3
        } else {
            4
        };
        let ghost sub = chars@.subrange(from as int, i as int + 1);
        assert(sub.drop_last() =~= chars@.subrange(from as int, i as int));
        assert(sub.last() == chars@[i as int]);
        bytes = bytes + width;
        i = i + 1;
    }
    bytes
}

/// The position of the first character at or after `from` that is not
/// white space (`chars.len()` when there is none).
fn skip_whitespace(chars: &Vec<char>, from: usize) -> (next: usize)
    requires
        from <= chars@.len(),
    ensures
        from <= next <= chars@.len(),
        trim_start_spec(chars@.skip(from as int)) == chars@.skip(next as int),
{
    let n = chars.len();
    let mut next = from;
    while next < n && is_whitespace(chars[next])
        invariant
            n == chars@.len(),
            from <= next <= n,
            forall|j: int| from <= j < next ==> is_whitespace_spec(#[trigger] chars@[j]),
        decreases n - next,
    {
        next = next + 1;
    }
    proof {
        let s = chars@.skip(from as int);
        assert forall|j: int| 0 <= j < next - from implies is_whitespace_spec(#[trigger] s[j]) by {
            assert(s[j] == chars@[from + j]);
        }
        lemma_trim_start(s, next - from);
        assert(s.skip(next - from) =~= chars@.skip(next as int));
        if next < n {
            assert(chars@.skip(next as int)[0] == chars@[next as int]);
            lemma_trim_start_stops(chars@.skip(next as int));
        }
    }
    next
}

/// The lines that `words[start..]` fills, as `wrap_lines` gives them.
fn wrap_from(words: &Vec<char>, start: usize, max_chars: usize, lines_left: usize) -> (lines: Vec<String>)
    requires
        start <= words@.len(),
    ensures
        lines@.map_values(|l: String| l@) == wrap_lines(words@.skip(start as int), max_chars as nat, lines_left as nat),
    decreases lines_left,
{
    let ghost remaining = words@.skip(start as int);
    let n = words.len();
    let mut lines: Vec<String> = Vec::new();
    if lines_left == 0 {
        assert(lines@.map_values(|l: String| l@) =~= Seq::<Seq<char>>::empty());
        return lines;
    }
    if n - start <= max_chars {
        let line = string_from_chars(words, start, n);
        assert(words@.subrange(start as int, n as int) =~= remaining);
        lines.push(line);
        assert(lines@.map_values(|l: String| l@) =~= seq![remaining]);
        return lines;
    }
    if lines_left == 1 {
        proof {
            reveal_strlit("...");
        }
        let keep: usize = if max_chars > 3 { max_chars - 3 } else { 1 };
        let mut line = string_from_chars(words, start, start + keep);
        assert(words@.subrange(start as int, start + keep) =~= remaining.take(keep as int));
        line.append("...");
        assert("..."@ =~= seq!['.', '.', '.']);
        lines.push(line);
        assert(lines@.map_values(|l: String| l@) =~= seq![remaining.take(kept_on_last_line(max_chars as nat) as int) + seq!['.', '.', '.']]);
        return lines;
    }
    let ghost candidate = remaining.take(max_chars as int);
    assert(words@.subrange(start as int, start + max_chars) =~= candidate);
    let last = last_whitespace_in(words, start, start + max_chars);
    proof {
        lemma_last_whitespace_bounded(candidate);
    }
    let split: usize = match last {
        Some(w) => {
            assert(words@.subrange(start as int, start + w) =~= candidate.take(w as int));
            if utf8_len_of(words, start, start + w) >= (max_chars / 2) as u128 {
                w
            } else {
                max_chars
            }
        },
        None => max_chars,
    };
    assert(split as int == split_point(candidate, max_chars as nat));
    let raw = string_from_chars(words, start, start + split);
    assert(raw@ =~= remaining.take(split as int));
    let line = trim(raw.as_str());
    let next = skip_whitespace(words, start + split);
    assert(remaining.skip(split as int) =~= words@.skip(start + split));
    lines.push(line);
    let mut rest = wrap_from(words, next, max_chars, lines_left - 1);
    let ghost first = lines@.map_values(|l: String| l@);
    let ghost tail = rest@.map_values(|l: String| l@);
    lines.append(&mut rest);
    assert(lines@.map_values(|l: String| l@) =~= first + tail);
    assert(first =~= seq![trim_spec(remaining.take(split as int))]);
    lines
}

/// The lines joined by newlines.
fn join_with_newlines(lines: &Vec<String>) -> (joined: String)
    ensures
        joined@ == join_lines(lines@.map_values(|l: String| l@)),
{
    let ghost views = lines@.map_values(|l: String| l@);
    let mut joined = String::new();
    let mut i: usize = 0;
    assert(views.take(0) =~= Seq::<Seq<char>>::empty());
    while i < lines.len()
        invariant
            views == lines@.map_values(|l: String| l@),
            i <= lines@.len(),
            joined@ == join_lines(views.take(i as int)),
        decreases lines@.len() - i,
    {
        let ghost done = views.take(i as int + 1);
        assert(done.drop_last() =~= views.take(i as int));
        assert(done.last() == lines@[i as int]@);
        if i > 0 {
            push_char(&mut joined, '\n');
        }
        joined.append(lines[i].as_str());
        proof {
            if i == 0 {
                assert(joined@ =~= done[0]);
            } else {
                assert(joined@ =~= join_lines(views.take(i as int)) + seq!['\n'] + done.last());
            }
        }
        i = i + 1;
    }
    assert(views.take(lines@.len() as int) =~= views);
    joined
}

/// The title of a preview tile: the label's words joined by single spaces,
/// wrapped onto at most `max_lines` lines of `max_chars` characters. A line
/// that cannot hold the rest ends at its last space when that lies at
/// least half way in (counted in UTF-8 bytes), else after `max_chars`
/// characters; the last line allowed is cut and ends in "...".
pub fn wrap_preview_title(label: &str, max_chars: usize, max_lines: usize) -> (title: String)
    ensures
        title@ == wrapped_title(label@, max_chars as nat, max_lines as nat),
{
    let words = collapse_whitespace_chars(label);
    if words.len() == 0 || max_lines == 0 {
        return String::new();
    }
    assert(words@.skip(0) =~= words@);
    let lines = wrap_from(&words, 0, max_chars, max_lines);
    join_with_newlines(&lines)
}

} // verus!
