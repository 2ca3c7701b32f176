//! Character-level helpers on strings: comparison, ASCII case folding,
//! control characters, whitespace trimming and length limits.

use vstd::prelude::*;

verus! {

/// Whether two strings hold the same characters.
pub fn str_eq(a: &str, b: &str) -> (equal: bool)
    ensures
        equal == (a@ == b@),
{
    let n = a.unicode_len();
    if n != b.unicode_len() {
        return false;
    }
    let mut i: usize = 0;
    while i < n
        invariant
            n == a@.len(),
            n == b@.len(),
            i <= n,
            forall|j: int| 0 <= j < i ==> a@[j] == b@[j],
        decreases n - i,
    {
        if a.get_char(i) != b.get_char(i) {
            return false;
        }
        i = i + 1;
    }
    assert(a@ =~= b@);
    true
}

} // verus!

verus! {

/// The lowercase form of a string, as `str::to_lowercase` gives it
/// (Unicode lowercase mapping, character by character, with the final
/// sigma rule).
pub uninterp spec fn lowercase(s: Seq<char>) -> Seq<char>;

/// Calls `str::to_lowercase`; its result is named `lowercase` of the
/// input's characters, and nothing more is claimed of it.
#[verifier::external_body]
pub(crate) fn to_lowercase(s: &str) -> (lower: String)
    ensures
        lower@ == lowercase(s@),
{
    s.to_lowercase()
}

} // verus!

verus! {

/// The final component of a path without its extension, as
/// `Path::file_stem` gives it.
pub uninterp spec fn path_file_stem(path: Seq<char>) -> Option<Seq<char>>;

/// The final component of a path, as `Path::file_name` gives it.
pub uninterp spec fn path_file_name(path: Seq<char>) -> Option<Seq<char>>;

/// Calls `Path::file_stem` on the path; its result is named
/// `path_file_stem` of the path's characters.
#[verifier::external_body]
pub(crate) fn file_stem(path: &str) -> (stem: Option<String>)
    ensures
        match stem {
            Some(s) => path_file_stem(path@) == Some(s@),
            None => path_file_stem(path@).is_none(),
        },
{
    match std::path::Path::new(path).file_stem() {
        Some(stem) => Some(stem.to_string_lossy().into_owned()),
        None => None,
    }
}

/// Calls `Path::file_name` on the path; its result is named
/// `path_file_name` of the path's characters.
#[verifier::external_body]
pub(crate) fn file_name(path: &str) -> (name: Option<String>)
    ensures
        match name {
            Some(s) => path_file_name(path@) == Some(s@),
            None => path_file_name(path@).is_none(),
        },
{
    match std::path::Path::new(path).file_name() {
        Some(name) => Some(name.to_string_lossy().into_owned()),
        None => None,
    }
}

} // verus!

verus! {

/// Characters with the Unicode White_Space property, which is what
/// `char::is_whitespace` tests.
pub open spec fn is_whitespace_spec(c: char) -> bool {
    let v = c as u32;
    (0x9 <= v <= 0xD) || v == 0x20 || v == 0x85 || v == 0xA0 || v == 0x1680 || (0x2000 <= v <= 0x200A)
        || v == 0x2028 || v == 0x2029 || v == 0x202F || v == 0x205F || v == 0x3000
}

/// Whether `c` is white space.
pub fn is_whitespace(c: char) -> (white: bool)
    ensures
        white == is_whitespace_spec(c),
{
    let v = c as u32;
    (0x9 <= v && v <= 0xD) || v == 0x20 || v == 0x85 || v == 0xA0 || v == 0x1680 || (0x2000 <= v && v <= 0x200A)
        || v == 0x2028 || v == 0x2029 || v == 0x202F || v == 0x205F || v == 0x3000
}

/// Control characters (general category Cc), which is what
/// `char::is_control` tests.
pub open spec fn is_control_spec(c: char) -> bool {
    let v = c as u32;
    v <= 0x1F || (0x7F <= v <= 0x9F)
}

/// Whether `c` is a control character.
pub fn is_control(c: char) -> (control: bool)
    ensures
        control == is_control_spec(c),
{
    let v = c as u32;
    v <= 0x1F || (0x7F <= v && v <= 0x9F)
}

/// The position of the first character of `s` that is not white space
/// (`s.len()` when there is none).
pub open spec fn trim_start_index(s: Seq<char>) -> int
    decreases s.len(),
{
    if s.len() == 0 {
        0
    } else if is_whitespace_spec(s[0]) {
        1 + trim_start_index(s.drop_first())
    } else {
        0
    }
}

/// The position after the last character of `s` that is not white space
/// (0 when there is none).
pub open spec fn trim_end_index(s: Seq<char>) -> int
    decreases s.len(),
{
    if s.len() == 0 {
        0
    } else if is_whitespace_spec(s.last()) {
        trim_end_index(s.drop_last())
    } else {
        s.len() as int
    }
}

/// `s` without leading and trailing white space, as `str::trim` gives it.
pub open spec fn trim_spec(s: Seq<char>) -> Seq<char> {
    let start = trim_start_index(s);
    let end = trim_end_index(s);
    if start >= end {
        Seq::empty()
    } else {
        s.subrange(start, end)
    }
}

pub proof fn lemma_trim_start(s: Seq<char>, i: int)
    requires
        0 <= i <= s.len(),
        forall|j: int| 0 <= j < i ==> is_whitespace_spec(#[trigger] s[j]),
    ensures
        trim_start_index(s) == i + trim_start_index(s.skip(i)),
    decreases i,
{
    if i == 0 {
        assert(s.skip(0) =~= s);
    } else {
        let rest = s.drop_first();
        assert forall|j: int| 0 <= j < i - 1 implies is_whitespace_spec(#[trigger] rest[j]) by {
            assert(rest[j] == s[j + 1]);
        }
        assert(is_whitespace_spec(s[0]));
        lemma_trim_start(rest, i - 1);
        assert(rest.skip(i - 1) =~= s.skip(i));
    }
}

proof fn lemma_trim_end(s: Seq<char>, i: int)
    requires
        0 <= i <= s.len(),
        forall|j: int| i <= j < s.len() ==> is_whitespace_spec(#[trigger] s[j]),
    ensures
        trim_end_index(s) == trim_end_index(s.take(i)),
    decreases s.len() - i,
{
    if i == s.len() {
        assert(s.take(i) =~= s);
    } else {
        assert(is_whitespace_spec(s.last()));
        let rest = s.drop_last();
        assert forall|j: int| i <= j < rest.len() implies is_whitespace_spec(#[trigger] rest[j]) by {
            assert(rest[j] == s[j]);
        }
        lemma_trim_end(rest, i);
        assert(rest.take(i) =~= s.take(i));
    }
}

pub proof fn lemma_trim_start_stops(s: Seq<char>)
    requires
        s.len() > 0,
        !is_whitespace_spec(s[0]),
    ensures
        trim_start_index(s) == 0,
{
}

proof fn lemma_trim_end_stops(s: Seq<char>)
    requires
        s.len() > 0,
        !is_whitespace_spec(s.last()),
    ensures
        trim_end_index(s) == s.len(),
{
}

proof fn lemma_trim_indices_bounded(s: Seq<char>)
    ensures
        0 <= trim_start_index(s) <= s.len(),
        0 <= trim_end_index(s) <= s.len(),
    decreases s.len(),
{
    if s.len() > 0 {
        lemma_trim_indices_bounded(s.drop_first());
        lemma_trim_indices_bounded(s.drop_last());
    }
}

/// Calls `String::push`, which appends the character to the end of the
/// string; the contract claims that and nothing else.
#[verifier::external_body]
pub(crate) fn push_char(s: &mut String, c: char)
    ensures
        final(s)@ == old(s)@.push(c),
{
    s.push(c);
}

/// A string holding the characters `chars[from..to]`.
pub fn string_from_chars(chars: &Vec<char>, from: usize, to: usize) -> (s: String)
    requires
        from <= to <= chars@.len(),
    ensures
        s@ == chars@.subrange(from as int, to as int),
{
    let mut s = String::new();
    let mut i: usize = from;
    while i < to
        invariant
            from <= i <= to <= chars@.len(),
            s@ == chars@.subrange(from as int, i as int),
        decreases to - i,
    {
        push_char(&mut s, chars[i]);
        assert(s@ =~= chars@.subrange(from as int, i as int + 1));
        i = i + 1;
    }
    s
}

/// The characters of `s`.
pub fn chars_of(s: &str) -> (chars: Vec<char>)
    ensures
        chars@ == s@,
{
    let n = s.unicode_len();
    let mut chars: Vec<char> = Vec::new();
    let mut i: usize = 0;
    while i < n
        invariant
            n == s@.len(),
            i <= n,
            chars@ == s@.take(i as int),
        decreases n - i,
    {
        chars.push(s.get_char(i));
        i = i + 1;
        assert(chars@ =~= s@.take(i as int));
    }
    assert(s@.take(n as int) =~= s@);
    chars
}

/// `s` without leading and trailing white space.
pub fn trim(s: &str) -> (trimmed: String)
    ensures
        trimmed@ == trim_spec(s@),
{
    let chars = chars_of(s);
    let n = chars.len();
    let mut start: usize = 0;
    while start < n && is_whitespace(chars[start])
        invariant
            n == s@.len(),
            chars@ == s@,
            start <= n,
            forall|j: int| 0 <= j < start ==> is_whitespace_spec(#[trigger] s@[j]),
        decreases n - start,
    {
        start = start + 1;
    }
    let mut end: usize = n;
    while end > start && is_whitespace(chars[end - 1])
        invariant
            n == s@.len(),
            chars@ == s@,
            start <= end <= n,
            forall|j: int| end <= j < n ==> is_whitespace_spec(#[trigger] s@[j]),
        decreases end,
    {
        end = end - 1;
    }
    proof {
        lemma_trim_start(s@, start as int);
        lemma_trim_end(s@, end as int);
        lemma_trim_indices_bounded(s@);
        if start < n {
            lemma_trim_start_stops(s@.skip(start as int));
        } else {
            assert(s@.skip(start as int).len() == 0);
        }
        if end > start {
            assert(s@.take(end as int).last() == s@[end - 1]);
            lemma_trim_end_stops(s@.take(end as int));
        } else {
            // every character from `start` on is white space
            if start < n {
                assert(is_whitespace_spec(s@[start as int]));
                assert(s@.skip(start as int)[0] == s@[start as int]);
            }
            lemma_trim_indices_bounded(s@.take(end as int));
            assert(trim_end_index(s@.take(end as int)) <= end);
        }
    }
    string_from_chars(&chars, start, if end > start { end } else { start })
}

} // verus!

verus! {

/// The decimal digit for `d` (below ten).
pub open spec fn digit_char(d: nat) -> char {
    if d == 0 { '0' } else if d == 1 { '1' } else if d == 2 { '2' } else if d == 3 { '3' } else if d == 4 { '4' }
    else if d == 5 { '5' } else if d == 6 { '6' } else if d == 7 { '7' } else if d == 8 { '8' } else { '9' }
}

/// The decimal form of `n`, without leading zeros.
pub open spec fn decimal(n: nat) -> Seq<char>
    decreases n,
{
    if n < 10 {
        seq![digit_char(n)]
    } else {
        decimal(n / 10).push(digit_char(n % 10))
    }
}

fn digit(d: u64) -> (c: char)
    requires
        d < 10,
    ensures
        c == digit_char(d as nat),
{
    if d == 0 { '0' } else if d == 1 { '1' } else if d == 2 { '2' } else if d == 3 { '3' } else if d == 4 { '4' }
    else if d == 5 { '5' } else if d == 6 { '6' } else if d == 7 { '7' } else if d == 8 { '8' } else { '9' }
}

/// `n` written in decimal.
pub fn decimal_string(n: u64) -> (s: String)
    ensures
        s@ == decimal(n as nat),
    decreases n,
{
    if n < 10 {
        let mut s = String::new();
        push_char(&mut s, digit(n));
        assert(s@ =~= seq![digit_char(n as nat)]);
        s
    } else {
        let mut s = decimal_string(n / 10);
        push_char(&mut s, digit(n % 10));
        s
    }
}

/// "1 PDF", "3 PDFs": a count with its noun, plural unless the count is one.
pub open spec fn format_count_spec(count: nat, noun: Seq<char>) -> Seq<char> {
    decimal(count) + " "@ + noun + if count == 1 { Seq::empty() } else { "s"@ }
}

/// A count with its noun, plural unless the count is one.
pub fn format_count(count: usize, noun: &str) -> (text: String)
    ensures
        text@ == format_count_spec(count as nat, noun@),
{
    let mut text = decimal_string(count as u64);
    text.append(" ");
    text.append(noun);
    if count != 1 {
        text.append("s");
    }
    proof {
        reveal_strlit(" ");
        reveal_strlit("s");
    }
    text
}

/// `c` with ASCII capitals made lowercase.
pub open spec fn ascii_lower(c: char) -> char {
    if 'A' <= c <= 'Z' {
        ((c as u32) + 32) as char
    } else {
        c
    }
}

/// Equal up to ASCII case, as `str::eq_ignore_ascii_case` compares.
pub open spec fn eq_ignore_ascii_case_spec(a: Seq<char>, b: Seq<char>) -> bool {
    a.len() == b.len() && forall|i: int| 0 <= i < a.len() ==> ascii_lower(#[trigger] a[i]) == ascii_lower(b[i])
}

fn to_ascii_lower(c: char) -> (lower: char)
    ensures
        lower == ascii_lower(c),
{
    if 'A' <= c && c <= 'Z' {
        let v = (c as u8) + 32;
        v as char
    } else {
        c
    }
}

/// Whether two strings are equal up to ASCII case.
pub fn eq_ignore_ascii_case(a: &str, b: &str) -> (equal: bool)
    ensures
        equal == eq_ignore_ascii_case_spec(a@, b@),
{
    let n = a.unicode_len();
    if n != b.unicode_len() {
        return false;
    }
    let mut i: usize = 0;
    while i < n
        invariant
            n == a@.len(),
            n == b@.len(),
            i <= n,
            forall|j: int| 0 <= j < i ==> ascii_lower(#[trigger] a@[j]) == ascii_lower(b@[j]),
        decreases n - i,
    {
        if to_ascii_lower(a.get_char(i)) != to_ascii_lower(b.get_char(i)) {
            return false;
        }
        i = i + 1;
    }
    true
}

/// `label` cut to at most `max_chars` characters, ending in "..." when it
/// had to be cut (or only dots, when there is no room for more).
pub open spec fn truncate_chars_spec(label: Seq<char>, max_chars: nat) -> Seq<char> {
    if label.len() <= max_chars {
        label
    } else if max_chars <= 3 {
        "..."@.take(max_chars as int)
    } else {
        label.take(max_chars - 3) + "..."@
    }
}

/// Cuts a label to at most `max_chars` characters, marking the cut with an
/// ellipsis.
pub fn truncate_to_chars(label: &str, max_chars: usize) -> (visible: String)
    ensures
        visible@ == truncate_chars_spec(label@, max_chars as nat),
        visible@.len() <= max_chars || visible@ == label@,
{
    proof {
        reveal_strlit("...");
    }
    let chars = chars_of(label);
    if chars.len() <= max_chars {
        return string_from_chars(&chars, 0, chars.len());
    }
    if max_chars <= 3 {
        let dots = chars_of("...");
        return string_from_chars(&dots, 0, max_chars);
    }
    let mut visible = string_from_chars(&chars, 0, max_chars - 3);
    visible.append("...");
    visible
}

/// The characters of `s` that are not control characters.
pub open spec fn without_controls(s: Seq<char>) -> Seq<char> {
    s.filter(|c: char| !is_control_spec(c))
}

/// `s` without its control characters.
pub fn remove_controls(s: &str) -> (clean: String)
    ensures
        clean@ == without_controls(s@),
{
    let ghost pred = |c: char| !is_control_spec(c);
    let chars = chars_of(s);
    let mut clean = String::new();
    let mut i: usize = 0;
    while i < chars.len()
        invariant
            pred == |c: char| !is_control_spec(c),
            chars@ == s@,
            i <= chars@.len(),
            clean@ == s@.take(i as int).filter(pred),
        decreases chars@.len() - i,
    {
        let c = chars[i];
        proof {
            assert(s@.take(i as int + 1) =~= s@.take(i as int).push(c));
            s@.take(i as int).lemma_filter_push(c, pred);
        }
        if !is_control(c) {
            push_char(&mut clean, c);
        }
        i = i + 1;
    }
    assert(s@.take(s@.len() as int) =~= s@);
    clean
}

/// What a text field keeps of what was typed: no control characters, and
/// at most `max_chars` characters.
pub open spec fn typed_text_spec(value: Seq<char>, max_chars: nat) -> Seq<char> {
    let clean = without_controls(value);
    if clean.len() <= max_chars {
        clean
    } else {
        clean.take(max_chars as int)
    }
}

/// What a text field keeps of `value` holds no control character, is at
/// most `max_chars` long, and is the start of `value`'s other characters:
/// all of them when they fit, else the first `max_chars`.
pub proof fn law_typed_text_is_clean_and_capped(value: Seq<char>, max_chars: nat)
    ensures
        typed_text_spec(value, max_chars).len() <= max_chars,
        forall|i: int| 0 <= i < typed_text_spec(value, max_chars).len() ==> !is_control_spec(#[trigger] typed_text_spec(value, max_chars)[i]),
        typed_text_spec(value, max_chars) == without_controls(value).take(typed_text_spec(value, max_chars).len() as int),
        typed_text_spec(value, max_chars).len() == (if without_controls(value).len() <= max_chars {
            without_controls(value).len()
        } else {
            max_chars
        }),
        forall|i: int| 0 <= i < without_controls(value).len() ==> !is_control_spec(#[trigger] without_controls(value)[i]),
        forall|c: char| !is_control_spec(c) && value.contains(c) ==> without_controls(value).contains(c),
{
    broadcast use vstd::seq_lib::group_filter_ensures;
    let clean = without_controls(value);
    let r = typed_text_spec(value, max_chars);
    assert forall|i: int| 0 <= i < r.len() implies !is_control_spec(#[trigger] r[i]) by {
        assert(r[i] == clean[i]);
    }
    assert(r =~= clean.take(r.len() as int));
}

/// A text field's content after typing `value`.
pub fn typed_text(value: &str, max_chars: usize) -> (text: String)
    ensures
        text@ == typed_text_spec(value@, max_chars as nat),
{
    let clean = remove_controls(value);
    take_chars(clean.as_str(), max_chars)
}

/// The first `n` characters of `s` (all of it when shorter).
pub fn take_chars(s: &str, n: usize) -> (prefix: String)
    ensures
        prefix@ == (if s@.len() <= n { s@ } else { s@.take(n as int) }),
{
    let chars = chars_of(s);
    if chars.len() <= n {
        let all = string_from_chars(&chars, 0, chars.len());
        assert(s@.subrange(0, s@.len() as int) =~= s@);
        all
    } else {
        string_from_chars(&chars, 0, n)
    }
}

} // verus!

verus! {

proof fn lemma_digit_char_injective(a: nat, b: nat)
    requires
        a < 10,
        b < 10,
        digit_char(a) == digit_char(b),
    ensures
        a == b,
{
}

/// Different numbers have different decimal forms.
pub proof fn lemma_decimal_injective(a: nat, b: nat)
    requires
        decimal(a) == decimal(b),
    ensures
        a == b,
    decreases a,
{
    lemma_decimal_len(a);
    lemma_decimal_len(b);
    if a < 10 && b < 10 {
        assert(decimal(a)[0] == digit_char(a));
        assert(decimal(b)[0] == digit_char(b));
        lemma_digit_char_injective(a, b);
    } else if a >= 10 && b >= 10 {
        let da = decimal(a / 10);
        let db = decimal(b / 10);
        assert(decimal(a).last() == digit_char(a % 10));
        assert(decimal(b).last() == digit_char(b % 10));
        lemma_digit_char_injective(a % 10, b % 10);
        assert(decimal(a).drop_last() =~= da);
        assert(decimal(b).drop_last() =~= db);
        lemma_decimal_injective(a / 10, b / 10);
    } else if a < 10 {
        lemma_decimal_len(b / 10);
        assert(decimal(b).len() >= 2);
    } else {
        lemma_decimal_len(a / 10);
        assert(decimal(a).len() >= 2);
    }
}

proof fn lemma_decimal_len(n: nat)
    ensures
        decimal(n).len() >= 1,
        n >= 10 ==> decimal(n).len() >= 2,
    decreases n,
{
    if n >= 10 {
        lemma_decimal_len(n / 10);
    }
}

/// The path `base` joined with `part`, as `Path::join` forms it.
pub uninterp spec fn path_join(base: Seq<char>, part: Seq<char>) -> Seq<char>;

/// Calls `Path::join` and converts the result to a string; the result is
/// named `path_join` of the two inputs' characters.
#[verifier::external_body]
pub(crate) fn join_path(base: &str, part: &str) -> (joined: String)
    ensures
        joined@ == path_join(base@, part@),
{
    std::path::Path::new(base).join(part).to_string_lossy().into_owned()
}

} // verus!
