//! Page navigation in the viewer: where a jump, a step to the previous or
//! next page, a page-mode scroll and the page input land.

use vstd::prelude::*;

use crate::text::{decimal, decimal_string};

verus! {

/// The last page of a document with `page_count` pages, counted from zero
/// (page zero when the document has none).
pub open spec fn last_page(page_count: u16) -> int {
    if page_count > 0 {
        page_count - 1
    } else {
        0
    }
}

/// The smaller of two integers.
pub open spec fn min_int(a: int, b: int) -> int {
    if a <= b {
        a
    } else {
        b
    }
}

/// The page a jump to `page` shows: the requested page, or the last page
/// when the document is shorter.
pub fn clamp_to_document(page: u16, page_count: u16) -> (target: u16)
    ensures
        target == min_int(page as int, last_page(page_count)),
{
    let last: u16 = if page_count > 0 { page_count - 1 } else { 0 };
    if page < last {
        page
    } else {
        last
    }
}

/// The page before `current`, or the first page.
pub fn previous_page(current: u16) -> (page: u16)
    ensures
        page == (if current > 0 { current - 1 } else { 0 }),
{
    if current > 0 {
        current - 1
    } else {
        0
    }
}

/// The page after `current`, but never past the last page.
pub fn next_page(current: u16, page_count: u16) -> (page: u16)
    ensures
        page == min_int(if current < u16::MAX { current + 1 } else { current as int }, last_page(page_count)),
{
    let after: u16 = if current < u16::MAX { current + 1 } else { current };
    clamp_to_document(after, page_count)
}

/// The page a page-mode scroll by `direction` pages lands on: the current
/// page moved by `direction`, held between the first and the last page.
pub fn page_after_step(current: u16, direction: i16, page_count: u16) -> (page: u16)
    requires
        page_count > 0,
    ensures
        page as int == (if current + direction < 0 {
            0
        } else if current + direction > page_count - 1 {
            page_count - 1
        } else {
            current + direction
        }),
{
    let next: i32 = current as i32 + direction as i32;
    let last: i32 = page_count as i32 - 1;
    if next < 0 {
        0
    } else if next > last {
        (page_count - 1) as u16
    } else {
        next as u16
    }
}

/// The page input as the jump dialog or the page field opens: the current
/// page counted from one, or empty without a document.
pub fn page_input_on_open(current_page: Option<u16>) -> (input: String)
    ensures
        input@ == (match current_page {
            Some(page) => decimal(page as nat + 1),
            None => Seq::empty(),
        }),
{
    match current_page {
        Some(page) => decimal_string(page as u64 + 1),
        None => String::new(),
    }
}

/// Whether `c` is one of the ASCII digits.
pub open spec fn is_ascii_digit_spec(c: char) -> bool {
    '0' <= c <= '9'
}

/// The ASCII digits of `s`, in order.
pub open spec fn ascii_digits(s: Seq<char>) -> Seq<char> {
    s.filter(|c: char| is_ascii_digit_spec(c))
}

/// What the page input keeps of what was typed: its first five ASCII
/// digits.
pub open spec fn jump_input_spec(value: Seq<char>) -> Seq<char> {
    let digits = ascii_digits(value);
    if digits.len() <= 5 {
        digits
    } else {
        digits.take(5)
    }
}

/// The page input after typing `value`: only its ASCII digits, at most
/// five of them.
pub fn jump_input_from(value: &str) -> (input: String)
    ensures
        input@ == jump_input_spec(value@),
{
    let ghost pred = |c: char| is_ascii_digit_spec(c);
    let n = value.unicode_len();
    let mut digits: Vec<char> = Vec::new();
    let mut i: usize = 0;
    while i < n
        invariant
            n == value@.len(),
            i <= n,
            pred == |c: char| is_ascii_digit_spec(c),
            digits@ == value@.take(i as int).filter(pred),
        decreases n - i,
    {
        let c = value.get_char(i);
        proof {
            assert(value@.take(i as int + 1) =~= value@.take(i as int).push(c));
            value@.take(i as int).lemma_filter_push(c, pred);
        }
        if '0' <= c && c <= '9' {
            digits.push(c);
        }
        i = i + 1;
    }
    assert(value@.take(n as int) =~= value@);
    let keep: usize = if digits.len() <= 5 { digits.len() } else { 5 };
    let mut input = String::new();
    let mut j: usize = 0;
    while j < keep
        invariant
            keep <= digits@.len(),
            j <= keep,
            input@ == digits@.take(j as int),
        decreases keep - j,
    {
        crate::text::push_char(&mut input, digits[j]);
        assert(input@ =~= digits@.take(j as int + 1));
        j = j + 1;
    }
    assert(digits@.len() <= 5 ==> digits@.take(keep as int) =~= digits@);
    input
}

/// The number that the ASCII digits `digits` write in decimal.
pub open spec fn decimal_value(digits: Seq<char>) -> int
    decreases digits.len(),
{
    if digits.len() == 0 {
        0
    } else {
        10 * decimal_value(digits.drop_last()) + (digits.last() as int - '0' as int)
    }
}

/// Whether every character of `s` is an ASCII digit.
pub open spec fn all_ascii_digits(s: Seq<char>) -> bool {
    forall|i: int| 0 <= i < s.len() ==> is_ascii_digit_spec(#[trigger] s[i])
}

/// `s` without one leading `+`.
pub open spec fn without_plus(s: Seq<char>) -> Seq<char> {
    if s.len() > 0 && s[0] == '+' {
        s.drop_first()
    } else {
        s
    }
}

/// What parsing `s` as a `u16` gives: an optional `+` followed by at least
/// one ASCII digit and nothing else, writing a number that fits in 16 bits.
pub open spec fn parse_u16_spec(s: Seq<char>) -> Option<u16> {
    let digits = without_plus(s);
    if digits.len() > 0 && all_ascii_digits(digits) && decimal_value(digits) <= u16::MAX {
        Some(decimal_value(digits) as u16)
    } else {
        None
    }
}

proof fn lemma_decimal_value_nonneg(digits: Seq<char>)
    requires
        forall|i: int| 0 <= i < digits.len() ==> is_ascii_digit_spec(#[trigger] digits[i]),
    ensures
        decimal_value(digits) >= 0,
    decreases digits.len(),
{
    if digits.len() > 0 {
        lemma_decimal_value_nonneg(digits.drop_last());
    }
}

/// The page that submitting the page input `input` jumps to, counted from
/// zero: the number typed less one (page zero for "0"), or `None` when the
/// input does not parse as a `u16`.
pub fn jump_target(input: &str) -> (target: Option<u16>)
    ensures
        target == (match parse_u16_spec(input@) {
            Some(page) => Some(if page > 0 { (page - 1) as u16 } else { 0u16 }),
            None => None,
        }),
{
    let n = input.unicode_len();
    let start: usize = if n > 0 && input.get_char(0) == '+' { 1 } else { 0 };
    let ghost digits = without_plus(input@);
    assert(digits =~= input@.skip(start as int));
    if start == n {
        return None;
    }
    // The value read so far, held at 65536 once it no longer fits.
    let mut value: u32 = 0;
    let mut all_digits = true;
    let mut i: usize = start;
    while i < n
        invariant
            n == input@.len(),
            start <= i <= n,
            digits == input@.skip(start as int),
            all_digits == (forall|j: int| start <= j < i ==> is_ascii_digit_spec(#[trigger] input@[j])),
            all_digits ==> value == min_int(decimal_value(input@.subrange(start as int, i as int)), 65536),
            value <= 65536,
        decreases n - i,
    {
        let c = input.get_char(i);
        let ghost prefix = input@.subrange(start as int, i as int + 1);
        assert(prefix.drop_last() =~= input@.subrange(start as int, i as int));
        assert(prefix.last() == c);
        if '0' <= c && c <= '9' {
            let d = (c as u32) - ('0' as u32);
            proof {
                if all_digits {
                    assert forall|j: int| 0 <= j < prefix.drop_last().len() implies is_ascii_digit_spec(#[trigger] prefix.drop_last()[j]) by {
                        assert(prefix.drop_last()[j] == input@[start + j]);
                    }
                    lemma_decimal_value_nonneg(prefix.drop_last());
                }
            }
            let grown = value * 10 + d;
            value = if grown > 65536 { 65536 } else { grown };
        } else {
            all_digits = false;
        }
        i = i + 1;
    }
    assert(input@.subrange(start as int, n as int) =~= digits);
    if !all_digits {
        proof {
            assert(exists|j: int| start <= j < n && !is_ascii_digit_spec(#[trigger] input@[j]));
            let j = choose|j: int| start <= j < n && !is_ascii_digit_spec(#[trigger] input@[j]);
            assert(digits[j - start] == input@[j]);
            assert(!is_ascii_digit_spec(digits[j - start]));
            assert(parse_u16_spec(input@).is_none());
        }
        return None;
    }
    assert(forall|j: int| 0 <= j < digits.len() ==> is_ascii_digit_spec(#[trigger] digits[j])) by {
        assert forall|j: int| 0 <= j < digits.len() implies is_ascii_digit_spec(#[trigger] digits[j]) by {
            assert(digits[j] == input@[start + j]);
        }
    }
    if value > 65535 {
        return None;
    }
    let page = value as u16;
    Some(if page > 0 { page - 1 } else { 0 })
}

} // verus!
