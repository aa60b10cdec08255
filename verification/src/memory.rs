//! The resident memory of the process, read from the text of its status
//! file: the `VmRSS:` line gives it in kilobytes.

use crate::text::{
    all_digits, digits_value, is_digit, lemma_digits_value_push, lemma_prefix_bound, starts_with,
    unsigned_value,
};
use vstd::prelude::*;
use vstd::string::StrSliceExecFns;

verus! {

/// The characters that `char::is_whitespace` accepts: those with the Unicode
/// `White_Space` property.
pub open spec fn is_white_space(c: char) -> bool {
    ||| '\t' <= c <= '\r'
    ||| c == ' '
    ||| c == '\u{85}'
    ||| c == '\u{a0}'
    ||| c == '\u{1680}'
    ||| '\u{2000}' <= c <= '\u{200a}'
    ||| c == '\u{2028}'
    ||| c == '\u{2029}'
    ||| c == '\u{202f}'
    ||| c == '\u{205f}'
    ||| c == '\u{3000}'
}

/// Whether a character is white space.
pub fn white_space(c: char) -> (r: bool)
    ensures
        r == is_white_space(c),
{
    ('\t' <= c && c <= '\r') || c == ' ' || c == '\u{85}' || c == '\u{a0}' || c == '\u{1680}' || (
    '\u{2000}' <= c && c <= '\u{200a}') || c == '\u{2028}' || c == '\u{2029}' || c == '\u{202f}'
        || c == '\u{205f}' || c == '\u{3000}'
}

/// The end of the line that starts at `i`: the next `\n`, or the end.
pub open spec fn line_end(s: Seq<char>, i: int) -> int
    decreases s.len() - i,
{
    if i >= s.len() {
        s.len() as int
    } else if s[i] == '\n' {
        i
    } else {
        line_end(s, i + 1)
    }
}

/// The first position from `i` on that is not white space, or the end.
pub open spec fn skip_space(s: Seq<char>, i: int) -> int
    decreases s.len() - i,
{
    if i >= s.len() {
        s.len() as int
    } else if is_white_space(s[i]) {
        skip_space(s, i + 1)
    } else {
        i
    }
}

/// The first position from `i` on that is white space, or the end.
pub open spec fn word_end(s: Seq<char>, i: int) -> int
    decreases s.len() - i,
{
    if i >= s.len() {
        s.len() as int
    } else if is_white_space(s[i]) {
        i
    } else {
        word_end(s, i + 1)
    }
}

/// The second word of a line, words being separated by white space.
pub open spec fn second_word(line: Seq<char>) -> Option<Seq<char>> {
    let a = skip_space(line, 0);
    let b = word_end(line, a);
    let c = skip_space(line, b);
    if c < line.len() {
        Some(line.subrange(c, word_end(line, c)))
    } else {
        None
    }
}

/// The kilobytes a `VmRSS:` line gives: its second word read as a `u64`.
pub open spec fn rss_kb_of_line(line: Seq<char>) -> Option<nat> {
    if "VmRSS:"@.len() <= line.len() && line.subrange(0, "VmRSS:"@.len() as int) == "VmRSS:"@ {
        match second_word(line) {
            Some(w) => unsigned_value(w, u64::MAX as nat),
            None => None,
        }
    } else {
        None
    }
}

/// A line ends at or after its start and within the text.
pub proof fn lemma_line_end_bounds(s: Seq<char>, i: int)
    requires
        0 <= i <= s.len(),
    ensures
        i <= line_end(s, i) <= s.len(),
    decreases s.len() - i,
{
    if i < s.len() && s[i] != '\n' {
        lemma_line_end_bounds(s, i + 1);
    }
}

/// The kilobytes of the first line, from the line that starts at `i` on,
/// that is a readable `VmRSS:` line. Lines end at `\\n`; a `\\r` before it is
/// white space and changes no word.
pub open spec fn rss_kb_from(s: Seq<char>, i: int) -> Option<nat>
    decreases s.len() + 1 - i,
{
    if i < 0 || i >= s.len() {
        None
    } else {
        let e = line_end(s, i);
        proof {
            lemma_line_end_bounds(s, i);
        }
        match rss_kb_of_line(s.subrange(i, e)) {
            Some(v) => Some(v),
            None => rss_kb_from(s, e + 1),
        }
    }
}

fn line_end_at(s: &str, n: usize, i: usize) -> (e: usize)
    requires
        n == s@.len(),
        i <= n,
    ensures
        e == line_end(s@, i as int),
        i <= e <= n,
{
    let mut j = i;
    while j < n
        invariant
            n == s@.len(),
            i <= j <= n,
            line_end(s@, i as int) == line_end(s@, j as int),
        decreases n - j,
    {
        if s.get_char(j) == '\n' {
            return j;
        }
        j = j + 1;
    }
    j
}

fn skip_space_at(s: &str, n: usize, i: usize) -> (e: usize)
    requires
        n == s@.len(),
        i <= n,
    ensures
        e == skip_space(s@, i as int),
        i <= e <= n,
{
    let mut j = i;
    while j < n
        invariant
            n == s@.len(),
            i <= j <= n,
            skip_space(s@, i as int) == skip_space(s@, j as int),
        decreases n - j,
    {
        if !white_space(s.get_char(j)) {
            return j;
        }
        j = j + 1;
    }
    j
}

fn word_end_at(s: &str, n: usize, i: usize) -> (e: usize)
    requires
        n == s@.len(),
        i <= n,
    ensures
        e == word_end(s@, i as int),
        i <= e <= n,
{
    let mut j = i;
    while j < n
        invariant
            n == s@.len(),
            i <= j <= n,
            word_end(s@, i as int) == word_end(s@, j as int),
        decreases n - j,
    {
        if white_space(s.get_char(j)) {
            return j;
        }
        j = j + 1;
    }
    j
}

/// Reads the characters of `s` from `start` to `end` as `u64` parsing
/// reads digits: at least one digit, with a value that fits.
fn digits_u64(s: &str, start: usize, end: usize) -> (r: Option<u64>)
    requires
        start <= end <= s@.len(),
    ensures
        r == (if all_digits(s@.subrange(start as int, end as int)) && digits_value(
            s@.subrange(start as int, end as int),
        ) <= u64::MAX {
            Some(digits_value(s@.subrange(start as int, end as int)) as u64)
        } else {
            None::<u64>
        }),
{
    let ghost d = s@.subrange(start as int, end as int);
    if start == end {
        return None;
    }
    let mut value: u64 = 0;
    let mut i: usize = start;
    while i < end
        invariant
            start <= i <= end,
            start < end,
            end <= s@.len(),
            d == s@.subrange(start as int, end as int),
            forall|j: int| 0 <= j < i - start ==> is_digit(#[trigger] d[j]),
            value == digits_value(d.take(i - start)),
        decreases end - i,
    {
        let c = s.get_char(i);
        assert(d[i - start] == c);
        if !(c >= '0' && c <= '9') {
            assert(!all_digits(d));
            return None;
        }
        let dv = ((c as u32) - ('0' as u32)) as u64;
        proof {
            assert(d.take(i - start + 1) =~= d.take(i - start).push(c));
            lemma_digits_value_push(d.take(i - start), c);
        }
        if value > (u64::MAX - dv) / 10 {
            proof {
                assert(value * 10 + dv > u64::MAX) by (nonlinear_arith)
                    requires
                        value > (u64::MAX - dv) / 10,
                        dv < 10,
                ;
                lemma_prefix_bound(d, i - start + 1, u64::MAX as nat);
            }
            return None;
        }
        assert(value * 10 + dv <= u64::MAX) by (nonlinear_arith)
            requires
                value <= (u64::MAX - dv) / 10,
                dv < 10,
        ;
        value = value * 10 + dv;
        i = i + 1;
    }
    assert(d.take(end - start) =~= d);
    Some(value)
}

/// Reads the characters of `s` from `start` to `end` as `u64` parsing does:
/// an optional `+` and at least one digit, with a value that fits.
fn parse_u64_range(s: &str, start: usize, end: usize) -> (r: Option<u64>)
    requires
        start <= end <= s@.len(),
    ensures
        r == (match unsigned_value(s@.subrange(start as int, end as int), u64::MAX as nat) {
            Some(v) => Some(v as u64),
            None => None::<u64>,
        }),
{
    let ghost w = s@.subrange(start as int, end as int);
    if start < end && s.get_char(start) == '+' {
        assert(s@.subrange(start as int + 1, end as int) =~= w.drop_first());
        digits_u64(s, start + 1, end)
    } else {
        digits_u64(s, start, end)
    }
}

/// The kilobytes a line gives, if it is a readable `VmRSS:` line.
pub fn line_rss_kb(line: &str) -> (r: Option<u64>)
    ensures
        r == (match rss_kb_of_line(line@) {
            Some(v) => Some(v as u64),
            None => None::<u64>,
        }),
{
    if !starts_with(line, "VmRSS:") {
        return None;
    }
    let n = line.unicode_len();
    let a = skip_space_at(line, n, 0);
    let b = word_end_at(line, n, a);
    let c = skip_space_at(line, n, b);
    if c < n {
        let d = word_end_at(line, n, c);
        parse_u64_range(line, c, d)
    } else {
        None
    }
}

/// The resident memory in kilobytes that a process status text gives: that
/// of the first readable `VmRSS:` line.
pub fn rss_kb_from_status(status: &str) -> (r: Option<u64>)
    ensures
        r == (match rss_kb_from(status@, 0) {
            Some(v) => Some(v as u64),
            None => None::<u64>,
        }),
{
    let n = status.unicode_len();
    let mut i: usize = 0;
    while i < n
        invariant
            n == status@.len(),
            i <= n,
            rss_kb_from(status@, 0) == rss_kb_from(status@, i as int),
        decreases n - i,
    {
        let e = line_end_at(status, n, i);
        let line = status.substring_char(i, e);
        match line_rss_kb(line) {
            Some(kb) => {
                return Some(kb);
            },
            None => {},
        }
        if e == n {
            assert(rss_kb_from(status@, e as int + 1) is None);
            return None;
        }
        i = e + 1;
    }
    None
}

/// The resident memory in bytes: the kilobytes times 1024, or 0 where the
/// status gives none.
pub fn rss_bytes(kb: Option<u64>) -> (r: u64)
    requires
        kb matches Some(k) ==> k * 1024 <= u64::MAX,
    ensures
        r == (match kb {
            Some(k) => k * 1024,
            None => 0,
        }),
{
    match kb {
        Some(k) => k * 1024,
        None => 0,
    }
}

} // verus!
