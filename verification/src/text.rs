//! Text utilities used across the library: comparison, joining, number
//! formatting and parsing, all specified over character sequences.

use vstd::prelude::*;
use vstd::string::StrSliceExecFns;
use vstd::string::StringExecFns;

verus! {

/// The code point of `c` after mapping an ASCII upper-case letter to lower case.
pub open spec fn lower_code(c: char) -> int {
    if 'A' <= c && c <= 'Z' {
        c as int + 32
    } else {
        c as int
    }
}

/// Two texts are equal up to the case of ASCII letters.
pub open spec fn same_ignoring_ascii_case(a: Seq<char>, b: Seq<char>) -> bool {
    &&& a.len() == b.len()
    &&& forall|i: int| 0 <= i < a.len() ==> lower_code(#[trigger] a[i]) == lower_code(b[i])
}

/// The views of a sequence of strings.
pub open spec fn views(v: Seq<String>) -> Seq<Seq<char>> {
    v.map_values(|s: String| s@)
}

/// `parts` joined with `sep` between consecutive parts.
pub open spec fn joined(parts: Seq<Seq<char>>, sep: Seq<char>) -> Seq<char>
    decreases parts.len(),
{
    if parts.len() == 0 {
        Seq::empty()
    } else if parts.len() == 1 {
        parts[0]
    } else {
        joined(parts.drop_last(), sep) + sep + parts.last()
    }
}

/// The character of a decimal digit.
pub open spec fn digit_char(d: nat) -> char {
    ('0' as int + d) as char
}

/// The decimal representation of `n`, without sign or leading zeros.
pub open spec fn decimal(n: nat) -> Seq<char>
    decreases n,
{
    if n < 10 {
        seq![digit_char(n)]
    } else {
        decimal(n / 10).push(digit_char(n % 10))
    }
}

/// `c` is an ASCII decimal digit.
pub open spec fn is_digit(c: char) -> bool {
    '0' <= c && c <= '9'
}

/// The number written by a sequence of decimal digits.
pub open spec fn digits_value(s: Seq<char>) -> nat
    decreases s.len(),
{
    if s.len() == 0 {
        0
    } else {
        digits_value(s.drop_last()) * 10 + (s.last() as nat - '0' as nat) as nat
    }
}

/// A non-empty sequence of decimal digits.
pub open spec fn all_digits(s: Seq<char>) -> bool {
    s.len() > 0 && forall|i: int| 0 <= i < s.len() ==> is_digit(#[trigger] s[i])
}

/// The value that the standard unsigned integer parser reads from `s`: an
/// optional `+` followed by at least one digit, the value fitting in `bound`.
pub open spec fn unsigned_value(s: Seq<char>, bound: nat) -> Option<nat> {
    let d = if s.len() > 0 && s[0] == '+' { s.drop_first() } else { s };
    if all_digits(d) && digits_value(d) <= bound {
        Some(digits_value(d))
    } else {
        None
    }
}

/// The value that the standard `i32` parser reads from `s`: an optional sign
/// followed by at least one digit, the value fitting in `i32`.
pub open spec fn i32_value(s: Seq<char>) -> Option<i32> {
    if s.len() > 0 && s[0] == '-' {
        let d = s.drop_first();
        if all_digits(d) && digits_value(d) <= 0x8000_0000 {
            Some((0 - digits_value(d)) as i32)
        } else {
            None
        }
    } else {
        match unsigned_value(s, 0x7fff_ffff) {
            Some(v) => Some(v as i32),
            None => None,
        }
    }
}

/// The lower-case mapping of a text, as `str::to_lowercase` computes it.
pub uninterp spec fn lowercase_of(s: Seq<char>) -> Seq<char>;

/// Calls `str::to_lowercase`; the result is named `lowercase_of` of the input
/// (Unicode lower-case mapping, which a few lines cannot state).
#[verifier::external_body]
pub(crate) fn to_lowercase(s: &str) -> (r: String)
    ensures
        r@ == lowercase_of(s@),
{
    s.to_lowercase()
}

/// Calls `String::push`: the character is appended to the text.
#[verifier::external_body]
pub(crate) fn push_char(s: &mut String, c: char)
    ensures
        final(s)@ == old(s)@.push(c),
{
    s.push(c);
}

/// A copy of a text.
pub fn copy_str(s: &str) -> (r: String)
    ensures
        r@ == s@,
{
    s.to_owned()
}

/// A copy of a list of texts.
pub fn copy_strings(v: &Vec<String>) -> (r: Vec<String>)
    ensures
        r@ == v@,
{
    let mut out: Vec<String> = Vec::new();
    let mut i: usize = 0;
    while i < v.len()
        invariant
            i <= v@.len(),
            out@ == v@.take(i as int),
        decreases v@.len() - i,
    {
        out.push(v[i].clone());
        assert(out@ =~= v@.take(i as int + 1));
        i = i + 1;
    }
    assert(v@.take(v@.len() as int) =~= v@);
    out
}

/// Whether two texts are equal.
pub fn str_eq(a: &str, b: &str) -> (r: bool)
    ensures
        r == (a@ == b@),
{
    let x = a.to_owned();
    let y = b.to_owned();
    x == y
}

/// The code point of `c` after ASCII lower-casing.
fn lower_code_of(c: char) -> (r: u32)
    ensures
        r == lower_code(c),
{
    if c >= 'A' && c <= 'Z' {
        (c as u32) + 32
    } else {
        c as u32
    }
}

/// Whether two texts are equal up to the case of ASCII letters.
pub fn eq_ignore_ascii_case(a: &str, b: &str) -> (r: bool)
    ensures
        r == same_ignoring_ascii_case(a@, b@),
{
    let n = a.unicode_len();
    if n != b.unicode_len() {
        return false;
    }
    let mut i: usize = 0;
    while i < n
        invariant
            n == a@.len(),
            n == b@.len(),
            i <= n,
            forall|j: int| 0 <= j < i ==> lower_code(#[trigger] a@[j]) == lower_code(b@[j]),
        decreases n - i,
    {
        let ca = a.get_char(i);
        let cb = b.get_char(i);
        if lower_code_of(ca) != lower_code_of(cb) {
            return false;
        }
        i = i + 1;
    }
    true
}

/// Whether `s` begins with `prefix`.
pub fn starts_with(s: &str, prefix: &str) -> (r: bool)
    ensures
        r == (prefix@.len() <= s@.len() && s@.subrange(0, prefix@.len() as int) == prefix@),
{
    let n = prefix.unicode_len();
    if n > s.unicode_len() {
        return false;
    }
    let mut i: usize = 0;
    while i < n
        invariant
            n == prefix@.len(),
            n <= s@.len(),
            i <= n,
            forall|j: int| 0 <= j < i ==> #[trigger] s@[j] == prefix@[j],
        decreases n - i,
    {
        if s.get_char(i) != prefix.get_char(i) {
            assert(s@.subrange(0, n as int)[i as int] != prefix@[i as int]);
            return false;
        }
        i = i + 1;
    }
    assert(s@.subrange(0, n as int) =~= prefix@);
    true
}

/// The character of the decimal digit `d`.
fn digit_to_char(d: usize) -> (c: char)
    requires
        d < 10,
    ensures
        c == digit_char(d as nat),
{
    match d {
        0 => '0',
        1 => '1',
        2 => '2',
        3 => '3',
        4 => '4',
        5 => '5',
        6 => '6',
        7 => '7',
        8 => '8',
        _ => '9',
    }
}

/// The decimal representation of `n`, as `format!("{}", n)` writes it.
pub fn decimal_string(n: usize) -> (r: String)
    ensures
        r@ == decimal(n as nat),
    decreases n,
{
    if n < 10 {
        let mut s = String::new();
        push_char(&mut s, digit_to_char(n));
        assert(s@ =~= decimal(n as nat));
        s
    } else {
        let mut s = decimal_string(n / 10);
        push_char(&mut s, digit_to_char(n % 10));
        s
    }
}

/// `parts` joined with `sep` between consecutive parts, as `[String]::join`
/// computes it.
pub fn join(parts: &Vec<String>, sep: &str) -> (r: String)
    ensures
        r@ == joined(views(parts@), sep@),
{
    let mut out = String::new();
    let mut i: usize = 0;
    while i < parts.len()
        invariant
            i <= parts@.len(),
            out@ == joined(views(parts@.take(i as int)), sep@),
        decreases parts@.len() - i,
    {
        let ghost before = views(parts@.take(i as int));
        let ghost after = views(parts@.take(i as int + 1));
        assert(after.drop_last() =~= before);
        assert(after.last() == parts@[i as int]@);
        if i > 0 {
            out.append(sep);
        } else {
            assert(before.len() == 0);
            assert(out@ =~= Seq::<char>::empty());
        }
        out.append(parts[i].as_str());
        if i == 0 {
            assert(out@ =~= after[0]);
        }
        i = i + 1;
    }
    assert(parts@.take(parts@.len() as int) =~= parts@);
    out
}

/// The value of a decimal digit character.
fn digit_value(c: char) -> (d: usize)
    requires
        is_digit(c),
    ensures
        d == c as nat - '0' as nat,
        d < 10,
{
    ((c as u32) - ('0' as u32)) as usize
}

/// The decimal representation of a number is a non-empty run of digits that
/// reads back as the number.
pub proof fn lemma_decimal_digits(n: nat)
    ensures
        all_digits(decimal(n)),
        digits_value(decimal(n)) == n,
    decreases n,
{
    if n < 10 {
        assert(decimal(n).drop_last() =~= Seq::<char>::empty());
        lemma_digits_value_push(Seq::<char>::empty(), digit_char(n));
        assert(seq![digit_char(n)] =~= Seq::<char>::empty().push(digit_char(n)));
    } else {
        lemma_decimal_digits(n / 10);
        lemma_digits_value_push(decimal(n / 10), digit_char(n % 10));
        let d = decimal(n);
        assert forall|i: int| 0 <= i < d.len() implies is_digit(#[trigger] d[i]) by {
            if i < d.len() - 1 {
                assert(d[i] == decimal(n / 10)[i]);
            }
        }
    }
}

/// Different numbers have different decimal representations.
pub proof fn lemma_decimal_injective(a: nat, b: nat)
    requires
        decimal(a) == decimal(b),
    ensures
        a == b,
{
    lemma_decimal_digits(a);
    lemma_decimal_digits(b);
}

pub(crate) proof fn lemma_digits_value_push(s: Seq<char>, c: char)
    ensures
        digits_value(s.push(c)) == digits_value(s) * 10 + (c as nat - '0' as nat) as nat,
{
    assert(s.push(c).drop_last() =~= s);
}

/// Reads the decimal digits of `s` from `start` on into a number no larger
/// than `bound`.
fn digits_at_most(s: &str, start: usize, bound: usize) -> (r: Option<usize>)
    requires
        start <= s@.len(),
        bound >= 9,
    ensures
        r == (if all_digits(s@.skip(start as int)) && digits_value(s@.skip(start as int))
            <= bound {
            Some(digits_value(s@.skip(start as int)) as usize)
        } else {
            None::<usize>
        }),
{
    let n = s.unicode_len();
    let ghost d = s@.skip(start as int);
    if start == n {
        return None;
    }
    let mut value: usize = 0;
    let mut i: usize = start;
    while i < n
        invariant
            n == s@.len(),
            start <= i <= n,
            start < n,
            d == s@.skip(start as int),
            forall|j: int| 0 <= j < i - start ==> is_digit(#[trigger] d[j]),
            value == digits_value(d.take(i - start)),
            value <= bound,
            bound >= 9,
        decreases n - i,
    {
        let c = s.get_char(i);
        assert(d[i - start] == c);
        if !(c >= '0' && c <= '9') {
            assert(!all_digits(d));
            return None;
        }
        let dv = digit_value(c);
        proof {
            assert(d.take(i - start + 1) =~= d.take(i - start).push(c));
            lemma_digits_value_push(d.take(i - start), c);
        }
        if value > (bound - dv) / 10 {
            proof {
                assert(value * 10 + dv > bound) by (nonlinear_arith)
                    requires
                        value > (bound - dv) / 10,
                        dv <= bound || value > 0,
                        dv < 10,
                ;
                lemma_prefix_bound(d, i - start + 1, bound as nat);
            }
            return None;
        }
        assert(value * 10 + dv <= bound) by (nonlinear_arith)
            requires
                value <= (bound - dv) / 10,
                dv <= bound,
        ;
        value = value * 10 + dv;
        i = i + 1;
    }
    assert(d.take(n - start) =~= d);
    Some(value)
}

/// A longer digit prefix never has a smaller value, so once a prefix exceeds
/// the bound the whole sequence does.
pub(crate) proof fn lemma_prefix_bound(d: Seq<char>, k: int, bound: nat)
    requires
        0 <= k <= d.len(),
        digits_value(d.take(k)) > bound,
    ensures
        !(all_digits(d) && digits_value(d) <= bound),
    decreases d.len() - k,
{
    if k < d.len() && all_digits(d) {
        let c = d[k];
        assert(d.take(k + 1) =~= d.take(k).push(c));
        lemma_digits_value_push(d.take(k), c);
        assert(is_digit(c));
        lemma_prefix_bound(d, k + 1, bound);
    } else if k == d.len() {
        assert(d.take(k) =~= d);
    }
}

/// Parses a `usize` as `str::parse::<usize>` does: an optional `+` and at
/// least one decimal digit, with a value that fits.
pub fn parse_usize(s: &str) -> (r: Option<usize>)
    ensures
        r == (match unsigned_value(s@, usize::MAX as nat) {
            Some(v) => Some(v as usize),
            None => None::<usize>,
        }),
{
    let n = s.unicode_len();
    if n > 0 && s.get_char(0) == '+' {
        assert(s@.skip(1) =~= s@.drop_first());
        digits_at_most(s, 1, usize::MAX)
    } else {
        assert(s@.skip(0) =~= s@);
        digits_at_most(s, 0, usize::MAX)
    }
}

/// Parses an `i32` as `str::parse::<i32>` does: an optional sign and at least
/// one decimal digit, with a value that fits.
pub fn parse_i32(s: &str) -> (r: Option<i32>)
    ensures
        r == i32_value(s@),
{
    let n = s.unicode_len();
    if n > 0 && s.get_char(0) == '-' {
        assert(s@.skip(1) =~= s@.drop_first());
        match digits_at_most(s, 1, 0x8000_0000) {
            Some(v) => {
                let neg: i64 = 0 - (v as i64);
                Some(neg as i32)
            },
            None => None,
        }
    } else if n > 0 && s.get_char(0) == '+' {
        assert(s@.skip(1) =~= s@.drop_first());
        match digits_at_most(s, 1, 0x7fff_ffff) {
            Some(v) => Some(v as i32),
            None => None,
        }
    } else {
        assert(s@.skip(0) =~= s@);
        match digits_at_most(s, 0, 0x7fff_ffff) {
            Some(v) => Some(v as i32),
            None => None,
        }
    }
}

} // verus!
