//! Character-level helpers shared by the parsers and formatters: decimal and
//! hexadecimal spellings of numbers and conversions between strings and
//! character vectors.

use vstd::prelude::*;

verus! {

/// The ASCII digit for `d` (`d < 10`).
pub open spec fn digit_char(d: nat) -> char {
    if d == 0 { '0' }
    else if d == 1 { '1' }
    else if d == 2 { '2' }
    else if d == 3 { '3' }
    else if d == 4 { '4' }
    else if d == 5 { '5' }
    else if d == 6 { '6' }
    else if d == 7 { '7' }
    else if d == 8 { '8' }
    else { '9' }
}

/// The lowercase hexadecimal digit for `d` (`d < 16`).
pub open spec fn hex_char(d: nat) -> char {
    if d < 10 { digit_char(d) }
    else if d == 10 { 'a' }
    else if d == 11 { 'b' }
    else if d == 12 { 'c' }
    else if d == 13 { 'd' }
    else if d == 14 { 'e' }
    else { 'f' }
}

/// Decimal spelling of `n`, no sign and no leading zeros.
pub open spec fn decimal(n: nat) -> Seq<char>
    decreases n,
{
    if n < 10 {
        seq![digit_char(n)]
    } else {
        decimal(n / 10) + seq![digit_char(n % 10)]
    }
}

/// Lowercase hexadecimal spelling of `n`, no prefix and no leading zeros.
pub open spec fn hexadecimal(n: nat) -> Seq<char>
    decreases n,
{
    if n < 16 {
        seq![hex_char(n)]
    } else {
        hexadecimal(n / 16) + seq![hex_char(n % 16)]
    }
}

/// Decimal spelling of a signed number: a `-` before the magnitude of a
/// negative one.
pub open spec fn signed_decimal(n: int) -> Seq<char> {
    if n < 0 {
        seq!['-'] + decimal((-n) as nat)
    } else {
        decimal(n as nat)
    }
}

/// The character `hex_char` gives for `d`.
pub(crate) fn hex_digit(d: u64) -> (r: char)
    requires
        d < 16,
    ensures
        r == hex_char(d as nat),
        d < 10 ==> r == digit_char(d as nat),
{
    if d == 0 { '0' }
    else if d == 1 { '1' }
    else if d == 2 { '2' }
    else if d == 3 { '3' }
    else if d == 4 { '4' }
    else if d == 5 { '5' }
    else if d == 6 { '6' }
    else if d == 7 { '7' }
    else if d == 8 { '8' }
    else if d == 9 { '9' }
    else if d == 10 { 'a' }
    else if d == 11 { 'b' }
    else if d == 12 { 'c' }
    else if d == 13 { 'd' }
    else if d == 14 { 'e' }
    else { 'f' }
}

/// The digits of `n` in base 10, most significant first.
fn decimal_chars(n: u64) -> (r: Vec<char>)
    ensures
        r@ == decimal(n as nat),
{
    let mut v = n;
    let mut out: Vec<char> = Vec::new();
    loop
        invariant_except_break
            decimal(n as nat) == decimal(v as nat) + out@,
        ensures
            decimal(n as nat) == out@,
        decreases v,
    {
        let c = hex_digit(v % 10);
        let ghost before = out@;
        out.insert(0, c);
        assert(out@ =~= seq![c] + before);
        if v < 10 {
            assert(decimal(v as nat) == seq![c]);
            break;
        }
        assert(decimal(v as nat) == decimal((v / 10) as nat) + seq![c]);
        v = v / 10;
    }
    out
}

/// `n` in decimal, without sign or padding.
pub(crate) fn decimal_string(n: u64) -> (r: String)
    ensures
        r@ == decimal(n as nat),
{
    let v = decimal_chars(n);
    string_from_chars(v.as_slice())
}

/// `n` in decimal: the magnitude in base 10, preceded by `-` when negative.
pub(crate) fn signed_decimal_string(n: i64) -> (r: String)
    ensures
        r@ == signed_decimal(n as int),
{
    if n < 0 {
        let magnitude: u64 = if n == i64::MIN { 9223372036854775808u64 } else { (-n) as u64 };
        let digits = decimal_chars(magnitude);
        let mut out: Vec<char> = Vec::new();
        out.push('-');
        let mut i: usize = 0;
        while i < digits.len()
            invariant
                i <= digits.len(),
                out@ == seq!['-'] + digits@.subrange(0, i as int),
            decreases digits.len() - i,
        {
            out.push(digits[i]);
            i = i + 1;
            assert(out@ =~= seq!['-'] + digits@.subrange(0, i as int));
        }
        assert(digits@.subrange(0, i as int) =~= digits@);
        string_from_chars(out.as_slice())
    } else {
        decimal_string(n as u64)
    }
}

/// `n` in lowercase hexadecimal, without prefix or padding.
pub(crate) fn hex_string(n: u64) -> (r: String)
    ensures
        r@ == hexadecimal(n as nat),
{
    let mut v = n;
    let mut out: Vec<char> = Vec::new();
    loop
        invariant_except_break
            hexadecimal(n as nat) == hexadecimal(v as nat) + out@,
        ensures
            hexadecimal(n as nat) == out@,
        decreases v,
    {
        let c = hex_digit(v % 16);
        let ghost before = out@;
        out.insert(0, c);
        assert(out@ =~= seq![c] + before);
        if v < 16 {
            assert(hexadecimal(v as nat) == seq![c]);
            break;
        }
        assert(hexadecimal(v as nat) == hexadecimal((v / 16) as nat) + seq![c]);
        v = v / 16;
    }
    string_from_chars(out.as_slice())
}

/// The characters of `s`, in order (std's `str::chars` collected).
#[verifier::external_body]
pub(crate) fn chars_of(s: &str) -> (r: Vec<char>)
    ensures
        r@ == s@,
{
    s.chars().collect()
}

/// The string whose characters are `v`, in order (std's `String: FromIterator<char>`).
#[verifier::external_body]
pub(crate) fn string_from_chars(v: &[char]) -> (r: String)
    ensures
        r@ == v@,
{
    v.iter().collect()
}

/// `a` followed by `b`.
pub fn concat(a: &str, b: &str) -> (r: String)
    ensures
        r@ == a@ + b@,
{
    let va = chars_of(a);
    let vb = chars_of(b);
    let mut out: Vec<char> = Vec::new();
    let mut i: usize = 0;
    while i < va.len()
        invariant
            i <= va.len(),
            out@ == va@.take(i as int),
        decreases va.len() - i,
    {
        out.push(va[i]);
        i = i + 1;
        assert(out@ == va@.take(i as int));
    }
    let mut j: usize = 0;
    while j < vb.len()
        invariant
            j <= vb.len(),
            i == va.len(),
            out@ == va@ + vb@.take(j as int),
        decreases vb.len() - j,
    {
        out.push(vb[j]);
        j = j + 1;
        assert(out@ == va@ + vb@.take(j as int));
    }
    assert(va@.take(i as int) == va@);
    assert(vb@.take(j as int) == vb@);
    string_from_chars(out.as_slice())
}

/// Whether `a` and `b` hold the same characters.
pub fn str_eq(a: &str, b: &str) -> (r: bool)
    ensures
        r == (a@ == b@),
{
    let va = chars_of(a);
    let vb = chars_of(b);
    if va.len() != vb.len() {
        return false;
    }
    let mut i: usize = 0;
    while i < va.len()
        invariant
            va@ == a@,
            vb@ == b@,
            va.len() == vb.len(),
            i <= va.len(),
            forall|j: int| 0 <= j < i ==> va@[j] == vb@[j],
        decreases va.len() - i,
    {
        if va[i] != vb[i] {
            assert(a@[i as int] != b@[i as int]);
            return false;
        }
        i = i + 1;
    }
    assert(va@ =~= vb@);
    true
}

/// Unicode's White_Space property, which std's `char::is_whitespace`,
/// `str::trim` and `str::split_whitespace` go by.
pub open spec fn is_unicode_whitespace(c: char) -> bool {
    ||| ('\u{9}' <= c && c <= '\u{d}')
    ||| c == ' '
    ||| c == '\u{85}'
    ||| c == '\u{a0}'
    ||| c == '\u{1680}'
    ||| ('\u{2000}' <= c && c <= '\u{200a}')
    ||| c == '\u{2028}'
    ||| c == '\u{2029}'
    ||| c == '\u{202f}'
    ||| c == '\u{205f}'
    ||| c == '\u{3000}'
}

pub fn is_whitespace(c: char) -> (r: bool)
    ensures
        r == is_unicode_whitespace(c),
{
    ('\u{9}' <= c && c <= '\u{d}') || c == ' ' || c == '\u{85}' || c == '\u{a0}' || c == '\u{1680}'
        || ('\u{2000}' <= c && c <= '\u{200a}') || c == '\u{2028}' || c == '\u{2029}' || c
        == '\u{202f}' || c == '\u{205f}' || c == '\u{3000}'
}

/// How many bytes UTF-8 spends on `c`.
pub open spec fn utf8_len(c: char) -> nat {
    if (c as u32) < 0x80 {
        1
    } else if (c as u32) < 0x800 {
        2
    } else if (c as u32) < 0x10000 {
        3
    } else {
        4
    }
}

pub fn utf8_len_exec(c: char) -> (r: usize)
    ensures
        r == utf8_len(c),
{
    let v = c as u32;
    if v < 0x80 {
        1
    } else if v < 0x800 {
        2
    } else if v < 0x10000 {
        3
    } else {
        4
    }
}

/// How many bytes UTF-8 spends on the first `k` characters of `s`.
pub open spec fn utf8_prefix_len(s: Seq<char>, k: int) -> nat
    decreases k,
{
    if k <= 0 {
        0
    } else {
        utf8_prefix_len(s, k - 1) + utf8_len(s[k - 1])
    }
}

/// Whether byte `limit` of the UTF-8 encoding of `s` lies between two
/// characters or past the end: where std's `String::truncate` cuts without
/// panicking.
pub open spec fn is_char_boundary_at(s: Seq<char>, limit: nat) -> bool {
    utf8_prefix_len(s, s.len() as int) <= limit || exists|k: int|
        0 <= k <= s.len() && #[trigger] utf8_prefix_len(s, k) == limit
}

proof fn lemma_prefix_monotone(s: Seq<char>, a: int, b: int)
    requires
        0 <= a <= b <= s.len(),
    ensures
        utf8_prefix_len(s, a) <= utf8_prefix_len(s, b),
        a < b ==> utf8_prefix_len(s, a) < utf8_prefix_len(s, b),
    decreases b - a,
{
    if a < b {
        lemma_prefix_monotone(s, a, b - 1);
    }
}

/// Whether byte `limit` of the UTF-8 encoding of `v` lies between two
/// characters or past the end.
pub fn is_char_boundary(v: &Vec<char>, limit: usize) -> (r: bool)
    ensures
        r == is_char_boundary_at(v@, limit as nat),
{
    let mut used: usize = 0;
    let mut i: usize = 0;
    while i < v.len()
        invariant
            i <= v.len(),
            used == utf8_prefix_len(v@, i as int),
            used <= limit,
            forall|k: int| 0 <= k < i ==> utf8_prefix_len(v@, k) != limit,
        decreases v.len() - i,
    {
        if used == limit {
            assert(utf8_prefix_len(v@, i as int) == limit);
            return true;
        }
        let n = utf8_len_exec(v[i]);
        if n > limit - used {
            proof {
                assert(utf8_prefix_len(v@, i + 1) > limit);
                lemma_prefix_monotone(v@, i + 1, v@.len() as int);
                assert forall|k: int| 0 <= k <= v@.len() implies #[trigger] utf8_prefix_len(v@, k) != limit by {
                    if k > i {
                        lemma_prefix_monotone(v@, i + 1, k);
                    }
                }
            }
            return false;
        }
        used = used + n;
        i = i + 1;
    }
    true
}

/// `s` without its leading and trailing whitespace; nothing is left of a
/// text that is all whitespace.
pub open spec fn trimmed(s: Seq<char>) -> Seq<char> {
    let a = leading_whitespace(s, 0);
    let b = trailing_end(s, s.len() as int);
    if a < b {
        s.subrange(a, b)
    } else {
        Seq::empty()
    }
}

/// Where the leading whitespace of `s`, scanned from `i`, ends.
pub open spec fn leading_whitespace(s: Seq<char>, i: int) -> int
    decreases s.len() - i,
{
    if i >= s.len() || !is_unicode_whitespace(s[i]) {
        i
    } else {
        leading_whitespace(s, i + 1)
    }
}

/// Where `s` ends once the trailing whitespace before `j` is dropped.
pub open spec fn trailing_end(s: Seq<char>, j: int) -> int
    decreases j,
{
    if j <= 0 || j > s.len() || !is_unicode_whitespace(s[j - 1]) {
        j
    } else {
        trailing_end(s, j - 1)
    }
}

proof fn lemma_fitting_within(s: Seq<char>, i: int, used: nat, limit: nat)
    requires
        0 <= i <= s.len(),
        used == utf8_prefix_len(s, i),
        used <= limit,
    ensures
        i <= fitting_chars(s, i, used, limit) <= s.len(),
        utf8_prefix_len(s, fitting_chars(s, i, used, limit)) <= limit,
    decreases s.len() - i,
{
    if i < s.len() && used + utf8_len(s[i]) <= limit {
        lemma_fitting_within(s, i + 1, used + utf8_len(s[i]), limit);
    }
}

proof fn lemma_prefix_of_prefix(s: Seq<char>, k: int, j: int)
    requires
        0 <= j <= k <= s.len(),
    ensures
        utf8_prefix_len(s.subrange(0, k), j) == utf8_prefix_len(s, j),
    decreases j,
{
    if j > 0 {
        lemma_prefix_of_prefix(s, k, j - 1);
    }
}

/// What `cut_to_bytes` keeps is a prefix of the text whose UTF-8 encoding
/// fits in the limit.
pub proof fn lemma_cut_fits(s: Seq<char>, limit: nat)
    ensures
        cut_to_bytes(s, limit).len() <= s.len(),
        cut_to_bytes(s, limit) == s.subrange(0, cut_to_bytes(s, limit).len() as int),
        utf8_prefix_len(cut_to_bytes(s, limit), cut_to_bytes(s, limit).len() as int) <= limit,
{
    lemma_fitting_within(s, 0, 0, limit);
    let k = fitting_chars(s, 0, 0, limit);
    lemma_prefix_of_prefix(s, k, k);
}

/// `s` without leading and trailing whitespace, as std's `str::trim` gives.
pub fn trim_chars(s: &str) -> (r: Vec<char>)
    ensures
        r@ == trimmed(s@),
{
    let v = chars_of(s);
    let mut i: usize = 0;
    while i < v.len() && is_whitespace(v[i])
        invariant
            v@ == s@,
            i <= v.len(),
            leading_whitespace(s@, 0) == leading_whitespace(s@, i as int),
        decreases v.len() - i,
    {
        i = i + 1;
    }
    let mut j: usize = v.len();
    while j > 0 && is_whitespace(v[j - 1])
        invariant
            v@ == s@,
            j <= v.len(),
            trailing_end(s@, s@.len() as int) == trailing_end(s@, j as int),
        decreases j,
    {
        j = j - 1;
    }
    assert(i == leading_whitespace(s@, i as int));
    assert(j == trailing_end(s@, j as int));
    let mut out: Vec<char> = Vec::new();
    if i < j {
        let mut k = i;
        while k < j
            invariant
                v@ == s@,
                i <= k <= j <= v.len(),
                out@ == s@.subrange(i as int, k as int),
            decreases j - k,
        {
            out.push(v[k]);
            k = k + 1;
            assert(out@ =~= s@.subrange(i as int, k as int));
        }
    }
    assert(out@ =~= trimmed(s@));
    out
}

/// How many characters of `s`, from `i` on with `used` bytes already taken,
/// fit in `limit` bytes of UTF-8.
pub open spec fn fitting_chars(s: Seq<char>, i: int, used: nat, limit: nat) -> int
    decreases s.len() - i,
{
    if i < s.len() && used + utf8_len(s[i]) <= limit {
        fitting_chars(s, i + 1, used + utf8_len(s[i]), limit)
    } else {
        i
    }
}

/// The longest prefix of `s` whose UTF-8 encoding fits in `limit` bytes:
/// `s` itself when it fits, else `s` cut before the character that would
/// cross the limit.
pub open spec fn cut_to_bytes(s: Seq<char>, limit: nat) -> Seq<char> {
    s.subrange(0, fitting_chars(s, 0, 0, limit))
}

proof fn lemma_fitting_bounds(s: Seq<char>, i: int, used: nat, limit: nat)
    requires
        0 <= i <= s.len(),
    ensures
        i <= fitting_chars(s, i, used, limit) <= s.len(),
    decreases s.len() - i,
{
    if i < s.len() && used + utf8_len(s[i]) <= limit {
        lemma_fitting_bounds(s, i + 1, used + utf8_len(s[i]), limit);
    }
}

/// The longest prefix of `v` that fits in `limit` bytes of UTF-8.
pub fn cut_chars(v: &Vec<char>, limit: usize) -> (r: Vec<char>)
    ensures
        r@ == cut_to_bytes(v@, limit as nat),
{
    let mut out: Vec<char> = Vec::new();
    let mut used: usize = 0;
    let mut i: usize = 0;
    while i < v.len() && utf8_len_exec(v[i]) <= limit - used
        invariant
            i <= v.len(),
            used <= limit,
            out@ == v@.subrange(0, i as int),
            fitting_chars(v@, 0, 0, limit as nat) == fitting_chars(v@, i as int, used as nat, limit as nat),
        decreases v.len() - i,
    {
        used = used + utf8_len_exec(v[i]);
        out.push(v[i]);
        i = i + 1;
        assert(out@ =~= v@.subrange(0, i as int));
    }
    out
}

} // verus!
