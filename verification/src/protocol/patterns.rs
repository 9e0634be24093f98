//! The text patterns the protocol schema pins for identifiers, versions and
//! vault paths, each as a specification of the pattern and a checker proved
//! to decide it.

use vstd::prelude::*;
use crate::text::chars_of;

verus! {

pub open spec fn is_digit(c: char) -> bool {
    '0' <= c && c <= '9'
}

pub open spec fn is_lower_hex_digit(c: char) -> bool {
    is_digit(c) || ('a' <= c && c <= 'f')
}

pub open spec fn is_ascii_alpha(c: char) -> bool {
    ('a' <= c && c <= 'z') || ('A' <= c && c <= 'Z')
}

/// The characters a pre-release or build tag may hold: `[0-9A-Za-z-.]`.
pub open spec fn is_tag_char(c: char) -> bool {
    is_digit(c) || is_ascii_alpha(c) || c == '-' || c == '.'
}

// ---------------------------------------------------------------- uuid --

/// What position `i` of a UUID holds: a dash at 8, 13, 18 and 23, a
/// lowercase hexadecimal digit elsewhere.
pub open spec fn uuid_char_ok(i: int, c: char) -> bool {
    if i == 8 || i == 13 || i == 18 || i == 23 {
        c == '-'
    } else {
        is_lower_hex_digit(c)
    }
}

/// `^[0-9a-f]{8}-[0-9a-f]{4}-[0-9a-f]{4}-[0-9a-f]{4}-[0-9a-f]{12}$`
pub open spec fn is_uuid_text(s: Seq<char>) -> bool {
    s.len() == 36 && forall|i: int| 0 <= i < 36 ==> #[trigger] uuid_char_ok(i, s[i])
}

fn char_is_lower_hex(c: char) -> (r: bool)
    ensures
        r == is_lower_hex_digit(c),
{
    ('0' <= c && c <= '9') || ('a' <= c && c <= 'f')
}

/// Whether `s` is a UUID in its canonical lowercase spelling.
pub fn check_uuid(s: &str) -> (r: bool)
    ensures
        r == is_uuid_text(s@),
{
    let v = chars_of(s);
    if v.len() != 36 {
        return false;
    }
    let mut i: usize = 0;
    while i < 36
        invariant
            v@ == s@,
            v.len() == 36,
            i <= 36,
            forall|j: int| 0 <= j < i ==> #[trigger] uuid_char_ok(j, v@[j]),
        decreases 36 - i,
    {
        let c = v[i];
        let ok = if i == 8 || i == 13 || i == 18 || i == 23 {
            c == '-'
        } else {
            char_is_lower_hex(c)
        };
        if !ok {
            assert(!uuid_char_ok(i as int, s@[i as int]));
            return false;
        }
        i = i + 1;
    }
    true
}

// -------------------------------------------------------------- semver --

/// `0|[1-9][0-9]*`
pub open spec fn numeric_identifier(t: Seq<char>) -> bool {
    &&& t.len() >= 1
    &&& forall|i: int| 0 <= i < t.len() ==> is_digit(#[trigger] t[i])
    &&& (t.len() == 1 || t[0] != '0')
}

/// `s[0..c]` is `MAJOR.MINOR.PATCH` with dots at `a` and `b`.
pub open spec fn version_core_at(s: Seq<char>, a: int, b: int, c: int) -> bool {
    &&& 0 < a < b < c <= s.len()
    &&& s[a] == '.'
    &&& s[b] == '.'
    &&& numeric_identifier(s.subrange(0, a))
    &&& numeric_identifier(s.subrange(a + 1, b))
    &&& numeric_identifier(s.subrange(b + 1, c))
}

/// Empty, or `tag` followed by at least one tag character.
pub open spec fn tagged_run(t: Seq<char>, tag: char) -> bool {
    t.len() == 0 || (t.len() >= 2 && t[0] == tag && forall|i: int|
        1 <= i < t.len() ==> is_tag_char(#[trigger] t[i]))
}

/// `^(0|[1-9]\d*)\.(0|[1-9]\d*)\.(0|[1-9]\d*)(?:-[0-9A-Za-z-.]+)?(?:\+[0-9A-Za-z-.]+)?$`
pub open spec fn is_semver_text(s: Seq<char>) -> bool {
    exists|a: int, b: int, c: int, p: int| semver_at(s, a, b, c, p)
}

/// `s` is a semantic version whose core has dots at `a` and `b` and ends at
/// `c`, and whose pre-release tag ends at `p`.
pub open spec fn semver_at(s: Seq<char>, a: int, b: int, c: int, p: int) -> bool {
    &&& version_core_at(s, a, b, c)
    &&& c <= p <= s.len()
    &&& tagged_run(s.subrange(c, p), '-')
    &&& tagged_run(s.subrange(p, s.len() as int), '+')
}

/// The end of the run of digits that starts at `from`.
fn digit_run_end(v: &Vec<char>, from: usize) -> (r: usize)
    requires
        from <= v.len(),
    ensures
        from <= r <= v.len(),
        forall|i: int| from <= i < r ==> is_digit(#[trigger] v@[i]),
        r == v.len() || !is_digit(v@[r as int]),
{
    let mut i = from;
    while i < v.len() && '0' <= v[i] && v[i] <= '9'
        invariant
            from <= i <= v.len(),
            forall|j: int| from <= j < i ==> is_digit(#[trigger] v@[j]),
        decreases v.len() - i,
    {
        i = i + 1;
    }
    i
}

/// A run of digits from `from` to `to` (exclusive) that ends where the
/// digits end is the run `digit_run_end` finds.
proof fn lemma_run_end_unique(v: Seq<char>, from: int, to: int, e: int)
    requires
        0 <= from <= to <= v.len(),
        from <= e <= v.len(),
        forall|i: int| from <= i < to ==> is_digit(#[trigger] v[i]),
        to == v.len() || !is_digit(v[to]),
        forall|i: int| from <= i < e ==> is_digit(#[trigger] v[i]),
        e == v.len() || !is_digit(v[e]),
    ensures
        e == to,
{
    if e < to {
        assert(is_digit(v[e]));
    }
    if to < e {
        assert(is_digit(v[to]));
    }
}

/// Whether the digits of `v` between `from` and `to` form a numeric
/// identifier, given that they are all digits.
fn numeric_run(v: &Vec<char>, from: usize, to: usize) -> (r: bool)
    requires
        from <= to <= v.len(),
        forall|i: int| from <= i < to ==> is_digit(#[trigger] v@[i]),
    ensures
        r == numeric_identifier(v@.subrange(from as int, to as int)),
{
    let t = Ghost(v@.subrange(from as int, to as int));
    assert forall|i: int| 0 <= i < t@.len() implies is_digit(#[trigger] t@[i]) by {
        assert(t@[i] == v@[from + i]);
    }
    from < to && (to - from == 1 || v[from] != '0')
}

/// Reads `MAJOR.MINOR.PATCH` from the start of `v`, each number greedy.
/// Gives where the patch number ends, or `None` when `v` opens with no
/// such core followed by a non-digit or the end.
pub fn scan_version_core(v: &Vec<char>) -> (r: Option<usize>)
    ensures
        match r {
            Some(c) => (c == v@.len() || !is_digit(v@[c as int])) && exists|a: int, b: int|
                version_core_at(v@, a, b, c as int),
            None => forall|a: int, b: int, c: int|
                !(#[trigger] version_core_at(v@, a, b, c) && (c == v@.len() || !is_digit(v@[c]))),
        },
        match r {
            Some(c) => forall|a: int, b: int, c2: int|
                #[trigger] version_core_at(v@, a, b, c2) && (c2 == v@.len() || !is_digit(v@[c2]))
                    ==> c2 == c,
            None => true,
        },
{
    let s = Ghost(v@);
    let e1 = digit_run_end(v, 0);
    assert forall|a: int, b: int, c: int|
        #[trigger] version_core_at(s@, a, b, c) implies a == e1 by {
        assert forall|i: int| 0 <= i < a implies is_digit(#[trigger] s@[i]) by {
            assert(s@.subrange(0, a)[i] == s@[i]);
        }
        lemma_run_end_unique(s@, 0, a, e1 as int);
    }
    if !numeric_run(v, 0, e1) || e1 >= v.len() || v[e1] != '.' {
        return None;
    }
    let e2 = digit_run_end(v, e1 + 1);
    assert forall|a: int, b: int, c: int|
        #[trigger] version_core_at(s@, a, b, c) implies b == e2 by {
        assert forall|i: int| a + 1 <= i < b implies is_digit(#[trigger] s@[i]) by {
            assert(s@.subrange(a + 1, b)[i - (a + 1)] == s@[i]);
        }
        lemma_run_end_unique(s@, e1 + 1, b, e2 as int);
    }
    if !numeric_run(v, e1 + 1, e2) || e2 >= v.len() || v[e2] != '.' {
        return None;
    }
    let e3 = digit_run_end(v, e2 + 1);
    assert forall|a: int, b: int, c: int|
        #[trigger] version_core_at(s@, a, b, c) && (c == s@.len() || !is_digit(s@[c])) implies c
        == e3 by {
        assert forall|i: int| b + 1 <= i < c implies is_digit(#[trigger] s@[i]) by {
            assert(s@.subrange(b + 1, c)[i - (b + 1)] == s@[i]);
        }
        lemma_run_end_unique(s@, e2 + 1, c, e3 as int);
    }
    if !numeric_run(v, e2 + 1, e3) {
        return None;
    }
    assert(version_core_at(s@, e1 as int, e2 as int, e3 as int));
    Some(e3)
}

fn is_tag_char_exec(c: char) -> (r: bool)
    ensures
        r == is_tag_char(c),
{
    ('0' <= c && c <= '9') || ('a' <= c && c <= 'z') || ('A' <= c && c <= 'Z') || c == '-' || c
        == '.'
}

/// The end of the run of tag characters that starts at `from`.
fn tag_run_end(v: &Vec<char>, from: usize) -> (r: usize)
    requires
        from <= v.len(),
    ensures
        from <= r <= v.len(),
        forall|i: int| from <= i < r ==> is_tag_char(#[trigger] v@[i]),
        r == v.len() || !is_tag_char(v@[r as int]),
{
    let mut i = from;
    while i < v.len() && is_tag_char_exec(v[i])
        invariant
            from <= i <= v.len(),
            forall|j: int| from <= j < i ==> is_tag_char(#[trigger] v@[j]),
        decreases v.len() - i,
    {
        i = i + 1;
    }
    i
}

/// Whether `s` is a semantic version as the protocol schema spells it.
pub fn check_semver(s: &str) -> (r: bool)
    ensures
        r == is_semver_text(s@),
{
    let v = chars_of(s);
    let len = v.len();
    let core = scan_version_core(&v);
    let c = match core {
        None => {
            assert forall|a: int, b: int, c: int, p: int|
                !#[trigger] semver_at(s@, a, b, c, p) by {
                if semver_at(s@, a, b, c, p) {
                    if c < s@.len() {
                        if c < p {
                            assert(s@.subrange(c, p)[0] == s@[c]);
                        } else {
                            assert(s@.subrange(p, s@.len() as int)[0] == s@[c]);
                        }
                    }
                    assert(!(version_core_at(s@, a, b, c) && (c == s@.len() || !is_digit(s@[c]))));
                }
            }
            return false;
        },
        Some(c) => c,
    };
    // The pre-release tag, if any, runs from `c` to `p`.
    let p = if c < len && v[c] == '-' {
        let e = tag_run_end(&v, c + 1);
        if e == c + 1 {
            proof {
                lemma_semver_no_pre(s@, c as int);
            }
            return false;
        }
        e
    } else {
        c
    };
    let ok = p == len || (v[p] == '+' && p + 1 < len && tag_run_end(&v, p + 1) == len);
    proof {
        lemma_semver_decided(s@, c as int, p as int, ok);
    }
    ok
}

/// With the core ending at `c` and `-` there, a tag char must follow.
proof fn lemma_semver_no_pre(s: Seq<char>, c: int)
    requires
        0 <= c < s.len(),
        s[c] == '-',
        c + 1 == s.len() || !is_tag_char(s[c + 1]),
        forall|a: int, b: int, c2: int|
            #[trigger] version_core_at(s, a, b, c2) && (c2 == s.len() || !is_digit(s[c2])) ==> c2
                == c,
    ensures
        !is_semver_text(s),
{
    assert forall|a: int, b: int, c2: int, p: int| !#[trigger] semver_at(s, a, b, c2, p) by {
        if semver_at(s, a, b, c2, p) {
            assert(version_core_at(s, a, b, c2) && (c2 == s.len() || !is_digit(s[c2])));
            assert(c2 == c);
            if c2 < p {
                assert(s.subrange(c2, p)[1] == s[c + 1]);
            } else {
                assert(s.subrange(p, s.len() as int)[0] == s[c]);
            }
        }
    }
}

/// Once the core ends at `c` and the pre-release tag at `p`, `s` is a
/// semantic version exactly when the rest is empty or a build tag.
proof fn lemma_semver_decided(s: Seq<char>, c: int, p: int, ok: bool)
    requires
        0 <= c <= p <= s.len(),
        c == s.len() || !is_digit(s[c]),
        exists|a: int, b: int| version_core_at(s, a, b, c),
        forall|a: int, b: int, c2: int|
            #[trigger] version_core_at(s, a, b, c2) && (c2 == s.len() || !is_digit(s[c2])) ==> c2
                == c,
        p == c ==> !(c < s.len() && s[c] == '-'),
        p > c ==> s[c] == '-' && p >= c + 2 && (forall|i: int|
            c + 1 <= i < p ==> is_tag_char(#[trigger] s[i])) && (p == s.len() || !is_tag_char(
            s[p],
        )),
        ok == (p == s.len() || (s[p] == '+' && p + 1 < s.len() && forall|i: int|
            p + 1 <= i < s.len() ==> is_tag_char(#[trigger] s[i]))),
    ensures
        ok == is_semver_text(s),
{
    let (a, b) = choose|a: int, b: int| version_core_at(s, a, b, c);
    let pre = s.subrange(c, p);
    let post = s.subrange(p, s.len() as int);
    assert(tagged_run(pre, '-')) by {
        if p > c {
            assert forall|i: int| 1 <= i < pre.len() implies is_tag_char(#[trigger] pre[i]) by {
                assert(pre[i] == s[c + i]);
            }
        }
    }
    if ok {
        assert(tagged_run(post, '+')) by {
            if p < s.len() {
                assert forall|i: int| 1 <= i < post.len() implies is_tag_char(#[trigger] post[i]) by {
                    assert(post[i] == s[p + i]);
                }
            }
        }
        assert(semver_at(s, a, b, c, p));
    } else {
        assert forall|a2: int, b2: int, c2: int, p2: int|
            !#[trigger] semver_at(s, a2, b2, c2, p2) by {
            if semver_at(s, a2, b2, c2, p2) {
                let pre2 = s.subrange(c2, p2);
                let post2 = s.subrange(p2, s.len() as int);
                if c2 < s.len() {
                    if c2 < p2 {
                        assert(pre2[0] == s[c2]);
                    } else {
                        assert(post2[0] == s[c2]);
                    }
                }
                assert(c2 == c);
                // The pre-release tag ends where the tag characters end.
                if p2 > c2 {
                    assert(p > c);
                    if p2 < p {
                        assert(post2[0] == s[p2]);
                        assert(is_tag_char(s[p2]));
                    }
                    if p < p2 {
                        assert(pre2[p - c] == s[p]);
                    }
                } else {
                    if p > c {
                        assert(post2[0] == s[c]);
                    }
                }
                assert(p2 == p);
                if p < s.len() {
                    assert(post2[0] == s[p]);
                    assert forall|i: int| p + 1 <= i < s.len() implies is_tag_char(#[trigger] s[i]) by {
                        assert(post2[i - p] == s[i]);
                    }
                }
            }
        }
    }
}

// ----------------------------------------------------- safe relative path --
//
// The schema pattern is
// `^(?!/)(?![A-Za-z]:)(?!.*\\)(?!.*//)(?!.*(^|/)\.\.(/|$))(?!.*(^|/)\.(/|$))[^\u0000]*[^\u0000/]$`
// read with the ECMAScript rules: `.` stops at a line terminator, `^` and
// `$` hold only at the two ends of the whole text.

pub open spec fn is_line_terminator(c: char) -> bool {
    c == '\n' || c == '\r' || c == '\u{2028}' || c == '\u{2029}'
}

/// `.*` can run from the start of `s` up to position `n`.
pub open spec fn reaches(s: Seq<char>, n: int) -> bool {
    forall|j: int| 0 <= j < n ==> !is_line_terminator(#[trigger] s[j])
}

/// A `/` at `i` followed by `k` dots (`k` is 1 or 2) and then `/` or the end.
pub open spec fn dots_after_slash(s: Seq<char>, i: int, k: int) -> bool {
    &&& 0 <= i
    &&& i + k < s.len()
    &&& s[i] == '/'
    &&& s[i + 1] == '.'
    &&& (k == 2 ==> s[i + 2] == '.')
    &&& (i + k + 1 == s.len() || s[i + k + 1] == '/')
}

/// `s` opens with `k` dots followed by `/` or the end.
pub open spec fn dots_at_start(s: Seq<char>, k: int) -> bool {
    &&& k <= s.len()
    &&& s[0] == '.'
    &&& (k == 2 ==> s[1] == '.')
    &&& (k == s.len() || s[k] == '/')
}

/// What one of the `.*` lookaheads would find at position `i`.
pub open spec fn forbidden_at(s: Seq<char>, i: int) -> bool {
    ||| s[i] == '\\'
    ||| (i + 1 < s.len() && s[i] == '/' && s[i + 1] == '/')
    ||| dots_after_slash(s, i, 1)
    ||| dots_after_slash(s, i, 2)
}

pub open spec fn is_safe_relative_path_text(s: Seq<char>) -> bool {
    &&& !(s.len() >= 1 && s[0] == '/')
    &&& !(s.len() >= 2 && is_ascii_alpha(s[0]) && s[1] == ':')
    &&& !(exists|i: int| 0 <= i < s.len() && reaches(s, i) && #[trigger] forbidden_at(s, i))
    &&& !dots_at_start(s, 1)
    &&& !dots_at_start(s, 2)
    &&& s.len() >= 1
    &&& (forall|j: int| 0 <= j < s.len() ==> #[trigger] s[j] != '\0')
    &&& s[s.len() - 1] != '/'
}

fn is_line_terminator_exec(c: char) -> (r: bool)
    ensures
        r == is_line_terminator(c),
{
    c == '\n' || c == '\r' || c == '\u{2028}' || c == '\u{2029}'
}

/// Whether `s` matches the schema's pattern for a vault-relative path.
pub fn check_safe_relative_path(s: &str) -> (r: bool)
    ensures
        r == is_safe_relative_path_text(s@),
{
    let v = chars_of(s);
    let len = v.len();
    if len == 0 || v[0] == '/' {
        return false;
    }
    if len >= 2 && v[1] == ':' && (('a' <= v[0] && v[0] <= 'z') || ('A' <= v[0] && v[0] <= 'Z')) {
        return false;
    }
    if v[0] == '.' && (len == 1 || v[1] == '/') {
        return false;
    }
    if len >= 2 && v[0] == '.' && v[1] == '.' && (len == 2 || v[2] == '/') {
        return false;
    }
    if v[len - 1] == '/' {
        return false;
    }
    let mut reach = true;
    let mut i: usize = 0;
    while i < len
        invariant
            v@ == s@,
            len == v.len(),
            i <= len,
            reach == reaches(s@, i as int),
            forall|j: int| 0 <= j < i ==> #[trigger] s@[j] != '\0',
            forall|j: int| 0 <= j < i && reaches(s@, j) ==> !#[trigger] forbidden_at(s@, j),
        decreases len - i,
    {
        let c = v[i];
        if c == '\0' {
            return false;
        }
        if reach {
            let rest = len - i;
            let hit = c == '\\' || (rest >= 2 && c == '/' && v[i + 1] == '/') || (c == '/' && rest
                >= 2 && v[i + 1] == '.' && (rest == 2 || v[i + 2] == '/')) || (c == '/' && rest >= 3
                && v[i + 1] == '.' && v[i + 2] == '.' && (rest == 3 || v[i + 3] == '/'));
            if hit {
                assert(forbidden_at(s@, i as int));
                return false;
            }
        }
        reach = reach && !is_line_terminator_exec(c);
        i = i + 1;
        assert(reach == reaches(s@, i as int)) by {
            if !reaches(s@, i as int) && reaches(s@, i - 1) {
                assert(is_line_terminator(s@[i - 1]));
            }
        }
    }
    proof {
        assert forall|i: int| 0 <= i < s@.len() && reaches(s@, i) implies !#[trigger] forbidden_at(
            s@,
            i,
        ) by {}
    }
    true
}

} // verus!
