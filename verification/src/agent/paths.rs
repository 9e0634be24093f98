//! Receive-path safety.
//!
//! The control end pre-checks the same rules, but the agent is what writes to
//! disk and must assume the manifest came from a hostile peer. The structural
//! rules (no `..`, no absolute form, no NUL) hold everywhere; the Windows
//! naming rules hold on a Windows host only, since a name like `aux.txt` is
//! legal on other file systems.

use vstd::prelude::*;
use crate::agent::host_is_windows;
use crate::text::{chars_of, concat, string_from_chars};

verus! {

#[derive(Debug, PartialEq, Eq)]
pub enum PathError {
    Empty,
    Absolute,
    Traversal,
    EmptySegment,
    NulByte,
    Backslash,
    TooLong,
    WindowsReservedName(String),
    WindowsIllegalChar,
    WindowsTrailingDotOrSpace,
    EscapesRoot,
    SymlinkEscape,
}

/// A path error with its name taken as characters.
pub ghost enum PathFault {
    Empty,
    Absolute,
    Traversal,
    EmptySegment,
    NulByte,
    Backslash,
    TooLong,
    WindowsReservedName(Seq<char>),
    WindowsIllegalChar,
    WindowsTrailingDotOrSpace,
    EscapesRoot,
    SymlinkEscape,
}

impl View for PathError {
    type V = PathFault;

    open spec fn view(&self) -> PathFault {
        match self {
            PathError::Empty => PathFault::Empty,
            PathError::Absolute => PathFault::Absolute,
            PathError::Traversal => PathFault::Traversal,
            PathError::EmptySegment => PathFault::EmptySegment,
            PathError::NulByte => PathFault::NulByte,
            PathError::Backslash => PathFault::Backslash,
            PathError::TooLong => PathFault::TooLong,
            PathError::WindowsReservedName(n) => PathFault::WindowsReservedName(n@),
            PathError::WindowsIllegalChar => PathFault::WindowsIllegalChar,
            PathError::WindowsTrailingDotOrSpace => PathFault::WindowsTrailingDotOrSpace,
            PathError::EscapesRoot => PathFault::EscapesRoot,
            PathError::SymlinkEscape => PathFault::SymlinkEscape,
        }
    }
}

/// The longest path accepted, in UTF-8 bytes.
pub const MAX_PATH_BYTES: usize = 1024;

/// A check's result with the error taken by its view.
pub open spec fn path_outcome(r: Result<(), PathError>) -> Result<(), PathFault> {
    match r {
        Ok(()) => Ok(()),
        Err(e) => Err(e@),
    }
}

pub open spec fn is_ascii_alpha(c: char) -> bool {
    ('a' <= c && c <= 'z') || ('A' <= c && c <= 'Z')
}

/// What the rules of a Windows host (`windows`) or of the structural check
/// say of one segment.
pub open spec fn segment_rule(windows: bool, t: Seq<char>) -> Option<PathFault> {
    if windows {
        windows_segment_fault(t)
    } else {
        segment_fault(t)
    }
}

/// Walks the `/`-separated segments of `s` left to right, the current one
/// having started at `st` and the walk standing at `i`, and gives what the
/// rule says of the first segment it objects to.
pub open spec fn first_piece_fault(s: Seq<char>, windows: bool, st: int, i: int) -> Option<
    PathFault,
>
    decreases s.len() - i,
{
    if i >= s.len() {
        segment_rule(windows, s.subrange(st, s.len() as int))
    } else if s[i] == '/' {
        match segment_rule(windows, s.subrange(st, i)) {
            Some(e) => Some(e),
            None => first_piece_fault(s, windows, i + 1, i + 1),
        }
    } else {
        first_piece_fault(s, windows, st, i + 1)
    }
}

/// What the structural rules say of one segment.
pub open spec fn segment_fault(t: Seq<char>) -> Option<PathFault> {
    if t.len() == 0 {
        Some(PathFault::EmptySegment)
    } else if t == seq!['.', '.'] {
        Some(PathFault::Traversal)
    } else if t == seq!['.'] {
        Some(PathFault::EmptySegment)
    } else {
        None
    }
}

/// The structural rules, in the order they are checked; `bytes` is the
/// path's length in UTF-8 bytes.
pub open spec fn structural_outcome(s: Seq<char>, bytes: nat) -> Result<(), PathFault> {
    if s.len() == 0 {
        Err(PathFault::Empty)
    } else if bytes > MAX_PATH_BYTES {
        Err(PathFault::TooLong)
    } else if s.contains('\0') {
        Err(PathFault::NulByte)
    } else if s.contains('\\') {
        Err(PathFault::Backslash)
    } else if s[0] == '/' {
        Err(PathFault::Absolute)
    } else if s.len() >= 2 && s[1] == ':' && is_ascii_alpha(s[0]) {
        Err(PathFault::Absolute)
    } else {
        match first_piece_fault(s, false, 0, 0) {
            Some(e) => Err(e),
            None => Ok(()),
        }
    }
}

/// `c` with an ASCII lowercase letter raised to uppercase.
pub open spec fn ascii_upper(c: char) -> char {
    if 'a' <= c && c <= 'z' {
        ((c as u32) - 32) as char
    } else {
        c
    }
}

/// Where the first `.` of `t` at or after `i` stands, or the end.
pub open spec fn dot_from(t: Seq<char>, i: int) -> int
    decreases t.len() - i,
{
    if i >= t.len() || t[i] == '.' {
        i
    } else {
        dot_from(t, i + 1)
    }
}

/// The part of a segment before its first dot, uppercased.
pub open spec fn upper_stem(t: Seq<char>) -> Seq<char> {
    t.subrange(0, dot_from(t, 0)).map_values(|c: char| ascii_upper(c))
}

/// Device names Windows reserves whatever the extension.
pub open spec fn is_reserved_stem(u: Seq<char>) -> bool {
    ||| u == seq!['C', 'O', 'N']
    ||| u == seq!['P', 'R', 'N']
    ||| u == seq!['A', 'U', 'X']
    ||| u == seq!['N', 'U', 'L']
    ||| (u.len() == 4 && ((u[0] == 'C' && u[1] == 'O' && u[2] == 'M') || (u[0] == 'L' && u[1]
        == 'P' && u[2] == 'T')) && '1' <= u[3] && u[3] <= '9')
}

/// The characters Windows forbids in a name.
pub open spec fn is_windows_forbidden(c: char) -> bool {
    c == '<' || c == '>' || c == ':' || c == '"' || c == '|' || c == '?' || c == '*' || (c as u32)
        < 0x20
}

/// What the Windows naming rules say of one segment.
pub open spec fn windows_segment_fault(t: Seq<char>) -> Option<PathFault> {
    if t.len() > 0 && (t[t.len() - 1] == '.' || t[t.len() - 1] == ' ') {
        Some(PathFault::WindowsTrailingDotOrSpace)
    } else if exists|i: int| 0 <= i < t.len() && is_windows_forbidden(#[trigger] t[i]) {
        Some(PathFault::WindowsIllegalChar)
    } else if is_reserved_stem(upper_stem(t)) {
        Some(PathFault::WindowsReservedName(upper_stem(t)))
    } else {
        None
    }
}

pub open spec fn windows_outcome(s: Seq<char>) -> Result<(), PathFault> {
    match first_piece_fault(s, true, 0, 0) {
        Some(e) => Err(e),
        None => Ok(()),
    }
}

/// The rules for a host that is Windows or not.
pub open spec fn relative_outcome(s: Seq<char>, bytes: nat, windows_host: bool) -> Result<
    (),
    PathFault,
> {
    match structural_outcome(s, bytes) {
        Err(e) => Err(e),
        Ok(()) => if windows_host {
            windows_outcome(s)
        } else {
            Ok(())
        },
    }
}

fn contains_char(v: &Vec<char>, c: char) -> (r: bool)
    ensures
        r == v@.contains(c),
{
    let mut i: usize = 0;
    while i < v.len()
        invariant
            i <= v.len(),
            forall|j: int| 0 <= j < i ==> v@[j] != c,
        decreases v.len() - i,
    {
        if v[i] == c {
            assert(v@[i as int] == c);
            return true;
        }
        i = i + 1;
    }
    false
}

/// The structural fault of the segment `v[st..en]`, if any.
fn check_segment(v: &Vec<char>, st: usize, en: usize) -> (r: Option<PathError>)
    requires
        st <= en <= v.len(),
    ensures
        match r {
            Some(e) => segment_fault(v@.subrange(st as int, en as int)) == Some(e@),
            None => segment_fault(v@.subrange(st as int, en as int)) is None,
        },
{
    let t = Ghost(v@.subrange(st as int, en as int));
    if st == en {
        return Some(PathError::EmptySegment);
    }
    if en - st == 2 && v[st] == '.' && v[st + 1] == '.' {
        assert(t@ =~= seq!['.', '.']);
        return Some(PathError::Traversal);
    }
    if en - st == 1 && v[st] == '.' {
        assert(t@ =~= seq!['.']);
        return Some(PathError::EmptySegment);
    }
    assert(t@ != seq!['.', '.']) by {
        if t@ == seq!['.', '.'] {
            assert(t@[0] == v@[st as int] && t@[1] == v@[st + 1]);
        }
    }
    assert(t@ != seq!['.']) by {
        if t@ == seq!['.'] {
            assert(t@[0] == v@[st as int]);
        }
    }
    None
}

/// Checks every segment of `v` against the structural rules, left to right.
fn check_segments(v: &Vec<char>) -> (r: Option<PathError>)
    ensures
        match r {
            Some(e) => first_piece_fault(v@, false, 0, 0) == Some(e@),
            None => first_piece_fault(v@, false, 0, 0) is None,
        },
{
    let mut st: usize = 0;
    let mut i: usize = 0;
    while i < v.len()
        invariant
            st <= i <= v.len(),
            first_piece_fault(v@, false, 0, 0) == first_piece_fault(v@, false, st as int, i as int),
        decreases v.len() - i,
    {
        if v[i] == '/' {
            let fault = check_segment(v, st, i);
            if fault.is_some() {
                return fault;
            }
            st = i + 1;
        }
        i = i + 1;
    }
    check_segment(v, st, v.len())
}

/// Validates the protocol form of a vault-relative path for a host that is
/// Windows (`windows_host`) or not.
pub fn validate_relative_for(path: &str, windows_host: bool) -> (r: Result<(), PathError>)
    ensures
        path_outcome(r) == relative_outcome(path@, path.len() as nat, windows_host),
{
    if path.is_empty() {
        return Err(PathError::Empty);
    }
    if path.len() > MAX_PATH_BYTES {
        return Err(PathError::TooLong);
    }
    let v = chars_of(path);
    if contains_char(&v, '\0') {
        return Err(PathError::NulByte);
    }
    if contains_char(&v, '\\') {
        return Err(PathError::Backslash);
    }
    if v[0] == '/' {
        return Err(PathError::Absolute);
    }
    if v.len() >= 2 && v[1] == ':' && (('a' <= v[0] && v[0] <= 'z') || ('A' <= v[0] && v[0] <= 'Z')) {
        return Err(PathError::Absolute);
    }
    match check_segments(&v) {
        Some(e) => return Err(e),
        None => {},
    }
    if windows_host {
        validate_windows(path)
    } else {
        Ok(())
    }
}

/// Validates the protocol form of a vault-relative path: the structural
/// rules everywhere, the Windows naming rules on a Windows host.
pub fn validate_relative(path: &str) -> (r: Result<(), PathError>)
    ensures
        path_outcome(r) == relative_outcome(path@, path.len() as nat, false) || path_outcome(r)
            == relative_outcome(path@, path.len() as nat, true),
{
    validate_relative_for(path, host_is_windows())
}

fn ascii_upper_exec(c: char) -> (r: char)
    ensures
        r == ascii_upper(c),
{
    if 'a' <= c && c <= 'z' {
        let x: u32 = c as u32;
        let b: u8 = x as u8;
        assert(b == x) by (bit_vector)
            requires
                x <= 0x7a,
                b == x as u8,
        ;
        ((b - 32) as char)
    } else {
        c
    }
}

fn is_windows_forbidden_exec(c: char) -> (r: bool)
    ensures
        r == is_windows_forbidden(c),
{
    c == '<' || c == '>' || c == ':' || c == '"' || c == '|' || c == '?' || c == '*' || (c as u32)
        < 0x20
}

/// The Windows naming fault of the segment `v[st..en]`, if any.
fn check_windows_segment(v: &Vec<char>, st: usize, en: usize) -> (r: Option<PathError>)
    requires
        st <= en <= v.len(),
    ensures
        match r {
            Some(e) => windows_segment_fault(v@.subrange(st as int, en as int)) == Some(e@),
            None => windows_segment_fault(v@.subrange(st as int, en as int)) is None,
        },
{
    let t = Ghost(v@.subrange(st as int, en as int));
    if en > st && (v[en - 1] == '.' || v[en - 1] == ' ') {
        return Some(PathError::WindowsTrailingDotOrSpace);
    }
    assert(t@.len() > 0 ==> t@[t@.len() - 1] == v@[en - 1]);
    let mut i = st;
    while i < en
        invariant
            st <= i <= en <= v.len(),
            t@ == v@.subrange(st as int, en as int),
            forall|j: int| 0 <= j < i - st ==> !is_windows_forbidden(#[trigger] t@[j]),
            !(t@.len() > 0 && (t@[t@.len() - 1] == '.' || t@[t@.len() - 1] == ' ')),
        decreases en - i,
    {
        if is_windows_forbidden_exec(v[i]) {
            assert(t@[i - st] == v@[i as int]);
            assert(0 <= i - st < t@.len() && is_windows_forbidden(t@[i - st]));
            return Some(PathError::WindowsIllegalChar);
        }
        i = i + 1;
    }
    // The stem runs up to the first dot.
    let mut d = st;
    while d < en && v[d] != '.'
        invariant
            st <= d <= en <= v.len(),
            t@ == v@.subrange(st as int, en as int),
            dot_from(t@, 0) == dot_from(t@, d - st),
        decreases en - d,
    {
        d = d + 1;
    }
    assert(dot_from(t@, d - st) == d - st);
    let mut upper: Vec<char> = Vec::new();
    let mut k = st;
    while k < d
        invariant
            st <= k <= d <= en <= v.len(),
            t@ == v@.subrange(st as int, en as int),
            upper@ == t@.subrange(0, k - st).map_values(|c: char| ascii_upper(c)),
        decreases d - k,
    {
        upper.push(ascii_upper_exec(v[k]));
        k = k + 1;
        assert(upper@ =~= t@.subrange(0, k - st).map_values(|c: char| ascii_upper(c)));
    }
    assert(upper@ == upper_stem(t@));
    let n = upper.len();
    let reserved = (n == 3 && ((upper[0] == 'C' && upper[1] == 'O' && upper[2] == 'N') || (upper[0]
        == 'P' && upper[1] == 'R' && upper[2] == 'N') || (upper[0] == 'A' && upper[1] == 'U'
        && upper[2] == 'X') || (upper[0] == 'N' && upper[1] == 'U' && upper[2] == 'L'))) || (n == 4
        && ((upper[0] == 'C' && upper[1] == 'O' && upper[2] == 'M') || (upper[0] == 'L' && upper[1]
        == 'P' && upper[2] == 'T')) && '1' <= upper[3] && upper[3] <= '9');
    assert(reserved == is_reserved_stem(upper@)) by {
        if n == 3 {
            assert(upper@ =~= seq!['C', 'O', 'N'] <==> (upper@[0] == 'C' && upper@[1] == 'O'
                && upper@[2] == 'N'));
            assert(upper@ =~= seq!['P', 'R', 'N'] <==> (upper@[0] == 'P' && upper@[1] == 'R'
                && upper@[2] == 'N'));
            assert(upper@ =~= seq!['A', 'U', 'X'] <==> (upper@[0] == 'A' && upper@[1] == 'U'
                && upper@[2] == 'X'));
            assert(upper@ =~= seq!['N', 'U', 'L'] <==> (upper@[0] == 'N' && upper@[1] == 'U'
                && upper@[2] == 'L'));
        }
    }
    if reserved {
        return Some(PathError::WindowsReservedName(string_from_chars(upper.as_slice())));
    }
    None
}

/// The Windows naming rules, segment by segment: no trailing dot or space,
/// no forbidden or control character, no reserved device name as the stem.
pub fn validate_windows(path: &str) -> (r: Result<(), PathError>)
    ensures
        path_outcome(r) == windows_outcome(path@),
{
    let v = chars_of(path);
    let mut st: usize = 0;
    let mut i: usize = 0;
    while i < v.len()
        invariant
            v@ == path@,
            st <= i <= v.len(),
            first_piece_fault(v@, true, 0, 0) == first_piece_fault(v@, true, st as int, i as int),
        decreases v.len() - i,
    {
        if v[i] == '/' {
            match check_windows_segment(&v, st, i) {
                Some(e) => return Err(e),
                None => {},
            }
            st = i + 1;
        }
        i = i + 1;
    }
    match check_windows_segment(&v, st, v.len()) {
        Some(e) => Err(e),
        None => Ok(()),
    }
}

impl PathError {
    /// The text of the error.
    pub fn message(&self) -> (r: String)
        ensures
            r@ == fault_message(self@),
    {
        match self {
            PathError::Empty => "path is empty".to_owned(),
            PathError::Absolute => "path is absolute or has a drive/UNC root".to_owned(),
            PathError::Traversal => "path contains a '..' segment".to_owned(),
            PathError::EmptySegment => "path contains an empty segment".to_owned(),
            PathError::NulByte => "path contains a NUL byte".to_owned(),
            PathError::Backslash => "path contains a backslash; '/' is the only separator".to_owned(),
            PathError::TooLong => "path exceeds 1024 UTF-8 bytes".to_owned(),
            PathError::WindowsReservedName(n) => {
                let head = concat("'", n.as_str());
                concat(head.as_str(), "' is a reserved device name on Windows")
            },
            PathError::WindowsIllegalChar => "path contains a character Windows forbids".to_owned(),
            PathError::WindowsTrailingDotOrSpace => {
                "a path segment ends with a dot or space, which Windows strips".to_owned()
            },
            PathError::EscapesRoot => "resolved path escapes the receive root".to_owned(),
            PathError::SymlinkEscape => {
                "an existing symlink leads outside the receive root".to_owned()
            },
        }
    }
}

pub open spec fn fault_message(f: PathFault) -> Seq<char> {
    match f {
        PathFault::Empty => "path is empty"@,
        PathFault::Absolute => "path is absolute or has a drive/UNC root"@,
        PathFault::Traversal => "path contains a '..' segment"@,
        PathFault::EmptySegment => "path contains an empty segment"@,
        PathFault::NulByte => "path contains a NUL byte"@,
        PathFault::Backslash => "path contains a backslash; '/' is the only separator"@,
        PathFault::TooLong => "path exceeds 1024 UTF-8 bytes"@,
        PathFault::WindowsReservedName(n) => "'"@ + n + "' is a reserved device name on Windows"@,
        PathFault::WindowsIllegalChar => "path contains a character Windows forbids"@,
        PathFault::WindowsTrailingDotOrSpace => {
            "a path segment ends with a dot or space, which Windows strips"@
        },
        PathFault::EscapesRoot => "resolved path escapes the receive root"@,
        PathFault::SymlinkEscape => "an existing symlink leads outside the receive root"@,
    }
}

/// `s[a..b]` is one of the `/`-separated segments of `s`.
pub open spec fn is_segment(s: Seq<char>, a: int, b: int) -> bool {
    &&& 0 <= a <= b <= s.len()
    &&& a == 0 || s[a - 1] == '/'
    &&& b == s.len() || s[b] == '/'
    &&& forall|j: int| a <= j < b ==> s[j] != '/'
}

proof fn lemma_no_fault_in_later_segments(s: Seq<char>, w: bool, st: int, i: int)
    requires
        0 <= st <= i <= s.len(),
        st == 0 || s[st - 1] == '/',
        forall|j: int| st <= j < i ==> s[j] != '/',
        first_piece_fault(s, w, st, i) is None,
    ensures
        forall|a: int, b: int| #[trigger] is_segment(s, a, b) && a >= st ==> segment_rule(
            w,
            s.subrange(a, b),
        ) is None,
    decreases s.len() - i,
{
    if i >= s.len() {
        assert forall|a: int, b: int| #[trigger] is_segment(s, a, b) && a >= st implies segment_rule(
            w,
            s.subrange(a, b),
        ) is None by {
            if a > st {
                assert(s[a - 1] == '/');
            }
            if b < s.len() {
                assert(s[b] == '/');
            }
        }
    } else if s[i] == '/' {
        lemma_no_fault_in_later_segments(s, w, i + 1, i + 1);
        assert forall|a: int, b: int| #[trigger] is_segment(s, a, b) && a >= st implies segment_rule(
            w,
            s.subrange(a, b),
        ) is None by {
            if a <= i {
                if a > st {
                    assert(s[a - 1] == '/');
                }
                if b > i {
                    assert(s[i] != '/');
                }
                if b < i {
                    assert(s[b] == '/');
                }
            }
        }
    } else {
        lemma_no_fault_in_later_segments(s, w, st, i + 1);
    }
}

/// A path the structural rules accept cannot leave the directory it is
/// resolved under: it is not empty, has no root or drive, holds neither a
/// backslash nor a NUL, fits in 1024 bytes, and none of its segments is
/// empty, `.` or `..`.
pub proof fn lemma_accepted_path_stays_inside(s: Seq<char>, bytes: nat, windows_host: bool)
    requires
        relative_outcome(s, bytes, windows_host) is Ok,
    ensures
        s.len() > 0,
        bytes <= MAX_PATH_BYTES,
        !s.contains('\\'),
        !s.contains('\0'),
        s[0] != '/',
        !(s.len() >= 2 && s[1] == ':' && is_ascii_alpha(s[0])),
        forall|a: int, b: int| #[trigger] is_segment(s, a, b) ==> {
            let t = s.subrange(a, b);
            t.len() > 0 && t != seq!['.'] && t != seq!['.', '.']
        },
{
    lemma_no_fault_in_later_segments(s, false, 0, 0);
}

} // verus!
