//! Registering a device with the relay: the one HTTPS request an agent makes
//! in its life. The application opens the connection and moves the bytes;
//! this module decides where the request goes, spells it, and reads the
//! reply.

use vstd::prelude::*;
use vstd::string::StringSliceAdditionalSpecFns;
use crate::agent::{AgentError, AgentFault};
use crate::agent::config::starts_with;
use crate::relay::config::{parse_i64, parse_i64_chars};
use crate::text::{
    chars_of, concat, decimal, decimal_string, is_unicode_whitespace, is_whitespace,
    leading_whitespace, string_from_chars, trim_chars, trimmed,
};

verus! {

/// Where the registration request goes.
#[derive(Debug, Clone, PartialEq, Eq)]
pub struct PostTarget {
    /// Plain HTTP, which only the development switch allows.
    pub insecure: bool,
    /// `host[:port]` as the URL spells it.
    pub authority: String,
    pub host: String,
    pub port: u16,
    /// The path after the authority, without its leading `/`.
    pub path: String,
}

pub const HTTPS_REQUIRED_MESSAGE: &'static str =
    "the relay base URL must be https://; set TERMY_AGENT_ALLOW_INSECURE=1 for local development against a plaintext relay";

/// The index of the first `c` in `s`, or its length when there is none.
pub open spec fn first_index(s: Seq<char>, c: char) -> int
    decreases s.len(),
{
    if s.len() == 0 {
        0
    } else if s[0] == c {
        0
    } else {
        1 + first_index(s.drop_first(), c)
    }
}

/// What std's `u16::from_str` gives for `s`: `parse_i64`'s reading without
/// a minus sign, within `0..=65535`.
pub open spec fn parse_u16(s: Seq<char>) -> Option<u16> {
    if s.len() > 0 && s[0] == '-' {
        None
    } else {
        match parse_i64(s) {
            Ok(v) => if 0 <= v <= 65535 {
                Some(v as u16)
            } else {
                None
            },
            Err(_) => None,
        }
    }
}

/// The text after the scheme, when the scheme is allowed.
pub open spec fn after_scheme(url: Seq<char>, insecure: bool) -> Option<Seq<char>> {
    if starts_with(url, "https://"@) {
        Some(url.subrange(8, url.len() as int))
    } else if insecure && starts_with(url, "http://"@) {
        Some(url.subrange(7, url.len() as int))
    } else {
        None
    }
}

/// Where a registration POST to `url` goes: `https://`, or `http://` when
/// plaintext is allowed for development; the authority runs to the first
/// `/`; the host is the authority up to its first `:`, and the port the
/// piece after it when that is a number, else the scheme's default.
pub open spec fn post_target(url: Seq<char>, allow_insecure: bool) -> Option<
    (bool, Seq<char>, Seq<char>, u16, Seq<char>),
> {
    let insecure = starts_with(url, "http://"@) && allow_insecure;
    match after_scheme(url, insecure) {
        None => None,
        Some(rest) => {
            let slash = first_index(rest, '/');
            let authority = rest.subrange(0, slash);
            let path = if slash < rest.len() {
                rest.subrange(slash + 1, rest.len() as int)
            } else {
                Seq::empty()
            };
            let colon = first_index(authority, ':');
            let host = authority.subrange(0, colon);
            let port = if colon < authority.len() {
                let tail = authority.subrange(colon + 1, authority.len() as int);
                parse_u16(tail.subrange(0, first_index(tail, ':')))
            } else {
                None
            };
            let default_port: u16 = if insecure {
                80
            } else {
                443
            };
            Some(
                (
                    insecure,
                    authority,
                    host,
                    match port {
                        Some(p) => p,
                        None => default_port,
                    },
                    path,
                ),
            )
        },
    }
}

pub(crate) proof fn lemma_first_index_is(s: Seq<char>, c: char, k: int)
    requires
        0 <= k <= s.len(),
        k < s.len() ==> s[k] == c,
        forall|j: int| 0 <= j < k ==> s[j] != c,
    ensures
        first_index(s, c) == k,
    decreases s.len(),
{
    if s.len() > 0 && s[0] != c {
        assert forall|j: int| 0 <= j < k - 1 implies s.drop_first()[j] != c by {
            assert(s.drop_first()[j] == s[j + 1]);
        }
        lemma_first_index_is(s.drop_first(), c, k - 1);
    }
}

/// The index of the first `c` in `v` at or after `from`, or `v`'s length.
fn find_char(v: &Vec<char>, from: usize, c: char) -> (r: usize)
    requires
        from <= v.len(),
    ensures
        from <= r <= v.len(),
        r < v.len() ==> v@[r as int] == c,
        forall|j: int| from <= j < r ==> v@[j] != c,
{
    let mut i = from;
    while i < v.len() && v[i] != c
        invariant
            from <= i <= v.len(),
            forall|j: int| from <= j < i ==> v@[j] != c,
        decreases v.len() - i,
    {
        i = i + 1;
    }
    i
}

pub(crate) fn slice_chars(v: &Vec<char>, a: usize, b: usize) -> (r: Vec<char>)
    requires
        a <= b <= v.len(),
    ensures
        r@ == v@.subrange(a as int, b as int),
{
    let mut out: Vec<char> = Vec::new();
    let mut k = a;
    while k < b
        invariant
            a <= k <= b <= v.len(),
            out@ == v@.subrange(a as int, k as int),
        decreases b - k,
    {
        out.push(v[k]);
        k = k + 1;
        assert(out@ =~= v@.subrange(a as int, k as int));
    }
    out
}

fn has_prefix_at_start(v: &Vec<char>, p: &str) -> (r: bool)
    ensures
        r == starts_with(v@, p@),
{
    let w = chars_of(p);
    if w.len() > v.len() {
        return false;
    }
    let mut i: usize = 0;
    while i < w.len()
        invariant
            w@ == p@,
            w.len() <= v.len(),
            i <= w.len(),
            forall|j: int| 0 <= j < i ==> v@[j] == w@[j],
        decreases w.len() - i,
    {
        if v[i] != w[i] {
            assert(v@.subrange(0, w@.len() as int)[i as int] != w@[i as int]);
            return false;
        }
        i = i + 1;
    }
    assert(v@.subrange(0, w@.len() as int) =~= w@);
    true
}

/// Reads a port number as std's `u16::from_str` does.
fn parse_port(v: &Vec<char>) -> (r: Option<u16>)
    ensures
        r == parse_u16(v@),
{
    if v.len() > 0 && v[0] == '-' {
        return None;
    }
    match parse_i64_chars(v) {
        Ok(n) => if 0 <= n && n <= 65535 {
            Some(n as u16)
        } else {
            None
        },
        Err(_) => None,
    }
}

pub open spec fn target_view(r: Result<PostTarget, AgentError>) -> Option<
    (bool, Seq<char>, Seq<char>, u16, Seq<char>),
> {
    match r {
        Ok(t) => Some((t.insecure, t.authority@, t.host@, t.port, t.path@)),
        Err(_) => None,
    }
}

/// Where a registration POST to `url` goes, or the configuration error
/// for a scheme that is not allowed.
pub fn parse_post_target(url: &str, allow_insecure: bool) -> (r: Result<PostTarget, AgentError>)
    ensures
        target_view(r) == post_target(url@, allow_insecure),
        r matches Err(e) ==> e@ == AgentFault::Config(HTTPS_REQUIRED_MESSAGE@),
{
    let v = chars_of(url);
    proof {
        reveal_strlit("https://");
        reveal_strlit("http://");
    }
    let insecure = has_prefix_at_start(&v, "http://") && allow_insecure;
    let start: usize = if has_prefix_at_start(&v, "https://") {
        8
    } else if insecure {
        7
    } else {
        return Err(AgentError::Config(HTTPS_REQUIRED_MESSAGE.to_owned()));
    };
    let rest = slice_chars(&v, start, v.len());
    let ghost rs = rest@;
    assert(after_scheme(url@, insecure) == Some(rs));
    let slash = find_char(&rest, 0, '/');
    proof {
        lemma_first_index_is(rs, '/', slash as int);
    }
    let authority = slice_chars(&rest, 0, slash);
    let path = if slash < rest.len() {
        slice_chars(&rest, slash + 1, rest.len())
    } else {
        Vec::new()
    };
    let ghost au = authority@;
    let colon = find_char(&authority, 0, ':');
    proof {
        lemma_first_index_is(au, ':', colon as int);
    }
    let host = slice_chars(&authority, 0, colon);
    let port: Option<u16> = if colon < authority.len() {
        let tail = slice_chars(&authority, colon + 1, authority.len());
        let end = find_char(&tail, 0, ':');
        proof {
            lemma_first_index_is(tail@, ':', end as int);
        }
        let piece = slice_chars(&tail, 0, end);
        parse_port(&piece)
    } else {
        None
    };
    let default_port: u16 = if insecure {
        80
    } else {
        443
    };
    let port = match port {
        Some(p) => p,
        None => default_port,
    };
    Ok(
        PostTarget {
            insecure,
            authority: string_from_chars(authority.as_slice()),
            host: string_from_chars(host.as_slice()),
            port,
            path: string_from_chars(path.as_slice()),
        },
    )
}

/// The HTTP/1.1 request that posts the JSON text `payload` to `path` on
/// `authority` and asks the server to close the connection after replying.
pub open spec fn post_request_text(path: Seq<char>, authority: Seq<char>, payload: Seq<char>, payload_bytes: nat) -> Seq<char> {
    "POST /"@ + path + " HTTP/1.1\r\nHost: "@ + authority
        + "\r\nContent-Type: application/json\r\nContent-Length: "@ + decimal(payload_bytes)
        + "\r\nConnection: close\r\n\r\n"@ + payload
}

/// The request text; `Content-Length` counts the payload's UTF-8 bytes.
pub fn post_request(path: &str, authority: &str, payload: &str) -> (r: String)
    requires
        payload.spec_bytes().len() <= usize::MAX,
    ensures
        r@ == post_request_text(path@, authority@, payload@, payload.spec_bytes().len()),
{
    let length = decimal_string(payload.len() as u64);
    let a = concat("POST /", path);
    let b = concat(a.as_str(), " HTTP/1.1\r\nHost: ");
    let c = concat(b.as_str(), authority);
    let d = concat(c.as_str(), "\r\nContent-Type: application/json\r\nContent-Length: ");
    let e = concat(d.as_str(), length.as_str());
    let f = concat(e.as_str(), "\r\nConnection: close\r\n\r\n");
    let r = concat(f.as_str(), payload);
    assert(length@ == decimal(payload.spec_bytes().len()));
    assert(r@ =~= post_request_text(path@, authority@, payload@, payload.spec_bytes().len()));
    r
}

/// Where the word of `s` that starts at `i` ends.
pub open spec fn word_end(s: Seq<char>, i: int) -> int
    decreases s.len() - i,
{
    if i >= s.len() || is_unicode_whitespace(s[i]) {
        i
    } else {
        word_end(s, i + 1)
    }
}

/// The second whitespace-separated word of `s`, if it has one.
pub open spec fn second_word(s: Seq<char>) -> Option<Seq<char>> {
    let a = leading_whitespace(s, 0);
    let b = word_end(s, a);
    let c = leading_whitespace(s, b);
    if c < s.len() {
        Some(s.subrange(c, word_end(s, c)))
    } else {
        None
    }
}

/// The status code of an HTTP response: its second word read as a `u16`,
/// or 0 when there is none.
pub open spec fn response_status_of(text: Seq<char>) -> u16 {
    match second_word(text) {
        Some(w) => match parse_u16(w) {
            Some(n) => n,
            None => 0,
        },
        None => 0,
    }
}

pub(crate) fn skip_whitespace(v: &Vec<char>, from: usize) -> (r: usize)
    requires
        from <= v.len(),
    ensures
        r == leading_whitespace(v@, from as int),
        from <= r <= v.len(),
{
    let mut i = from;
    while i < v.len() && is_whitespace(v[i])
        invariant
            from <= i <= v.len(),
            leading_whitespace(v@, from as int) == leading_whitespace(v@, i as int),
        decreases v.len() - i,
    {
        i = i + 1;
    }
    i
}

pub(crate) fn skip_word(v: &Vec<char>, from: usize) -> (r: usize)
    requires
        from <= v.len(),
    ensures
        r == word_end(v@, from as int),
        from <= r <= v.len(),
{
    let mut i = from;
    while i < v.len() && !is_whitespace(v[i])
        invariant
            from <= i <= v.len(),
            word_end(v@, from as int) == word_end(v@, i as int),
        decreases v.len() - i,
    {
        i = i + 1;
    }
    i
}

/// The status code of the response `text`.
pub fn response_status(text: &str) -> (r: u16)
    ensures
        r == response_status_of(text@),
{
    let v = chars_of(text);
    let a = skip_whitespace(&v, 0);
    let b = skip_word(&v, a);
    let c = skip_whitespace(&v, b);
    if c >= v.len() {
        return 0;
    }
    let d = skip_word(&v, c);
    let word = slice_chars(&v, c, d);
    match parse_port(&word) {
        Some(n) => n,
        None => 0,
    }
}

/// Whether `s` holds `\r\n\r\n` at `i`.
pub open spec fn blank_line_at(s: Seq<char>, i: int) -> bool {
    0 <= i && i + 4 <= s.len() && s[i] == '\r' && s[i + 1] == '\n' && s[i + 2] == '\r' && s[i
        + 3] == '\n'
}

/// Where the first `\r\n\r\n` of `s` at or after `i` starts.
pub open spec fn first_blank_line(s: Seq<char>, i: int) -> Option<int>
    decreases s.len() - i,
{
    if i < 0 || i + 4 > s.len() {
        None
    } else if blank_line_at(s, i) {
        Some(i)
    } else {
        first_blank_line(s, i + 1)
    }
}

/// The body of an HTTP response: what follows the first blank line,
/// trimmed; empty when there is no blank line.
pub open spec fn response_body_of(text: Seq<char>) -> Seq<char> {
    match first_blank_line(text, 0) {
        Some(i) => trimmed(text.subrange(i + 4, text.len() as int)),
        None => Seq::empty(),
    }
}

/// The body of the response `text`.
pub fn response_body(text: &str) -> (r: String)
    ensures
        r@ == response_body_of(text@),
{
    let v = chars_of(text);
    let mut i: usize = 0;
    while i < v.len() && v.len() - i >= 4
        invariant
            v@ == text@,
            i <= v.len(),
            first_blank_line(v@, 0) == first_blank_line(v@, i as int),
        decreases v.len() - i,
    {
        if v[i] == '\r' && v[i + 1] == '\n' && v[i + 2] == '\r' && v[i + 3] == '\n' {
            let rest = slice_chars(&v, i + 4, v.len());
            let rest_text = string_from_chars(rest.as_slice());
            let t = trim_chars(rest_text.as_str());
            return string_from_chars(t.as_slice());
        }
        i = i + 1;
    }
    String::new()
}

/// A reply outside `200..300` ends the registration with the relay's error
/// code and message, each defaulted when the body lacks it.
pub fn registration_failure(status: u16, code: Option<&str>, message: Option<&str>) -> (r: Result<(), AgentError>)
    ensures
        200 <= status < 300 ==> r is Ok,
        !(200 <= status < 300) ==> (r matches Err(e) && e@ == AgentFault::Protocol(
            match code {
                Some(c) => c@,
                None => "HTTP_ERROR"@,
            } + ": "@ + match message {
                Some(m) => m@,
                None => "registration failed"@,
            },
        )),
{
    if 200 <= status && status < 300 {
        return Ok(());
    }
    let c = match code {
        Some(c) => c,
        None => "HTTP_ERROR",
    };
    let m = match message {
        Some(m) => m,
        None => "registration failed",
    };
    let head = concat(c, ": ");
    Err(AgentError::Protocol(concat(head.as_str(), m)))
}

/// `s` without its trailing `/` characters.
pub open spec fn without_trailing_slashes(s: Seq<char>) -> Seq<char>
    decreases s.len(),
{
    if s.len() > 0 && s.last() == '/' {
        without_trailing_slashes(s.drop_last())
    } else {
        s
    }
}

/// The registration endpoint under a relay base URL.
pub fn register_url(relay_base: &str) -> (r: String)
    ensures
        r@ == without_trailing_slashes(relay_base@) + "/v1/devices/register"@,
{
    let v = chars_of(relay_base);
    let mut end = v.len();
    assert(v@.subrange(0, end as int) =~= v@);
    while end > 0 && v[end - 1] == '/'
        invariant
            v@ == relay_base@,
            end <= v.len(),
            without_trailing_slashes(relay_base@) == without_trailing_slashes(
                v@.subrange(0, end as int),
            ),
        decreases end,
    {
        assert(v@.subrange(0, end as int).drop_last() =~= v@.subrange(0, end - 1));
        end = end - 1;
    }
    let base = slice_chars(&v, 0, end);
    let text = string_from_chars(base.as_slice());
    concat(text.as_str(), "/v1/devices/register")
}

/// The fields a registration reply must carry, checked in order: the
/// device id, the device token and the relay URL.
pub fn registration_fields(device_id: Option<&str>, device_token: Option<&str>, relay_url: Option<&str>) -> (r: Result<(String, String, String), AgentError>)
    ensures
        match r {
            Ok((a, b, c)) => {
                &&& device_id matches Some(x) && a@ == x@
                &&& device_token matches Some(y) && b@ == y@
                &&& relay_url matches Some(z) && c@ == z@
            },
            Err(e) => e@ == AgentFault::Protocol(
                if device_id is None {
                    "register response has no deviceId"@
                } else if device_token is None {
                    "register response has no deviceToken"@
                } else {
                    "register response has no relayUrl"@
                },
            ) && (device_id is None || device_token is None || relay_url is None),
        },
{
    let id = match device_id {
        Some(x) => x,
        None => return Err(AgentError::Protocol("register response has no deviceId".to_owned())),
    };
    let token = match device_token {
        Some(x) => x,
        None => return Err(AgentError::Protocol("register response has no deviceToken".to_owned())),
    };
    let url = match relay_url {
        Some(x) => x,
        None => return Err(AgentError::Protocol("register response has no relayUrl".to_owned())),
    };
    Ok((id.to_owned(), token.to_owned(), url.to_owned()))
}

} // verus!
