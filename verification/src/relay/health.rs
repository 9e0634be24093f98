//! The operator's health probe: one plain HTTP request to `/health`, judged
//! by its status line. It runs before any configuration is read, so that a
//! probe works without the secrets the server needs.

use vstd::prelude::*;
use crate::agent::config::starts_with;
use crate::agent::register::{first_index, lemma_first_index_is};
use crate::text::{chars_of, concat, string_from_chars};

verus! {

/// The request the probe sends to `addr`.
pub fn health_request(addr: &str) -> (r: String)
    ensures
        r@ == "GET /health HTTP/1.1\r\nHost: "@ + addr@ + "\r\nConnection: close\r\n\r\n"@,
{
    let head = concat("GET /health HTTP/1.1\r\nHost: ", addr);
    concat(head.as_str(), "\r\nConnection: close\r\n\r\n")
}

/// The first line of `s` as std's `str::lines` gives it: up to the first
/// `\n`, without a `\r` just before it; all of `s` when it has no `\n`;
/// none for empty text.
pub open spec fn first_line(s: Seq<char>) -> Option<Seq<char>> {
    if s.len() == 0 {
        None
    } else {
        let i = first_index(s, '\n');
        if i < s.len() && i > 0 && s[i - 1] == '\r' {
            Some(s.subrange(0, i - 1))
        } else {
            Some(s.subrange(0, i))
        }
    }
}

/// The verdict on a reply: healthy when it starts with the status line of
/// a 200; otherwise the error names the reply's first line.
pub open spec fn health_outcome(text: Seq<char>) -> Result<(), Seq<char>> {
    if starts_with(text, "HTTP/1.1 200"@) {
        Ok(())
    } else {
        Err(
            "relay is not healthy: "@ + match first_line(text) {
                Some(l) => l,
                None => "no response"@,
            },
        )
    }
}

pub open spec fn verdict_view(r: Result<(), String>) -> Result<(), Seq<char>> {
    match r {
        Ok(()) => Ok(()),
        Err(m) => Err(m@),
    }
}

/// Judges the probe's reply.
pub fn health_verdict(text: &str) -> (r: Result<(), String>)
    ensures
        verdict_view(r) == health_outcome(text@),
{
    let v = chars_of(text);
    let p = chars_of("HTTP/1.1 200");
    let mut ok = p.len() <= v.len();
    let mut i: usize = 0;
    while ok && i < p.len()
        invariant
            v@ == text@,
            p@ == "HTTP/1.1 200"@,
            ok ==> p.len() <= v.len(),
            i <= p.len(),
            ok ==> forall|j: int| 0 <= j < i ==> v@[j] == p@[j],
            !ok ==> !starts_with(text@, "HTTP/1.1 200"@),
        decreases p.len() - i + if ok { 1int } else { 0int },
    {
        if v[i] != p[i] {
            assert(text@.subrange(0, p@.len() as int)[i as int] != p@[i as int]);
            ok = false;
        } else {
            i = i + 1;
        }
    }
    if ok {
        assert(text@.subrange(0, p@.len() as int) =~= p@);
        return Ok(());
    }
    if v.len() == 0 {
        proof {
            reveal_strlit("relay is not healthy: ");
            reveal_strlit("no response");
            reveal_strlit("relay is not healthy: no response");
            assert("relay is not healthy: "@ + "no response"@ =~= "relay is not healthy: no response"@);
        }
        return Err("relay is not healthy: no response".to_owned());
    }
    let mut k: usize = 0;
    while k < v.len() && v[k] != '\n'
        invariant
            k <= v.len(),
            forall|j: int| 0 <= j < k ==> v@[j] != '\n',
        decreases v.len() - k,
    {
        k = k + 1;
    }
    proof {
        lemma_first_index_is(v@, '\n', k as int);
    }
    let end = if k < v.len() && k > 0 && v[k - 1] == '\r' {
        k - 1
    } else {
        k
    };
    let mut line: Vec<char> = Vec::new();
    let mut j: usize = 0;
    while j < end
        invariant
            end <= v.len(),
            j <= end,
            line@ == v@.subrange(0, j as int),
        decreases end - j,
    {
        line.push(v[j]);
        j = j + 1;
        assert(line@ =~= v@.subrange(0, j as int));
    }
    let text_line = string_from_chars(line.as_slice());
    let r = concat("relay is not healthy: ", text_line.as_str());
    assert(r@ =~= "relay is not healthy: "@ + first_line(text@)->0);
    Err(r)
}

} // verus!
