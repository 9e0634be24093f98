//! Access tokens: their claims and who a request comes from.

use vstd::prelude::*;
use crate::agent::config::starts_with;
use crate::ids::{parse_uuid, uuid_value};
use crate::relay::error::{AppError, STATUS_UNAUTHORIZED};
use crate::text::{chars_of, string_from_chars, trim_chars, trimmed};

verus! {

/// The claims of a user access token.
#[derive(Debug, Clone, PartialEq, Eq)]
pub struct Claims {
    /// The user's id.
    pub sub: String,
    pub iat: i64,
    pub exp: i64,
}

/// The claims of a token for `user_id` issued at `now` that lives
/// `ttl_secs` seconds.
pub fn access_claims(user_id: String, now: i64, ttl_secs: i64) -> (r: Claims)
    requires
        i64::MIN <= now + ttl_secs <= i64::MAX,
    ensures
        r.sub@ == user_id@,
        r.iat == now,
        r.exp == now + ttl_secs,
{
    Claims { sub: user_id, iat: now, exp: now + ttl_secs }
}

/// The user a verified token names: its subject must be a UUID, and a
/// token whose subject is not one is refused like any other bad token.
pub fn access_token_user(sub: &str) -> (r: Result<u128, AppError>)
    ensures
        match r {
            Ok(id) => uuid_value(sub@) == Some(id),
            Err(e) => uuid_value(sub@) is None && e.status == STATUS_UNAUTHORIZED,
        },
{
    match parse_uuid(sub) {
        Some(id) => Ok(id),
        None => Err(AppError::unauthorized()),
    }
}

/// The token an `Authorization` header carries: what follows `Bearer `,
/// trimmed; `None` for any other scheme.
pub fn bearer_token(header: &str) -> (r: Option<String>)
    ensures
        match r {
            Some(t) => starts_with(header@, "Bearer "@) && t@ == trimmed(
                header@.subrange(7, header@.len() as int),
            ),
            None => !starts_with(header@, "Bearer "@),
        },
{
    let v = chars_of(header);
    let p = chars_of("Bearer ");
    proof {
        reveal_strlit("Bearer ");
    }
    assert(p@.len() == 7);
    if v.len() < 7 {
        return None;
    }
    let mut i: usize = 0;
    while i < 7
        invariant
            v@ == header@,
            p@ == "Bearer "@,
            p@.len() == 7,
            v@.len() >= 7,
            i <= 7,
            forall|j: int| 0 <= j < i ==> v@[j] == p@[j],
        decreases 7 - i,
    {
        if v[i] != p[i] {
            assert(header@.subrange(0, 7)[i as int] != "Bearer "@[i as int]);
            return None;
        }
        i = i + 1;
    }
    assert(header@.subrange(0, 7) =~= "Bearer "@);
    let mut rest: Vec<char> = Vec::new();
    let mut k: usize = 7;
    while k < v.len()
        invariant
            v@ == header@,
            7 <= k <= v@.len(),
            rest@ == v@.subrange(7, k as int),
        decreases v.len() - k,
    {
        rest.push(v[k]);
        k = k + 1;
        assert(rest@ =~= v@.subrange(7, k as int));
    }
    let tail = string_from_chars(rest.as_slice());
    let t = trim_chars(tail.as_str());
    Some(string_from_chars(t.as_slice()))
}

/// The text before the first comma of `s`, or all of `s` when it has none.
pub open spec fn first_field(s: Seq<char>) -> Seq<char>
    decreases s.len(),
{
    if s.len() == 0 || s[0] == ',' {
        Seq::empty()
    } else {
        seq![s[0]] + first_field(s.drop_first())
    }
}

/// The address a request counts against for rate limiting: the first
/// address of `X-Forwarded-For`, trimmed, when that is not empty (the relay
/// sits behind a reverse proxy on the same host, so the header is trusted);
/// else the peer's address; else `unknown`.
pub fn client_ip(forwarded: Option<&str>, peer: Option<String>) -> (r: ClientIp)
    ensures
        match forwarded {
            Some(f) if trimmed(first_field(f@)).len() > 0 => r.0@ == trimmed(first_field(f@)),
            _ => match peer {
                Some(p) => r.0@ == p@,
                None => r.0@ == "unknown"@,
            },
        },
{
    if let Some(f) = forwarded {
        let v = chars_of(f);
        let mut head: Vec<char> = Vec::new();
        let mut i: usize = 0;
        assert(v@.subrange(0, v@.len() as int) =~= f@);
        assert(head@ + first_field(f@) =~= first_field(f@));
        while i < v.len() && v[i] != ','
            invariant
                v@ == f@,
                i <= v@.len(),
                head@ == v@.subrange(0, i as int),
                forall|j: int| 0 <= j < i ==> v@[j] != ',',
                first_field(f@) == head@ + first_field(v@.subrange(i as int, v@.len() as int)),
            decreases v.len() - i,
        {
            let ghost rest = v@.subrange(i as int, v@.len() as int);
            assert(rest.drop_first() =~= v@.subrange(i + 1, v@.len() as int));
            assert(first_field(rest) == seq![v@[i as int]] + first_field(rest.drop_first()));
            head.push(v[i]);
            i = i + 1;
            assert(head@ =~= v@.subrange(0, i as int));
            assert(first_field(f@) =~= head@ + first_field(v@.subrange(i as int, v@.len() as int)));
        }
        assert(first_field(v@.subrange(i as int, v@.len() as int)) =~= Seq::<char>::empty());
        assert(head@ =~= first_field(f@));
        let text = string_from_chars(head.as_slice());
        let t = trim_chars(text.as_str());
        if t.len() > 0 {
            return ClientIp(string_from_chars(t.as_slice()));
        }
    }
    match peer {
        Some(p) => ClientIp(p),
        None => ClientIp("unknown".to_owned()),
    }
}

/// The authenticated user of a request.
#[derive(Debug, Clone, Copy, PartialEq, Eq, Structural)]
pub struct AuthUser {
    pub user_id: u128,
}

/// The address a request came from.
#[derive(Debug, Clone, PartialEq, Eq)]
pub struct ClientIp(pub String);

} // verus!
