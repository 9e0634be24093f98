//! Checks on the relay's runtime configuration.
//!
//! The values come from the environment, which the application reads; the
//! rules they must meet are here. Secrets never come from command-line
//! arguments, which other users can read.

use vstd::prelude::*;
use crate::protocol::patterns::is_digit;
use crate::encoding::b64_decode;
use crate::text::{
    chars_of, concat, decimal, decimal_string, signed_decimal, signed_decimal_string, trim_chars,
    trimmed, string_from_chars,
};

verus! {

/// The shortest pepper or signing key accepted, in bytes: the security level
/// of HMAC-SHA-256. Anything shorter is a misconfiguration.
pub const MIN_SECRET_BYTES: usize = 32;

/// Why the relay cannot start.
#[derive(Debug)]
pub enum StartupError {
    Config(String),
}

impl StartupError {
    /// The text the operator sees.
    pub fn describe(&self) -> (r: String)
        ensures
            r@ == match self {
                StartupError::Config(m) => "configuration error: "@ + m@,
            },
    {
        match self {
            StartupError::Config(m) => concat("configuration error: ", m.as_str()),
        }
    }
}

/// Why std's integer parsing refuses a text.
#[derive(Debug, Clone, Copy, PartialEq, Eq, Structural)]
pub enum IntErrorKind {
    Empty,
    InvalidDigit,
    PosOverflow,
    NegOverflow,
}

impl IntErrorKind {
    /// The text std's `ParseIntError` displays for this kind.
    pub open spec fn text(self) -> Seq<char> {
        match self {
            IntErrorKind::Empty => "cannot parse integer from empty string"@,
            IntErrorKind::InvalidDigit => "invalid digit found in string"@,
            IntErrorKind::PosOverflow => "number too large to fit in target type"@,
            IntErrorKind::NegOverflow => "number too small to fit in target type"@,
        }
    }

    pub fn as_str(self) -> (r: &'static str)
        ensures
            r@ == self.text(),
    {
        match self {
            IntErrorKind::Empty => "cannot parse integer from empty string",
            IntErrorKind::InvalidDigit => "invalid digit found in string",
            IntErrorKind::PosOverflow => "number too large to fit in target type",
            IntErrorKind::NegOverflow => "number too small to fit in target type",
        }
    }
}

pub open spec fn digit_value(c: char) -> nat {
    (c as u32 - '0' as u32) as nat
}

/// Reads the digits of `s` from `i` on, `acc` being the magnitude read so
/// far and `negative` the sign: the first non-digit, or the first digit that
/// takes the number out of the `i64` range, ends the reading with an error.
pub open spec fn read_digits(s: Seq<char>, i: int, acc: nat, negative: bool) -> Result<
    int,
    IntErrorKind,
>
    decreases s.len() - i,
{
    if i >= s.len() {
        Ok(if negative { -acc } else { acc as int })
    } else if !is_digit(s[i]) {
        Err(IntErrorKind::InvalidDigit)
    } else {
        let next = acc * 10 + digit_value(s[i]);
        if !negative && next > i64::MAX {
            Err(IntErrorKind::PosOverflow)
        } else if negative && next > i64::MAX + 1 {
            Err(IntErrorKind::NegOverflow)
        } else {
            read_digits(s, i + 1, next, negative)
        }
    }
}

/// What std's `i64::from_str` gives for `s`: an optional sign, then at least
/// one decimal digit and nothing else, within the `i64` range.
pub open spec fn parse_i64(s: Seq<char>) -> Result<int, IntErrorKind> {
    if s.len() == 0 {
        Err(IntErrorKind::Empty)
    } else if (s[0] == '+' || s[0] == '-') && s.len() == 1 {
        Err(IntErrorKind::InvalidDigit)
    } else if s[0] == '+' {
        read_digits(s, 1, 0, false)
    } else if s[0] == '-' {
        read_digits(s, 1, 0, true)
    } else {
        read_digits(s, 0, 0, false)
    }
}

/// Parses a decimal `i64` as std's `i64::from_str` does.
pub fn parse_i64_chars(s: &Vec<char>) -> (r: Result<i64, IntErrorKind>)
    ensures
        match parse_i64(s@) {
            Ok(v) => r == Ok::<i64, IntErrorKind>(v as i64) && i64::MIN <= v <= i64::MAX,
            Err(k) => r == Err::<i64, IntErrorKind>(k),
        },
{
    if s.len() == 0 {
        return Err(IntErrorKind::Empty);
    }
    if (s[0] == '+' || s[0] == '-') && s.len() == 1 {
        return Err(IntErrorKind::InvalidDigit);
    }
    let negative = s[0] == '-';
    let mut i: usize = if s[0] == '+' || s[0] == '-' { 1 } else { 0 };
    let mut acc: u128 = 0;
    while i < s.len()
        invariant
            i <= s.len(),
            s.len() >= 1,
            negative == (s@[0] == '-'),
            acc <= i64::MAX + 1,
            !negative ==> acc <= i64::MAX,
            parse_i64(s@) == read_digits(s@, i as int, acc as nat, negative),
        decreases s.len() - i,
    {
        let c = s[i];
        if !('0' <= c && c <= '9') {
            return Err(IntErrorKind::InvalidDigit);
        }
        let d = (c as u32 - '0' as u32) as u128;
        let next = acc * 10 + d;
        if !negative && next > 0x7fff_ffff_ffff_ffff {
            return Err(IntErrorKind::PosOverflow);
        }
        if negative && next > 0x8000_0000_0000_0000 {
            return Err(IntErrorKind::NegOverflow);
        }
        acc = next;
        i = i + 1;
    }
    if negative {
        if acc == 0x8000_0000_0000_0000 {
            Ok(i64::MIN)
        } else {
            Ok(-(acc as i64))
        }
    } else {
        Ok(acc as i64)
    }
}

pub open spec fn ttl_outcome(raw: Seq<char>) -> Result<i64, Seq<char>> {
    match parse_i64(trimmed(raw)) {
        Err(k) => Err("TERMY_ACCESS_TOKEN_TTL_SECS is not a number: "@ + k.text()),
        Ok(secs) => if 60 <= secs <= 86400 {
            Ok(secs as i64)
        } else {
            Err("TERMY_ACCESS_TOKEN_TTL_SECS must be between 60 and 86400, got "@ + signed_decimal(
                secs,
            ))
        },
    }
}

pub open spec fn startup_view<T>(r: Result<T, StartupError>) -> Result<T, Seq<char>> {
    match r {
        Ok(v) => Ok(v),
        Err(StartupError::Config(m)) => Err(m@),
    }
}

/// The access token lifetime in seconds, from its setting: a decimal
/// number, surrounding whitespace allowed, between a minute and a day. The
/// lower bound keeps a typo from issuing tokens that expire before they can
/// be used; past a day a token stops being a short-lived credential.
pub fn parse_access_token_ttl(raw: &str) -> (r: Result<i64, StartupError>)
    ensures
        startup_view(r) == ttl_outcome(raw@),
{
    let text = trim_chars(raw);
    match parse_i64_chars(&text) {
        Err(k) => Err(StartupError::Config(concat(
            "TERMY_ACCESS_TOKEN_TTL_SECS is not a number: ",
            k.as_str(),
        ))),
        Ok(secs) => {
            if secs < 60 || secs > 86400 {
                let number = signed_decimal_string(secs);
                Err(StartupError::Config(concat(
                    "TERMY_ACCESS_TOKEN_TTL_SECS must be between 60 and 86400, got ",
                    number.as_str(),
                )))
            } else {
                Ok(secs)
            }
        },
    }
}

/// Decodes `text` with base64's `STANDARD_NO_PAD` engine, which refuses
/// padding and trailing bits that are not zero, so it accepts exactly the
/// unpadded standard encodings; `None` when the engine reports an error.
#[verifier::external_body]
fn decode_standard_no_pad(text: &str) -> (r: Option<Vec<u8>>)
    ensures
        match r {
            Some(v) => b64_decode(text@, false, false) == Some(v@),
            None => b64_decode(text@, false, false) is None,
        },
{
    base64::Engine::decode(&base64::engine::general_purpose::STANDARD_NO_PAD, text).ok()
}

/// Decodes `text` with base64's `URL_SAFE_NO_PAD` engine, which accepts
/// exactly the unpadded URL-safe encodings; `None` when the engine reports
/// an error.
#[verifier::external_body]
fn decode_url_safe_no_pad(text: &str) -> (r: Option<Vec<u8>>)
    ensures
        match r {
            Some(v) => b64_decode(text@, true, false) == Some(v@),
            None => b64_decode(text@, true, false) is None,
        },
{
    base64::Engine::decode(&base64::engine::general_purpose::URL_SAFE_NO_PAD, text).ok()
}

/// `s` without its trailing `=` characters.
pub open spec fn without_padding(s: Seq<char>) -> Seq<char>
    decreases s.len(),
{
    if s.len() > 0 && s[s.len() - 1] == '=' {
        without_padding(s.drop_last())
    } else {
        s
    }
}

/// What a secret setting decodes to: the standard alphabet tried first,
/// then the URL-safe one, padding ignored, and at least
/// `MIN_SECRET_BYTES` bytes.
pub open spec fn secret_outcome(key: Seq<char>, raw: Seq<char>) -> Result<Seq<u8>, Seq<char>> {
    let text = without_padding(raw);
    let decoded = match b64_decode(text, false, false) {
        Some(b) => Some(b),
        None => b64_decode(text, true, false),
    };
    match decoded {
        None => Err(key + " is not valid base64"@),
        Some(b) => if b.len() < MIN_SECRET_BYTES {
            Err(key + " decodes to "@ + decimal(b.len()) + " bytes, at least 32 are required"@)
        } else {
            Ok(b)
        },
    }
}

pub open spec fn secret_view(r: Result<Vec<u8>, StartupError>) -> Result<Seq<u8>, Seq<char>> {
    match r {
        Ok(v) => Ok(v@),
        Err(StartupError::Config(m)) => Err(m@),
    }
}

/// Decodes the secret `raw` read from the setting `key`. Secrets travel as
/// base64, standard or URL-safe, padded or not, so that raw bytes survive
/// the environment intact.
pub fn decode_secret(key: &str, raw: &str) -> (r: Result<Vec<u8>, StartupError>)
    ensures
        secret_view(r) == secret_outcome(key@, raw@),
{
    let v = chars_of(raw);
    let mut end = v.len();
    assert(v@.subrange(0, end as int) =~= v@);
    while end > 0 && v[end - 1] == '='
        invariant
            v@ == raw@,
            end <= v.len(),
            without_padding(raw@) == without_padding(v@.subrange(0, end as int)),
        decreases end,
    {
        assert(v@.subrange(0, end as int).drop_last() =~= v@.subrange(0, end - 1));
        end = end - 1;
    }
    assert(without_padding(v@.subrange(0, end as int)) == v@.subrange(0, end as int));
    let text = string_from_chars(v.as_slice().split_at(end).0);
    assert(text@ =~= without_padding(raw@));
    let decoded = match decode_standard_no_pad(text.as_str()) {
        Some(b) => Some(b),
        None => decode_url_safe_no_pad(text.as_str()),
    };
    match decoded {
        None => Err(StartupError::Config(concat(key, " is not valid base64"))),
        Some(bytes) => {
            if bytes.len() < MIN_SECRET_BYTES {
                let count = decimal_string(bytes.len() as u64);
                let head = concat(key, " decodes to ");
                let body = concat(head.as_str(), count.as_str());
                let message = concat(body.as_str(), " bytes, at least 32 are required");
                assert(message@ =~= key@ + " decodes to "@ + decimal(bytes@.len())
                    + " bytes, at least 32 are required"@);
                Err(StartupError::Config(message))
            } else {
                Ok(bytes)
            }
        },
    }
}

/// Agents verify certificates and never connect over `ws://`, so the URL
/// the relay advertises to them must be `wss://`.
pub fn check_relay_url(url: &str) -> (r: Result<(), StartupError>)
    ensures
        startup_view(r) == if url@.len() >= 6 && url@.subrange(0, 6) == "wss://"@ {
            Ok::<(), Seq<char>>(())
        } else {
            Err(RELAY_URL_MESSAGE@)
        },
{
    let v = chars_of(url);
    proof {
        reveal_strlit("wss://");
    }
    let ok = v.len() >= 6 && v[0] == 'w' && v[1] == 's' && v[2] == 's' && v[3] == ':' && v[4]
        == '/' && v[5] == '/';
    assert(ok == (url@.len() >= 6 && url@.subrange(0, 6) == "wss://"@)) by {
        if url@.len() >= 6 {
            assert(ok ==> url@.subrange(0, 6) =~= "wss://"@);
            if url@.subrange(0, 6) == "wss://"@ {
                assert(url@.subrange(0, 6)[0] == 'w');
                assert(url@.subrange(0, 6)[1] == 's');
                assert(url@.subrange(0, 6)[2] == 's');
                assert(url@.subrange(0, 6)[3] == ':');
                assert(url@.subrange(0, 6)[4] == '/');
                assert(url@.subrange(0, 6)[5] == '/');
            }
        }
    }
    if ok {
        Ok(())
    } else {
        Err(StartupError::Config(RELAY_URL_MESSAGE.to_owned()))
    }
}

pub const RELAY_URL_MESSAGE: &'static str =
    "TERMY_RELAY_URL must start with wss:// - agents verify certificates against webpki-roots and will not connect over ws://";

} // verus!
