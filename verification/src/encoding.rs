//! Base64 as RFC 4648 defines it, with the standard or the URL-safe
//! alphabet, padded or not. Decoding is the inverse of encoding: a decoder
//! that requires canonical padding (or none) and clear trailing bits accepts
//! exactly the texts some bytes encode to.

use vstd::prelude::*;

verus! {

/// The character the alphabet gives the six bits `v`: the standard one ends
/// with `+` and `/`, the URL-safe one with `-` and `_`.
pub open spec fn b64_char(v: nat, url_safe: bool) -> char {
    if v < 26 {
        ('A' as u32 + v) as char
    } else if v < 52 {
        ('a' as u32 + (v - 26)) as char
    } else if v < 62 {
        ('0' as u32 + (v - 52)) as char
    } else if v == 62 {
        if url_safe {
            '-'
        } else {
            '+'
        }
    } else if url_safe {
        '_'
    } else {
        '/'
    }
}

/// Every three bytes become four characters; a last group of one or two
/// bytes becomes two or three, padded with `=` to four when `pad` is set.
pub open spec fn b64_encode(b: Seq<u8>, url_safe: bool, pad: bool) -> Seq<char>
    decreases b.len(),
{
    if b.len() == 0 {
        Seq::empty()
    } else if b.len() == 1 {
        seq![b64_char((b[0] / 4) as nat, url_safe), b64_char(((b[0] % 4) * 16) as nat, url_safe)]
            + if pad {
            seq!['=', '=']
        } else {
            Seq::empty()
        }
    } else if b.len() == 2 {
        seq![
            b64_char((b[0] / 4) as nat, url_safe),
            b64_char(((b[0] % 4) * 16 + b[1] / 16) as nat, url_safe),
            b64_char(((b[1] % 16) * 4) as nat, url_safe),
        ] + if pad {
            seq!['=']
        } else {
            Seq::empty()
        }
    } else {
        seq![
            b64_char((b[0] / 4) as nat, url_safe),
            b64_char(((b[0] % 4) * 16 + b[1] / 16) as nat, url_safe),
            b64_char(((b[1] % 16) * 4 + b[2] / 64) as nat, url_safe),
            b64_char((b[2] % 64) as nat, url_safe),
        ] + b64_encode(b.subrange(3, b.len() as int), url_safe, pad)
    }
}

/// The bytes `text` encodes, if it is the encoding of any: since encoding
/// is one to one, there is at most one such sequence.
pub open spec fn b64_decode(text: Seq<char>, url_safe: bool, pad: bool) -> Option<Seq<u8>> {
    if exists|b: Seq<u8>| b64_encode(b, url_safe, pad) == text {
        Some(choose|b: Seq<u8>| b64_encode(b, url_safe, pad) == text)
    } else {
        None
    }
}

/// The characters of the URL-safe alphabet.
pub open spec fn is_base64url_char(c: char) -> bool {
    ('A' <= c && c <= 'Z') || ('a' <= c && c <= 'z') || ('0' <= c && c <= '9') || c == '-' || c
        == '_'
}

/// Unpadded URL-safe base64 of `n` bytes is `(4n + 2) / 3` characters of the
/// URL-safe alphabet.
pub proof fn lemma_url_safe_shape(b: Seq<u8>)
    ensures
        b64_encode(b, true, false).len() == (4 * b.len() + 2) / 3,
        forall|i: int|
            0 <= i < b64_encode(b, true, false).len() ==> is_base64url_char(
                #[trigger] b64_encode(b, true, false)[i],
            ),
    decreases b.len(),
{
    let e = b64_encode(b, true, false);
    assert forall|v: nat| v < 64 implies is_base64url_char(#[trigger] b64_char(v, true)) by {}
    if b.len() == 1 {
        assert(e =~= seq![
            b64_char((b[0] / 4) as nat, true),
            b64_char(((b[0] % 4) * 16) as nat, true),
        ]);
    } else if b.len() == 2 {
        assert(e =~= seq![
            b64_char((b[0] / 4) as nat, true),
            b64_char(((b[0] % 4) * 16 + b[1] / 16) as nat, true),
            b64_char(((b[1] % 16) * 4) as nat, true),
        ]);
    } else if b.len() >= 3 {
        let rest = b.subrange(3, b.len() as int);
        lemma_url_safe_shape(rest);
        let head = seq![
            b64_char((b[0] / 4) as nat, true),
            b64_char(((b[0] % 4) * 16 + b[1] / 16) as nat, true),
            b64_char(((b[1] % 16) * 4 + b[2] / 64) as nat, true),
            b64_char((b[2] % 64) as nat, true),
        ];
        assert(e == head + b64_encode(rest, true, false));
        assert forall|i: int| 0 <= i < e.len() implies is_base64url_char(#[trigger] e[i]) by {
            if i < 4 {
                assert(e[i] == head[i]);
            } else {
                assert(e[i] == b64_encode(rest, true, false)[i - 4]);
            }
        }
    }
}

/// The length of the encoding of `n` bytes.
pub open spec fn b64_len(n: nat, pad: bool) -> nat {
    if pad {
        4 * ((n + 2) / 3)
    } else {
        (4 * n + 2) / 3
    }
}

proof fn lemma_b64_len(b: Seq<u8>, url_safe: bool, pad: bool)
    ensures
        b64_encode(b, url_safe, pad).len() == b64_len(b.len(), pad),
    decreases b.len(),
{
    if b.len() >= 3 {
        lemma_b64_len(b.subrange(3, b.len() as int), url_safe, pad);
    }
}

proof fn lemma_b64_char_facts(v: nat, w: nat, url_safe: bool)
    requires
        v < 64,
        w < 64,
    ensures
        b64_char(v, url_safe) != '=',
        b64_char(v, url_safe) == b64_char(w, url_safe) ==> v == w,
{
    let c = b64_char(v, url_safe);
    let d = b64_char(w, url_safe);
    assert(v < 26 ==> c as u32 == 65 + v);
    assert(26 <= v < 52 ==> c as u32 == 97 + (v - 26));
    assert(52 <= v < 62 ==> c as u32 == 48 + (v - 52));
    assert(w < 26 ==> d as u32 == 65 + w);
    assert(26 <= w < 52 ==> d as u32 == 97 + (w - 26));
    assert(52 <= w < 62 ==> d as u32 == 48 + (w - 52));
}

proof fn lemma_bytes_from_groups(x0: u8, x1: u8, x2: u8, y0: u8, y1: u8, y2: u8)
    requires
        x0 / 4 == y0 / 4,
        (x0 % 4) * 16 + x1 / 16 == (y0 % 4) * 16 + y1 / 16,
        (x1 % 16) * 4 + x2 / 64 == (y1 % 16) * 4 + y2 / 64,
        x2 % 64 == y2 % 64,
    ensures
        x0 == y0,
        x1 == y1,
        x2 == y2,
{
    assert(x0 == y0 && x1 == y1 && x2 == y2) by (bit_vector)
        requires
            x0 / 4 == y0 / 4,
            (x0 % 4) * 16 + x1 / 16 == (y0 % 4) * 16 + y1 / 16,
            (x1 % 16) * 4 + x2 / 64 == (y1 % 16) * 4 + y2 / 64,
            x2 % 64 == y2 % 64,
    ;
}

proof fn lemma_small_groups(x0: u8, x1: u8, y0: u8, y1: u8)
    ensures
        x0 / 4 == y0 / 4 && (x0 % 4) * 16 == (y0 % 4) * 16 ==> x0 == y0,
        x0 / 4 == y0 / 4 && (x0 % 4) * 16 + x1 / 16 == (y0 % 4) * 16 + y1 / 16 && (x1 % 16) * 4
            == (y1 % 16) * 4 ==> x0 == y0 && x1 == y1,
{
    assert(x0 / 4 == y0 / 4 && (x0 % 4) * 16 == (y0 % 4) * 16 ==> x0 == y0) by (bit_vector);
    assert(x0 / 4 == y0 / 4 && (x0 % 4) * 16 + x1 / 16 == (y0 % 4) * 16 + y1 / 16 && (x1 % 16) * 4
        == (y1 % 16) * 4 ==> x0 == y0 && x1 == y1) by (bit_vector);
}

/// An encoding of fewer than three bytes is the encoding of no sequence of
/// another length.
proof fn lemma_small_same_len(x: Seq<u8>, y: Seq<u8>, url_safe: bool, pad: bool)
    requires
        x.len() < 3,
        b64_encode(x, url_safe, pad) == b64_encode(y, url_safe, pad),
    ensures
        y.len() == x.len(),
{
    lemma_b64_len(x, url_safe, pad);
    lemma_b64_len(y, url_safe, pad);
    let ex = b64_encode(x, url_safe, pad);
    let ey = b64_encode(y, url_safe, pad);
    if !pad {
        assert(y.len() >= 3 ==> ey.len() >= 4);
    } else if x.len() > 0 && y.len() > 0 && y.len() != x.len() {
        if y.len() >= 3 {
            lemma_b64_char_facts((y[2] % 64) as nat, 0, url_safe);
            assert(ey[3] == b64_char((y[2] % 64) as nat, url_safe));
            assert(ex[3] == '=');
        } else if y.len() == 2 {
            lemma_b64_char_facts(((y[1] % 16) * 4) as nat, 0, url_safe);
            assert(ey[2] == b64_char(((y[1] % 16) * 4) as nat, url_safe));
            assert(ex[2] == '=');
        } else {
            lemma_b64_char_facts(((x[1] % 16) * 4) as nat, 0, url_safe);
            assert(ex[2] == b64_char(((x[1] % 16) * 4) as nat, url_safe));
            assert(ey[2] == '=');
        }
    }
}

/// Encoding is one to one: two byte sequences with the same encoding are
/// the same.
pub proof fn lemma_b64_injective(a: Seq<u8>, b: Seq<u8>, url_safe: bool, pad: bool)
    requires
        b64_encode(a, url_safe, pad) == b64_encode(b, url_safe, pad),
    ensures
        a == b,
    decreases a.len(),
{
    let ea = b64_encode(a, url_safe, pad);
    if a.len() < 3 {
        lemma_small_same_len(a, b, url_safe, pad);
    } else if b.len() < 3 {
        lemma_small_same_len(b, a, url_safe, pad);
    }
    if a.len() == 1 {
        lemma_b64_char_facts((a[0] / 4) as nat, (b[0] / 4) as nat, url_safe);
        lemma_b64_char_facts(((a[0] % 4) * 16) as nat, ((b[0] % 4) * 16) as nat, url_safe);
        assert(ea[0] == b64_char((a[0] / 4) as nat, url_safe));
        assert(ea[1] == b64_char(((a[0] % 4) * 16) as nat, url_safe));
        lemma_small_groups(a[0], 0, b[0], 0);
        assert(a =~= b);
    } else if a.len() == 2 {
        lemma_b64_char_facts((a[0] / 4) as nat, (b[0] / 4) as nat, url_safe);
        lemma_b64_char_facts(((a[0] % 4) * 16 + a[1] / 16) as nat, ((b[0] % 4) * 16 + b[1] / 16) as nat, url_safe);
        lemma_b64_char_facts(((a[1] % 16) * 4) as nat, ((b[1] % 16) * 4) as nat, url_safe);
        assert(ea[0] == b64_char((a[0] / 4) as nat, url_safe));
        assert(ea[1] == b64_char(((a[0] % 4) * 16 + a[1] / 16) as nat, url_safe));
        assert(ea[2] == b64_char(((a[1] % 16) * 4) as nat, url_safe));
        lemma_small_groups(a[0], a[1], b[0], b[1]);
        assert(a =~= b);
    } else if a.len() >= 3 {
        lemma_b64_char_facts((a[0] / 4) as nat, (b[0] / 4) as nat, url_safe);
        lemma_b64_char_facts(((a[0] % 4) * 16 + a[1] / 16) as nat, ((b[0] % 4) * 16 + b[1] / 16) as nat, url_safe);
        lemma_b64_char_facts(((a[1] % 16) * 4 + a[2] / 64) as nat, ((b[1] % 16) * 4 + b[2] / 64) as nat, url_safe);
        lemma_b64_char_facts((a[2] % 64) as nat, (b[2] % 64) as nat, url_safe);
        assert(ea[0] == b64_char((a[0] / 4) as nat, url_safe));
        assert(ea[1] == b64_char(((a[0] % 4) * 16 + a[1] / 16) as nat, url_safe));
        assert(ea[2] == b64_char(((a[1] % 16) * 4 + a[2] / 64) as nat, url_safe));
        assert(ea[3] == b64_char((a[2] % 64) as nat, url_safe));
        lemma_bytes_from_groups(a[0], a[1], a[2], b[0], b[1], b[2]);
        let ra = a.subrange(3, a.len() as int);
        let rb = b.subrange(3, b.len() as int);
        assert(ea.subrange(4, ea.len() as int) =~= b64_encode(ra, url_safe, pad));
        assert(ea.subrange(4, ea.len() as int) =~= b64_encode(rb, url_safe, pad));
        lemma_b64_injective(ra, rb, url_safe, pad);
        assert forall|i: int| 0 <= i < a.len() implies a[i] == b[i] by {
            if i >= 3 {
                assert(a[i] == ra[i - 3]);
                assert(b[i] == rb[i - 3]);
            }
        }
        assert(a =~= b);
    } else {
        assert(a =~= b);
    }
}

/// Decoding gives back what was encoded.
pub proof fn lemma_b64_round_trip(b: Seq<u8>, url_safe: bool, pad: bool)
    ensures
        b64_decode(b64_encode(b, url_safe, pad), url_safe, pad) == Some(b),
{
    let e = b64_encode(b, url_safe, pad);
    assert(exists|x: Seq<u8>| b64_encode(x, url_safe, pad) == e);
    let c = choose|x: Seq<u8>| b64_encode(x, url_safe, pad) == e;
    lemma_b64_injective(c, b, url_safe, pad);
}

} // verus!
