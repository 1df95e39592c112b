//! Primitive pieces of the canonical binary encoding: ULEB128 length
//! prefixes, length-prefixed UTF-8 strings, optional strings, and
//! little-endian integers, each with a proof that its encoding is
//! unambiguous when followed by arbitrary bytes.
use vstd::prelude::*;

verus! {

use vstd::arithmetic::div_mod::lemma_fundamental_div_mod;
use vstd::bytes::{spec_u64_to_le_bytes, lemma_auto_spec_u64_to_from_le_bytes, spec_u64_from_le_bytes};
use vstd::utf8::{encode_utf8, decode_utf8};

/// ULEB128 encoding of an unsigned integer: seven value bits per byte,
/// least significant group first, high bit set on every byte but the last.
pub open spec fn uleb128(n: nat) -> Seq<u8>
    decreases n,
{
    if n < 128 {
        seq![n as u8]
    } else {
        seq![(n % 128 + 128) as u8] + uleb128(n / 128)
    }
}

/// Canonical encoding of a string: ULEB128 byte length, then the UTF-8 bytes.
pub open spec fn str_encoding(s: Seq<char>) -> Seq<u8> {
    uleb128(encode_utf8(s).len()) + encode_utf8(s)
}

/// Canonical encoding of an optional string: a presence byte, then the
/// string encoding if present.
pub open spec fn opt_str_encoding(o: Option<Seq<char>>) -> Seq<u8> {
    match o {
        Option::None => seq![0u8],
        Option::Some(s) => seq![1u8] + str_encoding(s),
    }
}

/// Two concatenations are equal and their first parts have equal length,
/// so both parts coincide.
pub proof fn lemma_concat_split(a1: Seq<u8>, x1: Seq<u8>, a2: Seq<u8>, x2: Seq<u8>)
    requires
        a1 + x1 == a2 + x2,
        a1.len() == a2.len(),
    ensures
        a1 == a2,
        x1 == x2,
{
    assert(a1 =~= a2) by {
        assert forall|i: int| 0 <= i < a1.len() implies a1[i] == a2[i] by {
            assert((a1 + x1)[i] == a1[i]);
            assert((a2 + x2)[i] == a2[i]);
        }
    }
    assert((a1 + x1).len() == a1.len() + x1.len());
    assert((a2 + x2).len() == a2.len() + x2.len());
    assert(x1 =~= x2) by {
        assert(x1.len() == x2.len());
        assert forall|i: int| 0 <= i < x1.len() implies x1[i] == x2[i] by {
            assert((a1 + x1)[a1.len() + i] == x1[i]);
            assert((a2 + x2)[a2.len() + i] == x2[i]);
        }
    }
}

/// A ULEB128 encoding determines its value and consumes a fixed prefix:
/// whatever bytes follow, equal streams mean equal values and equal tails.
pub proof fn lemma_uleb128_unambiguous(a: nat, b: nat, x: Seq<u8>, y: Seq<u8>)
    requires
        uleb128(a) + x == uleb128(b) + y,
    ensures
        a == b,
        x == y,
    decreases a,
{
    let ea = uleb128(a);
    let eb = uleb128(b);
    assert((ea + x)[0] == ea[0]);
    assert((eb + y)[0] == eb[0]);
    if a < 128 && b < 128 {
        assert(ea[0] == a as u8);
        assert(eb[0] == b as u8);
        lemma_concat_split(ea, x, eb, y);
    } else if a < 128 && b >= 128 {
        assert(ea[0] == a as u8 && (a as u8) < 128);
        assert(eb[0] == (b % 128 + 128) as u8 && ((b % 128 + 128) as u8) >= 128);
    } else if a >= 128 && b < 128 {
        assert(eb[0] == b as u8 && (b as u8) < 128);
        assert(ea[0] == (a % 128 + 128) as u8 && ((a % 128 + 128) as u8) >= 128);
    } else {
        assert((a % 128 + 128) as u8 == (b % 128 + 128) as u8);
        assert(a % 128 == b % 128);
        assert(uleb128(a / 128) + x =~= (ea + x).subrange(1, (ea + x).len() as int)) by {
            assert(ea == seq![(a % 128 + 128) as u8] + uleb128(a / 128));
        }
        assert(uleb128(b / 128) + y =~= (eb + y).subrange(1, (eb + y).len() as int)) by {
            assert(eb == seq![(b % 128 + 128) as u8] + uleb128(b / 128));
        }
        lemma_uleb128_unambiguous(a / 128, b / 128, x, y);
        lemma_fundamental_div_mod(a as int, 128);
        lemma_fundamental_div_mod(b as int, 128);
    }
}

/// A string encoding determines its string and its extent in the stream.
pub proof fn lemma_str_encoding_unambiguous(s1: Seq<char>, s2: Seq<char>, x: Seq<u8>, y: Seq<u8>)
    requires
        str_encoding(s1) + x == str_encoding(s2) + y,
    ensures
        s1 == s2,
        x == y,
{
    let u1 = encode_utf8(s1);
    let u2 = encode_utf8(s2);
    assert(uleb128(u1.len()) + (u1 + x) =~= str_encoding(s1) + x);
    assert(uleb128(u2.len()) + (u2 + y) =~= str_encoding(s2) + y);
    lemma_uleb128_unambiguous(u1.len(), u2.len(), u1 + x, u2 + y);
    lemma_concat_split(u1, x, u2, y);
    vstd::utf8::encode_utf8_decode_utf8(s1);
    vstd::utf8::encode_utf8_decode_utf8(s2);
    assert(s1 == decode_utf8(u1) && s2 == decode_utf8(u2));
}

/// An optional-string encoding determines its value and its extent.
pub proof fn lemma_opt_str_encoding_unambiguous(
    o1: Option<Seq<char>>,
    o2: Option<Seq<char>>,
    x: Seq<u8>,
    y: Seq<u8>,
)
    requires
        opt_str_encoding(o1) + x == opt_str_encoding(o2) + y,
    ensures
        o1 == o2,
        x == y,
{
    let e1 = opt_str_encoding(o1);
    let e2 = opt_str_encoding(o2);
    assert((e1 + x)[0] == e1[0]);
    assert((e2 + y)[0] == e2[0]);
    match (o1, o2) {
        (Option::None, Option::None) => {
            lemma_concat_split(e1, x, e2, y);
        },
        (Option::Some(s1), Option::Some(s2)) => {
            assert(str_encoding(s1) + x =~= (e1 + x).subrange(1, (e1 + x).len() as int));
            assert(str_encoding(s2) + y =~= (e2 + y).subrange(1, (e2 + y).len() as int));
            lemma_str_encoding_unambiguous(s1, s2, x, y);
        },
        (Option::None, Option::Some(s2)) => {
            assert(e1[0] == 0u8 && e2[0] == 1u8);
        },
        (Option::Some(s1), Option::None) => {
            assert(e1[0] == 1u8 && e2[0] == 0u8);
        },
    }
}

/// A little-endian `u64` encoding determines its value and its extent.
pub proof fn lemma_u64_le_unambiguous(a: u64, b: u64, x: Seq<u8>, y: Seq<u8>)
    requires
        spec_u64_to_le_bytes(a) + x == spec_u64_to_le_bytes(b) + y,
    ensures
        a == b,
        x == y,
{
    lemma_auto_spec_u64_to_from_le_bytes();
    lemma_concat_split(spec_u64_to_le_bytes(a), x, spec_u64_to_le_bytes(b), y);
    assert(a == spec_u64_from_le_bytes(spec_u64_to_le_bytes(a)));
    assert(b == spec_u64_from_le_bytes(spec_u64_to_le_bytes(b)));
}

/// Appends the ULEB128 encoding of `n`.
pub fn push_uleb128(out: &mut Vec<u8>, n: u64)
    ensures
        final(out)@ == old(out)@ + uleb128(n as nat),
    decreases n,
{
    if n < 128 {
        out.push(n as u8);
        assert(final(out)@ =~= old(out)@ + uleb128(n as nat));
    } else {
        out.push((n % 128 + 128) as u8);
        push_uleb128(out, n / 128);
        assert((n / 128) as nat == n as nat / 128);
        assert(final(out)@ =~= old(out)@ + uleb128(n as nat));
    }
}

/// Appends the eight little-endian bytes of `x`.
pub fn push_u64_le(out: &mut Vec<u8>, x: u64)
    ensures
        final(out)@ == old(out)@ + spec_u64_to_le_bytes(x),
{
    proof {
        vstd::bytes::spec_u64_to_le_bytes_to_open(x);
    }
    out.push((x & 0xff) as u8);
    out.push(((x >> 8) & 0xff) as u8);
    out.push(((x >> 16) & 0xff) as u8);
    out.push(((x >> 24) & 0xff) as u8);
    out.push(((x >> 32) & 0xff) as u8);
    out.push(((x >> 40) & 0xff) as u8);
    out.push(((x >> 48) & 0xff) as u8);
    out.push(((x >> 56) & 0xff) as u8);
    assert(final(out)@ =~= old(out)@ + vstd::bytes::spec_u64_to_le_bytes_open(x));
}

/// Appends the bytes of a slice.
pub fn push_bytes(out: &mut Vec<u8>, bytes: &[u8])
    ensures
        final(out)@ == old(out)@ + bytes@,
{
    let mut i: usize = 0;
    while i < bytes.len()
        invariant
            i <= bytes.len(),
            out@ == old(out)@ + bytes@.subrange(0, i as int),
        decreases bytes.len() - i,
    {
        out.push(bytes[i]);
        assert(out@ =~= old(out)@ + bytes@.subrange(0, i + 1));
        i = i + 1;
    }
    assert(bytes@.subrange(0, bytes@.len() as int) =~= bytes@);
}

/// Appends the canonical encoding of a string: ULEB128 byte length, then
/// the UTF-8 bytes.
pub fn push_str(out: &mut Vec<u8>, s: &str)
    ensures
        final(out)@ == old(out)@ + str_encoding(s@),
{
    let bytes = s.as_bytes();
    push_uleb128(out, bytes.len() as u64);
    push_bytes(out, bytes);
    assert(final(out)@ =~= old(out)@ + str_encoding(s@));
}

/// The view of an optional string, for specs over optional fields.
pub open spec fn opt_view(o: Option<String>) -> Option<Seq<char>> {
    match o {
        Option::None => Option::None,
        Option::Some(s) => Option::Some(s@),
    }
}

/// Appends the canonical encoding of an optional string.
pub fn push_opt_str(out: &mut Vec<u8>, o: &Option<String>)
    ensures
        final(out)@ == old(out)@ + opt_str_encoding(opt_view(*o)),
{
    match o {
        Option::None => {
            out.push(0u8);
            assert(final(out)@ =~= old(out)@ + opt_str_encoding(opt_view(*o)));
        },
        Option::Some(s) => {
            out.push(1u8);
            push_str(out, s.as_str());
            assert(final(out)@ =~= old(out)@ + opt_str_encoding(opt_view(*o)));
        },
    }
}

} // verus!
