//! The SCALE encodings this crate relies on, obtained from `parity-scale-codec`.
//!
//! The byte layouts below are those of the SCALE format: fixed-width integers are
//! little-endian, fixed-size byte arrays are written as they are, and a byte
//! vector is its length in the compact integer form followed by its bytes.
use vstd::prelude::*;
use parity_scale_codec::Decode;
use parity_scale_codec::Encode;

verus! {

/// The four little-endian bytes of a 32-bit value.
pub open spec fn le_u32_bytes(v: nat) -> Seq<u8> {
    seq![
        (v % 256) as u8,
        ((v / 256) % 256) as u8,
        ((v / 65536) % 256) as u8,
        ((v / 16777216) % 256) as u8,
    ]
}

/// The two little-endian bytes of a 16-bit value.
pub open spec fn le_u16_bytes(v: nat) -> Seq<u8> {
    seq![(v % 256) as u8, ((v / 256) % 256) as u8]
}

/// The compact (variable-length) SCALE form of a value below 2^32.
pub open spec fn compact_u32(n: nat) -> Seq<u8> {
    if n < 64 {
        seq![(n * 4) as u8]
    } else if n < 16384 {
        le_u16_bytes(n * 4 + 1)
    } else if n < 1073741824 {
        le_u32_bytes(n * 4 + 2)
    } else {
        seq![3u8] + le_u32_bytes(n)
    }
}

/// The SCALE form of a byte vector: its compact length, then its bytes.
pub open spec fn scale_byte_vec(body: Seq<u8>) -> Seq<u8> {
    compact_u32(body.len()) + body
}

/// `p` is a prefix of `s`.
pub open spec fn starts_with(s: Seq<u8>, p: Seq<u8>) -> bool {
    p.len() <= s.len() && s.subrange(0, p.len() as int) == p
}

/// `input` begins with the SCALE form of the byte vector `body`.
pub open spec fn begins_with_byte_vec(input: Seq<u8>, body: Seq<u8>) -> bool {
    body.len() <= u32::MAX && starts_with(input, scale_byte_vec(body))
}

/// The value of four little-endian bytes.
pub open spec fn le_value4(b0: u8, b1: u8, b2: u8, b3: u8) -> nat {
    (b0 + b1 * 256 + b2 * 65536 + b3 * 16777216) as nat
}

/// The number of bytes of the compact form of `n`.
pub open spec fn compact_len(n: nat) -> nat {
    if n < 64 {
        1
    } else if n < 16384 {
        2
    } else if n < 1073741824 {
        4
    } else {
        5
    }
}

/// The length of a compact form, read from its first byte.
pub open spec fn compact_len_from_first(b: u8) -> nat {
    if b % 4 == 0 {
        1
    } else if b % 4 == 1 {
        2
    } else if b % 4 == 2 {
        4
    } else {
        5
    }
}

/// The value held by a compact form `c` (read as the codec reads it).
pub open spec fn compact_value(c: Seq<u8>) -> nat {
    if c[0] % 4 == 0 {
        (c[0] / 4) as nat
    } else if c[0] % 4 == 1 {
        ((c[0] + c[1] * 256) / 4) as nat
    } else if c[0] % 4 == 2 {
        le_value4(c[0], c[1], c[2], c[3]) / 4
    } else {
        le_value4(c[1], c[2], c[3], c[4])
    }
}

proof fn lemma_le_u32_roundtrip(v: u32)
    ensures
        le_value4(
            (v % 256) as u8,
            ((v / 256) % 256) as u8,
            ((v / 65536) % 256) as u8,
            ((v / 16777216) % 256) as u8,
        ) == v,
        ((v % 256) as u8) % 4 == v % 4,
{
    assert((v % 256) + ((v / 256) % 256) * 256 + ((v / 65536) % 256) * 65536 + ((v / 16777216)
        % 256) * 16777216 == v) by (bit_vector);
    assert((v % 256) % 4 == v % 4) by (bit_vector);
}

proof fn lemma_le_u16_roundtrip(v: u16)
    ensures
        ((v % 256) as u8) + (((v / 256) % 256) as u8) * 256 == v,
        ((v % 256) as u8) % 4 == v % 4,
{
    assert((v % 256) + ((v / 256) % 256) * 256 == v) by (bit_vector);
    assert((v % 256) % 4 == v % 4) by (bit_vector);
}

/// The compact form of `n` has `compact_len(n)` bytes, its first byte tells
/// that length, and reading it back gives `n`.
pub proof fn lemma_compact_u32_readable(n: nat)
    requires
        n <= u32::MAX,
    ensures
        compact_u32(n).len() == compact_len(n),
        compact_len_from_first(compact_u32(n)[0]) == compact_len(n),
        compact_value(compact_u32(n)) == n,
{
    if n < 64 {
        assert((n * 4) % 4 == 0) by (nonlinear_arith);
        assert((n * 4) / 4 == n) by (nonlinear_arith);
    } else if n < 16384 {
        let v = (n * 4 + 1) as u16;
        lemma_le_u16_roundtrip(v);
        assert(v % 4 == 1) by (nonlinear_arith)
            requires v == n * 4 + 1;
        assert(v / 4 == n) by (nonlinear_arith)
            requires v == n * 4 + 1;
    } else if n < 1073741824 {
        let v = (n * 4 + 2) as u32;
        lemma_le_u32_roundtrip(v);
        assert(v % 4 == 2) by (nonlinear_arith)
            requires v == n * 4 + 2;
        assert(v / 4 == n) by (nonlinear_arith)
            requires v == n * 4 + 2;
    } else {
        lemma_le_u32_roundtrip(n as u32);
    }
}

/// A sequence of bytes begins with the SCALE form of at most one byte vector.
pub proof fn lemma_byte_vec_prefix_unique(input: Seq<u8>, a: Seq<u8>, b: Seq<u8>)
    requires
        begins_with_byte_vec(input, a),
        begins_with_byte_vec(input, b),
    ensures
        a == b,
{
    lemma_compact_u32_readable(a.len());
    lemma_compact_u32_readable(b.len());
    let ca = compact_u32(a.len());
    let cb = compact_u32(b.len());
    assert(scale_byte_vec(a)[0] == input[0]);
    assert(scale_byte_vec(b)[0] == input[0]);
    assert(ca[0] == scale_byte_vec(a)[0]);
    assert(cb[0] == scale_byte_vec(b)[0]);
    let l = ca.len();
    assert(cb.len() == l);
    assert forall|i: int| 0 <= i < l implies ca[i] == cb[i] by {
        assert(scale_byte_vec(a)[i] == input[i]);
        assert(scale_byte_vec(b)[i] == input[i]);
    }
    assert(ca =~= cb);
    assert(a.len() == b.len());
    assert forall|i: int| 0 <= i < a.len() implies a[i] == b[i] by {
        assert(scale_byte_vec(a)[l + i] == input[l + i]);
        assert(scale_byte_vec(b)[l + i] == input[l + i]);
    }
    assert(a =~= b);
}

/// Reading a byte vector back from its SCALE form, with anything after it,
/// gives the vector: the decoder accepts what the encoder writes.
pub proof fn lemma_byte_vec_roundtrip(body: Seq<u8>, rest: Seq<u8>)
    requires
        body.len() <= u32::MAX,
    ensures
        begins_with_byte_vec(scale_byte_vec(body) + rest, body),
        forall|other: Seq<u8>|
            #[trigger] begins_with_byte_vec(scale_byte_vec(body) + rest, other) ==> other == body,
{
    let s = scale_byte_vec(body) + rest;
    assert(s.subrange(0, scale_byte_vec(body).len() as int) =~= scale_byte_vec(body));
    assert forall|other: Seq<u8>| #[trigger] begins_with_byte_vec(s, other) implies other
        == body by {
        lemma_byte_vec_prefix_unique(s, other, body);
    }
}

/// `<[u8; N] as Encode>::encode` from `parity-scale-codec`: a fixed-size array is
/// written element by element with no length, so a byte array is its own bytes.
#[verifier::external_body]
pub(crate) fn encode_byte_array<const N: usize>(a: &[u8; N]) -> (r: Vec<u8>)
    ensures
        r@ == a@,
{
    a.encode()
}

/// `<[u8] as Encode>::encode` from `parity-scale-codec`: the compact length, then
/// the bytes. The codec panics on a slice longer than `u32::MAX`, which
/// `requires` leaves out.
#[verifier::external_body]
pub(crate) fn encode_byte_vec(bytes: &[u8]) -> (r: Vec<u8>)
    requires
        bytes@.len() <= u32::MAX,
    ensures
        r@ == scale_byte_vec(bytes@),
{
    bytes.encode()
}

/// The error type of `parity-scale-codec`.
#[verifier::external_type_specification]
#[verifier::external_body]
pub struct ExCodecError(parity_scale_codec::Error);

/// `<Vec<u8> as Decode>::decode` from `parity-scale-codec`, reading from the start
/// of `input`. The codec reads a compact length (rejecting non-canonical forms),
/// then that many bytes, and ignores what follows. So it succeeds exactly when
/// `input` begins with the SCALE form of some byte vector, and gives that vector
/// (there is at most one: see `lemma_byte_vec_prefix_unique`).
/// Which error value it gives otherwise is not stated.
#[verifier::external_body]
pub(crate) fn decode_byte_vec(input: &[u8]) -> (r: Result<Vec<u8>, parity_scale_codec::Error>)
    ensures
        r matches Ok(v) ==> begins_with_byte_vec(input@, v@),
        r is Ok <==> exists|body: Seq<u8>| #[trigger] begins_with_byte_vec(input@, body),
{
    let mut rest: &[u8] = input;
    Vec::<u8>::decode(&mut rest)
}

} // verus!
