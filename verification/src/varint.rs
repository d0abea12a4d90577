//! Protobuf varints (LEB128): the format, and prost's reader and writer of it.

use vstd::prelude::*;
use bytes::BytesMut;
use crate::buf::buf_contents;

verus! {

/// `128` to the power `n`.
pub open spec fn pow128(n: nat) -> nat
    decreases n,
{
    if n == 0 {
        1
    } else {
        128 * pow128((n - 1) as nat)
    }
}

/// The varint encoding of `v`: seven bits per byte, lowest bits first, with
/// the high bit set on every byte but the last.
pub open spec fn varint_encoding(v: nat) -> Seq<u8>
    decreases v,
{
    if v < 128 {
        seq![v as u8]
    } else {
        seq![(v % 128 + 128) as u8] + varint_encoding(v / 128)
    }
}

/// The index of the first byte of `s` whose high bit is clear, if any.
pub open spec fn varint_last_index(s: Seq<u8>) -> Option<nat>
    decreases s.len(),
{
    if s.len() == 0 {
        None
    } else if s[0] < 128 {
        Some(0)
    } else {
        match varint_last_index(s.drop_first()) {
            Some(k) => Some(k + 1),
            None => None,
        }
    }
}

/// The number that the low seven bits of the bytes of `s` stand for, the
/// first byte holding the lowest seven bits.
pub open spec fn varint_value(s: Seq<u8>) -> nat
    decreases s.len(),
{
    if s.len() == 0 {
        0
    } else {
        (s[0] % 128) as nat + 128 * varint_value(s.drop_first())
    }
}

/// A varint read from the front of `s`: the number of bytes it takes and its
/// value. There is none when no byte of the first ten ends the varint, or when
/// the tenth byte ends it with a value that does not fit in 64 bits.
pub open spec fn varint_decoding(s: Seq<u8>) -> Option<(nat, nat)> {
    match varint_last_index(s) {
        Some(k) => if k < 9 || (k == 9 && s[9] < 2) {
            Some(((k + 1) as nat, varint_value(s.take((k + 1) as int))))
        } else {
            None
        },
        None => None,
    }
}

/// The encoding of `v` ends at its last byte, the only one whose high bit is
/// clear, whatever follows it; and it stands for `v`.
proof fn lemma_encoding_shape(v: nat, rest: Seq<u8>)
    ensures
        varint_encoding(v).len() >= 1,
        varint_last_index(varint_encoding(v) + rest) == Some((varint_encoding(v).len() - 1) as nat),
        varint_value(varint_encoding(v)) == v,
    decreases v,
{
    let e = varint_encoding(v);
    if v < 128 {
        assert((e + rest)[0] == v as u8);
        assert(e.drop_first() =~= Seq::<u8>::empty());
        assert(varint_value(Seq::<u8>::empty()) == 0);
        assert(varint_value(e) == (e[0] % 128) as nat + 128 * varint_value(e.drop_first()));
    } else {
        let b = (v % 128 + 128) as u8;
        let t = varint_encoding(v / 128);
        lemma_encoding_shape(v / 128, rest);
        assert(e == seq![b] + t);
        assert((e + rest).drop_first() =~= t + rest);
        assert(e.drop_first() =~= t);
        assert((e + rest)[0] == b);
        assert(b % 128 == v % 128);
        assert(varint_value(e) == (e[0] % 128) as nat + 128 * varint_value(e.drop_first()));
    }
}

/// A value below `128` to the power `n` takes at most `n` bytes.
proof fn lemma_encoding_len(v: nat, n: nat)
    requires
        1 <= n,
        v < pow128(n),
    ensures
        varint_encoding(v).len() <= n,
    decreases n,
{
    if v >= 128 {
        assert(pow128(1) == 128) by {
            reveal_with_fuel(pow128, 2);
        }
        assert(n >= 2);
        lemma_encoding_len(v / 128, (n - 1) as nat);
    }
}

/// Where the encoding of a value below twice `128` to the power `m` has
/// `m + 1` bytes, its last byte is `0` or `1`.
proof fn lemma_encoding_top(v: nat, m: nat)
    requires
        varint_encoding(v).len() == m + 1,
        v < 2 * pow128(m),
    ensures
        varint_encoding(v)[m as int] < 2,
    decreases m,
{
    if m > 0 {
        assert(v >= 128);
        let t = varint_encoding(v / 128);
        assert(varint_encoding(v) == seq![(v % 128 + 128) as u8] + t);
        lemma_encoding_top(v / 128, (m - 1) as nat);
    }
}

/// `128` to the powers that bound a 64-bit value.
proof fn lemma_pow128_values()
    ensures
        pow128(9) == 0x8000_0000_0000_0000nat,
        pow128(10) == 0x40_0000_0000_0000_0000nat,
{
    assert(pow128(0) == 1);
    assert(pow128(1) == 0x80);
    assert(pow128(2) == 0x4000);
    assert(pow128(3) == 0x20_0000);
    assert(pow128(4) == 0x1000_0000);
    assert(pow128(5) == 0x8_0000_0000);
    assert(pow128(6) == 0x400_0000_0000);
    assert(pow128(7) == 0x2_0000_0000_0000);
    assert(pow128(8) == 0x100_0000_0000_0000);
    assert(pow128(9) == 0x8000_0000_0000_0000nat);
    assert(pow128(10) == 0x40_0000_0000_0000_0000nat);
}

/// A 64-bit value takes at most ten bytes.
pub proof fn lemma_varint_len(v: u64)
    ensures
        1 <= varint_encoding(v as nat).len() <= 10,
{
    lemma_pow128_values();
    lemma_encoding_len(v as nat, 10);
    lemma_encoding_shape(v as nat, Seq::<u8>::empty());
}

/// Reading a varint back from the front of what was written gives the value
/// written and takes exactly the bytes written, whatever follows them.
pub proof fn lemma_varint_roundtrip(v: u64, rest: Seq<u8>)
    ensures
        varint_decoding(varint_encoding(v as nat) + rest)
            == Some((varint_encoding(v as nat).len(), v as nat)),
{
    let e = varint_encoding(v as nat);
    lemma_encoding_shape(v as nat, rest);
    assert(pow128(10) == 0x40_0000_0000_0000_0000nat) by {
        lemma_pow128_values();
    }
    lemma_encoding_len(v as nat, 10);
    if e.len() == 10 {
        lemma_pow128_values();
        lemma_encoding_top(v as nat, 9);
        assert((e + rest)[9] == e[9]);
    }
    assert((e + rest).take(e.len() as int) =~= e);
}

/// A varint read from `s` takes at least one and at most all of its bytes.
pub proof fn lemma_decoding_len(s: Seq<u8>)
    ensures
        varint_decoding(s) matches Some((n, v)) ==> 1 <= n <= s.len(),
{
    if varint_decoding(s) is Some {
        lemma_last_index_prefix(s, Seq::<u8>::empty());
    }
}

/// A varint that can be read from `s` is read the same from `s` with more
/// bytes after it.
pub proof fn lemma_varint_prefix(s: Seq<u8>, t: Seq<u8>)
    requires
        varint_decoding(s) is Some,
    ensures
        varint_decoding(s + t) == varint_decoding(s),
{
    lemma_last_index_prefix(s, t);
    let k = varint_last_index(s)->0;
    assert((s + t).take((k + 1) as int) =~= s.take((k + 1) as int));
    if k == 9 {
        assert((s + t)[9] == s[9]);
    }
}

/// The end of a varint found in `s` is found at the same place in `s + t`.
proof fn lemma_last_index_prefix(s: Seq<u8>, t: Seq<u8>)
    requires
        varint_last_index(s) is Some,
    ensures
        varint_last_index(s + t) == varint_last_index(s),
        varint_last_index(s)->0 < s.len(),
    decreases s.len(),
{
    assert((s + t)[0] == s[0]);
    if s[0] >= 128 {
        lemma_last_index_prefix(s.drop_first(), t);
        assert((s + t).drop_first() =~= s.drop_first() + t);
    }
}

/// The error `prost::DecodeError` that prost's varint reader reports.
#[verifier::external_type_specification]
#[verifier::external_body]
pub struct ExDecodeError(prost::DecodeError);

/// `prost::encoding::encode_varint` into a `BytesMut`: appends the varint
/// encoding of `value`, at most ten bytes.
#[verifier::external_body]
pub(crate) fn put_varint(value: u64, buf: &mut BytesMut)
    requires
        buf_contents(*old(buf)).len() + 10 <= isize::MAX,
    ensures
        buf_contents(*final(buf)) == buf_contents(*old(buf)) + varint_encoding(value as nat),
{
    prost::encoding::encode_varint(value, buf)
}

/// `prost::encoding::decode_varint` on a byte slice: the decoded value, or the
/// error it reports, and how many bytes of the slice it left unread. On an
/// error, nothing is stated of how far it read but that it stayed in the slice.
#[verifier::external_body]
fn read_varint(bytes: &[u8]) -> (r: (Result<u64, prost::DecodeError>, usize))
    ensures
        r.1 <= bytes@.len(),
        match varint_decoding(bytes@) {
            Some((n, v)) => r.0 is Ok && r.0->Ok_0 == v && r.1 == bytes@.len() - n,
            None => r.0 is Err,
        },
{
    let mut rest: &[u8] = bytes;
    let res = prost::encoding::decode_varint(&mut rest);
    (res, rest.len())
}

/// Reads a varint from the front of `bytes` and says how many bytes it takes
/// and what it stands for, or `None` where prost reports an error.
pub fn peek_varint(bytes: &[u8]) -> (r: Option<(usize, u64)>)
    ensures
        match varint_decoding(bytes@) {
            Some((n, v)) => r matches Some((m, w)) && m == n && w == v,
            None => r is None,
        },
{
    let (res, left) = read_varint(bytes);
    match res {
        Ok(v) => Some((bytes.len() - left, v)),
        Err(_) => None,
    }
}

} // verus!
