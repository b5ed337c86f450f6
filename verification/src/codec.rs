//! The binary layer: fixed-width big-endian integers and byte-vector
//! helpers that the record encodings are built from.

use byteorder::ByteOrder;
use vstd::prelude::*;

verus! {

/// The version byte every record of this layer starts with.
pub const FORMAT_VERSION: u8 = 1;

/// The two big-endian bytes of a 16-bit integer.
pub open spec fn u16_be(x: u16) -> Seq<u8> {
    seq![(x / 256) as u8, (x % 256) as u8]
}

/// The 16-bit integer two big-endian bytes stand for.
pub open spec fn u16_of_be(b0: u8, b1: u8) -> u16 {
    (b0 * 256 + b1) as u16
}

/// Law: reading back the two big-endian bytes of a 16-bit integer yields
/// that integer.
pub proof fn lemma_u16_be_round_trip(x: u16)
    ensures
        u16_of_be(u16_be(x)[0], u16_be(x)[1]) == x,
{
    assert(x / 256 < 256);
    vstd::arithmetic::div_mod::lemma_fundamental_div_mod(x as int, 256);
}

/// Relies on `byteorder::BigEndian::write_u16`: writes `x` into a 2-byte
/// buffer in big-endian byte order.
#[verifier::external_body]
pub(crate) fn u16_to_be(x: u16) -> (r: Vec<u8>)
    ensures
        r@ == u16_be(x),
{
    let mut buf = vec![0u8; 2];
    byteorder::BigEndian::write_u16(&mut buf, x);
    buf
}

/// Relies on `byteorder::BigEndian::read_u16`: reads a big-endian 16-bit
/// integer from a 2-byte buffer.
#[verifier::external_body]
pub(crate) fn u16_from_be(b0: u8, b1: u8) -> (r: u16)
    ensures
        r == u16_of_be(b0, b1),
{
    byteorder::BigEndian::read_u16(&[b0, b1])
}

/// Copies `b[from .. from + n]` into a fresh vector.
pub(crate) fn copy_range(b: &Vec<u8>, from: usize, n: usize) -> (r: Vec<u8>)
    requires
        from + n <= b@.len(),
    ensures
        r@ == b@.subrange(from as int, from as int + n as int),
{
    let blen: usize = b.len();
    let mut r: Vec<u8> = Vec::new();
    let mut i: usize = 0;
    while i < n
        invariant
            i <= n,
            from + n <= blen,
            blen == b@.len(),
            r@ == b@.subrange(from as int, from as int + i as int),
        decreases n - i,
    {
        r.push(b[from + i]);
        i = i + 1;
        proof {
            assert(r@ =~= b@.subrange(from as int, from as int + i as int));
        }
    }
    r
}

/// Appends the bytes of `src` to `out`.
pub(crate) fn append_bytes(out: &mut Vec<u8>, src: &Vec<u8>)
    ensures
        final(out)@ == old(out)@ + src@,
{
    let mut i: usize = 0;
    while i < src.len()
        invariant
            i <= src@.len(),
            out@ == old(out)@ + src@.subrange(0, i as int),
        decreases src@.len() - i,
    {
        out.push(src[i]);
        i = i + 1;
        proof {
            assert(out@ =~= old(out)@ + src@.subrange(0, i as int));
        }
    }
    proof {
        assert(old(out)@ + src@.subrange(0, src@.len() as int) =~= old(out)@ + src@);
    }
}

/// True exactly when the two byte vectors hold the same bytes.
pub(crate) fn bytes_eq(a: &Vec<u8>, b: &Vec<u8>) -> (r: bool)
    ensures
        r == (a@ == b@),
{
    if a.len() != b.len() {
        return false;
    }
    let mut i: usize = 0;
    while i < a.len()
        invariant
            a@.len() == b@.len(),
            i <= a@.len(),
            forall|j: int| 0 <= j < i ==> a@[j] == b@[j],
        decreases a@.len() - i,
    {
        if a[i] != b[i] {
            return false;
        }
        i = i + 1;
    }
    proof {
        assert(a@ =~= b@);
    }
    true
}

} // verus!
