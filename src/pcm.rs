//! Little-endian signed 16-bit PCM samples.
use vstd::prelude::*;

verus! {

/// The signed 16-bit value whose little-endian encoding is `[lo, hi]`.
pub open spec fn le_i16(lo: u8, hi: u8) -> int {
    let u = hi as int * 256 + lo as int;
    if u >= 32768 {
        u - 65536
    } else {
        u
    }
}

/// The samples encoded by `bytes`: one per complete pair of bytes; an odd trailing byte is ignored.
pub open spec fn decode_le(bytes: Seq<u8>) -> Seq<i16> {
    Seq::new(bytes.len() / 2, |i: int| le_i16(bytes[2 * i], bytes[2 * i + 1]) as i16)
}

/// Reads one little-endian sample from two bytes.
pub fn read_i16_le(lo: u8, hi: u8) -> (r: i16)
    ensures
        r as int == le_i16(lo, hi),
{
    let u: i32 = hi as i32 * 256 + lo as i32;
    if u >= 32768 {
        (u - 65536) as i16
    } else {
        u as i16
    }
}

/// Decodes the samples of `bytes[start..end]`.
pub fn decode_range(bytes: &[u8], start: usize, end: usize) -> (r: Vec<i16>)
    requires
        start <= end <= bytes@.len(),
    ensures
        r@ == decode_le(bytes@.subrange(start as int, end as int)),
{
    let ghost part = bytes@.subrange(start as int, end as int);
    let n: usize = (end - start) / 2;
    let mut out: Vec<i16> = Vec::with_capacity(n);
    let mut i: usize = 0;
    while i < n
        invariant
            n == (end - start) / 2,
            start <= end <= bytes@.len(),
            part == bytes@.subrange(start as int, end as int),
            i <= n,
            out@.len() == i,
            forall|k: int| 0 <= k < i ==> out@[k] == decode_le(part)[k],
        decreases n - i,
    {
        let lo = bytes[start + 2 * i];
        let hi = bytes[start + 2 * i + 1];
        out.push(read_i16_le(lo, hi));
        i = i + 1;
    }
    assert(out@ =~= decode_le(part));
    out
}

/// Decodes a whole byte buffer into samples.
pub fn convert_to_i16_vec(buf: &[u8]) -> (r: Vec<i16>)
    ensures
        r@ == decode_le(buf@),
{
    let r = decode_range(buf, 0, buf.len());
    assert(buf@.subrange(0, buf@.len() as int) =~= buf@);
    r
}

} // verus!
