use vstd::prelude::*;
use vstd::string::StringSliceAdditionalSpecFns;

verus! {

/// First byte of an error response.
pub const STATUS_ERROR: u8 = 0x80;
/// First byte of a response whose payload has no tag of its own.
pub const STATUS_NONE: u8 = 0x00;
pub const STATUS_OSU: u8 = 0x01;
pub const STATUS_TAIKO: u8 = 0x02;
pub const STATUS_CATCH: u8 = 0x04;
pub const STATUS_MANIA: u8 = 0x08;

/// Size of an encoded `JniMapAttr`.
pub const MAP_ATTR_LEN: usize = 21;
/// Size of an encoded `JniMapAttr` followed by a `ScoreState`.
pub const SCORE_LEN: usize = 49;

/// The four bytes of `x`, most significant first.
pub open spec fn be32(x: u32) -> Seq<u8> {
    seq![(x >> 24u32) as u8, (x >> 16u32) as u8, (x >> 8u32) as u8, x as u8]
}

/// The eight bytes of `x`, most significant first.
pub open spec fn be64(x: u64) -> Seq<u8> {
    be32((x >> 32u64) as u32) + be32(x as u32)
}

/// The big-endian `u32` that starts at `i`.
pub open spec fn read_be32(b: Seq<u8>, i: int) -> u32 {
    ((b[i] as u32) << 24u32) | ((b[i + 1] as u32) << 16u32) | ((b[i + 2] as u32) << 8u32)
        | (b[i + 3] as u32)
}

/// The big-endian `u64` that starts at `i`.
pub open spec fn read_be64(b: Seq<u8>, i: int) -> u64 {
    ((read_be32(b, i) as u64) << 32u64) | (read_be32(b, i + 4) as u64)
}

proof fn lemma_u32_bytes(x: u32)
    ensures
        ((((x >> 24u32) as u8) as u32) << 24u32) | ((((x >> 16u32) as u8) as u32) << 16u32)
            | ((((x >> 8u32) as u8) as u32) << 8u32) | ((x as u8) as u32) == x,
{
    assert(((((x >> 24u32) as u8) as u32) << 24u32) | ((((x >> 16u32) as u8) as u32) << 16u32)
        | ((((x >> 8u32) as u8) as u32) << 8u32) | ((x as u8) as u32) == x) by (bit_vector);
}

/// Reading back the bytes of a `u32` gives the `u32`, wherever they stand.
pub proof fn lemma_be32_round_trip(x: u32, pre: Seq<u8>, post: Seq<u8>)
    ensures
        read_be32(pre + be32(x) + post, pre.len() as int) == x,
{
    let b = pre + be32(x) + post;
    let i = pre.len() as int;
    assert(b[i] == (x >> 24u32) as u8);
    assert(b[i + 1] == (x >> 16u32) as u8);
    assert(b[i + 2] == (x >> 8u32) as u8);
    assert(b[i + 3] == x as u8);
    lemma_u32_bytes(x);
}

/// Reading back the bytes of a `u64` gives the `u64`, wherever they stand.
pub proof fn lemma_be64_round_trip(x: u64, pre: Seq<u8>, post: Seq<u8>)
    ensures
        read_be64(pre + be64(x) + post, pre.len() as int) == x,
{
    let hi = (x >> 32u64) as u32;
    let lo = x as u32;
    assert(pre + be64(x) + post =~= pre + be32(hi) + (be32(lo) + post));
    assert(pre + be64(x) + post =~= (pre + be32(hi)) + be32(lo) + post);
    lemma_be32_round_trip(hi, pre, be32(lo) + post);
    lemma_be32_round_trip(lo, pre + be32(hi), post);
    assert(((((x >> 32u64) as u32) as u64) << 32u64) | ((x as u32) as u64) == x) by (bit_vector);
}

/// Appends the four bytes of `x`, most significant first.
pub fn push_be32(out: &mut Vec<u8>, x: u32)
    ensures
        final(out)@ == old(out)@ + be32(x),
{
    out.push((x >> 24u32) as u8);
    out.push((x >> 16u32) as u8);
    out.push((x >> 8u32) as u8);
    out.push(x as u8);
    assert(out@ =~= old(out)@ + be32(x));
}

/// Appends the eight bytes of `x`, most significant first.
pub fn push_be64(out: &mut Vec<u8>, x: u64)
    ensures
        final(out)@ == old(out)@ + be64(x),
{
    push_be32(out, (x >> 32u64) as u32);
    push_be32(out, x as u32);
    assert(out@ =~= old(out)@ + be64(x));
}

/// The big-endian `u32` at `i`.
pub fn get_be32(b: &[u8], i: usize) -> (r: u32)
    requires
        i + 4 <= b@.len(),
    ensures
        r == read_be32(b@, i as int),
{
    ((b[i] as u32) << 24u32) | ((b[i + 1] as u32) << 16u32) | ((b[i + 2] as u32) << 8u32)
        | (b[i + 3] as u32)
}

/// The big-endian `u64` at `i`.
pub fn get_be64(b: &[u8], i: usize) -> (r: u64)
    requires
        i + 8 <= b@.len(),
    ensures
        r == read_be64(b@, i as int),
{
    let n = b.len();
    assert(i + 8 <= n);
    ((get_be32(b, i) as u64) << 32u64) | (get_be32(b, i + 4) as u64)
}

/// Appends `s` as an `i32` byte count followed by its UTF-8 bytes.
pub fn vec_add_str(s: &str, out: &mut Vec<u8>)
    requires
        s.spec_bytes().len() <= i32::MAX,
    ensures
        final(out)@ == old(out)@ + be32(s.spec_bytes().len() as u32) + s.spec_bytes(),
{
    let bytes = s.as_bytes();
    push_be32(out, bytes.len() as u32);
    let ghost start = out@;
    let mut i: usize = 0;
    while i < bytes.len()
        invariant
            bytes@ == s.spec_bytes(),
            i <= bytes@.len(),
            out@ == start + bytes@.subrange(0, i as int),
        decreases bytes@.len() - i,
    {
        out.push(bytes[i]);
        i = i + 1;
        assert(out@ =~= start + bytes@.subrange(0, i as int));
    }
    assert(bytes@.subrange(0, bytes@.len() as int) =~= bytes@);
}

/// The error response: the error tag, then `message` as a length-prefixed string.
pub fn error_to_bytes(message: &str) -> (r: Vec<u8>)
    requires
        message.spec_bytes().len() <= i32::MAX,
    ensures
        r@ == seq![STATUS_ERROR] + be32(message.spec_bytes().len() as u32) + message.spec_bytes(),
{
    let mut result: Vec<u8> = Vec::new();
    result.push(STATUS_ERROR);
    vec_add_str(message, &mut result);
    result
}

/// The response to an operation whose payload carries no tag of its own: a
/// `STATUS_NONE` byte, then the payload.
pub fn untagged_response(payload: &[u8]) -> (r: Vec<u8>)
    ensures
        r@ == seq![STATUS_NONE] + payload@,
{
    let mut result: Vec<u8> = Vec::new();
    result.push(STATUS_NONE);
    let mut i: usize = 0;
    while i < payload.len()
        invariant
            i <= payload@.len(),
            result@ == seq![STATUS_NONE] + payload@.subrange(0, i as int),
        decreases payload@.len() - i,
    {
        result.push(payload[i]);
        i = i + 1;
        assert(result@ =~= seq![STATUS_NONE] + payload@.subrange(0, i as int));
    }
    assert(payload@.subrange(0, payload@.len() as int) =~= payload@);
    result
}

} // verus!
