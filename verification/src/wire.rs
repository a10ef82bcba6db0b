//! Little-endian integer fields and UTF-8 text fields of the binary
//! protocol spoken between the host application and the engine.

use vstd::prelude::*;
use vstd::utf8::*;
use vstd::string::*;

verus! {

broadcast use vstd::utf8::encode_utf8_decode_utf8, vstd::utf8::decode_utf8_encode_utf8;

/// The 16-bit little-endian number stored at `off`.
pub open spec fn le16(s: Seq<u8>, off: int) -> int {
    s[off] + 256 * s[off + 1]
}

/// The 32-bit little-endian number stored at `off`.
pub open spec fn le32(s: Seq<u8>, off: int) -> int {
    s[off] + 256 * s[off + 1] + 65536 * s[off + 2] + 16777216 * s[off + 3]
}

/// The 64-bit little-endian number stored at `off`.
pub open spec fn le64(s: Seq<u8>, off: int) -> int {
    le32(s, off) + 4294967296 * le32(s, off + 4)
}

/// The two little-endian bytes of `x`.
pub open spec fn u16_bytes(x: u16) -> Seq<u8> {
    seq![(x % 256) as u8, (x / 256) as u8]
}

/// The four little-endian bytes of `x`.
pub open spec fn u32_bytes(x: u32) -> Seq<u8> {
    seq![
        (x % 256) as u8,
        ((x / 256) % 256) as u8,
        ((x / 65536) % 256) as u8,
        (x / 16777216) as u8,
    ]
}

/// The eight little-endian bytes of `x`.
pub open spec fn u64_bytes(x: u64) -> Seq<u8> {
    u32_bytes((x % 4294967296) as u32) + u32_bytes((x / 4294967296) as u32)
}

/// The bytes of a sequence of 32-bit numbers, each little endian, one
/// after the other.
pub open spec fn u32s_bytes(xs: Seq<u32>) -> Seq<u8>
    decreases xs.len(),
{
    if xs.len() == 0 {
        Seq::empty()
    } else {
        u32s_bytes(xs.drop_last()) + u32_bytes(xs.last())
    }
}

/// Reads the 16-bit little-endian number at `off`.
pub fn read_u16(s: &[u8], off: usize) -> (r: u16)
    requires
        off + 2 <= s@.len(),
    ensures
        r == le16(s@, off as int),
{
    (s[off] as u16) + (s[off + 1] as u16) * 256
}

/// Reads the 32-bit little-endian number at `off`.
pub fn read_u32(s: &[u8], off: usize) -> (r: u32)
    requires
        off + 4 <= s@.len(),
    ensures
        r == le32(s@, off as int),
{
    (s[off] as u32) + (s[off + 1] as u32) * 256 + (s[off + 2] as u32) * 65536 + (s[off + 3] as u32)
        * 16777216
}

/// Reads the 64-bit little-endian number at `off`.
pub fn read_u64(s: &[u8], off: usize) -> (r: u64)
    requires
        off + 8 <= s@.len(),
    ensures
        r == le64(s@, off as int),
{
    let n = s.len();
    assert(off + 4 < n);
    let lo = read_u32(s, off) as u64;
    let hi = read_u32(s, off + 4) as u64;
    lo + hi * 4294967296
}

/// Appends the four little-endian bytes of `x`.
pub fn push_u32(out: &mut Vec<u8>, x: u32)
    ensures
        final(out)@ == old(out)@ + u32_bytes(x),
{
    out.push((x % 256) as u8);
    out.push(((x / 256) % 256) as u8);
    out.push(((x / 65536) % 256) as u8);
    out.push((x / 16777216) as u8);
    assert(final(out)@ =~= old(out)@ + u32_bytes(x));
}

/// Appends the eight little-endian bytes of `x`.
pub fn push_u64(out: &mut Vec<u8>, x: u64)
    ensures
        final(out)@ == old(out)@ + u64_bytes(x),
{
    push_u32(out, (x % 4294967296) as u32);
    push_u32(out, (x / 4294967296) as u32);
    assert(final(out)@ =~= old(out)@ + u64_bytes(x));
}

/// Reading back the bytes of a number gives the number.
pub proof fn lemma_u32_bytes_roundtrip(x: u32)
    ensures
        u32_bytes(x).len() == 4,
        le32(u32_bytes(x), 0) == x,
{
}

/// Reading back the bytes of a 16-bit number gives the number.
pub proof fn lemma_u16_bytes_roundtrip(x: u16)
    ensures
        u16_bytes(x).len() == 2,
        le16(u16_bytes(x), 0) == x,
{
}

/// Reading back the bytes of a 64-bit number gives the number.
pub proof fn lemma_u64_bytes_roundtrip(x: u64)
    ensures
        u64_bytes(x).len() == 8,
        le64(u64_bytes(x), 0) == x,
{
    lemma_u32_bytes_roundtrip((x % 4294967296) as u32);
    lemma_u32_bytes_roundtrip((x / 4294967296) as u32);
    let b = u64_bytes(x);
    assert(le32(b, 0) == (x % 4294967296) as u32);
    assert(le32(b, 4) == (x / 4294967296) as u32);
}

/// A sequence of `n` numbers takes `4 n` bytes, and byte `i` of number
/// `k` is byte `4 k + i` of the whole.
pub proof fn lemma_u32s_bytes_index(xs: Seq<u32>, k: int, i: int)
    requires
        0 <= k < xs.len(),
        0 <= i < 4,
    ensures
        u32s_bytes(xs).len() == 4 * xs.len(),
        u32s_bytes(xs)[4 * k + i] == u32_bytes(xs[k])[i],
    decreases xs.len(),
{
    lemma_u32s_bytes_len(xs.drop_last());
    if k < xs.len() - 1 {
        lemma_u32s_bytes_index(xs.drop_last(), k, i);
    }
}

/// A sequence of `n` numbers takes `4 n` bytes.
pub proof fn lemma_u32s_bytes_len(xs: Seq<u32>)
    ensures
        u32s_bytes(xs).len() == 4 * xs.len(),
    decreases xs.len(),
{
    if xs.len() > 0 {
        lemma_u32s_bytes_len(xs.drop_last());
    }
}

/// The 32-bit field read where the bytes of a number were written is that
/// number, whatever stands before and after them.
pub proof fn lemma_le32_of_written(pre: Seq<u8>, x: u32, post: Seq<u8>)
    ensures
        le32(pre + u32_bytes(x) + post, pre.len() as int) == x,
{
    let s = pre + u32_bytes(x) + post;
    let o = pre.len() as int;
    assert(s[o] == u32_bytes(x)[0]);
    assert(s[o + 1] == u32_bytes(x)[1]);
    assert(s[o + 2] == u32_bytes(x)[2]);
    assert(s[o + 3] == u32_bytes(x)[3]);
    lemma_u32_bytes_roundtrip(x);
}

/// The 16-bit field read where the bytes of a number were written is that
/// number, whatever stands before and after them.
pub proof fn lemma_le16_of_written(pre: Seq<u8>, x: u16, post: Seq<u8>)
    ensures
        le16(pre + u16_bytes(x) + post, pre.len() as int) == x,
{
    let s = pre + u16_bytes(x) + post;
    let o = pre.len() as int;
    assert(s[o] == u16_bytes(x)[0]);
    assert(s[o + 1] == u16_bytes(x)[1]);
    lemma_u16_bytes_roundtrip(x);
}

/// The 64-bit field read where the bytes of a number were written is that
/// number, whatever stands before and after them.
pub proof fn lemma_le64_of_written(pre: Seq<u8>, x: u64, post: Seq<u8>)
    ensures
        (pre + u64_bytes(x) + post).len() == pre.len() + 8 + post.len(),
        le64(pre + u64_bytes(x) + post, pre.len() as int) == x,
{
    let lo = (x % 4294967296) as u32;
    let hi = (x / 4294967296) as u32;
    let s = pre + u64_bytes(x) + post;
    lemma_le32_of_written(pre, lo, u32_bytes(hi) + post);
    assert(s =~= pre + u32_bytes(lo) + (u32_bytes(hi) + post));
    lemma_le32_of_written(pre + u32_bytes(lo), hi, post);
    assert(s =~= (pre + u32_bytes(lo)) + u32_bytes(hi) + post);
    lemma_u64_bytes_roundtrip(x);
}

/// Field `k` read back from a run of written 32-bit numbers is number
/// `k`, whatever stands before and after the run.
pub proof fn lemma_le32_of_written_run(pre: Seq<u8>, xs: Seq<u32>, post: Seq<u8>, k: int)
    requires
        0 <= k < xs.len(),
    ensures
        le32(pre + u32s_bytes(xs) + post, pre.len() + 4 * k) == xs[k],
{
    let s = pre + u32s_bytes(xs) + post;
    let o = pre.len() + 4 * k;
    lemma_u32s_bytes_index(xs, k, 0);
    lemma_u32s_bytes_index(xs, k, 1);
    lemma_u32s_bytes_index(xs, k, 2);
    lemma_u32s_bytes_index(xs, k, 3);
    assert(s[o] == u32_bytes(xs[k])[0]);
    assert(s[o + 1] == u32_bytes(xs[k])[1]);
    assert(s[o + 2] == u32_bytes(xs[k])[2]);
    assert(s[o + 3] == u32_bytes(xs[k])[3]);
    lemma_u32_bytes_roundtrip(xs[k]);
}

/// `std::str::from_utf8`: succeeds exactly on valid UTF-8 and then
/// returns the text whose encoding is the given bytes.
#[verifier::external_body]
fn str_from_utf8(bytes: &[u8]) -> (r: Option<&str>)
    ensures
        r is Some <==> valid_utf8(bytes@),
        r matches Some(s) ==> encode_utf8(s@) == bytes@,
{
    std::str::from_utf8(bytes).ok()
}

/// Decodes `s[start..end]` as UTF-8 text; `None` when those bytes are not
/// valid UTF-8.
pub fn read_text(s: &[u8], start: usize, end: usize) -> (r: Option<String>)
    requires
        start <= end <= s@.len(),
    ensures
        r is Some <==> valid_utf8(s@.subrange(start as int, end as int)),
        r matches Some(t) ==> t@ == decode_utf8(s@.subrange(start as int, end as int)),
{
    let part = &s[start..end];
    assert(part@ == s@.subrange(start as int, end as int));
    match str_from_utf8(part) {
        Some(t) => {
            let owned = String::from_str(t);
            Some(owned)
        },
        None => None,
    }
}

} // verus!
