//! Byte-level helpers shared by the codec: copying, comparing and
//! big-endian integers.

use vstd::prelude::*;

verus! {

/// The four bytes of `value`, most significant first.
pub open spec fn spec_u32_to_be(value: u32) -> Seq<u8> {
    seq![
        (value / 0x100_0000) as u8,
        ((value / 0x1_0000) % 0x100) as u8,
        ((value / 0x100) % 0x100) as u8,
        (value % 0x100) as u8,
    ]
}

/// The number that the first four bytes of `bytes` spell, most significant
/// first.
pub open spec fn spec_u32_from_be(bytes: Seq<u8>) -> int
    recommends
        bytes.len() >= 4,
{
    bytes[0] as int * 0x100_0000 + bytes[1] as int * 0x1_0000 + bytes[2] as int * 0x100
        + bytes[3] as int
}

/// The two bytes of `value`, most significant first.
pub open spec fn spec_u16_to_be(value: u16) -> Seq<u8> {
    seq![(value / 0x100) as u8, (value % 0x100) as u8]
}

/// The number that the first two bytes of `bytes` spell, most significant
/// first.
pub open spec fn spec_u16_from_be(bytes: Seq<u8>) -> int
    recommends
        bytes.len() >= 2,
{
    bytes[0] as int * 0x100 + bytes[1] as int
}

/// The number that the first eight bytes of `bytes` spell, most significant
/// first.
pub open spec fn spec_u64_from_be(bytes: Seq<u8>) -> int
    recommends
        bytes.len() >= 8,
{
    spec_u32_from_be(bytes.subrange(0, 4)) * 0x1_0000_0000 + spec_u32_from_be(
        bytes.subrange(4, 8),
    )
}

/// Reading back what was written gives the number that was written.
pub proof fn lemma_u32_be_round_trip(value: u32)
    ensures
        spec_u32_to_be(value).len() == 4,
        spec_u32_from_be(spec_u32_to_be(value)) == value,
{
}

/// Writing what was read gives the bytes that were read.
pub proof fn lemma_u32_be_bytes_round_trip(bytes: Seq<u8>)
    requires
        bytes.len() == 4,
    ensures
        0 <= spec_u32_from_be(bytes) <= u32::MAX,
        spec_u32_to_be(spec_u32_from_be(bytes) as u32) == bytes,
{
    let b0 = bytes[0] as int;
    let b1 = bytes[1] as int;
    let b2 = bytes[2] as int;
    let b3 = bytes[3] as int;
    let v = b0 * 0x100_0000 + b1 * 0x1_0000 + b2 * 0x100 + b3;
    assert(v / 0x100_0000 == b0 && (v / 0x1_0000) % 0x100 == b1 && (v / 0x100) % 0x100 == b2 && v
        % 0x100 == b3 && 0 <= v <= 0xffff_ffff) by (nonlinear_arith)
        requires
            0 <= b0 < 0x100,
            0 <= b1 < 0x100,
            0 <= b2 < 0x100,
            0 <= b3 < 0x100,
            v == b0 * 0x100_0000 + b1 * 0x1_0000 + b2 * 0x100 + b3,
    ;
    assert(spec_u32_to_be(v as u32) =~= bytes);
}

/// Reading back what was written gives the number that was written.
pub proof fn lemma_u16_be_round_trip(value: u16)
    ensures
        spec_u16_to_be(value).len() == 2,
        spec_u16_from_be(spec_u16_to_be(value)) == value,
{
}

/// Writing what was read gives the bytes that were read.
pub proof fn lemma_u16_be_bytes_round_trip(bytes: Seq<u8>)
    requires
        bytes.len() == 2,
    ensures
        0 <= spec_u16_from_be(bytes) <= u16::MAX,
        spec_u16_to_be(spec_u16_from_be(bytes) as u16) == bytes,
{
    let b0 = bytes[0] as int;
    let b1 = bytes[1] as int;
    let v = b0 * 0x100 + b1;
    assert(v / 0x100 == b0 && v % 0x100 == b1 && 0 <= v <= 0xffff) by (nonlinear_arith)
        requires
            0 <= b0 < 0x100,
            0 <= b1 < 0x100,
            v == b0 * 0x100 + b1,
    ;
    assert(spec_u16_to_be(v as u16) =~= bytes);
}

/// Encodes `value` in four bytes, most significant first.
pub fn u32_to_be(value: u32) -> (bytes: [u8; 4])
    ensures
        bytes@ == spec_u32_to_be(value),
{
    let bytes: [u8; 4] = [
        (value / 0x100_0000) as u8,
        ((value / 0x1_0000) % 0x100) as u8,
        ((value / 0x100) % 0x100) as u8,
        (value % 0x100) as u8,
    ];
    assert(bytes@ =~= spec_u32_to_be(value));
    bytes
}

/// Decodes the four bytes at `offset`, most significant first.
pub fn u32_from_be(bytes: &[u8], offset: usize) -> (value: u32)
    requires
        offset + 4 <= bytes@.len(),
    ensures
        value == spec_u32_from_be(bytes@.subrange(offset as int, offset + 4)),
{
    let b0: u32 = bytes[offset] as u32;
    let b1: u32 = bytes[offset + 1] as u32;
    let b2: u32 = bytes[offset + 2] as u32;
    let b3: u32 = bytes[offset + 3] as u32;
    b0 * 0x100_0000 + b1 * 0x1_0000 + b2 * 0x100 + b3
}

/// Decodes the eight bytes at `offset`, most significant first.
pub fn u64_from_be(bytes: &[u8], offset: usize) -> (value: u64)
    requires
        offset + 8 <= bytes@.len(),
    ensures
        value == spec_u64_from_be(bytes@.subrange(offset as int, offset + 8)),
{
    let total = bytes.len();
    assert(offset + 8 <= total);
    let high: u64 = u32_from_be(bytes, offset) as u64;
    let low: u64 = u32_from_be(bytes, offset + 4) as u64;
    proof {
        let window = bytes@.subrange(offset as int, offset + 8);
        assert(window.subrange(0, 4) =~= bytes@.subrange(offset as int, offset + 4));
        assert(window.subrange(4, 8) =~= bytes@.subrange(offset + 4, offset + 8));
    }
    high * 0x1_0000_0000 + low
}

/// Encodes `value` in two bytes, most significant first.
pub fn u16_to_be(value: u16) -> (bytes: [u8; 2])
    ensures
        bytes@ == spec_u16_to_be(value),
{
    let bytes: [u8; 2] = [(value / 0x100) as u8, (value % 0x100) as u8];
    assert(bytes@ =~= spec_u16_to_be(value));
    bytes
}

/// Decodes the two bytes at `offset`, most significant first.
pub fn u16_from_be(bytes: &[u8], offset: usize) -> (value: u16)
    requires
        offset + 2 <= bytes@.len(),
    ensures
        value == spec_u16_from_be(bytes@.subrange(offset as int, offset + 2)),
{
    let b0: u16 = bytes[offset] as u16;
    let b1: u16 = bytes[offset + 1] as u16;
    b0 * 0x100 + b1
}

/// Overwrites `dst[offset .. offset + src.len()]` with `src` and leaves the
/// rest of `dst` as it was.
pub fn copy_into(dst: &mut [u8], offset: usize, src: &[u8])
    requires
        offset + src@.len() <= old(dst)@.len(),
    ensures
        final(dst)@.len() == old(dst)@.len(),
        final(dst)@ == old(dst)@.subrange(0, offset as int) + src@ + old(dst)@.subrange(
            offset + src@.len(),
            old(dst)@.len() as int,
        ),
{
    let ghost before = dst@;
    let n = src.len();
    let total = dst.len();
    let mut i: usize = 0;
    while i < n
        invariant
            i <= n,
            n == src@.len(),
            total == dst@.len(),
            offset + n <= total,
            dst@.len() == before.len(),
            forall|k: int| 0 <= k < offset ==> dst@[k] == before[k],
            forall|k: int| offset <= k < offset + i ==> dst@[k] == src@[k - offset],
            forall|k: int| offset + i <= k < dst@.len() ==> dst@[k] == before[k],
        decreases n - i,
    {
        dst[offset + i] = src[i];
        i += 1;
    }
    assert(dst@ =~= before.subrange(0, offset as int) + src@ + before.subrange(
        offset + src@.len(),
        before.len() as int,
    ));
}

/// Appends `src` to `dst`.
pub fn append(dst: &mut Vec<u8>, src: &[u8])
    ensures
        final(dst)@ == old(dst)@ + src@,
{
    let ghost before = dst@;
    let n = src.len();
    let mut i: usize = 0;
    while i < n
        invariant
            i <= n,
            n == src@.len(),
            dst@ == before + src@.subrange(0, i as int),
        decreases n - i,
    {
        dst.push(src[i]);
        i += 1;
        assert(dst@ =~= before + src@.subrange(0, i as int));
    }
    assert(src@.subrange(0, n as int) =~= src@);
}

/// A fresh vector holding `bytes[start .. end]`.
pub fn slice_to_vec(bytes: &[u8], start: usize, end: usize) -> (out: Vec<u8>)
    requires
        start <= end <= bytes@.len(),
    ensures
        out@ == bytes@.subrange(start as int, end as int),
{
    let mut out: Vec<u8> = Vec::new();
    let mut i: usize = start;
    while i < end
        invariant
            start <= i <= end,
            end <= bytes@.len(),
            out@ == bytes@.subrange(start as int, i as int),
        decreases end - i,
    {
        out.push(bytes[i]);
        i += 1;
        assert(out@ =~= bytes@.subrange(start as int, i as int));
    }
    out
}

/// Whether the two slices hold the same bytes.
pub fn same_bytes(a: &[u8], b: &[u8]) -> (r: bool)
    ensures
        r == (a@ == b@),
{
    if a.len() != b.len() {
        return false;
    }
    let n = a.len();
    let mut i: usize = 0;
    while i < n
        invariant
            i <= n,
            n == a@.len(),
            a@.len() == b@.len(),
            forall|k: int| 0 <= k < i ==> a@[k] == b@[k],
        decreases n - i,
    {
        if a[i] != b[i] {
            return false;
        }
        i += 1;
    }
    assert(a@ =~= b@);
    true
}

/// The 32 bytes of `bytes` that start at `offset`.
pub fn array32_at(bytes: &[u8], offset: usize) -> (out: [u8; 32])
    requires
        offset + 32 <= bytes@.len(),
    ensures
        out@ == bytes@.subrange(offset as int, offset + 32),
{
    let total = bytes.len();
    let mut out = [0u8; 32];
    let mut i: usize = 0;
    while i < 32
        invariant
            i <= 32,
            total == bytes@.len(),
            offset + 32 <= total,
            forall|k: int| 0 <= k < i ==> out@[k] == bytes@[offset + k],
        decreases 32 - i,
    {
        out[i] = bytes[offset + i];
        i += 1;
    }
    assert(out@ =~= bytes@.subrange(offset as int, offset + 32));
    out
}

/// The 64 bytes of `bytes` that start at `offset`.
pub fn array64_at(bytes: &[u8], offset: usize) -> (out: [u8; 64])
    requires
        offset + 64 <= bytes@.len(),
    ensures
        out@ == bytes@.subrange(offset as int, offset + 64),
{
    let total = bytes.len();
    let mut out = [0u8; 64];
    let mut i: usize = 0;
    while i < 64
        invariant
            i <= 64,
            total == bytes@.len(),
            offset + 64 <= total,
            forall|k: int| 0 <= k < i ==> out@[k] == bytes@[offset + k],
        decreases 64 - i,
    {
        out[i] = bytes[offset + i];
        i += 1;
    }
    assert(out@ =~= bytes@.subrange(offset as int, offset + 64));
    out
}

/// The 80 bytes of `bytes` that start at `offset`.
pub fn array80_at(bytes: &[u8], offset: usize) -> (out: [u8; 80])
    requires
        offset + 80 <= bytes@.len(),
    ensures
        out@ == bytes@.subrange(offset as int, offset + 80),
{
    let total = bytes.len();
    let mut out = [0u8; 80];
    let mut i: usize = 0;
    while i < 80
        invariant
            i <= 80,
            total == bytes@.len(),
            offset + 80 <= total,
            forall|k: int| 0 <= k < i ==> out@[k] == bytes@[offset + k],
        decreases 80 - i,
    {
        out[i] = bytes[offset + i];
        i += 1;
    }
    assert(out@ =~= bytes@.subrange(offset as int, offset + 80));
    out
}

} // verus!
