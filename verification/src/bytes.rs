//! Helpers for byte strings of fixed and of variable length.

use vstd::prelude::*;

verus! {

/// Copies a byte slice into a new vector.
pub fn copy_bytes(b: &[u8]) -> (r: Vec<u8>)
    ensures
        r@ == b@,
{
    let mut v = Vec::new();
    v.extend_from_slice(b);
    v
}

/// Whether two byte strings hold the same bytes.
pub fn bytes_equal(a: &[u8], b: &[u8]) -> (r: bool)
    ensures
        r == (a@ == b@),
{
    if a.len() != b.len() {
        return false;
    }
    let mut i: usize = 0;
    while i < a.len()
        invariant
            i <= a.len(),
            a.len() == b.len(),
            forall|j: int| 0 <= j < i ==> a@[j] == b@[j],
        decreases a.len() - i,
    {
        if a[i] != b[i] {
            return false;
        }
        i += 1;
    }
    assert(a@ =~= b@);
    true
}

/// The 12-byte array that holds the bytes of `v`, where there are 12.
pub fn array12_from(v: &[u8]) -> (r: Option<[u8; 12]>)
    ensures
        match r {
            Some(a) => a@ == v@,
            None => v@.len() != 12,
        },
{
    if v.len() != 12 {
        return None;
    }
    let mut a = [0u8;12];
    let mut i: usize = 0;
    while i < 12
        invariant
            i <= 12,
            v@.len() == 12,
            forall|j: int| 0 <= j < i ==> a@[j] == v@[j],
        decreases 12 - i,
    {
        a[i] = v[i];
        i += 1;
    }
    assert(a@ =~= v@);
    Some(a)
}

/// The 16-byte array that holds the bytes of `v`, where there are 16.
pub fn array16_from(v: &[u8]) -> (r: Option<[u8; 16]>)
    ensures
        match r {
            Some(a) => a@ == v@,
            None => v@.len() != 16,
        },
{
    if v.len() != 16 {
        return None;
    }
    let mut a = [0u8;16];
    let mut i: usize = 0;
    while i < 16
        invariant
            i <= 16,
            v@.len() == 16,
            forall|j: int| 0 <= j < i ==> a@[j] == v@[j],
        decreases 16 - i,
    {
        a[i] = v[i];
        i += 1;
    }
    assert(a@ =~= v@);
    Some(a)
}

/// The 24-byte array that holds the bytes of `v`, where there are 24.
pub fn array24_from(v: &[u8]) -> (r: Option<[u8; 24]>)
    ensures
        match r {
            Some(a) => a@ == v@,
            None => v@.len() != 24,
        },
{
    if v.len() != 24 {
        return None;
    }
    let mut a = [0u8;24];
    let mut i: usize = 0;
    while i < 24
        invariant
            i <= 24,
            v@.len() == 24,
            forall|j: int| 0 <= j < i ==> a@[j] == v@[j],
        decreases 24 - i,
    {
        a[i] = v[i];
        i += 1;
    }
    assert(a@ =~= v@);
    Some(a)
}

/// The 32-byte array that holds the bytes of `v`, where there are 32.
pub fn array32_from(v: &[u8]) -> (r: Option<[u8; 32]>)
    ensures
        match r {
            Some(a) => a@ == v@,
            None => v@.len() != 32,
        },
{
    if v.len() != 32 {
        return None;
    }
    let mut a = [0u8;32];
    let mut i: usize = 0;
    while i < 32
        invariant
            i <= 32,
            v@.len() == 32,
            forall|j: int| 0 <= j < i ==> a@[j] == v@[j],
        decreases 32 - i,
    {
        a[i] = v[i];
        i += 1;
    }
    assert(a@ =~= v@);
    Some(a)
}

/// The unsigned number that has the same 32 bits as `x` in two's
/// complement: `x` itself where it is not negative, `x` plus 2^32 where it
/// is.
pub open spec fn u32_from_i32(x: i32) -> u32 {
    if x >= 0 {
        x as u32
    } else {
        (x + 0x1_0000_0000) as u32
    }
}

/// The signed number that has the same 32 bits as `x` in two's complement:
/// `x` itself where it is below 2^31, `x` minus 2^32 where it is not.
pub open spec fn i32_from_u32(x: u32) -> i32 {
    if x <= 0x7fff_ffff {
        x as i32
    } else {
        (x - 0x1_0000_0000) as i32
    }
}

/// The unsigned number that has the same 64 bits as `x` in two's
/// complement: `x` itself where it is not negative, `x` plus 2^64 where it
/// is.
pub open spec fn u64_from_i64(x: i64) -> u64 {
    if x >= 0 {
        x as u64
    } else {
        (x + 0x1_0000_0000_0000_0000) as u64
    }
}

/// The signed number that has the same 64 bits as `x` in two's complement:
/// `x` itself where it is below 2^63, `x` minus 2^64 where it is not.
pub open spec fn i64_from_u64(x: u64) -> i64 {
    if x <= 0x7fff_ffff_ffff_ffff {
        x as i64
    } else {
        (x - 0x1_0000_0000_0000_0000) as i64
    }
}

/// Going from signed to unsigned and back, or the other way round, gives
/// the number that one started with.
pub proof fn lemma_same_bits_round_trip(a: i32, b: u32, c: i64, d: u64)
    ensures
        i32_from_u32(u32_from_i32(a)) == a,
        u32_from_i32(i32_from_u32(b)) == b,
        i64_from_u64(u64_from_i64(c)) == c,
        u64_from_i64(i64_from_u64(d)) == d,
{
}

/// Reads the 32 bits of a signed number as an unsigned number.
pub fn i32_as_u32(x: i32) -> (r: u32)
    ensures
        r == u32_from_i32(x),
{
    if x >= 0 {
        x as u32
    } else {
        ((x + 0x7fff_ffff + 1) as u32) + 0x8000_0000
    }
}

/// Reads the 32 bits of an unsigned number as a signed number.
pub fn u32_as_i32(x: u32) -> (r: i32)
    ensures
        r == i32_from_u32(x),
{
    if x <= 0x7fff_ffff {
        x as i32
    } else {
        ((x - 0x8000_0000) as i32) - 0x7fff_ffff - 1
    }
}

/// Reads the 64 bits of a signed number as an unsigned number.
pub fn i64_as_u64(x: i64) -> (r: u64)
    ensures
        r == u64_from_i64(x),
{
    if x >= 0 {
        x as u64
    } else {
        ((x + 0x7fff_ffff_ffff_ffff + 1) as u64) + 0x8000_0000_0000_0000
    }
}

/// Reads the 64 bits of an unsigned number as a signed number.
pub fn u64_as_i64(x: u64) -> (r: i64)
    ensures
        r == i64_from_u64(x),
{
    if x <= 0x7fff_ffff_ffff_ffff {
        x as i64
    } else {
        ((x - 0x8000_0000_0000_0000) as i64) - 0x7fff_ffff_ffff_ffff - 1
    }
}

/// The eight bytes of `x`, most significant first: byte `k` from the right is
/// `x` divided by 256 to the power `k`, modulo 256.
pub open spec fn be_bytes_u64(x: u64) -> Seq<u8> {
    seq![
        ((x / 0x100_0000_0000_0000) % 0x100) as u8,
        ((x / 0x1_0000_0000_0000) % 0x100) as u8,
        ((x / 0x100_0000_0000) % 0x100) as u8,
        ((x / 0x1_0000_0000) % 0x100) as u8,
        ((x / 0x100_0000) % 0x100) as u8,
        ((x / 0x1_0000) % 0x100) as u8,
        ((x / 0x100) % 0x100) as u8,
        (x % 0x100) as u8,
    ]
}

/// The eight bytes of `x`, least significant first.
pub open spec fn le_bytes_u64(x: u64) -> Seq<u8> {
    seq![
        (x % 0x100) as u8,
        ((x / 0x100) % 0x100) as u8,
        ((x / 0x1_0000) % 0x100) as u8,
        ((x / 0x100_0000) % 0x100) as u8,
        ((x / 0x1_0000_0000) % 0x100) as u8,
        ((x / 0x100_0000_0000) % 0x100) as u8,
        ((x / 0x1_0000_0000_0000) % 0x100) as u8,
        ((x / 0x100_0000_0000_0000) % 0x100) as u8,
    ]
}

/// The four bytes of `x`, most significant first.
pub open spec fn be_bytes_u32(x: u32) -> Seq<u8> {
    seq![
        ((x / 0x100_0000) % 0x100) as u8,
        ((x / 0x1_0000) % 0x100) as u8,
        ((x / 0x100) % 0x100) as u8,
        (x % 0x100) as u8,
    ]
}

/// The number whose eight bytes, most significant first, are `b`.
pub open spec fn u64_from_be_bytes(b: Seq<u8>) -> u64
    recommends
        b.len() == 8,
{
    (b[0] * 0x100_0000_0000_0000 + b[1] * 0x1_0000_0000_0000 + b[2] * 0x100_0000_0000 + b[3]
        * 0x1_0000_0000 + b[4] * 0x100_0000 + b[5] * 0x1_0000 + b[6] * 0x100 + b[7]) as u64
}

/// Reads eight bytes, most significant first, as a number.
pub fn read_be_u64(b: &[u8]) -> (r: u64)
    requires
        b@.len() == 8,
    ensures
        r == u64_from_be_bytes(b@),
{
    (b[0] as u64) * 0x100_0000_0000_0000 + (b[1] as u64) * 0x1_0000_0000_0000 + (b[2] as u64)
        * 0x100_0000_0000 + (b[3] as u64) * 0x1_0000_0000 + (b[4] as u64) * 0x100_0000 + (
    b[5] as u64) * 0x1_0000 + (b[6] as u64) * 0x100 + (b[7] as u64)
}

/// Appends the eight bytes of `x`, most significant first.
pub fn push_be_u64(out: &mut Vec<u8>, x: u64)
    ensures
        final(out)@ == old(out)@ + be_bytes_u64(x),
{
    out.push(((x / 0x100_0000_0000_0000) % 0x100) as u8);
    out.push(((x / 0x1_0000_0000_0000) % 0x100) as u8);
    out.push(((x / 0x100_0000_0000) % 0x100) as u8);
    out.push(((x / 0x1_0000_0000) % 0x100) as u8);
    out.push(((x / 0x100_0000) % 0x100) as u8);
    out.push(((x / 0x1_0000) % 0x100) as u8);
    out.push(((x / 0x100) % 0x100) as u8);
    out.push((x % 0x100) as u8);
    assert(out@ =~= old(out)@ + be_bytes_u64(x));
}

/// Appends the eight bytes of `x`, least significant first.
pub fn push_le_u64(out: &mut Vec<u8>, x: u64)
    ensures
        final(out)@ == old(out)@ + le_bytes_u64(x),
{
    out.push((x % 0x100) as u8);
    out.push(((x / 0x100) % 0x100) as u8);
    out.push(((x / 0x1_0000) % 0x100) as u8);
    out.push(((x / 0x100_0000) % 0x100) as u8);
    out.push(((x / 0x1_0000_0000) % 0x100) as u8);
    out.push(((x / 0x100_0000_0000) % 0x100) as u8);
    out.push(((x / 0x1_0000_0000_0000) % 0x100) as u8);
    out.push(((x / 0x100_0000_0000_0000) % 0x100) as u8);
    assert(out@ =~= old(out)@ + le_bytes_u64(x));
}

/// Appends the four bytes of `x`, most significant first.
pub fn push_be_u32(out: &mut Vec<u8>, x: u32)
    ensures
        final(out)@ == old(out)@ + be_bytes_u32(x),
{
    out.push(((x / 0x100_0000) % 0x100) as u8);
    out.push(((x / 0x1_0000) % 0x100) as u8);
    out.push(((x / 0x100) % 0x100) as u8);
    out.push((x % 0x100) as u8);
    assert(out@ =~= old(out)@ + be_bytes_u32(x));
}

} // verus!
