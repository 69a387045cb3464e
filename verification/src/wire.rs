use vstd::prelude::*;

verus! {

/// Big-endian bytes of a 16-bit value.
pub open spec fn be16(v: u16) -> Seq<u8> {
    seq![(v / 0x100) as u8, (v % 0x100) as u8]
}

/// Big-endian bytes of a 32-bit value.
pub open spec fn be32(v: u32) -> Seq<u8> {
    seq![
        (v / 0x100_0000) as u8,
        ((v / 0x1_0000) % 0x100) as u8,
        ((v / 0x100) % 0x100) as u8,
        (v % 0x100) as u8,
    ]
}

/// Big-endian bytes of a 64-bit value.
pub open spec fn be64(v: u64) -> Seq<u8> {
    be32((v / 0x1_0000_0000) as u32) + be32((v % 0x1_0000_0000) as u32)
}

/// The 16-bit value stored big-endian at `at`.
pub open spec fn read_be16(s: Seq<u8>, at: int) -> u16 {
    (s[at] * 0x100 + s[at + 1]) as u16
}

/// The 32-bit value stored big-endian at `at`.
pub open spec fn read_be32(s: Seq<u8>, at: int) -> u32 {
    (s[at] * 0x100_0000 + s[at + 1] * 0x1_0000 + s[at + 2] * 0x100 + s[at + 3]) as u32
}

/// The 64-bit value stored big-endian at `at`.
pub open spec fn read_be64(s: Seq<u8>, at: int) -> u64 {
    (read_be32(s, at) * 0x1_0000_0000 + read_be32(s, at + 4)) as u64
}

/// Two's-complement bit pattern of a 32-bit signed value.
pub open spec fn i32_bits(v: i32) -> u32 {
    if v < 0 {
        (v + 0x1_0000_0000) as u32
    } else {
        v as u32
    }
}

/// Signed value of a 32-bit two's-complement pattern.
pub open spec fn bits_i32(u: u32) -> i32 {
    if u >= 0x8000_0000 {
        (u - 0x1_0000_0000) as i32
    } else {
        u as i32
    }
}

/// Two's-complement bit pattern of a 16-bit signed value.
pub open spec fn i16_bits(v: i16) -> u16 {
    if v < 0 {
        (v + 0x1_0000) as u16
    } else {
        v as u16
    }
}

/// Signed value of a 16-bit two's-complement pattern.
pub open spec fn bits_i16(u: u16) -> i16 {
    if u >= 0x8000 {
        (u - 0x1_0000) as i16
    } else {
        u as i16
    }
}

pub proof fn lemma_be16_read(s: Seq<u8>, at: int, v: u16)
    requires
        0 <= at,
        at + 2 <= s.len(),
        s.subrange(at, at + 2) == be16(v),
    ensures
        read_be16(s, at) == v,
{
    assert(s[at] == be16(v)[0]);
    assert(s[at + 1] == be16(v)[1]);
}

pub proof fn lemma_be32_read(s: Seq<u8>, at: int, v: u32)
    requires
        0 <= at,
        at + 4 <= s.len(),
        s.subrange(at, at + 4) == be32(v),
    ensures
        read_be32(s, at) == v,
{
    assert(s[at] == be32(v)[0]);
    assert(s[at + 1] == be32(v)[1]);
    assert(s[at + 2] == be32(v)[2]);
    assert(s[at + 3] == be32(v)[3]);
}

pub proof fn lemma_be64_read(s: Seq<u8>, at: int, v: u64)
    requires
        0 <= at,
        at + 8 <= s.len(),
        s.subrange(at, at + 8) == be64(v),
    ensures
        read_be64(s, at) == v,
{
    let hi = (v / 0x1_0000_0000) as u32;
    let lo = (v % 0x1_0000_0000) as u32;
    assert(s.subrange(at, at + 4) =~= be32(hi)) by {
        assert forall|i: int| 0 <= i < 4 implies s.subrange(at, at + 4)[i] == be32(hi)[i] by {
            assert(s.subrange(at, at + 8)[i] == be64(v)[i]);
        }
    }
    assert(s.subrange(at + 4, at + 8) =~= be32(lo)) by {
        assert forall|i: int| 0 <= i < 4 implies s.subrange(at + 4, at + 8)[i] == be32(lo)[i] by {
            assert(s.subrange(at, at + 8)[i + 4] == be64(v)[i + 4]);
        }
    }
    lemma_be32_read(s, at, hi);
    lemma_be32_read(s, at + 4, lo);
}

pub proof fn lemma_i32_bits_roundtrip(v: i32)
    ensures
        bits_i32(i32_bits(v)) == v,
{
}

pub proof fn lemma_i16_bits_roundtrip(v: i16)
    ensures
        bits_i16(i16_bits(v)) == v,
{
}

/// Appends the bytes of `bytes` to `out`.
pub fn push_bytes(out: &mut Vec<u8>, bytes: &[u8])
    ensures
        final(out)@ == old(out)@ + bytes@,
{
    let ghost start = out@;
    let mut i: usize = 0;
    while i < bytes.len()
        invariant
            i <= bytes@.len(),
            out@ == start + bytes@.subrange(0, i as int),
        decreases bytes@.len() - i,
    {
        out.push(bytes[i]);
        i = i + 1;
        assert(out@ =~= start + bytes@.subrange(0, i as int));
    }
    assert(bytes@.subrange(0, i as int) =~= bytes@);
}

/// Appends the big-endian bytes of `v` to `out`.
pub fn push_be16(out: &mut Vec<u8>, v: u16)
    ensures
        final(out)@ == old(out)@ + be16(v),
{
    out.push((v / 0x100) as u8);
    out.push((v % 0x100) as u8);
    assert(out@ =~= old(out)@ + be16(v));
}

/// Appends the big-endian bytes of `v` to `out`.
pub fn push_be32(out: &mut Vec<u8>, v: u32)
    ensures
        final(out)@ == old(out)@ + be32(v),
{
    out.push((v / 0x100_0000) as u8);
    out.push(((v / 0x1_0000) % 0x100) as u8);
    out.push(((v / 0x100) % 0x100) as u8);
    out.push((v % 0x100) as u8);
    assert(out@ =~= old(out)@ + be32(v));
}

/// Appends the big-endian bytes of `v` to `out`.
pub fn push_be64(out: &mut Vec<u8>, v: u64)
    ensures
        final(out)@ == old(out)@ + be64(v),
{
    push_be32(out, (v / 0x1_0000_0000) as u32);
    push_be32(out, (v % 0x1_0000_0000) as u32);
    assert(out@ =~= old(out)@ + be64(v));
}

/// Reads the big-endian 16-bit value at `at`.
pub fn get_be16(s: &[u8], at: usize) -> (r: u16)
    requires
        at + 2 <= s@.len(),
    ensures
        r == read_be16(s@, at as int),
{
    s[at] as u16 * 0x100 + s[at + 1] as u16
}

/// Reads the big-endian 32-bit value at `at`.
pub fn get_be32(s: &[u8], at: usize) -> (r: u32)
    requires
        at + 4 <= s@.len(),
    ensures
        r == read_be32(s@, at as int),
{
    s[at] as u32 * 0x100_0000 + s[at + 1] as u32 * 0x1_0000 + s[at + 2] as u32 * 0x100
        + s[at + 3] as u32
}

/// Reads the big-endian 64-bit value at `at`.
pub fn get_be64(s: &[u8], at: usize) -> (r: u64)
    requires
        at + 8 <= s.len(),
    ensures
        r == read_be64(s@, at as int),
{
    get_be32(s, at) as u64 * 0x1_0000_0000 + get_be32(s, at + 4) as u64
}

/// Two's-complement bit pattern of `v`.
pub fn to_bits_i32(v: i32) -> (r: u32)
    ensures
        r == i32_bits(v),
{
    if v < 0 {
        (v as i64 + 0x1_0000_0000) as u32
    } else {
        v as u32
    }
}

/// Signed value of the bit pattern `u`.
pub fn from_bits_i32(u: u32) -> (r: i32)
    ensures
        r == bits_i32(u),
{
    if u >= 0x8000_0000 {
        (u as i64 - 0x1_0000_0000) as i32
    } else {
        u as i32
    }
}

/// Two's-complement bit pattern of `v`.
pub fn to_bits_i16(v: i16) -> (r: u16)
    ensures
        r == i16_bits(v),
{
    if v < 0 {
        (v as i32 + 0x1_0000) as u16
    } else {
        v as u16
    }
}

/// Signed value of the bit pattern `u`.
pub fn from_bits_i16(u: u16) -> (r: i16)
    ensures
        r == bits_i16(u),
{
    if u >= 0x8000 {
        (u as i32 - 0x1_0000) as i16
    } else {
        u as i16
    }
}

} // verus!
