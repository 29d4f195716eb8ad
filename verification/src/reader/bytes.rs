//! Fixed-width values read from a byte sequence.
use vstd::prelude::*;
use vstd::utf8::{decode_utf8, valid_utf8};

verus! {

/// The unsigned value of four bytes in little-endian order.
pub open spec fn le_u32(b: Seq<u8>, at: int) -> int {
    b[at] + b[at + 1] * 256 + b[at + 2] * 65536 + b[at + 3] * 16777216
}

/// The signed value of four bytes in little-endian order.
pub open spec fn le_i32(b: Seq<u8>, at: int) -> i32 {
    (le_u32(b, at) as u32) as i32
}

/// The unsigned value of eight bytes in little-endian order.
pub open spec fn le_u64(b: Seq<u8>, at: int) -> int {
    b[at] + b[at + 1] * 0x100 + b[at + 2] * 0x1_0000 + b[at + 3] * 0x100_0000 + b[at + 4]
        * 0x1_0000_0000 + b[at + 5] * 0x100_0000_0000 + b[at + 6] * 0x1_0000_0000_0000 + b[at + 7]
        * 0x100_0000_0000_0000
}

/// The unsigned value of two bytes in big-endian order.
pub open spec fn be_u16(b: Seq<u8>, at: int) -> int {
    b[at] * 256 + b[at + 1]
}

/// Reads four bytes as a little-endian signed integer.
pub fn read_i32_le(b: &Vec<u8>, at: usize) -> (res: i32)
    requires
        at + 4 <= b.len(),
    ensures
        res == le_i32(b@, at as int),
{
    let v: u32 = b[at] as u32 + (b[at + 1] as u32) * 256 + (b[at + 2] as u32) * 65536 + (b[at
        + 3] as u32) * 16777216;
    assert(v as int == le_u32(b@, at as int));
    #[verifier::truncate]
    (v as i32)
}

/// Reads eight bytes as a little-endian unsigned integer.
pub fn read_u64_le(b: &Vec<u8>, at: usize) -> (res: u64)
    requires
        at + 8 <= b.len(),
    ensures
        res as int == le_u64(b@, at as int),
{
    b[at] as u64 + (b[at + 1] as u64) * 0x100 + (b[at + 2] as u64) * 0x1_0000 + (b[at + 3] as u64)
        * 0x100_0000 + (b[at + 4] as u64) * 0x1_0000_0000 + (b[at + 5] as u64) * 0x100_0000_0000
        + (b[at + 6] as u64) * 0x1_0000_0000_0000 + (b[at + 7] as u64) * 0x100_0000_0000_0000
}

/// Reads two bytes as a big-endian unsigned integer.
pub fn read_u16_be(b: &Vec<u8>, at: usize) -> (res: u16)
    requires
        at + 2 <= b.len(),
    ensures
        res as int == be_u16(b@, at as int),
{
    (b[at] as u16) * 256 + b[at + 1] as u16
}

/// The flags stored one per byte from `at`: a byte other than zero is set.
pub open spec fn bool_seq(b: Seq<u8>, at: int, n: int) -> Seq<bool> {
    Seq::new(n as nat, |k: int| b[at + k] != 0)
}

/// The little-endian eight-byte values stored one after another from `at`.
pub open spec fn u64_seq(b: Seq<u8>, at: int, n: int) -> Seq<u64> {
    Seq::new(n as nat, |k: int| le_u64(b, at + 8 * k) as u64)
}

/// The little-endian four-byte signed values stored one after another from `at`.
pub open spec fn i32_seq(b: Seq<u8>, at: int, n: int) -> Seq<i32> {
    Seq::new(n as nat, |k: int| le_i32(b, at + 4 * k))
}

/// The big-endian two-byte values stored one after another from `at`.
pub open spec fn u16_seq(b: Seq<u8>, at: int, n: int) -> Seq<u16> {
    Seq::new(n as nat, |k: int| be_u16(b, at + 2 * k) as u16)
}

/// Reads `n` flags, one per byte.
pub fn read_bools(b: &Vec<u8>, at: usize, n: usize) -> (res: Vec<bool>)
    requires
        at + n <= b.len(),
    ensures
        res@ == bool_seq(b@, at as int, n as int),
{
    let mut v: Vec<bool> = Vec::new();
    let mut k: usize = 0;
    while k < n
        invariant
            k <= n,
            at + n <= b.len(),
            v@ == bool_seq(b@, at as int, k as int),
        decreases n - k,
    {
        v.push(b[at + k] != 0);
        k = k + 1;
        assert(v@ =~= bool_seq(b@, at as int, k as int));
    }
    v
}

/// Reads `n` little-endian eight-byte values.
pub fn read_u64s(b: &Vec<u8>, at: usize, n: usize) -> (res: Vec<u64>)
    requires
        at + 8 * n <= b.len(),
    ensures
        res@ == u64_seq(b@, at as int, n as int),
{
    let mut v: Vec<u64> = Vec::new();
    let mut k: usize = 0;
    let mut pos: usize = at;
    while k < n
        invariant
            k <= n,
            at + 8 * n <= b.len(),
            pos == at + 8 * k,
            v@ == u64_seq(b@, at as int, k as int),
        decreases n - k,
    {
        v.push(read_u64_le(b, pos));
        k = k + 1;
        pos = pos + 8;
        assert(v@ =~= u64_seq(b@, at as int, k as int));
    }
    v
}

/// Reads `n` little-endian four-byte signed values.
pub fn read_i32s(b: &Vec<u8>, at: usize, n: usize) -> (res: Vec<i32>)
    requires
        at + 4 * n <= b.len(),
    ensures
        res@ == i32_seq(b@, at as int, n as int),
{
    let mut v: Vec<i32> = Vec::new();
    let mut k: usize = 0;
    let mut pos: usize = at;
    while k < n
        invariant
            k <= n,
            at + 4 * n <= b.len(),
            pos == at + 4 * k,
            v@ == i32_seq(b@, at as int, k as int),
        decreases n - k,
    {
        v.push(read_i32_le(b, pos));
        k = k + 1;
        pos = pos + 4;
        assert(v@ =~= i32_seq(b@, at as int, k as int));
    }
    v
}

/// Reads `n` big-endian two-byte values.
pub fn read_u16s_be(b: &Vec<u8>, at: usize, n: usize) -> (res: Vec<u16>)
    requires
        at + 2 * n <= b.len(),
    ensures
        res@ == u16_seq(b@, at as int, n as int),
{
    let mut v: Vec<u16> = Vec::new();
    let mut k: usize = 0;
    let mut pos: usize = at;
    while k < n
        invariant
            k <= n,
            at + 2 * n <= b.len(),
            pos == at + 2 * k,
            v@ == u16_seq(b@, at as int, k as int),
        decreases n - k,
    {
        v.push(read_u16_be(b, pos));
        k = k + 1;
        pos = pos + 2;
        assert(v@ =~= u16_seq(b@, at as int, k as int));
    }
    v
}

/// A copy of the bytes from `start` up to `end`.
pub fn copy_range(b: &Vec<u8>, start: usize, end: usize) -> (res: Vec<u8>)
    requires
        start <= end <= b.len(),
    ensures
        res@ == b@.subrange(start as int, end as int),
{
    let mut v: Vec<u8> = Vec::new();
    let mut k: usize = start;
    while k < end
        invariant
            start <= k <= end,
            end <= b.len(),
            v@ == b@.subrange(start as int, k as int),
        decreases end - k,
    {
        v.push(b[k]);
        k = k + 1;
        assert(v@ =~= b@.subrange(start as int, k as int));
    }
    v
}

/// Decodes bytes as UTF-8 text (`String::from_utf8`): the text where the bytes are valid UTF-8,
/// nothing otherwise.
#[verifier::external_body]
pub(crate) fn string_from_utf8(bytes: Vec<u8>) -> (res: Option<String>)
    ensures
        res.is_some() == valid_utf8(bytes@),
        res matches Some(s) ==> s@ == decode_utf8(bytes@),
{
    String::from_utf8(bytes).ok()
}

} // verus!
