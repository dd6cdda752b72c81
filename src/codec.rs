//! Little-endian, unpadded encoding of the primitive fields that every record
//! of an account is made of.
use vstd::prelude::*;

use crate::address::Address;

verus! {

/// The value of the four bytes at `p`, least significant first.
pub open spec fn le32(s: Seq<u8>, p: int) -> int {
    s[p] + 256 * s[p + 1] + 65536 * s[p + 2] + 16777216 * s[p + 3]
}

/// The value of the eight bytes at `p`, least significant first.
pub open spec fn le64(s: Seq<u8>, p: int) -> int {
    le32(s, p) + 4294967296 * le32(s, p + 4)
}

/// The four bytes of `x`, least significant first.
#[verifier::opaque]
pub open spec fn u32_bytes(x: u32) -> Seq<u8> {
    seq![
        (x % 256) as u8,
        ((x / 256) % 256) as u8,
        ((x / 65536) % 256) as u8,
        ((x / 16777216) % 256) as u8,
    ]
}

pub broadcast proof fn lemma_u32_bytes_len(x: u32)
    ensures
        #[trigger] u32_bytes(x).len() == 4,
{
    reveal(u32_bytes);
}

/// The eight bytes of `x`, least significant first.
pub open spec fn u64_bytes(x: u64) -> Seq<u8> {
    u32_bytes((x % 4294967296) as u32) + u32_bytes((x / 4294967296) as u32)
}

/// The 32 bytes of an address.
pub open spec fn address_bytes(a: Address) -> Seq<u8> {
    u64_bytes(a.w0) + u64_bytes(a.w1) + u64_bytes(a.w2) + u64_bytes(a.w3)
}

/// A byte string behind its 32-bit length.
pub open spec fn sized_bytes(b: Seq<u8>) -> Seq<u8> {
    u32_bytes(b.len() as u32) + b
}

/// Whether `n` bytes are there from `p` on.
pub open spec fn fits(s: Seq<u8>, p: int, n: int) -> bool {
    0 <= p && p + n <= s.len()
}

/// The address whose bytes stand at `p`, if 32 bytes are there.
pub open spec fn address_at(s: Seq<u8>, p: int) -> Option<Address> {
    if fits(s, p, 32) {
        Some(
            Address {
                w0: le64(s, p) as u64,
                w1: le64(s, p + 8) as u64,
                w2: le64(s, p + 16) as u64,
                w3: le64(s, p + 24) as u64,
            },
        )
    } else {
        None
    }
}

/// The length-prefixed byte string at `p` and the position after it.
pub open spec fn sized_bytes_at(s: Seq<u8>, p: int) -> Option<(Seq<u8>, int)> {
    if fits(s, p, 4) && fits(s, p + 4, le32(s, p)) {
        Some((s.subrange(p + 4, p + 4 + le32(s, p)), p + 4 + le32(s, p)))
    } else {
        None
    }
}

pub fn read_u8(data: &Vec<u8>, pos: usize) -> (r: Option<u8>)
    ensures
        r == (if fits(data@, pos as int, 1) {
            Some(data@[pos as int])
        } else {
            None::<u8>
        }),
{
    if pos < data.len() {
        Some(data[pos])
    } else {
        None
    }
}

pub fn read_u32(data: &Vec<u8>, pos: usize) -> (r: Option<u32>)
    ensures
        r == (if fits(data@, pos as int, 4) {
            Some(le32(data@, pos as int) as u32)
        } else {
            None::<u32>
        }),
{
    if pos <= data.len() && data.len() - pos >= 4 {
        let v: u32 = data[pos] as u32 + 256 * (data[pos + 1] as u32) + 65536 * (data[pos + 2] as u32)
            + 16777216 * (data[pos + 3] as u32);
        Some(v)
    } else {
        None
    }
}

pub fn read_u64(data: &Vec<u8>, pos: usize) -> (r: Option<u64>)
    ensures
        r == (if fits(data@, pos as int, 8) {
            Some(le64(data@, pos as int) as u64)
        } else {
            None::<u64>
        }),
{
    if pos <= data.len() && data.len() - pos >= 8 {
        let lo = read_u32(data, pos).unwrap();
        let hi = read_u32(data, pos + 4).unwrap();
        Some(lo as u64 + 4294967296 * (hi as u64))
    } else {
        None
    }
}

pub fn read_address(data: &Vec<u8>, pos: usize) -> (r: Option<Address>)
    ensures
        r == address_at(data@, pos as int),
{
    if pos <= data.len() && data.len() - pos >= 32 {
        let w0 = read_u64(data, pos).unwrap();
        let w1 = read_u64(data, pos + 8).unwrap();
        let w2 = read_u64(data, pos + 16).unwrap();
        let w3 = read_u64(data, pos + 24).unwrap();
        Some(Address { w0, w1, w2, w3 })
    } else {
        None
    }
}

pub fn read_sized_bytes(data: &Vec<u8>, pos: usize) -> (r: Option<(Vec<u8>, usize)>)
    ensures
        match sized_bytes_at(data@, pos as int) {
            Some((b, e)) => r.is_some() && r.unwrap().0@ == b && r.unwrap().1 == e,
            None => r.is_none(),
        },
{
    if !(pos <= data.len() && data.len() - pos >= 4) {
        return None;
    }
    let n = read_u32(data, pos).unwrap();
    let start = pos + 4;
    if data.len() - start < n as usize {
        return None;
    }
    let end = start + n as usize;
    let mut out: Vec<u8> = Vec::new();
    let mut i: usize = start;
    while i < end
        invariant
            start <= i <= end <= data.len(),
            out@ == data@.subrange(start as int, i as int),
        decreases end - i,
    {
        out.push(data[i]);
        i += 1;
        assert(out@ =~= data@.subrange(start as int, i as int));
    }
    Some((out, end))
}

pub fn push_u32(out: &mut Vec<u8>, x: u32)
    ensures
        final(out)@ == old(out)@ + u32_bytes(x),
{
    out.push((x % 256) as u8);
    out.push(((x / 256) % 256) as u8);
    out.push(((x / 65536) % 256) as u8);
    out.push(((x / 16777216) % 256) as u8);
    reveal(u32_bytes);
    assert(out@ =~= old(out)@ + u32_bytes(x));
}

pub fn push_u64(out: &mut Vec<u8>, x: u64)
    ensures
        final(out)@ == old(out)@ + u64_bytes(x),
{
    push_u32(out, (x % 4294967296) as u32);
    push_u32(out, (x / 4294967296) as u32);
    assert(out@ =~= old(out)@ + u64_bytes(x));
}

pub fn push_address(out: &mut Vec<u8>, a: &Address)
    ensures
        final(out)@ == old(out)@ + address_bytes(*a),
{
    push_u64(out, a.w0);
    push_u64(out, a.w1);
    push_u64(out, a.w2);
    push_u64(out, a.w3);
    assert(out@ =~= old(out)@ + address_bytes(*a));
}

pub fn push_bytes(out: &mut Vec<u8>, b: &Vec<u8>)
    ensures
        final(out)@ == old(out)@ + b@,
{
    let mut i: usize = 0;
    while i < b.len()
        invariant
            i <= b.len(),
            out@ == old(out)@ + b@.subrange(0, i as int),
        decreases b.len() - i,
    {
        out.push(b[i]);
        i += 1;
        assert(out@ =~= old(out)@ + b@.subrange(0, i as int));
    }
    assert(b@.subrange(0, b.len() as int) =~= b@);
}

pub fn push_sized_bytes(out: &mut Vec<u8>, b: &Vec<u8>)
    requires
        b@.len() <= u32::MAX,
    ensures
        final(out)@ == old(out)@ + sized_bytes(b@),
{
    push_u32(out, b.len() as u32);
    push_bytes(out, b);
    assert(out@ =~= old(out)@ + sized_bytes(b@));
}

} // verus!
