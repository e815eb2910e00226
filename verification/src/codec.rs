//! Little-endian field encodings shared by the account and instruction layouts.
use vstd::prelude::*;
use vstd::bytes::{
    spec_u32_from_le_bytes, spec_u32_to_le_bytes, spec_u128_from_le_bytes, spec_u128_to_le_bytes, spec_u64_from_le_bytes, spec_u64_to_le_bytes,
};

verus! {

/// A 32-byte public key.
pub type Address = [u8; 32];

/// The eight little-endian bytes of an `i64` (two's complement).
pub open spec fn le_i64(x: i64) -> Seq<u8> {
    spec_u64_to_le_bytes(x as u64)
}

/// The `i64` whose little-endian bytes are `s` (eight bytes).
pub open spec fn i64_of_le(s: Seq<u8>) -> i64 {
    spec_u64_from_le_bytes(s) as i64
}

pub open spec fn le_u64(x: u64) -> Seq<u8> {
    spec_u64_to_le_bytes(x)
}

pub open spec fn u64_of_le(s: Seq<u8>) -> u64 {
    spec_u64_from_le_bytes(s)
}

pub open spec fn le_u32(x: u32) -> Seq<u8> {
    spec_u32_to_le_bytes(x)
}

pub open spec fn u32_of_le(s: Seq<u8>) -> u32 {
    spec_u32_from_le_bytes(s)
}

pub open spec fn le_u128(x: u128) -> Seq<u8> {
    spec_u128_to_le_bytes(x)
}

pub open spec fn u128_of_le(s: Seq<u8>) -> u128 {
    spec_u128_from_le_bytes(s)
}

/// `n` zero bytes.
pub open spec fn zeros(n: nat) -> Seq<u8> {
    Seq::new(n, |i: int| 0u8)
}

/// Decoding the encoding of a value gives the value back.
pub proof fn lemma_le_roundtrip()
    ensures
        forall|x: u64| #![trigger le_u64(x)] le_u64(x).len() == 8 && u64_of_le(le_u64(x)) == x,
        forall|x: i64| #![trigger le_i64(x)] le_i64(x).len() == 8 && i64_of_le(le_i64(x)) == x,
        forall|x: u128|
            #![trigger le_u128(x)]
            le_u128(x).len() == 16 && u128_of_le(le_u128(x)) == x,
        forall|x: u32| #![trigger le_u32(x)] le_u32(x).len() == 4 && u32_of_le(le_u32(x)) == x,
{
    vstd::bytes::lemma_auto_spec_u32_to_from_le_bytes();
    vstd::bytes::lemma_auto_spec_u64_to_from_le_bytes();
    vstd::bytes::lemma_auto_spec_u128_to_from_le_bytes();
    assert forall|x: i64| #![trigger le_i64(x)] le_i64(x).len() == 8 && i64_of_le(le_i64(x)) == x by {
        let u = x as u64;
        assert(spec_u64_from_le_bytes(spec_u64_to_le_bytes(u)) == u);
        assert((u as i64) == x) by (bit_vector)
            requires
                u == x as u64,
        ;
    }
}

/// Appends `bytes` to `out`.
pub fn push_slice(out: &mut Vec<u8>, bytes: &[u8])
    ensures
        final(out)@ == old(out)@ + bytes@,
{
    let mut i: usize = 0;
    while i < bytes.len()
        invariant
            i <= bytes@.len(),
            out@ == old(out)@ + bytes@.subrange(0, i as int),
        decreases bytes@.len() - i,
    {
        out.push(bytes[i]);
        assert(bytes@.subrange(0, i + 1) == bytes@.subrange(0, i as int).push(bytes@[i as int]));
        i = i + 1;
    }
    assert(bytes@.subrange(0, bytes@.len() as int) == bytes@);
}

/// Appends `n` zero bytes to `out`.
pub fn push_zeros(out: &mut Vec<u8>, n: usize)
    ensures
        final(out)@ == old(out)@ + zeros(n as nat),
{
    let mut i: usize = 0;
    while i < n
        invariant
            i <= n,
            out@ == old(out)@ + zeros(i as nat),
        decreases n - i,
    {
        out.push(0u8);
        assert(zeros((i + 1) as nat) == zeros(i as nat).push(0u8));
        i = i + 1;
    }
}

pub fn push_u64(out: &mut Vec<u8>, x: u64)
    ensures
        final(out)@ == old(out)@ + le_u64(x),
{
    let b = vstd::bytes::u64_to_le_bytes(x);
    push_slice(out, b.as_slice());
}

pub fn push_i64(out: &mut Vec<u8>, x: i64)
    ensures
        final(out)@ == old(out)@ + le_i64(x),
{
    let b = vstd::bytes::u64_to_le_bytes(x as u64);
    push_slice(out, b.as_slice());
}

pub fn push_u128(out: &mut Vec<u8>, x: u128)
    ensures
        final(out)@ == old(out)@ + le_u128(x),
{
    let b = vstd::bytes::u128_to_le_bytes(x);
    push_slice(out, b.as_slice());
}

pub fn push_address(out: &mut Vec<u8>, a: &Address)
    ensures
        final(out)@ == old(out)@ + a@,
{
    push_slice(out, a.as_slice());
}

/// The `u64` stored little-endian at `data[off..off + 8]`.
pub fn read_u64(data: &[u8], off: usize) -> (r: u64)
    requires
        off + 8 <= data@.len(),
    ensures
        r == u64_of_le(data@.subrange(off as int, off + 8)),
{
    let _n = data.len();
    vstd::bytes::u64_from_le_bytes(vstd::slice::slice_subrange(data, off, off + 8))
}

/// The `u32` stored little-endian at `data[off..off + 4]`.
pub fn read_u32(data: &[u8], off: usize) -> (r: u32)
    requires
        off + 4 <= data@.len(),
    ensures
        r == u32_of_le(data@.subrange(off as int, off + 4)),
{
    let _n = data.len();
    vstd::bytes::u32_from_le_bytes(vstd::slice::slice_subrange(data, off, off + 4))
}

/// The `i64` stored little-endian at `data[off..off + 8]`.
pub fn read_i64(data: &[u8], off: usize) -> (r: i64)
    requires
        off + 8 <= data@.len(),
    ensures
        r == i64_of_le(data@.subrange(off as int, off + 8)),
{
    let _n = data.len();
    let u = vstd::bytes::u64_from_le_bytes(vstd::slice::slice_subrange(data, off, off + 8));
    #[verifier::truncate]
    (u as i64)
}

/// The `u128` stored little-endian at `data[off..off + 16]`.
pub fn read_u128(data: &[u8], off: usize) -> (r: u128)
    requires
        off + 16 <= data@.len(),
    ensures
        r == u128_of_le(data@.subrange(off as int, off + 16)),
{
    let _n = data.len();
    vstd::bytes::u128_from_le_bytes(vstd::slice::slice_subrange(data, off, off + 16))
}

/// The 32 bytes at `data[off..off + 32]`.
pub fn read_address(data: &[u8], off: usize) -> (r: Address)
    requires
        off + 32 <= data@.len(),
    ensures
        r@ == data@.subrange(off as int, off + 32),
{
    let _n = data.len();
    let mut a: Address = [0u8; 32];
    let mut i: usize = 0;
    while i < 32
        invariant
            i <= 32,
            off + 32 <= data@.len(),
            data@.len() <= usize::MAX,
            forall|k: int| 0 <= k < i ==> a@[k] == data@[off + k],
        decreases 32 - i,
    {
        a[i] = data[off + i];
        i = i + 1;
    }
    assert(a@ =~= data@.subrange(off as int, off + 32));
    a
}

/// Two keys with the same bytes are the same key.
pub proof fn lemma_address_view_eq(a: Address, b: Address)
    requires
        a@ == b@,
    ensures
        a == b,
{
    assert(a =~= b);
}

/// Whether two keys are the same.
pub fn address_eq(a: &Address, b: &Address) -> (r: bool)
    ensures
        r == (a@ == b@),
{
    let mut i: usize = 0;
    while i < 32
        invariant
            i <= 32,
            forall|k: int| 0 <= k < i ==> a@[k] == b@[k],
        decreases 32 - i,
    {
        if a[i] != b[i] {
            return false;
        }
        i = i + 1;
    }
    assert(a@ =~= b@);
    true
}

/// Copies `src` to the front of `dest`, leaving the rest of `dest` as it was.
pub fn copy_prefix(dest: &mut [u8], src: &[u8])
    requires
        src@.len() <= old(dest)@.len(),
    ensures
        final(dest)@ == src@ + old(dest)@.subrange(src@.len() as int, old(dest)@.len() as int),
{
    let mut i: usize = 0;
    while i < src.len()
        invariant
            i <= src@.len(),
            src@.len() <= old(dest)@.len(),
            dest@.len() == old(dest)@.len(),
            forall|k: int| 0 <= k < i ==> dest@[k] == src@[k],
            forall|k: int| i <= k < dest@.len() ==> dest@[k] == old(dest)@[k],
        decreases src@.len() - i,
    {
        dest[i] = src[i];
        i = i + 1;
    }
    assert(dest@ =~= src@ + old(dest)@.subrange(src@.len() as int, old(dest)@.len() as int));
}

} // verus!
