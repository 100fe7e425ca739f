//! Reading and writing the fields of fixed-layout records.
//!
//! Integers are little-endian. A flag is one byte: zero when unset, one when
//! set; a reader takes every other value for set.

use vstd::prelude::*;

verus! {

/// The byte a flag is written as.
pub open spec fn flag_byte(b: bool) -> u8 {
    if b {
        1u8
    } else {
        0u8
    }
}

/// The four bytes of a 32-bit integer, lowest first.
#[verifier::opaque]
pub open spec fn u32_le(x: u32) -> Seq<u8> {
    seq![
        (x % 0x100) as u8,
        (x / 0x100 % 0x100) as u8,
        (x / 0x1_0000 % 0x100) as u8,
        (x / 0x100_0000) as u8,
    ]
}

/// The eight bytes of a 64-bit integer, lowest first.
#[verifier::opaque]
pub open spec fn u64_le(x: u64) -> Seq<u8> {
    seq![
        (x % 0x100) as u8,
        (x / 0x100 % 0x100) as u8,
        (x / 0x1_0000 % 0x100) as u8,
        (x / 0x100_0000 % 0x100) as u8,
        (x / 0x1_0000_0000 % 0x100) as u8,
        (x / 0x100_0000_0000 % 0x100) as u8,
        (x / 0x1_0000_0000_0000 % 0x100) as u8,
        (x / 0x100_0000_0000_0000) as u8,
    ]
}

/// The 32-bit integer stored at `at`, lowest byte first.
#[verifier::opaque]
pub open spec fn u32_at(bytes: Seq<u8>, at: int) -> u32 {
    (bytes[at] + 0x100 * bytes[at + 1] + 0x1_0000 * bytes[at + 2] + 0x100_0000 * bytes[at
        + 3]) as u32
}

/// The 64-bit integer stored at `at`, lowest byte first.
#[verifier::opaque]
pub open spec fn u64_at(bytes: Seq<u8>, at: int) -> u64 {
    (bytes[at] + 0x100 * bytes[at + 1] + 0x1_0000 * bytes[at + 2] + 0x100_0000 * bytes[at + 3]
        + 0x1_0000_0000 * bytes[at + 4] + 0x100_0000_0000 * bytes[at + 5] + 0x1_0000_0000_0000
        * bytes[at + 6] + 0x100_0000_0000_0000 * bytes[at + 7]) as u64
}

/// The flag stored at `at`.
pub open spec fn flag_at(bytes: Seq<u8>, at: int) -> bool {
    bytes[at] != 0
}

/// Reads the 32-bit integer stored at `at`.
pub fn read_u32(bytes: &[u8], at: usize) -> (r: u32)
    requires
        at + 4 <= bytes@.len(),
    ensures
        r == u32_at(bytes@, at as int),
{
    assert(bytes@.len() == bytes.len());
    proof {
        reveal(u32_at);
    }
    let b0: u32 = bytes[at] as u32;
    let b1: u32 = bytes[at + 1] as u32;
    let b2: u32 = bytes[at + 2] as u32;
    let b3: u32 = bytes[at + 3] as u32;
    b0 + 0x100 * b1 + 0x1_0000 * b2 + 0x100_0000 * b3
}

/// Reads the 64-bit integer stored at `at`.
pub fn read_u64(bytes: &[u8], at: usize) -> (r: u64)
    requires
        at + 8 <= bytes@.len(),
    ensures
        r == u64_at(bytes@, at as int),
{
    assert(bytes@.len() == bytes.len());
    proof {
        reveal(u32_at);
        reveal(u64_at);
    }
    let low: u64 = read_u32(bytes, at) as u64;
    let high: u64 = read_u32(bytes, at + 4) as u64;
    low + 0x1_0000_0000 * high
}

/// Reads the flag stored at `at`.
pub fn read_flag(bytes: &[u8], at: usize) -> (r: bool)
    requires
        at < bytes@.len(),
    ensures
        r == flag_at(bytes@, at as int),
{
    bytes[at] != 0
}

/// Copies the `N` bytes stored at `at`.
pub fn read_array<const N: usize>(bytes: &[u8], at: usize) -> (r: [u8; N])
    requires
        at + N <= bytes@.len(),
    ensures
        r@ == bytes@.subrange(at as int, at + N),
{
    assert(bytes@.len() == bytes.len());
    let mut r: [u8; N] = [0u8; N];
    let mut i: usize = 0;
    while i < N
        invariant
            i <= N,
            at + N <= bytes@.len() <= usize::MAX,
            forall|j: int| 0 <= j < i ==> r@[j] == bytes@[at + j],
        decreases N - i,
    {
        r[i] = bytes[at + i];
        i = i + 1;
    }
    assert(r@ =~= bytes@.subrange(at as int, at + N));
    r
}

/// Appends a 32-bit integer.
pub fn push_u32(out: &mut Vec<u8>, x: u32)
    ensures
        final(out)@ == old(out)@ + u32_le(x),
{
    out.push((x % 0x100) as u8);
    out.push((x / 0x100 % 0x100) as u8);
    out.push((x / 0x1_0000 % 0x100) as u8);
    out.push((x / 0x100_0000) as u8);
    proof {
        reveal(u32_le);
    }
    assert(out@ =~= old(out)@ + u32_le(x));
}

/// Appends a 64-bit integer.
pub fn push_u64(out: &mut Vec<u8>, x: u64)
    ensures
        final(out)@ == old(out)@ + u64_le(x),
{
    out.push((x % 0x100) as u8);
    out.push((x / 0x100 % 0x100) as u8);
    out.push((x / 0x1_0000 % 0x100) as u8);
    out.push((x / 0x100_0000 % 0x100) as u8);
    out.push((x / 0x1_0000_0000 % 0x100) as u8);
    out.push((x / 0x100_0000_0000 % 0x100) as u8);
    out.push((x / 0x1_0000_0000_0000 % 0x100) as u8);
    out.push((x / 0x100_0000_0000_0000) as u8);
    proof {
        reveal(u64_le);
    }
    assert(out@ =~= old(out)@ + u64_le(x));
}

/// Appends a flag.
pub fn push_flag(out: &mut Vec<u8>, b: bool)
    ensures
        final(out)@ == old(out)@ + seq![flag_byte(b)],
{
    let byte: u8 = if b {
        1
    } else {
        0
    };
    out.push(byte);
    assert(out@ =~= old(out)@ + seq![flag_byte(b)]);
}

/// Appends one byte.
pub fn push_u8(out: &mut Vec<u8>, x: u8)
    ensures
        final(out)@ == old(out)@ + seq![x],
{
    out.push(x);
    assert(out@ =~= old(out)@ + seq![x]);
}

/// Appends the bytes of `src`.
pub fn push_bytes(out: &mut Vec<u8>, src: &[u8])
    ensures
        final(out)@ == old(out)@ + src@,
{
    let mut i: usize = 0;
    while i < src.len()
        invariant
            i <= src@.len(),
            out@ == old(out)@ + src@.subrange(0, i as int),
        decreases src@.len() - i,
    {
        out.push(src[i]);
        i = i + 1;
        assert(out@ =~= old(out)@ + src@.subrange(0, i as int));
    }
    assert(src@.subrange(0, src@.len() as int) =~= src@);
}

/// An owned copy of `src`.
pub fn to_vec(src: &[u8]) -> (r: Vec<u8>)
    ensures
        r@ == src@,
{
    let mut r: Vec<u8> = Vec::new();
    push_bytes(&mut r, src);
    assert(r@ =~= src@);
    r
}

} // verus!

verus! {

/// The array whose first `upto` bytes are those of `s` and whose other bytes
/// are zero.
pub open spec fn array_upto<const N: usize>(s: Seq<u8>, upto: int) -> [u8; N]
    decreases upto,
{
    if upto <= 0 {
        vstd::array::spec_array_fill_for_copy_type::<u8, N>(0u8)
    } else {
        vstd::array::spec_array_update(array_upto::<N>(s, upto - 1), upto - 1, s[upto - 1])
    }
}

/// The array that holds the bytes of `s`.
pub open spec fn array_of<const N: usize>(s: Seq<u8>) -> [u8; N] {
    array_upto::<N>(s, N as int)
}

/// The first `upto` bytes of the array built from `s` are those of `s`.
pub proof fn lemma_array_upto<const N: usize>(s: Seq<u8>, upto: int)
    requires
        0 <= upto <= N,
        upto <= s.len(),
    ensures
        forall|i: int| 0 <= i < upto ==> array_upto::<N>(s, upto)@[i] == s[i],
    decreases upto,
{
    if upto > 0 {
        lemma_array_upto::<N>(s, upto - 1);
    }
}

/// The array of `N` bytes holds just these bytes.
pub proof fn lemma_array_of_view<const N: usize>(s: Seq<u8>)
    requires
        s.len() == N,
    ensures
        array_of::<N>(s)@ == s,
{
    lemma_array_upto::<N>(s, N as int);
    assert(array_of::<N>(s)@ =~= s);
}

/// An array is the array of its own bytes.
pub proof fn lemma_array_of<const N: usize>(a: [u8; N])
    ensures
        array_of::<N>(a@) == a,
{
    lemma_array_of_view::<N>(a@);
    assert(array_of::<N>(a@) =~= a);
}

/// A 32-bit integer is the sum of its bytes, each at its place.
proof fn lemma_u32_parts(x: u32)
    by (bit_vector)
    ensures
        x == (x % 0x100) + 0x100 * (x / 0x100 % 0x100) + 0x1_0000 * (x / 0x1_0000 % 0x100)
            + 0x100_0000 * (x / 0x100_0000),
        x / 0x100_0000 < 0x100,
{
}

/// A 64-bit integer is the sum of its bytes, each at its place.
proof fn lemma_u64_parts(x: u64)
    by (bit_vector)
    ensures
        x == (x % 0x100) + 0x100 * (x / 0x100 % 0x100) + 0x1_0000 * (x / 0x1_0000 % 0x100)
            + 0x100_0000 * (x / 0x100_0000 % 0x100) + 0x1_0000_0000 * (x / 0x1_0000_0000 % 0x100)
            + 0x100_0000_0000 * (x / 0x100_0000_0000 % 0x100) + 0x1_0000_0000_0000 * (x
            / 0x1_0000_0000_0000 % 0x100) + 0x100_0000_0000_0000 * (x / 0x100_0000_0000_0000),
        x / 0x100_0000_0000_0000 < 0x100,
{
}

/// The 32-bit integer written at the end of `pre` is read back from there.
pub proof fn lemma_u32_at(pre: Seq<u8>, x: u32, post: Seq<u8>)
    ensures
        u32_at(pre + u32_le(x) + post, pre.len() as int) == x,
        u32_le(x).len() == 4,
{
    reveal(u32_at);
    reveal(u32_le);
    lemma_u32_parts(x);
    let s: Seq<u8> = pre + u32_le(x) + post;
    let at: int = pre.len() as int;
    assert(s[at] == u32_le(x)[0]);
    assert(s[at + 1] == u32_le(x)[1]);
    assert(s[at + 2] == u32_le(x)[2]);
    assert(s[at + 3] == u32_le(x)[3]);
}

/// The 64-bit integer written at the end of `pre` is read back from there.
pub proof fn lemma_u64_at(pre: Seq<u8>, x: u64, post: Seq<u8>)
    ensures
        u64_at(pre + u64_le(x) + post, pre.len() as int) == x,
        u64_le(x).len() == 8,
{
    reveal(u64_at);
    reveal(u64_le);
    lemma_u64_parts(x);
    let s: Seq<u8> = pre + u64_le(x) + post;
    let at: int = pre.len() as int;
    assert(s[at] == u64_le(x)[0]);
    assert(s[at + 1] == u64_le(x)[1]);
    assert(s[at + 2] == u64_le(x)[2]);
    assert(s[at + 3] == u64_le(x)[3]);
    assert(s[at + 4] == u64_le(x)[4]);
    assert(s[at + 5] == u64_le(x)[5]);
    assert(s[at + 6] == u64_le(x)[6]);
    assert(s[at + 7] == u64_le(x)[7]);
}

/// Two 32-bit integers with the same bytes are the same.
pub proof fn lemma_u32_le_injective(x: u32, y: u32)
    requires
        u32_le(x) == u32_le(y),
    ensures
        x == y,
{
    lemma_u32_at(Seq::empty(), x, Seq::empty());
    lemma_u32_at(Seq::empty(), y, Seq::empty());
}

/// Two 64-bit integers with the same bytes are the same.
pub proof fn lemma_u64_le_injective(x: u64, y: u64)
    requires
        u64_le(x) == u64_le(y),
    ensures
        x == y,
{
    lemma_u64_at(Seq::empty(), x, Seq::empty());
    lemma_u64_at(Seq::empty(), y, Seq::empty());
}

/// The array written at the end of `pre` is read back from there.
pub proof fn lemma_array_at<const N: usize>(pre: Seq<u8>, a: [u8; N], post: Seq<u8>)
    ensures
        array_of::<N>((pre + a@ + post).subrange(pre.len() as int, pre.len() + N)) == a,
{
    let s: Seq<u8> = pre + a@ + post;
    assert(s.subrange(pre.len() as int, pre.len() + N) =~= a@);
    lemma_array_of(a);
}

/// The flag written at the end of `pre` is read back from there.
pub proof fn lemma_flag_at(pre: Seq<u8>, b: bool, post: Seq<u8>)
    ensures
        flag_at(pre + seq![flag_byte(b)] + post, pre.len() as int) == b,
{
}

/// Copies the `N` bytes stored at `at` into an array.
pub fn read_key<const N: usize>(bytes: &[u8], at: usize) -> (r: [u8; N])
    requires
        at + N <= bytes@.len(),
    ensures
        r == array_of::<N>(bytes@.subrange(at as int, at + N)),
{
    let r: [u8; N] = read_array::<N>(bytes, at);
    proof {
        lemma_array_of(r);
    }
    r
}

} // verus!
