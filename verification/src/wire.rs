//! Fixed-width fields: little-endian numbers and 32-byte identifiers.
use vstd::prelude::*;
use vstd::arithmetic::div_mod::lemma_div_denominator;
use vstd::arithmetic::div_mod::lemma_fundamental_div_mod_converse;

verus! {

/// The number that the first eight bytes of `s` spell, least significant
/// byte first.
pub open spec fn le_value(s: Seq<u8>) -> int
    recommends
        s.len() >= 8,
{
    s[0] as int + 0x100 * (s[1] as int) + 0x1_0000 * (s[2] as int) + 0x100_0000 * (s[3] as int)
        + 0x1_0000_0000 * (s[4] as int) + 0x100_0000_0000 * (s[5] as int) + 0x1_0000_0000_0000
        * (s[6] as int) + 0x100_0000_0000_0000 * (s[7] as int)
}

/// The eight bytes that spell `x`, least significant byte first.
#[verifier::opaque]
pub open spec fn le_bytes(x: u64) -> Seq<u8> {
    seq![
        (x % 0x100) as u8,
        (x / 0x100 % 0x100) as u8,
        (x / 0x1_0000 % 0x100) as u8,
        (x / 0x100_0000 % 0x100) as u8,
        (x / 0x1_0000_0000 % 0x100) as u8,
        (x / 0x100_0000_0000 % 0x100) as u8,
        (x / 0x1_0000_0000_0000 % 0x100) as u8,
        (x / 0x100_0000_0000_0000 % 0x100) as u8,
    ]
}

/// The two's complement pattern of a signed number.
pub open spec fn signed_bits(x: i64) -> u64 {
    if x >= 0 {
        x as u64
    } else {
        (x + 0x1_0000_0000_0000_0000) as u64
    }
}

/// The signed number that a two's complement pattern stands for.
pub open spec fn bits_signed(u: u64) -> i64 {
    if u < 0x8000_0000_0000_0000 {
        u as i64
    } else {
        (u - 0x1_0000_0000_0000_0000) as i64
    }
}

/// `s` with the bytes from `at` on replaced by `part`.
pub open spec fn overwrite(s: Seq<u8>, at: int, part: Seq<u8>) -> Seq<u8>
    recommends
        0 <= at,
        at + part.len() <= s.len(),
{
    s.subrange(0, at) + part + s.subrange(at + part.len(), s.len() as int)
}

/// Spelling a number and reading the bytes back gives the number.
pub proof fn lemma_le_value_of_bytes(x: u64)
    ensures
        le_bytes(x).len() == 8,
        le_value(le_bytes(x)) == x,
{
    reveal(le_bytes);
    let v: int = x as int;
    let q1: int = v / 0x100;
    let q2: int = v / 0x1_0000;
    let q3: int = v / 0x100_0000;
    let q4: int = v / 0x1_0000_0000;
    let q5: int = v / 0x100_0000_0000;
    let q6: int = v / 0x1_0000_0000_0000;
    let q7: int = v / 0x100_0000_0000_0000;
    lemma_div_denominator(v, 0x100, 0x100);
    lemma_div_denominator(v, 0x1_0000, 0x100);
    lemma_div_denominator(v, 0x100_0000, 0x100);
    lemma_div_denominator(v, 0x1_0000_0000, 0x100);
    lemma_div_denominator(v, 0x100_0000_0000, 0x100);
    lemma_div_denominator(v, 0x1_0000_0000_0000, 0x100);
    assert(q2 == q1 / 0x100);
    assert(q3 == q2 / 0x100);
    assert(q4 == q3 / 0x100);
    assert(q5 == q4 / 0x100);
    assert(q6 == q5 / 0x100);
    assert(q7 == q6 / 0x100);
    assert(v == v % 0x100 + 0x100 * q1);
    assert(q1 == q1 % 0x100 + 0x100 * q2);
    assert(q2 == q2 % 0x100 + 0x100 * q3);
    assert(q3 == q3 % 0x100 + 0x100 * q4);
    assert(q4 == q4 % 0x100 + 0x100 * q5);
    assert(q5 == q5 % 0x100 + 0x100 * q6);
    assert(q6 == q6 % 0x100 + 0x100 * q7);
    assert(q7 == q7 % 0x100);
}

/// Every eight bytes spell a number that fits in 64 bits, and spelling that
/// number gives the same bytes back.
pub proof fn lemma_le_bytes_of_value(s: Seq<u8>)
    requires
        s.len() == 8,
    ensures
        0 <= le_value(s) <= u64::MAX,
        le_bytes(le_value(s) as u64) == s,
{
    let v7: int = s[7] as int;
    let v6: int = s[6] as int + 0x100 * v7;
    let v5: int = s[5] as int + 0x100 * v6;
    let v4: int = s[4] as int + 0x100 * v5;
    let v3: int = s[3] as int + 0x100 * v4;
    let v2: int = s[2] as int + 0x100 * v3;
    let v1: int = s[1] as int + 0x100 * v2;
    let v: int = s[0] as int + 0x100 * v1;
    assert(v == le_value(s));
    assert(0 <= v <= u64::MAX);
    let r1: int = s[0] as int;
    let r2: int = r1 + 0x100 * (s[1] as int);
    let r3: int = r2 + 0x1_0000 * (s[2] as int);
    let r4: int = r3 + 0x100_0000 * (s[3] as int);
    let r5: int = r4 + 0x1_0000_0000 * (s[4] as int);
    let r6: int = r5 + 0x100_0000_0000 * (s[5] as int);
    let r7: int = r6 + 0x1_0000_0000_0000 * (s[6] as int);
    lemma_fundamental_div_mod_converse(v, 0x100, v1, r1);
    lemma_fundamental_div_mod_converse(v, 0x1_0000, v2, r2);
    lemma_fundamental_div_mod_converse(v, 0x100_0000, v3, r3);
    lemma_fundamental_div_mod_converse(v, 0x1_0000_0000, v4, r4);
    lemma_fundamental_div_mod_converse(v, 0x100_0000_0000, v5, r5);
    lemma_fundamental_div_mod_converse(v, 0x1_0000_0000_0000, v6, r6);
    lemma_fundamental_div_mod_converse(v, 0x100_0000_0000_0000, v7, r7);
    reveal(le_bytes);
    let x: u64 = v as u64;
    assert(x % 0x100 == s[0]);
    assert(x / 0x100 % 0x100 == s[1]);
    assert(x / 0x1_0000 % 0x100 == s[2]);
    assert(x / 0x100_0000 % 0x100 == s[3]);
    assert(x / 0x1_0000_0000 % 0x100 == s[4]);
    assert(x / 0x100_0000_0000 % 0x100 == s[5]);
    assert(x / 0x1_0000_0000_0000 % 0x100 == s[6]);
    assert(x / 0x100_0000_0000_0000 % 0x100 == s[7]);
    assert(le_bytes(x) =~= s);
}

/// Writing `part` behind a finished prefix lengthens the prefix by `part`
/// and leaves the bytes after it as they were in `whole`.
pub proof fn lemma_overwrite_extends(prefix: Seq<u8>, whole: Seq<u8>, part: Seq<u8>)
    requires
        prefix.len() + part.len() <= whole.len(),
    ensures
        overwrite(
            prefix + whole.subrange(prefix.len() as int, whole.len() as int),
            prefix.len() as int,
            part,
        ) == prefix + part + whole.subrange(
            (prefix.len() + part.len()) as int,
            whole.len() as int,
        ),
{
    assert(overwrite(
        prefix + whole.subrange(prefix.len() as int, whole.len() as int),
        prefix.len() as int,
        part,
    ) =~= prefix + part + whole.subrange((prefix.len() + part.len()) as int, whole.len() as int));
}

/// A signed number and its bit pattern determine each other.
pub proof fn lemma_signed_bits(x: i64, u: u64)
    ensures
        bits_signed(signed_bits(x)) == x,
        signed_bits(bits_signed(u)) == u,
{
}

/// Reads the little-endian number at `at`.
pub fn read_u64(src: &[u8], at: usize) -> (x: u64)
    requires
        at + 8 <= src.len(),
    ensures
        x == le_value(src@.subrange(at as int, at + 8)),
{
    let b0: u64 = src[at] as u64;
    let b1: u64 = src[at + 1] as u64;
    let b2: u64 = src[at + 2] as u64;
    let b3: u64 = src[at + 3] as u64;
    let b4: u64 = src[at + 4] as u64;
    let b5: u64 = src[at + 5] as u64;
    let b6: u64 = src[at + 6] as u64;
    let b7: u64 = src[at + 7] as u64;
    b0 + 0x100 * b1 + 0x1_0000 * b2 + 0x100_0000 * b3 + 0x1_0000_0000 * b4 + 0x100_0000_0000 * b5
        + 0x1_0000_0000_0000 * b6 + 0x100_0000_0000_0000 * b7
}

/// Reads the signed little-endian number at `at`.
pub fn read_i64(src: &[u8], at: usize) -> (x: i64)
    requires
        at + 8 <= src.len(),
    ensures
        x == bits_signed(le_value(src@.subrange(at as int, at + 8)) as u64),
{
    let u: u64 = read_u64(src, at);
    if u < 0x8000_0000_0000_0000 {
        u as i64
    } else {
        let low: i64 = (u - 0x8000_0000_0000_0000) as i64;
        low + i64::MIN
    }
}

/// Writes `x` at `at`, little-endian, and leaves the other bytes alone.
pub fn write_u64(dst: &mut [u8], at: usize, x: u64)
    requires
        at + 8 <= old(dst).len(),
    ensures
        final(dst)@ == overwrite(old(dst)@, at as int, le_bytes(x)),
{
    dst[at] = (x % 0x100) as u8;
    dst[at + 1] = (x / 0x100 % 0x100) as u8;
    dst[at + 2] = (x / 0x1_0000 % 0x100) as u8;
    dst[at + 3] = (x / 0x100_0000 % 0x100) as u8;
    dst[at + 4] = (x / 0x1_0000_0000 % 0x100) as u8;
    dst[at + 5] = (x / 0x100_0000_0000 % 0x100) as u8;
    dst[at + 6] = (x / 0x1_0000_0000_0000 % 0x100) as u8;
    dst[at + 7] = (x / 0x100_0000_0000_0000 % 0x100) as u8;
    reveal(le_bytes);
    assert(dst@ =~= overwrite(old(dst)@, at as int, le_bytes(x)));
}

/// Writes the signed number `x` at `at`, little-endian.
pub fn write_i64(dst: &mut [u8], at: usize, x: i64)
    requires
        at + 8 <= old(dst).len(),
    ensures
        final(dst)@ == overwrite(old(dst)@, at as int, le_bytes(signed_bits(x))),
{
    let u: u64 = if x >= 0 {
        x as u64
    } else {
        ((x - i64::MIN) as u64) + 0x8000_0000_0000_0000
    };
    write_u64(dst, at, u);
}

/// Reads the 32-byte identifier at `at`.
pub fn read_key(src: &[u8], at: usize) -> (key: [u8; 32])
    requires
        at + 32 <= src.len(),
    ensures
        key@ == src@.subrange(at as int, at + 32),
{
    let mut key: [u8; 32] = [0u8; 32];
    let mut i: usize = 0;
    while i < 32
        invariant
            i <= 32,
            at + 32 <= src.len(),
            forall|j: int| 0 <= j < i ==> key@[j] == src@[at + j],
        decreases 32 - i,
    {
        key[i] = src[at + i];
        i += 1;
    }
    assert(key@ =~= src@.subrange(at as int, at + 32));
    key
}

/// Writes the identifier `key` at `at` and leaves the other bytes alone.
pub fn write_key(dst: &mut [u8], at: usize, key: &[u8; 32])
    requires
        at + 32 <= old(dst).len(),
    ensures
        final(dst)@ == overwrite(old(dst)@, at as int, key@),
{
    let mut i: usize = 0;
    while i < 32
        invariant
            i <= 32,
            dst.len() == old(dst).len(),
            at + 32 <= dst.len(),
            forall|j: int| 0 <= j < dst.len() && !(at <= j < at + i) ==> dst@[j] == old(dst)@[j],
            forall|j: int| 0 <= j < i ==> dst@[at + j] == key@[j],
        decreases 32 - i,
    {
        dst[at + i] = key[i];
        i += 1;
    }
    assert(dst@ =~= overwrite(old(dst)@, at as int, key@));
}

/// Whether two identifiers are the same.
pub fn same_key(a: &[u8; 32], b: &[u8; 32]) -> (same: bool)
    ensures
        same == (a@ == b@),
{
    let mut i: usize = 0;
    while i < 32
        invariant
            i <= 32,
            forall|j: int| 0 <= j < i ==> a@[j] == b@[j],
        decreases 32 - i,
    {
        if a[i] != b[i] {
            return false;
        }
        i += 1;
    }
    assert(a@ =~= b@);
    true
}

} // verus!
