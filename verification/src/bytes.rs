//! Helpers on byte strings: comparison, zero tests, concatenation.

use vstd::prelude::*;

verus! {

/// A 32-byte identity. The all-zero value stands for "no one".
pub type Identity = [u8; 32];

/// Number of zero bytes among the first `n` bytes of `s`.
pub open spec fn zero_count(s: Seq<u8>, n: int) -> int
    decreases n,
{
    if n <= 0 {
        0
    } else {
        zero_count(s, n - 1) + if s[n - 1] == 0u8 { 1int } else { 0int }
    }
}

/// Whether every byte of `s` is zero.
pub open spec fn all_zero(s: Seq<u8>) -> bool {
    forall|i: int| 0 <= i < s.len() ==> s[i] == 0u8
}

/// The zero count never exceeds the number of bytes looked at.
pub proof fn lemma_zero_count_bounds(s: Seq<u8>, n: int)
    requires
        0 <= n,
    ensures
        0 <= zero_count(s, n) <= n,
    decreases n,
{
    if n > 0 {
        lemma_zero_count_bounds(s, n - 1);
    }
}

/// A byte string is all zero exactly when its zero count is its length.
pub proof fn lemma_all_zero_iff_full_count(s: Seq<u8>)
    ensures
        all_zero(s) <==> zero_count(s, s.len() as int) == s.len(),
{
    lemma_zero_count_prefix(s, s.len() as int);
}

/// The first `n` bytes are all zero exactly when their zero count is `n`.
pub proof fn lemma_zero_count_prefix(s: Seq<u8>, n: int)
    requires
        0 <= n <= s.len(),
    ensures
        (forall|i: int| 0 <= i < n ==> s[i] == 0u8) <==> zero_count(s, n) == n,
    decreases n,
{
    if n > 0 {
        lemma_zero_count_prefix(s, n - 1);
        lemma_zero_count_bounds(s, n - 1);
        if zero_count(s, n) == n {
            assert(zero_count(s, n - 1) == n - 1);
            assert(s[n - 1] == 0u8);
        }
    }
}

/// Compares two 32-byte values.
pub fn bytes32_eq(a: &[u8; 32], b: &[u8; 32]) -> (same: bool)
    ensures
        same == (*a == *b),
        same == (a@ == b@),
{
    let mut same: bool = true;
    let mut i: usize = 0;
    while i < 32
        invariant
            i <= 32,
            same == (forall|j: int| 0 <= j < i ==> a[j] == b[j]),
        decreases 32 - i,
    {
        if a[i] != b[i] {
            same = false;
        }
        i += 1;
    }
    proof {
        if same {
            assert(*a =~= *b);
            assert(a@ =~= b@);
        } else {
            let j = choose|j: int| 0 <= j < 32 && a[j] != b[j];
            assert(a@[j] != b@[j]);
        }
    }
    same
}

/// Whether an optional 32-byte value is present and equal to `value`.
pub fn option_is(slot: &Option<[u8; 32]>, value: &[u8; 32]) -> (same: bool)
    ensures
        same == (*slot == Some(*value)),
{
    match slot {
        Some(held) => bytes32_eq(held, value),
        None => false,
    }
}

/// Counts the zero bytes of a 32-byte value.
pub fn count_zero_bytes(a: &[u8; 32]) -> (count: usize)
    ensures
        count == zero_count(a@, 32),
        count <= 32,
{
    let mut count: usize = 0;
    let mut i: usize = 0;
    while i < 32
        invariant
            i <= 32,
            count == zero_count(a@, i as int),
            count <= i,
        decreases 32 - i,
    {
        if a[i] == 0 {
            count += 1;
        }
        i += 1;
    }
    count
}

/// Whether a 32-byte value is the all-zero value.
pub fn is_zero32(a: &[u8; 32]) -> (zero: bool)
    ensures
        zero == all_zero(a@),
{
    let count: usize = count_zero_bytes(a);
    proof {
        lemma_all_zero_iff_full_count(a@);
    }
    count == 32
}

/// Appends the bytes of `src` to `buf`.
pub fn append_bytes(buf: &mut Vec<u8>, src: &[u8])
    ensures
        final(buf)@ == old(buf)@ + src@,
{
    let ghost before: Seq<u8> = buf@;
    let n: usize = src.len();
    let mut i: usize = 0;
    while i < n
        invariant
            i <= n,
            n == src@.len(),
            buf@ == before + src@.subrange(0, i as int),
        decreases n - i,
    {
        buf.push(src[i]);
        i += 1;
    }
    assert(src@.subrange(0, n as int) == src@);
}

} // verus!
