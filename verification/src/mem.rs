use vstd::prelude::*;

use crate::data::copy_range;

verus! {

/// Copy the first `n` bytes of `src` over the start of `dst`.
pub fn sol_memcpy(dst: &mut Vec<u8>, src: &Vec<u8>, n: usize)
    requires
        n <= old(dst)@.len(),
        n <= src@.len(),
    ensures
        final(dst)@.len() == old(dst)@.len(),
        forall|i: int| 0 <= i < n ==> final(dst)@[i] == src@[i],
        forall|i: int| n <= i < old(dst)@.len() ==> final(dst)@[i] == old(dst)@[i],
{
    let mut i: usize = 0;
    while i < n
        invariant
            i <= n <= src@.len(),
            n <= dst@.len() == old(dst)@.len(),
            forall|j: int| 0 <= j < i ==> dst@[j] == src@[j],
            forall|j: int| i <= j < dst@.len() ==> dst@[j] == old(dst)@[j],
        decreases n - i,
    {
        dst[i] = src[i];
        i += 1;
    }
}

/// Move `n` bytes within one buffer, from `src` to `dst`, correct even
/// when the two ranges overlap.
pub fn sol_memmove(buf: &mut Vec<u8>, dst: usize, src: usize, n: usize)
    requires
        dst + n <= old(buf)@.len(),
        src + n <= old(buf)@.len(),
    ensures
        final(buf)@.len() == old(buf)@.len(),
        forall|i: int| 0 <= i < n ==> final(buf)@[#[trigger] (dst + i)] == old(buf)@[src + i],
        forall|i: int|
            0 <= i < old(buf)@.len() && !(dst <= i < dst + n) ==> final(buf)@[i] == old(buf)@[i],
{
    let len = buf.len();
    assert(src + n <= len);
    assert(dst + n <= len);
    let tmp = copy_range(buf, src, src + n);
    let mut i: usize = 0;
    while i < n
        invariant
            i <= n,
            len == buf@.len(),
            dst + n <= len,
            src + n <= len,
            buf@.len() == old(buf)@.len(),
            tmp@.len() == n,
            forall|j: int| 0 <= j < n ==> (#[trigger] tmp@[j]) == old(buf)@[src + j],
            forall|j: int| 0 <= j < i ==> buf@[#[trigger] (dst + j)] == tmp@[j],
            forall|j: int|
                0 <= j < buf@.len() && !(dst <= j < dst + i) ==> buf@[j] == old(buf)@[j],
        decreases n - i,
    {
        buf[dst + i] = tmp[i];
        i += 1;
    }
}

/// The comparison of two byte ranges from position `i` on: zero if they
/// agree up to `n`, otherwise the difference at the first disagreement.
pub open spec fn spec_memcmp_from(s1: Seq<u8>, s2: Seq<u8>, n: int, i: int) -> int
    decreases n - i,
{
    if i < 0 || i >= n {
        0
    } else if s1[i] != s2[i] {
        s1[i] - s2[i]
    } else {
        spec_memcmp_from(s1, s2, n, i + 1)
    }
}

/// Comparison from position zero agrees with comparison from position `i`
/// while every earlier position agrees.
proof fn lemma_memcmp_skip(s1: Seq<u8>, s2: Seq<u8>, n: int, i: int)
    requires
        0 <= i <= n,
        forall|j: int| 0 <= j < i ==> s1[j] == s2[j],
    ensures
        spec_memcmp_from(s1, s2, n, 0) == spec_memcmp_from(s1, s2, n, i),
    decreases i,
{
    if i > 0 {
        lemma_memcmp_skip(s1, s2, n, i - 1);
    }
}

/// Compare the first `n` bytes of two buffers: zero if they agree,
/// otherwise the difference at the first disagreement.
pub fn sol_memcmp(s1: &Vec<u8>, s2: &Vec<u8>, n: usize) -> (r: i32)
    requires
        n <= s1@.len(),
        n <= s2@.len(),
    ensures
        r as int == spec_memcmp_from(s1@, s2@, n as int, 0),
{
    let mut i: usize = 0;
    while i < n
        invariant
            i <= n <= s1@.len(),
            n <= s2@.len(),
            forall|j: int| 0 <= j < i ==> s1@[j] == s2@[j],
        decreases n - i,
    {
        let a = s1[i];
        let b = s2[i];
        if a != b {
            proof {
                lemma_memcmp_skip(s1@, s2@, n as int, i as int);
            }
            return a as i32 - b as i32;
        }
        i += 1;
    }
    proof {
        lemma_memcmp_skip(s1@, s2@, n as int, n as int);
    }
    0
}

/// Fill the first `n` bytes of the buffer with the given byte.
pub fn sol_memset(s: &mut Vec<u8>, c: u8, n: usize)
    requires
        n <= old(s)@.len(),
    ensures
        final(s)@.len() == old(s)@.len(),
        forall|i: int| 0 <= i < n ==> final(s)@[i] == c,
        forall|i: int| n <= i < old(s)@.len() ==> final(s)@[i] == old(s)@[i],
{
    let mut i: usize = 0;
    while i < n
        invariant
            i <= n <= s@.len(),
            s@.len() == old(s)@.len(),
            forall|j: int| 0 <= j < i ==> s@[j] == c,
            forall|j: int| i <= j < s@.len() ==> s@[j] == old(s)@[j],
        decreases n - i,
    {
        s[i] = c;
        i += 1;
    }
}

} // verus!
