//! Verified byte-buffer routines: the freestanding memory helpers the
//! program provides, stated over byte vectors.

use vstd::prelude::*;

verus! {

/// Fill the first `n` bytes of `dest` with `value`; later bytes keep
/// their contents.
pub fn memset(dest: &mut Vec<u8>, value: u8, n: usize)
    requires
        n <= old(dest).len(),
    ensures
        final(dest).len() == old(dest).len(),
        forall|i: int| 0 <= i < n ==> final(dest)@[i] == value,
        forall|i: int| n <= i < old(dest).len() ==> final(dest)@[i] == old(dest)@[i],
{
    let mut i: usize = 0;
    while i < n
        invariant
            i <= n,
            n <= dest.len(),
            dest.len() == old(dest).len(),
            forall|j: int| 0 <= j < i ==> dest@[j] == value,
            forall|j: int| i <= j < dest.len() ==> dest@[j] == old(dest)@[j],
        decreases n - i,
    {
        dest[i] = value;
        i += 1;
    }
}

/// Copy the first `n` bytes of `src` into the front of `dest`; later
/// bytes of `dest` keep their contents.
pub fn memcpy(dest: &mut Vec<u8>, src: &Vec<u8>, n: usize)
    requires
        n <= old(dest).len(),
        n <= src.len(),
    ensures
        final(dest).len() == old(dest).len(),
        forall|i: int| 0 <= i < n ==> final(dest)@[i] == src@[i],
        forall|i: int| n <= i < old(dest).len() ==> final(dest)@[i] == old(dest)@[i],
{
    let mut i: usize = 0;
    while i < n
        invariant
            i <= n,
            n <= dest.len(),
            n <= src.len(),
            dest.len() == old(dest).len(),
            forall|j: int| 0 <= j < i ==> dest@[j] == src@[j],
            forall|j: int| i <= j < dest.len() ==> dest@[j] == old(dest)@[j],
        decreases n - i,
    {
        let b: u8 = src[i];
        dest[i] = b;
        i += 1;
    }
}

/// The lexicographic comparison of the first `n` bytes of two
/// buffers, starting at position `i`: zero when they agree, else the
/// signed difference of the first bytes that differ.
pub open spec fn byte_cmp_from(a: Seq<u8>, b: Seq<u8>, n: int, i: int) -> int
    decreases n - i,
{
    if i >= n {
        0
    } else if a[i] != b[i] {
        a[i] - b[i]
    } else {
        byte_cmp_from(a, b, n, i + 1)
    }
}

/// The lexicographic comparison of the first `n` bytes of two
/// buffers.
pub open spec fn byte_cmp(a: Seq<u8>, b: Seq<u8>, n: int) -> int {
    byte_cmp_from(a, b, n, 0)
}

/// Compare the first `n` bytes of two buffers: zero when they agree,
/// else the signed difference of the first pair of bytes that differ.
pub fn memcmp(s1: &Vec<u8>, s2: &Vec<u8>, n: usize) -> (r: i32)
    requires
        n <= s1.len(),
        n <= s2.len(),
    ensures
        r == byte_cmp(s1@, s2@, n as int),
        (r == 0) <==> (forall|i: int| 0 <= i < n ==> s1@[i] == s2@[i]),
{
    let mut i: usize = 0;
    while i < n
        invariant
            i <= n,
            n <= s1.len(),
            n <= s2.len(),
            forall|j: int| 0 <= j < i ==> s1@[j] == s2@[j],
            byte_cmp(s1@, s2@, n as int) == byte_cmp_from(s1@, s2@, n as int, i as int),
        decreases n - i,
    {
        let a: u8 = s1[i];
        let b: u8 = s2[i];
        if a != b {
            let r: i32 = a as i32 - b as i32;
            return r;
        }
        i += 1;
    }
    0
}

} // verus!
