//! Comparing rendered images with their golden references.
//!
//! Images are compared as 8-bit RGB buffers (three bytes per pixel, row
//! after row); the share of differing pixels is what the caller reports.

use vstd::prelude::*;

verus! {

/// Whether pixel `i` differs between two RGB buffers.
pub open spec fn pixel_differs(a: Seq<u8>, b: Seq<u8>, i: int) -> bool {
    a[3 * i] != b[3 * i] || a[3 * i + 1] != b[3 * i + 1] || a[3 * i + 2] != b[3 * i + 2]
}

/// The number of pixels among the first `n` that differ.
pub open spec fn differing_count(a: Seq<u8>, b: Seq<u8>, n: int) -> nat
    decreases n,
{
    if n <= 0 {
        0
    } else {
        differing_count(a, b, n - 1) + if pixel_differs(a, b, n - 1) { 1nat } else { 0nat }
    }
}

/// The number of pixels that differ between two RGB buffers of the same size.
pub fn differing_pixels(a: &[u8], b: &[u8]) -> (n: u64)
    requires
        a@.len() == b@.len(),
        a@.len() % 3 == 0,
    ensures
        n == differing_count(a@, b@, (a@.len() / 3) as int),
{
    let pixels = a.len() / 3;
    let mut n: u64 = 0;
    let mut i: usize = 0;
    let mut k: usize = 0;
    while i < pixels
        invariant
            a@.len() == b@.len(),
            pixels == a@.len() / 3,
            a@.len() % 3 == 0,
            i <= pixels,
            k == 3 * i,
            n == differing_count(a@, b@, i as int),
            n <= i,
        decreases pixels - i,
    {
        assert(k + 3 <= a@.len());
        if a[k] != b[k] || a[k + 1] != b[k + 1] || a[k + 2] != b[k + 2] {
            n = n + 1;
        }
        i = i + 1;
        k = k + 3;
    }
    n
}

/// No pixel among the first `n` differs exactly when each of them has the
/// same three channels in both buffers.
proof fn lemma_count_zero(a: Seq<u8>, b: Seq<u8>, n: int)
    requires
        0 <= n,
        3 * n <= a.len(),
        3 * n <= b.len(),
    ensures
        (differing_count(a, b, n) == 0) <==> (forall|i: int| 0 <= i < 3 * n ==> a[i] == b[i]),
    decreases n,
{
    if n > 0 {
        lemma_count_zero(a, b, n - 1);
        if differing_count(a, b, n) == 0 {
            assert forall|i: int| 0 <= i < 3 * n implies a[i] == b[i] by {
                if i >= 3 * (n - 1) {
                    assert(!pixel_differs(a, b, n - 1));
                }
            }
        }
        if forall|i: int| 0 <= i < 3 * n ==> a[i] == b[i] {
            assert(a[3 * (n - 1)] == b[3 * (n - 1)]);
            assert(a[3 * (n - 1) + 1] == b[3 * (n - 1) + 1]);
            assert(a[3 * (n - 1) + 2] == b[3 * (n - 1) + 2]);
        }
    }
}

/// At most every pixel differs, and comparing in either order counts the same.
proof fn lemma_count_bounds(a: Seq<u8>, b: Seq<u8>, n: int)
    requires
        0 <= n,
    ensures
        differing_count(a, b, n) <= n,
        differing_count(a, b, n) == differing_count(b, a, n),
    decreases n,
{
    if n > 0 {
        lemma_count_bounds(a, b, n - 1);
    }
}

/// A pixel differs exactly when its RGB triples differ: a difference in any
/// one channel, red, green or blue, makes the pixel count.
pub proof fn lemma_pixel_differs_on_any_channel(a: Seq<u8>, b: Seq<u8>, i: int)
    requires
        0 <= i,
        3 * i + 3 <= a.len(),
        3 * i + 3 <= b.len(),
    ensures
        pixel_differs(a, b, i) <==> a.subrange(3 * i, 3 * i + 3) != b.subrange(3 * i, 3 * i + 3),
{
    let x = a.subrange(3 * i, 3 * i + 3);
    let y = b.subrange(3 * i, 3 * i + 3);
    if x == y {
        assert(x[0] == y[0] && x[1] == y[1] && x[2] == y[2]);
    }
    if !pixel_differs(a, b, i) {
        assert(x =~= y);
    }
}

/// Two RGB buffers of one size have no differing pixel exactly when they
/// are equal; the count is at most the number of pixels and does not depend
/// on which buffer comes first.
pub proof fn lemma_no_differing_pixels_iff_equal(a: Seq<u8>, b: Seq<u8>)
    requires
        a.len() == b.len(),
        a.len() % 3 == 0,
    ensures
        (differing_count(a, b, (a.len() / 3) as int) == 0) <==> a == b,
        differing_count(a, b, (a.len() / 3) as int) <= a.len() / 3,
        differing_count(a, b, (a.len() / 3) as int) == differing_count(b, a, (a.len() / 3) as int),
{
    let n = (a.len() / 3) as int;
    lemma_count_zero(a, b, n);
    lemma_count_bounds(a, b, n);
    assert(3 * n == a.len());
    if differing_count(a, b, n) == 0 {
        assert(a =~= b);
    }
}

} // verus!
