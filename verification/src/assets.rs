//! Where a discovered static asset lands in the output tree.
//!
//! The asset walk hands over each found source path split into its
//! components together with its depth below the walked root; the part of
//! the path that is kept under the output directory is exactly the last
//! `depth` components.

use vstd::prelude::*;

verus! {

/// The last `depth` components of a discovered path: its position
/// relative to the walked root, to be joined under the output directory.
pub fn relative_tail(components: &Vec<String>, depth: usize) -> (r: Vec<String>)
    requires
        depth <= components@.len(),
    ensures
        r@.len() == depth,
        forall|i: int|
            0 <= i < depth ==> #[trigger] r@[i]@ == components@[components@.len() - depth + i]@,
{
    let start = components.len() - depth;
    let mut r: Vec<String> = Vec::new();
    let mut k: usize = start;
    while k < components.len()
        invariant
            start == components@.len() - depth,
            start <= k <= components@.len(),
            r@.len() == k - start,
            forall|i: int| 0 <= i < k - start ==> #[trigger] r@[i]@ == components@[start + i]@,
        decreases components@.len() - k,
    {
        r.push(components[k].clone());
        k = k + 1;
    }
    r
}

} // verus!
