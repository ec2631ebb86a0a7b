//! The integer step of the scene BVH build: splitting a node's range of
//! triangle indices into the triangles whose centroid bin is at most the
//! chosen split bin and the rest. The bins come from floating-point centroids
//! and are given per triangle.

use vstd::prelude::*;

verus! {

/// Whether triangle `t` falls on the low side of the split.
pub open spec fn low_side(bins: Seq<u32>, t: u32, split_bin: u32) -> bool {
    bins[t as int] <= split_bin
}

/// The node's range `[start, end)` of `s` has its low-side triangles in
/// `[start, p)` and the others in `[p, end)`.
pub open spec fn split_at(s: Seq<u32>, bins: Seq<u32>, split_bin: u32, start: int, end: int, p: int) -> bool {
    &&& start <= p <= end
    &&& forall|k: int| start <= k < p ==> low_side(bins, #[trigger] s[k], split_bin)
    &&& forall|k: int| p <= k < end ==> !low_side(bins, #[trigger] s[k], split_bin)
}

/// The boundary kept inside the range, so that neither child is empty.
pub open spec fn clamp_mid(p: int, start: int, end: int) -> int {
    if p < start + 1 {
        start + 1
    } else if p > end - 1 {
        end - 1
    } else {
        p
    }
}

proof fn lemma_swap_multiset(s: Seq<u32>, i: int, j: int)
    requires
        0 <= i < s.len(),
        0 <= j < s.len(),
    ensures
        s.update(i, s[j]).update(j, s[i]).to_multiset() =~= s.to_multiset(),
{
    let s1 = s.update(i, s[j]);
    vstd::seq_lib::to_multiset_update(s, i, s[j]);
    vstd::seq_lib::to_multiset_update(s1, j, s[i]);
    broadcast use vstd::multiset::group_multiset_axioms, vstd::seq_lib::group_to_multiset_ensures;
    assert(s.contains(s[i]));
    assert(s.contains(s[j]));
    if i == j {
        assert(s.update(i, s[j]).update(j, s[i]) =~= s);
    } else {
        assert(s1[j] == s[j]);
        let m = s.to_multiset();
        assert(m.count(s[i]) > 0);
        assert forall|x: u32| #[trigger] m.insert(s[j]).remove(s[i]).insert(s[i]).remove(s[j]).count(x) == m.count(x) by {
        }
        assert(m.insert(s[j]).remove(s[i]).insert(s[i]).remove(s[j]) =~= m);
    }
}

/// Partitions the triangle indices of `[start, end)` in place around
/// `split_bin`, walking inwards from both ends and swapping misplaced pairs.
/// Returns the split point, moved inside the range if one side came out
/// empty. Entries outside the range are untouched and no index is lost or
/// duplicated.
pub fn partition_by_bin(tri_indices: &mut Vec<u32>, bins: &Vec<u32>, start: usize, end: usize, split_bin: u32) -> (mid: usize)
    requires
        start + 2 <= end,
        end <= old(tri_indices).len(),
        forall|k: int| start <= k < end ==> #[trigger] old(tri_indices)@[k] < bins.len(),
    ensures
        final(tri_indices).len() == old(tri_indices).len(),
        final(tri_indices)@.to_multiset() == old(tri_indices)@.to_multiset(),
        forall|k: int|
            0 <= k < old(tri_indices).len() && !(start <= k < end) ==> #[trigger] final(tri_indices)@[k]
                == old(tri_indices)@[k],
        exists|p: int|
            split_at(final(tri_indices)@, bins@, split_bin, start as int, end as int, p) && mid == clamp_mid(
                p,
                start as int,
                end as int,
            ),
{
    let ghost orig = tri_indices@;
    let mut i = start;
    let mut j = end - 1;
    while i <= j
        invariant_except_break
            i <= j + 1,
        invariant
            start <= i,
            j < end,
            start <= j + 1,
            end <= tri_indices.len(),
            tri_indices.len() == orig.len(),
            tri_indices@.to_multiset() == orig.to_multiset(),
            forall|k: int| 0 <= k < orig.len() && !(start <= k < end) ==> #[trigger] tri_indices@[k] == orig[k],
            forall|k: int| start <= k < end ==> #[trigger] tri_indices@[k] < bins.len(),
            forall|k: int| start <= k < i ==> low_side(bins@, #[trigger] tri_indices@[k], split_bin),
            forall|k: int| j < k < end ==> !low_side(bins@, #[trigger] tri_indices@[k], split_bin),
        ensures
            start <= i <= end,
            tri_indices.len() == orig.len(),
            tri_indices@.to_multiset() == orig.to_multiset(),
            forall|k: int| 0 <= k < orig.len() && !(start <= k < end) ==> #[trigger] tri_indices@[k] == orig[k],
            split_at(tri_indices@, bins@, split_bin, start as int, end as int, i as int),
        decreases j + 1 - i,
    {
        let ti = tri_indices[i];
        if bins[ti as usize] <= split_bin {
            i = i + 1;
        } else {
            let tj = tri_indices[j];
            if bins[tj as usize] > split_bin {
                if j == 0 {
                    break;
                }
                j = j - 1;
            } else {
                let ghost before = tri_indices@;
                tri_indices.set(i, tj);
                tri_indices.set(j, ti);
                proof {
                    lemma_swap_multiset(before, i as int, j as int);
                    assert(tri_indices@ == before.update(i as int, before[j as int]).update(j as int, before[i as int]));
                }
                i = i + 1;
                if j == 0 {
                    break;
                }
                j = j - 1;
            }
        }
    }
    let lo = start + 1;
    let hi = end - 1;
    let mid = if i < lo {
        lo
    } else if i > hi {
        hi
    } else {
        i
    };
    assert(split_at(tri_indices@, bins@, split_bin, start as int, end as int, i as int) && mid == clamp_mid(
        i as int,
        start as int,
        end as int,
    ));
    mid
}

} // verus!
