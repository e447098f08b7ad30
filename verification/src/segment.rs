//! The consumed text-segmentation interface: grapheme-cluster boundaries of
//! the query text, so that the edit cursor never splits a cluster.

use vstd::prelude::*;

use unicode_segmentation::UnicodeSegmentation;

verus! {

/// The lengths, in characters, of the grapheme clusters of a text, in order.
/// Cluster boundaries depend on the characters alone, so they can be named.
pub uninterp spec fn cluster_lens(s: Seq<char>) -> Seq<int>;

/// How many characters the first `k` clusters of a segmentation cover.
pub open spec fn cluster_span(ls: Seq<int>, k: int) -> int
    decreases k,
{
    if k <= 0 {
        0
    } else {
        cluster_span(ls, k - 1) + ls[k - 1]
    }
}

/// Whether character offset `i` is a grapheme-cluster boundary of `s`: the
/// start or the end of the text, or the end of an initial run of clusters.
pub open spec fn is_cluster_boundary(s: Seq<char>, i: int) -> bool {
    ||| i == 0
    ||| i == s.len()
    ||| exists|k: int|
        0 <= k <= cluster_lens(s).len() && #[trigger] cluster_span(cluster_lens(s), k) == i
}

/// Relies on unicode_segmentation's `graphemes`: the clusters partition the
/// text into nonempty runs of characters, so the last cluster of a nonempty
/// text holds between one character and all of them. Segmentation truncated
/// or restarted at a cluster boundary agrees with the whole text's clusters,
/// so a cluster ending at a boundary also begins at one, and re-segmenting
/// from there yields that same cluster first.
#[verifier::external_body]
pub(crate) fn last_cluster_len(q: &Vec<char>, end: usize) -> (r: usize)
    requires
        end <= q@.len(),
    ensures
        end > 0 ==> 1 <= r <= end && r as int == cluster_lens(q@.take(end as int)).last(),
        end == 0 ==> r == 0,
        end > 0 && is_cluster_boundary(q@, end as int) ==> is_cluster_boundary(q@, end - r)
            && cluster_lens(q@.skip(end - r)).first() == r as int,
{
    let s: String = q[..end].iter().collect();
    match s.graphemes(true).last() {
        Some(g) => g.chars().count(),
        None => 0,
    }
}

/// Relies on unicode_segmentation's `graphemes`: the clusters partition the
/// text into nonempty runs of characters, so the first cluster of a nonempty
/// text holds between one character and all of them. Segmentation truncated
/// or restarted at a cluster boundary agrees with the whole text's clusters,
/// so the cluster starting at a boundary ends at one, and the text truncated
/// there ends with that same cluster.
#[verifier::external_body]
pub(crate) fn first_cluster_len(q: &Vec<char>, start: usize) -> (r: usize)
    requires
        start <= q@.len(),
    ensures
        start < q@.len() ==> 1 <= r <= q@.len() - start && r as int == cluster_lens(
            q@.skip(start as int),
        ).first(),
        start >= q@.len() ==> r == 0,
        start < q@.len() && is_cluster_boundary(q@, start as int) ==> is_cluster_boundary(
            q@,
            start + r,
        ) && cluster_lens(q@.take(start + r)).last() == r as int,
{
    let s: String = q[start..].iter().collect();
    match s.graphemes(true).next() {
        Some(g) => g.chars().count(),
        None => 0,
    }
}

} // verus!
