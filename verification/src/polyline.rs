//! A line through a run of sample points, some of which may be missing
//! (off screen): consecutive present points are joined where the caller
//! accepts the segment, and the line breaks elsewhere.

use vstd::prelude::*;

verus! {

/// The segments drawn through the samples `pts`, given for each sample
/// `k > 0` whether the segment from sample `k - 1` to sample `k` is
/// accepted (`accepted[k]`; asked only where both samples are present).
pub open spec fn segments<P>(pts: Seq<Option<P>>, accepted: Seq<bool>) -> Seq<(P, P)>
    decreases pts.len(),
{
    if pts.len() < 2 {
        Seq::empty()
    } else {
        let earlier = segments(pts.drop_last(), accepted);
        let k = pts.len() - 1;
        match (pts[k - 1], pts[k]) {
            (Some(a), Some(b)) => if accepted[k] {
                earlier.push((a, b))
            } else {
                earlier
            },
            _ => earlier,
        }
    }
}

/// The segments of the line through `points`, in order: one from each
/// present sample to the next sample where that one is present too and
/// `joins(from, to)` accepts it.
pub fn polyline_segments<P: Copy, F: Fn(P, P) -> bool>(points: &Vec<Option<P>>, joins: &F) -> (segs:
    Vec<(P, P)>)
    requires
        forall|a: P, b: P| joins.requires((a, b)),
    ensures
        exists|accepted: Seq<bool>|
            {
                &&& accepted.len() == points@.len()
                &&& forall|k: int|
                    #![trigger accepted[k]]
                    1 <= k < points@.len() && points@[k - 1] is Some && points@[k] is Some
                        ==> joins.ensures((points@[k - 1]->0, points@[k]->0), accepted[k])
                &&& segs@ == segments(points@, accepted)
            },
{
    let mut segs: Vec<(P, P)> = Vec::new();
    let ghost mut accepted: Seq<bool> = seq![false];
    if points.len() == 0 {
        let ghost none: Seq<bool> = Seq::empty();
        assert(segs@ == segments(points@, none));
        assert(none.len() == points@.len());
        return segs;
    }
    let mut i: usize = 1;
    while i < points.len()
        invariant
            1 <= i <= points.len(),
            accepted.len() == i,
            forall|a: P, b: P| joins.requires((a, b)),
            forall|k: int|
                #![trigger accepted[k]]
                1 <= k < i && points@[k - 1] is Some && points@[k] is Some ==> joins.ensures(
                    (points@[k - 1]->0, points@[k]->0),
                    accepted[k],
                ),
            segs@ == segments(points@.take(i as int), accepted),
        decreases points.len() - i,
    {
        let ghost before = accepted;
        let mut joined = false;
        match (points[i - 1], points[i]) {
            (Some(a), Some(b)) => {
                joined = joins(a, b);
                if joined {
                    segs.push((a, b));
                }
            },
            _ => {},
        }
        proof {
            accepted = accepted.push(joined);
            let t = points@.take(i + 1);
            assert(t.drop_last() =~= points@.take(i as int));
            lemma_segments_ignore_later(points@.take(i as int), before, accepted);
            assert(t[i - 1] == points@[i - 1]);
            assert(t[i as int] == points@[i as int]);
        }
        i = i + 1;
    }
    assert(points@.take(points.len() as int) =~= points@);
    segs
}

/// Every segment of the line joins two neighbouring samples that are both
/// present and whose segment was accepted; a missing sample never ends a
/// segment, and the segments keep the samples' order.
pub proof fn lemma_segments_join_present_neighbours<P>(pts: Seq<Option<P>>, accepted: Seq<bool>)
    ensures
        segments(pts, accepted).len() <= pts.len(),
        forall|j: int|
            0 <= j < segments(pts, accepted).len() ==> exists|k: int|
                {
                    &&& 1 <= k < pts.len()
                    &&& accepted[k]
                    &&& pts[k - 1] == Some(#[trigger] segments(pts, accepted)[j].0)
                    &&& pts[k] == Some(segments(pts, accepted)[j].1)
                },
    decreases pts.len(),
{
    if pts.len() >= 2 {
        let d = pts.drop_last();
        lemma_segments_join_present_neighbours(d, accepted);
        let s = segments(pts, accepted);
        let e = segments(d, accepted);
        assert forall|j: int| 0 <= j < s.len() implies exists|k: int|
            {
                &&& 1 <= k < pts.len()
                &&& accepted[k]
                &&& pts[k - 1] == Some(#[trigger] s[j].0)
                &&& pts[k] == Some(s[j].1)
            } by {
            if j < e.len() {
                assert(s[j] == e[j]);
                let k = choose|k: int|
                    {
                        &&& 1 <= k < d.len()
                        &&& accepted[k]
                        &&& d[k - 1] == Some(#[trigger] e[j].0)
                        &&& d[k] == Some(e[j].1)
                    };
                assert(pts[k - 1] == d[k - 1] && pts[k] == d[k]);
            } else {
                let k = pts.len() - 1;
                assert(accepted[k]);
            }
        }
    }
}

/// No accepted segment is lost: for every pair of neighbouring samples that
/// are both present and whose segment was accepted, that segment is among
/// the segments of the line, wherever it lies along the run.
pub proof fn lemma_segments_are_complete<P>(pts: Seq<Option<P>>, accepted: Seq<bool>, k: int)
    requires
        1 <= k < pts.len(),
        pts[k - 1] is Some,
        pts[k] is Some,
        accepted[k],
    ensures
        segments(pts, accepted).contains((pts[k - 1]->0, pts[k]->0)),
    decreases pts.len(),
{
    let s = segments(pts, accepted);
    if k == pts.len() - 1 {
        assert(s[s.len() - 1] == (pts[k - 1]->0, pts[k]->0));
    } else {
        let d = pts.drop_last();
        lemma_segments_are_complete(d, accepted, k);
        let e = segments(d, accepted);
        let j = choose|j: int| 0 <= j < e.len() && e[j] == (d[k - 1]->0, d[k]->0);
        assert(s[j] == e[j]);
    }
}

/// The segments through a run of samples depend only on the answers given
/// for those samples.
proof fn lemma_segments_ignore_later<P>(pts: Seq<Option<P>>, a1: Seq<bool>, a2: Seq<bool>)
    requires
        pts.len() <= a1.len(),
        pts.len() <= a2.len(),
        forall|k: int| 0 <= k < pts.len() ==> a1[k] == a2[k],
    ensures
        segments(pts, a1) == segments(pts, a2),
    decreases pts.len(),
{
    if pts.len() >= 2 {
        lemma_segments_ignore_later(pts.drop_last(), a1, a2);
    }
}

} // verus!
