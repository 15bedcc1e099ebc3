//! Which star a tap selects, and where the selected star stands among the
//! stars drawn in the current frame.

use vstd::prelude::*;

verus! {

/// A star drawn in the current frame, as the tap selection sees it.
#[derive(Clone, Copy, Debug, PartialEq, Eq)]
pub struct TapCandidate {
    /// The star's index in the catalog.
    pub index: usize,
    /// Whether the star lies within the selection radius of the tap.
    pub within_reach: bool,
    /// The star's distance from the tap as a key whose order is the
    /// distances' order (smaller key, closer star).
    pub distance_key: u32,
}

/// Candidate `p` is the one a tap selects: it is within reach, no candidate
/// within reach is closer, and every candidate within reach before it is
/// farther (the first of the closest wins).
pub open spec fn is_selected_candidate(c: Seq<TapCandidate>, p: int) -> bool {
    &&& 0 <= p < c.len()
    &&& c[p].within_reach
    &&& forall|q: int|
        0 <= q < c.len() && #[trigger] c[q].within_reach ==> c[p].distance_key <= c[q].distance_key
    &&& forall|q: int|
        0 <= q < p && #[trigger] c[q].within_reach ==> c[p].distance_key < c[q].distance_key
}

/// Some candidate lies within reach of the tap.
pub open spec fn any_within_reach(c: Seq<TapCandidate>) -> bool {
    exists|q: int| 0 <= q < c.len() && #[trigger] c[q].within_reach
}

/// The catalog index of the star that a tap selects: the closest of the
/// stars within reach, the first of them where several are equally close;
/// `None` where no star is within reach.
pub fn select_tapped_star(candidates: &Vec<TapCandidate>) -> (r: Option<usize>)
    ensures
        r is None <==> !any_within_reach(candidates@),
        r matches Some(i) ==> exists|p: int|
            is_selected_candidate(candidates@, p) && #[trigger] candidates@[p].index == i,
{
    let mut best: Option<usize> = None;
    let mut i: usize = 0;
    while i < candidates.len()
        invariant
            i <= candidates.len(),
            best is None <==> !any_within_reach(candidates@.take(i as int)),
            best matches Some(p) ==> p < i && is_selected_candidate(
                candidates@.take(i as int),
                p as int,
            ),
        decreases candidates.len() - i,
    {
        let c = candidates[i];
        let ghost prefix = candidates@.take(i as int);
        let ghost next = candidates@.take(i + 1);
        assert(next =~= prefix.push(c));
        if c.within_reach {
            match best {
                None => {
                    best = Some(i);
                },
                Some(p) => {
                    if c.distance_key < candidates[p].distance_key {
                        best = Some(i);
                    }
                },
            }
        }
        i = i + 1;
        proof {
            if c.within_reach {
                assert(next[next.len() - 1].within_reach);
            }
        }
    }
    assert(candidates@.take(candidates.len() as int) =~= candidates@);
    match best {
        None => None,
        Some(p) => {
            Some(candidates[p].index)
        },
    }
}

/// The position, among the stars drawn this frame (given by their catalog
/// indices), of the selected star: the first entry with its index; `None`
/// where no star is selected or the selected star is not drawn.
pub fn selected_entry(selected: Option<usize>, drawn: &Vec<usize>) -> (r: Option<usize>)
    ensures
        selected is None ==> r is None,
        selected matches Some(s) ==> match r {
            Some(p) => p < drawn@.len() && drawn@[p as int] == s && forall|q: int|
                0 <= q < p ==> drawn@[q] != s,
            None => forall|q: int| 0 <= q < drawn@.len() ==> drawn@[q] != s,
        },
{
    match selected {
        None => None,
        Some(s) => {
            let mut i: usize = 0;
            while i < drawn.len()
                invariant
                    i <= drawn.len(),
                    selected == Some(s),
                    forall|q: int| 0 <= q < i ==> drawn@[q] != s,
                decreases drawn.len() - i,
            {
                if drawn[i] == s {
                    return Some(i);
                }
                i = i + 1;
            }
            None
        },
    }
}

/// The tap selects at most one candidate.
pub proof fn lemma_selected_candidate_is_unique(c: Seq<TapCandidate>, p1: int, p2: int)
    requires
        is_selected_candidate(c, p1),
        is_selected_candidate(c, p2),
    ensures
        p1 == p2,
{
    if p1 < p2 {
        assert(c[p1].within_reach);
    } else if p2 < p1 {
        assert(c[p2].within_reach);
    }
}

} // verus!
