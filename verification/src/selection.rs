//! Which finalized header the finality pipeline submits next.
//!
//! The pipeline does not relay every finalized header. It takes the newest
//! one that the target can verify, and it never jumps over a header that
//! closes an authority set: the target cannot verify anything behind such a
//! header before it has accepted the header itself.

use vstd::prelude::*;
use crate::types::{SourceHeader, TargetChainState};

verus! {

/// `c` lies above what the target has accepted.
pub open spec fn is_newer(t: TargetChainState, c: SourceHeader) -> bool {
    c.header.height > t.last_accepted.height
}

/// A proof of `c` spans at most `max` changes of the authority set, counted
/// from the set that the target expects.
pub open spec fn within_transitions(t: TargetChainState, c: SourceHeader, max: u32) -> bool {
    &&& t.authority_set_id <= c.header.authority_set
    &&& c.header.authority_set - t.authority_set_id <= max
}

/// `c` could be submitted if nothing had to go first.
pub open spec fn submittable(t: TargetChainState, c: SourceHeader, max: u32) -> bool {
    &&& is_newer(t, c)
    &&& c.has_justification
    &&& within_transitions(t, c, max)
}

/// `b` closes an authority set and the target has not accepted it yet.
pub open spec fn is_boundary_ahead(t: TargetChainState, b: SourceHeader) -> bool {
    is_newer(t, b) && b.changes_authority_set
}

/// `c` lies behind the boundary `b`, which the target has not accepted yet.
pub open spec fn is_behind_boundary(t: TargetChainState, b: SourceHeader, c: SourceHeader) -> bool {
    is_boundary_ahead(t, b) && b.header.height < c.header.height
}

/// The header at `i` can be submitted now: it is submittable and no
/// boundary that is still ahead of the target lies below it.
pub open spec fn admissible(t: TargetChainState, cands: Seq<SourceHeader>, max: u32, i: int) -> bool {
    &&& 0 <= i < cands.len()
    &&& submittable(t, cands[i], max)
    &&& forall|j: int| 0 <= j < cands.len() ==> !is_behind_boundary(t, #[trigger] cands[j], cands[i])
}

/// The header at `i` is taken before the one at `j`: the higher one wins,
/// and of two at one height the one that comes first.
pub open spec fn preferred(cands: Seq<SourceHeader>, i: int, j: int) -> bool {
    ||| cands[j].header.height < cands[i].header.height
    ||| (cands[j].header.height == cands[i].header.height && i <= j)
}

/// `r` is the choice of the skip policy: the admissible header that is
/// preferred to every other admissible one, or nothing where none is
/// admissible.
pub open spec fn is_selection(t: TargetChainState, cands: Seq<SourceHeader>, max: u32, r: Option<int>) -> bool {
    match r {
        Some(i) => {
            &&& admissible(t, cands, max, i)
            &&& forall|j: int| #[trigger] admissible(t, cands, max, j) ==> preferred(cands, i, j)
        },
        None => forall|j: int| !#[trigger] admissible(t, cands, max, j),
    }
}

/// The choice of the skip policy among `cands`, as a position in `cands`.
/// There is exactly one.
pub open spec fn spec_select(t: TargetChainState, cands: Seq<SourceHeader>, max: u32) -> Option<int> {
    choose|r: Option<int>| is_selection(t, cands, max, r)
}

/// A position in a vector, as a position in its view.
pub open spec fn spec_position(choice: Option<usize>) -> Option<int> {
    match choice {
        Some(i) => Some(i as int),
        None => None,
    }
}

/// `limit` is the height of the lowest boundary ahead of the target among
/// the first `n` headers, if there is one.
pub open spec fn is_first_boundary_upto(t: TargetChainState, cands: Seq<SourceHeader>, n: int, limit: Option<u64>) -> bool {
    match limit {
        Some(l) => {
            &&& exists|j: int| 0 <= j < n && is_boundary_ahead(t, #[trigger] cands[j]) && cands[j].header.height == l
            &&& forall|j: int| 0 <= j < n && is_boundary_ahead(t, #[trigger] cands[j]) ==> cands[j].header.height >= l
        },
        None => forall|j: int| 0 <= j < n ==> !is_boundary_ahead(t, #[trigger] cands[j]),
    }
}

/// `limit` is the height of the lowest boundary ahead of the target, if
/// there is one.
pub open spec fn is_first_boundary(t: TargetChainState, cands: Seq<SourceHeader>, limit: Option<u64>) -> bool {
    is_first_boundary_upto(t, cands, cands.len() as int, limit)
}

/// The height of the lowest header among `candidates` that closes an
/// authority set and lies above what the target has accepted.
pub fn first_boundary(target: &TargetChainState, candidates: &Vec<SourceHeader>) -> (limit: Option<u64>)
    ensures
        is_first_boundary(*target, candidates@, limit),
{
    let mut limit: Option<u64> = None;
    let mut i: usize = 0;
    while i < candidates.len()
        invariant
            0 <= i <= candidates.len(),
            is_first_boundary_upto(*target, candidates@, i as int, limit),
        decreases candidates.len() - i,
    {
        let c = &candidates[i];
        if c.header.height > target.last_accepted.height && c.changes_authority_set {
            let lower: bool = match limit {
                Some(l) => c.header.height < l,
                None => true,
            };
            if lower {
                limit = Some(c.header.height);
            }
        }
        i = i + 1;
    }
    limit
}

/// With the lowest boundary known, a header is admissible exactly when it
/// is submittable and does not lie above that boundary.
pub proof fn lemma_admissible_by_limit(t: TargetChainState, cands: Seq<SourceHeader>, max: u32, limit: Option<u64>, i: int)
    requires
        is_first_boundary(t, cands, limit),
        0 <= i < cands.len(),
    ensures
        admissible(t, cands, max, i) <==> (submittable(t, cands[i], max) && match limit {
            Some(l) => cands[i].header.height <= l,
            None => true,
        }),
{
    match limit {
        Some(l) => {
            let w = choose|j: int| 0 <= j < cands.len() && is_boundary_ahead(t, #[trigger] cands[j]) && cands[j].header.height == l;
            if admissible(t, cands, max, i) {
                assert(!is_behind_boundary(t, cands[w], cands[i]));
            }
        },
        None => {},
    }
}

/// Whether `c` may be submitted with respect to the target's state alone.
pub fn is_submittable(target: &TargetChainState, c: &SourceHeader, max_set_transitions: u32) -> (ok: bool)
    ensures
        ok == submittable(*target, *c, max_set_transitions),
{
    c.header.height > target.last_accepted.height && c.has_justification
        && target.authority_set_id <= c.header.authority_set
        && c.header.authority_set - target.authority_set_id <= max_set_transitions as u64
}

/// The position in `candidates` of the header to submit next, or `None`
/// where nothing can be submitted now.
///
/// The choice is the newest header that is above the target's last accepted
/// header, has a justification, and spans no more changes of the authority
/// set than `max_set_transitions`; but a header that closes an authority
/// set bars every header above it until the target has accepted it.
pub fn select_next(target: &TargetChainState, candidates: &Vec<SourceHeader>, max_set_transitions: u32) -> (choice: Option<usize>)
    ensures
        is_selection(*target, candidates@, max_set_transitions, spec_position(choice)),
        spec_position(choice) == spec_select(*target, candidates@, max_set_transitions),
        choice matches Some(i) ==> i < candidates.len()
            && candidates[i as int].header.height > target.last_accepted.height
            && candidates[i as int].has_justification,
{
    let limit = first_boundary(target, candidates);
    let mut best: Option<usize> = None;
    let mut i: usize = 0;
    while i < candidates.len()
        invariant
            0 <= i <= candidates.len(),
            is_first_boundary(*target, candidates@, limit),
            match best {
                Some(b) => {
                    &&& b < i
                    &&& admissible(*target, candidates@, max_set_transitions, b as int)
                    &&& forall|j: int| 0 <= j < i && #[trigger] admissible(*target, candidates@, max_set_transitions, j)
                        ==> preferred(candidates@, b as int, j)
                },
                None => forall|j: int| 0 <= j < i ==> !#[trigger] admissible(*target, candidates@, max_set_transitions, j),
            },
        decreases candidates.len() - i,
    {
        let c = &candidates[i];
        let below_limit: bool = match limit {
            Some(l) => c.header.height <= l,
            None => true,
        };
        proof {
            lemma_admissible_by_limit(*target, candidates@, max_set_transitions, limit, i as int);
        }
        if below_limit && is_submittable(target, c, max_set_transitions) {
            let better: bool = match best {
                Some(b) => c.header.height > candidates[b].header.height,
                None => true,
            };
            if better {
                best = Some(i);
            }
        }
        i = i + 1;
    }
    proof {
        lemma_selection_unique(
            *target,
            candidates@,
            max_set_transitions,
            spec_position(best),
            spec_select(*target, candidates@, max_set_transitions),
        );
    }
    best
}

/// For every target state and every list of headers the policy has a
/// choice, and `spec_select` is that choice.
pub proof fn lemma_selection_exists(t: TargetChainState, cands: Seq<SourceHeader>, max: u32)
    ensures
        is_selection(t, cands, max, spec_select(t, cands, max)),
{
    let r = find_selection(t, cands, max, cands.len());
    assert(is_selection(t, cands, max, r));
}

/// The choice among the first `n` headers, each of them judged against the
/// whole list.
pub open spec fn is_selection_upto(t: TargetChainState, cands: Seq<SourceHeader>, max: u32, n: nat, r: Option<int>) -> bool {
    match r {
        Some(i) => {
            &&& i < n
            &&& admissible(t, cands, max, i)
            &&& forall|j: int| 0 <= j < n && #[trigger] admissible(t, cands, max, j) ==> preferred(cands, i, j)
        },
        None => forall|j: int| 0 <= j < n ==> !#[trigger] admissible(t, cands, max, j),
    }
}

proof fn find_selection(t: TargetChainState, cands: Seq<SourceHeader>, max: u32, n: nat) -> (r: Option<int>)
    requires
        n <= cands.len(),
    ensures
        is_selection_upto(t, cands, max, n, r),
        n == cands.len() ==> is_selection(t, cands, max, r),
    decreases n,
{
    if n == 0 {
        None
    } else {
        let prev = find_selection(t, cands, max, (n - 1) as nat);
        let k = (n - 1) as int;
        if admissible(t, cands, max, k) {
            match prev {
                Some(b) => {
                    if cands[k].header.height > cands[b].header.height {
                        Some(k)
                    } else {
                        prev
                    }
                },
                None => Some(k),
            }
        } else {
            prev
        }
    }
}

/// Nothing at or below the target's last accepted height is ever chosen.
pub proof fn lemma_selection_is_newer(t: TargetChainState, cands: Seq<SourceHeader>, max: u32, i: int)
    requires
        is_selection(t, cands, max, Some(i)),
    ensures
        cands[i].header.height > t.last_accepted.height,
{
}

/// A header that closes an authority set goes before every header above
/// it: while the target has not accepted the boundary at `b`, the header
/// chosen is never higher than that boundary.
pub proof fn lemma_boundary_goes_first(t: TargetChainState, cands: Seq<SourceHeader>, max: u32, i: int, b: int)
    requires
        is_selection(t, cands, max, Some(i)),
        0 <= b < cands.len(),
        is_boundary_ahead(t, cands[b]),
    ensures
        cands[i].header.height <= cands[b].header.height,
{
    assert(!is_behind_boundary(t, cands[b], cands[i]));
}

/// Where the lowest boundary ahead of the target can itself be submitted,
/// a header of exactly that height is chosen, however many newer headers
/// there are.
pub proof fn lemma_boundary_is_chosen(t: TargetChainState, cands: Seq<SourceHeader>, max: u32, r: Option<int>, b: int)
    requires
        is_selection(t, cands, max, r),
        0 <= b < cands.len(),
        is_boundary_ahead(t, cands[b]),
        submittable(t, cands[b], max),
        forall|j: int| 0 <= j < cands.len() && is_boundary_ahead(t, #[trigger] cands[j])
            ==> cands[j].header.height >= cands[b].header.height,
    ensures
        r matches Some(i) && cands[i].header.height == cands[b].header.height,
{
    assert(admissible(t, cands, max, b));
    let i = r.unwrap();
    assert(preferred(cands, i, b));
    assert(!is_behind_boundary(t, cands[b], cands[i]));
}

/// Where no boundary lies ahead of the target, the choice is the highest
/// header that can be submitted: every header in between is skipped.
pub proof fn lemma_skips_to_newest(t: TargetChainState, cands: Seq<SourceHeader>, max: u32, r: Option<int>, k: int)
    requires
        is_selection(t, cands, max, r),
        forall|j: int| 0 <= j < cands.len() ==> !is_boundary_ahead(t, #[trigger] cands[j]),
        0 <= k < cands.len(),
        submittable(t, cands[k], max),
    ensures
        r matches Some(i) && cands[i].header.height >= cands[k].header.height,
{
    assert(admissible(t, cands, max, k));
    let i = r.unwrap();
    assert(preferred(cands, i, k));
}

/// Headers are submitted in ascending order: once the target stands at a
/// header that was chosen, or above it, whatever is chosen next is
/// higher.
pub proof fn lemma_submissions_ascend(t1: TargetChainState, c1: Seq<SourceHeader>, i: int, t2: TargetChainState, c2: Seq<SourceHeader>, j: int, max: u32)
    requires
        is_selection(t1, c1, max, Some(i)),
        t2.last_accepted.height >= c1[i].header.height,
        is_selection(t2, c2, max, Some(j)),
    ensures
        c2[j].header.height > c1[i].header.height,
{
}

/// The choice is unique: two results that both satisfy the policy are the
/// same.
pub proof fn lemma_selection_unique(t: TargetChainState, cands: Seq<SourceHeader>, max: u32, r1: Option<int>, r2: Option<int>)
    requires
        is_selection(t, cands, max, r1),
        is_selection(t, cands, max, r2),
    ensures
        r1 == r2,
{
    match (r1, r2) {
        (Some(a), Some(b)) => {
            assert(preferred(cands, a, b));
            assert(preferred(cands, b, a));
        },
        (Some(a), None) => {
            assert(admissible(t, cands, max, a));
        },
        (None, Some(b)) => {
            assert(admissible(t, cands, max, b));
        },
        (None, None) => {},
    }
}

} // verus!
