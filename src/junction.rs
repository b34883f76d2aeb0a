use vstd::prelude::*;

use crate::fault::SketchFault;

verus! {

/// The index of the curve whose start meets the end of curve `i` in a
/// cyclic loop of `n` curves. With `n == 1` the single curve meets itself.
pub open spec fn next_index(i: int, n: int) -> int {
    (i + 1) % n
}

/// No junction of the loop is open.
pub open spec fn all_closed(open: Seq<bool>) -> bool {
    forall|i: int| 0 <= i < open.len() ==> !open[i]
}

/// `k` is the first open junction.
pub open spec fn first_open(open: Seq<bool>, k: int) -> bool {
    &&& 0 <= k < open.len()
    &&& open[k]
    &&& forall|j: int| 0 <= j < k ==> !open[j]
}

/// What validating a loop reports, given for each junction `i` (the end of
/// curve `i` against the start of curve `next_index(i, n)`) whether its gap
/// exceeds the tolerance.
pub open spec fn junction_verdict(open: Seq<bool>) -> Result<(), SketchFault> {
    if open.len() == 0 {
        Err(SketchFault::EmptyLoop)
    } else if all_closed(open) {
        Ok(())
    } else {
        Err(SketchFault::OpenLoop { index: (choose|k: int| first_open(open, k)) as usize })
    }
}

/// At most one junction is the first open one.
pub proof fn lemma_first_open_unique(open: Seq<bool>, a: int, b: int)
    requires
        first_open(open, a),
        first_open(open, b),
    ensures
        a == b,
{
    if a < b {
        assert(!open[a]);
    } else if b < a {
        assert(!open[b]);
    }
}

/// Index of the curve that follows curve `i` in a loop of `n` curves.
pub fn next_junction(i: usize, n: usize) -> (r: usize)
    requires
        i < n,
    ensures
        r as int == next_index(i as int, n as int),
        r < n,
{
    if i + 1 == n {
        proof {
            vstd::arithmetic::div_mod::lemma_mod_self_0(n as int);
        }
        0
    } else {
        proof {
            vstd::arithmetic::div_mod::lemma_small_mod((i + 1) as nat, n as nat);
        }
        i + 1
    }
}

/// Decides whether a loop is closed: an empty loop is refused, otherwise
/// the first junction whose gap exceeds the tolerance is reported.
pub fn check_junctions(open: &Vec<bool>) -> (r: Result<(), SketchFault>)
    ensures
        r == junction_verdict(open@),
        r is Ok <==> (open@.len() > 0 && all_closed(open@)),
        r matches Err(SketchFault::OpenLoop { index }) ==> first_open(open@, index as int),
{
    if open.len() == 0 {
        return Err(SketchFault::EmptyLoop);
    }
    let mut i: usize = 0;
    while i < open.len()
        invariant
            i <= open@.len(),
            forall|j: int| 0 <= j < i ==> !open@[j],
        decreases open@.len() - i,
    {
        if open[i] {
            proof {
                assert(first_open(open@, i as int));
                let k = choose|k: int| first_open(open@, k);
                lemma_first_open_unique(open@, i as int, k);
            }
            return Err(SketchFault::OpenLoop { index: i });
        }
        i += 1;
    }
    Ok(())
}

/// How the gap at one junction compares with the two healing thresholds.
#[derive(Clone, Copy, Debug, PartialEq, Eq, Structural)]
pub enum GapClass {
    /// Within the point tolerance: the curves already meet.
    Coincident,
    /// Above the point tolerance and within the healing tolerance.
    Healable,
    /// Above the healing tolerance: left open.
    Wide,
}

/// Junction `i` is snapped by healing: the loop has two or more curves and
/// the gap there is healable.
pub open spec fn heals_junction(classes: Seq<GapClass>, i: int) -> bool {
    &&& classes.len() >= 2
    &&& 0 <= i < classes.len()
    &&& classes[i] == GapClass::Healable
}

/// The junctions that healing snaps, in increasing order. Healing junction
/// `i` moves the start of curve `next_index(i, n)` onto the end of curve
/// `i`; the number of healed junctions is the length of the result.
pub fn heal_plan(classes: &Vec<GapClass>) -> (r: Vec<usize>)
    ensures
        forall|k: int, l: int| 0 <= k < l < r@.len() ==> r@[k] < r@[l],
        forall|k: int| 0 <= k < r@.len() ==> heals_junction(classes@, #[trigger] r@[k] as int),
        forall|i: int|
            heals_junction(classes@, i) ==> exists|k: int| 0 <= k < r@.len() && r@[k] == i,
{
    let mut r: Vec<usize> = Vec::new();
    if classes.len() < 2 {
        return r;
    }
    let mut i: usize = 0;
    while i < classes.len()
        invariant
            2 <= classes@.len(),
            i <= classes@.len(),
            forall|k: int, l: int| 0 <= k < l < r@.len() ==> r@[k] < r@[l],
            forall|k: int| 0 <= k < r@.len() ==> r@[k] < i,
            forall|k: int| 0 <= k < r@.len() ==> heals_junction(classes@, #[trigger] r@[k] as int),
            forall|j: int|
                0 <= j < i && heals_junction(classes@, j) ==> exists|k: int|
                    0 <= k < r@.len() && r@[k] == j,
        decreases classes@.len() - i,
    {
        if classes[i] == GapClass::Healable {
            let ghost before = r@;
            r.push(i);
            proof {
                assert forall|j: int|
                    0 <= j < i + 1 && heals_junction(classes@, j) implies exists|k: int|
                    0 <= k < r@.len() && r@[k] == j by {
                    if j < i {
                        let k = choose|k: int| 0 <= k < before.len() && before[k] == j;
                        assert(r@[k] == j);
                    } else {
                        assert(r@[before.len() as int] == j);
                    }
                }
            }
        }
        i += 1;
    }
    r
}

} // verus!
