use vstd::prelude::*;

verus! {

/// The knot vector and control-point pattern of a circular arc written as
/// a degree-2 rational B-spline of `segments` pieces, each at most a
/// quarter turn.
///
/// Knots are given as numerators over `segments`: the curve runs over
/// `[0, 1]` and piece `i` over `[i / segments, (i + 1) / segments]`.
/// Control point `j` lies at the angle `j / 2` pieces from the start;
/// the points at odd `j` are the shoulders, carried at radius `r / w` with
/// weight `w`, and the points at even `j` lie on the arc with weight 1.
pub struct RationalArcLayout {
    pub segments: usize,
    pub knots: Vec<usize>,
    pub shoulders: Vec<bool>,
}

/// Knot `k` of an arc of `n` pieces: three at the start, a double knot at
/// each joint between pieces, three at the end.
pub open spec fn arc_knot(n: int, k: int) -> int {
    if k < 3 {
        0
    } else if k >= 2 * n + 1 {
        n
    } else {
        (k - 1) / 2
    }
}

/// The number of pieces for an arc that spans `quarter_turns` quarter
/// turns, rounded up: at least one.
pub open spec fn piece_count(quarter_turns: int) -> int {
    if quarter_turns < 1 {
        1
    } else {
        quarter_turns
    }
}

/// Lays out the rational arc for a sweep of `quarter_turns` quarter turns
/// (the magnitude of the sweep over a quarter turn, rounded up).
pub fn rational_arc_layout(quarter_turns: usize) -> (r: RationalArcLayout)
    requires
        2 * quarter_turns + 4 <= usize::MAX,
    ensures
        r.segments == piece_count(quarter_turns as int),
        r.knots@.len() == 2 * r.segments + 4,
        forall|k: int|
            0 <= k < r.knots@.len() ==> #[trigger] r.knots@[k] == arc_knot(r.segments as int, k),
        r.shoulders@.len() == 2 * r.segments + 1,
        forall|j: int| 0 <= j < r.shoulders@.len() ==> #[trigger] r.shoulders@[j] == (j % 2 == 1),
        r.knots@.len() == r.shoulders@.len() + 3,
{
    let n: usize = if quarter_turns < 1 {
        1
    } else {
        quarter_turns
    };
    let mut knots: Vec<usize> = Vec::new();
    knots.push(0);
    knots.push(0);
    knots.push(0);
    let mut shoulders: Vec<bool> = Vec::new();
    shoulders.push(false);
    let mut i: usize = 0;
    while i < n
        invariant
            1 <= n,
            2 * n + 4 <= usize::MAX,
            i <= n,
            knots@.len() == 2 * i + 3,
            shoulders@.len() == 2 * i + 1,
            forall|k: int| 0 <= k < knots@.len() ==> #[trigger] knots@[k] == arc_knot(n as int, k),
            forall|j: int| 0 <= j < shoulders@.len() ==> #[trigger] shoulders@[j] == (j % 2 == 1),
        decreases n - i,
    {
        knots.push(i + 1);
        knots.push(i + 1);
        shoulders.push(true);
        shoulders.push(false);
        i += 1;
    }
    knots.push(n);
    RationalArcLayout { segments: n, knots, shoulders }
}

} // verus!
