use vstd::prelude::*;

use crate::fault::SketchFault;
use crate::junction::{next_index, next_junction};

verus! {

/// The kind of a planar curve in a loop.
#[derive(Clone, Copy, Debug, PartialEq, Eq, Structural)]
pub enum CurveKind {
    Line,
    Arc,
    Circle,
    BSpline,
}

/// The 3D curve that carries one edge of a wire.
#[derive(Clone, Copy, Debug, PartialEq, Eq, Structural)]
pub enum EdgeShape {
    /// A straight edge between its two vertices.
    Straight,
    /// A rational curve for a circular arc.
    CircularArc,
    /// One half of a full circle, as a rational curve sweeping half a turn.
    HalfCircle,
    /// A B-spline through the lifted control points.
    Spline,
}

/// One edge of a wire: it carries curve `curve` of the loop from vertex
/// `from` to vertex `to`.
#[derive(Clone, Copy, Debug, PartialEq, Eq, Structural)]
pub struct EdgePlan {
    pub curve: usize,
    pub from: usize,
    pub to: usize,
    pub shape: EdgeShape,
}

/// How a loop becomes a wire: `vertex_count` shared vertices, and the edges
/// in order.
///
/// In a loop of two or more curves, vertex `i` is the start of curve `i`.
/// A loop made of a single circle has two vertices, the start of the circle
/// and the point opposite it.
pub struct WirePlan {
    pub vertex_count: usize,
    pub edges: Vec<EdgePlan>,
}

/// The edge shape that carries a curve of the given kind in a loop of two
/// or more curves.
pub open spec fn shape_of(kind: CurveKind) -> EdgeShape {
    match kind {
        CurveKind::Line => EdgeShape::Straight,
        CurveKind::Arc => EdgeShape::CircularArc,
        CurveKind::Circle => EdgeShape::HalfCircle,
        CurveKind::BSpline => EdgeShape::Spline,
    }
}

/// `k` is the first circle of the loop.
pub open spec fn first_circle(kinds: Seq<CurveKind>, k: int) -> bool {
    &&& 0 <= k < kinds.len()
    &&& kinds[k] == CurveKind::Circle
    &&& forall|j: int| 0 <= j < k ==> kinds[j] != CurveKind::Circle
}

/// The loop holds no circle.
pub open spec fn no_circle(kinds: Seq<CurveKind>) -> bool {
    forall|j: int| 0 <= j < kinds.len() ==> kinds[j] != CurveKind::Circle
}

/// The edge that carries curve `i` of a loop of two or more curves: it runs
/// from the start vertex of curve `i` to the start vertex of the next curve.
pub open spec fn loop_edge(kinds: Seq<CurveKind>, i: int) -> EdgePlan {
    EdgePlan {
        curve: i as usize,
        from: i as usize,
        to: next_index(i, kinds.len() as int) as usize,
        shape: shape_of(kinds[i]),
    }
}

/// The two half circles of a loop made of one circle: out to the opposite
/// point and back.
pub open spec fn half_circle_edges() -> Seq<EdgePlan> {
    seq![
        EdgePlan { curve: 0, from: 0, to: 1, shape: EdgeShape::HalfCircle },
        EdgePlan { curve: 0, from: 1, to: 0, shape: EdgeShape::HalfCircle },
    ]
}

/// Every edge starts at the vertex where the previous edge ends, and every
/// vertex index is in range: the wire is closed and its edges share
/// vertices.
pub open spec fn connected(p: WirePlan) -> bool {
    let n = p.edges@.len();
    &&& n > 0
    &&& forall|i: int|
        0 <= i < n ==> #[trigger] p.edges@[i].to == p.edges@[next_index(i, n as int)].from
    &&& forall|i: int|
        0 <= i < n ==> p.edges@[i].from < p.vertex_count && #[trigger] p.edges@[i].to
            < p.vertex_count
}

/// Plans the wire of a loop from the kinds of its curves.
///
/// An empty loop is refused; a single curve must be a circle, which is
/// split into two half circles between two vertices; in a longer loop each
/// curve becomes one edge between the start vertices of itself and of the
/// next curve, and a circle there is refused.
pub fn plan_wire(kinds: &Vec<CurveKind>) -> (r: Result<WirePlan, SketchFault>)
    ensures
        kinds@.len() == 0 ==> r == Err::<WirePlan, SketchFault>(SketchFault::EmptyLoop),
        kinds@.len() == 1 && kinds@[0] != CurveKind::Circle ==> r == Err::<WirePlan, SketchFault>(
            SketchFault::OpenLoop { index: 0 },
        ),
        kinds@.len() == 1 && kinds@[0] == CurveKind::Circle ==> (r matches Ok(p) && p.vertex_count
            == 2 && p.edges@ == half_circle_edges()),
        kinds@.len() >= 2 ==> (r is Ok <==> no_circle(kinds@)),
        kinds@.len() >= 2 ==> (r matches Ok(p) ==> (p.vertex_count == kinds@.len()
            && p.edges@.len() == kinds@.len() && forall|i: int|
            0 <= i < kinds@.len() ==> #[trigger] p.edges@[i] == loop_edge(kinds@, i))),
        kinds@.len() >= 2 ==> (r matches Err(e) ==> (e matches SketchFault::CircleInMultiCurveLoop {
            index,
        } && first_circle(kinds@, index as int))),
        r matches Ok(p) ==> connected(p),
{
    let n = kinds.len();
    if n == 0 {
        return Err(SketchFault::EmptyLoop);
    }
    if n == 1 {
        if kinds[0] == CurveKind::Circle {
            let mut edges: Vec<EdgePlan> = Vec::new();
            edges.push(EdgePlan { curve: 0, from: 0, to: 1, shape: EdgeShape::HalfCircle });
            edges.push(EdgePlan { curve: 0, from: 1, to: 0, shape: EdgeShape::HalfCircle });
            let p = WirePlan { vertex_count: 2, edges };
            proof {
                assert(p.edges@ =~= half_circle_edges());
                vstd::arithmetic::div_mod::lemma_small_mod(1, 2);
                vstd::arithmetic::div_mod::lemma_mod_self_0(2);
            }
            return Ok(p);
        }
        return Err(SketchFault::OpenLoop { index: 0 });
    }
    let mut edges: Vec<EdgePlan> = Vec::new();
    let mut i: usize = 0;
    while i < n
        invariant
            n == kinds@.len(),
            n >= 2,
            i <= n,
            edges@.len() == i,
            forall|j: int| 0 <= j < i ==> kinds@[j] != CurveKind::Circle,
            forall|j: int| 0 <= j < i ==> #[trigger] edges@[j] == loop_edge(kinds@, j),
        decreases n - i,
    {
        let kind = kinds[i];
        let shape = match kind {
            CurveKind::Line => EdgeShape::Straight,
            CurveKind::Arc => EdgeShape::CircularArc,
            CurveKind::BSpline => EdgeShape::Spline,
            CurveKind::Circle => {
                proof {
                    assert(first_circle(kinds@, i as int));
                }
                return Err(SketchFault::CircleInMultiCurveLoop { index: i });
            },
        };
        let to = next_junction(i, n);
        edges.push(EdgePlan { curve: i, from: i, to, shape });
        i += 1;
    }
    let p = WirePlan { vertex_count: n, edges };
    proof {
        assert forall|j: int| 0 <= j < n implies #[trigger] p.edges@[j].to == p.edges@[next_index(
            j,
            n as int,
        )].from by {
            vstd::arithmetic::div_mod::lemma_mod_bound(j + 1, n as int);
        }
        assert forall|j: int| 0 <= j < n implies p.edges@[j].from < p.vertex_count
            && #[trigger] p.edges@[j].to < p.vertex_count by {
            vstd::arithmetic::div_mod::lemma_mod_bound(j + 1, n as int);
        }
    }
    Ok(p)
}

} // verus!
