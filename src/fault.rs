use vstd::prelude::*;

verus! {

/// Failures of the sketch rules that are decided on the structure of a
/// profile alone (counts, indices and curve kinds).
///
/// Measured details such as the width of a gap belong to the geometry
/// that runs around these rules; an open junction is reported here by its
/// index.
#[derive(Clone, Copy, Debug, PartialEq, Eq, Structural)]
pub enum SketchFault {
    /// A loop with no curves.
    EmptyLoop,
    /// The end of curve `index` does not meet the start of the next curve.
    OpenLoop { index: usize },
    /// A curve was too short, or a shape was asked for with too few sides.
    DegenerateCurve,
    /// A spline of degree `degree` needs `min` control points; it got `got`.
    InsufficientControlPoints { min: usize, degree: usize, got: usize },
    /// A drawing command came before any `move_to`.
    NoStartingPoint,
    /// `close` was called on a builder that holds no curve.
    CannotCloseEmpty,
    /// A full circle stands at `index` in a loop of two or more curves.
    CircleInMultiCurveLoop { index: usize },
}

} // verus!
