use vstd::prelude::*;

use crate::fault::SketchFault;

verus! {

/// What building a B-spline of `degree` from `count` control points
/// reports: it needs at least `degree + 1` of them.
pub open spec fn control_point_verdict(count: nat, degree: nat) -> Result<(), SketchFault> {
    if count < degree + 1 {
        Err(
            SketchFault::InsufficientControlPoints {
                min: (degree + 1) as usize,
                degree: degree as usize,
                got: count as usize,
            },
        )
    } else {
        Ok(())
    }
}

/// Checks that `count` control points carry a B-spline of `degree`.
pub fn check_control_points(count: usize, degree: usize) -> (r: Result<(), SketchFault>)
    requires
        degree < usize::MAX,
    ensures
        r == control_point_verdict(count as nat, degree as nat),
{
    if count < degree + 1 {
        Err(SketchFault::InsufficientControlPoints { min: degree + 1, degree, got: count })
    } else {
        Ok(())
    }
}

/// The degree used to run a spline through `count` points when `degree`
/// is asked for: at least two points are needed, and the degree is lowered
/// to `count - 1` when there are too few points for it.
pub fn interpolation_degree(count: usize, degree: usize) -> (r: Result<usize, SketchFault>)
    ensures
        count < 2 ==> r == Err::<usize, SketchFault>(
            SketchFault::InsufficientControlPoints { min: 2, degree, got: count },
        ),
        count >= 2 ==> r == Ok::<usize, SketchFault>(
            if degree < count - 1 {
                degree
            } else {
                (count - 1) as usize
            },
        ),
        r matches Ok(d) ==> control_point_verdict(count as nat, d as nat) is Ok,
{
    if count < 2 {
        return Err(SketchFault::InsufficientControlPoints { min: 2, degree, got: count });
    }
    if degree < count - 1 {
        Ok(degree)
    } else {
        Ok(count - 1)
    }
}

/// Checks the number of sides asked of a regular polygon: at least three.
pub fn check_polygon_sides(sides: usize) -> (r: Result<(), SketchFault>)
    ensures
        r is Ok <==> sides >= 3,
        r is Err ==> r == Err::<(), SketchFault>(SketchFault::DegenerateCurve),
{
    if sides < 3 {
        Err(SketchFault::DegenerateCurve)
    } else {
        Ok(())
    }
}

} // verus!
