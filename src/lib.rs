// The structural rules of planar sketch profiles: which junctions of a loop
// are checked and healed, how a loop is wired into shared-vertex edges, how
// a circular arc is laid out as a rational B-spline, and when a builder may
// draw and close. The geometry that measures gaps and places points runs
// around these rules and hands them counts, flags and curve kinds.
use vstd::prelude::*;

pub mod arc_layout;
pub mod drawing;
pub mod fault;
pub mod junction;
pub mod spline_rules;
pub mod wiring;

verus! {

} // verus!
