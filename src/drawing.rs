use vstd::prelude::*;

use crate::fault::SketchFault;
use crate::junction::junction_verdict;

verus! {

/// The pen of a sketch builder: whether a starting point has been set by
/// `move_to`, and how many curves have been drawn.
#[derive(Clone, Copy, Debug, PartialEq, Eq, Structural)]
pub struct PenState {
    pub started: bool,
    pub curves: usize,
}

/// What closing the profile reports before the loop is validated: a pen
/// that drew nothing cannot close, and otherwise the result says whether a
/// closing line is appended, which is when the pen stands away from its
/// starting point.
pub open spec fn close_verdict(pen: PenState, away_from_start: bool) -> Result<
    bool,
    SketchFault,
> {
    if pen.curves == 0 {
        Err(SketchFault::CannotCloseEmpty)
    } else if !pen.started {
        Err(SketchFault::NoStartingPoint)
    } else {
        Ok(away_from_start)
    }
}

/// What closing the profile reports in all: the pen's own check, then the
/// validation of the finished loop, whose junctions are `open`.
pub open spec fn close_outcome(pen: PenState, away_from_start: bool, open: Seq<bool>) -> Result<
    (),
    SketchFault,
> {
    match close_verdict(pen, away_from_start) {
        Err(e) => Err(e),
        Ok(_) => junction_verdict(open),
    }
}

impl PenState {
    /// A pen has drawn only after it was given a starting point.
    pub open spec fn wf(&self) -> bool {
        self.curves > 0 ==> self.started
    }

    /// A pen with no starting point and no curve.
    pub fn new() -> (r: PenState)
        ensures
            r.wf(),
            !r.started,
            r.curves == 0,
    {
        PenState { started: false, curves: 0 }
    }

    /// Sets the pen's position; the first call also sets the starting point.
    pub fn move_to(&mut self)
        ensures
            final(self).started,
            final(self).curves == old(self).curves,
            final(self).wf(),
    {
        self.started = true;
    }

    /// Checks that a curve may be drawn: only after a starting point.
    pub fn require_start(&self) -> (r: Result<(), SketchFault>)
        ensures
            r is Ok <==> self.started,
            r is Err ==> r == Err::<(), SketchFault>(SketchFault::NoStartingPoint),
    {
        if self.started {
            Ok(())
        } else {
            Err(SketchFault::NoStartingPoint)
        }
    }

    /// Counts one more drawn curve.
    pub fn record_curve(&mut self)
        requires
            old(self).started,
            old(self).curves < usize::MAX,
        ensures
            final(self).started,
            final(self).curves == old(self).curves + 1,
            final(self).wf(),
    {
        self.curves = self.curves + 1;
    }

    /// Decides how the profile is closed with a line: refused for a pen
    /// that drew nothing; otherwise `Ok(true)` when a closing line back to
    /// the start is appended.
    pub fn close_plan(&self, away_from_start: bool) -> (r: Result<bool, SketchFault>)
        ensures
            r == close_verdict(*self, away_from_start),
    {
        if self.curves == 0 {
            Err(SketchFault::CannotCloseEmpty)
        } else if !self.started {
            Err(SketchFault::NoStartingPoint)
        } else {
            Ok(away_from_start)
        }
    }

    /// Checks that the profile may be closed with an arc, which is always
    /// appended: refused for a pen that drew nothing.
    pub fn close_with_arc_plan(&self) -> (r: Result<(), SketchFault>)
        ensures
            self.curves == 0 ==> r == Err::<(), SketchFault>(SketchFault::CannotCloseEmpty),
            self.curves > 0 && self.started ==> r is Ok,
            self.curves > 0 && !self.started ==> r == Err::<(), SketchFault>(
                SketchFault::NoStartingPoint,
            ),
    {
        if self.curves == 0 {
            Err(SketchFault::CannotCloseEmpty)
        } else if !self.started {
            Err(SketchFault::NoStartingPoint)
        } else {
            Ok(())
        }
    }
}

/// A loop that closing produced passes validation: when closing succeeds,
/// validating the same loop again at the same tolerance (which gives the
/// same open junctions) succeeds too.
pub proof fn lemma_closed_loop_validates(pen: PenState, away_from_start: bool, open: Seq<bool>)
    requires
        close_outcome(pen, away_from_start, open) is Ok,
    ensures
        junction_verdict(open) == Ok::<(), SketchFault>(()),
{
}

} // verus!
