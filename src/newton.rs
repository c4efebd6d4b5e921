use vstd::prelude::*;

verus! {

/// Iteration control of the damped Newton solve for the achieved speed. The
/// first iterate is the initial guess, so the count starts at one.
#[derive(Debug, Clone, Copy, PartialEq, Eq, Structural)]
pub struct NewtonControl {
    /// Iterates produced so far.
    pub iterate: u32,
    /// Iteration cap.
    pub max_iter: u32,
    /// The last two iterates were within the relative tolerance.
    pub converged: bool,
}

impl NewtonControl {
    /// The count never drops below one, and only passes the cap when it starts there.
    pub open spec fn wf(&self) -> bool {
        &&& self.iterate >= 1
        &&& (self.iterate <= self.max_iter || self.iterate == 1)
    }

    /// Control for a solve capped at `max_iter` iterates.
    pub fn new(max_iter: u32) -> (r: NewtonControl)
        ensures
            r.wf(),
            r.iterate == 1,
            r.max_iter == max_iter,
            !r.converged,
    {
        NewtonControl { iterate: 1, max_iter, converged: false }
    }

    /// Another iterate is wanted: under the cap and not yet converged.
    pub fn should_continue(&self) -> (r: bool)
        ensures
            r == (self.iterate < self.max_iter && !self.converged),
    {
        self.iterate < self.max_iter && !self.converged
    }

    /// Records one more iterate and whether it converged.
    pub fn record(&mut self, converged: bool)
        requires
            old(self).wf(),
            old(self).iterate < old(self).max_iter,
        ensures
            final(self).wf(),
            final(self).iterate == old(self).iterate + 1,
            final(self).max_iter == old(self).max_iter,
            final(self).converged == converged,
    {
        self.iterate = self.iterate + 1;
        self.converged = converged;
    }
}

/// `j` is the first position holding the least value of `ys`.
pub open spec fn is_first_min(ys: Seq<i64>, j: int) -> bool {
    &&& 0 <= j < ys.len()
    &&& forall|k: int| 0 <= k < ys.len() ==> ys[j] <= ys[k]
    &&& forall|k: int| 0 <= k < j ==> ys[k] > ys[j]
}

/// Picks the iterate with the smallest absolute residual, given the
/// ordinals of those residuals; the earliest one on a tie.
pub fn best_iterate(abs_residuals: &Vec<i64>) -> (r: usize)
    requires
        abs_residuals@.len() >= 1,
    ensures
        is_first_min(abs_residuals@, r as int),
{
    let mut best: usize = 0;
    let mut i: usize = 1;
    while i < abs_residuals.len()
        invariant
            1 <= i <= abs_residuals@.len(),
            best < i,
            forall|k: int| 0 <= k < i ==> abs_residuals@[best as int] <= abs_residuals@[k],
            forall|k: int| 0 <= k < best ==> abs_residuals@[k] > abs_residuals@[best as int],
        decreases abs_residuals@.len() - i,
    {
        if abs_residuals[i] < abs_residuals[best] {
            best = i;
        }
        i = i + 1;
    }
    best
}

/// The iteration count that a solve records is at least one.
pub proof fn lemma_newton_count_positive(c: NewtonControl)
    requires
        c.wf(),
    ensures
        c.iterate >= 1,
{
}

} // verus!
