use vstd::prelude::*;

verus! {

/// Why a drive cycle was refused at construction.
#[derive(Debug, Clone, Copy, PartialEq, Eq, Structural)]
pub enum CycleError {
    /// The cycle has no samples.
    Empty,
    /// The speed or grade trace has another length than the time trace.
    LengthMismatch,
    /// Some time sample does not exceed the one before it.
    TimeNotIncreasing,
}

/// Every time sample exceeds the one before it.
pub open spec fn time_increasing(time: Seq<i64>) -> bool {
    forall|i: int| 1 <= i < time.len() ==> time[i - 1] < #[trigger] time[i]
}

/// The outcome of validating a cycle, checks taken in order: emptiness,
/// trace lengths, then the time trace.
pub open spec fn cycle_check(time: Seq<i64>, n_mps: nat, n_grade: nat) -> Result<(), CycleError> {
    if time.len() == 0 {
        Err(CycleError::Empty)
    } else if n_mps != time.len() || n_grade != time.len() {
        Err(CycleError::LengthMismatch)
    } else if !time_increasing(time) {
        Err(CycleError::TimeNotIncreasing)
    } else {
        Ok(())
    }
}

/// Validates a drive cycle from the ordinals of its time trace and the
/// lengths of its speed and grade traces.
pub fn validate_cycle(time: &Vec<i64>, n_mps: usize, n_grade: usize) -> (r: Result<(), CycleError>)
    ensures
        r == cycle_check(time@, n_mps as nat, n_grade as nat),
{
    let n = time.len();
    if n == 0 {
        return Err(CycleError::Empty);
    }
    if n_mps != n || n_grade != n {
        return Err(CycleError::LengthMismatch);
    }
    let mut i: usize = 1;
    while i < n
        invariant
            n == time@.len(),
            n_mps == n,
            n_grade == n,
            1 <= i <= n,
            forall|k: int| 1 <= k < i ==> time@[k - 1] < #[trigger] time@[k],
        decreases n - i,
    {
        if time[i - 1] >= time[i] {
            assert(!time_increasing(time@)) by {
                assert(time@[i - 1] >= time@[i as int]);
            }
            return Err(CycleError::TimeNotIncreasing);
        }
        i = i + 1;
    }
    Ok(())
}

/// A cycle is accepted exactly when it has samples, its traces agree in
/// length, and its time trace rises at every step.
pub proof fn lemma_cycle_accepted(time: Seq<i64>, n_mps: nat, n_grade: nat)
    ensures
        cycle_check(time, n_mps, n_grade) is Ok <==> (time.len() >= 1 && n_mps == time.len()
            && n_grade == time.len() && time_increasing(time)),
        time.len() == 0 ==> cycle_check(time, n_mps, n_grade) is Err,
        (exists|i: int| 1 <= i < time.len() && time[i - 1] >= #[trigger] time[i]) ==> cycle_check(
            time,
            n_mps,
            n_grade,
        ) is Err,
{
}

} // verus!
