use vstd::prelude::*;

verus! {

/// Ordinals of the trace-miss measures of a finished run and their tolerances.
#[derive(Debug, Clone, Copy, PartialEq, Eq, Structural)]
pub struct TraceMiss {
    /// Time-trace correction was on.
    pub missed_trace_correction: bool,
    pub dist_frac: i64,
    pub dist_tol: i64,
    pub time_frac: i64,
    pub time_tol: i64,
    pub speed_mps: i64,
    pub speed_mps_tol: i64,
}

/// A run misses the trace when its speed deviation exceeds the tolerance, or
/// when the distance deviation does without time correction, or the time
/// deviation does with it.
pub open spec fn trace_miss_spec(t: TraceMiss) -> bool {
    (if t.missed_trace_correction {
        t.time_frac > t.time_tol
    } else {
        t.dist_frac > t.dist_tol
    }) || t.speed_mps > t.speed_mps_tol
}

/// Flags a run that did not follow its cycle within tolerance.
pub fn trace_missed(t: &TraceMiss) -> (r: bool)
    ensures
        r == trace_miss_spec(*t),
{
    let by_extent = if t.missed_trace_correction {
        t.time_frac > t.time_tol
    } else {
        t.dist_frac > t.dist_tol
    };
    by_extent || t.speed_mps > t.speed_mps_tol
}

/// Flags an energy audit whose error exceeds the tolerance in magnitude,
/// from the ordinals of the error, its negation and the tolerance.
pub fn energy_audit_failed(error: i64, neg_error: i64, tol: i64) -> (r: bool)
    ensures
        r == (error > tol || neg_error > tol),
{
    error > tol || neg_error > tol
}

} // verus!
