use vstd::prelude::*;

verus! {

/// Whether the default accessory load applies at step `i`: every remaining
/// override entry, from `i` to the last, is zero.
pub open spec fn aux_default_spec(aux: Seq<i64>, i: int) -> bool {
    forall|k: int| i <= k < aux.len() ==> aux[k] == 0
}

/// Decides whether step `i` takes the vehicle's default accessory load, from
/// the ordinals of the accessory-load override trace.
pub fn aux_default_applies(aux: &Vec<i64>, i: usize) -> (r: bool)
    requires
        i < aux@.len(),
    ensures
        r == aux_default_spec(aux@, i as int),
{
    let n = aux.len();
    let mut k: usize = i;
    while k < n
        invariant
            n == aux@.len(),
            i <= k <= n,
            forall|j: int| i <= j < k ==> aux@[j] == 0,
        decreases n - k,
    {
        if aux[k] != 0 {
            return false;
        }
        k = k + 1;
    }
    true
}

/// A single non-zero override entry turns the default off at every step up
/// to it, so for the rest of the run.
pub proof fn lemma_nonzero_override_disables_default(aux: Seq<i64>, i: int, k: int)
    requires
        0 <= i <= k,
        k < aux.len(),
        aux[k] != 0,
    ensures
        !aux_default_spec(aux, i),
{
}

/// Once the default applies, it applies at every later step of the same trace.
pub proof fn lemma_default_persists(aux: Seq<i64>, i: int, j: int)
    requires
        i <= j,
        aux_default_spec(aux, i),
    ensures
        aux_default_spec(aux, j),
{
}

/// Reserve flags of one step.
#[derive(Debug, Clone, Copy, PartialEq, Eq, Structural)]
pub struct HighAccel {
    /// The state of charge of the previous step had reached the high-acceleration buffer.
    pub reached_buff: bool,
    /// The fuel converter must stay on for low charge or high acceleration.
    pub fc_on_tag: bool,
}

/// Reserve flags from the previous step's state of charge, the minimum state
/// of charge, the buffer threshold above it, and the previous tag.
pub open spec fn high_accel_spec(soc_prev: i64, min_soc: i64, buff_soc: i64, tag_prev: bool) -> HighAccel {
    let reached = !(soc_prev < buff_soc);
    HighAccel { reached_buff: reached, fc_on_tag: soc_prev < min_soc || (tag_prev && !reached) }
}

/// Latches the fuel converter on below the minimum state of charge, and keeps
/// it latched until the buffer above the minimum has been replenished.
pub fn high_accel_state(soc_prev: i64, min_soc: i64, buff_soc: i64, tag_prev: bool) -> (r: HighAccel)
    ensures
        r == high_accel_spec(soc_prev, min_soc, buff_soc, tag_prev),
{
    let reached = !(soc_prev < buff_soc);
    HighAccel { reached_buff: reached, fc_on_tag: soc_prev < min_soc || (tag_prev && !reached) }
}

} // verus!
