use vstd::prelude::*;
use crate::decisions::{charge_spec, ess_out_spec, mc_mech_spec, EssOut, McMechInput};
use crate::forced::forced_state_spec;
use crate::fuel::{fc_in_zero_spec, fc_out_spec, FcOut};
use crate::hybrid::{all_elec_spec, AllElecInput};
use crate::ordinal::bits_ordinal;

verus! {

/// Zero, stored as `+0.0` or `-0.0`, has ordinal zero.
pub proof fn lemma_zero_ordinal()
    ensures
        bits_ordinal(0u64) == 0,
        bits_ordinal(0x8000_0000_0000_0000u64) == 0,
{
    assert(0u64 & 0x7fff_ffff_ffff_ffffu64 == 0u64) by (bit_vector);
    assert(0x8000_0000_0000_0000u64 & 0x7fff_ffff_ffff_ffffu64 == 0u64) by (bit_vector);
}

/// A battery with no energy capacity delivers no power and keeps a zero
/// state of charge at every step, whatever the rest of the vehicle.
pub proof fn lemma_no_battery_energy(
    max_ess_kw: i64,
    fuel_cell: bool,
    trans_out_kw: i64,
    fc_on_tag: bool,
    no_elec_aux: bool,
    no_elec_sys: bool,
)
    ensures
        ess_out_spec(max_ess_kw, 0, fuel_cell, trans_out_kw, fc_on_tag, no_elec_aux) == EssOut::Zero,
        !charge_spec(no_elec_sys, 0).soc_is_ratio,
{
}

/// With no fuel converter its output is zero at every step, and a zero
/// output draws no fuel, whatever the efficiency table holds.
pub proof fn lemma_no_fuel_converter(fuel_cell: bool, aux_first: bool, eff: i64)
    ensures
        fc_out_spec(0, fuel_cell, aux_first) == FcOut::Zero,
        fc_in_zero_spec(0, eff),
{
}

/// With a battery of positive capacity the state of charge is the stored
/// energy over that capacity.
pub proof fn lemma_soc_is_energy_ratio(no_elec_sys: bool, max_ess_kwh: i64)
    requires
        max_ess_kwh > 0,
    ensures
        charge_spec(no_elec_sys, max_ess_kwh).soc_is_ratio,
{
}

/// A zero efficiency at the queried output gives zero fuel input rather
/// than a division by zero.
pub proof fn lemma_zero_efficiency_no_fuel(fc_out_kw: i64)
    ensures
        fc_in_zero_spec(fc_out_kw, 0),
{
}

/// Each decision of a step depends on its inputs alone: two runs handed the
/// same inputs decide alike.
pub proof fn lemma_decisions_deterministic(
    a: AllElecInput,
    b: AllElecInput,
    m: McMechInput,
    n: McMechInput,
    forced: bool,
    trans_in_kw: i64,
    max_fc_eff_kw: i64,
    idle_fc_kw: i64,
    accel_kw: i64,
)
    requires
        a == b,
        m == n,
    ensures
        all_elec_spec(a) == all_elec_spec(b),
        mc_mech_spec(m) == mc_mech_spec(n),
        forced_state_spec(forced, all_elec_spec(a), trans_in_kw, max_fc_eff_kw, idle_fc_kw, accel_kw)
            == forced_state_spec(forced, all_elec_spec(b), trans_in_kw, max_fc_eff_kw, idle_fc_kw, accel_kw),
{
}

} // verus!
