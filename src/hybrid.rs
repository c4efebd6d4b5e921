use vstd::prelude::*;
use crate::curve::{curve_pick, is_curve_pick, CurvePick};
use crate::limits::{is_lookup, lookup, Lookup};

verus! {

/// Which battery power the two state-of-charge buffers call for, in the
/// order in which the cases are tried.
#[derive(Debug, Clone, Copy, PartialEq, Eq, Structural)]
pub enum BufferCase {
    /// The regenerative buffer lies below the acceleration buffer: aim between them.
    RegenBelowAccel,
    /// The charge is above the regenerative buffer: discharge down to it.
    AboveRegen,
    /// The charge is below the acceleration buffer: charge up to it.
    BelowAccel,
    /// Neither: no battery power, within the charge and discharge caps.
    Neutral,
}

/// The buffer case for the buffer setpoints and the previous state of charge.
pub open spec fn buffer_spec(regen_buff: i64, accel_buff: i64, soc_prev: i64) -> BufferCase {
    if regen_buff < accel_buff {
        BufferCase::RegenBelowAccel
    } else if soc_prev > regen_buff {
        BufferCase::AboveRegen
    } else if soc_prev < accel_buff {
        BufferCase::BelowAccel
    } else {
        BufferCase::Neutral
    }
}

/// Merges the regenerative and acceleration buffers into one case.
pub fn buffer_case(regen_buff: i64, accel_buff: i64, soc_prev: i64) -> (r: BufferCase)
    ensures
        r == buffer_spec(regen_buff, accel_buff, soc_prev),
{
    if regen_buff < accel_buff {
        BufferCase::RegenBelowAccel
    } else if soc_prev > regen_buff {
        BufferCase::AboveRegen
    } else if soc_prev < accel_buff {
        BufferCase::BelowAccel
    } else {
        BufferCase::Neutral
    }
}

/// Motor electrical power that moves the fuel converter to its most
/// efficient point.
#[derive(Debug, Clone, Copy, PartialEq, Eq, Structural)]
pub enum FcEffAssist {
    /// No electrical system: none.
    Zero,
    /// Output below the efficient point: the motor absorbs the gap, converted
    /// through the efficiency entry picked.
    Absorb(CurvePick),
    /// Output at or above the efficient point: the motor supplies the gap,
    /// read from the electrical-input table at the entry picked.
    Supply(CurvePick),
}

/// The assist that a curve pick gives, absorbing or supplying.
pub open spec fn wrap_assist(absorb: bool, p: Option<CurvePick>) -> Option<FcEffAssist> {
    match p {
        Some(c) => Some(
            if absorb {
                FcEffAssist::Absorb(c)
            } else {
                FcEffAssist::Supply(c)
            },
        ),
        None => None,
    }
}

/// `r` is the assist for the given inputs: the gap between output and the
/// efficient point is looked up on the mechanical curve, from position one
/// when absorbing.
pub open spec fn is_fc_eff_assist(
    no_elec_sys: bool,
    trans_out_kw: i64,
    max_fc_eff_kw: i64,
    gap_kw: i64,
    mc_kw_out: Seq<i64>,
    max_motor_kw: i64,
    below_top: i64,
    r: Option<FcEffAssist>,
) -> bool {
    if no_elec_sys {
        r == Some(FcEffAssist::Zero)
    } else {
        is_assist_pick(trans_out_kw < max_fc_eff_kw, gap_kw, mc_kw_out, max_motor_kw, below_top, r)
    }
}

/// `r` wraps the pick of the gap on the mechanical curve.
pub open spec fn is_assist_pick(
    absorb: bool,
    gap_kw: i64,
    mc_kw_out: Seq<i64>,
    max_motor_kw: i64,
    below_top: i64,
    r: Option<FcEffAssist>,
) -> bool {
    exists|p: Option<CurvePick>|
        #![trigger is_curve_pick(mc_kw_out, gap_kw, max_motor_kw, below_top, absorb, p)]
        is_curve_pick(mc_kw_out, gap_kw, max_motor_kw, below_top, absorb, p) && r == wrap_assist(
            absorb,
            p,
        )
}

/// Decides how the motor moves the fuel converter to its efficient point.
pub fn fc_eff_assist(
    no_elec_sys: bool,
    trans_out_kw: i64,
    max_fc_eff_kw: i64,
    gap_kw: i64,
    mc_kw_out: &Vec<i64>,
    max_motor_kw: i64,
    below_top: i64,
) -> (r: Option<FcEffAssist>)
    ensures
        is_fc_eff_assist(
            no_elec_sys,
            trans_out_kw,
            max_fc_eff_kw,
            gap_kw,
            mc_kw_out@,
            max_motor_kw,
            below_top,
            r,
        ),
{
    if no_elec_sys {
        return Some(FcEffAssist::Zero);
    }
    let absorb = trans_out_kw < max_fc_eff_kw;
    let p = curve_pick(mc_kw_out, gap_kw, max_motor_kw, below_top, absorb);
    match p {
        Some(c) => Some(
            if absorb {
                FcEffAssist::Absorb(c)
            } else {
                FcEffAssist::Supply(c)
            },
        ),
        None => None,
    }
}

/// Electrical power that all-electric driving would need: none without an
/// electrical system or without positive transmission input, else a lookup
/// of that input on the mechanical curve.
pub fn elec_req_lookup(
    no_elec_sys: bool,
    trans_in_kw: i64,
    mc_kw_out: &Vec<i64>,
    max_motor_kw: i64,
    below_top: i64,
) -> (r: Option<Lookup>)
    ensures
        is_lookup(
            no_elec_sys || !(trans_in_kw > 0),
            mc_kw_out@,
            trans_in_kw,
            max_motor_kw,
            below_top,
            true,
            r,
        ),
{
    lookup(no_elec_sys || !(trans_in_kw > 0), mc_kw_out, trans_in_kw, max_motor_kw, below_top, true)
}

/// Ordinals and flags that decide whether a step can run all-electric.
#[derive(Debug, Clone, Copy, PartialEq, Eq, Structural)]
pub struct AllElecInput {
    pub accel_buff_soc: i64,
    pub soc_prev: i64,
    /// Transmission input less the comparison margin.
    pub trans_in_less_margin: i64,
    pub cur_max_mc_kw_out: i64,
    pub elec_kw_req: i64,
    pub cur_max_elec_kw: i64,
    pub max_fuel_conv_kw: i64,
    /// Cycle speed in miles per hour less the comparison margin.
    pub mph_less_margin: i64,
    pub mph_fc_on: i64,
    pub charging_on: bool,
    pub kw_demand_fc_on: i64,
}

/// The all-electric predicate: the acceleration buffer is satisfied, the
/// motor covers the demand, and the electrical requirement fits; with a fuel
/// converter, also the speed and power thresholds for running it off.
pub open spec fn all_elec_spec(a: AllElecInput) -> bool {
    let no_fc = a.max_fuel_conv_kw == 0;
    &&& a.accel_buff_soc < a.soc_prev
    &&& a.trans_in_less_margin <= a.cur_max_mc_kw_out
    &&& (a.elec_kw_req < a.cur_max_elec_kw || no_fc)
    &&& (no_fc || ((a.mph_less_margin <= a.mph_fc_on || a.charging_on) && a.elec_kw_req
        <= a.kw_demand_fc_on))
}

/// Decides whether this step can be driven on electricity alone.
pub fn can_pwr_all_elec(a: &AllElecInput) -> (r: bool)
    ensures
        r == all_elec_spec(*a),
{
    let no_fc = a.max_fuel_conv_kw == 0;
    let base = a.accel_buff_soc < a.soc_prev && a.trans_in_less_margin <= a.cur_max_mc_kw_out && (
    a.elec_kw_req < a.cur_max_elec_kw || no_fc);
    if no_fc {
        base
    } else {
        base && (a.mph_less_margin <= a.mph_fc_on || a.charging_on) && a.elec_kw_req
            <= a.kw_demand_fc_on
    }
}

/// Battery power desired when driving all-electric, in priority order.
#[derive(Debug, Clone, Copy, PartialEq, Eq, Structural)]
pub enum AeEss {
    /// Not all-electric: none.
    Off,
    /// The transmission input is below the accessory load: cover both.
    BelowAux,
    /// The regenerative buffer lies below the acceleration buffer.
    RegenBelowAccel,
    /// The charge is above the regenerative buffer.
    AboveRegen,
    /// The charge is below the acceleration buffer.
    BelowAccel,
    /// Cover the demand and the accessories, less roadway power.
    Demand,
}

/// The all-electric battery case.
pub open spec fn ae_ess_spec(
    can_ae: bool,
    trans_in_kw: i64,
    aux_kw: i64,
    regen_buff: i64,
    accel_buff: i64,
    soc_prev: i64,
) -> AeEss {
    if !can_ae {
        AeEss::Off
    } else if trans_in_kw < aux_kw {
        AeEss::BelowAux
    } else if regen_buff < accel_buff {
        AeEss::RegenBelowAccel
    } else if soc_prev > regen_buff {
        AeEss::AboveRegen
    } else if soc_prev < accel_buff {
        AeEss::BelowAccel
    } else {
        AeEss::Demand
    }
}

/// Decides which battery power all-electric driving aims for.
pub fn ae_ess_case(
    can_ae: bool,
    trans_in_kw: i64,
    aux_kw: i64,
    regen_buff: i64,
    accel_buff: i64,
    soc_prev: i64,
) -> (r: AeEss)
    ensures
        r == ae_ess_spec(can_ae, trans_in_kw, aux_kw, regen_buff, accel_buff, soc_prev),
{
    if !can_ae {
        AeEss::Off
    } else if trans_in_kw < aux_kw {
        AeEss::BelowAux
    } else if regen_buff < accel_buff {
        AeEss::RegenBelowAccel
    } else if soc_prev > regen_buff {
        AeEss::AboveRegen
    } else if soc_prev < accel_buff {
        AeEss::BelowAccel
    } else {
        AeEss::Demand
    }
}

/// With no fuel converter, the speed and power thresholds for running it
/// off play no part.
pub proof fn lemma_no_fc_skips_thresholds(a: AllElecInput, b: AllElecInput)
    requires
        a.max_fuel_conv_kw == 0,
        b == (AllElecInput { mph_less_margin: b.mph_less_margin, mph_fc_on: b.mph_fc_on,
        charging_on: b.charging_on, kw_demand_fc_on: b.kw_demand_fc_on, ..a }),
    ensures
        all_elec_spec(a) == all_elec_spec(b),
{
}

} // verus!
