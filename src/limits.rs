use vstd::prelude::*;
use crate::curve::{curve_pick, is_curve_pick, CurvePick};

verus! {

/// How a converted power is obtained from an efficiency table.
#[derive(Debug, Clone, Copy, PartialEq, Eq, Structural)]
pub enum Lookup {
    /// The power is zero, with no lookup.
    Zero,
    /// The power is converted through the table entry picked.
    Point(CurvePick),
}

/// `r` is `Zero` when `zero` holds, else the curve pick, wrapped.
pub open spec fn is_lookup(
    zero: bool,
    xs: Seq<i64>,
    power: i64,
    top: i64,
    below_top: i64,
    from_one: bool,
    r: Option<Lookup>,
) -> bool {
    if zero {
        r == Some(Lookup::Zero)
    } else {
        exists|p: Option<CurvePick>|
            #![trigger is_curve_pick(xs, power, top, below_top, from_one, p)]
            is_curve_pick(xs, power, top, below_top, from_one, p) && r == match p {
                Some(c) => Some(Lookup::Point(c)),
                None => None::<Lookup>,
            }
    }
}

pub(crate) fn lookup(zero: bool, xs: &Vec<i64>, power: i64, top: i64, below_top: i64, from_one: bool) -> (r:
    Option<Lookup>)
    ensures
        is_lookup(zero, xs@, power, top, below_top, from_one, r),
{
    if zero {
        return Some(Lookup::Zero);
    }
    let p = curve_pick(xs, power, top, below_top, from_one);
    match p {
        Some(c) => Some(Lookup::Point(c)),
        None => None,
    }
}

/// The battery can deliver nothing: it stores nothing, or the previous state
/// of charge is under the minimum.
pub fn ess_discharge_blocked(max_ess_kwh: i64, soc_prev: i64, min_soc: i64) -> (r: bool)
    ensures
        r == (max_ess_kwh == 0 || soc_prev < min_soc),
{
    max_ess_kwh == 0 || soc_prev < min_soc
}

/// The battery can take nothing: it has no energy or no power capacity.
pub fn ess_charge_blocked(max_ess_kwh: i64, max_ess_kw: i64) -> (r: bool)
    ensures
        r == (max_ess_kwh == 0 || max_ess_kw == 0),
{
    max_ess_kwh == 0 || max_ess_kw == 0
}

/// Limit on the motor controller's input: none without electrical power
/// available for propulsion, else a lookup of the available power on the
/// electrical-input curve, whose top is its largest entry.
pub fn mc_elec_in_limit(
    cur_max_elec_kw: i64,
    mc_kw_in: &Vec<i64>,
    avail_kw: i64,
    below_top: i64,
) -> (r: Option<Lookup>)
    requires
        mc_kw_in@.len() >= 1,
    ensures
        exists|top: i64|
            crate::curve::is_max_of(mc_kw_in@, top) && is_lookup(
                !(cur_max_elec_kw > 0),
                mc_kw_in@,
                avail_kw,
                top,
                below_top,
                false,
                r,
            ),
{
    let top = crate::curve::max_ordinal(mc_kw_in);
    lookup(!(cur_max_elec_kw > 0), mc_kw_in, avail_kw, top, below_top, false)
}

/// Electrical input needed for a motor output: zero for a zero output, else a
/// lookup of the output on the mechanical curve, whose top is the motor's
/// peak power.
pub fn motor_out_lookup(
    mc_kw_out: &Vec<i64>,
    out_kw: i64,
    max_motor_kw: i64,
    below_top: i64,
) -> (r: Option<Lookup>)
    ensures
        is_lookup(out_kw == 0, mc_kw_out@, out_kw, max_motor_kw, below_top, true, r),
{
    lookup(out_kw == 0, mc_kw_out, out_kw, max_motor_kw, below_top, true)
}

/// Regenerative limit that the battery sets on the motor: zero when the
/// battery takes no charge, else a lookup of the net charge power on the
/// mechanical curve.
pub fn ess_regen_limit(
    cur_max_ess_chg_kw: i64,
    mc_kw_out: &Vec<i64>,
    net_chg_kw: i64,
    max_motor_kw: i64,
    below_top: i64,
) -> (r: Option<Lookup>)
    ensures
        is_lookup(cur_max_ess_chg_kw == 0, mc_kw_out@, net_chg_kw, max_motor_kw, below_top, true, r),
{
    lookup(cur_max_ess_chg_kw == 0, mc_kw_out, net_chg_kw, max_motor_kw, below_top, true)
}

/// The share of the motor that battery charging limits is zero for a
/// vehicle without a motor.
pub fn regen_share_zero(max_motor_kw: i64) -> (r: bool)
    ensures
        r == (max_motor_kw == 0),
{
    max_motor_kw == 0
}

/// Whether the accessory load is taken off before the fuel converter and the
/// motor ceilings combine: for vehicles without an electrical system or
/// electrical accessories, and while the high-acceleration tag is set.
pub open spec fn aux_first_spec(no_elec_sys: bool, no_elec_aux: bool, fc_on_tag: bool) -> bool {
    no_elec_sys || no_elec_aux || fc_on_tag
}

/// Decides whether the accessory load is taken off first.
pub fn aux_taken_first(no_elec_sys: bool, no_elec_aux: bool, fc_on_tag: bool) -> (r: bool)
    ensures
        r == aux_first_spec(no_elec_sys, no_elec_aux, fc_on_tag),
{
    no_elec_sys || no_elec_aux || fc_on_tag
}

/// Form of the bound on transmission output.
#[derive(Debug, Clone, Copy, PartialEq, Eq, Structural)]
pub enum TransBound {
    /// Fuel cell: motor ceiling less the accessory load.
    FuelCellLessAux,
    /// Fuel cell: motor ceiling less any electrical deficit.
    FuelCellLessDeficit,
    /// Combustion: motor and converter ceilings less the accessory load.
    CombinedLessAux,
    /// Combustion: motor and converter ceilings less any electrical deficit.
    CombinedLessDeficit,
}

/// The form of the transmission-output bound for a powertrain.
pub open spec fn trans_bound_spec(fuel_cell: bool, aux_first: bool) -> TransBound {
    if fuel_cell {
        if aux_first {
            TransBound::FuelCellLessAux
        } else {
            TransBound::FuelCellLessDeficit
        }
    } else if aux_first {
        TransBound::CombinedLessAux
    } else {
        TransBound::CombinedLessDeficit
    }
}

/// Picks the form of the transmission-output bound.
pub fn trans_bound_form(fuel_cell: bool, aux_first: bool) -> (r: TransBound)
    ensures
        r == trans_bound_spec(fuel_cell, aux_first),
{
    if fuel_cell {
        if aux_first {
            TransBound::FuelCellLessAux
        } else {
            TransBound::FuelCellLessDeficit
        }
    } else if aux_first {
        TransBound::CombinedLessAux
    } else {
        TransBound::CombinedLessDeficit
    }
}

} // verus!
