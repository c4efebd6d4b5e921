use vstd::prelude::*;
use crate::curve::{curve_pick, is_curve_pick, is_max_of, max_ordinal, CurvePick};

verus! {

/// Battery power desired when the fuel converter runs, in priority order.
#[derive(Debug, Clone, Copy, PartialEq, Eq, Structural)]
pub enum EssIfFc {
    /// The acceleration buffer lies above the regenerative buffer.
    AccelAboveRegen,
    /// Discharge toward the regenerative buffer is available.
    RegenDischarge,
    /// Charge toward the acceleration buffer is needed.
    AccelCharge,
    /// Discharge toward the converter's efficient point is desired.
    EfficiencyDischarge,
    /// None of these: the efficiency target, floored at the buffer charge.
    Fallback,
}

/// The case for the battery power when the converter runs.
pub open spec fn ess_if_fc_spec(
    accel_buff: i64,
    regen_buff: i64,
    regen_dischg_kw: i64,
    accel_chg_kw: i64,
    desired_4fc_eff_kw: i64,
) -> EssIfFc {
    if accel_buff > regen_buff {
        EssIfFc::AccelAboveRegen
    } else if regen_dischg_kw > 0 {
        EssIfFc::RegenDischarge
    } else if accel_chg_kw > 0 {
        EssIfFc::AccelCharge
    } else if desired_4fc_eff_kw > 0 {
        EssIfFc::EfficiencyDischarge
    } else {
        EssIfFc::Fallback
    }
}

/// Decides which battery power the converter-on strategy aims for.
pub fn ess_if_fc_case(
    accel_buff: i64,
    regen_buff: i64,
    regen_dischg_kw: i64,
    accel_chg_kw: i64,
    desired_4fc_eff_kw: i64,
) -> (r: EssIfFc)
    ensures
        r == ess_if_fc_spec(accel_buff, regen_buff, regen_dischg_kw, accel_chg_kw, desired_4fc_eff_kw),
{
    if accel_buff > regen_buff {
        EssIfFc::AccelAboveRegen
    } else if regen_dischg_kw > 0 {
        EssIfFc::RegenDischarge
    } else if accel_chg_kw > 0 {
        EssIfFc::AccelCharge
    } else if desired_4fc_eff_kw > 0 {
        EssIfFc::EfficiencyDischarge
    } else {
        EssIfFc::Fallback
    }
}

/// The share that scales the battery power toward the converter's efficient
/// point is the discharge share exactly when that power is positive.
pub fn fc_eff_share_discharges(shortfall_kw: i64) -> (r: bool)
    ensures
        r == (shortfall_kw > 0),
{
    shortfall_kw > 0
}

/// How a power is carried across the motor.
#[derive(Debug, Clone, Copy, PartialEq, Eq, Structural)]
pub enum Conversion {
    /// Zero power, with no lookup.
    Zero,
    /// Motoring: converted through the efficiency entry picked.
    Motoring(CurvePick),
    /// Regenerating: converted through the efficiency entry picked.
    Regen(CurvePick),
}

/// The conversion that a curve pick gives on one side of the motor.
pub open spec fn wrap_conversion(motoring: bool, p: Option<CurvePick>) -> Option<Conversion> {
    match p {
        Some(c) => Some(
            if motoring {
                Conversion::Motoring(c)
            } else {
                Conversion::Regen(c)
            },
        ),
        None => None,
    }
}

/// `r` wraps the pick of `power` on the curve `xs` for one side of the motor.
pub open spec fn is_side_pick(
    motoring: bool,
    xs: Seq<i64>,
    power: i64,
    top: i64,
    below_top: i64,
    r: Option<Conversion>,
) -> bool {
    exists|p: Option<CurvePick>|
        #![trigger is_curve_pick(xs, power, top, below_top, true, p)]
        is_curve_pick(xs, power, top, below_top, true, p) && r == wrap_conversion(motoring, p)
}

/// Motor output for the electrical input of the converter-on strategy: zero
/// without an electrical system or for zero input; else the input, or its
/// negation when regenerating, is looked up on the electrical-input curve,
/// whose top is its largest entry.
pub open spec fn is_mc_if_fc(
    no_elec_sys: bool,
    elec_in_kw: i64,
    neg_elec_in_kw: i64,
    mc_kw_in: Seq<i64>,
    below_top: i64,
    r: Option<Conversion>,
) -> bool {
    if no_elec_sys || elec_in_kw == 0 {
        r == Some(Conversion::Zero)
    } else {
        exists|top: i64|
            #![trigger is_max_of(mc_kw_in, top)]
            is_max_of(mc_kw_in, top) && if elec_in_kw > 0 {
                is_side_pick(true, mc_kw_in, elec_in_kw, top, below_top, r)
            } else {
                is_side_pick(false, mc_kw_in, neg_elec_in_kw, top, below_top, r)
            }
    }
}

fn side_pick(
    motoring: bool,
    xs: &Vec<i64>,
    power: i64,
    top: i64,
    below_top: i64,
) -> (r: Option<Conversion>)
    ensures
        is_side_pick(motoring, xs@, power, top, below_top, r),
{
    let p = curve_pick(xs, power, top, below_top, true);
    match p {
        Some(c) => Some(
            if motoring {
                Conversion::Motoring(c)
            } else {
                Conversion::Regen(c)
            },
        ),
        None => None,
    }
}

/// Converts the converter-on strategy's motor electrical input to output.
pub fn mc_if_fc_conversion(
    no_elec_sys: bool,
    elec_in_kw: i64,
    neg_elec_in_kw: i64,
    mc_kw_in: &Vec<i64>,
    below_top: i64,
) -> (r: Option<Conversion>)
    requires
        mc_kw_in@.len() >= 1,
    ensures
        is_mc_if_fc(no_elec_sys, elec_in_kw, neg_elec_in_kw, mc_kw_in@, below_top, r),
{
    if no_elec_sys || elec_in_kw == 0 {
        return Some(Conversion::Zero);
    }
    let top = max_ordinal(mc_kw_in);
    if elec_in_kw > 0 {
        side_pick(true, mc_kw_in, elec_in_kw, top, below_top)
    } else {
        side_pick(false, mc_kw_in, neg_elec_in_kw, top, below_top)
    }
}

/// Electrical input for the achieved motor output: zero for zero output;
/// when regenerating, the negated output on the electrical-input curve whose
/// top is its largest entry; when motoring, the output on the mechanical
/// curve whose top is the motor's peak power.
pub open spec fn is_mc_elec_ach(
    mech_kw: i64,
    neg_mech_kw: i64,
    mc_kw_in: Seq<i64>,
    below_in_top: i64,
    mc_kw_out: Seq<i64>,
    max_motor_kw: i64,
    below_motor_top: i64,
    r: Option<Conversion>,
) -> bool {
    if mech_kw == 0 {
        r == Some(Conversion::Zero)
    } else if mech_kw < 0 {
        exists|top: i64|
            #![trigger is_max_of(mc_kw_in, top)]
            is_max_of(mc_kw_in, top) && is_side_pick(false, mc_kw_in, neg_mech_kw, top, below_in_top, r)
    } else {
        is_side_pick(true, mc_kw_out, mech_kw, max_motor_kw, below_motor_top, r)
    }
}

/// Converts the achieved motor output to its electrical input.
pub fn mc_elec_ach_conversion(
    mech_kw: i64,
    neg_mech_kw: i64,
    mc_kw_in: &Vec<i64>,
    below_in_top: i64,
    mc_kw_out: &Vec<i64>,
    max_motor_kw: i64,
    below_motor_top: i64,
) -> (r: Option<Conversion>)
    requires
        mc_kw_in@.len() >= 1,
    ensures
        is_mc_elec_ach(
            mech_kw,
            neg_mech_kw,
            mc_kw_in@,
            below_in_top,
            mc_kw_out@,
            max_motor_kw,
            below_motor_top,
            r,
        ),
{
    if mech_kw == 0 {
        Some(Conversion::Zero)
    } else if mech_kw < 0 {
        let top = max_ordinal(mc_kw_in);
        side_pick(false, mc_kw_in, neg_mech_kw, top, below_in_top)
    } else {
        side_pick(true, mc_kw_out, mech_kw, max_motor_kw, below_motor_top)
    }
}

/// Ordinals and flags that decide the achieved motor output.
#[derive(Debug, Clone, Copy, PartialEq, Eq, Structural)]
pub struct McMechInput {
    pub max_motor_kw: i64,
    pub fc_forced_on: bool,
    pub can_ae: bool,
    /// The powertrain is a hybrid or a plug-in hybrid.
    pub hybrid: bool,
    pub fuel_cell: bool,
    pub trans_in_kw: i64,
    pub max_fuel_conv_kw: i64,
}

/// Rules for the achieved motor output, in priority order.
#[derive(Debug, Clone, Copy, PartialEq, Eq, Structural)]
pub enum McMech {
    /// No motor: zero.
    NoMotor,
    /// A forced converter on a combustion hybrid: the forced-state contribution.
    Forced,
    /// Braking, all-electric, with a combustion converter: regenerate what the motor takes.
    RegenAllElec,
    /// Braking, with a combustion converter: regenerate, bounded by the converter-on strategy.
    RegenWithFc,
    /// Braking, otherwise: regenerate what the motor takes.
    RegenOnly,
    /// All-electric: the whole transmission input.
    AllElec,
    /// Otherwise: the larger of the help for the converter and the converter-on strategy.
    HelpFc,
}

/// The rule for the achieved motor output.
pub open spec fn mc_mech_spec(a: McMechInput) -> McMech {
    if a.max_motor_kw == 0 {
        McMech::NoMotor
    } else if a.fc_forced_on && a.can_ae && a.hybrid && !a.fuel_cell {
        McMech::Forced
    } else if a.trans_in_kw <= 0 {
        if !a.fuel_cell && a.max_fuel_conv_kw > 0 {
            if a.can_ae {
                McMech::RegenAllElec
            } else {
                McMech::RegenWithFc
            }
        } else {
            McMech::RegenOnly
        }
    } else if a.can_ae {
        McMech::AllElec
    } else {
        McMech::HelpFc
    }
}

/// Decides how the achieved motor output is formed.
pub fn mc_mech_rule(a: &McMechInput) -> (r: McMech)
    ensures
        r == mc_mech_spec(*a),
{
    if a.max_motor_kw == 0 {
        McMech::NoMotor
    } else if a.fc_forced_on && a.can_ae && a.hybrid && !a.fuel_cell {
        McMech::Forced
    } else if a.trans_in_kw <= 0 {
        if !a.fuel_cell && a.max_fuel_conv_kw > 0 {
            if a.can_ae {
                McMech::RegenAllElec
            } else {
                McMech::RegenWithFc
            }
        } else {
            McMech::RegenOnly
        }
    } else if a.can_ae {
        McMech::AllElec
    } else {
        McMech::HelpFc
    }
}

/// Rules for the achieved roadway charging power, in priority order.
#[derive(Debug, Clone, Copy, PartialEq, Eq, Structural)]
pub enum Roadway {
    /// No roadway power available: zero.
    Zero,
    /// Fuel cell: the largest of the candidate powers, floored at zero.
    FuelCell,
    /// All-electric: the all-electric roadway power.
    AllElec,
    /// Otherwise: the converter-on roadway power.
    WithFc,
}

/// The roadway rule.
pub open spec fn roadway_spec(cur_max_roadway_kw: i64, fuel_cell: bool, can_ae: bool) -> Roadway {
    if cur_max_roadway_kw == 0 {
        Roadway::Zero
    } else if fuel_cell {
        Roadway::FuelCell
    } else if can_ae {
        Roadway::AllElec
    } else {
        Roadway::WithFc
    }
}

/// Decides how the achieved roadway charging power is formed.
pub fn roadway_rule(cur_max_roadway_kw: i64, fuel_cell: bool, can_ae: bool) -> (r: Roadway)
    ensures
        r == roadway_spec(cur_max_roadway_kw, fuel_cell, can_ae),
{
    if cur_max_roadway_kw == 0 {
        Roadway::Zero
    } else if fuel_cell {
        Roadway::FuelCell
    } else if can_ae {
        Roadway::AllElec
    } else {
        Roadway::WithFc
    }
}

/// Rules for the achieved battery output, in priority order.
#[derive(Debug, Clone, Copy, PartialEq, Eq, Structural)]
pub enum EssOut {
    /// No battery power or energy capacity: zero.
    Zero,
    /// Fuel cell, non-negative transmission output: the capped blend.
    FuelCellCapped,
    /// Fuel cell, braking: the motor input and accessories, less roadway power.
    FuelCellDirect,
    /// Accessories not on the battery: the motor input less roadway power.
    WithoutAux,
    /// Otherwise: the motor input and accessories, less roadway power.
    WithAux,
}

/// The battery-output rule.
pub open spec fn ess_out_spec(
    max_ess_kw: i64,
    max_ess_kwh: i64,
    fuel_cell: bool,
    trans_out_kw: i64,
    fc_on_tag: bool,
    no_elec_aux: bool,
) -> EssOut {
    if max_ess_kw == 0 || max_ess_kwh == 0 {
        EssOut::Zero
    } else if fuel_cell {
        if trans_out_kw >= 0 {
            EssOut::FuelCellCapped
        } else {
            EssOut::FuelCellDirect
        }
    } else if fc_on_tag || no_elec_aux {
        EssOut::WithoutAux
    } else {
        EssOut::WithAux
    }
}

/// Decides how the achieved battery output is formed.
pub fn ess_out_rule(
    max_ess_kw: i64,
    max_ess_kwh: i64,
    fuel_cell: bool,
    trans_out_kw: i64,
    fc_on_tag: bool,
    no_elec_aux: bool,
) -> (r: EssOut)
    ensures
        r == ess_out_spec(max_ess_kw, max_ess_kwh, fuel_cell, trans_out_kw, fc_on_tag, no_elec_aux),
{
    if max_ess_kw == 0 || max_ess_kwh == 0 {
        EssOut::Zero
    } else if fuel_cell {
        if trans_out_kw >= 0 {
            EssOut::FuelCellCapped
        } else {
            EssOut::FuelCellDirect
        }
    } else if fc_on_tag || no_elec_aux {
        EssOut::WithoutAux
    } else {
        EssOut::WithAux
    }
}

/// How stored energy and state of charge follow from the battery output.
#[derive(Debug, Clone, Copy, PartialEq, Eq, Structural)]
pub struct ChargeRules {
    /// Stored energy is integrated from the previous step; else it is zero.
    pub integrate_energy: bool,
    /// State of charge is stored energy over capacity; else it is zero.
    pub soc_is_ratio: bool,
}

/// Charge rules: no stored energy without an electrical system, and a zero
/// state of charge for a battery with no capacity.
pub open spec fn charge_spec(no_elec_sys: bool, max_ess_kwh: i64) -> ChargeRules {
    ChargeRules { integrate_energy: !no_elec_sys, soc_is_ratio: max_ess_kwh != 0 }
}

/// Decides how stored energy and state of charge are updated.
pub fn charge_rules(no_elec_sys: bool, max_ess_kwh: i64) -> (r: ChargeRules)
    ensures
        r == charge_spec(no_elec_sys, max_ess_kwh),
{
    ChargeRules { integrate_energy: !no_elec_sys, soc_is_ratio: max_ess_kwh != 0 }
}

/// The converter's on-time restarts from zero only when the step can and does
/// run all-electric with the converter at zero output and not forced.
pub open spec fn on_time_resets_spec(can_ae: bool, fc_forced_on: bool, fc_out_kw: i64) -> bool {
    can_ae && !fc_forced_on && fc_out_kw == 0
}

/// Decides whether the converter's on-time restarts; otherwise it grows by the step.
pub fn fc_on_time_resets(can_ae: bool, fc_forced_on: bool, fc_out_kw: i64) -> (r: bool)
    ensures
        r == on_time_resets_spec(can_ae, fc_forced_on, fc_out_kw),
{
    can_ae && !fc_forced_on && fc_out_kw == 0
}

} // verus!
