use vstd::prelude::*;

verus! {

/// How the least motor power that helps the fuel converter is formed.
#[derive(Debug, Clone, Copy, PartialEq, Eq, Structural)]
pub enum HelpFc {
    /// Cycle met, fuel cell: the transmission input, floored at the regenerative limit.
    FuelCell,
    /// Cycle met, combustion: the transmission input beyond the converter's ceiling, floored.
    BeyondFc,
    /// Cycle missed: the motor's ceiling, floored at the regenerative limit.
    MotorCeiling,
}

/// Decisions of the power-and-speed stage.
#[derive(Debug, Clone, Copy, PartialEq, Eq, Structural)]
pub struct PowerDecision {
    /// The demanded transmission output is within this step's bound.
    pub cyc_met: bool,
    /// The achieved transmission output is positive, so the transmission input
    /// divides it by the efficiency; otherwise it multiplies.
    pub out_positive: bool,
    /// Form of the least motor power that helps the fuel converter.
    pub help_fc: HelpFc,
}

/// Decisions from the ordinals of the demanded transmission output and of
/// its bound: met when the demand is within the bound, and the achieved output
/// is the demand when met, the bound otherwise.
pub open spec fn power_spec(req_kw: i64, bound_kw: i64, fuel_cell: bool) -> PowerDecision {
    let met = req_kw <= bound_kw;
    let out = if met {
        req_kw
    } else {
        bound_kw
    };
    PowerDecision {
        cyc_met: met,
        out_positive: out > 0,
        help_fc: if !met {
            HelpFc::MotorCeiling
        } else if fuel_cell {
            HelpFc::FuelCell
        } else {
            HelpFc::BeyondFc
        },
    }
}

/// Decides whether the cycle is met at this step and how the achieved
/// transmission powers are formed.
pub fn power_decision(req_kw: i64, bound_kw: i64, fuel_cell: bool) -> (r: PowerDecision)
    ensures
        r == power_spec(req_kw, bound_kw, fuel_cell),
{
    let met = req_kw <= bound_kw;
    let out = if met {
        req_kw
    } else {
        bound_kw
    };
    let help_fc = if !met {
        HelpFc::MotorCeiling
    } else if fuel_cell {
        HelpFc::FuelCell
    } else {
        HelpFc::BeyondFc
    };
    PowerDecision { cyc_met: met, out_positive: out > 0, help_fc }
}

/// Where the achieved speed of a step comes from.
#[derive(Debug, Clone, Copy, PartialEq, Eq, Structural)]
pub enum SpeedSource {
    /// The cycle's target speed.
    Target,
    /// The speed found by the Newton solve.
    Solved,
}

/// The achieved speed is the target when the cycle is met, else solved.
pub fn speed_source(cyc_met: bool) -> (r: SpeedSource)
    ensures
        cyc_met <==> r == SpeedSource::Target,
        !cyc_met <==> r == SpeedSource::Solved,
{
    if cyc_met {
        SpeedSource::Target
    } else {
        SpeedSource::Solved
    }
}

/// When the demand is within the bound the cycle is met and the target speed
/// is kept; otherwise the speed is solved for.
pub proof fn lemma_met_keeps_target(req_kw: i64, bound_kw: i64, fuel_cell: bool)
    ensures
        req_kw <= bound_kw ==> power_spec(req_kw, bound_kw, fuel_cell).cyc_met,
        bound_kw < req_kw ==> !power_spec(req_kw, bound_kw, fuel_cell).cyc_met,
        bound_kw < req_kw ==> power_spec(req_kw, bound_kw, fuel_cell).help_fc == HelpFc::MotorCeiling,
{
}

} // verus!
