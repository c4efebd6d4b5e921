use vstd::prelude::*;

verus! {

/// The fuel converter is held on: it was on at the previous step, for less
/// than the minimum on-time short of this step's length.
pub fn fc_forced_on(prev_fc_time_on: i64, on_time_limit: i64) -> (r: bool)
    ensures
        r == (prev_fc_time_on > 0 && prev_fc_time_on < on_time_limit),
{
    prev_fc_time_on > 0 && prev_fc_time_on < on_time_limit
}

/// The six forced-converter states, tried in order: not forced or not able
/// to run all-electric; negative demand; demand at the efficient point;
/// demand under idle power while not decelerating; efficient point above
/// demand; demand above the efficient point.
pub open spec fn forced_state_spec(
    fc_forced_on: bool,
    can_ae: bool,
    trans_in_kw: i64,
    max_fc_eff_kw: i64,
    idle_fc_kw: i64,
    accel_kw: i64,
) -> u8 {
    if !fc_forced_on || !can_ae {
        1
    } else if trans_in_kw < 0 {
        2
    } else if max_fc_eff_kw == trans_in_kw {
        3
    } else if idle_fc_kw > trans_in_kw && accel_kw >= 0 {
        4
    } else if max_fc_eff_kw > trans_in_kw {
        5
    } else {
        6
    }
}

/// Classifies why and how the fuel converter is forced at this step, from
/// the ordinals of the transmission input, the converter's efficient and idle
/// powers, and the acceleration power.
pub fn fc_forced_state(
    fc_forced_on: bool,
    can_ae: bool,
    trans_in_kw: i64,
    max_fc_eff_kw: i64,
    idle_fc_kw: i64,
    accel_kw: i64,
) -> (r: u8)
    ensures
        r == forced_state_spec(fc_forced_on, can_ae, trans_in_kw, max_fc_eff_kw, idle_fc_kw, accel_kw),
        1 <= r <= 6,
{
    if !fc_forced_on || !can_ae {
        1
    } else if trans_in_kw < 0 {
        2
    } else if max_fc_eff_kw == trans_in_kw {
        3
    } else if idle_fc_kw > trans_in_kw && accel_kw >= 0 {
        4
    } else if max_fc_eff_kw > trans_in_kw {
        5
    } else {
        6
    }
}

/// How the motor's mechanical power for a forced converter is formed.
#[derive(Debug, Clone, Copy, PartialEq, Eq, Structural)]
pub enum ForcedMotor {
    /// None.
    Zero,
    /// The whole transmission input.
    Demand,
    /// The transmission input less the idle power.
    LessIdle,
    /// The transmission input less the efficient power.
    LessEfficient,
}

/// The motor power that each forced state fixes.
pub open spec fn forced_motor_spec(state: u8) -> ForcedMotor {
    if state == 2 {
        ForcedMotor::Demand
    } else if state == 4 {
        ForcedMotor::LessIdle
    } else if state == 6 {
        ForcedMotor::LessEfficient
    } else {
        ForcedMotor::Zero
    }
}

/// The motor contribution that a forced state calls for.
pub fn forced_motor(state: u8) -> (r: ForcedMotor)
    ensures
        r == forced_motor_spec(state),
{
    if state == 2 {
        ForcedMotor::Demand
    } else if state == 4 {
        ForcedMotor::LessIdle
    } else if state == 6 {
        ForcedMotor::LessEfficient
    } else {
        ForcedMotor::Zero
    }
}

/// A demand exactly at the converter's efficient point is state three
/// whenever the converter is forced and all-electric driving is possible,
/// whatever the idle power and acceleration.
pub proof fn lemma_efficient_point_is_state_three(
    trans_in_kw: i64,
    idle_fc_kw: i64,
    accel_kw: i64,
)
    requires
        trans_in_kw >= 0,
    ensures
        forced_state_spec(true, true, trans_in_kw, trans_in_kw, idle_fc_kw, accel_kw) == 3,
{
}

/// Exactly one state applies: the states partition the inputs.
pub proof fn lemma_forced_states_partition(
    fc_forced_on: bool,
    can_ae: bool,
    trans_in_kw: i64,
    max_fc_eff_kw: i64,
    idle_fc_kw: i64,
    accel_kw: i64,
)
    ensures
        ({
            let s = forced_state_spec(fc_forced_on, can_ae, trans_in_kw, max_fc_eff_kw, idle_fc_kw, accel_kw);
            &&& (s == 1 <==> (!fc_forced_on || !can_ae))
            &&& (s == 2 <==> (fc_forced_on && can_ae && trans_in_kw < 0))
            &&& (s == 3 <==> (fc_forced_on && can_ae && trans_in_kw >= 0 && max_fc_eff_kw == trans_in_kw))
            &&& (s == 6 ==> trans_in_kw > max_fc_eff_kw)
            &&& (s == 5 ==> max_fc_eff_kw > trans_in_kw)
        }),
{
}

} // verus!
