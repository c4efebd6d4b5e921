use vstd::prelude::*;
use crate::curve::{floor_index, is_floor_position, min_ord};

verus! {

/// Rules for the fuel converter's achieved output, in priority order.
#[derive(Debug, Clone, Copy, PartialEq, Eq, Structural)]
pub enum FcOut {
    /// No fuel converter: zero.
    Zero,
    /// Fuel cell: what the motor and accessories draw beyond the battery and
    /// roadway, within the converter's ceiling.
    FuelCell,
    /// Accessories taken first: the transmission input beyond the motor, with
    /// the accessory load, within the ceiling.
    WithAux,
    /// Otherwise: the transmission input beyond the motor, within the ceiling.
    WithoutAux,
}

/// The converter-output rule.
pub open spec fn fc_out_spec(max_fuel_conv_kw: i64, fuel_cell: bool, aux_first: bool) -> FcOut {
    if max_fuel_conv_kw == 0 {
        FcOut::Zero
    } else if fuel_cell {
        FcOut::FuelCell
    } else if aux_first {
        FcOut::WithAux
    } else {
        FcOut::WithoutAux
    }
}

/// Decides how the converter's achieved output is formed.
pub fn fc_out_rule(max_fuel_conv_kw: i64, fuel_cell: bool, aux_first: bool) -> (r: FcOut)
    ensures
        r == fc_out_spec(max_fuel_conv_kw, fuel_cell, aux_first),
{
    if max_fuel_conv_kw == 0 {
        FcOut::Zero
    } else if fuel_cell {
        FcOut::FuelCell
    } else if aux_first {
        FcOut::WithAux
    } else {
        FcOut::WithoutAux
    }
}

/// Position in the converter's efficiency table for an output: the floor
/// position of the output, capped at the converter's peak, on the output
/// curve. Nothing where that lies below the curve.
pub fn fc_eff_index(fc_out_kw: i64, max_fuel_conv_kw: i64, fc_kw_out: &Vec<i64>) -> (r: Option<
    usize,
>)
    ensures
        r.is_some() <==> fc_kw_out@.len() >= 2 && fc_kw_out@[0] <= min_ord(
            fc_out_kw,
            max_fuel_conv_kw,
        ),
        r matches Some(j) ==> is_floor_position(
            fc_kw_out@,
            min_ord(fc_out_kw, max_fuel_conv_kw),
            j as int,
        ),
{
    let q: i64 = if fc_out_kw <= max_fuel_conv_kw {
        fc_out_kw
    } else {
        max_fuel_conv_kw
    };
    floor_index(fc_kw_out, q)
}

/// Fuel input is zero for zero output or a zero efficiency, so that it never
/// divides by zero; otherwise it is the output over the efficiency.
pub open spec fn fc_in_zero_spec(fc_out_kw: i64, eff: i64) -> bool {
    fc_out_kw == 0 || eff == 0
}

/// Decides whether the converter's fuel input is zero.
pub fn fc_in_is_zero(fc_out_kw: i64, eff: i64) -> (r: bool)
    ensures
        r == fc_in_zero_spec(fc_out_kw, eff),
{
    fc_out_kw == 0 || eff == 0
}

/// The converter's output fraction is zero with no converter or no output.
pub fn fc_pct_is_zero(max_fuel_conv_kw: i64, fc_out_kw: i64) -> (r: bool)
    ensures
        r == (max_fuel_conv_kw == 0 || fc_out_kw == 0),
{
    max_fuel_conv_kw == 0 || fc_out_kw == 0
}

} // verus!
