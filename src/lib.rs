// Step rules of a drive-cycle energy simulation for conventional, hybrid and
// battery-electric vehicles.
//
// Each physical quantity of the simulation is a binary64 value. The rules
// here read only how such values compare, so they take the order-preserving
// integer of each value (see `ordinal`) and decide, for every stage of a
// time step, which branch of the power-flow policy applies: component
// limits, whether the cycle is met, the Newton speed solve's control, the
// state-of-charge buffers, the forced fuel-converter state, the battery,
// motor and roadway allocation, and the fuel-converter output. Curve lookups
// (`curve`), cycle validation (`cycle`) and run diagnostics (`post`) sit
// beside them, with the properties that hold across the rules (`laws`).

pub mod codegen;
pub mod curve;
pub mod cycle;
pub mod decisions;
pub mod forced;
pub mod fuel;
pub mod hybrid;
pub mod laws;
pub mod limits;
pub mod misc;
pub mod newton;
pub mod ordinal;
pub mod post;
pub mod power;
