//! Simulation configuration: substep and iteration counts, gravity, the
//! fixed timestep.
//!
//! Invalid configuration (a zero substep count, a negative compliance) is
//! rejected here, at configuration time, never discovered mid-solve.

use vstd::prelude::*;
use crate::fp::{sat64, tdiv};
use crate::vec3::Vec3;

verus! {

/// The fixed timestep, in fixed-point seconds (1/60 s).
pub const DELTA_TIME_FP: i64 = 17476;

/// Ways a configuration value can be rejected.
#[derive(Clone, Copy, Debug, PartialEq, Eq, Structural)]
pub enum ConfigError {
    /// A substep or iteration count of zero would make the substep
    /// division ill-defined.
    ZeroCount,
    /// Compliance is an inverse stiffness and cannot be negative.
    NegativeCompliance,
}

/// Number of substeps run for each fixed step.
#[derive(Clone, Copy, Debug, PartialEq, Eq, Structural)]
pub struct NumSubsteps(pub u32);

impl NumSubsteps {
    /// A validated substep count: zero is rejected, anything else taken.
    pub fn new(n: u32) -> (r: Result<NumSubsteps, ConfigError>)
        ensures
            n == 0 ==> r == Result::<NumSubsteps, ConfigError>::Err(ConfigError::ZeroCount),
            n != 0 ==> r == Result::<NumSubsteps, ConfigError>::Ok(NumSubsteps(n)),
    {
        if n == 0 {
            Err(ConfigError::ZeroCount)
        } else {
            Ok(NumSubsteps(n))
        }
    }
}

impl Default for NumSubsteps {
    /// Eight substeps.
    fn default() -> (r: Self)
        ensures
            r == NumSubsteps(8u32),
    {
        NumSubsteps(8)
    }
}

/// Number of constraint position-solving passes per substep.
#[derive(Clone, Copy, Debug, PartialEq, Eq, Structural)]
pub struct NumPosIters(pub u32);

impl NumPosIters {
    /// A validated iteration count: zero is rejected, anything else taken.
    pub fn new(n: u32) -> (r: Result<NumPosIters, ConfigError>)
        ensures
            n == 0 ==> r == Result::<NumPosIters, ConfigError>::Err(ConfigError::ZeroCount),
            n != 0 ==> r == Result::<NumPosIters, ConfigError>::Ok(NumPosIters(n)),
    {
        if n == 0 {
            Err(ConfigError::ZeroCount)
        } else {
            Ok(NumPosIters(n))
        }
    }
}

impl Default for NumPosIters {
    /// Four position iterations.
    fn default() -> (r: Self)
        ensures
            r == NumPosIters(4u32),
    {
        NumPosIters(4)
    }
}

/// The gravity vector applied to dynamic bodies.
#[derive(Clone, Copy, Debug, PartialEq, Eq, Structural)]
pub struct Gravity(pub Vec3);

impl Default for Gravity {
    /// Standard downward gravity, `(0, -9.81, 0)`.
    fn default() -> (r: Self)
        ensures
            r == Gravity(Vec3 { x: 0, y: -10286531int as i64, z: 0 }),
    {
        Gravity(Vec3 { x: 0, y: -10286531, z: 0 })
    }
}

/// The substep timestep: the fixed timestep divided by the substep count,
/// never below the fixed-point resolution.
pub open spec fn sub_dt_s(substeps: u32) -> i64 {
    let d = sat64(tdiv(DELTA_TIME_FP as int, substeps as int)) as i64;
    if d == 0 {
        1
    } else {
        d
    }
}

/// The substep timestep for a validated substep count.
pub fn sub_dt(substeps: &NumSubsteps) -> (r: i64)
    requires
        substeps.0 >= 1,
    ensures
        r == sub_dt_s(substeps.0),
        0 < r <= DELTA_TIME_FP,
{
    let d: u64 = (DELTA_TIME_FP as u64) / (substeps.0 as u64);
    proof {
        vstd::arithmetic::div_mod::lemma_div_nonincreasing(
            DELTA_TIME_FP as int,
            substeps.0 as int,
        );
        vstd::arithmetic::div_mod::lemma_div_pos_is_pos(DELTA_TIME_FP as int, substeps.0 as int);
    }
    let r = d as i64;
    if r == 0 {
        // A substep count above the timestep's resolution still advances
        // time by the smallest representable amount.
        1
    } else {
        r
    }
}

} // verus!
