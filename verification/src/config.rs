//! The parameters of a rendering, checked once.

use crate::binary64::Binary64;
use vstd::arithmetic::power2::lemma2_to64_rest;
use vstd::arithmetic::power2::lemma_pow2_adds;
use vstd::arithmetic::power2::lemma_pow2_unfold;
use vstd::arithmetic::power2::pow2;
use vstd::prelude::*;

verus! {

/// The encoding of the number two, the radius of the event horizon in units
/// where the black hole's mass is one.
pub const HORIZON_BITS: u64 = 0x4000_0000_0000_0000;

/// The radius of the event horizon.
pub open spec fn horizon() -> Binary64 {
    Binary64 { bits: HORIZON_BITS }
}

/// Positive zero.
pub open spec fn zero() -> Binary64 {
    Binary64 { bits: 0 }
}

/// The horizon constant is the number two and [`zero`] is the number zero:
/// scaled by `2^1074` they are `2^1075` and `0`.
pub proof fn lemma_horizon_is_two()
    ensures
        !horizon().is_nan(),
        horizon().scaled_value() == 2 * pow2(1074),
        !zero().is_nan(),
        zero().scaled_value() == 0,
{
    let two = horizon();
    assert(two.encoded_magnitude() == 0x4000_0000_0000_0000);
    assert(two.exponent() == 1024);
    assert(two.fraction() == 0);
    assert(two.scale() == 1023);
    lemma2_to64_rest();
    assert(two.significand() == pow2(52));
    lemma_pow2_adds(52, 1023);
    lemma_pow2_unfold(1075);
    assert(zero().encoded_magnitude() == 0);
    assert(zero().significand() == 0);
    assert(zero().magnitude() == 0) by {
        assert(0 * pow2(zero().scale()) == 0);
    }
}

/// Why a set of parameters is refused.
#[derive(Clone, Copy, Debug, PartialEq, Eq, Structural)]
pub enum ConfigError {
    /// The camera is not outside the event horizon.
    CameraInsideHorizon,
    /// The integration step is not a positive number.
    StepNotPositive,
    /// The radius at which a ray counts as escaped is not outside the horizon.
    EscapeRadiusInsideHorizon,
    /// No integration step is allowed.
    NoSteps,
}

/// What a [`TraceConfig`] holds.
pub struct ConfigView {
    /// The radius at which the camera sits.
    pub camera_r: Binary64,
    /// The step of the affine parameter that one integration step covers.
    pub step_size: Binary64,
    /// The radius from which on a ray counts as escaped.
    pub r_max: Binary64,
    /// The largest number of integration steps spent on one ray.
    pub max_steps: nat,
}

/// The first rule that the parameters break, if any: the camera and the
/// escape radius lie outside the horizon, the step is positive, and at least
/// one step is allowed. A NaN breaks the rule it is held to.
pub open spec fn rejection(v: ConfigView) -> Option<ConfigError> {
    if !v.camera_r.spec_gt(horizon()) {
        Some(ConfigError::CameraInsideHorizon)
    } else if !v.step_size.spec_gt(zero()) {
        Some(ConfigError::StepNotPositive)
    } else if !v.r_max.spec_gt(horizon()) {
        Some(ConfigError::EscapeRadiusInsideHorizon)
    } else if v.max_steps == 0 {
        Some(ConfigError::NoSteps)
    } else {
        None
    }
}

/// Parameters that tracing accepts. A value of this type always holds
/// parameters that break no rule: [`TraceConfig::new`] is the only way to
/// make one.
#[derive(Clone, Copy, Debug)]
pub struct TraceConfig {
    camera_r: Binary64,
    step_size: Binary64,
    r_max: Binary64,
    max_steps: usize,
}

impl View for TraceConfig {
    type V = ConfigView;

    closed spec fn view(&self) -> ConfigView {
        ConfigView {
            camera_r: self.camera_r,
            step_size: self.step_size,
            r_max: self.r_max,
            max_steps: self.max_steps as nat,
        }
    }
}

impl TraceConfig {
    #[verifier::type_invariant]
    spec fn accepted(self) -> bool {
        rejection(self@) is None
    }

    /// Checks the parameters and keeps them, or says which rule they break.
    pub fn new(camera_r: Binary64, step_size: Binary64, r_max: Binary64, max_steps: usize) -> (res:
        Result<TraceConfig, ConfigError>)
        ensures
            match rejection(
                ConfigView { camera_r, step_size, r_max, max_steps: max_steps as nat },
            ) {
                Some(e) => res == Err::<TraceConfig, ConfigError>(e),
                None => res is Ok && res->Ok_0@ == (ConfigView {
                    camera_r,
                    step_size,
                    r_max,
                    max_steps: max_steps as nat,
                }),
            },
    {
        let two: Binary64 = Binary64::from_bits(HORIZON_BITS);
        let nothing: Binary64 = Binary64::from_bits(0);
        if !camera_r.gt(two) {
            Err(ConfigError::CameraInsideHorizon)
        } else if !step_size.gt(nothing) {
            Err(ConfigError::StepNotPositive)
        } else if !r_max.gt(two) {
            Err(ConfigError::EscapeRadiusInsideHorizon)
        } else if max_steps == 0 {
            Err(ConfigError::NoSteps)
        } else {
            Ok(TraceConfig { camera_r, step_size, r_max, max_steps })
        }
    }

    /// The radius at which the camera sits.
    pub fn camera_r(&self) -> (r: Binary64)
        ensures
            r == self@.camera_r,
            rejection(self@) is None,
    {
        proof {
            use_type_invariant(self);
        }
        self.camera_r
    }

    /// The step of the affine parameter that one integration step covers.
    pub fn step_size(&self) -> (h: Binary64)
        ensures
            h == self@.step_size,
            rejection(self@) is None,
    {
        proof {
            use_type_invariant(self);
        }
        self.step_size
    }

    /// The radius from which on a ray counts as escaped.
    pub fn r_max(&self) -> (r: Binary64)
        ensures
            r == self@.r_max,
            rejection(self@) is None,
    {
        proof {
            use_type_invariant(self);
        }
        self.r_max
    }

    /// The largest number of integration steps spent on one ray.
    pub fn max_steps(&self) -> (n: usize)
        ensures
            n == self@.max_steps,
            rejection(self@) is None,
    {
        proof {
            use_type_invariant(self);
        }
        self.max_steps
    }
}

} // verus!
