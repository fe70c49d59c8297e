//! One pixel: from what the host computed for it to its colour.

use crate::binary64::Binary64;
use crate::config::zero;
use crate::config::TraceConfig;
use crate::ray::RayState;
use crate::trace::recounts;
use crate::trace::region_of;
use crate::trace::trace;
use crate::trace::Outcome;
use crate::trace::Run;
use vstd::prelude::*;

verus! {

/// A colour with eight bits per channel.
#[derive(Clone, Copy, Debug, PartialEq, Eq, Structural)]
pub struct Rgb {
    pub red: u8,
    pub green: u8,
    pub blue: u8,
}

/// A rendered pixel: how its ray ended, and its colour.
#[derive(Clone, Copy, Debug, PartialEq, Eq, Structural)]
pub struct Pixel {
    pub outcome: Outcome,
    pub color: Rgb,
}

/// What the host computes for a pixel before its ray is traced.
#[derive(Clone, Copy, Debug, PartialEq, Eq, Structural)]
pub struct Launch {
    /// The square of the radial momentum that a photon with the pixel's
    /// impact parameter has at the camera. A negative number means that there
    /// is no such photon.
    pub term: Binary64,
    /// The square root of `term`.
    pub root: Binary64,
    /// The brightness of the background behind the pixel, from 0 to 255.
    pub level: u8,
}

/// The colour of a pixel: black where the ray fell into the hole, white where
/// the pixel has no ray, and otherwise the grey of the background.
pub open spec fn shade_of(outcome: Outcome, level: u8) -> Rgb {
    match outcome {
        Outcome::HorizonHit => Rgb { red: 0, green: 0, blue: 0 },
        Outcome::InvalidImpactParameter => Rgb { red: 255, green: 255, blue: 255 },
        Outcome::Escaped => Rgb { red: level, green: level, blue: level },
        Outcome::Inconclusive => Rgb { red: level, green: level, blue: level },
    }
}

/// The state in which the pixel's ray leaves the camera, if it has one: at the
/// camera's radius, at angle zero, moving inwards with the radial momentum
/// `-root`. There is none exactly when `term` is a negative number.
pub open spec fn start_of(camera_r: Binary64, launch: Launch) -> Option<RayState> {
    if launch.term.spec_lt(zero()) {
        None
    } else {
        Some(RayState { r: camera_r, phi: zero(), pr: launch.root.spec_neg() })
    }
}

/// The pixel of a finished trace.
pub open spec fn pixel_of(run: Run, level: u8) -> Pixel {
    Pixel { outcome: run.outcome, color: shade_of(run.outcome, level) }
}

/// The pixel that has no ray.
pub open spec fn invalid_pixel() -> Pixel {
    Pixel {
        outcome: Outcome::InvalidImpactParameter,
        color: shade_of(Outcome::InvalidImpactParameter, 0),
    }
}

/// The colour of a pixel.
pub fn shade(outcome: Outcome, level: u8) -> (color: Rgb)
    ensures
        color == shade_of(outcome, level),
{
    match outcome {
        Outcome::HorizonHit => Rgb { red: 0, green: 0, blue: 0 },
        Outcome::InvalidImpactParameter => Rgb { red: 255, green: 255, blue: 255 },
        Outcome::Escaped => Rgb { red: level, green: level, blue: level },
        Outcome::Inconclusive => Rgb { red: level, green: level, blue: level },
    }
}

/// The state in which the pixel's ray leaves the camera, if it has one. It
/// lies outside the horizon, as the camera does.
pub fn start(cfg: &TraceConfig, launch: Launch) -> (state: Option<RayState>)
    ensures
        state == start_of(cfg@.camera_r, launch),
        state matches Some(first) ==> !(region_of(first.r, cfg@.r_max) is Horizon),
{
    if launch.term.lt(Binary64::from_bits(0)) {
        None
    } else {
        Some(RayState { r: cfg.camera_r(), phi: Binary64::from_bits(0), pr: launch.root.neg() })
    }
}

/// Renders one pixel. Where the pixel has no ray it is the invalid pixel and
/// `step` is not called; otherwise its ray is traced from the camera and the
/// pixel is coloured by how the trace ended.
pub fn trace_pixel<F: Fn(RayState) -> RayState>(cfg: &TraceConfig, launch: Launch, step: F) -> (pixel:
    Pixel)
    requires
        start_of(cfg@.camera_r, launch) is Some ==> forall|s: RayState|
            region_of(s.r, cfg@.r_max) is Between ==> call_requires(step, (s,)),
    ensures
        match start_of(cfg@.camera_r, launch) {
            None => pixel == invalid_pixel(),
            Some(first) => exists|path: Seq<RayState>, run: Run|
                recounts(step, first, cfg@.r_max, cfg@.max_steps, path, run) && pixel == pixel_of(
                    run,
                    launch.level,
                ),
        },
{
    match start(cfg, launch) {
        None => Pixel {
            outcome: Outcome::InvalidImpactParameter,
            color: shade(Outcome::InvalidImpactParameter, 0),
        },
        Some(first) => {
            let run: Run = trace(cfg, first, step);
            proof {
                let path = choose|path: Seq<RayState>|
                    recounts(step, first, cfg@.r_max, cfg@.max_steps, path, run);
                assert(recounts(step, first, cfg@.r_max, cfg@.max_steps, path, run));
            }
            Pixel { outcome: run.outcome, color: shade(run.outcome, launch.level) }
        },
    }
}

} // verus!
