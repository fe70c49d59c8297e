use blackhole_renderer::pixel::{shade, start, trace_pixel};
use blackhole_renderer::trace::{locate, trace};
use blackhole_renderer::{
    Binary64, Launch, Outcome, Pixel, RayState, Region, Rgb, Run, TraceConfig,
};
use std::cell::Cell;

fn b(x: f64) -> Binary64 {
    Binary64::from_bits(x.to_bits())
}

fn f(x: Binary64) -> f64 {
    f64::from_bits(x.to_bits())
}

fn state(r: f64, phi: f64, pr: f64) -> RayState {
    RayState { r: b(r), phi: b(phi), pr: b(pr) }
}

fn derivatives(s: [f64; 3], l: f64) -> [f64; 3] {
    let r = s[0];
    let dr = s[2];
    let dphi = l / (r * r);
    let dv_dr = -2.0 * l * l / (r * r * r) + 6.0 * l * l / (r * r * r * r);
    [dr, dphi, -dv_dr]
}

fn rk4(s: [f64; 3], l: f64, h: f64) -> [f64; 3] {
    let k1 = derivatives(s, l);
    let k2 = derivatives(
        [s[0] + 0.5 * h * k1[0], s[1] + 0.5 * h * k1[1], s[2] + 0.5 * h * k1[2]],
        l,
    );
    let k3 = derivatives(
        [s[0] + 0.5 * h * k2[0], s[1] + 0.5 * h * k2[1], s[2] + 0.5 * h * k2[2]],
        l,
    );
    let k4 = derivatives([s[0] + h * k3[0], s[1] + h * k3[1], s[2] + h * k3[2]], l);
    [
        s[0] + (h / 6.0) * (k1[0] + 2.0 * k2[0] + 2.0 * k3[0] + k4[0]),
        s[1] + (h / 6.0) * (k1[1] + 2.0 * k2[1] + 2.0 * k3[1] + k4[1]),
        s[2] + (h / 6.0) * (k1[2] + 2.0 * k2[2] + 2.0 * k3[2] + k4[2]),
    ]
}

fn advance(s: RayState, l: f64, h: f64) -> RayState {
    let next = rk4([f(s.r), f(s.phi), f(s.pr)], l, h);
    state(next[0], next[1], next[2])
}

fn launch(camera_r: f64, l: f64, level: u8) -> Launch {
    let e: f64 = 1.0;
    let term = e * e - (1.0 - 2.0 / camera_r) * (l * l) / (camera_r * camera_r);
    Launch { term: b(term), root: b(term.sqrt()), level }
}

fn config(camera_r: f64, h: f64, r_max: f64, max_steps: usize) -> TraceConfig {
    TraceConfig::new(b(camera_r), b(h), b(r_max), max_steps).unwrap()
}

fn run_ray(camera_r: f64, l: f64, h: f64, r_max: f64, max_steps: usize) -> Run {
    let cfg = config(camera_r, h, r_max, max_steps);
    let first = start(&cfg, launch(camera_r, l, 0)).unwrap();
    trace(&cfg, first, |s| advance(s, l, h))
}

#[test]
fn large_impact_parameter_escapes() {
    let run = run_ray(20.0, 6.0, 0.01, 30.0, 5000);
    assert_eq!(run.outcome, Outcome::Escaped);
    assert_eq!(run.steps, 4840);
    assert!(f(run.state.r) >= 30.0);
    assert!(f(run.state.pr) > 0.0);
}

#[test]
fn small_impact_parameter_is_captured() {
    let run = run_ray(20.0, 3.5, 0.01, 30.0, 5000);
    assert_eq!(run.outcome, Outcome::HorizonHit);
    assert_eq!(run.steps, 2267);
    assert!(f(run.state.r) <= 2.0);
}

#[test]
fn radial_infall_reaches_the_horizon() {
    let run = run_ray(20.0, 0.0, 0.01, 30.0, 5000);
    assert_eq!(run.outcome, Outcome::HorizonHit);
    assert_eq!(run.steps, 1800);
    assert_eq!(run.state.phi, b(0.0));
    assert_eq!(run.state.pr, b(-1.0));
    assert!(f(run.state.r) <= 2.0);

    let coarse = run_ray(20.0, 0.0, 0.1, 30.0, 5000);
    assert_eq!(coarse.outcome, Outcome::HorizonHit);
    assert_eq!(coarse.steps, 180);

    let fine = run_ray(20.0, 0.0, 0.001, 30.0, 50000);
    assert_eq!(fine.outcome, Outcome::HorizonHit);
    assert_eq!(fine.steps, 18000);

    for &camera_r in [2.5, 3.0, 7.0, 12.5, 29.0].iter() {
        let run = run_ray(camera_r, 0.0, 0.01, 30.0, 5000);
        assert_eq!(run.outcome, Outcome::HorizonHit, "camera at {}", camera_r);
        assert!(run.steps >= 1);
    }
}

#[test]
fn too_few_steps_are_inconclusive() {
    let cfg = config(20.0, 0.01, 100.0, 2000);
    let run = trace(&cfg, state(20.0, 0.0, -1.0), |s| advance(s, 4.0, 0.01));
    assert_eq!(run.outcome, Outcome::Inconclusive);
    assert_eq!(run.steps, 2000);
    assert!(f(run.state.r) > 2.0 && f(run.state.r) < 100.0);

    let short = run_ray(20.0, 6.0, 0.01, 30.0, 4840);
    assert_eq!(short.outcome, Outcome::Inconclusive);
    assert_eq!(short.steps, 4840);
    let enough = run_ray(20.0, 6.0, 0.01, 30.0, 4841);
    assert_eq!(enough.outcome, Outcome::Escaped);
    assert_eq!(enough.steps, 4840);
    assert_eq!(enough.state, short.state);
}

#[test]
fn invalid_discriminant_is_classified_without_integrating() {
    let cfg = config(20.0, 0.01, 30.0, 5000);
    let no_ray = launch(20.0, 25.0, 90);
    assert!(f(no_ray.term) < 0.0);
    assert_eq!(start(&cfg, no_ray), None);
    let calls = Cell::new(0usize);
    let pixel = trace_pixel(&cfg, no_ray, |s| {
        calls.set(calls.get() + 1);
        s
    });
    assert_eq!(calls.get(), 0);
    assert_eq!(pixel.outcome, Outcome::InvalidImpactParameter);
    assert_eq!(pixel.color, Rgb { red: 255, green: 255, blue: 255 });
}

#[test]
fn discriminant_of_zero_has_a_ray() {
    let cfg = config(20.0, 0.01, 30.0, 5000);
    let grazing = Launch { term: b(0.0), root: b(0.0), level: 1 };
    let first = start(&cfg, grazing).unwrap();
    assert_eq!(first.r, b(20.0));
    assert_eq!(first.phi, b(0.0));
    assert_eq!(first.pr.to_bits(), (-0.0f64).to_bits());
    let minus_zero = Launch { term: b(-0.0), root: b(-0.0), level: 1 };
    assert!(start(&cfg, minus_zero).is_some());
    let barely = Launch { term: b(-f64::from_bits(1)), root: b(f64::NAN), level: 1 };
    assert_eq!(start(&cfg, barely), None);
}

#[test]
fn the_ray_starts_at_the_camera_moving_inwards() {
    let cfg = config(20.0, 0.01, 30.0, 5000);
    let first = start(&cfg, launch(20.0, 6.0, 0)).unwrap();
    assert_eq!(first.r, b(20.0));
    assert_eq!(first.phi, b(0.0));
    assert_eq!(f(first.pr), -(0.919f64.sqrt()));
    assert!(f(first.pr) < 0.0);
}

#[test]
fn tracing_twice_gives_identical_results() {
    for &l in [0.0, 3.5, 5.0, 5.2, 6.0, 8.0, 12.0].iter() {
        let first = run_ray(20.0, l, 0.01, 30.0, 5000);
        let second = run_ray(20.0, l, 0.01, 30.0, 5000);
        assert_eq!(first, second);
        assert_eq!(first.state.r.to_bits(), second.state.r.to_bits());
        assert_eq!(first.state.phi.to_bits(), second.state.phi.to_bits());
        assert_eq!(first.state.pr.to_bits(), second.state.pr.to_bits());
    }
    let cfg = config(20.0, 0.01, 30.0, 5000);
    let a = trace_pixel(&cfg, launch(20.0, 6.0, 77), |s| advance(s, 6.0, 0.01));
    let c = trace_pixel(&cfg, launch(20.0, 6.0, 77), |s| advance(s, 6.0, 0.01));
    assert_eq!(a, c);
}

#[test]
fn the_integrator_is_only_called_between_horizon_and_escape_radius() {
    let cfg = config(20.0, 0.01, 30.0, 5000);
    for &l in [0.0, 3.5, 6.0].iter() {
        let calls = Cell::new(0usize);
        let first = start(&cfg, launch(20.0, l, 0)).unwrap();
        let run = trace(&cfg, first, |s| {
            assert!(f(s.r) > 2.0 && f(s.r) < 30.0);
            calls.set(calls.get() + 1);
            advance(s, l, 0.01)
        });
        assert_eq!(calls.get(), run.steps);
    }
}

#[test]
fn the_state_is_checked_before_every_step() {
    let cfg = config(20.0, 0.01, 30.0, 5000);
    let at_horizon = trace(&cfg, state(2.0, 0.0, -1.0), |s| s);
    assert_eq!(at_horizon.outcome, Outcome::HorizonHit);
    assert_eq!(at_horizon.steps, 0);
    assert_eq!(at_horizon.state, state(2.0, 0.0, -1.0));

    let at_escape = trace(&cfg, state(30.0, 0.0, 1.0), |s| s);
    assert_eq!(at_escape.outcome, Outcome::Escaped);
    assert_eq!(at_escape.steps, 0);

    let one_step = trace(&cfg, state(3.0, 0.0, -1.0), |_| state(1.0, 0.5, -1.0));
    assert_eq!(one_step.outcome, Outcome::HorizonHit);
    assert_eq!(one_step.steps, 1);
    assert_eq!(one_step.state, state(1.0, 0.5, -1.0));
}

#[test]
fn the_last_state_is_not_checked_once_the_steps_are_used_up() {
    let cfg = config(20.0, 0.01, 30.0, 1);
    let run = trace(&cfg, state(3.0, 0.0, -1.0), |_| state(1.0, 0.0, -1.0));
    assert_eq!(run.outcome, Outcome::Inconclusive);
    assert_eq!(run.steps, 1);
    assert_eq!(run.state, state(1.0, 0.0, -1.0));

    let stuck = config(20.0, 0.01, 30.0, 7);
    let run = trace(&stuck, state(10.0, 0.0, 0.0), |s| s);
    assert_eq!(run.outcome, Outcome::Inconclusive);
    assert_eq!(run.steps, 7);
}

#[test]
fn a_nan_radius_is_stepped_until_the_steps_are_used_up() {
    let cfg = config(20.0, 0.01, 30.0, 25);
    let calls = Cell::new(0usize);
    let run = trace(&cfg, state(f64::NAN, 0.0, 0.0), |s| {
        calls.set(calls.get() + 1);
        s
    });
    assert_eq!(run.outcome, Outcome::Inconclusive);
    assert_eq!(run.steps, 25);
    assert_eq!(calls.get(), 25);
}

#[test]
fn regions_have_closed_boundaries() {
    let r_max = b(30.0);
    assert_eq!(locate(b(2.0), r_max), Region::Horizon);
    assert_eq!(locate(b(1.0), r_max), Region::Horizon);
    assert_eq!(locate(b(0.0), r_max), Region::Horizon);
    assert_eq!(locate(b(-5.0), r_max), Region::Horizon);
    assert_eq!(locate(b(f64::NEG_INFINITY), r_max), Region::Horizon);
    assert_eq!(locate(b(f64::from_bits(0x4000_0000_0000_0001)), r_max), Region::Between);
    assert_eq!(locate(b(20.0), r_max), Region::Between);
    assert_eq!(locate(b(f64::from_bits(0x403d_ffff_ffff_ffff)), r_max), Region::Between);
    assert_eq!(locate(b(30.0), r_max), Region::Far);
    assert_eq!(locate(b(1.0e9), r_max), Region::Far);
    assert_eq!(locate(b(f64::INFINITY), r_max), Region::Far);
    assert_eq!(locate(b(f64::NAN), r_max), Region::Between);
}

#[test]
fn the_horizon_is_looked_at_first() {
    assert_eq!(locate(b(2.0), b(2.0)), Region::Horizon);
    assert_eq!(locate(b(1.5), b(1.0)), Region::Horizon);
    assert_eq!(locate(b(2.5), b(1.0)), Region::Far);
    assert_eq!(locate(b(2.5), b(f64::NAN)), Region::Between);
}

#[test]
fn pixels_are_shaded_by_outcome() {
    assert_eq!(shade(Outcome::HorizonHit, 200), Rgb { red: 0, green: 0, blue: 0 });
    assert_eq!(shade(Outcome::Escaped, 200), Rgb { red: 200, green: 200, blue: 200 });
    assert_eq!(shade(Outcome::Inconclusive, 13), Rgb { red: 13, green: 13, blue: 13 });
    assert_eq!(shade(Outcome::Escaped, 0), Rgb { red: 0, green: 0, blue: 0 });
    assert_eq!(shade(Outcome::Escaped, 255), Rgb { red: 255, green: 255, blue: 255 });
    assert_eq!(
        shade(Outcome::InvalidImpactParameter, 13),
        Rgb { red: 255, green: 255, blue: 255 }
    );
}

#[test]
fn a_traced_pixel_carries_outcome_and_colour() {
    let cfg = config(20.0, 0.01, 30.0, 5000);
    let escaped = trace_pixel(&cfg, launch(20.0, 6.0, 178), |s| advance(s, 6.0, 0.01));
    assert_eq!(
        escaped,
        Pixel { outcome: Outcome::Escaped, color: Rgb { red: 178, green: 178, blue: 178 } }
    );
    let captured = trace_pixel(&cfg, launch(20.0, 3.5, 178), |s| advance(s, 3.5, 0.01));
    assert_eq!(
        captured,
        Pixel { outcome: Outcome::HorizonHit, color: Rgb { red: 0, green: 0, blue: 0 } }
    );
    let short = config(20.0, 0.01, 30.0, 100);
    let unknown = trace_pixel(&short, launch(20.0, 6.0, 178), |s| advance(s, 6.0, 0.01));
    assert_eq!(
        unknown,
        Pixel { outcome: Outcome::Inconclusive, color: Rgb { red: 178, green: 178, blue: 178 } }
    );
}
