use blackhole_renderer::Binary64;
use blackhole_renderer::ConfigError;
use blackhole_renderer::TraceConfig;

fn b(x: f64) -> Binary64 {
    Binary64::from_bits(x.to_bits())
}

fn config(camera_r: f64, step: f64, r_max: f64, max_steps: usize) -> Result<TraceConfig, ConfigError> {
    TraceConfig::new(b(camera_r), b(step), b(r_max), max_steps)
}

#[test]
fn reference_parameters_are_accepted_and_kept() {
    let cfg = config(20.0, 0.01, 30.0, 5000).unwrap();
    assert_eq!(cfg.camera_r(), b(20.0));
    assert_eq!(cfg.step_size(), b(0.01));
    assert_eq!(cfg.r_max(), b(30.0));
    assert_eq!(cfg.max_steps(), 5000);
}

#[test]
fn camera_at_or_inside_the_horizon_is_refused() {
    assert_eq!(config(2.0, 0.01, 30.0, 5000).unwrap_err(), ConfigError::CameraInsideHorizon);
    assert_eq!(config(1.5, 0.01, 30.0, 5000).unwrap_err(), ConfigError::CameraInsideHorizon);
    assert_eq!(config(-20.0, 0.01, 30.0, 5000).unwrap_err(), ConfigError::CameraInsideHorizon);
    assert_eq!(config(f64::NAN, 0.01, 30.0, 5000).unwrap_err(), ConfigError::CameraInsideHorizon);
    let just_outside = f64::from_bits(0x4000_0000_0000_0001);
    assert!(config(just_outside, 0.01, 30.0, 5000).is_ok());
}

#[test]
fn step_that_is_not_positive_is_refused() {
    assert_eq!(config(20.0, 0.0, 30.0, 5000).unwrap_err(), ConfigError::StepNotPositive);
    assert_eq!(config(20.0, -0.0, 30.0, 5000).unwrap_err(), ConfigError::StepNotPositive);
    assert_eq!(config(20.0, -0.01, 30.0, 5000).unwrap_err(), ConfigError::StepNotPositive);
    assert_eq!(config(20.0, f64::NAN, 30.0, 5000).unwrap_err(), ConfigError::StepNotPositive);
    assert!(config(20.0, f64::from_bits(1), 30.0, 5000).is_ok());
}

#[test]
fn escape_radius_at_or_inside_the_horizon_is_refused() {
    assert_eq!(config(20.0, 0.01, 2.0, 5000).unwrap_err(), ConfigError::EscapeRadiusInsideHorizon);
    assert_eq!(config(20.0, 0.01, 0.0, 5000).unwrap_err(), ConfigError::EscapeRadiusInsideHorizon);
    assert_eq!(
        config(20.0, 0.01, f64::NAN, 5000).unwrap_err(),
        ConfigError::EscapeRadiusInsideHorizon
    );
    assert!(config(20.0, 0.01, 2.5, 5000).is_ok());
    assert!(config(20.0, 0.01, f64::INFINITY, 5000).is_ok());
}

#[test]
fn zero_steps_are_refused() {
    assert_eq!(config(20.0, 0.01, 30.0, 0).unwrap_err(), ConfigError::NoSteps);
    assert!(config(20.0, 0.01, 30.0, 1).is_ok());
}

#[test]
fn the_first_broken_rule_is_reported() {
    assert_eq!(config(1.0, 0.0, 1.0, 0).unwrap_err(), ConfigError::CameraInsideHorizon);
    assert_eq!(config(20.0, 0.0, 1.0, 0).unwrap_err(), ConfigError::StepNotPositive);
    assert_eq!(config(20.0, 0.01, 1.0, 0).unwrap_err(), ConfigError::EscapeRadiusInsideHorizon);
}
