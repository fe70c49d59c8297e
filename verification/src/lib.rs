//! Verified decision logic for rendering a Schwarzschild black hole by
//! tracing light rays backwards from a camera.
//!
//! The numerical integration of a ray is done by the host in hardware
//! arithmetic. Everything that is decided about a ray lives here and is
//! proved: how the numbers that the host hands over are ordered, when a trace
//! stops and how it is classified, which colour a pixel gets, and where a
//! pixel lies in the finished image.
//!
//! Numbers cross the boundary as IEEE 754 binary64 encodings ([`Binary64`]),
//! so the host and the library agree on every bit of them.

pub mod binary64;
pub mod config;
pub mod frame;
pub mod pixel;
pub mod ray;
pub mod trace;

pub use binary64::Binary64;
pub use config::ConfigError;
pub use config::TraceConfig;
pub use frame::Frame;
pub use frame::FrameError;
pub use pixel::Launch;
pub use pixel::Pixel;
pub use pixel::Rgb;
pub use ray::RayState;
pub use trace::Outcome;
pub use trace::Region;
pub use trace::Run;
