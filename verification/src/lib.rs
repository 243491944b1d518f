//! A verified core for a curve-tracing instrument: it turns a noisy cloud of
//! (voltage, current) samples into a compact Shockley-style diode model by
//! bucketed resampling, a log-linear least-squares seed and damped
//! Gauss-Newton refinement.

pub mod aoi;
pub mod backend;
pub mod curvefit;
pub mod diode;
pub mod dut;
pub mod options;
pub mod pwc;
pub mod scalar;
pub mod trace;
pub mod util;

pub use scalar::Real;
