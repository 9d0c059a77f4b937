//! Verified core of a beam-time estimator for nuclear-physics experiments.
//!
//! The library keeps the state of three independent estimators (a magnetic
//! spectrometer, a gamma-ray detector array and a conversion-electron
//! spectrometer) and of the container that owns them, and proves the rules by
//! which that state is built and edited: the built-in defaults, the detector
//! list with its presets, and the choice between restored and fresh state at
//! start-up. Real-valued quantities are carried as exact bit patterns (see
//! [`scalar::Scalar`]); arithmetic on them is the caller's business.

pub mod scalar;
pub mod text;
pub mod cebra;
pub mod icespice;
pub mod sps;
pub mod app;
