//! Orchestration and frame aggregation for simulated point-spread-function
//! exposures of a segmented-mirror telescope.
//!
//! The optics themselves (ray tracing, detector physics, image-quality
//! estimation) are performed by an outside engine. This crate decides what
//! that engine is asked to do at every step, keeps the detector's running
//! exposure, downsamples the structural-motion time series, and aggregates
//! captured frames with one collection-wide normalization.
use vstd::prelude::*;

pub mod cases;
pub mod config;
pub mod optical_model;
pub mod perturbations;
pub mod psfs;
pub mod windloads;

pub use cases::{get_enclosure_config, AzimuthAngle, ElevationAngle, WindSpeed, ZenithAngle};
pub use config::Config;
pub use optical_model::{Action, ExposureError, GmtOpticalModel};
pub use perturbations::{turbulence_effects, PerturbationError, WindLoadsOptions};
pub use psfs::{PSFs, FRAME_LEN, PSF};
pub use windloads::{WindLoads, WindLoadsError};

verus! {

/// Default detector size in pixels (760x760).
pub const DETECTOR_SIZE: usize = 760;

} // verus!
