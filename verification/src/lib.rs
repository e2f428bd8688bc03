//! Bootstrap logic for a windowed graphics application: assembling the
//! parameters of a graphics-API instance (required extensions, optional
//! validation layers under a debug mode) and translating the heterogeneous
//! low-level failures of the loader and driver collaborators into one uniform
//! application-level error value.
//!
//! The collaborators themselves (the windowing system and the driver/loader
//! library) are consumed through plain values: the caller performs the
//! environment-dependent calls and hands their outcomes to the functions of
//! this crate, which make every decision of the bootstrap sequence.

pub mod bootstrap;
pub mod error;
pub mod names;
pub mod params;
