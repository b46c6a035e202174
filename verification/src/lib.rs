//! Layer lifecycle decisions and build result aggregation for buildpacks.
//!
//! A build turns an application's source tree into named, cacheable layers.
//! This crate decides, for each layer, whether its directory is kept, updated
//! in place, recreated or deleted, and it collects a build's launch
//! configuration, persistent store and software inventories into one result.
//! Every failure is tagged as the engine's own or as the buildpack's.

pub mod error;
pub mod layer_name;
pub mod buildpack;
pub mod sbom;
pub mod layer_env;
pub mod layer;
pub mod outside;
pub mod launch;
pub mod build_phase;
pub mod handling;
pub mod generic;
pub mod test_layer;
pub mod fingerprint;
