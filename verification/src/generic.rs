//! Stand-ins for buildpacks that have no platform inputs, metadata or
//! errors of their own.

use vstd::prelude::*;

verus! {

/// Metadata of no fixed shape: a table, or nothing.
pub type GenericMetadata = Option<toml::value::Table>;

/// Platform inputs of no fixed shape: the platform's environment variables,
/// as pairs of name and value.
#[derive(Debug)]
pub struct GenericPlatform {
    pub env: Vec<(String, String)>,
}

/// The error of a buildpack whose hooks cannot fail: it has no values.
pub type GenericError = core::convert::Infallible;

impl GenericPlatform {
    /// Wraps the platform's environment variables.
    pub fn new(env: Vec<(String, String)>) -> (platform: Self)
        ensures
            platform.env == env,
    {
        GenericPlatform { env }
    }
}

} // verus!
