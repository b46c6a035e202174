//! What a buildpack brings along.

use vstd::prelude::*;

verus! {

/// A buildpack: its platform inputs, the metadata of its descriptor, and the
/// error type that its hooks return. The engine never looks inside any of
/// the three.
pub trait Buildpack {
    type Platform;
    type Metadata;
    type Error;
}

} // verus!
