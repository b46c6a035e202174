//! Validation of layer names.

use std::str::FromStr;
use vstd::prelude::*;

verus! {

/// Whether `libcnb_data` accepts `name` as a layer name.
pub uninterp spec fn layer_name_accepted(name: Seq<char>) -> bool;

/// Whether `name` is one of the names that the layers directory keeps for
/// files of the build itself.
pub open spec fn spec_is_reserved(name: Seq<char>) -> bool {
    name == "build"@ || name == "launch"@ || name == "store"@
}

/// Parses `name` with `libcnb_data::layer::LayerName::from_str` and reports
/// whether it was accepted. The outcome depends on the characters of `name`
/// alone. An accepted name is not empty and is none of `build`, `launch`
/// and `store`.
#[verifier::external_body]
pub(crate) fn parses_as_layer_name(name: &str) -> (accepted: bool)
    ensures
        accepted == layer_name_accepted(name@),
        accepted ==> name@.len() > 0 && !spec_is_reserved(name@),
{
    libcnb_data::layer::LayerName::from_str(name).is_ok()
}

/// Checks a layer name.
pub fn is_valid_layer_name(name: &str) -> (valid: bool)
    ensures
        valid == layer_name_accepted(name@),
        valid ==> name@.len() > 0 && !spec_is_reserved(name@),
{
    parses_as_layer_name(name)
}

} // verus!
