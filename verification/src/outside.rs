//! Types of other crates that the engine carries through without looking
//! inside.

use vstd::prelude::*;

verus! {

/// The persistent store of `libcnb_data`: a table of values that is carried
/// from one build to the next.
#[verifier::external_type_specification]
#[verifier::external_body]
pub struct ExStore(libcnb_data::store::Store);

/// The buildpack plan of `libcnb_data`, as the detect phase resolved it.
#[verifier::external_type_specification]
#[verifier::external_body]
pub struct ExBuildpackPlan(libcnb_data::buildpack_plan::BuildpackPlan);

/// The buildpack descriptor of `libcnb_data`.
#[verifier::external_type_specification]
#[verifier::external_body]
#[verifier::reject_recursive_types(BM)]
pub struct ExComponentBuildpackDescriptor<BM>(libcnb_data::buildpack::ComponentBuildpackDescriptor<BM>);

/// The table type of `toml`.
#[verifier::external_type_specification]
#[verifier::external_body]
#[verifier::reject_recursive_types(K)]
#[verifier::reject_recursive_types(V)]
pub struct ExTomlMap<K, V>(toml::map::Map<K, V>);

/// The value type of `toml`.
#[verifier::external_type_specification]
#[verifier::external_body]
pub struct ExTomlValue(toml::Value);

} // verus!
