//! The usual way to decide about an existing layer: by a fingerprint of the
//! input that the layer was made from.
//!
//! The layer stores the fingerprint of, say, a lock file. A later build
//! compares the stored fingerprint with the current one. While they are
//! equal the layer is still good; once they differ it is made anew. How a
//! fingerprint is computed is the buildpack's business.

use crate::build_phase::BuildContext;
use crate::buildpack::Buildpack;
use crate::generic::{GenericError, GenericMetadata, GenericPlatform};
use crate::layer::{
    ExistingLayerStrategy, Layer, LayerData, LayerResult, LayerResultBuilder, LayerTypes,
};
use vstd::prelude::*;

verus! {

/// The metadata of a layer that remembers what it was made from.
#[derive(Debug)]
pub struct FingerprintMetadata {
    pub fingerprint: String,
}

/// The decision that comparing fingerprints leads to: recreate where they
/// differ; where they are equal, update if the layer wants to be
/// reconfigured on every build, and keep otherwise.
pub open spec fn spec_strategy_for_fingerprint(
    stored: Seq<char>,
    current: Seq<char>,
    reconfigure: bool,
) -> ExistingLayerStrategy {
    if stored != current {
        ExistingLayerStrategy::Recreate
    } else if reconfigure {
        ExistingLayerStrategy::Update
    } else {
        ExistingLayerStrategy::Keep
    }
}

/// Decides about an existing layer by comparing the fingerprint it stored
/// with the current one.
pub fn strategy_for_fingerprint(stored: &String, current: &String, reconfigure: bool) -> (strategy:
    ExistingLayerStrategy)
    ensures
        strategy == spec_strategy_for_fingerprint(stored@, current@, reconfigure),
{
    let unchanged = *stored == *current;
    if !unchanged {
        ExistingLayerStrategy::Recreate
    } else if reconfigure {
        ExistingLayerStrategy::Update
    } else {
        ExistingLayerStrategy::Keep
    }
}

/// A buildpack without platform inputs, metadata or errors of its own.
pub struct GenericBuildpack;

impl Buildpack for GenericBuildpack {
    type Platform = GenericPlatform;

    type Metadata = GenericMetadata;

    type Error = GenericError;
}

/// A cached launch layer that is good for as long as the fingerprint of its
/// input stays the same.
pub struct FingerprintLayer {
    /// The fingerprint of the input as it is in this build.
    pub fingerprint: String,
    /// Whether an unchanged layer is updated rather than kept.
    pub reconfigure: bool,
}

impl Layer for FingerprintLayer {
    type Buildpack = GenericBuildpack;

    type Metadata = FingerprintMetadata;

    open spec fn declares(&self, types: LayerTypes) -> bool {
        types == (LayerTypes { launch: true, build: false, cache: true })
    }

    /// Creating stores the current fingerprint.
    open spec fn creates(
        &self,
        context: &BuildContext<Self::Buildpack>,
        layer_path: Seq<char>,
        result: Result<LayerResult<Self::Metadata>, <Self::Buildpack as Buildpack>::Error>,
    ) -> bool {
        &&& result matches Ok(created)
        &&& created.metadata.fingerprint@ == self.fingerprint@
        &&& created.types is None
        &&& created.sboms@.len() == 0
        &&& created.env@.len() == 0
    }

    /// The decision is the one that comparing the stored fingerprint with
    /// the current one leads to.
    open spec fn decides(
        &self,
        context: &BuildContext<Self::Buildpack>,
        layer_data: &LayerData<Self::Metadata>,
        result: Result<ExistingLayerStrategy, <Self::Buildpack as Buildpack>::Error>,
    ) -> bool {
        result == Ok::<ExistingLayerStrategy, <Self::Buildpack as Buildpack>::Error>(
            spec_strategy_for_fingerprint(
                layer_data.content_metadata.metadata.fingerprint@,
                self.fingerprint@,
                self.reconfigure,
            ),
        )
    }

    /// Updating leaves the stored fingerprint as it is.
    open spec fn updates(
        &self,
        context: &BuildContext<Self::Buildpack>,
        layer_data: &LayerData<Self::Metadata>,
        result: Result<LayerResult<Self::Metadata>, <Self::Buildpack as Buildpack>::Error>,
    ) -> bool {
        &&& result matches Ok(updated)
        &&& updated.metadata.fingerprint@ == layer_data.content_metadata.metadata.fingerprint@
        &&& updated.types is None
        &&& updated.sboms@.len() == 0
        &&& updated.env@.len() == 0
    }

    fn types(&self) -> (types: LayerTypes) {
        LayerTypes { launch: true, build: false, cache: true }
    }

    fn create(&self, _context: &BuildContext<Self::Buildpack>, _layer_path: &str) -> (result: Result<
        LayerResult<Self::Metadata>,
        <Self::Buildpack as Buildpack>::Error,
    >) {
        LayerResultBuilder::new(FingerprintMetadata { fingerprint: self.fingerprint.clone() }).build()
    }

    fn existing_layer_strategy(
        &self,
        _context: &BuildContext<Self::Buildpack>,
        layer_data: &LayerData<Self::Metadata>,
    ) -> (result: Result<ExistingLayerStrategy, <Self::Buildpack as Buildpack>::Error>) {
        Ok(
            strategy_for_fingerprint(
                &layer_data.content_metadata.metadata.fingerprint,
                &self.fingerprint,
                self.reconfigure,
            ),
        )
    }

    fn update(
        &self,
        _context: &BuildContext<Self::Buildpack>,
        layer_data: &LayerData<Self::Metadata>,
    ) -> (result: Result<LayerResult<Self::Metadata>, <Self::Buildpack as Buildpack>::Error>) {
        LayerResultBuilder::new(
            FingerprintMetadata { fingerprint: layer_data.content_metadata.metadata.fingerprint.clone() },
        ).build()
    }
}

/// Where the fingerprint has changed, the layer is recreated. Where it has
/// not, the layer is kept or updated, never recreated or deleted.
pub proof fn lemma_fingerprint_decides(stored: Seq<char>, current: Seq<char>, reconfigure: bool)
    ensures
        stored != current ==> spec_strategy_for_fingerprint(stored, current, reconfigure)
            == ExistingLayerStrategy::Recreate,
        stored == current ==> spec_strategy_for_fingerprint(stored, current, reconfigure)
            != ExistingLayerStrategy::Recreate && spec_strategy_for_fingerprint(
            stored,
            current,
            reconfigure,
        ) != ExistingLayerStrategy::Delete,
{
}

} // verus!
