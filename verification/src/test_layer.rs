//! A layer that contributes one software inventory in each format.

use crate::build_phase::BuildContext;
use crate::buildpack::Buildpack;
use crate::generic::{GenericError, GenericMetadata, GenericPlatform};
use crate::layer::{
    ExistingLayerStrategy, Layer, LayerData, LayerResult, LayerResultBuilder, LayerTypes,
};
use crate::sbom::{Sbom, SbomFormat};
use vstd::prelude::*;

verus! {

/// The buildpack that [`TestLayer`] belongs to.
pub struct TestBuildpack;

impl Buildpack for TestBuildpack {
    type Platform = GenericPlatform;

    type Metadata = GenericMetadata;

    type Error = GenericError;
}

/// A layer for launch and build that is cached. It holds the three
/// inventory documents that it contributes when it is created.
pub struct TestLayer {
    pub cyclonedx: Vec<u8>,
    pub spdx: Vec<u8>,
    pub syft: Vec<u8>,
}

impl TestLayer {
    /// Whether `sboms` are this layer's three inventories: CycloneDX, SPDX
    /// and Syft, in this order, each with the layer's document.
    pub open spec fn contributes(&self, sboms: Seq<Sbom>) -> bool {
        &&& sboms.len() == 3
        &&& sboms[0].format == SbomFormat::CycloneDxJson
        &&& sboms[0].data@ == self.cyclonedx@
        &&& sboms[1].format == SbomFormat::SpdxJson
        &&& sboms[1].data@ == self.spdx@
        &&& sboms[2].format == SbomFormat::SyftJson
        &&& sboms[2].data@ == self.syft@
    }
}

impl Layer for TestLayer {
    type Buildpack = TestBuildpack;

    type Metadata = GenericMetadata;

    open spec fn declares(&self, types: LayerTypes) -> bool {
        types == (LayerTypes { launch: true, build: true, cache: true })
    }

    /// Creating always succeeds, with no metadata, no flags of its own, no
    /// environment change, and the three inventories.
    open spec fn creates(
        &self,
        context: &BuildContext<Self::Buildpack>,
        layer_path: Seq<char>,
        result: Result<LayerResult<Self::Metadata>, <Self::Buildpack as Buildpack>::Error>,
    ) -> bool {
        &&& result matches Ok(created)
        &&& created.metadata is None
        &&& created.types is None
        &&& self.contributes(created.sboms@)
        &&& created.env@.len() == 0
    }

    /// An existing layer is always updated.
    open spec fn decides(
        &self,
        context: &BuildContext<Self::Buildpack>,
        layer_data: &LayerData<Self::Metadata>,
        result: Result<ExistingLayerStrategy, <Self::Buildpack as Buildpack>::Error>,
    ) -> bool {
        result == Ok::<ExistingLayerStrategy, <Self::Buildpack as Buildpack>::Error>(
            ExistingLayerStrategy::Update,
        )
    }

    /// Updating always succeeds and contributes nothing.
    open spec fn updates(
        &self,
        context: &BuildContext<Self::Buildpack>,
        layer_data: &LayerData<Self::Metadata>,
        result: Result<LayerResult<Self::Metadata>, <Self::Buildpack as Buildpack>::Error>,
    ) -> bool {
        &&& result matches Ok(updated)
        &&& updated.metadata is None
        &&& updated.types is None
        &&& updated.sboms@.len() == 0
        &&& updated.env@.len() == 0
    }

    fn types(&self) -> (types: LayerTypes) {
        LayerTypes { launch: true, build: true, cache: true }
    }

    fn create(&self, _context: &BuildContext<Self::Buildpack>, _layer_path: &str) -> (result: Result<
        LayerResult<Self::Metadata>,
        <Self::Buildpack as Buildpack>::Error,
    >) {
        LayerResultBuilder::new(None).sbom(
            Sbom::from_bytes(SbomFormat::CycloneDxJson, self.cyclonedx.clone()),
        ).sbom(Sbom::from_bytes(SbomFormat::SpdxJson, self.spdx.clone())).sbom(
            Sbom::from_bytes(SbomFormat::SyftJson, self.syft.clone()),
        ).build()
    }

    fn existing_layer_strategy(
        &self,
        _context: &BuildContext<Self::Buildpack>,
        _layer_data: &LayerData<Self::Metadata>,
    ) -> (result: Result<ExistingLayerStrategy, <Self::Buildpack as Buildpack>::Error>) {
        Ok(ExistingLayerStrategy::Update)
    }

    fn update(
        &self,
        _context: &BuildContext<Self::Buildpack>,
        _layer_data: &LayerData<Self::Metadata>,
    ) -> (result: Result<LayerResult<Self::Metadata>, <Self::Buildpack as Buildpack>::Error>) {
        LayerResultBuilder::new(None).build()
    }
}

} // verus!
