//! Layers, their content metadata, and what a buildpack's hooks return.

use crate::build_phase::BuildContext;
use crate::buildpack::Buildpack;
use crate::layer_env::EnvOperation;
use crate::sbom::Sbom;
use vstd::prelude::*;

verus! {

/// In which phases a layer is available, and whether it is cached.
#[derive(Debug, Clone, Copy, PartialEq, Eq, Structural)]
pub struct LayerTypes {
    /// Whether the layer is available at launch.
    pub launch: bool,
    /// Whether the layer is available to later buildpacks during the build.
    pub build: bool,
    /// Whether the layer is kept for the next build.
    pub cache: bool,
}

/// What to do with a layer that an earlier build left behind.
#[derive(Debug, Clone, Copy, PartialEq, Eq, Structural)]
pub enum ExistingLayerStrategy {
    /// Leave directory and metadata as they are.
    Keep,
    /// Let the update hook change the directory in place.
    Update,
    /// Remove the layer, then create it as if it were new.
    Recreate,
    /// Remove the layer and persist nothing.
    Delete,
}

/// The content of a layer's metadata document.
#[derive(Debug)]
pub struct LayerContentMetadata<M> {
    pub launch: bool,
    pub build: bool,
    pub cache: bool,
    /// The buildpack's own value; the engine never looks inside.
    pub metadata: M,
}

impl<M> LayerContentMetadata<M> {
    /// The three flags of this metadata, as a specification.
    pub open spec fn spec_types(&self) -> LayerTypes {
        LayerTypes { launch: self.launch, build: self.build, cache: self.cache }
    }

    /// The three flags of this metadata.
    #[verifier::when_used_as_spec(spec_types)]
    pub fn types(&self) -> (types: LayerTypes)
        ensures
            types == self.spec_types(),
    {
        LayerTypes { launch: self.launch, build: self.build, cache: self.cache }
    }

    /// Joins flags and a buildpack's value into content metadata.
    pub fn from_parts(types: LayerTypes, metadata: M) -> (content: Self)
        ensures
            content == spec_content_metadata(types, metadata),
    {
        LayerContentMetadata {
            launch: types.launch,
            build: types.build,
            cache: types.cache,
            metadata,
        }
    }

    /// Reads a stored document. A document without a table of flags has all
    /// three flags off.
    pub fn from_document(types: Option<LayerTypes>, metadata: M) -> (content: Self)
        ensures
            content == spec_from_document(types, metadata),
    {
        match types {
            Some(types) => LayerContentMetadata::from_parts(types, metadata),
            None => LayerContentMetadata { launch: false, build: false, cache: false, metadata },
        }
    }

    /// Splits content metadata into what a stored document holds: the table
    /// of flags, always present, and the buildpack's value.
    pub fn into_document(self) -> (document: (Option<LayerTypes>, M))
        ensures
            document == spec_into_document(self),
    {
        let types = self.types();
        (Some(types), self.metadata)
    }

    /// Sets the launch flag.
    pub fn launch(self, launch: bool) -> (content: Self)
        ensures
            content == (LayerContentMetadata { launch, ..self }),
    {
        LayerContentMetadata { launch, ..self }
    }

    /// Sets the build flag.
    pub fn build(self, build: bool) -> (content: Self)
        ensures
            content == (LayerContentMetadata { build, ..self }),
    {
        LayerContentMetadata { build, ..self }
    }

    /// Sets the cache flag.
    pub fn cache(self, cache: bool) -> (content: Self)
        ensures
            content == (LayerContentMetadata { cache, ..self }),
    {
        LayerContentMetadata { cache, ..self }
    }

    /// Replaces the buildpack's value, keeping the flags.
    pub fn metadata<N>(self, metadata: N) -> (content: LayerContentMetadata<N>)
        ensures
            content == spec_content_metadata(self.spec_types(), metadata),
    {
        LayerContentMetadata {
            launch: self.launch,
            build: self.build,
            cache: self.cache,
            metadata,
        }
    }

    /// Whether the engine must remove the layer's directory and metadata
    /// document when the build ends: it must, unless the layer is cached.
    pub open spec fn spec_removed_after_build(&self) -> bool {
        !self.cache
    }

    /// Whether the engine must remove the layer's directory and metadata
    /// document when the build ends.
    #[verifier::when_used_as_spec(spec_removed_after_build)]
    pub fn removed_after_build(&self) -> (removed: bool)
        ensures
            removed == self.spec_removed_after_build(),
    {
        !self.cache
    }

    /// Whether nothing keeps the layer beyond this build: no phase uses it
    /// and it is not cached.
    pub open spec fn spec_is_discarded(&self) -> bool {
        !self.launch && !self.build && !self.cache
    }

    /// Whether nothing keeps the layer beyond this build.
    #[verifier::when_used_as_spec(spec_is_discarded)]
    pub fn is_discarded(&self) -> (discarded: bool)
        ensures
            discarded == self.spec_is_discarded(),
    {
        !self.launch && !self.build && !self.cache
    }
}

pub open spec fn spec_content_metadata<M>(types: LayerTypes, metadata: M) -> LayerContentMetadata<M> {
    LayerContentMetadata { launch: types.launch, build: types.build, cache: types.cache, metadata }
}

pub open spec fn spec_from_document<M>(types: Option<LayerTypes>, metadata: M) -> LayerContentMetadata<M> {
    match types {
        Some(types) => spec_content_metadata(types, metadata),
        None => LayerContentMetadata { launch: false, build: false, cache: false, metadata },
    }
}

pub open spec fn spec_into_document<M>(content: LayerContentMetadata<M>) -> (Option<LayerTypes>, M) {
    (Some(content.spec_types()), content.metadata)
}

/// Content metadata that is split into a document and read back is the
/// content metadata it was.
pub proof fn lemma_document_round_trip<M>(content: LayerContentMetadata<M>)
    ensures
        spec_from_document(spec_into_document(content).0, spec_into_document(content).1)
            == content,
{
}

/// A layer that nothing keeps is removed when the build ends.
pub proof fn lemma_discarded_is_removed<M>(content: LayerContentMetadata<M>)
    requires
        content.spec_is_discarded(),
    ensures
        content.spec_removed_after_build(),
{
}

/// What a create or update hook returns.
#[derive(Debug)]
pub struct LayerResult<M> {
    /// The buildpack's value to persist with the layer.
    pub metadata: M,
    /// Flags to persist in place of the layer's declared ones, if any.
    pub types: Option<LayerTypes>,
    /// Software inventories of the layer, in the order they were added.
    pub sboms: Vec<Sbom>,
    /// Environment changes of the layer, in the order they were added.
    pub env: Vec<EnvOperation>,
}

/// Builds a [`LayerResult`] step by step.
pub struct LayerResultBuilder<M> {
    metadata: M,
    types: Option<LayerTypes>,
    sboms: Vec<Sbom>,
    env: Vec<EnvOperation>,
}

impl<M> View for LayerResultBuilder<M> {
    type V = LayerResult<M>;

    closed spec fn view(&self) -> LayerResult<M> {
        LayerResult { metadata: self.metadata, types: self.types, sboms: self.sboms, env: self.env }
    }
}

impl<M> LayerResultBuilder<M> {
    /// Starts with `metadata`, no flags of its own, no inventory and no
    /// environment change.
    pub fn new(metadata: M) -> (builder: Self)
        ensures
            builder@.metadata == metadata,
            builder@.types.is_none(),
            builder@.sboms@ == Seq::<Sbom>::empty(),
            builder@.env@ == Seq::<EnvOperation>::empty(),
    {
        LayerResultBuilder { metadata, types: None, sboms: Vec::new(), env: Vec::new() }
    }

    /// Sets the flags to persist in place of the layer's declared ones.
    pub fn types(self, types: LayerTypes) -> (builder: Self)
        ensures
            builder@ == (LayerResult { types: Some(types), ..self@ }),
    {
        LayerResultBuilder { types: Some(types), ..self }
    }

    /// Adds an inventory behind those already added.
    pub fn sbom(self, sbom: Sbom) -> (builder: Self)
        ensures
            builder@.metadata == self@.metadata,
            builder@.types == self@.types,
            builder@.sboms@ == self@.sboms@.push(sbom),
            builder@.env == self@.env,
    {
        let mut builder = self;
        builder.sboms.push(sbom);
        builder
    }

    /// Adds an environment change behind those already added.
    pub fn env(self, operation: EnvOperation) -> (builder: Self)
        ensures
            builder@.metadata == self@.metadata,
            builder@.types == self@.types,
            builder@.sboms == self@.sboms,
            builder@.env@ == self@.env@.push(operation),
    {
        let mut builder = self;
        builder.env.push(operation);
        builder
    }

    /// Finishes, wrapped as the successful result of a hook.
    pub fn build<E>(self) -> (result: Result<LayerResult<M>, E>)
        ensures
            result == Ok::<LayerResult<M>, E>(self@),
    {
        Ok(self.build_unwrapped())
    }

    /// Finishes.
    pub fn build_unwrapped(self) -> (result: LayerResult<M>)
        ensures
            result == self@,
    {
        LayerResult { metadata: self.metadata, types: self.types, sboms: self.sboms, env: self.env }
    }
}

/// A layer as the engine hands it to hooks and back to the buildpack.
#[derive(Debug)]
pub struct LayerData<M> {
    pub name: String,
    /// The layer's directory.
    pub path: String,
    pub content_metadata: LayerContentMetadata<M>,
}

/// The hooks with which a buildpack creates and maintains one layer.
///
/// Each hook comes with a predicate that says which results it may return
/// for which arguments. Unless a layer says more, every result is possible.
pub trait Layer {
    type Buildpack: Buildpack;

    type Metadata;

    /// Whether `types` are flags that the layer may declare.
    open spec fn declares(&self, types: LayerTypes) -> bool {
        true
    }

    /// Whether `result` is a possible outcome of creating the layer in the
    /// directory `layer_path`.
    open spec fn creates(
        &self,
        context: &BuildContext<Self::Buildpack>,
        layer_path: Seq<char>,
        result: Result<LayerResult<Self::Metadata>, <Self::Buildpack as Buildpack>::Error>,
    ) -> bool {
        true
    }

    /// Whether `result` is a possible decision about the existing layer.
    open spec fn decides(
        &self,
        context: &BuildContext<Self::Buildpack>,
        layer_data: &LayerData<Self::Metadata>,
        result: Result<ExistingLayerStrategy, <Self::Buildpack as Buildpack>::Error>,
    ) -> bool {
        true
    }

    /// Whether `result` is a possible outcome of updating the existing layer.
    open spec fn updates(
        &self,
        context: &BuildContext<Self::Buildpack>,
        layer_data: &LayerData<Self::Metadata>,
        result: Result<LayerResult<Self::Metadata>, <Self::Buildpack as Buildpack>::Error>,
    ) -> bool {
        true
    }

    /// The flags to persist with the layer unless a hook's result overrides
    /// them.
    fn types(&self) -> (types: LayerTypes)
        ensures
            self.declares(types),
    ;

    /// Fills the empty directory `layer_path`.
    fn create(&self, context: &BuildContext<Self::Buildpack>, layer_path: &str) -> (result: Result<
        LayerResult<Self::Metadata>,
        <Self::Buildpack as Buildpack>::Error,
    >)
        ensures
            self.creates(context, layer_path@, result),
    ;

    /// Decides what happens to a layer that an earlier build left behind.
    fn existing_layer_strategy(
        &self,
        context: &BuildContext<Self::Buildpack>,
        layer_data: &LayerData<Self::Metadata>,
    ) -> (result: Result<ExistingLayerStrategy, <Self::Buildpack as Buildpack>::Error>)
        ensures
            self.decides(context, layer_data, result),
    ;

    /// Changes an existing layer's directory in place.
    fn update(
        &self,
        context: &BuildContext<Self::Buildpack>,
        layer_data: &LayerData<Self::Metadata>,
    ) -> (result: Result<LayerResult<Self::Metadata>, <Self::Buildpack as Buildpack>::Error>)
        ensures
            self.updates(context, layer_data, result),
    ;
}

} // verus!
