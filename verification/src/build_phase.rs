//! The build context that hooks read, and the result of a build.

use crate::buildpack::Buildpack;
use crate::error::{EngineError, Error};
use crate::launch::Launch;
use crate::sbom::Sbom;
use crate::handling::{begin, layer_path, metadata_document_path, Step};
use crate::layer::Layer;
use crate::layer_name::parses_as_layer_name;
use libcnb_data::buildpack::ComponentBuildpackDescriptor;
use libcnb_data::buildpack_plan::BuildpackPlan;
use libcnb_data::store::Store;
use vstd::prelude::*;

verus! {

/// The platform that the build runs for.
#[derive(Debug)]
pub struct Target {
    pub os: String,
    pub arch: String,
    pub arch_variant: Option<String>,
    pub distro_name: String,
    pub distro_version: String,
}

/// The inputs of one build. Hooks read it; nothing changes it.
pub struct BuildContext<B: Buildpack> {
    /// The directory under which every layer has its own directory.
    pub layers_dir: String,
    pub app_dir: String,
    pub buildpack_dir: String,
    pub target: Target,
    pub platform: B::Platform,
    pub buildpack_plan: BuildpackPlan,
    pub buildpack_descriptor: ComponentBuildpackDescriptor<B::Metadata>,
    pub store: Option<Store>,
}

impl<B: Buildpack> BuildContext<B> {
    /// Starts handling the layer `layer_name` with the hooks of `layer`.
    ///
    /// The name is checked first. One that is not accepted ends handling
    /// with `InvalidLayerName` before anything on disk is touched. For an
    /// accepted one the first piece of work is asked for: the layer's
    /// directory under the layers directory. From there on,
    /// [`advance`](crate::handling::advance) leads through the layer's
    /// lifecycle.
    pub fn handle_layer<L: Layer<Buildpack = B>>(&self, layer_name: &str, layer: &L) -> (out: Step<
        L::Metadata,
        B::Error,
    >)
        ensures
            crate::handling::spec_begins(
                self.layers_dir@,
                layer_name@,
                crate::layer_name::layer_name_accepted(layer_name@),
                out,
            ),
            out is Pending ==> layer_name@.len() > 0 && !crate::layer_name::spec_is_reserved(
                layer_name@,
            ),
    {
        let accepted = parses_as_layer_name(layer_name);
        begin(self.layers_dir.as_str(), layer_name, accepted)
    }
}

/// What a build result holds.
pub ghost struct BuildOutput {
    /// The launch configuration, if the build contributed one.
    pub launch: Option<Launch>,
    /// The store to carry to the next build, if any. It replaces the store
    /// that the build started with; the two are never merged.
    pub store: Option<Store>,
    /// Inventories of what the build itself used, in the order added.
    pub build_sboms: Seq<Sbom>,
    /// Inventories of what goes into the image, in the order added.
    pub launch_sboms: Seq<Sbom>,
}

/// The result of a successful build. Once built it cannot be changed.
#[derive(Debug)]
pub struct BuildResult {
    launch: Option<Launch>,
    store: Option<Store>,
    build_sboms: Vec<Sbom>,
    launch_sboms: Vec<Sbom>,
}

impl View for BuildResult {
    type V = BuildOutput;

    closed spec fn view(&self) -> BuildOutput {
        BuildOutput {
            launch: self.launch,
            store: self.store,
            build_sboms: self.build_sboms@,
            launch_sboms: self.launch_sboms@,
        }
    }
}

impl BuildResult {
    /// The launch configuration, if the build contributed one.
    pub fn launch(&self) -> (launch: &Option<Launch>)
        ensures
            *launch == self@.launch,
    {
        &self.launch
    }

    /// The store to carry to the next build, if any.
    pub fn store(&self) -> (store: &Option<Store>)
        ensures
            *store == self@.store,
    {
        &self.store
    }

    /// Inventories of what the build itself used.
    pub fn build_sboms(&self) -> (sboms: &Vec<Sbom>)
        ensures
            sboms@ == self@.build_sboms,
    {
        &self.build_sboms
    }

    /// Inventories of what goes into the image.
    pub fn launch_sboms(&self) -> (sboms: &Vec<Sbom>)
        ensures
            sboms@ == self@.launch_sboms,
    {
        &self.launch_sboms
    }
}

/// Collects what a build contributes, and turns it into a [`BuildResult`]
/// in one final step.
pub struct BuildResultBuilder {
    launch: Option<Launch>,
    store: Option<Store>,
    build_sboms: Vec<Sbom>,
    launch_sboms: Vec<Sbom>,
}

impl View for BuildResultBuilder {
    type V = BuildOutput;

    closed spec fn view(&self) -> BuildOutput {
        BuildOutput {
            launch: self.launch,
            store: self.store,
            build_sboms: self.build_sboms@,
            launch_sboms: self.launch_sboms@,
        }
    }
}

/// The output to which nothing was contributed.
pub open spec fn spec_empty_output() -> BuildOutput {
    BuildOutput {
        launch: None,
        store: None,
        build_sboms: Seq::empty(),
        launch_sboms: Seq::empty(),
    }
}

/// Whether an output can be finalized: its launch configuration, if it has
/// one, is free of faults.
pub open spec fn spec_finalizable(output: BuildOutput) -> bool {
    output.launch matches Some(launch) ==> launch.spec_fault() is None
}

impl BuildResultBuilder {
    /// Starts with no contribution at all.
    pub fn new() -> (builder: Self)
        ensures
            builder@ == spec_empty_output(),
    {
        BuildResultBuilder {
            launch: None,
            store: None,
            build_sboms: Vec::new(),
            launch_sboms: Vec::new(),
        }
    }

    /// Finalizes the build result. This is the one place where the launch
    /// configuration is checked: with more than one default process, or with
    /// two processes of one type, the build fails with `InvalidLaunchSpec`.
    pub fn build<E>(self) -> (result: Result<BuildResult, Error<E>>)
        ensures
            match result {
                Ok(built) => spec_finalizable(self@) && built@ == self@,
                Err(error) => self@.launch matches Some(launch) && launch.spec_fault() matches Some(
                    fault,
                ) && error == Error::<E>::EngineError(EngineError::InvalidLaunchSpec(fault)),
            },
    {
        let fault = match &self.launch {
            Some(launch) => launch.fault(),
            None => None,
        };
        match fault {
            Some(fault) => Err(Error::EngineError(EngineError::InvalidLaunchSpec(fault))),
            None => Ok(self.build_unwrapped()),
        }
    }

    /// Finalizes a build result whose launch configuration is known to be
    /// free of faults.
    pub fn build_unwrapped(self) -> (built: BuildResult)
        requires
            spec_finalizable(self@),
        ensures
            built@ == self@,
    {
        BuildResult {
            launch: self.launch,
            store: self.store,
            build_sboms: self.build_sboms,
            launch_sboms: self.launch_sboms,
        }
    }

    /// Sets the launch configuration, replacing an earlier one.
    pub fn launch(self, launch: Launch) -> (builder: Self)
        ensures
            builder@ == (BuildOutput { launch: Some(launch), ..self@ }),
    {
        BuildResultBuilder { launch: Some(launch), ..self }
    }

    /// Sets the store to carry to the next build. The last store set wins.
    pub fn store(self, store: Store) -> (builder: Self)
        ensures
            builder@ == (BuildOutput { store: Some(store), ..self@ }),
    {
        BuildResultBuilder { store: Some(store), ..self }
    }

    /// Adds an inventory of what the build itself used, behind those
    /// already added.
    pub fn build_sbom(self, sbom: Sbom) -> (builder: Self)
        ensures
            builder@ == (BuildOutput { build_sboms: self@.build_sboms.push(sbom), ..self@ }),
    {
        let mut builder = self;
        builder.build_sboms.push(sbom);
        builder
    }

    /// Adds an inventory of what goes into the image, behind those already
    /// added.
    pub fn launch_sbom(self, sbom: Sbom) -> (builder: Self)
        ensures
            builder@ == (BuildOutput { launch_sboms: self@.launch_sboms.push(sbom), ..self@ }),
    {
        let mut builder = self;
        builder.launch_sboms.push(sbom);
        builder
    }
}

/// Where the launch file of a build lies: in the layers directory, named
/// as the metadata document of a layer called `launch` would be.
pub open spec fn spec_launch_file_path(layers_dir: Seq<char>) -> Seq<char> {
    crate::handling::spec_metadata_document_path(
        crate::handling::spec_layer_path(layers_dir, "launch"@),
    )
}

/// Where the store of a build lies: in the layers directory, named as the
/// metadata document of a layer called `store` would be.
pub open spec fn spec_store_file_path(layers_dir: Seq<char>) -> Seq<char> {
    crate::handling::spec_metadata_document_path(
        crate::handling::spec_layer_path(layers_dir, "store"@),
    )
}

/// Where the launch file of a build lies.
pub fn launch_file_path(layers_dir: &str) -> (path: String)
    ensures
        path@ == spec_launch_file_path(layers_dir@),
{
    metadata_document_path(layer_path(layers_dir, "launch").as_str())
}

/// Where the store of a build lies.
pub fn store_file_path(layers_dir: &str) -> (path: String)
    ensures
        path@ == spec_store_file_path(layers_dir@),
{
    metadata_document_path(layer_path(layers_dir, "store").as_str())
}

} // verus!
