//! The lifecycle of one layer during a build.
//!
//! Handling a layer alternates between work on disk and decisions. The
//! decisions are made here; the work on disk is left to the caller. A
//! [`HandleLayer`] says in its stage what the caller has to do next, and
//! [`HandleLayer::advance`] takes what came of it, calls the buildpack's
//! hooks as far as they are due, and yields either the next piece of work
//! or the final outcome.

use crate::build_phase::BuildContext;
use crate::buildpack::Buildpack;
use crate::error::{EngineError, Error, SerializationFault};
use crate::layer::{
    ExistingLayerStrategy, Layer, LayerContentMetadata, LayerData, LayerResult, LayerTypes,
};
use crate::layer_env::EnvOperation;
use crate::sbom::Sbom;
use vstd::prelude::*;
use vstd::string::StringExecFns;

verus! {

/// The work on disk that the engine waits for.
pub enum Stage<M> {
    /// The layer's directory has to exist; creating it where it already
    /// exists is no failure.
    EnsureDirectory,
    /// The layer's metadata document has to be read.
    LoadMetadata,
    /// The layer's directory and metadata document have to be removed, after
    /// which the layer is created anew. A missing target is no failure.
    RemoveForRecreate,
    /// The layer's directory has to be created again, empty.
    RestoreDirectory,
    /// The layer's directory and metadata document have to be removed for
    /// good. A missing target is no failure.
    RemoveForDelete,
    /// The metadata document has to be written so that no reader ever sees
    /// half of it, and inventories and environment changes recorded.
    Persist { content_metadata: LayerContentMetadata<M>, sboms: Vec<Sbom>, env: Vec<EnvOperation> },
}

/// What reading a metadata document came to.
pub enum LoadOutcome<M> {
    /// There is no document: no earlier build left this layer behind.
    Absent,
    /// The document, as it was stored.
    Present(LayerContentMetadata<M>),
    /// The document is not well-formed.
    Malformed,
    /// The document is well-formed but not of the shape that the layer's
    /// metadata has.
    SchemaMismatch,
}

/// What came of a piece of work on disk.
pub enum Response<M> {
    /// Creating, removing or persisting succeeded.
    Done,
    /// Reading the metadata document ended without an I/O failure.
    Loaded(LoadOutcome<M>),
    /// The work failed; the diagnostic says how.
    Failed(String),
}

/// A layer that is being handled, between two pieces of work on disk.
pub struct HandleLayer<M> {
    pub name: String,
    /// The layer's directory.
    pub path: String,
    pub stage: Stage<M>,
}

/// Where handling a layer stands after a decision.
pub enum Step<M, E> {
    /// The caller has work to do, named by the stage.
    Pending(HandleLayer<M>),
    /// Handling is over. On success the layer is returned, or nothing if the
    /// buildpack decided to delete it.
    Finished(Result<Option<LayerData<M>>, Error<E>>),
}

/// The directory of the layer `name` under `layers_dir`.
pub open spec fn spec_layer_path(layers_dir: Seq<char>, name: Seq<char>) -> Seq<char> {
    layers_dir + seq!['/'] + name
}

/// The metadata document that belongs to the directory `layer_path`.
pub open spec fn spec_metadata_document_path(layer_path: Seq<char>) -> Seq<char> {
    layer_path + seq!['.', 't', 'o', 'm', 'l']
}

/// The directory of the layer `name` under `layers_dir`.
pub fn layer_path(layers_dir: &str, name: &str) -> (path: String)
    ensures
        path@ == spec_layer_path(layers_dir@, name@),
{
    proof {
        reveal_strlit("/");
    }
    assert("/"@ =~= seq!['/']);
    String::from_str(layers_dir).concat("/").concat(name)
}

/// The metadata document that belongs to the directory `layer_path`: it lies
/// beside the directory and has the directory's name with `.toml` behind it.
pub fn metadata_document_path(layer_path: &str) -> (path: String)
    ensures
        path@ == spec_metadata_document_path(layer_path@),
{
    proof {
        reveal_strlit(".toml");
    }
    assert(".toml"@ =~= seq!['.', 't', 'o', 'm', 'l']);
    String::from_str(layer_path).concat(".toml")
}

impl<M> Response<M> {
    /// Whether this response is one that `stage` can be answered with: a
    /// loaded document answers only a read, plain success only the other
    /// stages, and a failure any stage.
    pub open spec fn spec_answers(&self, stage: &Stage<M>) -> bool {
        match self {
            Response::Done => !(stage is LoadMetadata),
            Response::Loaded(_) => stage is LoadMetadata,
            Response::Failed(_) => true,
        }
    }

    /// Whether this response is one that `stage` can be answered with.
    #[verifier::when_used_as_spec(spec_answers)]
    pub fn answers(&self, stage: &Stage<M>) -> (fits: bool)
        ensures
            fits == self.spec_answers(stage),
    {
        let reading = match stage {
            Stage::LoadMetadata => true,
            _ => false,
        };
        match self {
            Response::Done => !reading,
            Response::Loaded(_) => reading,
            Response::Failed(_) => true,
        }
    }
}

/// The step at which handling starts: a name that is not accepted ends it at
/// once, before any work on disk; an accepted one asks for the layer's
/// directory.
pub open spec fn spec_begins<M, E>(
    layers_dir: Seq<char>,
    name: Seq<char>,
    accepted: bool,
    out: Step<M, E>,
) -> bool {
    if accepted {
        &&& out matches Step::Pending(handling)
        &&& handling.name@ == name
        &&& handling.path@ == spec_layer_path(layers_dir, name)
        &&& handling.stage is EnsureDirectory
    } else {
        &&& out matches Step::Finished(Err(Error::EngineError(EngineError::InvalidLayerName(refused))))
        &&& refused@ == name
    }
}

/// Starts handling the layer `name`, given whether the name was accepted.
pub fn begin<M, E>(layers_dir: &str, name: &str, accepted: bool) -> (out: Step<M, E>)
    ensures
        spec_begins(layers_dir@, name@, accepted, out),
{
    if accepted {
        Step::Pending(
            HandleLayer {
                name: String::from_str(name),
                path: layer_path(layers_dir, name),
                stage: Stage::EnsureDirectory,
            },
        )
    } else {
        Step::Finished(
            Err(Error::EngineError(EngineError::InvalidLayerName(String::from_str(name)))),
        )
    }
}

/// What follows a create or update hook: its failure ends handling as the
/// buildpack's failure, with nothing persisted; its result is to be
/// persisted, with the flags it names or else the declared ones.
pub open spec fn spec_after_hook<M, E>(
    name: String,
    path: String,
    declared: LayerTypes,
    result: Result<LayerResult<M>, E>,
) -> Step<M, E> {
    match result {
        Ok(layer_result) => Step::Pending(
            HandleLayer {
                name,
                path,
                stage: Stage::Persist {
                    content_metadata: crate::layer::spec_content_metadata(
                        match layer_result.types {
                            Some(types) => types,
                            None => declared,
                        },
                        layer_result.metadata,
                    ),
                    sboms: layer_result.sboms,
                    env: layer_result.env,
                },
            },
        ),
        Err(error) => Step::Finished(Err(Error::BuildpackError(error))),
    }
}

/// Decides what follows a create or update hook that returned `result`.
pub fn after_hook<M, E>(
    name: String,
    path: String,
    declared: LayerTypes,
    result: Result<LayerResult<M>, E>,
) -> (out: Step<M, E>)
    ensures
        out == spec_after_hook(name, path, declared, result),
{
    match result {
        Ok(layer_result) => {
            let types = match layer_result.types {
                Some(types) => types,
                None => declared,
            };
            Step::Pending(
                HandleLayer {
                    name,
                    path,
                    stage: Stage::Persist {
                        content_metadata: LayerContentMetadata::from_parts(
                            types,
                            layer_result.metadata,
                        ),
                        sboms: layer_result.sboms,
                        env: layer_result.env,
                    },
                },
            )
        },
        Err(error) => Step::Finished(Err(Error::BuildpackError(error))),
    }
}

/// What a strategy hook's answer leads to.
pub enum Decision<M, E> {
    /// Handling goes on or ends as the step says, with no further hook.
    Settled(Step<M, E>),
    /// The update hook is due for this layer.
    Update(LayerData<M>),
}

/// What follows the strategy hook. Keeping ends handling with the existing
/// layer as it is. Updating calls for the update hook on the existing layer.
/// Recreating and deleting both ask for the layer's removal. A failure of
/// the hook ends handling as the buildpack's failure.
pub open spec fn spec_after_strategy<M, E>(
    existing: LayerData<M>,
    result: Result<ExistingLayerStrategy, E>,
) -> Decision<M, E> {
    match result {
        Ok(ExistingLayerStrategy::Keep) => Decision::Settled(Step::Finished(Ok(Some(existing)))),
        Ok(ExistingLayerStrategy::Update) => Decision::Update(existing),
        Ok(ExistingLayerStrategy::Recreate) => Decision::Settled(
            Step::Pending(
                HandleLayer {
                    name: existing.name,
                    path: existing.path,
                    stage: Stage::RemoveForRecreate,
                },
            ),
        ),
        Ok(ExistingLayerStrategy::Delete) => Decision::Settled(
            Step::Pending(
                HandleLayer {
                    name: existing.name,
                    path: existing.path,
                    stage: Stage::RemoveForDelete,
                },
            ),
        ),
        Err(error) => Decision::Settled(Step::Finished(Err(Error::BuildpackError(error)))),
    }
}

/// Decides what follows a strategy hook that returned `result` for the
/// layer `existing`.
pub fn after_strategy<M, E>(
    existing: LayerData<M>,
    result: Result<ExistingLayerStrategy, E>,
) -> (decision: Decision<M, E>)
    ensures
        decision == spec_after_strategy(existing, result),
{
    match result {
        Ok(ExistingLayerStrategy::Keep) => Decision::Settled(Step::Finished(Ok(Some(existing)))),
        Ok(ExistingLayerStrategy::Update) => Decision::Update(existing),
        Ok(ExistingLayerStrategy::Recreate) => Decision::Settled(
            Step::Pending(
                HandleLayer {
                    name: existing.name,
                    path: existing.path,
                    stage: Stage::RemoveForRecreate,
                },
            ),
        ),
        Ok(ExistingLayerStrategy::Delete) => Decision::Settled(
            Step::Pending(
                HandleLayer {
                    name: existing.name,
                    path: existing.path,
                    stage: Stage::RemoveForDelete,
                },
            ),
        ),
        Err(error) => Decision::Settled(Step::Finished(Err(Error::BuildpackError(error)))),
    }
}

/// Whether `out` is what creating the layer can lead to: the create hook
/// returned some result for the layer's directory, the layer declared some
/// flags, and `out` is what follows that result with those flags.
pub open spec fn spec_created<L: Layer>(
    layer: &L,
    context: &BuildContext<L::Buildpack>,
    name: String,
    path: String,
    out: Step<L::Metadata, <L::Buildpack as Buildpack>::Error>,
) -> bool {
    exists|
        result: Result<LayerResult<L::Metadata>, <L::Buildpack as Buildpack>::Error>,
        declared: LayerTypes,
    |
        #[trigger] layer.creates(context, path@, result) && #[trigger] layer.declares(declared)
            && out == spec_after_hook(name, path, declared, result)
}

/// Whether `out` is what updating the layer `existing` can lead to: the
/// update hook returned some result for that layer, the layer declared some
/// flags, and `out` is what follows that result with those flags.
pub open spec fn spec_updated<L: Layer>(
    layer: &L,
    context: &BuildContext<L::Buildpack>,
    existing: LayerData<L::Metadata>,
    out: Step<L::Metadata, <L::Buildpack as Buildpack>::Error>,
) -> bool {
    exists|
        result: Result<LayerResult<L::Metadata>, <L::Buildpack as Buildpack>::Error>,
        declared: LayerTypes,
    |
        #[trigger] layer.updates(context, &existing, result) && #[trigger] layer.declares(declared)
            && out == spec_after_hook(existing.name, existing.path, declared, result)
}

/// Whether `out` is what the answer `decision` of the strategy hook about
/// the layer `existing` can lead to.
pub open spec fn spec_follows_strategy<L: Layer>(
    layer: &L,
    context: &BuildContext<L::Buildpack>,
    existing: LayerData<L::Metadata>,
    decision: Result<ExistingLayerStrategy, <L::Buildpack as Buildpack>::Error>,
    out: Step<L::Metadata, <L::Buildpack as Buildpack>::Error>,
) -> bool {
    match spec_after_strategy(existing, decision) {
        Decision::Settled(step) => out == step,
        Decision::Update(layer_data) => spec_updated(layer, context, layer_data, out),
    }
}

/// Whether `out` is what finding the stored metadata `stored` can lead to:
/// the strategy hook returned some answer about the existing layer, and
/// `out` is what that answer leads to.
pub open spec fn spec_found<L: Layer>(
    layer: &L,
    context: &BuildContext<L::Buildpack>,
    name: String,
    path: String,
    stored: LayerContentMetadata<L::Metadata>,
    out: Step<L::Metadata, <L::Buildpack as Buildpack>::Error>,
) -> bool {
    exists|decision: Result<ExistingLayerStrategy, <L::Buildpack as Buildpack>::Error>|
        #[trigger] layer.decides(
            context,
            &(LayerData { name, path, content_metadata: stored }),
            decision,
        ) && spec_follows_strategy(
            layer,
            context,
            LayerData { name, path, content_metadata: stored },
            decision,
            out,
        )
}

/// Whether handling, standing at `handling` and answered with `response`,
/// can go on to `out`.
pub open spec fn spec_advances<L: Layer>(
    layer: &L,
    context: &BuildContext<L::Buildpack>,
    handling: HandleLayer<L::Metadata>,
    response: Response<L::Metadata>,
    out: Step<L::Metadata, <L::Buildpack as Buildpack>::Error>,
) -> bool {
    match response {
        Response::Failed(diagnostic) => out == Step::<
            L::Metadata,
            <L::Buildpack as Buildpack>::Error,
        >::Finished(Err(Error::EngineError(EngineError::Io(diagnostic)))),
        Response::Loaded(LoadOutcome::Absent) => spec_created(
            layer,
            context,
            handling.name,
            handling.path,
            out,
        ),
        Response::Loaded(LoadOutcome::Present(stored)) => spec_found(
            layer,
            context,
            handling.name,
            handling.path,
            stored,
            out,
        ),
        Response::Loaded(LoadOutcome::Malformed) => out == Step::<
            L::Metadata,
            <L::Buildpack as Buildpack>::Error,
        >::Finished(
            Err(Error::EngineError(EngineError::Serialization(SerializationFault::Malformed))),
        ),
        Response::Loaded(LoadOutcome::SchemaMismatch) => out == Step::<
            L::Metadata,
            <L::Buildpack as Buildpack>::Error,
        >::Finished(
            Err(Error::EngineError(EngineError::Serialization(SerializationFault::Schema))),
        ),
        Response::Done => match handling.stage {
            Stage::EnsureDirectory => out == Step::<
                L::Metadata,
                <L::Buildpack as Buildpack>::Error,
            >::Pending(
                HandleLayer { name: handling.name, path: handling.path, stage: Stage::LoadMetadata },
            ),
            Stage::LoadMetadata => false,
            Stage::RemoveForRecreate => out == Step::<
                L::Metadata,
                <L::Buildpack as Buildpack>::Error,
            >::Pending(
                HandleLayer {
                    name: handling.name,
                    path: handling.path,
                    stage: Stage::RestoreDirectory,
                },
            ),
            Stage::RestoreDirectory => spec_created(
                layer,
                context,
                handling.name,
                handling.path,
                out,
            ),
            Stage::RemoveForDelete => out == Step::<
                L::Metadata,
                <L::Buildpack as Buildpack>::Error,
            >::Finished(Ok(None)),
            Stage::Persist { content_metadata, sboms, env } => out == Step::<
                L::Metadata,
                <L::Buildpack as Buildpack>::Error,
            >::Finished(
                Ok(Some(LayerData { name: handling.name, path: handling.path, content_metadata })),
            ),
        },
    }
}

/// Calls the create hook for the layer's directory and decides what follows.
fn create_layer<L: Layer>(
    layer: &L,
    context: &BuildContext<L::Buildpack>,
    name: String,
    path: String,
) -> (out: Step<L::Metadata, <L::Buildpack as Buildpack>::Error>)
    ensures
        spec_created(layer, context, name, path, out),
{
    let result = layer.create(context, path.as_str());
    let declared = layer.types();
    after_hook(name, path, declared, result)
}

/// Asks the strategy hook about the stored layer, calls the update hook if
/// that is the answer, and decides what follows.
fn maintain_layer<L: Layer>(
    layer: &L,
    context: &BuildContext<L::Buildpack>,
    name: String,
    path: String,
    stored: LayerContentMetadata<L::Metadata>,
) -> (out: Step<L::Metadata, <L::Buildpack as Buildpack>::Error>)
    ensures
        spec_found(layer, context, name, path, stored, out),
{
    let existing = LayerData { name, path, content_metadata: stored };
    let decision = layer.existing_layer_strategy(context, &existing);
    match after_strategy(existing, decision) {
        Decision::Settled(step) => step,
        Decision::Update(layer_data) => {
            let result = layer.update(context, &layer_data);
            let declared = layer.types();
            after_hook(layer_data.name, layer_data.path, declared, result)
        },
    }
}

/// Takes what came of the work that `handling` asked for, calls the hooks
/// that are due, and yields the next piece of work or the final outcome.
///
/// A failure of the work ends handling as an engine failure. A hook's
/// failure ends it as the buildpack's failure, unchanged; no hook is called
/// a second time and nothing is undone.
pub fn advance<L: Layer>(
    handling: HandleLayer<L::Metadata>,
    layer: &L,
    context: &BuildContext<L::Buildpack>,
    response: Response<L::Metadata>,
) -> (out: Step<L::Metadata, <L::Buildpack as Buildpack>::Error>)
    requires
        response.spec_answers(&handling.stage),
    ensures
        spec_advances(layer, context, handling, response, out),
{
    let HandleLayer { name, path, stage } = handling;
    match response {
        Response::Failed(diagnostic) => Step::Finished(
            Err(Error::EngineError(EngineError::Io(diagnostic))),
        ),
        Response::Loaded(LoadOutcome::Absent) => create_layer(layer, context, name, path),
        Response::Loaded(LoadOutcome::Present(stored)) => maintain_layer(
            layer,
            context,
            name,
            path,
            stored,
        ),
        Response::Loaded(LoadOutcome::Malformed) => Step::Finished(
            Err(Error::EngineError(EngineError::Serialization(SerializationFault::Malformed))),
        ),
        Response::Loaded(LoadOutcome::SchemaMismatch) => Step::Finished(
            Err(Error::EngineError(EngineError::Serialization(SerializationFault::Schema))),
        ),
        Response::Done => match stage {
            Stage::EnsureDirectory => Step::Pending(
                HandleLayer { name, path, stage: Stage::LoadMetadata },
            ),
            Stage::LoadMetadata => {
                assert(false);
                Step::Finished(Ok(None))
            },
            Stage::RemoveForRecreate => Step::Pending(
                HandleLayer { name, path, stage: Stage::RestoreDirectory },
            ),
            Stage::RestoreDirectory => create_layer(layer, context, name, path),
            Stage::RemoveForDelete => Step::Finished(Ok(None)),
            Stage::Persist { content_metadata, sboms, env } => Step::Finished(
                Ok(Some(LayerData { name, path, content_metadata })),
            ),
        },
    }
}

/// A name that is not accepted ends handling at once with
/// `InvalidLayerName`: no work on disk is asked for, so no directory is
/// created.
pub proof fn lemma_refused_name_ends_handling<M, E>(
    layers_dir: Seq<char>,
    name: Seq<char>,
    out: Step<M, E>,
)
    requires
        spec_begins(layers_dir, name, false, out),
    ensures
        !(out is Pending),
        out matches Step::Finished(Err(Error::EngineError(EngineError::InvalidLayerName(refused))))
            && refused@ == name,
{
}

/// A layer of which no metadata document is found is created: what follows
/// is what follows some result of the create hook, whatever the strategy
/// and update hooks would do. It is either the buildpack's failure or the
/// request to persist.
pub proof fn lemma_new_layer_is_created<L: Layer>(
    layer: &L,
    context: &BuildContext<L::Buildpack>,
    handling: HandleLayer<L::Metadata>,
    out: Step<L::Metadata, <L::Buildpack as Buildpack>::Error>,
)
    requires
        handling.stage is LoadMetadata,
        spec_advances(layer, context, handling, Response::Loaded(LoadOutcome::Absent), out),
    ensures
        spec_created(layer, context, handling.name, handling.path, out),
        (out matches Step::Pending(next) && next.stage is Persist) || (out matches Step::Finished(
            Err(Error::BuildpackError(_)),
        )),
{
}

/// Keeping a layer ends handling at once: no further hook is called, no work
/// on disk is asked for, and the layer is returned with the metadata that
/// was stored.
pub proof fn lemma_keep_returns_stored<L: Layer>(
    layer: &L,
    context: &BuildContext<L::Buildpack>,
    existing: LayerData<L::Metadata>,
    out: Step<L::Metadata, <L::Buildpack as Buildpack>::Error>,
)
    requires
        spec_follows_strategy(layer, context, existing, Ok(ExistingLayerStrategy::Keep), out),
    ensures
        out == Step::<L::Metadata, <L::Buildpack as Buildpack>::Error>::Finished(
            Ok(Some(existing)),
        ),
{
}

/// Updating a layer calls the update hook with the layer as it was stored.
/// What the hook returns is what is persisted, and nothing is removed on the
/// way: the next work on disk, if any, is persisting.
pub proof fn lemma_update_persists_hook_result<L: Layer>(
    layer: &L,
    context: &BuildContext<L::Buildpack>,
    existing: LayerData<L::Metadata>,
    out: Step<L::Metadata, <L::Buildpack as Buildpack>::Error>,
)
    requires
        spec_follows_strategy(layer, context, existing, Ok(ExistingLayerStrategy::Update), out),
    ensures
        spec_updated(layer, context, existing, out),
        out matches Step::Pending(next) ==> {
            &&& next.name == existing.name
            &&& next.path == existing.path
            &&& next.stage matches Stage::Persist { content_metadata, sboms, env }
            &&& exists|updated: LayerResult<L::Metadata>|
                {
                    &&& #[trigger] layer.updates(context, &existing, Ok(updated))
                    &&& content_metadata.metadata == updated.metadata
                    &&& sboms == updated.sboms
                    &&& env == updated.env
                }
        },
{
    if out is Pending {
        let (result, declared) = choose|
            result: Result<LayerResult<L::Metadata>, <L::Buildpack as Buildpack>::Error>,
            declared: LayerTypes,
        |
            #[trigger] layer.updates(context, &existing, result) && #[trigger] layer.declares(
                declared,
            ) && out == spec_after_hook(existing.name, existing.path, declared, result);
        assert(result is Ok);
        assert(layer.updates(context, &existing, Ok(result->Ok_0)));
    }
}

/// Recreating a layer first asks for its removal.
pub proof fn lemma_recreate_removes_first<L: Layer>(
    layer: &L,
    context: &BuildContext<L::Buildpack>,
    existing: LayerData<L::Metadata>,
    out: Step<L::Metadata, <L::Buildpack as Buildpack>::Error>,
)
    requires
        spec_follows_strategy(layer, context, existing, Ok(ExistingLayerStrategy::Recreate), out),
    ensures
        out == Step::<L::Metadata, <L::Buildpack as Buildpack>::Error>::Pending(
            HandleLayer {
                name: existing.name,
                path: existing.path,
                stage: Stage::RemoveForRecreate,
            },
        ),
{
}

/// Once a layer that is recreated has been removed, its empty directory is
/// asked for, and from there handling goes on exactly as it does for a layer
/// of the same name and directory of which no metadata document was found.
pub proof fn lemma_recreate_continues_as_new<L: Layer>(
    layer: &L,
    context: &BuildContext<L::Buildpack>,
    name: String,
    path: String,
    removed: Step<L::Metadata, <L::Buildpack as Buildpack>::Error>,
    out: Step<L::Metadata, <L::Buildpack as Buildpack>::Error>,
)
    requires
        spec_advances(
            layer,
            context,
            HandleLayer { name, path, stage: Stage::RemoveForRecreate },
            Response::Done,
            removed,
        ),
    ensures
        removed == Step::<L::Metadata, <L::Buildpack as Buildpack>::Error>::Pending(
            HandleLayer { name, path, stage: Stage::RestoreDirectory },
        ),
        spec_advances(
            layer,
            context,
            HandleLayer { name, path, stage: Stage::RestoreDirectory },
            Response::Done,
            out,
        ) <==> spec_advances(
            layer,
            context,
            HandleLayer { name, path, stage: Stage::LoadMetadata },
            Response::Loaded(LoadOutcome::Absent),
            out,
        ),
{
}

/// Deleting a layer asks for its removal, after which handling ends with no
/// layer returned and nothing persisted.
pub proof fn lemma_delete_returns_nothing<L: Layer>(
    layer: &L,
    context: &BuildContext<L::Buildpack>,
    existing: LayerData<L::Metadata>,
    asked: Step<L::Metadata, <L::Buildpack as Buildpack>::Error>,
    out: Step<L::Metadata, <L::Buildpack as Buildpack>::Error>,
)
    requires
        spec_follows_strategy(layer, context, existing, Ok(ExistingLayerStrategy::Delete), asked),
        spec_advances(
            layer,
            context,
            HandleLayer {
                name: existing.name,
                path: existing.path,
                stage: Stage::RemoveForDelete,
            },
            Response::Done,
            out,
        ),
    ensures
        asked == Step::<L::Metadata, <L::Buildpack as Buildpack>::Error>::Pending(
            HandleLayer { name: existing.name, path: existing.path, stage: Stage::RemoveForDelete },
        ),
        out == Step::<L::Metadata, <L::Buildpack as Buildpack>::Error>::Finished(Ok(None)),
{
}

/// Work on disk that fails ends handling as an engine failure that carries
/// the diagnostic, at every stage and before any hook is called.
pub proof fn lemma_failed_work_is_an_engine_failure<L: Layer>(
    layer: &L,
    context: &BuildContext<L::Buildpack>,
    handling: HandleLayer<L::Metadata>,
    diagnostic: String,
    out: Step<L::Metadata, <L::Buildpack as Buildpack>::Error>,
)
    requires
        spec_advances(layer, context, handling, Response::Failed(diagnostic), out),
    ensures
        out == Step::<L::Metadata, <L::Buildpack as Buildpack>::Error>::Finished(
            Err(Error::EngineError(EngineError::Io(diagnostic))),
        ),
{
}

/// A document that cannot be read as a value ends handling as an engine
/// failure, before any hook is called.
pub proof fn lemma_unreadable_document_is_an_engine_failure<L: Layer>(
    layer: &L,
    context: &BuildContext<L::Buildpack>,
    handling: HandleLayer<L::Metadata>,
    outcome: LoadOutcome<L::Metadata>,
    out: Step<L::Metadata, <L::Buildpack as Buildpack>::Error>,
)
    requires
        outcome is Malformed || outcome is SchemaMismatch,
        spec_advances(layer, context, handling, Response::Loaded(outcome), out),
    ensures
        out matches Step::Finished(Err(Error::EngineError(EngineError::Serialization(fault))))
            && (fault == SerializationFault::Malformed <==> outcome is Malformed),
{
}

/// A hook's failure is never turned into an engine failure: where the work
/// on disk succeeded and the document, if one was read, was readable, an
/// ending in failure is the buildpack's.
pub proof fn lemma_hook_failures_stay_with_the_buildpack<L: Layer>(
    layer: &L,
    context: &BuildContext<L::Buildpack>,
    handling: HandleLayer<L::Metadata>,
    response: Response<L::Metadata>,
    out: Step<L::Metadata, <L::Buildpack as Buildpack>::Error>,
)
    requires
        response.spec_answers(&handling.stage),
        response is Done || (response matches Response::Loaded(outcome) && (outcome is Absent
            || outcome is Present)),
        spec_advances(layer, context, handling, response, out),
        out matches Step::Finished(Err(_)),
    ensures
        out matches Step::Finished(Err(Error::BuildpackError(_))),
{
    match response {
        Response::Loaded(LoadOutcome::Present(stored)) => {
            let existing = LayerData {
                name: handling.name,
                path: handling.path,
                content_metadata: stored,
            };
            let decision = choose|
                decision: Result<ExistingLayerStrategy, <L::Buildpack as Buildpack>::Error>,
            |
                #[trigger] layer.decides(context, &existing, decision) && spec_follows_strategy(
                    layer,
                    context,
                    existing,
                    decision,
                    out,
                );
            assert(spec_follows_strategy(layer, context, existing, decision, out));
        },
        _ => {},
    }
}

/// A hook that fails ends handling with the hook's own error as the
/// buildpack's failure. No request to persist follows, so no metadata
/// document is written for the layer.
pub proof fn lemma_failed_hook_persists_nothing<M, E>(
    name: String,
    path: String,
    declared: LayerTypes,
    existing: LayerData<M>,
    error: E,
)
    ensures
        spec_after_hook::<M, E>(name, path, declared, Err(error)) == Step::<M, E>::Finished(
            Err(Error::BuildpackError(error)),
        ),
        spec_after_strategy::<M, E>(existing, Err(error)) == Decision::<M, E>::Settled(
            Step::Finished(Err(Error::BuildpackError(error))),
        ),
{
}

/// Under one layers directory, different names have different directories
/// and different metadata documents.
pub proof fn lemma_names_tell_layers_apart(layers_dir: Seq<char>, first: Seq<char>, second: Seq<char>)
    requires
        first != second,
    ensures
        spec_layer_path(layers_dir, first) != spec_layer_path(layers_dir, second),
        spec_metadata_document_path(spec_layer_path(layers_dir, first))
            != spec_metadata_document_path(spec_layer_path(layers_dir, second)),
{
    let prefix = layers_dir + seq!['/'];
    let ending = seq!['.', 't', 'o', 'm', 'l'];
    assert(spec_layer_path(layers_dir, first).subrange(
        prefix.len() as int,
        spec_layer_path(layers_dir, first).len() as int,
    ) =~= first);
    assert(spec_layer_path(layers_dir, second).subrange(
        prefix.len() as int,
        spec_layer_path(layers_dir, second).len() as int,
    ) =~= second);
    let first_document = spec_metadata_document_path(spec_layer_path(layers_dir, first));
    let second_document = spec_metadata_document_path(spec_layer_path(layers_dir, second));
    assert(first_document.subrange(
        prefix.len() as int,
        first_document.len() - ending.len(),
    ) =~= first);
    assert(second_document.subrange(
        prefix.len() as int,
        second_document.len() - ending.len(),
    ) =~= second);
}

/// The metadata document of a layer with an accepted name is neither the
/// launch file nor the store of the build.
pub proof fn lemma_layer_documents_spare_build_files(layers_dir: Seq<char>, name: Seq<char>)
    requires
        !crate::layer_name::spec_is_reserved(name),
    ensures
        spec_metadata_document_path(spec_layer_path(layers_dir, name))
            != crate::build_phase::spec_launch_file_path(layers_dir),
        spec_metadata_document_path(spec_layer_path(layers_dir, name))
            != crate::build_phase::spec_store_file_path(layers_dir),
{
    lemma_names_tell_layers_apart(layers_dir, name, "launch"@);
    lemma_names_tell_layers_apart(layers_dir, name, "store"@);
}

} // verus!
