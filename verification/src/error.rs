//! The two kinds of failure: the engine's own and the buildpack's.

use vstd::prelude::*;

verus! {

/// Why a metadata document could not be turned into a value.
#[derive(Debug, Clone, Copy, PartialEq, Eq, Structural)]
pub enum SerializationFault {
    /// The document is not well-formed.
    Malformed,
    /// The document is well-formed but does not have the expected shape.
    Schema,
}

/// Why a launch configuration was refused.
#[derive(Debug, Clone, Copy, PartialEq, Eq, Structural)]
pub enum LaunchSpecFault {
    /// More than one process is marked as the default.
    MultipleDefaults,
    /// Two processes have the same type.
    DuplicateProcessType,
}

/// A failure that originates in the engine or its environment.
#[derive(Debug)]
pub enum EngineError {
    /// Creating or removing a directory, or reading or writing a metadata
    /// document, failed. Carries the diagnostic of the failed operation.
    Io(String),
    /// A metadata document could not be turned into a value.
    Serialization(SerializationFault),
    /// The layer name, carried here, is not acceptable.
    InvalidLayerName(String),
    /// The launch configuration is inconsistent.
    InvalidLaunchSpec(LaunchSpecFault),
}

/// Who is responsible for a failure.
#[derive(Debug, Clone, Copy, PartialEq, Eq, Structural)]
pub enum FaultOrigin {
    Engine,
    Buildpack,
}

/// Any failure of a build: either the engine's, or an opaque value that a
/// buildpack hook returned.
#[derive(Debug)]
pub enum Error<E> {
    EngineError(EngineError),
    BuildpackError(E),
}

/// A build-phase result.
pub type Result<T, E> = core::result::Result<T, Error<E>>;

impl<E> Error<E> {
    /// The origin of this failure, as a specification.
    pub open spec fn spec_origin(&self) -> FaultOrigin {
        match self {
            Error::EngineError(_) => FaultOrigin::Engine,
            Error::BuildpackError(_) => FaultOrigin::Buildpack,
        }
    }

    /// Tells whose failure this is.
    #[verifier::when_used_as_spec(spec_origin)]
    pub fn origin(&self) -> (origin: FaultOrigin)
        ensures
            origin == self.spec_origin(),
    {
        match self {
            Error::EngineError(_) => FaultOrigin::Engine,
            Error::BuildpackError(_) => FaultOrigin::Buildpack,
        }
    }

    /// Wraps what a buildpack hook returned.
    pub fn from_buildpack(error: E) -> (wrapped: Self)
        ensures
            wrapped == Error::<E>::BuildpackError(error),
    {
        Error::BuildpackError(error)
    }

    /// Wraps an engine failure.
    pub fn from_engine(error: EngineError) -> (wrapped: Self)
        ensures
            wrapped == Error::<E>::EngineError(error),
    {
        Error::EngineError(error)
    }
}

/// Lifts a hook's own result into a build-phase result. Success passes
/// through; a failure becomes a buildpack failure with the same payload.
pub fn lift_hook_result<T, E>(result: core::result::Result<T, E>) -> (lifted: Result<T, E>)
    ensures
        lifted == spec_lift_hook_result(result),
{
    match result {
        Ok(value) => Ok(value),
        Err(error) => Err(Error::BuildpackError(error)),
    }
}

pub open spec fn spec_lift_hook_result<T, E>(result: core::result::Result<T, E>) -> Result<T, E> {
    match result {
        Ok(value) => Ok(value),
        Err(error) => Err(Error::BuildpackError(error)),
    }
}

} // verus!
