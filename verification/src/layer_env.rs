//! Changes that a layer makes to the environment.

use vstd::prelude::*;
use vstd::string::StringExecFns;

verus! {

/// When a change applies.
#[derive(Debug, Clone, Copy, PartialEq, Eq, Structural)]
pub enum Scope {
    /// During the build, for later layers and buildpacks.
    Build,
    /// In the processes of the launched image.
    Launch,
    /// Both during the build and at launch.
    All,
}

/// How a change treats the value that a variable already has.
#[derive(Debug, Clone, Copy, PartialEq, Eq, Structural)]
pub enum ModificationBehavior {
    /// Replace the value.
    Override,
    /// Put the new value in front of the old one.
    Prepend,
    /// Put the new value behind the old one.
    Append,
    /// Set the value only if the variable has none.
    Default,
    /// Remove the variable.
    Delete,
}

/// One change to one variable.
#[derive(Debug)]
pub struct EnvOperation {
    pub scope: Scope,
    pub behavior: ModificationBehavior,
    pub name: String,
    pub value: String,
}

impl Scope {
    /// Whether a change of this scope is seen during the build.
    pub open spec fn spec_applies_to_build(&self) -> bool {
        *self == Scope::Build || *self == Scope::All
    }

    /// Whether a change of this scope is seen during the build.
    #[verifier::when_used_as_spec(spec_applies_to_build)]
    pub fn applies_to_build(&self) -> (applies: bool)
        ensures
            applies == self.spec_applies_to_build(),
    {
        match self {
            Scope::Build => true,
            Scope::Launch => false,
            Scope::All => true,
        }
    }

    /// Whether a change of this scope is seen at launch.
    pub open spec fn spec_applies_to_launch(&self) -> bool {
        *self == Scope::Launch || *self == Scope::All
    }

    /// Whether a change of this scope is seen at launch.
    #[verifier::when_used_as_spec(spec_applies_to_launch)]
    pub fn applies_to_launch(&self) -> (applies: bool)
        ensures
            applies == self.spec_applies_to_launch(),
    {
        match self {
            Scope::Build => false,
            Scope::Launch => true,
            Scope::All => true,
        }
    }
}

impl Scope {
    /// The directory, inside a layer's directory, that holds the changes of
    /// this scope, as a specification.
    pub open spec fn spec_directory(&self) -> Seq<char> {
        match self {
            Scope::Build => "env.build"@,
            Scope::Launch => "env.launch"@,
            Scope::All => "env"@,
        }
    }

    /// The directory, inside a layer's directory, that holds the changes of
    /// this scope.
    pub fn directory(&self) -> (directory: &'static str)
        ensures
            directory@ == self.spec_directory(),
    {
        match self {
            Scope::Build => "env.build",
            Scope::Launch => "env.launch",
            Scope::All => "env",
        }
    }
}

impl ModificationBehavior {
    /// The ending that marks a file as a change of this kind, as a
    /// specification.
    pub open spec fn spec_suffix(&self) -> Seq<char> {
        match self {
            ModificationBehavior::Override => ".override"@,
            ModificationBehavior::Prepend => ".prepend"@,
            ModificationBehavior::Append => ".append"@,
            ModificationBehavior::Default => ".default"@,
            ModificationBehavior::Delete => ".delete"@,
        }
    }

    /// The ending that marks a file as a change of this kind.
    pub fn suffix(&self) -> (suffix: &'static str)
        ensures
            suffix@ == self.spec_suffix(),
    {
        match self {
            ModificationBehavior::Override => ".override",
            ModificationBehavior::Prepend => ".prepend",
            ModificationBehavior::Append => ".append",
            ModificationBehavior::Default => ".default",
            ModificationBehavior::Delete => ".delete",
        }
    }
}

impl EnvOperation {
    /// The name of the file that records this change: the variable's name,
    /// then the ending of the kind of change.
    pub open spec fn spec_file_name(&self) -> Seq<char> {
        self.name@ + self.behavior.spec_suffix()
    }

    /// The name of the file that records this change. The file lies in the
    /// directory of the change's scope and holds the value.
    pub fn file_name(&self) -> (file_name: String)
        ensures
            file_name@ == self.spec_file_name(),
    {
        self.name.clone().concat(self.behavior.suffix())
    }
}

} // verus!
