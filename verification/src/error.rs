use vstd::prelude::*;

verus! {

/// Everything that can go wrong during a run, by kind.
///
/// The first three kinds arise while one package is resolved and only remove
/// that package from the run. The others end the run.
#[derive(Clone, Copy, Debug, PartialEq, Eq, Structural)]
pub enum AdelieError {
    /// An index or a tracked file could not be retrieved.
    Fetch,
    /// Retrieved content is not what the expected document looks like.
    Decode,
    /// The index has no entry, or no stable version, for a package.
    NotFound,
    /// The branch that a change would be published on already exists.
    RefExists,
    /// The tracked file changed after the base state was captured.
    Conflict,
    /// Any other failure of the hosting platform.
    HostingApi,
    /// The access credential is missing.
    Config,
}

impl AdelieError {
    /// Whether an error of this kind only drops the package it arose for.
    pub open spec fn is_isolated(self) -> bool {
        self == AdelieError::Fetch || self == AdelieError::Decode || self == AdelieError::NotFound
    }

    /// Tells the errors that drop one package from those that end the run.
    pub fn isolated(&self) -> (b: bool)
        ensures
            b == self.is_isolated(),
    {
        match self {
            AdelieError::Fetch | AdelieError::Decode | AdelieError::NotFound => true,
            _ => false,
        }
    }

    /// A short description for diagnostics.
    pub fn describe(&self) -> (text: &'static str)
        ensures
            text@ == self.description(),
    {
        match self {
            AdelieError::Fetch => "retrieval failed",
            AdelieError::Decode => "content does not match the expected document",
            AdelieError::NotFound => "no stable version found",
            AdelieError::RefExists => "branch already exists",
            AdelieError::Conflict => "tracked file changed since the base state was captured",
            AdelieError::HostingApi => "hosting platform operation failed",
            AdelieError::Config => "access credential is missing",
        }
    }

    /// The text that `describe` returns for each kind.
    pub open spec fn description(self) -> Seq<char> {
        match self {
            AdelieError::Fetch => "retrieval failed"@,
            AdelieError::Decode => "content does not match the expected document"@,
            AdelieError::NotFound => "no stable version found"@,
            AdelieError::RefExists => "branch already exists"@,
            AdelieError::Conflict => "tracked file changed since the base state was captured"@,
            AdelieError::HostingApi => "hosting platform operation failed"@,
            AdelieError::Config => "access credential is missing"@,
        }
    }
}

} // verus!
