//! The failures a caller of the supervisor can see.
//!
//! Each kind is its own variant so that a caller can match on the cause
//! instead of inspecting a message string; `message` renders the
//! human-readable text for display.
use vstd::prelude::*;
use vstd::string::StringExecFns;

verus! {

/// Why a spawn or a discovery failed.
#[derive(Debug)]
pub enum RunnerError {
    /// A task with the requested name is already registered; carries the name.
    DuplicateTask(String),
    /// The command line holds no token at all.
    EmptyCommand,
    /// The executable token does not resolve on the host search path;
    /// carries the token.
    ExecutableNotFound(String),
    /// The host could not create the process; carries a detail line.
    SpawnFailure(String),
    /// No single new endpoint appeared before the discovery deadline.
    DiscoveryTimeout,
}

impl RunnerError {
    /// The human-readable text of the failure.
    pub open spec fn spec_message(&self) -> Seq<char> {
        match self {
            RunnerError::DuplicateTask(name) => "subgraph with name '"@ + name@
                + "' already has a running process"@,
            RunnerError::EmptyCommand => "the command you passed is empty"@,
            RunnerError::ExecutableNotFound(bin) => bin@ + " is not installed on this machine"@,
            RunnerError::SpawnFailure(detail) => "could not spawn child process: "@ + detail@,
            RunnerError::DiscoveryTimeout => "could not find GraphQL endpoint after 5 seconds"@,
        }
    }

    /// Renders the failure for display.
    pub fn message(&self) -> (m: String)
        ensures
            m@ == self.spec_message(),
    {
        match self {
            RunnerError::DuplicateTask(name) => String::from_str("subgraph with name '").concat(
                name.as_str(),
            ).concat("' already has a running process"),
            RunnerError::EmptyCommand => String::from_str("the command you passed is empty"),
            RunnerError::ExecutableNotFound(bin) => bin.clone().concat(
                " is not installed on this machine",
            ),
            RunnerError::SpawnFailure(detail) => String::from_str(
                "could not spawn child process: ",
            ).concat(detail.as_str()),
            RunnerError::DiscoveryTimeout => String::from_str(
                "could not find GraphQL endpoint after 5 seconds",
            ),
        }
    }
}

} // verus!
