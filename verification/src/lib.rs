//! A supervisor for named background child processes: it validates launch
//! requests against a registry of running tasks, correlates a freshly
//! launched process with the network endpoint it binds, and signals every
//! tracked process on teardown.
pub mod command_line;
pub mod discovery;
pub mod endpoint;
pub mod errors;
pub mod host;
pub mod runner;
pub mod subgraph;

pub use command_line::spec_tokens;
pub use command_line::tokenize;
pub use discovery::DISCOVERY_DEADLINE_MS;
pub use discovery::DiscoveryAction;
pub use discovery::DiscoveryEvent;
pub use discovery::deadline_passed;
pub use discovery::discovery_step;
pub use discovery::merge_baseline;
pub use endpoint::Endpoint;
pub use errors::RunnerError;
pub use runner::BackgroundTask;
pub use runner::CommandRunner;
pub use runner::LaunchPlan;
pub use runner::TeardownReport;
pub use runner::lemma_blank_command_is_refused;
pub use runner::lemma_registered_name_is_duplicate;
pub use runner::lemma_second_spawn_is_refused;
pub use runner::lemma_teardown_idempotent;
pub use runner::registry_has;
pub use runner::registry_has_pid;
pub use runner::registry_names;
pub use runner::resolution_outcome;
pub use runner::spawn_validation;
pub use subgraph::SubgraphName;
