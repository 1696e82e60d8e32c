//! Trusted boundary to the host: executable resolution on the search path
//! and the host's process table.
//!
//! Everything a wrapper here returns depends on the machine's state at the
//! moment of the call, so no contract pins a result down; callers state
//! what holds of every outcome.
use vstd::prelude::*;

verus! {

#[verifier::external_type_specification]
#[verifier::external_body]
pub struct ExSystem(sysinfo::System);

#[verifier::external_type_specification]
#[verifier::external_body]
pub struct ExProcess(sysinfo::Process);

/// Relies on which::which: whether the name resolves to a runnable binary
/// on the host search path.
#[verifier::external_body]
pub(crate) fn executable_resolves(binary: &String) -> bool {
    which::which(binary.as_str()).is_ok()
}

/// Relies on sysinfo::System::new: a process-table handle with nothing
/// loaded yet.
#[verifier::external_body]
pub(crate) fn system_new() -> sysinfo::System {
    sysinfo::System::new()
}

/// Relies on sysinfo::System::refresh_all: reloads the snapshot of the
/// host's process table.
#[verifier::external_body]
pub(crate) fn system_refresh(system: &mut sysinfo::System) {
    system.refresh_all();
}

/// Relies on sysinfo::System::process: looks a process id up in the
/// snapshot taken by the last refresh.
#[verifier::external_body]
pub(crate) fn system_process<'a>(system: &'a sysinfo::System, pid: u32) -> Option<
    &'a sysinfo::Process,
> {
    system.process(sysinfo::Pid::from_u32(pid))
}

/// Relies on sysinfo::Process::kill: asks the OS to terminate the process;
/// false if the kill request could not be issued.
#[verifier::external_body]
pub(crate) fn process_kill(process: &sysinfo::Process) -> bool {
    process.kill()
}

} // verus!
