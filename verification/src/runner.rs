//! The task registry: validating launches, recording live tasks, and
//! signaling every tracked process on teardown.
use vstd::prelude::*;

use crate::command_line::spec_tokens;
use crate::command_line::tokenize;
use crate::errors::RunnerError;
use crate::host::executable_resolves;
use crate::host::process_kill;
use crate::host::system_new;
use crate::host::system_process;
use crate::host::system_refresh;
use crate::subgraph::SubgraphName;

verus! {

/// One live child OS process, tracked by the identifier the OS assigned at
/// spawn time. The identifier is immutable for the task's lifetime; the
/// owning registry signals it on teardown.
pub struct BackgroundTask {
    pid: u32,
}

impl BackgroundTask {
    /// The OS-assigned process identifier.
    pub closed spec fn spec_pid(&self) -> u32 {
        self.pid
    }

    pub fn new(pid: u32) -> (task: BackgroundTask)
        ensures
            task.spec_pid() == pid,
    {
        BackgroundTask { pid }
    }

    pub fn pid(&self) -> (pid: u32)
        ensures
            pid == self.spec_pid(),
    {
        self.pid
    }
}

struct TaskEntry {
    name: SubgraphName,
    task: BackgroundTask,
}

/// Whether some entry of the registry carries this name.
pub open spec fn registry_has(registry: Seq<(Seq<char>, u32)>, name: Seq<char>) -> bool {
    exists|i: int| 0 <= i < registry.len() && registry[i].0 == name
}

/// Whether some entry of the registry carries this process identifier.
pub open spec fn registry_has_pid(registry: Seq<(Seq<char>, u32)>, pid: u32) -> bool {
    exists|i: int| 0 <= i < registry.len() && registry[i].1 == pid
}

/// The names of the registry's entries, in registration order.
pub open spec fn registry_names(registry: Seq<(Seq<char>, u32)>) -> Seq<Seq<char>> {
    registry.map_values(|entry: (Seq<char>, u32)| entry.0)
}

/// What to launch on behalf of a validated spawn request: the resolved
/// executable token and the argument tokens, in order.
#[derive(Debug)]
pub struct LaunchPlan {
    pub executable: String,
    pub arguments: Vec<String>,
}

/// The validation rule of a spawn request against a registry.
///
/// A name already present is refused as a duplicate, whatever the command;
/// otherwise a command without tokens is refused as empty; otherwise the
/// request either becomes the launch plan of its tokens or is refused with
/// the executable token named as not installed — which of the two depends
/// on the host's search path alone.
pub open spec fn spawn_validation(
    registry: Seq<(Seq<char>, u32)>,
    name: Seq<char>,
    command: Seq<char>,
    outcome: Result<LaunchPlan, RunnerError>,
) -> bool {
    if registry_has(registry, name) {
        outcome matches Err(e) && e matches RunnerError::DuplicateTask(n) && n@ == name
    } else if spec_tokens(command).len() == 0 {
        outcome matches Err(e) && e is EmptyCommand
    } else {
        match outcome {
            Ok(plan) => plan.executable@ == spec_tokens(command)[0]
                && plan.arguments.deep_view() == spec_tokens(command).skip(1),
            Err(e) => e matches RunnerError::ExecutableNotFound(b) && b@ == spec_tokens(command)[0],
        }
    }
}

/// The exact outcome of the resolution step, taking the resolver's verdict
/// as an argument: the plan unchanged if the executable resolves, and the
/// error naming the executable if it does not.
pub fn resolution_outcome(plan: LaunchPlan, resolvable: bool) -> (outcome: Result<
    LaunchPlan,
    RunnerError,
>)
    ensures
        resolvable ==> (outcome matches Ok(p) && p == plan),
        !resolvable ==> (outcome matches Err(e) && (e matches RunnerError::ExecutableNotFound(b)
            && b@ == plan.executable@)),
{
    if resolvable {
        Ok(plan)
    } else {
        Err(RunnerError::ExecutableNotFound(plan.executable))
    }
}

/// Owns the registry of named background tasks and a cached view of the
/// host's process table. Its view is the sequence of (name, process id)
/// pairs in registration order.
pub struct CommandRunner {
    tasks: Vec<TaskEntry>,
    system: sysinfo::System,
}

impl View for CommandRunner {
    type V = Seq<(Seq<char>, u32)>;

    closed spec fn view(&self) -> Seq<(Seq<char>, u32)> {
        Seq::new(
            self.tasks@.len(),
            |i: int| (self.tasks@[i].name@, self.tasks@[i].task.pid),
        )
    }
}

/// What one teardown pass did: the names it removed, in registration
/// order, and the process identifiers whose kill request failed.
pub struct TeardownReport {
    pub removed: Vec<SubgraphName>,
    pub kill_failures: Vec<u32>,
}

impl CommandRunner {
    /// At most one task per name: the registry's names are distinct.
    pub open spec fn wf(&self) -> bool {
        forall|i: int, j: int| 0 <= i < j < self@.len() ==> self@[i].0 != self@[j].0
    }

    /// A runner with an empty registry and an unloaded process-table view.
    pub fn new() -> (runner: CommandRunner)
        ensures
            runner@ == Seq::<(Seq<char>, u32)>::empty(),
            runner.wf(),
    {
        let runner = CommandRunner { tasks: Vec::new(), system: system_new() };
        proof {
            assert(runner@ =~= Seq::<(Seq<char>, u32)>::empty());
        }
        runner
    }

    /// Whether a task is registered under this name.
    pub fn has_task(&self, name: &SubgraphName) -> (present: bool)
        ensures
            present == registry_has(self@, name@),
    {
        let mut i: usize = 0;
        while i < self.tasks.len()
            invariant
                i <= self.tasks.len(),
                forall|k: int| 0 <= k < i ==> self@[k].0 != name@,
            decreases self.tasks.len() - i,
        {
            if self.tasks[i].name == *name {
                assert(self@[i as int].0 == name@);
                return true;
            }
            i = i + 1;
        }
        false
    }

    /// Validates a request to launch `command` under `name`, following
    /// [`spawn_validation`].
    ///
    /// On success the returned plan holds the executable token and the
    /// argument tokens of the command line; the caller launches it and
    /// records the new process with [`CommandRunner::register_task`]. The
    /// registry itself is untouched: nothing is recorded for a launch that
    /// has not happened.
    pub fn spawn(&self, name: &SubgraphName, command: &String) -> (outcome: Result<
        LaunchPlan,
        RunnerError,
    >)
        ensures
            spawn_validation(self@, name@, command@, outcome),
    {
        if self.has_task(name) {
            return Err(RunnerError::DuplicateTask(name.text().clone()));
        }
        let mut tokens = tokenize(command.as_str());
        if tokens.len() == 0 {
            return Err(RunnerError::EmptyCommand);
        }
        let executable = tokens.remove(0);
        proof {
            assert(executable@ == spec_tokens(command@)[0]);
            assert(tokens.deep_view() =~= spec_tokens(command@).skip(1));
        }
        let plan = LaunchPlan { executable, arguments: tokens };
        let resolvable = executable_resolves(&plan.executable);
        resolution_outcome(plan, resolvable)
    }

    /// Records a freshly launched process under its name.
    pub fn register_task(&mut self, name: SubgraphName, task: BackgroundTask)
        requires
            old(self).wf(),
            !registry_has(old(self)@, name@),
        ensures
            final(self)@ == old(self)@.push((name@, task.spec_pid())),
            final(self).wf(),
    {
        let ghost pre = self@;
        let ghost entry_view = (name@, task.spec_pid());
        self.tasks.push(TaskEntry { name, task });
        proof {
            assert(self@ =~= pre.push(entry_view));
            assert forall|i: int, j: int| 0 <= i < j < self@.len() implies self@[i].0
                != self@[j].0 by {
                if j == self@.len() - 1 {
                    assert(registry_has(pre, self@[i].0));
                }
            }
        }
    }

    /// Completes a spawn from the outcome of the launch: registers the new
    /// process under its name, or passes the launch failure on unchanged as
    /// a spawn failure, leaving the registry untouched.
    pub fn complete_spawn(&mut self, name: SubgraphName, launch: Result<u32, String>) -> (outcome:
        Result<(), RunnerError>)
        requires
            old(self).wf(),
            !registry_has(old(self)@, name@),
        ensures
            final(self).wf(),
            (launch matches Ok(pid) ==> final(self)@ == old(self)@.push((name@, pid)) && outcome
                is Ok),
            (launch matches Err(detail) ==> final(self)@ == old(self)@ && (outcome matches Err(e)
                && e matches RunnerError::SpawnFailure(d) && d@ == detail@)),
    {
        match launch {
            Ok(pid) => {
                self.register_task(name, BackgroundTask::new(pid));
                Ok(())
            },
            Err(detail) => Err(RunnerError::SpawnFailure(detail)),
        }
    }

    /// Signals every tracked process to stop and empties the registry.
    ///
    /// A non-empty teardown refreshes the cached process-table view once
    /// and looks each task up in that single snapshot. Every per-task
    /// failure is downgraded to an entry of the report: a kill request
    /// that fails is recorded under the task's process identifier, and a
    /// process already gone from the table is skipped silently. Teardown
    /// never stops early, and an empty registry is a no-op.
    pub fn kill_tasks(&mut self) -> (report: TeardownReport)
        ensures
            final(self)@ == Seq::<(Seq<char>, u32)>::empty(),
            final(self).wf(),
            report.removed.deep_view() == registry_names(old(self)@),
            forall|k: int|
                0 <= k < report.kill_failures@.len() ==> registry_has_pid(
                    old(self)@,
                    report.kill_failures@[k],
                ),
            old(self)@.len() == 0 ==> report.kill_failures@.len() == 0,
    {
        let ghost orig = self@;
        let mut removed: Vec<SubgraphName> = Vec::new();
        let mut kill_failures: Vec<u32> = Vec::new();
        if self.tasks.len() > 0 {
            system_refresh(&mut self.system);
            let mut i: usize = 0;
            proof {
                assert(self@ =~= orig);
            }
            while i < self.tasks.len()
                invariant
                    i <= self.tasks.len(),
                    self@ == orig,
                    removed.deep_view() == registry_names(orig).take(i as int),
                    forall|k: int|
                        0 <= k < kill_failures@.len() ==> registry_has_pid(
                            orig,
                            kill_failures@[k],
                        ),
                decreases self.tasks.len() - i,
            {
                let ghost before = removed.deep_view();
                removed.push(self.tasks[i].name.clone());
                proof {
                    assert(removed.deep_view() =~= before.push(orig[i as int].0));
                    assert(before.push(orig[i as int].0) =~= registry_names(orig).take(i + 1));
                }
                let pid = self.tasks[i].task.pid();
                match system_process(&self.system, pid) {
                    Some(process) => {
                        if !process_kill(process) {
                            kill_failures.push(pid);
                            assert(registry_has_pid(orig, orig[i as int].1));
                        }
                    },
                    None => {},
                }
                i = i + 1;
            }
            self.tasks.clear();
        }
        proof {
            assert(self@ =~= Seq::<(Seq<char>, u32)>::empty());
            assert(removed.deep_view() =~= registry_names(orig));
        }
        TeardownReport { removed, kill_failures }
    }
}

/// A teardown empties the registry, and a teardown of an empty registry
/// removes nothing, so a second teardown is a no-op.
pub proof fn lemma_teardown_idempotent()
    ensures
        registry_names(Seq::<(Seq<char>, u32)>::empty()).len() == 0,
{
}

/// Once a task is registered under a name, a spawn under that name is the
/// duplicate case, whatever else the registry holds.
pub proof fn lemma_registered_name_is_duplicate(
    registry: Seq<(Seq<char>, u32)>,
    name: Seq<char>,
    pid: u32,
)
    ensures
        registry_has(registry.push((name, pid)), name),
{
    assert(registry.push((name, pid))[registry.len() as int].0 == name);
}

/// A second spawn under a name whose task was registered — with no
/// intervening teardown — is refused as a duplicate, whatever the command.
pub proof fn lemma_second_spawn_is_refused(
    registry: Seq<(Seq<char>, u32)>,
    name: Seq<char>,
    pid: u32,
    command: Seq<char>,
    outcome: Result<LaunchPlan, RunnerError>,
)
    requires
        spawn_validation(registry.push((name, pid)), name, command, outcome),
    ensures
        outcome matches Err(e) && e matches RunnerError::DuplicateTask(n) && n@ == name,
{
    lemma_registered_name_is_duplicate(registry, name, pid);
}

/// A command line of spaces alone — empty or blank — is refused as an
/// empty command whenever the name itself is free.
pub proof fn lemma_blank_command_is_refused(
    registry: Seq<(Seq<char>, u32)>,
    name: Seq<char>,
    command: Seq<char>,
    outcome: Result<LaunchPlan, RunnerError>,
)
    requires
        !registry_has(registry, name),
        forall|k: int| 0 <= k < command.len() ==> command[k] == ' ',
        spawn_validation(registry, name, command, outcome),
    ensures
        outcome matches Err(e) && e is EmptyCommand,
{
    crate::command_line::lemma_all_spaces_no_tokens(command);
}

} // verus!
