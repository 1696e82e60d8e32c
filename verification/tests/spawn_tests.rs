use subtask::BackgroundTask;
use subtask::CommandRunner;
use subtask::RunnerError;
use subtask::SubgraphName;

// A process identifier far above any pid the host hands out, so a teardown
// that looks it up in the process table finds nothing to signal.
const UNUSED_PID: u32 = 999_999_999;

#[test]
fn spawn_returns_the_launch_plan() {
    let runner = CommandRunner::new();
    let name = SubgraphName::new("users".to_string());
    let plan = runner.spawn(&name, &"sh -c exit".to_string()).unwrap();
    assert_eq!(plan.executable, "sh");
    assert_eq!(plan.arguments, vec!["-c", "exit"]);
}

#[test]
fn second_spawn_under_same_name_is_duplicate() {
    let mut runner = CommandRunner::new();
    let name = SubgraphName::new("users".to_string());
    let plan = runner.spawn(&name, &"sh -c exit".to_string());
    assert!(plan.is_ok());
    runner.register_task(name.clone(), BackgroundTask::new(UNUSED_PID));
    let again = runner.spawn(&name, &"sh -c exit".to_string());
    match again {
        Err(RunnerError::DuplicateTask(n)) => assert_eq!(n, "users"),
        other => panic!("expected a duplicate-task failure, got {:?}", other),
    }
}

#[test]
fn empty_command_is_refused() {
    let runner = CommandRunner::new();
    let name = SubgraphName::new("users".to_string());
    let outcome = runner.spawn(&name, &"".to_string());
    assert!(matches!(outcome, Err(RunnerError::EmptyCommand)));
}

#[test]
fn blank_command_is_refused() {
    let runner = CommandRunner::new();
    let name = SubgraphName::new("users".to_string());
    let outcome = runner.spawn(&name, &"   ".to_string());
    assert!(matches!(outcome, Err(RunnerError::EmptyCommand)));
}

#[test]
fn unresolvable_executable_is_named() {
    let runner = CommandRunner::new();
    let name = SubgraphName::new("users".to_string());
    let outcome = runner.spawn(&name, &"definitely-not-a-real-binary-xyz args".to_string());
    match outcome {
        Err(RunnerError::ExecutableNotFound(bin)) => {
            assert_eq!(bin, "definitely-not-a-real-binary-xyz");
        }
        other => panic!("expected an executable-not-found failure, got {:?}", other),
    }
}

#[test]
fn registry_answers_has_task() {
    let mut runner = CommandRunner::new();
    let name = SubgraphName::new("users".to_string());
    assert!(!runner.has_task(&name));
    runner.register_task(name.clone(), BackgroundTask::new(UNUSED_PID));
    assert!(runner.has_task(&name));
    assert!(!runner.has_task(&SubgraphName::new("orders".to_string())));
}

#[test]
fn successful_launch_outcome_registers_the_task() {
    let mut runner = CommandRunner::new();
    let name = SubgraphName::new("users".to_string());
    let outcome = runner.complete_spawn(name.clone(), Ok(UNUSED_PID));
    assert!(outcome.is_ok());
    assert!(runner.has_task(&name));
}

#[test]
fn failed_launch_outcome_is_a_spawn_failure_and_registers_nothing() {
    let mut runner = CommandRunner::new();
    let name = SubgraphName::new("users".to_string());
    let outcome = runner.complete_spawn(name.clone(), Err("permission denied".to_string()));
    match outcome {
        Err(RunnerError::SpawnFailure(detail)) => assert_eq!(detail, "permission denied"),
        other => panic!("expected a spawn failure, got {:?}", other),
    }
    assert!(!runner.has_task(&name));
}

#[test]
fn error_messages_read_as_expected() {
    assert_eq!(
        RunnerError::DuplicateTask("users".to_string()).message(),
        "subgraph with name 'users' already has a running process"
    );
    assert_eq!(RunnerError::EmptyCommand.message(), "the command you passed is empty");
    assert_eq!(
        RunnerError::ExecutableNotFound("serve".to_string()).message(),
        "serve is not installed on this machine"
    );
    assert_eq!(
        RunnerError::SpawnFailure("permission denied".to_string()).message(),
        "could not spawn child process: permission denied"
    );
    assert_eq!(
        RunnerError::DiscoveryTimeout.message(),
        "could not find GraphQL endpoint after 5 seconds"
    );
}
