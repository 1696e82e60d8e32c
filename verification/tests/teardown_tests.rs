use subtask::BackgroundTask;
use subtask::CommandRunner;
use subtask::SubgraphName;

const UNUSED_PID: u32 = 999_999_999;

#[test]
fn teardown_of_empty_registry_is_noop() {
    let mut runner = CommandRunner::new();
    let report = runner.kill_tasks();
    assert_eq!(report.removed.len(), 0);
    assert_eq!(report.kill_failures.len(), 0);
}

#[test]
fn teardown_removes_every_task_in_order() {
    let mut runner = CommandRunner::new();
    runner.register_task(SubgraphName::new("users".to_string()), BackgroundTask::new(UNUSED_PID));
    runner.register_task(
        SubgraphName::new("orders".to_string()),
        BackgroundTask::new(UNUSED_PID - 1),
    );
    let report = runner.kill_tasks();
    let removed: Vec<String> = report.removed.iter().map(|n| n.text().clone()).collect();
    assert_eq!(removed, vec!["users", "orders"]);
    assert!(!runner.has_task(&SubgraphName::new("users".to_string())));
    assert!(!runner.has_task(&SubgraphName::new("orders".to_string())));
}

#[test]
fn second_teardown_removes_nothing() {
    let mut runner = CommandRunner::new();
    runner.register_task(SubgraphName::new("users".to_string()), BackgroundTask::new(UNUSED_PID));
    let first = runner.kill_tasks();
    assert_eq!(first.removed.len(), 1);
    let second = runner.kill_tasks();
    assert_eq!(second.removed.len(), 0);
    assert_eq!(second.kill_failures.len(), 0);
}

#[test]
fn name_is_free_again_after_teardown() {
    let mut runner = CommandRunner::new();
    let name = SubgraphName::new("users".to_string());
    runner.register_task(name.clone(), BackgroundTask::new(UNUSED_PID));
    runner.kill_tasks();
    let plan = runner.spawn(&name, &"sh -c exit".to_string());
    assert!(plan.is_ok());
}

#[test]
fn task_gone_from_process_table_is_skipped_silently() {
    let mut runner = CommandRunner::new();
    runner.register_task(SubgraphName::new("users".to_string()), BackgroundTask::new(UNUSED_PID));
    let report = runner.kill_tasks();
    assert_eq!(report.removed.len(), 1);
    assert_eq!(report.kill_failures.len(), 0);
}
