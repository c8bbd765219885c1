use mekai::background::{
    add_output_line, agent_task_result, bash_command, list_tasks_text, monitor_result, reconciled_status,
    recovered_status, recovered_task, BackgroundTask, TaskSpec, TaskStatus, TaskTable,
};

fn spec(cmd: Option<&str>) -> TaskSpec {
    TaskSpec { command: cmd.map(|c| c.to_string()), cwd: None, env: None, timeout_secs: Some(5) }
}

#[test]
fn capacity_is_checked_against_running_tasks() {
    let mut t = TaskTable::new(1, 900, false);
    assert!(t.check_capacity().is_ok());
    let mut task = BackgroundTask::new_bash("aaaaaaaa-1".to_string(), spec(Some("sleep 1")), Some(7), 100);
    task.status = TaskStatus::Running;
    t.insert(task);
    assert_eq!(t.running(), 1);
    assert_eq!(
        t.check_capacity().unwrap_err(),
        "background task error: Max running tasks (1) reached. Try again later."
    );
    t.finish("aaaaaaaa-1", Ok("out".to_string()), 200);
    let got = t.get_task("aaaaaaaa-1").unwrap();
    assert_eq!(got.status, TaskStatus::Completed);
    assert_eq!(got.output.as_deref(), Some("out"));
    assert_eq!(got.completed_at, Some(200));
    assert!(t.check_capacity().is_ok());
}

#[test]
fn kill_wait_and_missing_tasks() {
    let mut t = TaskTable::new(4, 900, true);
    t.insert(BackgroundTask::new_agent("bbbbbbbb-2".to_string(), 5));
    assert_eq!(t.wait_poll("bbbbbbbb-2"), Ok(false));
    t.kill("bbbbbbbb-2", 9);
    assert_eq!(t.get_task("bbbbbbbb-2").unwrap().status, TaskStatus::Cancelled);
    assert_eq!(t.wait_poll("bbbbbbbb-2"), Ok(true));
    assert_eq!(t.wait_poll("nope").unwrap_err(), "background task error: Task nope not found");
    t.finish("bbbbbbbb-2", Err("boom".to_string()), 10);
    assert_eq!(t.get_task("bbbbbbbb-2").unwrap().status, TaskStatus::Failed);
    assert!(t.wants_recovery("cccc"));
    assert!(!t.wants_recovery("bbbbbbbb-2"));
    assert!(!t.wants_recovery(""));
}

#[test]
fn recovery_and_reconciliation_statuses() {
    assert_eq!(recovered_status(Some("completed"), false), TaskStatus::Completed);
    assert_eq!(recovered_status(Some("cancelled"), false), TaskStatus::Cancelled);
    assert_eq!(recovered_status(Some("weird"), true), TaskStatus::Lost);
    assert_eq!(recovered_status(None, true), TaskStatus::Running);
    assert_eq!(recovered_status(None, false), TaskStatus::Lost);
    assert_eq!(reconciled_status(TaskStatus::Lost, " completed\n"), Some(TaskStatus::Completed));
    assert_eq!(reconciled_status(TaskStatus::Failed, "failed"), None);
    assert_eq!(reconciled_status(TaskStatus::Running, "failed"), None);
    let t = recovered_task("dddddddd".to_string(), Some("failed"), false, None, Some("e".to_string()), 3);
    assert_eq!(t.status, TaskStatus::Failed);
    assert_eq!(t.completed_at, Some(3));
}

#[test]
fn outputs_and_results_of_tasks() {
    let mut out = String::new();
    add_output_line(&mut out, "hello", false);
    add_output_line(&mut out, "oops", true);
    assert_eq!(out, "hello\n[stderr] oops\n");
    assert_eq!(monitor_result(None, out.clone()).unwrap_err(), "background task error: Task timed out");
    assert_eq!(monitor_result(Some(Ok(())), out.clone()).unwrap(), out);
    assert_eq!(agent_task_result(None).unwrap_err(), "Agent task timed out");
    assert_eq!(bash_command(&spec(None)).unwrap_err(), "background task error: No command specified");
    assert_eq!(bash_command(&spec(Some("ls"))).unwrap(), "ls");
}

#[test]
fn task_listing() {
    assert_eq!(list_tasks_text(&vec![]), "No background tasks.");
    let mut a = BackgroundTask::new_bash("12345678-aaaa".to_string(), spec(Some("make")), None, 1);
    a.status = TaskStatus::Running;
    let b = BackgroundTask::new_agent("87654321-bbbb".to_string(), 1);
    assert_eq!(
        list_tasks_text(&vec![a, b]),
        "Background tasks:\n  12345678 - Running - make\n  87654321 - Pending - agent task\n"
    );
}
