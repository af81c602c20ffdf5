use ai_task_manager::lookup::require_found;
use ai_task_manager::tasks::{
    check_new_task, new_task_record, order_tasks_by_recency, plan_task_execution, CreateTaskInput,
    TaskRecord, UpdateTaskExecutionInput,
};

fn input(task_id: &str, task_name: &str) -> CreateTaskInput {
    CreateTaskInput {
        task_id: task_id.to_string(),
        task_name: task_name.to_string(),
        task_description: None,
        task_type: "one_time".to_string(),
        task_complexity_type: "simple".to_string(),
        schedule_rule: None,
        permission_policy_json: None,
        status: None,
    }
}

fn task(task_id: &str, updated_at: &str) -> TaskRecord {
    let mut row = new_task_record(input(task_id, "name"), updated_at.to_string()).unwrap();
    row.updated_at = updated_at.to_string();
    row
}

#[test]
fn new_task_takes_the_defaults() {
    let row = new_task_record(input("t1", "Backup"), "1700000000000".to_string()).unwrap();
    assert_eq!(row.task_id, "t1");
    assert_eq!(row.task_name, "Backup");
    assert_eq!(row.task_description, "");
    assert_eq!(row.task_type, "one_time");
    assert_eq!(row.task_complexity_type, "simple");
    assert_eq!(row.schedule_rule, None);
    assert_eq!(row.permission_policy_json, "{}");
    assert_eq!(row.execution_count, 0);
    assert_eq!(row.last_executed_at, None);
    assert_eq!(row.execution_status, "idle");
    assert_eq!(row.execution_result, "unknown");
    assert_eq!(row.flow_id, None);
    assert_eq!(row.status, "enabled");
    assert_eq!(row.created_at, "1700000000000");
    assert_eq!(row.updated_at, "1700000000000");
}

#[test]
fn new_task_keeps_the_given_fields() {
    let mut given = input("t2", "Report");
    given.task_description = Some("weekly".to_string());
    given.schedule_rule = Some("0 9 * * 1".to_string());
    given.permission_policy_json = Some("{\"net\":false}".to_string());
    given.status = Some("disabled".to_string());
    let row = new_task_record(given, "5".to_string()).unwrap();
    assert_eq!(row.task_description, "weekly");
    assert_eq!(row.schedule_rule, Some("0 9 * * 1".to_string()));
    assert_eq!(row.permission_policy_json, "{\"net\":false}");
    assert_eq!(row.status, "disabled");
}

#[test]
fn blank_task_id_is_refused_first() {
    assert_eq!(new_task_record(input("  ", ""), "1".to_string()).unwrap_err(), "taskId is required");
    assert_eq!(check_new_task(&input("", "x")).unwrap_err(), "taskId is required");
}

#[test]
fn complexity_type_must_be_simple_or_complex() {
    let mut given = input("t1", "n");
    given.task_complexity_type = "foo".to_string();
    assert_eq!(check_new_task(&given).unwrap_err(), "taskComplexityType must be simple or complex");
    assert_eq!(new_task_record(given, "1".to_string()).unwrap_err(), "taskComplexityType must be simple or complex");
    let mut given = input("t1", "n");
    given.task_complexity_type = "complex".to_string();
    assert_eq!(new_task_record(given, "1".to_string()).unwrap().task_complexity_type, "complex");
    let mut given = input("t1", "");
    given.task_complexity_type = "".to_string();
    assert_eq!(check_new_task(&given).unwrap_err(), "taskName is required");
}

#[test]
fn blank_task_name_is_refused() {
    assert_eq!(new_task_record(input("t1", " \t"), "1".to_string()).unwrap_err(), "taskName is required");
    assert_eq!(check_new_task(&input("t1", "")).unwrap_err(), "taskName is required");
    assert!(check_new_task(&input("t1", "n")).is_ok());
}

fn execution(increase_count: Option<bool>, executed_at: Option<&str>) -> UpdateTaskExecutionInput {
    UpdateTaskExecutionInput {
        task_id: "t1".to_string(),
        execution_status: "success".to_string(),
        execution_result: "success".to_string(),
        error_message: None,
        executed_at: executed_at.map(|s| s.to_string()),
        increase_count,
    }
}

#[test]
fn counted_execution_is_manual_and_adds_one() {
    let plan = plan_task_execution(execution(Some(true), None), "200".to_string(), "log_t1_9".to_string());
    assert_eq!(plan.update.task_id, "t1");
    assert_eq!(plan.update.execution_status, "success");
    assert_eq!(plan.update.execution_result, "success");
    assert_eq!(plan.update.last_executed_at, "200");
    assert_eq!(plan.update.count_increment, 1);
    assert_eq!(plan.update.updated_at, "200");
    assert_eq!(plan.log.log_id, "log_t1_9");
    assert_eq!(plan.log.task_id, "t1");
    assert_eq!(plan.log.trigger_type, "manual");
    assert_eq!(plan.log.executed_at, "200");
    assert_eq!(plan.log.created_at, "200");
    assert_eq!(plan.log.error_message, None);
}

#[test]
fn uncounted_execution_is_a_state_sync() {
    let mut given = execution(None, Some("150"));
    given.error_message = Some("timeout".to_string());
    let plan = plan_task_execution(given, "200".to_string(), "id".to_string());
    assert_eq!(plan.update.count_increment, 0);
    assert_eq!(plan.update.last_executed_at, "150");
    assert_eq!(plan.update.updated_at, "200");
    assert_eq!(plan.log.trigger_type, "state_sync");
    assert_eq!(plan.log.executed_at, "150");
    assert_eq!(plan.log.created_at, "200");
    assert_eq!(plan.log.error_message, Some("timeout".to_string()));

    let plan = plan_task_execution(execution(Some(false), None), "3".to_string(), "id".to_string());
    assert_eq!(plan.update.count_increment, 0);
    assert_eq!(plan.log.trigger_type, "state_sync");
}

#[test]
fn tasks_are_listed_most_recent_first() {
    let rows = vec![task("a", "100"), task("b", "300"), task("c", "200"), task("d", "300")];
    let ordered = order_tasks_by_recency(rows);
    let ids: Vec<&str> = ordered.iter().map(|t| t.task_id.as_str()).collect();
    assert_eq!(ids, vec!["b", "d", "c", "a"]);
}

#[test]
fn task_order_compares_times_as_text() {
    let ordered = order_tasks_by_recency(vec![task("old", "999"), task("new", "1000")]);
    let ids: Vec<&str> = ordered.iter().map(|t| t.task_id.as_str()).collect();
    assert_eq!(ids, vec!["old", "new"]);
    assert!(order_tasks_by_recency(Vec::new()).is_empty());
}

#[test]
fn a_missing_row_after_a_write_is_an_error() {
    assert_eq!(require_found(Some(3), "task was not found after insert"), Ok(3));
    assert_eq!(
        require_found::<i32>(None, "task was not found after insert"),
        Err("task was not found after insert".to_string())
    );
}
