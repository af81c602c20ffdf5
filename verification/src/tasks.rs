//! Task rows: creating them, recording executions, and listing them.

use vstd::prelude::*;

use crate::flows::{is_flow_plan, FlowUpsertPlan, TaskFlowLink, UpsertComplexFlowInput};
use crate::order::Ranked;
use crate::text::{blank_text, is_blank, text_le, text_no_later, text_or, text_or_else};

verus! {

/// A row of the `tasks` table.
#[derive(Debug)]
pub struct TaskRecord {
    pub task_id: String,
    pub task_name: String,
    pub task_description: String,
    pub task_type: String,
    pub task_complexity_type: String,
    pub schedule_rule: Option<String>,
    pub permission_policy_json: String,
    pub execution_count: i64,
    pub last_executed_at: Option<String>,
    pub execution_status: String,
    pub execution_result: String,
    pub flow_id: Option<String>,
    pub status: String,
    pub created_at: String,
    pub updated_at: String,
}

/// What a caller gives to create a task.
#[derive(Debug)]
pub struct CreateTaskInput {
    pub task_id: String,
    pub task_name: String,
    pub task_description: Option<String>,
    pub task_type: String,
    pub task_complexity_type: String,
    pub schedule_rule: Option<String>,
    pub permission_policy_json: Option<String>,
    pub status: Option<String>,
}

/// What a caller gives to record an execution of a task.
#[derive(Debug)]
pub struct UpdateTaskExecutionInput {
    pub task_id: String,
    pub execution_status: String,
    pub execution_result: String,
    pub error_message: Option<String>,
    pub executed_at: Option<String>,
    pub increase_count: Option<bool>,
}

/// The change that recording an execution makes to the task row named by `task_id`.
#[derive(Debug)]
pub struct TaskExecutionUpdate {
    pub task_id: String,
    pub execution_status: String,
    pub execution_result: String,
    pub last_executed_at: String,
    /// Added to the row's `execution_count`.
    pub count_increment: i64,
    pub updated_at: String,
}

/// A row of the `task_execution_logs` table.
#[derive(Debug)]
pub struct TaskExecutionLogRecord {
    pub log_id: String,
    pub task_id: String,
    pub trigger_type: String,
    pub execution_status: String,
    pub execution_result: String,
    pub error_message: Option<String>,
    pub executed_at: String,
    pub created_at: String,
}

/// The two writes that record an execution: the task row's change and the log row.
#[derive(Debug)]
pub struct TaskExecutionPlan {
    pub update: TaskExecutionUpdate,
    pub log: TaskExecutionLogRecord,
}

/// Why a task cannot be created from `input`, if it cannot.
pub open spec fn new_task_refusal(input: CreateTaskInput) -> Option<Seq<char>> {
    if blank_text(input.task_id@) {
        Some("taskId is required"@)
    } else if blank_text(input.task_name@) {
        Some("taskName is required"@)
    } else if !is_complexity_type(input.task_complexity_type@) {
        Some("taskComplexityType must be simple or complex"@)
    } else {
        None
    }
}

/// The two complexity types a task may have: `simple` (a task run on its own) and
/// `complex` (a task made of a flow of nodes).
pub open spec fn is_complexity_type(t: Seq<char>) -> bool {
    t == "simple"@ || t == "complex"@
}

/// What holds of every stored task row: its complexity type is `simple` or `complex`, a
/// task with a flow is complex, its execution count is not negative, and a task that has
/// been executed has a last execution time.
pub open spec fn task_row_consistent(row: TaskRecord) -> bool {
    &&& is_complexity_type(row.task_complexity_type@)
    &&& row.flow_id is Some ==> row.task_complexity_type@ == "complex"@
    &&& row.execution_count >= 0
    &&& row.execution_count > 0 ==> row.last_executed_at is Some
}

/// The task row `row` after the statement that records the execution `update` of it.
pub open spec fn executed_row(row: TaskRecord, update: TaskExecutionUpdate) -> TaskRecord {
    TaskRecord {
        execution_status: update.execution_status,
        execution_result: update.execution_result,
        last_executed_at: Some(update.last_executed_at),
        execution_count: (row.execution_count + update.count_increment) as i64,
        updated_at: update.updated_at,
        ..row
    }
}

/// The task row `row` after the statement that links it to a flow.
pub open spec fn linked_row(row: TaskRecord, link: TaskFlowLink) -> TaskRecord {
    TaskRecord {
        task_complexity_type: link.task_complexity_type,
        flow_id: Some(link.flow_id),
        updated_at: link.updated_at,
        ..row
    }
}

/// `row` is the row that creating a task from `input` at time `now` stores.
pub open spec fn is_new_task_row(row: TaskRecord, input: CreateTaskInput, now: Seq<char>) -> bool {
    &&& row.task_id@ == input.task_id@
    &&& row.task_name@ == input.task_name@
    &&& row.task_description@ == text_or(input.task_description, seq![])
    &&& row.task_type@ == input.task_type@
    &&& row.task_complexity_type@ == input.task_complexity_type@
    &&& row.schedule_rule == input.schedule_rule
    &&& row.permission_policy_json@ == text_or(input.permission_policy_json, "{}"@)
    &&& row.execution_count == 0
    &&& row.last_executed_at is None
    &&& row.execution_status@ == "idle"@
    &&& row.execution_result@ == "unknown"@
    &&& row.flow_id is None
    &&& row.status@ == text_or(input.status, "enabled"@)
    &&& row.created_at@ == now
    &&& row.updated_at@ == now
}

/// Checks the fields that creating a task requires: a task id and a task name that
/// are not blank, and a complexity type that is `simple` or `complex`.
pub fn check_new_task(input: &CreateTaskInput) -> (r: Result<(), String>)
    ensures
        match new_task_refusal(*input) {
            Some(reason) => r matches Err(e) && e@ == reason,
            None => r is Ok,
        },
        r is Ok <==> !blank_text(input.task_id@) && !blank_text(input.task_name@) && (
        input.task_complexity_type@ == "simple"@ || input.task_complexity_type@ == "complex"@),
{
    if is_blank(input.task_id.as_str()) {
        return Err(String::from_str("taskId is required"));
    }
    if is_blank(input.task_name.as_str()) {
        return Err(String::from_str("taskName is required"));
    }
    let simple = String::from_str("simple");
    let complex = String::from_str("complex");
    if !(input.task_complexity_type == simple || input.task_complexity_type == complex) {
        return Err(String::from_str("taskComplexityType must be simple or complex"));
    }
    Ok(())
}

/// The row that creating a task from `input` at time `now` stores: the given fields, an
/// empty description, a `{}` permission policy and an `enabled` status where none is
/// given, no executions yet, and `now` as both creation and update time.
pub fn new_task_record(input: CreateTaskInput, now: String) -> (r: Result<TaskRecord, String>)
    ensures
        match new_task_refusal(input) {
            Some(reason) => r matches Err(e) && e@ == reason,
            None => r matches Ok(row) && is_new_task_row(row, input, now@) && task_row_consistent(row),
        },
        r is Ok <==> !blank_text(input.task_id@) && !blank_text(input.task_name@) && (
        input.task_complexity_type@ == "simple"@ || input.task_complexity_type@ == "complex"@),
        r matches Ok(row) ==> {
            &&& row.task_id@ == input.task_id@
            &&& row.task_name@ == input.task_name@
            &&& row.task_type@ == input.task_type@
            &&& row.task_complexity_type@ == input.task_complexity_type@
            &&& row.schedule_rule == input.schedule_rule
            &&& (input.task_description matches Some(d) ==> row.task_description@ == d@)
            &&& (input.permission_policy_json matches Some(p) ==> row.permission_policy_json@ == p@)
            &&& (input.status matches Some(st) ==> row.status@ == st@)
            &&& (input.task_description is None ==> row.task_description@ == Seq::<char>::empty())
            &&& (input.permission_policy_json is None ==> row.permission_policy_json@ == "{}"@)
            &&& (input.status is None ==> row.status@ == "enabled"@)
            &&& row.execution_status@ == "idle"@
            &&& row.execution_result@ == "unknown"@
            &&& row.execution_count == 0
            &&& row.last_executed_at is None
            &&& row.flow_id is None
            &&& row.created_at@ == now@
            &&& row.updated_at@ == now@
        },
{
    match check_new_task(&input) {
        Err(e) => Err(e),
        Ok(()) => {
            let created_at = now.clone();
            Ok(TaskRecord {
                task_id: input.task_id,
                task_name: input.task_name,
                task_description: match input.task_description {
                    Some(d) => d,
                    None => String::new(),
                },
                task_type: input.task_type,
                task_complexity_type: input.task_complexity_type,
                schedule_rule: input.schedule_rule,
                permission_policy_json: text_or_else(input.permission_policy_json, "{}"),
                execution_count: 0,
                last_executed_at: None,
                execution_status: String::from_str("idle"),
                execution_result: String::from_str("unknown"),
                flow_id: None,
                status: text_or_else(input.status, "enabled"),
                created_at,
                updated_at: now,
            })
        },
    }
}

/// Whether the execution is counted: `increase_count`, false when not given.
pub open spec fn counts_execution(input: UpdateTaskExecutionInput) -> bool {
    input.increase_count == Some(true)
}

/// `plan` is what recording the execution `input` at time `now` writes, with the log row
/// named `log_id`.
pub open spec fn is_execution_plan(
    plan: TaskExecutionPlan,
    input: UpdateTaskExecutionInput,
    now: Seq<char>,
    log_id: Seq<char>,
) -> bool {
    let executed_at = text_or(input.executed_at, now);
    &&& plan.update.task_id@ == input.task_id@
    &&& plan.update.execution_status@ == input.execution_status@
    &&& plan.update.execution_result@ == input.execution_result@
    &&& plan.update.last_executed_at@ == executed_at
    &&& plan.update.count_increment == (if counts_execution(input) { 1i64 } else { 0i64 })
    &&& plan.update.updated_at@ == now
    &&& plan.log.log_id@ == log_id
    &&& plan.log.task_id@ == input.task_id@
    &&& plan.log.trigger_type@ == (if counts_execution(input) { "manual"@ } else { "state_sync"@ })
    &&& plan.log.execution_status@ == input.execution_status@
    &&& plan.log.execution_result@ == input.execution_result@
    &&& plan.log.error_message == input.error_message
    &&& plan.log.executed_at@ == executed_at
    &&& plan.log.created_at@ == now
}

/// What recording the execution `input` at time `now` writes: the task row takes the
/// status, the result and the execution time (`now` when none is given), its count grows
/// by one when the execution is counted, and a log row named `log_id` records the same,
/// triggered `manual` when counted and `state_sync` otherwise.
pub fn plan_task_execution(input: UpdateTaskExecutionInput, now: String, log_id: String) -> (plan:
    TaskExecutionPlan)
    ensures
        is_execution_plan(plan, input, now@, log_id@),
        plan.update.task_id@ == input.task_id@,
        plan.log.task_id@ == input.task_id@,
        plan.update.execution_status@ == input.execution_status@,
        plan.log.execution_status@ == input.execution_status@,
        plan.update.execution_result@ == input.execution_result@,
        plan.log.execution_result@ == input.execution_result@,
        plan.log.error_message == input.error_message,
        plan.log.log_id@ == log_id@,
        plan.update.last_executed_at@ == (match input.executed_at {
            Some(t) => t@,
            None => now@,
        }),
        plan.log.executed_at@ == plan.update.last_executed_at@,
        plan.update.count_increment == (if input.increase_count == Some(true) { 1i64 } else { 0i64 }),
        plan.update.updated_at@ == now@,
        plan.log.created_at@ == now@,
{
    let counted = match input.increase_count {
        Some(b) => b,
        None => false,
    };
    let executed_at = text_or_else(input.executed_at, now.as_str());
    let update = TaskExecutionUpdate {
        task_id: input.task_id.clone(),
        execution_status: input.execution_status.clone(),
        execution_result: input.execution_result.clone(),
        last_executed_at: executed_at.clone(),
        count_increment: if counted { 1 } else { 0 },
        updated_at: now.clone(),
    };
    let log = TaskExecutionLogRecord {
        log_id,
        task_id: input.task_id,
        trigger_type: if counted { String::from_str("manual") } else { String::from_str("state_sync") },
        execution_status: input.execution_status,
        execution_result: input.execution_result,
        error_message: input.error_message,
        executed_at,
        created_at: now,
    };
    TaskExecutionPlan { update, log }
}

/// The two writes of one execution agree: they name the same task, status, result and
/// time, the count grows by at most one, and the execution is logged as `manual` exactly
/// when it adds to the task's count.
pub proof fn lemma_execution_writes_agree(
    plan: TaskExecutionPlan,
    input: UpdateTaskExecutionInput,
    now: Seq<char>,
    log_id: Seq<char>,
)
    requires
        is_execution_plan(plan, input, now, log_id),
    ensures
        plan.log.task_id@ == plan.update.task_id@,
        plan.log.execution_status@ == plan.update.execution_status@,
        plan.log.execution_result@ == plan.update.execution_result@,
        plan.log.executed_at@ == plan.update.last_executed_at@,
        plan.log.created_at@ == plan.update.updated_at@,
        plan.update.count_increment == 0 || plan.update.count_increment == 1,
        (plan.update.count_increment == 1) <==> (plan.log.trigger_type@ == "manual"@),
{
    reveal_strlit("manual");
    reveal_strlit("state_sync");
    assert("manual"@.len() != "state_sync"@.len());
}

/// A task is refused only for a blank task id, a blank task name, or a complexity type
/// other than `simple` and `complex`; its type, description, schedule, policy and status
/// never make it refused.
pub proof fn lemma_task_refusal_reasons(input: CreateTaskInput)
    ensures
        new_task_refusal(input) is None <==> !blank_text(input.task_id@) && !blank_text(
            input.task_name@,
        ) && (input.task_complexity_type@ == "simple"@ || input.task_complexity_type@ == "complex"@),
{
}

/// A created task row keeps what the caller gave: its id, name, type, complexity type and
/// schedule, and its description, policy and status wherever they are given.
pub proof fn lemma_new_task_row_keeps_input(row: TaskRecord, input: CreateTaskInput, now: Seq<char>)
    requires
        is_new_task_row(row, input, now),
    ensures
        row.task_id@ == input.task_id@,
        row.task_name@ == input.task_name@,
        row.task_type@ == input.task_type@,
        row.task_complexity_type@ == input.task_complexity_type@,
        row.schedule_rule == input.schedule_rule,
        input.task_description matches Some(d) ==> row.task_description@ == d@,
        input.permission_policy_json matches Some(p) ==> row.permission_policy_json@ == p@,
        input.status matches Some(st) ==> row.status@ == st@,
        row.execution_count == 0,
        row.created_at@ == now,
        row.updated_at@ == now,
{
}

/// Recording an execution writes what the caller gave, counted or not: the log row carries
/// the caller's error message, status and result, and both writes name the caller's task.
pub proof fn lemma_execution_plan_keeps_input(
    plan: TaskExecutionPlan,
    input: UpdateTaskExecutionInput,
    now: Seq<char>,
    log_id: Seq<char>,
)
    requires
        is_execution_plan(plan, input, now, log_id),
    ensures
        plan.log.error_message == input.error_message,
        plan.log.task_id@ == input.task_id@,
        plan.update.task_id@ == input.task_id@,
        plan.log.execution_status@ == input.execution_status@,
        plan.update.execution_status@ == input.execution_status@,
        plan.log.execution_result@ == input.execution_result@,
        plan.update.execution_result@ == input.execution_result@,
        plan.log.log_id@ == log_id,
        input.executed_at matches Some(t) ==> plan.update.last_executed_at@ == t@,
        input.executed_at is None ==> plan.update.last_executed_at@ == now,
        plan.update.count_increment == (if input.increase_count == Some(true) { 1i64 } else { 0i64 }),
{
}

/// Recording an execution keeps a task row consistent, unless its count already stands at
/// `i64::MAX`.
pub proof fn lemma_execution_keeps_row_consistent(
    row: TaskRecord,
    plan: TaskExecutionPlan,
    input: UpdateTaskExecutionInput,
    now: Seq<char>,
    log_id: Seq<char>,
)
    requires
        task_row_consistent(row),
        row.execution_count < i64::MAX,
        is_execution_plan(plan, input, now, log_id),
    ensures
        task_row_consistent(executed_row(row, plan.update)),
{
}

/// Linking a task row to a flow keeps it consistent: the task becomes complex.
pub proof fn lemma_flow_link_keeps_row_consistent(
    row: TaskRecord,
    plan: FlowUpsertPlan,
    input: UpsertComplexFlowInput,
    now: Seq<char>,
)
    requires
        task_row_consistent(row),
        is_flow_plan(plan, input, now),
    ensures
        task_row_consistent(linked_row(row, plan.link)),
{
    reveal_strlit("complex");
}

impl Ranked for TaskRecord {
    /// The task updated later stands first.
    open spec fn precedes(a: Self, b: Self) -> bool {
        text_le(b.updated_at@, a.updated_at@)
    }

    proof fn lemma_precedes_total(a: Self, b: Self) {
        crate::text::lemma_text_le_total(a.updated_at@, b.updated_at@);
    }

    proof fn lemma_precedes_transitive(a: Self, b: Self, c: Self) {
        crate::text::lemma_text_le_transitive(c.updated_at@, b.updated_at@, a.updated_at@);
    }

    fn may_precede(&self, other: &Self) -> (r: bool) {
        text_no_later(other.updated_at.as_str(), self.updated_at.as_str())
    }
}

/// The tasks as the task list shows them: the most recently updated first, by the text
/// order of `updated_at`.
pub fn order_tasks_by_recency(tasks: Vec<TaskRecord>) -> (r: Vec<TaskRecord>)
    ensures
        r@.to_multiset() == tasks@.to_multiset(),
        forall|i: int, j: int|
            0 <= i < j < r@.len() ==> text_le(#[trigger] r@[j].updated_at@, #[trigger] r@[i].updated_at@),
{
    let r = crate::order::sort_for_listing(tasks);
    assert forall|i: int, j: int| 0 <= i < j < r@.len() implies text_le(
        #[trigger] r@[j].updated_at@,
        #[trigger] r@[i].updated_at@,
    ) by {
        assert(TaskRecord::precedes(r@[i], r@[j]));
    }
    r
}

} // verus!
