//! Complex task flows: writing a flow with its nodes, and reading it back.

use vstd::prelude::*;

use crate::order::Ranked;
use crate::text::{blank_text, is_blank, text_or_else, text_or};

verus! {

/// A row of the `complex_task_flows` table, with the nodes of the flow.
#[derive(Debug)]
pub struct ComplexTaskFlowRecord {
    pub flow_id: String,
    pub parent_task_id: String,
    pub flow_name: Option<String>,
    pub flow_description: Option<String>,
    pub version: i64,
    pub status: String,
    pub created_at: String,
    pub updated_at: String,
    pub nodes: Vec<ComplexTaskNodeRecord>,
}

/// A row of the `complex_task_flow_nodes` table.
#[derive(Debug)]
pub struct ComplexTaskNodeRecord {
    pub node_id: String,
    pub flow_id: String,
    pub ref_task_id: String,
    pub node_type: String,
    pub position: i64,
    pub condition_expr: Option<String>,
    pub on_success_next: Option<String>,
    pub on_failure_next: Option<String>,
    pub created_at: String,
    pub updated_at: String,
}

/// What a caller gives to write a flow and replace its nodes.
#[derive(Debug)]
pub struct UpsertComplexFlowInput {
    pub flow_id: String,
    pub parent_task_id: String,
    pub flow_name: Option<String>,
    pub flow_description: Option<String>,
    pub version: Option<i64>,
    pub status: Option<String>,
    pub nodes: Vec<UpsertComplexFlowNodeInput>,
}

/// What a caller gives for one node of a flow.
#[derive(Debug)]
pub struct UpsertComplexFlowNodeInput {
    pub node_id: String,
    pub ref_task_id: String,
    pub node_type: String,
    pub position: i64,
    pub condition_expr: Option<String>,
    pub on_success_next: Option<String>,
    pub on_failure_next: Option<String>,
}

/// The change that writing a flow makes to its parent task: the task becomes complex and
/// points at the flow.
#[derive(Debug)]
pub struct TaskFlowLink {
    pub task_id: String,
    pub task_complexity_type: String,
    pub flow_id: String,
    pub updated_at: String,
}

/// The writes of one flow upsert, made in one transaction: the flow row, its node rows
/// (`flow.nodes`, which replace the nodes the flow had), and the link from the parent task.
#[derive(Debug)]
pub struct FlowUpsertPlan {
    pub flow: ComplexTaskFlowRecord,
    pub link: TaskFlowLink,
}

/// Why `input` is refused before the database is read, if it is.
pub open spec fn flow_input_refusal(input: UpsertComplexFlowInput) -> Option<Seq<char>> {
    if blank_text(input.flow_id@) {
        Some("flowId is required"@)
    } else if blank_text(input.parent_task_id@) {
        Some("parentTaskId is required"@)
    } else {
        None
    }
}

/// Why a flow cannot be written from `input`, given whether its parent task exists.
pub open spec fn flow_refusal(input: UpsertComplexFlowInput, parent_exists: bool) -> Option<Seq<char>> {
    match flow_input_refusal(input) {
        Some(reason) => Some(reason),
        None => if parent_exists {
            None
        } else {
            Some("parent task not found"@)
        },
    }
}

/// `row` is the row that writing `node` into the flow `flow_id` at time `now` stores.
pub open spec fn is_node_row(
    row: ComplexTaskNodeRecord,
    node: UpsertComplexFlowNodeInput,
    flow_id: Seq<char>,
    now: Seq<char>,
) -> bool {
    &&& row.node_id@ == node.node_id@
    &&& row.flow_id@ == flow_id
    &&& row.ref_task_id@ == node.ref_task_id@
    &&& row.node_type@ == node.node_type@
    &&& row.position == node.position
    &&& row.condition_expr == node.condition_expr
    &&& row.on_success_next == node.on_success_next
    &&& row.on_failure_next == node.on_failure_next
    &&& row.created_at@ == now
    &&& row.updated_at@ == now
}

/// `plan` holds the writes of upserting `input` at time `now`.
pub open spec fn is_flow_plan(plan: FlowUpsertPlan, input: UpsertComplexFlowInput, now: Seq<char>) -> bool {
    &&& plan.flow.flow_id@ == input.flow_id@
    &&& plan.flow.parent_task_id@ == input.parent_task_id@
    &&& plan.flow.flow_name == input.flow_name
    &&& plan.flow.flow_description == input.flow_description
    &&& plan.flow.version == (match input.version {
        Some(v) => v,
        None => 1i64,
    })
    &&& plan.flow.status@ == text_or(input.status, "draft"@)
    &&& plan.flow.created_at@ == now
    &&& plan.flow.updated_at@ == now
    &&& plan.flow.nodes@.len() == input.nodes@.len()
    &&& forall|i: int|
        0 <= i < input.nodes@.len() ==> is_node_row(
            #[trigger] plan.flow.nodes@[i],
            input.nodes@[i],
            input.flow_id@,
            now,
        )
    &&& plan.link.task_id@ == input.parent_task_id@
    &&& plan.link.task_complexity_type@ == "complex"@
    &&& plan.link.flow_id@ == input.flow_id@
    &&& plan.link.updated_at@ == now
}

/// Checks the fields a flow upsert requires before the database is read: a flow id and a
/// parent task id that are not blank.
pub fn check_flow_input(input: &UpsertComplexFlowInput) -> (r: Result<(), String>)
    ensures
        match flow_input_refusal(*input) {
            Some(reason) => r matches Err(e) && e@ == reason,
            None => r is Ok,
        },
        r is Ok <==> !blank_text(input.flow_id@) && !blank_text(input.parent_task_id@),
{
    if is_blank(input.flow_id.as_str()) {
        return Err(String::from_str("flowId is required"));
    }
    if is_blank(input.parent_task_id.as_str()) {
        return Err(String::from_str("parentTaskId is required"));
    }
    Ok(())
}

fn node_row(node: UpsertComplexFlowNodeInput, flow_id: &String, now: &String) -> (row: ComplexTaskNodeRecord)
    ensures
        is_node_row(row, node, flow_id@, now@),
        row.node_id@ == node.node_id@,
        row.flow_id@ == flow_id@,
        row.ref_task_id@ == node.ref_task_id@,
        row.node_type@ == node.node_type@,
        row.position == node.position,
        row.condition_expr == node.condition_expr,
        row.on_success_next == node.on_success_next,
        row.on_failure_next == node.on_failure_next,
        row.created_at@ == now@,
        row.updated_at@ == now@,
{
    ComplexTaskNodeRecord {
        node_id: node.node_id,
        flow_id: flow_id.clone(),
        ref_task_id: node.ref_task_id,
        node_type: node.node_type,
        position: node.position,
        condition_expr: node.condition_expr,
        on_success_next: node.on_success_next,
        on_failure_next: node.on_failure_next,
        created_at: now.clone(),
        updated_at: now.clone(),
    }
}

/// The writes of upserting the flow `input` at time `now`, where `parent_exists` tells
/// whether the parent task is stored: the flow row (version 1 and status `draft` where
/// none is given), one node row per given node, all in this flow, and the parent task
/// turned complex and linked to the flow.
pub fn plan_flow_upsert(input: UpsertComplexFlowInput, parent_exists: bool, now: String) -> (r: Result<
    FlowUpsertPlan,
    String,
>)
    ensures
        match flow_refusal(input, parent_exists) {
            Some(reason) => r matches Err(e) && e@ == reason,
            None => r matches Ok(plan) && is_flow_plan(plan, input, now@),
        },
        r is Ok <==> !blank_text(input.flow_id@) && !blank_text(input.parent_task_id@) && parent_exists,
        r matches Ok(plan) ==> {
            &&& plan.flow.flow_id@ == input.flow_id@
            &&& plan.flow.parent_task_id@ == input.parent_task_id@
            &&& plan.flow.flow_name == input.flow_name
            &&& plan.flow.flow_description == input.flow_description
            &&& (input.version matches Some(v) ==> plan.flow.version == v)
            &&& (input.version is None ==> plan.flow.version == 1)
            &&& (input.status matches Some(st) ==> plan.flow.status@ == st@)
            &&& (input.status is None ==> plan.flow.status@ == "draft"@)
            &&& plan.flow.nodes@.len() == input.nodes@.len()
            &&& forall|i: int| 0 <= i < input.nodes@.len() ==> {
                let row = #[trigger] plan.flow.nodes@[i];
                let node = input.nodes@[i];
                &&& row.node_id@ == node.node_id@
                &&& row.flow_id@ == input.flow_id@
                &&& row.ref_task_id@ == node.ref_task_id@
                &&& row.node_type@ == node.node_type@
                &&& row.position == node.position
                &&& row.condition_expr == node.condition_expr
                &&& row.on_success_next == node.on_success_next
                &&& row.on_failure_next == node.on_failure_next
                &&& row.created_at@ == now@
                &&& row.updated_at@ == now@
            }
            &&& plan.link.task_id@ == input.parent_task_id@
            &&& plan.link.task_complexity_type@ == "complex"@
            &&& plan.link.flow_id@ == input.flow_id@
            &&& plan.link.updated_at@ == now@
        },
{
    if let Err(e) = check_flow_input(&input) {
        return Err(e);
    }
    if !parent_exists {
        return Err(String::from_str("parent task not found"));
    }
    let ghost given = input.nodes@;
    let count = input.nodes.len();
    let mut rest = input.nodes;
    let mut nodes: Vec<ComplexTaskNodeRecord> = Vec::new();
    let mut i: usize = 0;
    while rest.len() > 0
        invariant
            nodes@.len() == i,
            given.len() == count,
            i + rest@.len() == given.len(),
            rest@ == given.skip(i as int),
            forall|k: int| 0 <= k < i ==> is_node_row(#[trigger] nodes@[k], given[k], input.flow_id@, now@),
        decreases rest@.len(),
    {
        let node = rest.remove(0);
        assert(node == given[i as int]);
        let row = node_row(node, &input.flow_id, &now);
        nodes.push(row);
        assert(rest@ =~= given.skip(i + 1));
        i = i + 1;
    }
    let link = TaskFlowLink {
        task_id: input.parent_task_id.clone(),
        task_complexity_type: String::from_str("complex"),
        flow_id: input.flow_id.clone(),
        updated_at: now.clone(),
    };
    let flow = ComplexTaskFlowRecord {
        flow_id: input.flow_id,
        parent_task_id: input.parent_task_id,
        flow_name: input.flow_name,
        flow_description: input.flow_description,
        version: match input.version {
            Some(v) => v,
            None => 1,
        },
        status: text_or_else(input.status, "draft"),
        created_at: now.clone(),
        updated_at: now,
        nodes,
    };
    Ok(FlowUpsertPlan { flow, link })
}

/// Every node that a flow upsert writes belongs to the flow that it links to the parent
/// task, and the flow it writes is the parent task's.
pub proof fn lemma_flow_writes_agree(plan: FlowUpsertPlan, input: UpsertComplexFlowInput, now: Seq<char>)
    requires
        is_flow_plan(plan, input, now),
    ensures
        plan.link.flow_id@ == plan.flow.flow_id@,
        plan.link.task_id@ == plan.flow.parent_task_id@,
        forall|i: int|
            0 <= i < plan.flow.nodes@.len() ==> (#[trigger] plan.flow.nodes@[i]).flow_id@
                == plan.link.flow_id@,
{
    assert forall|i: int| 0 <= i < plan.flow.nodes@.len() implies (#[trigger] plan.flow.nodes@[i]).flow_id@
        == plan.link.flow_id@ by {
        assert(is_node_row(plan.flow.nodes@[i], input.nodes@[i], input.flow_id@, now));
    }
}

/// A flow upsert is refused only for a blank flow id, a blank parent task id, or a parent
/// task that is not stored; nothing in its nodes makes it refused.
pub proof fn lemma_flow_refusal_reasons(input: UpsertComplexFlowInput, parent_exists: bool)
    ensures
        flow_refusal(input, parent_exists) is None <==> !blank_text(input.flow_id@) && !blank_text(
            input.parent_task_id@,
        ) && parent_exists,
{
}

/// Every node row a flow upsert writes carries what the caller gave for that node: its id,
/// referenced task, type, position, branch condition and successors on success and on
/// failure, in the order the nodes were given.
pub proof fn lemma_flow_nodes_keep_input(plan: FlowUpsertPlan, input: UpsertComplexFlowInput, now: Seq<char>)
    requires
        is_flow_plan(plan, input, now),
    ensures
        plan.flow.nodes@.len() == input.nodes@.len(),
        forall|i: int|
            0 <= i < input.nodes@.len() ==> {
                let row = #[trigger] plan.flow.nodes@[i];
                let node = input.nodes@[i];
                &&& row.node_id@ == node.node_id@
                &&& row.ref_task_id@ == node.ref_task_id@
                &&& row.node_type@ == node.node_type@
                &&& row.position == node.position
                &&& row.condition_expr == node.condition_expr
                &&& row.on_success_next == node.on_success_next
                &&& row.on_failure_next == node.on_failure_next
            },
{
    assert forall|i: int| 0 <= i < input.nodes@.len() implies {
        let row = #[trigger] plan.flow.nodes@[i];
        let node = input.nodes@[i];
        &&& row.node_id@ == node.node_id@
        &&& row.ref_task_id@ == node.ref_task_id@
        &&& row.node_type@ == node.node_type@
        &&& row.position == node.position
        &&& row.condition_expr == node.condition_expr
        &&& row.on_success_next == node.on_success_next
        &&& row.on_failure_next == node.on_failure_next
    } by {
        assert(is_node_row(plan.flow.nodes@[i], input.nodes@[i], input.flow_id@, now));
    }
}

impl Ranked for ComplexTaskNodeRecord {
    /// Nodes stand in the order of their positions.
    open spec fn precedes(a: Self, b: Self) -> bool {
        a.position <= b.position
    }

    proof fn lemma_precedes_total(a: Self, b: Self) {
    }

    proof fn lemma_precedes_transitive(a: Self, b: Self, c: Self) {
    }

    fn may_precede(&self, other: &Self) -> (r: bool) {
        self.position <= other.position
    }
}

/// The flow `flow` with `nodes` as its nodes, in the order of their positions; every other
/// field of `flow` is kept.
pub fn flow_with_nodes(flow: ComplexTaskFlowRecord, nodes: Vec<ComplexTaskNodeRecord>) -> (r:
    ComplexTaskFlowRecord)
    ensures
        r.flow_id == flow.flow_id,
        r.parent_task_id == flow.parent_task_id,
        r.flow_name == flow.flow_name,
        r.flow_description == flow.flow_description,
        r.version == flow.version,
        r.status == flow.status,
        r.created_at == flow.created_at,
        r.updated_at == flow.updated_at,
        r.nodes@.to_multiset() == nodes@.to_multiset(),
        forall|i: int, j: int|
            0 <= i < j < r.nodes@.len() ==> #[trigger] r.nodes@[i].position <= #[trigger] r.nodes@[j].position,
{
    let ordered = crate::order::sort_for_listing(nodes);
    assert forall|i: int, j: int| 0 <= i < j < ordered@.len() implies #[trigger] ordered@[i].position
        <= #[trigger] ordered@[j].position by {
        assert(ComplexTaskNodeRecord::precedes(ordered@[i], ordered@[j]));
    }
    ComplexTaskFlowRecord { nodes: ordered, ..flow }
}

} // verus!
