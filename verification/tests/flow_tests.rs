use ai_task_manager::flows::{
    check_flow_input, flow_with_nodes, plan_flow_upsert, ComplexTaskFlowRecord, ComplexTaskNodeRecord,
    UpsertComplexFlowInput, UpsertComplexFlowNodeInput,
};

fn node(node_id: &str, position: i64) -> UpsertComplexFlowNodeInput {
    UpsertComplexFlowNodeInput {
        node_id: node_id.to_string(),
        ref_task_id: "t9".to_string(),
        node_type: "simple_task".to_string(),
        position,
        condition_expr: None,
        on_success_next: Some("n2".to_string()),
        on_failure_next: None,
    }
}

fn input(flow_id: &str, parent: &str) -> UpsertComplexFlowInput {
    UpsertComplexFlowInput {
        flow_id: flow_id.to_string(),
        parent_task_id: parent.to_string(),
        flow_name: Some("nightly".to_string()),
        flow_description: None,
        version: None,
        status: None,
        nodes: vec![node("n1", 2), node("n2", 1)],
    }
}

#[test]
fn flow_upsert_writes_the_flow_its_nodes_and_the_link() {
    let plan = plan_flow_upsert(input("f1", "t1"), true, "500".to_string()).unwrap();
    assert_eq!(plan.flow.flow_id, "f1");
    assert_eq!(plan.flow.parent_task_id, "t1");
    assert_eq!(plan.flow.flow_name, Some("nightly".to_string()));
    assert_eq!(plan.flow.flow_description, None);
    assert_eq!(plan.flow.version, 1);
    assert_eq!(plan.flow.status, "draft");
    assert_eq!(plan.flow.created_at, "500");
    assert_eq!(plan.flow.updated_at, "500");
    assert_eq!(plan.flow.nodes.len(), 2);
    assert_eq!(plan.flow.nodes[0].node_id, "n1");
    assert_eq!(plan.flow.nodes[0].flow_id, "f1");
    assert_eq!(plan.flow.nodes[0].position, 2);
    assert_eq!(plan.flow.nodes[0].on_success_next, Some("n2".to_string()));
    assert_eq!(plan.flow.nodes[1].node_id, "n2");
    assert_eq!(plan.flow.nodes[1].flow_id, "f1");
    assert_eq!(plan.flow.nodes[1].created_at, "500");
    assert_eq!(plan.link.task_id, "t1");
    assert_eq!(plan.link.task_complexity_type, "complex");
    assert_eq!(plan.link.flow_id, "f1");
    assert_eq!(plan.link.updated_at, "500");
}

#[test]
fn flow_upsert_keeps_a_given_version_and_status() {
    let mut given = input("f1", "t1");
    given.version = Some(4);
    given.status = Some("published".to_string());
    given.nodes = Vec::new();
    let plan = plan_flow_upsert(given, true, "1".to_string()).unwrap();
    assert_eq!(plan.flow.version, 4);
    assert_eq!(plan.flow.status, "published");
    assert!(plan.flow.nodes.is_empty());
}

#[test]
fn flow_upsert_refusals_come_in_order() {
    assert_eq!(plan_flow_upsert(input(" ", ""), false, "1".to_string()).unwrap_err(), "flowId is required");
    assert_eq!(plan_flow_upsert(input("f1", "\n"), false, "1".to_string()).unwrap_err(), "parentTaskId is required");
    assert_eq!(plan_flow_upsert(input("f1", "t1"), false, "1".to_string()).unwrap_err(), "parent task not found");
    assert_eq!(check_flow_input(&input("", "t1")).unwrap_err(), "flowId is required");
    assert_eq!(check_flow_input(&input("f1", "")).unwrap_err(), "parentTaskId is required");
    assert!(check_flow_input(&input("f1", "t1")).is_ok());
}

fn stored_node(node_id: &str, position: i64) -> ComplexTaskNodeRecord {
    ComplexTaskNodeRecord {
        node_id: node_id.to_string(),
        flow_id: "f1".to_string(),
        ref_task_id: "t9".to_string(),
        node_type: "simple_task".to_string(),
        position,
        condition_expr: None,
        on_success_next: None,
        on_failure_next: None,
        created_at: "1".to_string(),
        updated_at: "1".to_string(),
    }
}

#[test]
fn read_flow_lists_nodes_by_position() {
    let flow = ComplexTaskFlowRecord {
        flow_id: "f1".to_string(),
        parent_task_id: "t1".to_string(),
        flow_name: None,
        flow_description: Some("d".to_string()),
        version: 3,
        status: "draft".to_string(),
        created_at: "1".to_string(),
        updated_at: "2".to_string(),
        nodes: Vec::new(),
    };
    let read = flow_with_nodes(flow, vec![stored_node("c", 3), stored_node("a", -1), stored_node("b", 3), stored_node("z", 0)]);
    let ids: Vec<&str> = read.nodes.iter().map(|n| n.node_id.as_str()).collect();
    assert_eq!(ids, vec!["a", "z", "c", "b"]);
    assert_eq!(read.flow_id, "f1");
    assert_eq!(read.version, 3);
    assert_eq!(read.flow_description, Some("d".to_string()));
    assert_eq!(read.updated_at, "2");
}
