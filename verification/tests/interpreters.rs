use bigbytesdb::interpreters::{
    base_segments, create_procedure_outcome, describe_schema_source, describe_task_request, execute_task_request,
    require_cloud_control, set_priority_outcome, warehouse_nodes, CreateOption, DescribedSchema, EmptySource,
    Event, InterpreterKind, MutationKind, SelectedNode,
};
use bigbytesdb::kvapi::Tenant;
use bigbytesdb::ErrorCode;

#[test]
fn interpreter_names_and_ddl_flags() {
    assert_eq!(InterpreterKind::CallProcedure.name(), "ProcedureCall");
    assert_eq!(InterpreterKind::SetStatement.name(), "SetInterpreter");
    assert_eq!(InterpreterKind::DescribeTask.name(), "DescribeTaskInterpreter");
    assert!(InterpreterKind::DropCatalog.is_ddl());
    assert!(InterpreterKind::ExecuteTask.is_ddl());
    assert!(!InterpreterKind::DescribeTable.is_ddl());
    assert!(!InterpreterKind::ExecuteImmediate.is_ddl());
}

#[test]
fn warehouse_size_asks_for_random_nodes() {
    let nodes = warehouse_nodes(Some("3"), &vec![]).unwrap();
    assert_eq!(nodes, vec![SelectedNode::Random(None), SelectedNode::Random(None), SelectedNode::Random(None)]);
    assert_eq!(warehouse_nodes(Some("+0"), &vec![]).unwrap().len(), 0);
}

#[test]
fn warehouse_errors() {
    assert_eq!(
        warehouse_nodes(Some("2"), &vec![(None, 1)]),
        Err(ErrorCode::InvalidArgument("WAREHOUSE_SIZE option and node list exists in one query.".to_string()))
    );
    assert_eq!(
        warehouse_nodes(Some("two"), &vec![]),
        Err(ErrorCode::InvalidArgument("WAREHOUSE_SIZE must be a <number>".to_string()))
    );
    assert_eq!(
        warehouse_nodes(None, &vec![]),
        Err(ErrorCode::InvalidArgument("Warehouse nodes list is empty".to_string()))
    );
}

#[test]
fn warehouse_node_list_expands_groups() {
    let nodes = warehouse_nodes(None, &vec![(Some("g1".to_string()), 2), (None, 1), (Some("g2".to_string()), 0)]).unwrap();
    assert_eq!(
        nodes,
        vec![
            SelectedNode::Random(Some("g1".to_string())),
            SelectedNode::Random(Some("g1".to_string())),
            SelectedNode::Random(None),
        ]
    );
}

#[test]
fn procedure_creation_outcomes() {
    assert_eq!(create_procedure_outcome(false, CreateOption::Create, "p"), Ok(()));
    assert_eq!(create_procedure_outcome(true, CreateOption::CreateIfNotExists, "p"), Ok(()));
    assert_eq!(
        create_procedure_outcome(true, CreateOption::Create, "p"),
        Err(ErrorCode::ProcedureAlreadyExists("Procedure p already exists".to_string()))
    );
    assert!(CreateOption::CreateOrReplace.is_overriding());
    assert!(!CreateOption::CreateIfNotExists.is_overriding());
}

#[test]
fn tasks_need_cloud_control() {
    assert_eq!(require_cloud_control(Some("http://cc"), true), Ok(()));
    assert_eq!(
        require_cloud_control(None, true),
        Err(ErrorCode::CloudControlNotEnabled(
            "cannot describe task without cloud control enabled, please set cloud_control_grpc_server_address in config".to_string()
        ))
    );
    assert_eq!(
        require_cloud_control(None, false),
        Err(ErrorCode::CloudControlNotEnabled(
            "cannot execute task without cloud control enabled, please set cloud_control_grpc_server_address in config".to_string()
        ))
    );
    let t = Tenant::new_literal("t1");
    let d = describe_task_request("task1", &t);
    assert_eq!(d.task_name, "task1");
    assert_eq!(d.tenant_id, "t1");
    assert!(!d.if_exist);
    let e = execute_task_request("task2", &t);
    assert_eq!(e.task_name, "task2");
    assert_eq!(e.tenant_id, "t1");
}

#[test]
fn described_schema_source() {
    assert_eq!(describe_schema_source("FUSE", None), Ok(DescribedSchema::TableSchema));
    assert_eq!(
        describe_schema_source("VIEW", Some("select 1")),
        Ok(DescribedSchema::ViewQuery("select 1".to_string()))
    );
    assert_eq!(
        describe_schema_source("VIEW", None),
        Err(ErrorCode::Internal("Logical error, View Table must have a SelectQuery inside.".to_string()))
    );
}

#[test]
fn set_priority_answers() {
    assert_eq!(set_priority_outcome(Ok(())), Ok(true));
    assert_eq!(set_priority_outcome(Err(ErrorCode::UnknownSession("s".to_string()))), Ok(false));
    assert_eq!(
        set_priority_outcome(Err(ErrorCode::Internal("x".to_string()))),
        Err(ErrorCode::Internal("x".to_string()))
    );
}

#[test]
fn base_segments_by_mutation_kind() {
    assert!(base_segments(MutationKind::Insert, vec![1, 2]).is_empty());
    assert!(base_segments(MutationKind::Compact, vec![1, 2]).is_empty());
    assert!(base_segments(MutationKind::Recluster, vec![1, 2]).is_empty());
    assert_eq!(base_segments(MutationKind::Delete, vec![1, 2]), vec![1, 2]);
    assert_eq!(base_segments(MutationKind::MergeInto, vec![3]), vec![3]);
}

#[test]
fn empty_source_finishes_at_once() {
    let mut s = EmptySource::create();
    assert_eq!(s.name(), "EmptySource");
    assert_eq!(s.event(), Event::Finished);
    assert!(s.output_finished);
}
