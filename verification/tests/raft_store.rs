use std::collections::BTreeMap;

use bigbytesdb::meta_errors::MetaNetworkError;
use bigbytesdb::raft_store::snapshot_store::{DataVersion, RaftConfig, SnapshotConfig, SnapshotStoreV003, SnapshotStoreV004};
use bigbytesdb::raft_store::store_inner::{
    export_sections, export_tree_name, get_node, get_node_raft_endpoint, get_nodes, Endpoint, ExportSection, Node,
    RaftStoreInner,
};

fn config() -> RaftConfig {
    RaftConfig { id: 3, raft_dir: "/tmp/raft".to_string() }
}

fn node(name: &str, port: u32) -> Node {
    Node {
        name: name.to_string(),
        endpoint: Endpoint { addr: "127.0.0.1".to_string(), port },
        grpc_api_advertise_address: None,
    }
}

#[test]
fn v004_store_reports_version_and_config() {
    let s = SnapshotStoreV004::new(config());
    assert_eq!(s.data_version(), DataVersion::V004);
    assert_eq!(s.config().id, 3);
    assert_eq!(s.config().raft_dir, "/tmp/raft");
    assert_eq!(s.snapshot_config().data_version(), DataVersion::V004);
    let w = s.new_writer::<String>(Ok(())).unwrap();
    assert_eq!(w.snapshot_config().raft_config().raft_dir, "/tmp/raft");
    let failed = s.new_writer(Err("no space".to_string()));
    assert_eq!(failed.err(), Some("no space".to_string()));
}

#[test]
fn v003_store_reports_v003() {
    let mut s = SnapshotStoreV003::new(config());
    assert_eq!(s.data_version(), DataVersion::V003);
    assert_eq!(s.config().id, 3);
    assert_eq!(s.snapshot_config().raft_config().raft_dir, "/tmp/raft");
    let inner: &mut SnapshotStoreV004 = &mut s;
    assert_eq!(inner.data_version(), DataVersion::V003);
}

#[test]
fn snapshot_config_keeps_what_it_was_made_with() {
    let c = SnapshotConfig::new(DataVersion::V003, config());
    assert_eq!(c.data_version(), DataVersion::V003);
    assert_eq!(c.raft_config().id, 3);
}

#[test]
fn stored_node_id_wins_over_config() {
    let s = RaftStoreInner::open(&config(), Some(9));
    assert_eq!(s.id, 9);
    assert!(s.is_opened);
    assert_eq!(s.node_id_to_record(), None);
}

#[test]
fn new_store_runs_as_configured_id_and_records_it() {
    let s = RaftStoreInner::open(&config(), None);
    assert_eq!(s.id, 3);
    assert!(!s.is_opened);
    assert_eq!(s.node_id_to_record(), Some(3));
    let ss = s.snapshot_store();
    assert_eq!(ss.data_version(), DataVersion::V004);
    assert_eq!(ss.config().id, 3);
}

#[test]
fn nodes_are_looked_up_by_id() {
    let mut nodes = BTreeMap::new();
    nodes.insert(1u64, node("n1", 1001));
    nodes.insert(2u64, node("n2", 1002));
    assert_eq!(get_node(&nodes, 2).unwrap().name, "n2");
    assert!(get_node(&nodes, 5).is_none());
    let ns = get_nodes(&nodes, &vec![2, 7, 1]);
    assert_eq!(ns.len(), 2);
    assert_eq!(ns[0].name, "n2");
    assert_eq!(ns[1].name, "n1");
}

#[test]
fn missing_endpoint_is_a_network_error() {
    let mut nodes = BTreeMap::new();
    nodes.insert(1u64, node("n1", 1001));
    assert_eq!(get_node_raft_endpoint(&nodes, 1).unwrap().port, 1001);
    assert_eq!(
        get_node_raft_endpoint(&nodes, 42),
        Err(MetaNetworkError::GetNodeAddrError("fail to get endpoint of node_id: 42".to_string()))
    );
}

#[test]
fn export_writes_header_state_logs_then_state_machine() {
    let s = export_sections(2, 1);
    assert_eq!(
        s,
        vec![
            ExportSection::Header,
            ExportSection::NodeId,
            ExportSection::Vote,
            ExportSection::Committed,
            ExportSection::Purged,
            ExportSection::LogEntry,
            ExportSection::LogEntry,
            ExportSection::StateMachine,
        ]
    );
    assert_eq!(export_tree_name(ExportSection::Header), "header");
    assert_eq!(export_tree_name(ExportSection::Vote), "raft_log");
    assert_eq!(export_tree_name(ExportSection::StateMachine), "state_machine/0");
}
