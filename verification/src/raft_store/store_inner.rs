//! The inner raft store: which node id it runs as when opened, the snapshot
//! store it hands out, and the lookups of cluster nodes in the state
//! machine's system data.
use vstd::prelude::*;
use std::collections::BTreeMap;
use crate::meta_errors::MetaNetworkError;
use crate::raft_store::snapshot_store::{DataVersion, RaftConfig, SnapshotStoreV004};
use crate::text::{chars_of, decimal, push_decimal, string_of};

verus! {

broadcast use {vstd::std_specs::btree::group_btree_axioms, vstd::laws_cmp::group_laws_cmp};

/// The address a node serves raft on.
#[derive(Debug, PartialEq, Eq)]
pub struct Endpoint {
    pub addr: String,
    pub port: u32,
}

impl Endpoint {
    /// A field-by-field copy.
    pub fn duplicate(&self) -> (e: Endpoint)
        ensures
            e == *self,
    {
        Endpoint { addr: self.addr.clone(), port: self.port }
    }
}

/// A member of the meta-service cluster.
#[derive(Debug, PartialEq, Eq)]
pub struct Node {
    pub name: String,
    pub endpoint: Endpoint,
    pub grpc_api_advertise_address: Option<String>,
}

impl Node {
    /// A field-by-field copy.
    pub fn duplicate(&self) -> (n: Node)
        ensures
            n == *self,
    {
        let grpc = match &self.grpc_api_advertise_address {
            Some(a) => Some(a.clone()),
            None => None,
        };
        Node { name: self.name.clone(), endpoint: self.endpoint.duplicate(), grpc_api_advertise_address: grpc }
    }
}

/// The raft store of one node, as far as it is decided when the store is
/// opened: its node id, its configuration and whether it was opened from
/// stored state.
#[derive(Debug)]
pub struct RaftStoreInner {
    /// The id of the raft node this store serves.
    pub id: u64,
    /// The configuration the store was opened with.
    pub config: RaftConfig,
    /// Whether the store was opened from existing state rather than created.
    pub is_opened: bool,
}

/// The id a store runs as: the one stored in its raft log if there is one,
/// else the one in its configuration.
pub open spec fn store_node_id(config_id: u64, stored_node_id: Option<u64>) -> u64 {
    match stored_node_id {
        Some(id) => id,
        None => config_id,
    }
}

/// A store opened from stored state keeps the stored id whatever its
/// configuration says; a newly created store runs as its configured id,
/// which is the id it records.
pub proof fn lemma_store_identity(config_id: u64, stored_node_id: Option<u64>)
    ensures
        stored_node_id matches Some(id) ==> store_node_id(config_id, stored_node_id) == id,
        stored_node_id is None ==> store_node_id(config_id, stored_node_id) == config_id,
{
}

impl RaftStoreInner {
    /// Opens the store of `config`, given the node id found in its raft
    /// log: a stored id wins over the configured one, and the store counts
    /// as opened exactly when an id was stored.
    pub fn open(config: &RaftConfig, stored_node_id: Option<u64>) -> (s: RaftStoreInner)
        ensures
            s.id == store_node_id(config.id, stored_node_id),
            s.is_opened == stored_node_id.is_some(),
            s.config == *config,
    {
        let is_open = stored_node_id.is_some();
        let id = match stored_node_id {
            Some(id) => id,
            None => config.id,
        };
        RaftStoreInner { id, config: config.duplicate(), is_opened: is_open }
    }

    /// The node id to record in the raft log after opening: the configured
    /// one when the store was newly created, nothing when it was opened.
    pub fn node_id_to_record(&self) -> (r: Option<u64>)
        ensures
            r == (if self.is_opened { None } else { Some(self.config.id) }),
    {
        if self.is_opened {
            None
        } else {
            Some(self.config.id)
        }
    }

    /// A snapshot store of this instance.
    pub fn snapshot_store(&self) -> (s: SnapshotStoreV004)
        ensures
            s.spec_snapshot_config().spec_data_version() == DataVersion::V004,
            s.spec_snapshot_config().spec_raft_config() == self.config,
    {
        SnapshotStoreV004::new(self.config.duplicate())
    }
}

/// The nodes among `nodes` of the ids `ids`, in the order of `ids`; an id
/// without a node is skipped.
pub open spec fn known_nodes(nodes: Map<u64, Node>, ids: Seq<u64>) -> Seq<Node>
    decreases ids.len(),
{
    if ids.len() == 0 {
        Seq::empty()
    } else {
        let rest = known_nodes(nodes, ids.drop_last());
        if nodes.contains_key(ids.last()) {
            rest.push(nodes[ids.last()])
        } else {
            rest
        }
    }
}

/// The node of id `node_id`, if there is one.
pub fn get_node(nodes: &BTreeMap<u64, Node>, node_id: u64) -> (r: Option<Node>)
    ensures
        r == (if nodes@.contains_key(node_id) { Some(nodes@[node_id]) } else { None }),
{
    match nodes.get(&node_id) {
        Some(n) => Some(n.duplicate()),
        None => None,
    }
}

/// The nodes of the ids `ids`, in their order, skipping ids with no node.
pub fn get_nodes(nodes: &BTreeMap<u64, Node>, ids: &Vec<u64>) -> (r: Vec<Node>)
    ensures
        r@ == known_nodes(nodes@, ids@),
{
    let mut ns: Vec<Node> = Vec::new();
    let mut i: usize = 0;
    while i < ids.len()
        invariant
            i <= ids.len(),
            ns@ == known_nodes(nodes@, ids@.take(i as int)),
        decreases ids.len() - i,
    {
        assert(ids@.take(i + 1).drop_last() =~= ids@.take(i as int));
        let node = get_node(nodes, ids[i]);
        if let Some(x) = node {
            ns.push(x);
        }
        i = i + 1;
    }
    assert(ids@.take(ids.len() as int) =~= ids@);
    ns
}

/// The message of a failed endpoint lookup.
pub open spec fn endpoint_missing_message(node_id: u64) -> Seq<char> {
    "fail to get endpoint of node_id: "@ + decimal(node_id as nat)
}

/// The raft endpoint of node `node_id`, or a `GetNodeAddrError` when there
/// is no such node.
pub fn get_node_raft_endpoint(nodes: &BTreeMap<u64, Node>, node_id: u64) -> (r: Result<
    Endpoint,
    MetaNetworkError,
>)
    ensures
        nodes@.contains_key(node_id) ==> r == Ok::<Endpoint, MetaNetworkError>(
            nodes@[node_id].endpoint,
        ),
        !nodes@.contains_key(node_id) ==> (r matches Err(MetaNetworkError::GetNodeAddrError(m))
            && m@ == endpoint_missing_message(node_id)),
{
    match get_node(nodes, node_id) {
        Some(n) => Ok(n.endpoint),
        None => {
            let mut m = chars_of("fail to get endpoint of node_id: ");
            push_decimal(&mut m, node_id);
            Err(MetaNetworkError::GetNodeAddrError(string_of(&m)))
        },
    }
}

/// The kinds of lines an export of the store writes.
#[derive(Debug, PartialEq, Eq, Structural, Clone, Copy)]
pub enum ExportSection {
    /// The data header.
    Header,
    /// The node id of the raft log.
    NodeId,
    /// The vote of the raft log.
    Vote,
    /// The committed log id.
    Committed,
    /// The last purged log id.
    Purged,
    /// One log entry.
    LogEntry,
    /// One key-value entry of the state machine's snapshot.
    StateMachine,
}

/// The tree a line of the export is written under.
pub open spec fn export_tree(section: ExportSection) -> Seq<char> {
    match section {
        ExportSection::Header => "header"@,
        ExportSection::StateMachine => "state_machine/0"@,
        _ => "raft_log"@,
    }
}

/// The tree a line of the export is written under.
pub fn export_tree_name(section: ExportSection) -> (s: &'static str)
    ensures
        s@ == export_tree(section),
{
    match section {
        ExportSection::Header => "header",
        ExportSection::StateMachine => "state_machine/0",
        _ => "raft_log",
    }
}

/// The lines of an export, in order: the header; the node id, vote,
/// committed and purged ids of the raft log; its entries; then the entries
/// of the state machine's snapshot.
pub open spec fn export_order(num_logs: nat, num_sm_entries: nat) -> Seq<ExportSection> {
    seq![
        ExportSection::Header,
        ExportSection::NodeId,
        ExportSection::Vote,
        ExportSection::Committed,
        ExportSection::Purged,
    ] + Seq::new(num_logs, |i: int| ExportSection::LogEntry) + Seq::new(
        num_sm_entries,
        |i: int| ExportSection::StateMachine,
    )
}

/// The order of the lines of an export of `num_logs` log entries and
/// `num_sm_entries` state-machine entries.
pub fn export_sections(num_logs: usize, num_sm_entries: usize) -> (r: Vec<ExportSection>)
    ensures
        r@ == export_order(num_logs as nat, num_sm_entries as nat),
{
    let mut out: Vec<ExportSection> = Vec::new();
    out.push(ExportSection::Header);
    out.push(ExportSection::NodeId);
    out.push(ExportSection::Vote);
    out.push(ExportSection::Committed);
    out.push(ExportSection::Purged);
    let ghost head = out@;
    let mut i: usize = 0;
    while i < num_logs
        invariant
            i <= num_logs,
            out@ == head + Seq::new(i as nat, |k: int| ExportSection::LogEntry),
        decreases num_logs - i,
    {
        out.push(ExportSection::LogEntry);
        i = i + 1;
        assert(out@ =~= head + Seq::new(i as nat, |k: int| ExportSection::LogEntry));
    }
    let ghost mid = out@;
    let mut j: usize = 0;
    while j < num_sm_entries
        invariant
            j <= num_sm_entries,
            out@ == mid + Seq::new(j as nat, |k: int| ExportSection::StateMachine),
        decreases num_sm_entries - j,
    {
        out.push(ExportSection::StateMachine);
        j = j + 1;
        assert(out@ =~= mid + Seq::new(j as nat, |k: int| ExportSection::StateMachine));
    }
    assert(out@ =~= export_order(num_logs as nat, num_sm_entries as nat));
    out
}

} // verus!
