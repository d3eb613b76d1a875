//! The raft store of a meta-service node: its configuration, the snapshot
//! stores built on it, and the decisions taken when the store is opened or
//! asked about the nodes of the cluster.
pub mod snapshot_store;
pub mod store_inner;
