//! Snapshot stores: where the snapshots of the state machine are kept, and in
//! which on-disk data version they are written.
use vstd::prelude::*;

verus! {

/// The part of the raft configuration that the store reads: the id of this
/// node and the directory that holds the raft data.
#[derive(Debug)]
pub struct RaftConfig {
    pub id: u64,
    pub raft_dir: String,
}

impl RaftConfig {
    /// A field-by-field copy of the configuration.
    pub fn duplicate(&self) -> (c: RaftConfig)
        ensures
            c == *self,
    {
        RaftConfig { id: self.id, raft_dir: self.raft_dir.clone() }
    }
}

/// The on-disk format in which snapshot data is written.
#[derive(Clone, Copy, Debug, PartialEq, Eq, Structural)]
pub enum DataVersion {
    /// Snapshots stored in a file.
    V003,
    /// Snapshots stored in a file, beside a WAL based raft log.
    V004,
}

/// Where and in which data version snapshots are written.
#[derive(Debug)]
pub struct SnapshotConfig {
    data_version: DataVersion,
    raft_config: RaftConfig,
}

impl SnapshotConfig {
    pub closed spec fn spec_data_version(&self) -> DataVersion {
        self.data_version
    }

    pub closed spec fn spec_raft_config(&self) -> RaftConfig {
        self.raft_config
    }

    /// The snapshot configuration of data version `data_version` on
    /// `raft_config`.
    pub fn new(data_version: DataVersion, raft_config: RaftConfig) -> (c: SnapshotConfig)
        ensures
            c.spec_data_version() == data_version,
            c.spec_raft_config() == raft_config,
    {
        SnapshotConfig { data_version, raft_config }
    }

    pub fn data_version(&self) -> (v: DataVersion)
        ensures
            v == self.spec_data_version(),
    {
        self.data_version
    }

    pub fn raft_config(&self) -> (c: &RaftConfig)
        ensures
            *c == self.spec_raft_config(),
    {
        &self.raft_config
    }
}

/// A writer that builds a snapshot from key-value pairs under a snapshot
/// configuration, in a temporary file it creates when it starts writing.
#[derive(Debug)]
pub struct WriterV003<'a> {
    snapshot_config: &'a SnapshotConfig,
}

impl<'a> WriterV003<'a> {
    pub closed spec fn spec_snapshot_config(&self) -> SnapshotConfig {
        *self.snapshot_config
    }

    /// The configuration the snapshot is written under.
    pub fn snapshot_config(&self) -> (c: &SnapshotConfig)
        ensures
            *c == self.spec_snapshot_config(),
    {
        self.snapshot_config
    }
}

/// The snapshot store of data version `V004`.
#[derive(Debug)]
pub struct SnapshotStoreV004 {
    snapshot_config: SnapshotConfig,
}

impl SnapshotStoreV004 {
    pub closed spec fn spec_snapshot_config(&self) -> SnapshotConfig {
        self.snapshot_config
    }

    /// A store that writes snapshots in data version `V004` under `config`.
    pub fn new(config: RaftConfig) -> (s: SnapshotStoreV004)
        ensures
            s.spec_snapshot_config().spec_data_version() == DataVersion::V004,
            s.spec_snapshot_config().spec_raft_config() == config,
    {
        SnapshotStoreV004 { snapshot_config: SnapshotConfig::new(DataVersion::V004, config) }
    }

    /// The data version snapshots are written in.
    pub fn data_version(&self) -> (v: DataVersion)
        ensures
            v == self.spec_snapshot_config().spec_data_version(),
    {
        self.snapshot_config.data_version()
    }

    /// The raft configuration the store was made with.
    pub fn config(&self) -> (c: &RaftConfig)
        ensures
            *c == self.spec_snapshot_config().spec_raft_config(),
    {
        self.snapshot_config.raft_config()
    }

    pub fn snapshot_config(&self) -> (c: &SnapshotConfig)
        ensures
            *c == self.spec_snapshot_config(),
    {
        &self.snapshot_config
    }

    /// A writer that builds a snapshot under this store's configuration,
    /// once the snapshot directory was made sure of; `snapshot_dir` is the
    /// outcome of that, and its error is the writer's error.
    pub fn new_writer<E>(&self, snapshot_dir: Result<(), E>) -> (r: Result<WriterV003<'_>, E>)
        ensures
            match snapshot_dir {
                Ok(_) => r matches Ok(w) && w.spec_snapshot_config() == self.spec_snapshot_config(),
                Err(e) => r matches Err(e2) && e2 == e,
            },
    {
        match snapshot_dir {
            Ok(()) => Ok(WriterV003 { snapshot_config: &self.snapshot_config }),
            Err(e) => Err(e),
        }
    }
}

/// The snapshot store of data version `V003`: a `V004` store whose
/// configuration says `V003`.
#[derive(Debug)]
pub struct SnapshotStoreV003 {
    v004: SnapshotStoreV004,
}

impl SnapshotStoreV003 {
    pub closed spec fn spec_inner(&self) -> SnapshotStoreV004 {
        self.v004
    }

    /// A store that writes snapshots in data version `V003` under `config`.
    pub fn new(config: RaftConfig) -> (s: SnapshotStoreV003)
        ensures
            s.spec_inner().spec_snapshot_config().spec_data_version() == DataVersion::V003,
            s.spec_inner().spec_snapshot_config().spec_raft_config() == config,
    {
        SnapshotStoreV003 {
            v004: SnapshotStoreV004 {
                snapshot_config: SnapshotConfig::new(DataVersion::V003, config),
            },
        }
    }
}

impl core::ops::Deref for SnapshotStoreV003 {
    type Target = SnapshotStoreV004;

    fn deref(&self) -> (s: &SnapshotStoreV004)
        ensures
            *s == self.spec_inner(),
    {
        &self.v004
    }
}

impl core::ops::DerefMut for SnapshotStoreV003 {
    fn deref_mut(&mut self) -> (s: &mut SnapshotStoreV004)
        ensures
            *s == old(self).spec_inner(),
            final(self).spec_inner() == *final(s),
    {
        &mut self.v004
    }
}

} // verus!
