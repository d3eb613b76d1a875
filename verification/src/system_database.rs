//! The `system` database: which of its tables are loaded, under which ids,
//! and the description of the database itself.
use vstd::prelude::*;
use crate::text::str_eq;

verus! {

/// A table of the `system` database, by its name and id.
#[derive(Debug, PartialEq, Eq)]
pub struct SystemTable {
    pub name: String,
    pub id: u64,
}

/// A table registered in memory under a database.
#[derive(Debug, PartialEq, Eq)]
pub struct RegisteredTable {
    pub db_name: String,
    pub table: SystemTable,
}

/// In-memory metadata of the databases that are not stored in the meta
/// service: the next free database and table ids, and the tables registered
/// so far, in the order of registration.
#[derive(Debug)]
pub struct InMemoryMetas {
    pub next_db_id: u64,
    pub next_table_id: u64,
    pub tables: Vec<RegisteredTable>,
}

impl InMemoryMetas {
    /// Metadata with no table, handing out ids from the given ones.
    pub fn new(next_db_id: u64, next_table_id: u64) -> (m: InMemoryMetas)
        ensures
            m.next_db_id == next_db_id,
            m.next_table_id == next_table_id,
            m.tables@.len() == 0,
    {
        InMemoryMetas { next_db_id, next_table_id, tables: Vec::new() }
    }

    /// Hands out the next table id.
    pub fn next_table_id(&mut self) -> (id: u64)
        requires
            old(self).next_table_id < u64::MAX,
        ensures
            id == old(self).next_table_id,
            final(self).next_table_id == old(self).next_table_id + 1,
            final(self).next_db_id == old(self).next_db_id,
            final(self).tables@ == old(self).tables@,
    {
        let id = self.next_table_id;
        self.next_table_id = self.next_table_id + 1;
        id
    }

    /// Hands out the next database id.
    pub fn next_db_id(&mut self) -> (id: u64)
        requires
            old(self).next_db_id < u64::MAX,
        ensures
            id == old(self).next_db_id,
            final(self).next_db_id == old(self).next_db_id + 1,
            final(self).next_table_id == old(self).next_table_id,
            final(self).tables@ == old(self).tables@,
    {
        let id = self.next_db_id;
        self.next_db_id = self.next_db_id + 1;
        id
    }

    /// Registers `table` under the database `db_name`.
    pub fn insert(&mut self, db_name: &str, table: SystemTable)
        ensures
            final(self).tables@.len() == old(self).tables@.len() + 1,
            final(self).tables@.drop_last() == old(self).tables@,
            final(self).tables@.last().db_name@ == db_name@,
            final(self).tables@.last().table == table,
            final(self).next_db_id == old(self).next_db_id,
            final(self).next_table_id == old(self).next_table_id,
    {
        self.tables.push(RegisteredTable { db_name: db_name.to_owned(), table });
        assert(self.tables@.drop_last() =~= old(self).tables@);
    }
}

/// The tables that may be hidden from SQL users.
pub open spec fn is_disabled_system_table(name: Seq<char>) -> bool {
    ||| name == "configs"@
    ||| name == "tracing"@
    ||| name == "clusters"@
    ||| name == "malloc_stats"@
    ||| name == "build_options"@
}

/// Whether `name` is one of the tables that may be hidden.
pub fn disable_system_tables_contains(name: &str) -> (r: bool)
    ensures
        r == is_disabled_system_table(name@),
{
    str_eq(name, "configs") || str_eq(name, "tracing") || str_eq(name, "clusters") || str_eq(
        name,
        "malloc_stats",
    ) || str_eq(name, "build_options")
}

/// Whether a table is loaded into the `system` database: always, unless
/// loading is restricted and the table is one that may be hidden.
pub open spec fn is_loaded(disable_system_table_load: bool, t: SystemTable) -> bool {
    !(disable_system_table_load && is_disabled_system_table(t.name@))
}

/// The tables among `tables` that are loaded, in their order.
pub open spec fn loaded_tables(disable_system_table_load: bool, tables: Seq<SystemTable>) -> Seq<
    SystemTable,
> {
    tables.filter(|t: SystemTable| is_loaded(disable_system_table_load, t))
}

/// Without the restriction every system table is loaded, in order.
pub proof fn lemma_unrestricted_loads_every_table(tables: Seq<SystemTable>)
    ensures
        loaded_tables(false, tables) == tables,
    decreases tables.len(),
{
    reveal(Seq::filter);
    if tables.len() > 0 {
        lemma_unrestricted_loads_every_table(tables.drop_last());
        assert(tables.drop_last().push(tables.last()) =~= tables);
    }
}

/// With the restriction no table that may be hidden is loaded, and every
/// other table is.
pub proof fn lemma_restricted_hides_exactly_the_hidden(tables: Seq<SystemTable>)
    ensures
        forall|i: int|
            0 <= i < loaded_tables(true, tables).len() ==> !is_disabled_system_table(
                (#[trigger] loaded_tables(true, tables)[i]).name@,
            ),
        forall|t: SystemTable|
            tables.contains(t) && !is_disabled_system_table(t.name@) ==> #[trigger] loaded_tables(
                true,
                tables,
            ).contains(t),
{
    let pred = |t: SystemTable| is_loaded(true, t);
    tables.filter_lemma(pred);
    assert forall|t: SystemTable|
        tables.contains(t) && !is_disabled_system_table(t.name@) implies #[trigger] loaded_tables(
        true,
        tables,
    ).contains(t) by {
        let i = choose|i: int| 0 <= i < tables.len() && tables[i] == t;
        assert(pred(tables[i]));
    }
}

/// The system tables named `names`, in order, numbered from `first`.
pub open spec fn numbered_tables(names: Seq<String>, first: u64) -> Seq<SystemTable> {
    Seq::new(names.len(), |i: int| SystemTable { name: names[i], id: (first + i) as u64 })
}

/// The system tables, one per kind, in the order they are created.
#[derive(Debug, PartialEq, Eq, Structural, Clone, Copy)]
pub enum SystemTableKind {
    OneTable,
    FunctionsTable,
    ContributorsTable,
    CreditsTable,
    SettingsTable,
    TablesTableWithoutHistory,
    TablesTableWithHistory,
    ClustersTable,
    DatabasesTableWithHistory,
    DatabasesTableWithoutHistory,
    FullStreamsTable,
    TerseStreamsTable,
    ProcessesTable,
    ConfigsTable,
    MetricsTable,
    MallocStatsTable,
    MallocStatsTotalsTable,
    ColumnsTable,
    UsersTable,
    QueryLogTable,
    ClusteringHistoryTable,
    EnginesTable,
    RolesTable,
    StagesTable,
    BuildOptionsTable,
    CatalogsTable,
    QueryCacheTable,
    TableFunctionsTable,
    CachesTable,
    IndexesTable,
    BackgroundTaskTable,
    BackgroundJobTable,
    BacktraceTable,
    TempFilesTable,
    TasksTable,
    TaskHistoryTable,
    QueriesProfilingTable,
    LocksTable,
    VirtualColumnsTable,
    PasswordPoliciesTable,
    UserFunctionsTable,
    NotificationsTable,
    NotificationHistoryTable,
    ViewsTableWithHistory,
    ViewsTableWithoutHistory,
    TemporaryTablesTable,
    ProceduresTable,
    DictionariesTable,
}

/// The system tables in the order they are created and numbered; the
/// memory allocator's statistics tables only when the allocator keeps
/// them.
pub open spec fn system_table_order(with_malloc_stats: bool) -> Seq<SystemTableKind> {
    seq![
        SystemTableKind::OneTable,
        SystemTableKind::FunctionsTable,
        SystemTableKind::ContributorsTable,
        SystemTableKind::CreditsTable,
        SystemTableKind::SettingsTable,
        SystemTableKind::TablesTableWithoutHistory,
        SystemTableKind::TablesTableWithHistory,
        SystemTableKind::ClustersTable,
        SystemTableKind::DatabasesTableWithHistory,
        SystemTableKind::DatabasesTableWithoutHistory,
        SystemTableKind::FullStreamsTable,
        SystemTableKind::TerseStreamsTable,
        SystemTableKind::ProcessesTable,
        SystemTableKind::ConfigsTable,
        SystemTableKind::MetricsTable,
    ] + (if with_malloc_stats {
        seq![
        SystemTableKind::MallocStatsTable,
        SystemTableKind::MallocStatsTotalsTable,
    ]
    } else {
        Seq::empty()
    }) + seq![
        SystemTableKind::ColumnsTable,
        SystemTableKind::UsersTable,
        SystemTableKind::QueryLogTable,
        SystemTableKind::ClusteringHistoryTable,
        SystemTableKind::EnginesTable,
        SystemTableKind::RolesTable,
        SystemTableKind::StagesTable,
        SystemTableKind::BuildOptionsTable,
        SystemTableKind::CatalogsTable,
        SystemTableKind::QueryCacheTable,
        SystemTableKind::TableFunctionsTable,
        SystemTableKind::CachesTable,
        SystemTableKind::IndexesTable,
        SystemTableKind::BackgroundTaskTable,
        SystemTableKind::BackgroundJobTable,
        SystemTableKind::BacktraceTable,
        SystemTableKind::TempFilesTable,
        SystemTableKind::TasksTable,
        SystemTableKind::TaskHistoryTable,
        SystemTableKind::QueriesProfilingTable,
        SystemTableKind::LocksTable,
        SystemTableKind::VirtualColumnsTable,
        SystemTableKind::PasswordPoliciesTable,
        SystemTableKind::UserFunctionsTable,
        SystemTableKind::NotificationsTable,
        SystemTableKind::NotificationHistoryTable,
        SystemTableKind::ViewsTableWithHistory,
        SystemTableKind::ViewsTableWithoutHistory,
        SystemTableKind::TemporaryTablesTable,
        SystemTableKind::ProceduresTable,
        SystemTableKind::DictionariesTable,
    ]
}

/// The system tables in the order they are created and numbered.
#[verifier::rlimit(80)]
pub fn system_table_kinds(with_malloc_stats: bool) -> (v: Vec<SystemTableKind>)
    ensures
        v@ == system_table_order(with_malloc_stats),
{
    let mut v: Vec<SystemTableKind> = Vec::new();
    v.push(SystemTableKind::OneTable);
    v.push(SystemTableKind::FunctionsTable);
    v.push(SystemTableKind::ContributorsTable);
    v.push(SystemTableKind::CreditsTable);
    v.push(SystemTableKind::SettingsTable);
    v.push(SystemTableKind::TablesTableWithoutHistory);
    v.push(SystemTableKind::TablesTableWithHistory);
    v.push(SystemTableKind::ClustersTable);
    v.push(SystemTableKind::DatabasesTableWithHistory);
    v.push(SystemTableKind::DatabasesTableWithoutHistory);
    v.push(SystemTableKind::FullStreamsTable);
    v.push(SystemTableKind::TerseStreamsTable);
    v.push(SystemTableKind::ProcessesTable);
    v.push(SystemTableKind::ConfigsTable);
    v.push(SystemTableKind::MetricsTable);
    if with_malloc_stats {
        v.push(SystemTableKind::MallocStatsTable);
        v.push(SystemTableKind::MallocStatsTotalsTable);
    }
    v.push(SystemTableKind::ColumnsTable);
    v.push(SystemTableKind::UsersTable);
    v.push(SystemTableKind::QueryLogTable);
    v.push(SystemTableKind::ClusteringHistoryTable);
    v.push(SystemTableKind::EnginesTable);
    v.push(SystemTableKind::RolesTable);
    v.push(SystemTableKind::StagesTable);
    v.push(SystemTableKind::BuildOptionsTable);
    v.push(SystemTableKind::CatalogsTable);
    v.push(SystemTableKind::QueryCacheTable);
    v.push(SystemTableKind::TableFunctionsTable);
    v.push(SystemTableKind::CachesTable);
    v.push(SystemTableKind::IndexesTable);
    v.push(SystemTableKind::BackgroundTaskTable);
    v.push(SystemTableKind::BackgroundJobTable);
    v.push(SystemTableKind::BacktraceTable);
    v.push(SystemTableKind::TempFilesTable);
    v.push(SystemTableKind::TasksTable);
    v.push(SystemTableKind::TaskHistoryTable);
    v.push(SystemTableKind::QueriesProfilingTable);
    v.push(SystemTableKind::LocksTable);
    v.push(SystemTableKind::VirtualColumnsTable);
    v.push(SystemTableKind::PasswordPoliciesTable);
    v.push(SystemTableKind::UserFunctionsTable);
    v.push(SystemTableKind::NotificationsTable);
    v.push(SystemTableKind::NotificationHistoryTable);
    v.push(SystemTableKind::ViewsTableWithHistory);
    v.push(SystemTableKind::ViewsTableWithoutHistory);
    v.push(SystemTableKind::TemporaryTablesTable);
    v.push(SystemTableKind::ProceduresTable);
    v.push(SystemTableKind::DictionariesTable);
    assert(v@ =~= system_table_order(with_malloc_stats));
    v
}

/// The description of a database.
#[derive(Debug)]
pub struct DatabaseInfo {
    pub database_id: u64,
    pub tenant: String,
    pub name: String,
    pub seq: u64,
    pub engine: String,
}

/// The `system` database.
#[derive(Debug)]
pub struct SystemDatabase {
    pub db_info: DatabaseInfo,
}

impl SystemDatabase {
    /// Creates the system tables named `names`, in order, each numbered by
    /// the next table id; registers them under `system`, leaving out the
    /// ones that may be hidden when `disable_system_table_load` is set; and
    /// describes the database with the next database id: tenant `dummy`,
    /// name `system`, engine `SYSTEM`, sequence 0.
    pub fn create(
        sys_db_meta: &mut InMemoryMetas,
        disable_system_table_load: bool,
        names: Vec<String>,
    ) -> (db: SystemDatabase)
        requires
            old(sys_db_meta).next_db_id < u64::MAX,
            old(sys_db_meta).next_table_id + names@.len() <= u64::MAX,
        ensures
            final(sys_db_meta).tables@.subrange(0, old(sys_db_meta).tables@.len() as int)
                == old(sys_db_meta).tables@,
            final(sys_db_meta).tables@.len() == old(sys_db_meta).tables@.len() + loaded_tables(
                disable_system_table_load,
                numbered_tables(names@, old(sys_db_meta).next_table_id),
            ).len(),
            forall|i: int|
                0 <= i < loaded_tables(
                    disable_system_table_load,
                    numbered_tables(names@, old(sys_db_meta).next_table_id),
                ).len() ==> {
                    let r = #[trigger] final(sys_db_meta).tables@[old(sys_db_meta).tables@.len() + i];
                    &&& r.db_name@ == "system"@
                    &&& r.table == loaded_tables(
                        disable_system_table_load,
                        numbered_tables(names@, old(sys_db_meta).next_table_id),
                    )[i]
                },
            final(sys_db_meta).next_db_id == old(sys_db_meta).next_db_id + 1,
            final(sys_db_meta).next_table_id == old(sys_db_meta).next_table_id + names@.len(),
            db.db_info.database_id == old(sys_db_meta).next_db_id,
            db.db_info.tenant@ == "dummy"@,
            db.db_info.name@ == "system"@,
            db.db_info.seq == 0,
            db.db_info.engine@ == "SYSTEM"@,
    {
        let ghost start = sys_db_meta.tables@;
        let ghost first = sys_db_meta.next_table_id;
        let ghost all_names = names@;
        let ghost all = numbered_tables(names@, first);
        assert(all_names.len() == names.len());
        let mut rest = names;
        let mut taken: usize = 0;
        while rest.len() > 0
            invariant
                taken + rest@.len() == all.len(),
                all.len() <= usize::MAX,
                rest@ == all_names.subrange(taken as int, all_names.len() as int),
                all_names.len() == all.len(),
                all == numbered_tables(all_names, first),
                first + all_names.len() <= u64::MAX,
                sys_db_meta.tables@.subrange(0, start.len() as int) == start,
                sys_db_meta.tables@.len() == start.len() + loaded_tables(
                    disable_system_table_load,
                    all.take(taken as int),
                ).len(),
                forall|i: int|
                    0 <= i < loaded_tables(disable_system_table_load, all.take(taken as int)).len()
                        ==> {
                        let r = #[trigger] sys_db_meta.tables@[start.len() + i];
                        &&& r.db_name@ == "system"@
                        &&& r.table == loaded_tables(disable_system_table_load, all.take(taken as int))[i]
                    },
                sys_db_meta.next_db_id == old(sys_db_meta).next_db_id,
                sys_db_meta.next_table_id == first + taken,
                first == old(sys_db_meta).next_table_id,
                start == old(sys_db_meta).tables@,
            decreases rest.len(),
        {
            let name = rest.remove(0);
            let id = sys_db_meta.next_table_id();
            let tbl = SystemTable { name, id };
            assert(tbl == all[taken as int]);
            let ghost before = sys_db_meta.tables@;
            let ghost prev = loaded_tables(disable_system_table_load, all.take(taken as int));
            proof {
                assert(all.take(taken + 1).drop_last() =~= all.take(taken as int));
                assert(all.take(taken + 1).last() == tbl);
                reveal(Seq::filter);
            }
            let load = if disable_system_table_load {
                !disable_system_tables_contains(tbl.name.as_str())
            } else {
                true
            };
            assert(load == is_loaded(disable_system_table_load, tbl));
            if load {
                sys_db_meta.insert("system", tbl);
                proof {
                    assert(sys_db_meta.tables@.subrange(0, start.len() as int) =~= start) by {
                        assert(sys_db_meta.tables@.drop_last() == before);
                        assert(before.subrange(0, start.len() as int) == start);
                    }
                }
            }
            taken = taken + 1;
            proof {
                let now = loaded_tables(disable_system_table_load, all.take(taken as int));
                assert(now == (if load { prev.push(all[taken - 1]) } else { prev }));
                assert forall|i: int| 0 <= i < now.len() implies {
                    let r = #[trigger] sys_db_meta.tables@[start.len() + i];
                    &&& r.db_name@ == "system"@
                    &&& r.table == now[i]
                } by {
                    if i < prev.len() {
                        assert(sys_db_meta.tables@[start.len() + i] == before[start.len() + i]);
                    }
                }
                assert(rest@ =~= all_names.subrange(taken as int, all_names.len() as int));
            }
        }
        assert(all.take(taken as int) =~= all);
        let database_id = sys_db_meta.next_db_id();
        let db_info = DatabaseInfo {
            database_id,
            tenant: "dummy".to_owned(),
            name: "system".to_owned(),
            seq: 0,
            engine: "SYSTEM".to_owned(),
        };
        SystemDatabase { db_info }
    }

    /// The name of the database.
    pub fn name(&self) -> (s: &'static str)
        ensures
            s@ == "system"@,
    {
        "system"
    }

    pub fn get_db_info(&self) -> (i: &DatabaseInfo)
        ensures
            *i == self.db_info,
    {
        &self.db_info
    }
}

/// With restricted loading, only `configs`, `tracing`, `clusters`,
/// `malloc_stats` and `build_options` are hidden: every other table is
/// loaded, and none of these five is.
pub proof fn lemma_restricted_load_hides_only_the_five(tables: Seq<SystemTable>)
    ensures
        forall|t: SystemTable|
            tables.contains(t) && t.name@ != "configs"@ && t.name@ != "tracing"@ && t.name@
                != "clusters"@ && t.name@ != "malloc_stats"@ && t.name@ != "build_options"@
                ==> #[trigger] loaded_tables(true, tables).contains(t),
        forall|i: int|
            0 <= i < loaded_tables(true, tables).len() ==> {
                let n = (#[trigger] loaded_tables(true, tables)[i]).name@;
                n != "configs"@ && n != "tracing"@ && n != "clusters"@ && n != "malloc_stats"@ && n
                    != "build_options"@
            },
{
    lemma_restricted_hides_exactly_the_hidden(tables);
}

} // verus!
