//! The decisions of the SQL interpreters that are not bound to a storage or
//! a service: their names, which of them are DDL, and how their requests
//! and outcomes are formed.
use vstd::prelude::*;
use crate::error::ErrorCode;
use crate::kvapi::Tenant;
use crate::text::{chars_of, extend_str, parse_usize, parses_as_usize, str_eq, string_of, usize_digits, digits_value};

verus! {

/// The interpreters of this module.
#[derive(Debug, PartialEq, Eq, Structural, Clone, Copy)]
pub enum InterpreterKind {
    DropCatalog,
    CreateWarehouse,
    DropWarehouse,
    ExecuteImmediate,
    CallProcedure,
    CreateProcedure,
    CreateSequence,
    SetStatement,
    DescribeTable,
    DescribeTask,
    ExecuteTask,
}

/// The name an interpreter reports.
pub open spec fn interpreter_name(k: InterpreterKind) -> Seq<char> {
    match k {
        InterpreterKind::DropCatalog => "DropCatalogInterpreter"@,
        InterpreterKind::CreateWarehouse => "CreateWarehouseInterpreter"@,
        InterpreterKind::DropWarehouse => "DropWarehouseInterpreter"@,
        InterpreterKind::ExecuteImmediate => "ExecuteImmediateInterpreter"@,
        InterpreterKind::CallProcedure => "ProcedureCall"@,
        InterpreterKind::CreateProcedure => "CreateProcedureInterpreter"@,
        InterpreterKind::CreateSequence => "CreateSequenceInterpreter"@,
        InterpreterKind::SetStatement => "SetInterpreter"@,
        InterpreterKind::DescribeTable => "DescribeTableInterpreter"@,
        InterpreterKind::DescribeTask => "DescribeTaskInterpreter"@,
        InterpreterKind::ExecuteTask => "ExecuteTaskInterpreter"@,
    }
}

/// Whether an interpreter runs a DDL statement.
pub open spec fn interpreter_is_ddl(k: InterpreterKind) -> bool {
    match k {
        InterpreterKind::DropCatalog => true,
        InterpreterKind::CreateWarehouse => true,
        InterpreterKind::DropWarehouse => true,
        InterpreterKind::ExecuteImmediate => false,
        InterpreterKind::CallProcedure => false,
        InterpreterKind::CreateProcedure => true,
        InterpreterKind::CreateSequence => true,
        InterpreterKind::SetStatement => false,
        InterpreterKind::DescribeTable => false,
        InterpreterKind::DescribeTask => false,
        InterpreterKind::ExecuteTask => true,
    }
}

impl InterpreterKind {
    pub fn name(&self) -> (s: &'static str)
        ensures
            s@ == interpreter_name(*self),
    {
        match self {
            InterpreterKind::DropCatalog => "DropCatalogInterpreter",
            InterpreterKind::CreateWarehouse => "CreateWarehouseInterpreter",
            InterpreterKind::DropWarehouse => "DropWarehouseInterpreter",
            InterpreterKind::ExecuteImmediate => "ExecuteImmediateInterpreter",
            InterpreterKind::CallProcedure => "ProcedureCall",
            InterpreterKind::CreateProcedure => "CreateProcedureInterpreter",
            InterpreterKind::CreateSequence => "CreateSequenceInterpreter",
            InterpreterKind::SetStatement => "SetInterpreter",
            InterpreterKind::DescribeTable => "DescribeTableInterpreter",
            InterpreterKind::DescribeTask => "DescribeTaskInterpreter",
            InterpreterKind::ExecuteTask => "ExecuteTaskInterpreter",
        }
    }

    pub fn is_ddl(&self) -> (r: bool)
        ensures
            r == interpreter_is_ddl(*self),
    {
        match self {
            InterpreterKind::DropCatalog => true,
            InterpreterKind::CreateWarehouse => true,
            InterpreterKind::DropWarehouse => true,
            InterpreterKind::ExecuteImmediate => false,
            InterpreterKind::CallProcedure => false,
            InterpreterKind::CreateProcedure => true,
            InterpreterKind::CreateSequence => true,
            InterpreterKind::SetStatement => false,
            InterpreterKind::DescribeTable => false,
            InterpreterKind::DescribeTask => false,
            InterpreterKind::ExecuteTask => true,
        }
    }
}

// Warehouses
// ---------------------------------------------------------------------------

/// A node asked for a warehouse: any free node, of the given group if one
/// is named.
#[derive(Debug, PartialEq, Eq)]
pub enum SelectedNode {
    Random(Option<String>),
}

/// The nodes asked for by `(group, count)` pairs: `count` nodes of each
/// group, group after group.
pub open spec fn nodes_of_groups(groups: Seq<(Option<String>, u64)>) -> Seq<SelectedNode>
    decreases groups.len(),
{
    if groups.len() == 0 {
        Seq::empty()
    } else {
        nodes_of_groups(groups.drop_last()) + Seq::new(
            groups.last().1 as nat,
            |i: int| SelectedNode::Random(groups.last().0),
        )
    }
}

/// The total number of nodes asked for.
pub open spec fn total_nodes(groups: Seq<(Option<String>, u64)>) -> nat
    decreases groups.len(),
{
    if groups.len() == 0 {
        0
    } else {
        total_nodes(groups.drop_last()) + groups.last().1 as nat
    }
}

/// A node list asks for as many nodes as its counts add up to, each of the
/// group it was listed with.
pub proof fn lemma_warehouse_node_count(groups: Seq<(Option<String>, u64)>)
    ensures
        nodes_of_groups(groups).len() == total_nodes(groups),
    decreases groups.len(),
{
    if groups.len() > 0 {
        lemma_warehouse_node_count(groups.drop_last());
    }
}

/// The nodes a `CREATE WAREHOUSE` statement asks for: `warehouse_size`
/// nodes of any group when that option is given (and then no node list may
/// be given), else the nodes of its node list, which must not be empty.
pub fn warehouse_nodes(warehouse_size: Option<&str>, groups: &Vec<(Option<String>, u64)>) -> (r:
    Result<Vec<SelectedNode>, ErrorCode>)
    ensures
        match warehouse_size {
            Some(size) => if groups@.len() > 0 {
                r matches Err(ErrorCode::InvalidArgument(m)) && m@
                    == "WAREHOUSE_SIZE option and node list exists in one query."@
            } else if !parses_as_usize(size@) {
                r matches Err(ErrorCode::InvalidArgument(m)) && m@
                    == "WAREHOUSE_SIZE must be a <number>"@
            } else {
                r matches Ok(nodes) && nodes@ == Seq::new(
                    digits_value(usize_digits(size@)),
                    |i: int| SelectedNode::Random(None),
                )
            },
            None => if groups@.len() == 0 {
                r matches Err(ErrorCode::InvalidArgument(m)) && m@
                    == "Warehouse nodes list is empty"@
            } else {
                r matches Ok(nodes) && nodes@ == nodes_of_groups(groups@)
            },
        },
{
    if let Some(size) = warehouse_size {
        if groups.len() > 0 {
            return Err(
                ErrorCode::InvalidArgument(
                    "WAREHOUSE_SIZE option and node list exists in one query.".to_owned(),
                ),
            );
        }
        let n = match parse_usize(size) {
            Some(n) => n,
            None => {
                return Err(
                    ErrorCode::InvalidArgument("WAREHOUSE_SIZE must be a <number>".to_owned()),
                );
            },
        };
        let mut nodes: Vec<SelectedNode> = Vec::new();
        let mut i: usize = 0;
        while i < n
            invariant
                i <= n,
                nodes@ == Seq::new(i as nat, |k: int| SelectedNode::Random(None)),
            decreases n - i,
        {
            nodes.push(SelectedNode::Random(None));
            i = i + 1;
            assert(nodes@ =~= Seq::new(i as nat, |k: int| SelectedNode::Random(None)));
        }
        return Ok(nodes);
    }
    if groups.len() == 0 {
        return Err(ErrorCode::InvalidArgument("Warehouse nodes list is empty".to_owned()));
    }
    let mut nodes: Vec<SelectedNode> = Vec::new();
    let mut g: usize = 0;
    while g < groups.len()
        invariant
            g <= groups.len(),
            nodes@ == nodes_of_groups(groups@.take(g as int)),
        decreases groups.len() - g,
    {
        assert(groups@.take(g + 1).drop_last() =~= groups@.take(g as int));
        let ghost before = nodes@;
        let count = groups[g].1;
        let mut k: u64 = 0;
        while k < count
            invariant
                k <= count,
                count == groups@[g as int].1,
                g < groups@.len(),
                nodes@ == before + Seq::new(k as nat, |i: int| SelectedNode::Random(groups@[g as int].0)),
            decreases count - k,
        {
            let group = match &groups[g].0 {
                Some(s) => Some(s.clone()),
                None => None,
            };
            nodes.push(SelectedNode::Random(group));
            k = k + 1;
            assert(nodes@ =~= before + Seq::new(
                k as nat,
                |i: int| SelectedNode::Random(groups@[g as int].0),
            ));
        }
        g = g + 1;
        assert(groups@.take(g as int).last() == groups@[g - 1]);
    }
    assert(groups@.take(groups.len() as int) =~= groups@);
    Ok(nodes)
}

// Procedures
// ---------------------------------------------------------------------------

/// How a `CREATE` statement treats an object that already exists.
#[derive(Debug, PartialEq, Eq, Structural, Clone, Copy)]
pub enum CreateOption {
    Create,
    CreateIfNotExists,
    CreateOrReplace,
}

impl CreateOption {
    /// Whether an existing object is replaced.
    pub fn is_overriding(&self) -> (r: bool)
        ensures
            r == (*self == CreateOption::CreateOrReplace),
    {
        match self {
            CreateOption::CreateOrReplace => true,
            _ => false,
        }
    }
}

/// The message of a procedure that already exists.
pub open spec fn procedure_exists_message(name: Seq<char>) -> Seq<char> {
    "Procedure "@ + name + " already exists"@
}

/// The outcome of `CREATE PROCEDURE`, given whether the meta service found
/// the procedure already there: an error then, unless `IF NOT EXISTS` was
/// given.
pub fn create_procedure_outcome(already_exists: bool, create_option: CreateOption, name: &str) -> (r:
    Result<(), ErrorCode>)
    ensures
        already_exists && create_option != CreateOption::CreateIfNotExists ==> (r matches Err(
            ErrorCode::ProcedureAlreadyExists(m),
        ) && m@ == procedure_exists_message(name@)),
        !(already_exists && create_option != CreateOption::CreateIfNotExists) ==> r is Ok,
{
    if already_exists && create_option != CreateOption::CreateIfNotExists {
        let mut m = chars_of("Procedure ");
        extend_str(&mut m, name);
        extend_str(&mut m, " already exists");
        Err(ErrorCode::ProcedureAlreadyExists(string_of(&m)))
    } else {
        Ok(())
    }
}

// Tasks
// ---------------------------------------------------------------------------

/// The message of a task statement run without cloud control.
pub open spec fn cloud_control_message(describe: bool) -> Seq<char> {
    if describe {
        "cannot describe task without cloud control enabled, please set cloud_control_grpc_server_address in config"@
    } else {
        "cannot execute task without cloud control enabled, please set cloud_control_grpc_server_address in config"@
    }
}

/// Task statements need the address of the cloud control service.
pub fn require_cloud_control(address: Option<&str>, describe: bool) -> (r: Result<(), ErrorCode>)
    ensures
        address is None ==> (r matches Err(ErrorCode::CloudControlNotEnabled(m)) && m@
            == cloud_control_message(describe)),
        address is Some ==> r is Ok,
{
    match address {
        Some(_) => Ok(()),
        None => {
            let m = if describe {
                "cannot describe task without cloud control enabled, please set cloud_control_grpc_server_address in config"
            } else {
                "cannot execute task without cloud control enabled, please set cloud_control_grpc_server_address in config"
            };
            Err(ErrorCode::CloudControlNotEnabled(m.to_owned()))
        },
    }
}

/// A request to describe a task.
#[derive(Debug, PartialEq, Eq)]
pub struct DescribeTaskRequest {
    pub task_name: String,
    pub tenant_id: String,
    pub if_exist: bool,
}

/// A request to run a task now.
#[derive(Debug, PartialEq, Eq)]
pub struct ExecuteTaskRequest {
    pub task_name: String,
    pub tenant_id: String,
}

/// The request describing task `task_name` of `tenant`; a missing task is
/// not accepted.
pub fn describe_task_request(task_name: &str, tenant: &Tenant) -> (r: DescribeTaskRequest)
    ensures
        r.task_name@ == task_name@,
        r.tenant_id@ == tenant.name_view(),
        !r.if_exist,
{
    DescribeTaskRequest {
        task_name: task_name.to_owned(),
        tenant_id: tenant.tenant_name().to_owned(),
        if_exist: false,
    }
}

/// The request running task `task_name` of `tenant`.
pub fn execute_task_request(task_name: &str, tenant: &Tenant) -> (r: ExecuteTaskRequest)
    ensures
        r.task_name@ == task_name@,
        r.tenant_id@ == tenant.name_view(),
{
    ExecuteTaskRequest { task_name: task_name.to_owned(), tenant_id: tenant.tenant_name().to_owned() }
}

// Describing tables
// ---------------------------------------------------------------------------

/// Where the columns of a described table come from.
#[derive(Debug, PartialEq, Eq)]
pub enum DescribedSchema {
    /// The schema of the query that defines a view.
    ViewQuery(String),
    /// The table's own schema.
    TableSchema,
}

/// Where `DESCRIBE TABLE` takes the columns from: a view's defining query
/// (which a view must have), else the table's schema.
pub fn describe_schema_source(engine: &str, query: Option<&str>) -> (r: Result<
    DescribedSchema,
    ErrorCode,
>)
    ensures
        engine@ == "VIEW"@ ==> match query {
            Some(q) => r matches Ok(DescribedSchema::ViewQuery(s)) && s@ == q@,
            None => r matches Err(ErrorCode::Internal(m)) && m@
                == "Logical error, View Table must have a SelectQuery inside."@,
        },
        engine@ != "VIEW"@ ==> r == Ok::<DescribedSchema, ErrorCode>(DescribedSchema::TableSchema),
{
    if str_eq(engine, "VIEW") {
        match query {
            Some(q) => Ok(DescribedSchema::ViewQuery(q.to_owned())),
            None => Err(
                ErrorCode::Internal(
                    "Logical error, View Table must have a SelectQuery inside.".to_owned(),
                ),
            ),
        }
    } else {
        Ok(DescribedSchema::TableSchema)
    }
}

// Outcomes of remote actions
// ---------------------------------------------------------------------------

/// What `set_priority` answers, given how the interpreter ended: `true`
/// when it succeeded, `false` when the session is unknown, else the error.
pub fn set_priority_outcome(executed: Result<(), ErrorCode>) -> (r: Result<bool, ErrorCode>)
    ensures
        match executed {
            Ok(_) => r == Ok::<bool, ErrorCode>(true),
            Err(e) => if e is UnknownSession {
                r == Ok::<bool, ErrorCode>(false)
            } else {
                r == Err::<bool, ErrorCode>(e)
            },
        },
{
    match executed {
        Ok(_) => Ok(true),
        Err(ErrorCode::UnknownSession(m)) => Ok(false),
        Err(e) => Err(e),
    }
}

// Committing table mutations
// ---------------------------------------------------------------------------

/// The kinds of table mutations.
#[derive(Debug, PartialEq, Eq, Structural, Clone, Copy)]
pub enum MutationKind {
    Delete,
    Update,
    Replace,
    Recluster,
    Insert,
    Compact,
    MergeInto,
}

/// Whether a mutation starts from no segment rather than from the segments
/// of the current snapshot.
pub open spec fn starts_from_empty(k: MutationKind) -> bool {
    k == MutationKind::Compact || k == MutationKind::Insert || k == MutationKind::Recluster
}

/// The segments a committed mutation is applied to: none for compaction,
/// insertion and reclustering, else those of the snapshot.
pub fn base_segments<T>(kind: MutationKind, snapshot_segments: Vec<T>) -> (r: Vec<T>)
    ensures
        starts_from_empty(kind) ==> r@.len() == 0,
        !starts_from_empty(kind) ==> r@ == snapshot_segments@,
{
    match kind {
        MutationKind::Compact | MutationKind::Insert | MutationKind::Recluster => Vec::new(),
        _ => snapshot_segments,
    }
}

/// The stages a pipeline appending to a table is built with.
#[derive(Debug, PartialEq, Eq, Structural, Clone, Copy)]
pub enum AppendStage {
    /// The source's columns are filled in and put in the table's order.
    FillAndReorderColumns,
    /// The rows are appended to the table.
    AppendData,
    /// The insertion is committed.
    CommitInsertion,
}

/// The stages of appending to a table, in order: filling and reordering
/// the columns, appending the data, and, when asked for, committing.
pub fn append_to_table_stages(with_commit: bool) -> (v: Vec<AppendStage>)
    ensures
        v@ == (if with_commit {
            seq![AppendStage::FillAndReorderColumns, AppendStage::AppendData, AppendStage::CommitInsertion]
        } else {
            seq![AppendStage::FillAndReorderColumns, AppendStage::AppendData]
        }),
{
    let mut v: Vec<AppendStage> = Vec::new();
    v.push(AppendStage::FillAndReorderColumns);
    v.push(AppendStage::AppendData);
    if with_commit {
        v.push(AppendStage::CommitInsertion);
    }
    assert(v@ =~= (if with_commit {
        seq![AppendStage::FillAndReorderColumns, AppendStage::AppendData, AppendStage::CommitInsertion]
    } else {
        seq![AppendStage::FillAndReorderColumns, AppendStage::AppendData]
    }));
    v
}

// Sources
// ---------------------------------------------------------------------------

/// The events a processor reports.
#[derive(Debug, PartialEq, Eq, Structural, Clone, Copy)]
pub enum Event {
    NeedData,
    NeedConsume,
    Sync,
    Async,
    Finished,
}

/// A source that produces nothing: it finishes its output at once.
#[derive(Debug)]
pub struct EmptySource {
    pub output_finished: bool,
}

impl EmptySource {
    pub fn create() -> (s: EmptySource)
        ensures
            !s.output_finished,
    {
        EmptySource { output_finished: false }
    }

    pub fn name(&self) -> (s: &'static str)
        ensures
            s@ == "EmptySource"@,
    {
        "EmptySource"
    }

    /// Finishes the output and reports that the source is done.
    pub fn event(&mut self) -> (e: Event)
        ensures
            e == Event::Finished,
            final(self).output_finished,
    {
        self.output_finished = true;
        Event::Finished
    }
}

/// Only compaction, insertion and reclustering start from no segment;
/// deletes, updates, replaces and merges are applied to the snapshot's
/// segments.
pub proof fn lemma_rewrites_keep_snapshot_segments(k: MutationKind)
    ensures
        (k == MutationKind::Delete || k == MutationKind::Update || k == MutationKind::Replace || k
            == MutationKind::MergeInto) ==> !starts_from_empty(k),
        (k == MutationKind::Compact || k == MutationKind::Insert || k == MutationKind::Recluster)
            ==> starts_from_empty(k),
{
}

} // verus!
