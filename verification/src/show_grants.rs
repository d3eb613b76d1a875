//! The `show_grants` table function: which privileges a user or a role
//! holds, and which roles hold privileges on a table, database, UDF or stage.
//!
//! The meta-service lookups (users, roles, grants, ownerships, catalog names)
//! are made by the caller; this module decides what is shown from what they
//! returned.
use vstd::prelude::*;
use crate::error::ErrorCode;
use crate::schema::{
    scalars_debug, scalars_debug_string, table_function_desc, table_function_desc_string,
    validate_function_arg, variadic_args_message, DataType, Scalar, TableField, TableInfo,
};
use crate::text::{
    chars_of, concat, contains_str, debug_str, debug_text, extend_chars, extend_str, is_sorted_permutation,
    join, join_strings, lowercase, sort_strings, sorted_strings, str_eq, string_of, to_lowercase, views,
};

verus! {

// ---------------------------------------------------------------------------
// Grant objects and entries
// ---------------------------------------------------------------------------

/// What a privilege is granted on.
#[derive(Debug, PartialEq, Eq)]
pub enum GrantObject {
    /// Everything: `*.*`.
    Global,
    /// A database, by catalog and database name.
    Database(String, String),
    /// A database, by catalog name and database id.
    DatabaseById(String, u64),
    /// A table, by catalog, database and table name.
    Table(String, String, String),
    /// A table, by catalog name, database id and table id.
    TableById(String, u64, u64),
    UDF(String),
    Stage(String),
    Warehouse(String),
}

/// What a role owns.
#[derive(Debug, PartialEq, Eq)]
pub enum OwnershipObject {
    Database { catalog_name: String, db_id: u64 },
    Table { catalog_name: String, db_id: u64, table_id: u64 },
    Stage { name: String },
    UDF { name: String },
}

/// A grant entry as `show_grants` reads it: the object, the privileges as
/// they are displayed, whether they are all the privileges available on the
/// object, and the entry as displayed (`GRANT ... ON ...`).
#[derive(Debug)]
pub struct GrantEntry {
    pub object: GrantObject,
    pub privileges: String,
    pub has_all_available_privileges: bool,
    pub display: String,
}

/// The ownership of an object by a role.
#[derive(Debug)]
pub struct Ownership {
    pub object: OwnershipObject,
    pub role: String,
}

/// A role and the grant entries it holds.
#[derive(Debug)]
pub struct RoleGrants {
    pub name: String,
    pub entries: Vec<GrantEntry>,
}

/// A row of `show_grants`: privileges, object name, object id, grant text.
pub type Row = (Seq<char>, Seq<char>, Option<u64>, Seq<char>);

/// The privileges of an entry as shown: `ALL` when the entry holds every
/// privilege available on its object.
pub open spec fn priv_text(e: GrantEntry) -> Seq<char> {
    if e.has_all_available_privileges {
        "ALL"@
    } else {
        e.privileges@
    }
}

fn get_priv_str(e: &GrantEntry) -> (s: String)
    ensures
        s@ == priv_text(*e),
{
    if e.has_all_available_privileges {
        "ALL".to_owned()
    } else {
        e.privileges.clone()
    }
}

// ---------------------------------------------------------------------------
// Rows
// ---------------------------------------------------------------------------

/// Rows under construction: four columns of equal length.
pub struct GrantRows {
    pub privileges: Vec<String>,
    pub object_name: Vec<String>,
    pub object_id: Vec<Option<u64>>,
    pub grants: Vec<String>,
}

impl GrantRows {
    pub open spec fn wf(&self) -> bool {
        &&& self.object_name@.len() == self.privileges@.len()
        &&& self.object_id@.len() == self.privileges@.len()
        &&& self.grants@.len() == self.privileges@.len()
    }

    pub open spec fn view_rows(&self) -> Seq<Row> {
        Seq::new(
            self.privileges@.len(),
            |i: int|
                (
                    self.privileges@[i]@,
                    self.object_name@[i]@,
                    self.object_id@[i],
                    self.grants@[i]@,
                ),
        )
    }

    pub fn new() -> (r: GrantRows)
        ensures
            r.wf(),
            r.view_rows() == Seq::<Row>::empty(),
    {
        let r = GrantRows {
            privileges: Vec::new(),
            object_name: Vec::new(),
            object_id: Vec::new(),
            grants: Vec::new(),
        };
        assert(r.view_rows() =~= Seq::<Row>::empty());
        r
    }

    pub fn len(&self) -> (n: usize)
        requires
            self.wf(),
        ensures
            n == self.view_rows().len(),
    {
        self.privileges.len()
    }

    pub fn push(&mut self, p: String, n: String, id: Option<u64>, g: String)
        requires
            old(self).wf(),
        ensures
            final(self).wf(),
            final(self).view_rows() == old(self).view_rows().push((p@, n@, id, g@)),
    {
        self.privileges.push(p);
        self.object_name.push(n);
        self.object_id.push(id);
        self.grants.push(g);
        assert(self.view_rows() =~= old(self).view_rows().push((p@, n@, id, g@)));
    }
}

fn text2(a: &str, b: &str) -> (s: String)
    ensures
        s@ == a@ + b@,
{
    concat(a, b)
}

fn text3(a: &str, b: &str, c: &str) -> (s: String)
    ensures
        s@ == a@ + b@ + c@,
{
    let mut v = chars_of(a);
    extend_str(&mut v, b);
    extend_str(&mut v, c);
    string_of(&v)
}

fn text5(a: &str, b: &str, c: &str, d: &str, e: &str) -> (s: String)
    ensures
        s@ == a@ + b@ + c@ + d@ + e@,
{
    let mut v = chars_of(a);
    extend_str(&mut v, b);
    extend_str(&mut v, c);
    extend_str(&mut v, d);
    extend_str(&mut v, e);
    string_of(&v)
}

// ---------------------------------------------------------------------------
// Collecting the grants of a user or a role
// ---------------------------------------------------------------------------

/// A database grant whose name is looked up later: catalog, database id,
/// privileges.
pub type DbGrant = (Seq<char>, u64, Seq<char>);

/// A table grant whose names are looked up later: catalog, database id,
/// table id, privileges.
pub type TableGrant = (Seq<char>, u64, u64, Seq<char>);

/// What collecting grant entries and ownerships gives: rows shown as they
/// are, and grants by id whose names are looked up in the catalogs.
pub struct Collected {
    pub rows: Seq<Row>,
    pub dbs: Seq<DbGrant>,
    pub tables: Seq<TableGrant>,
}

/// The row of an entry on an object that is shown by name.
pub open spec fn named_row(name: Seq<char>, e: GrantEntry, identity: Seq<char>) -> Row {
    (priv_text(e), name, None, e.display@ + " TO "@ + identity)
}

/// How one grant entry is collected. Entries whose privilege reads
/// `ownership` (in any case) are left out: ownerships are listed from the
/// ownership records.
pub open spec fn entry_step(c: Collected, e: GrantEntry, identity: Seq<char>) -> Collected {
    let p = priv_text(e);
    if lowercase(p) == "ownership"@ {
        c
    } else {
        match e.object {
            GrantObject::TableById(cat, db, t) => Collected {
                tables: c.tables.push((cat@, db, t, p)),
                ..c
            },
            GrantObject::DatabaseById(cat, db) => Collected { dbs: c.dbs.push((cat@, db, p)), ..c },
            GrantObject::Database(cat, db) => Collected {
                rows: c.rows.push(named_row(cat@ + "."@ + db@ + ".*"@, e, identity)),
                ..c
            },
            GrantObject::Table(cat, db, t) => Collected {
                rows: c.rows.push(named_row(cat@ + "."@ + db@ + "."@ + t@, e, identity)),
                ..c
            },
            GrantObject::Stage(s) => Collected { rows: c.rows.push(named_row(s@, e, identity)), ..c },
            GrantObject::UDF(s) => Collected { rows: c.rows.push(named_row(s@, e, identity)), ..c },
            GrantObject::Warehouse(s) => Collected {
                rows: c.rows.push(named_row(s@, e, identity)),
                ..c
            },
            GrantObject::Global => Collected {
                rows: c.rows.push(named_row("*.*"@, e, identity)),
                ..c
            },
        }
    }
}

/// How one ownership is collected: only ownerships of the listed roles
/// count.
pub open spec fn ownership_step(
    c: Collected,
    o: Ownership,
    roles: Seq<Seq<char>>,
    identity: Seq<char>,
) -> Collected {
    if !roles.contains(o.role@) {
        c
    } else {
        match o.object {
            OwnershipObject::Database { catalog_name, db_id } => Collected {
                dbs: c.dbs.push((catalog_name@, db_id, "OWNERSHIP"@)),
                ..c
            },
            OwnershipObject::Table { catalog_name, db_id, table_id } => Collected {
                tables: c.tables.push((catalog_name@, db_id, table_id, "OWNERSHIP"@)),
                ..c
            },
            OwnershipObject::Stage { name } => Collected {
                rows: c.rows.push(
                    (
                        "OWNERSHIP"@,
                        name@,
                        None,
                        "GRANT OWNERSHIP ON STAGE "@ + name@ + " TO "@ + identity,
                    ),
                ),
                ..c
            },
            OwnershipObject::UDF { name } => Collected {
                rows: c.rows.push(
                    ("OWNERSHIP"@, name@, None, "GRANT OWNERSHIP ON UDF "@ + name@ + " TO "@ + identity),
                ),
                ..c
            },
        }
    }
}

pub open spec fn empty_collected() -> Collected {
    Collected { rows: Seq::empty(), dbs: Seq::empty(), tables: Seq::empty() }
}

/// Collecting the entries, in order.
pub open spec fn collect_entries(es: Seq<GrantEntry>, identity: Seq<char>) -> Collected
    decreases es.len(),
{
    if es.len() == 0 {
        empty_collected()
    } else {
        entry_step(collect_entries(es.drop_last(), identity), es.last(), identity)
    }
}

/// Collecting the ownerships, in order, after `start`.
pub open spec fn collect_ownerships(
    start: Collected,
    os: Seq<Ownership>,
    roles: Seq<Seq<char>>,
    identity: Seq<char>,
) -> Collected
    decreases os.len(),
{
    if os.len() == 0 {
        start
    } else {
        ownership_step(
            collect_ownerships(start, os.drop_last(), roles, identity),
            os.last(),
            roles,
            identity,
        )
    }
}

/// All grants of a user or role: its entries, then, unless its roles
/// include `account_admin` (which holds every role), the ownerships of its
/// roles.
pub open spec fn collect_account(
    es: Seq<GrantEntry>,
    os: Seq<Ownership>,
    roles: Seq<Seq<char>>,
    identity: Seq<char>,
) -> Collected {
    let c = collect_entries(es, identity);
    if roles.contains("account_admin"@) {
        c
    } else {
        collect_ownerships(c, os, roles, identity)
    }
}

/// A grantee holding `account_admin` is shown its grant entries only: the
/// ownership records add nothing.
pub proof fn lemma_admin_grants_are_its_entries(
    es: Seq<GrantEntry>,
    os: Seq<Ownership>,
    roles: Seq<Seq<char>>,
    identity: Seq<char>,
)
    requires
        roles.contains("account_admin"@),
    ensures
        collect_account(es, os, roles, identity) == collect_entries(es, identity),
{
}

/// No row collected from grant entries shows the `ownership` privilege:
/// ownerships are shown from the ownership records only.
pub proof fn lemma_entry_rows_are_not_ownerships(es: Seq<GrantEntry>, identity: Seq<char>)
    ensures
        forall|i: int|
            0 <= i < collect_entries(es, identity).rows.len() ==> lowercase(
                (#[trigger] collect_entries(es, identity).rows[i]).0,
            ) != "ownership"@,
    decreases es.len(),
{
    if es.len() > 0 {
        lemma_entry_rows_are_not_ownerships(es.drop_last(), identity);
        let prev = collect_entries(es.drop_last(), identity);
        let now = collect_entries(es, identity);
        assert forall|i: int| 0 <= i < now.rows.len() implies lowercase(
            (#[trigger] now.rows[i]).0,
        ) != "ownership"@ by {
            if i < prev.rows.len() {
                assert(now.rows[i] == prev.rows[i]);
            }
        }
    }
}

/// Grants collected so far, in executable form.
pub struct AccountGrants {
    pub rows: GrantRows,
    /// Database grants by id: catalog, database id, privileges.
    pub dbs: Vec<(String, u64, String)>,
    /// Table grants by id: catalog, database id, table id, privileges.
    pub tables: Vec<(String, u64, u64, String)>,
}

pub open spec fn dbs_view(v: Seq<(String, u64, String)>) -> Seq<DbGrant> {
    v.map_values(|x: (String, u64, String)| (x.0@, x.1, x.2@))
}

pub open spec fn tables_view(v: Seq<(String, u64, u64, String)>) -> Seq<TableGrant> {
    v.map_values(|x: (String, u64, u64, String)| (x.0@, x.1, x.2, x.3@))
}

impl AccountGrants {
    pub open spec fn wf(&self) -> bool {
        self.rows.wf()
    }

    pub open spec fn view_collected(&self) -> Collected {
        Collected {
            rows: self.rows.view_rows(),
            dbs: dbs_view(self.dbs@),
            tables: tables_view(self.tables@),
        }
    }

    fn push_db(&mut self, cat: String, db: u64, p: String)
        ensures
            final(self).rows == old(self).rows,
            final(self).tables == old(self).tables,
            dbs_view(final(self).dbs@) == dbs_view(old(self).dbs@).push((cat@, db, p@)),
    {
        self.dbs.push((cat, db, p));
        assert(dbs_view(self.dbs@) =~= dbs_view(old(self).dbs@).push((cat@, db, p@)));
    }

    fn push_table(&mut self, cat: String, db: u64, t: u64, p: String)
        ensures
            final(self).rows == old(self).rows,
            final(self).dbs == old(self).dbs,
            tables_view(final(self).tables@) == tables_view(old(self).tables@).push(
                (cat@, db, t, p@),
            ),
    {
        self.tables.push((cat, db, t, p));
        assert(tables_view(self.tables@) =~= tables_view(old(self).tables@).push(
            (cat@, db, t, p@),
        ));
    }
}

/// Collects one grant entry.
fn add_entry(acc: &mut AccountGrants, e: &GrantEntry, identity: &str)
    requires
        old(acc).wf(),
    ensures
        final(acc).wf(),
        final(acc).view_collected() == entry_step(old(acc).view_collected(), *e, identity@),
{
    let p = get_priv_str(e);
    let lower = to_lowercase(p.as_str());
    if str_eq(lower.as_str(), "ownership") {
        return ;
    }
    let ghost c = old(acc).view_collected();
    match &e.object {
        GrantObject::TableById(cat, db, t) => {
            acc.push_table(cat.clone(), *db, *t, p);
        },
        GrantObject::DatabaseById(cat, db) => {
            acc.push_db(cat.clone(), *db, p);
        },
        GrantObject::Database(cat, db) => {
            let name = text3(cat.as_str(), ".", db.as_str());
            let name = text2(name.as_str(), ".*");
            let g = text3(e.display.as_str(), " TO ", identity);
            acc.rows.push(p, name, None, g);
        },
        GrantObject::Table(cat, db, t) => {
            let name = text5(cat.as_str(), ".", db.as_str(), ".", t.as_str());
            let g = text3(e.display.as_str(), " TO ", identity);
            acc.rows.push(p, name, None, g);
        },
        GrantObject::Stage(s) => {
            let g = text3(e.display.as_str(), " TO ", identity);
            acc.rows.push(p, s.clone(), None, g);
        },
        GrantObject::UDF(s) => {
            let g = text3(e.display.as_str(), " TO ", identity);
            acc.rows.push(p, s.clone(), None, g);
        },
        GrantObject::Warehouse(s) => {
            let g = text3(e.display.as_str(), " TO ", identity);
            acc.rows.push(p, s.clone(), None, g);
        },
        GrantObject::Global => {
            let g = text3(e.display.as_str(), " TO ", identity);
            acc.rows.push(p, "*.*".to_owned(), None, g);
        },
    }
}

/// Collects one ownership.
fn add_ownership(acc: &mut AccountGrants, o: &Ownership, roles: &Vec<String>, identity: &str)
    requires
        old(acc).wf(),
    ensures
        final(acc).wf(),
        final(acc).view_collected() == ownership_step(
            old(acc).view_collected(),
            *o,
            views(roles@),
            identity@,
        ),
{
    if !contains_str(roles, o.role.as_str()) {
        return ;
    }
    match &o.object {
        OwnershipObject::Database { catalog_name, db_id } => {
            acc.push_db(catalog_name.clone(), *db_id, "OWNERSHIP".to_owned());
        },
        OwnershipObject::Table { catalog_name, db_id, table_id } => {
            acc.push_table(catalog_name.clone(), *db_id, *table_id, "OWNERSHIP".to_owned());
        },
        OwnershipObject::Stage { name } => {
            let g = text3("GRANT OWNERSHIP ON STAGE ", name.as_str(), " TO ");
            let g = text2(g.as_str(), identity);
            acc.rows.push("OWNERSHIP".to_owned(), name.clone(), None, g);
        },
        OwnershipObject::UDF { name } => {
            let g = text3("GRANT OWNERSHIP ON UDF ", name.as_str(), " TO ");
            let g = text2(g.as_str(), identity);
            acc.rows.push("OWNERSHIP".to_owned(), name.clone(), None, g);
        },
    }
}

/// Collects the grants of a user or role from its grant entries and, unless
/// its roles include `account_admin`, from the ownerships of its roles.
pub fn collect_account_grants(
    entries: &Vec<GrantEntry>,
    ownerships: &Vec<Ownership>,
    roles: &Vec<String>,
    identity: &str,
) -> (acc: AccountGrants)
    ensures
        acc.wf(),
        acc.view_collected() == collect_account(entries@, ownerships@, views(roles@), identity@),
{
    let mut acc = AccountGrants { rows: GrantRows::new(), dbs: Vec::new(), tables: Vec::new() };
    assert(dbs_view(acc.dbs@) =~= Seq::<DbGrant>::empty());
    assert(tables_view(acc.tables@) =~= Seq::<TableGrant>::empty());
    let mut i: usize = 0;
    while i < entries.len()
        invariant
            i <= entries.len(),
            acc.wf(),
            acc.view_collected() == collect_entries(entries@.take(i as int), identity@),
        decreases entries.len() - i,
    {
        assert(entries@.take(i + 1).drop_last() =~= entries@.take(i as int));
        add_entry(&mut acc, &entries[i], identity);
        i = i + 1;
    }
    assert(entries@.take(entries.len() as int) =~= entries@);
    if contains_str(roles, "account_admin") {
        return acc;
    }
    let ghost start = acc.view_collected();
    let mut j: usize = 0;
    while j < ownerships.len()
        invariant
            j <= ownerships.len(),
            acc.wf(),
            acc.view_collected() == collect_ownerships(
                start,
                ownerships@.take(j as int),
                views(roles@),
                identity@,
            ),
        decreases ownerships.len() - j,
    {
        assert(ownerships@.take(j + 1).drop_last() =~= ownerships@.take(j as int));
        add_ownership(&mut acc, &ownerships[j], roles, identity);
        j = j + 1;
    }
    assert(ownerships@.take(ownerships.len() as int) =~= ownerships@);
    acc
}

// ---------------------------------------------------------------------------
// Looking up names of grants held by id
// ---------------------------------------------------------------------------

pub open spec fn opt_views(v: Seq<Option<String>>) -> Seq<Option<Seq<char>>> {
    v.map_values(|o: Option<String>| match o {
        Some(s) => Some(s@),
        None => None,
    })
}

/// The name found for `id` among the pairs of `ids` and `names` (paired up
/// to the shorter of the two) whose name is present; the last such pair
/// counts.
pub open spec fn lookup_name(ids: Seq<u64>, names: Seq<Option<Seq<char>>>, id: u64) -> Option<
    Seq<char>,
>
    decreases ids.len(),
{
    let n = if ids.len() < names.len() {
        ids.len()
    } else {
        names.len()
    };
    if n == 0 {
        None
    } else if ids[n - 1] == id && names[n - 1] is Some {
        names[n - 1]
    } else {
        lookup_name(ids.take(n - 1), names.take(n - 1), id)
    }
}

/// Catalogs in the order they first appear.
pub open spec fn distinct_in_order(s: Seq<Seq<char>>) -> Seq<Seq<char>>
    decreases s.len(),
{
    if s.len() == 0 {
        Seq::empty()
    } else {
        let r = distinct_in_order(s.drop_last());
        if r.contains(s.last()) {
            r
        } else {
            r.push(s.last())
        }
    }
}

pub open spec fn strictly_increasing(s: Seq<u64>) -> bool {
    forall|i: int, j: int| 0 <= i < j < s.len() ==> s[i] < s[j]
}

/// The row of a database grant whose database name is known.
pub open spec fn db_row(cat: Seq<char>, db: Seq<char>, id: u64, p: Seq<char>, identity: Seq<char>) -> Row {
    (p, db, Some(id), "GRANT "@ + p + " ON '"@ + cat + "'.'"@ + db + "'.* TO "@ + identity)
}

/// The rows of the database grants of catalog `cat`, in order, for the
/// databases whose names were found.
pub open spec fn db_rows(
    dbs: Seq<DbGrant>,
    cat: Seq<char>,
    ids: Seq<u64>,
    names: Seq<Option<Seq<char>>>,
    identity: Seq<char>,
) -> Seq<Row>
    decreases dbs.len(),
{
    if dbs.len() == 0 {
        Seq::empty()
    } else {
        let r = db_rows(dbs.drop_last(), cat, ids, names, identity);
        let g = dbs.last();
        if g.0 == cat && lookup_name(ids, names, g.1) is Some {
            r.push(db_row(cat, lookup_name(ids, names, g.1).unwrap(), g.1, g.2, identity))
        } else {
            r
        }
    }
}

/// The row of a table grant whose database and table names are known.
pub open spec fn table_row(
    cat: Seq<char>,
    db: Seq<char>,
    table: Seq<char>,
    id: u64,
    p: Seq<char>,
    identity: Seq<char>,
) -> Row {
    (
        p,
        cat + "."@ + db + "."@ + table,
        Some(id),
        "GRANT "@ + p + " ON '"@ + cat + "'.'"@ + db + "'.'"@ + table + "' TO "@ + identity,
    )
}

/// The rows of the table grants of catalog `cat`, in order, for the tables
/// whose database name and table name were both found.
pub open spec fn table_rows(
    tables: Seq<TableGrant>,
    cat: Seq<char>,
    db_ids: Seq<u64>,
    db_names: Seq<Option<Seq<char>>>,
    table_ids: Seq<u64>,
    table_names: Seq<Option<Seq<char>>>,
    identity: Seq<char>,
) -> Seq<Row>
    decreases tables.len(),
{
    if tables.len() == 0 {
        Seq::empty()
    } else {
        let r = table_rows(
            tables.drop_last(),
            cat,
            db_ids,
            db_names,
            table_ids,
            table_names,
            identity,
        );
        let g = tables.last();
        let dn = lookup_name(db_ids, db_names, g.1);
        let tn = lookup_name(table_ids, table_names, g.2);
        if g.0 == cat && dn is Some && tn is Some {
            r.push(table_row(cat, dn.unwrap(), tn.unwrap(), g.2, g.3, identity))
        } else {
            r
        }
    }
}

fn lookup_name_exec(ids: &Vec<u64>, names: &Vec<Option<String>>, id: u64) -> (r: Option<String>)
    ensures
        match lookup_name(ids@, opt_views(names@), id) {
            Some(n) => r matches Some(s) && s@ == n,
            None => r is None,
        },
{
    let mut n: usize = if ids.len() < names.len() {
        ids.len()
    } else {
        names.len()
    };
    let ghost full_ids = ids@;
    let ghost full_names = opt_views(names@);
    assert(full_ids.take(n as int) =~= full_ids.take(n as int));
    assert(lookup_name(full_ids, full_names, id) == lookup_name(
        full_ids.take(n as int),
        full_names.take(n as int),
        id,
    )) by {
        if ids.len() < names.len() {
            assert(full_ids.take(n as int) =~= full_ids);
            if n > 0 {
                assert(full_ids.take(n as int).take(n - 1) =~= full_ids.take(n - 1));
                assert(full_names.take(n as int).take(n - 1) =~= full_names.take(n - 1));
            }
        } else {
            assert(full_names.take(n as int) =~= full_names);
            if n > 0 {
                assert(full_ids.take(n as int).take(n - 1) =~= full_ids.take(n - 1));
                assert(full_names.take(n as int).take(n - 1) =~= full_names.take(n - 1));
            }
        }
    }
    while n > 0
        invariant
            n <= ids.len(),
            n <= names.len(),
            full_ids == ids@,
            full_names == opt_views(names@),
            lookup_name(full_ids, full_names, id) == lookup_name(
                full_ids.take(n as int),
                full_names.take(n as int),
                id,
            ),
        decreases n,
    {
        let k = n - 1;
        if ids[k] == id {
            match &names[k] {
                Some(s) => {
                    assert(full_names.take(n as int)[k as int] == Some(s@));
                    return Some(s.clone());
                },
                None => {},
            }
        }
        assert(full_ids.take(n as int).take(k as int) =~= full_ids.take(k as int));
        assert(full_names.take(n as int).take(k as int) =~= full_names.take(k as int));
        n = k;
    }
    None
}

/// The catalogs of the database grants, in the order they first appear.
pub fn db_catalogs(acc: &AccountGrants) -> (r: Vec<String>)
    ensures
        views(r@) == distinct_in_order(dbs_view(acc.dbs@).map_values(|g: DbGrant| g.0)),
{
    let ghost cats = dbs_view(acc.dbs@).map_values(|g: DbGrant| g.0);
    let mut r: Vec<String> = Vec::new();
    let mut i: usize = 0;
    while i < acc.dbs.len()
        invariant
            i <= acc.dbs.len(),
            cats == dbs_view(acc.dbs@).map_values(|g: DbGrant| g.0),
            views(r@) == distinct_in_order(cats.take(i as int)),
        decreases acc.dbs.len() - i,
    {
        assert(cats.take(i + 1).drop_last() =~= cats.take(i as int));
        let c = &acc.dbs[i].0;
        if !contains_str(&r, c.as_str()) {
            r.push(c.clone());
        }
        i = i + 1;
        assert(views(r@) =~= distinct_in_order(cats.take(i as int)));
    }
    assert(cats.take(acc.dbs.len() as int) =~= cats);
    r
}

/// The catalogs of the table grants, in the order they first appear.
pub fn table_catalogs(acc: &AccountGrants) -> (r: Vec<String>)
    ensures
        views(r@) == distinct_in_order(tables_view(acc.tables@).map_values(|g: TableGrant| g.0)),
{
    let ghost cats = tables_view(acc.tables@).map_values(|g: TableGrant| g.0);
    let mut r: Vec<String> = Vec::new();
    let mut i: usize = 0;
    while i < acc.tables.len()
        invariant
            i <= acc.tables.len(),
            cats == tables_view(acc.tables@).map_values(|g: TableGrant| g.0),
            views(r@) == distinct_in_order(cats.take(i as int)),
        decreases acc.tables.len() - i,
    {
        assert(cats.take(i + 1).drop_last() =~= cats.take(i as int));
        let c = &acc.tables[i].0;
        if !contains_str(&r, c.as_str()) {
            r.push(c.clone());
        }
        i = i + 1;
        assert(views(r@) =~= distinct_in_order(cats.take(i as int)));
    }
    assert(cats.take(acc.tables.len() as int) =~= cats);
    r
}

/// Adds `id` to a strictly increasing list unless it is there already.
fn insert_sorted(v: &mut Vec<u64>, id: u64)
    requires
        strictly_increasing(old(v)@),
    ensures
        strictly_increasing(final(v)@),
        forall|x: u64| final(v)@.contains(x) <==> (old(v)@.contains(x) || x == id),
{
    let mut i: usize = 0;
    while i < v.len() && v[i] < id
        invariant
            i <= v.len(),
            forall|k: int| 0 <= k < i ==> v@[k] < id,
        decreases v.len() - i,
    {
        i = i + 1;
    }
    if i < v.len() && v[i] == id {
        return ;
    }
    v.insert(i, id);
    assert forall|x: u64| v@.contains(x) <==> (old(v)@.contains(x) || x == id) by {
        if v@.contains(x) {
            let k = choose|k: int| 0 <= k < v@.len() && v@[k] == x;
            if k < i {
                assert(old(v)@[k] == x);
            } else if k > i {
                assert(old(v)@[k - 1] == x);
            }
        }
        if old(v)@.contains(x) {
            let k = choose|k: int| 0 <= k < old(v)@.len() && old(v)@[k] == x;
            if k < i {
                assert(v@[k] == x);
            } else {
                assert(v@[k + 1] == x);
            }
        }
        if x == id {
            assert(v@[i as int] == x);
        }
    }
}

/// The database ids to look up for catalog `cat`: each id once, ascending.
pub fn db_ids_of_catalog(acc: &AccountGrants, cat: &str) -> (r: Vec<u64>)
    ensures
        strictly_increasing(r@),
        forall|x: u64|
            r@.contains(x) <==> exists|k: int|
                0 <= k < acc.dbs@.len() && #[trigger] acc.dbs@[k].0@ == cat@ && acc.dbs@[k].1 == x,
{
    let mut r: Vec<u64> = Vec::new();
    let mut i: usize = 0;
    while i < acc.dbs.len()
        invariant
            i <= acc.dbs.len(),
            strictly_increasing(r@),
            forall|x: u64|
                r@.contains(x) <==> exists|k: int|
                    0 <= k < i && #[trigger] acc.dbs@[k].0@ == cat@ && acc.dbs@[k].1 == x,
        decreases acc.dbs.len() - i,
    {
        if str_eq(acc.dbs[i].0.as_str(), cat) {
            insert_sorted(&mut r, acc.dbs[i].1);
        }
        i = i + 1;
    }
    r
}

/// The database ids of the table grants of catalog `cat`: each once,
/// ascending.
pub fn table_db_ids_of_catalog(acc: &AccountGrants, cat: &str) -> (r: Vec<u64>)
    ensures
        strictly_increasing(r@),
        forall|x: u64|
            r@.contains(x) <==> exists|k: int|
                0 <= k < acc.tables@.len() && #[trigger] acc.tables@[k].0@ == cat@
                    && acc.tables@[k].1 == x,
{
    let mut r: Vec<u64> = Vec::new();
    let mut i: usize = 0;
    while i < acc.tables.len()
        invariant
            i <= acc.tables.len(),
            strictly_increasing(r@),
            forall|x: u64|
                r@.contains(x) <==> exists|k: int|
                    0 <= k < i && #[trigger] acc.tables@[k].0@ == cat@ && acc.tables@[k].1 == x,
        decreases acc.tables.len() - i,
    {
        if str_eq(acc.tables[i].0.as_str(), cat) {
            insert_sorted(&mut r, acc.tables[i].1);
        }
        i = i + 1;
    }
    r
}

/// The table ids of the table grants of catalog `cat`: each once, ascending.
pub fn table_ids_of_catalog(acc: &AccountGrants, cat: &str) -> (r: Vec<u64>)
    ensures
        strictly_increasing(r@),
        forall|x: u64|
            r@.contains(x) <==> exists|k: int|
                0 <= k < acc.tables@.len() && #[trigger] acc.tables@[k].0@ == cat@
                    && acc.tables@[k].2 == x,
{
    let mut r: Vec<u64> = Vec::new();
    let mut i: usize = 0;
    while i < acc.tables.len()
        invariant
            i <= acc.tables.len(),
            strictly_increasing(r@),
            forall|x: u64|
                r@.contains(x) <==> exists|k: int|
                    0 <= k < i && #[trigger] acc.tables@[k].0@ == cat@ && acc.tables@[k].2 == x,
        decreases acc.tables.len() - i,
    {
        if str_eq(acc.tables[i].0.as_str(), cat) {
            insert_sorted(&mut r, acc.tables[i].2);
        }
        i = i + 1;
    }
    r
}

/// Adds the rows of the database grants of catalog `cat`, given the names
/// found for the database ids `ids` (`None` where a database is gone).
pub fn resolve_db_grants(
    acc: &AccountGrants,
    cat: &str,
    ids: &Vec<u64>,
    names: &Vec<Option<String>>,
    identity: &str,
    rows: &mut GrantRows,
)
    requires
        old(rows).wf(),
    ensures
        final(rows).wf(),
        final(rows).view_rows() == old(rows).view_rows() + db_rows(
            dbs_view(acc.dbs@),
            cat@,
            ids@,
            opt_views(names@),
            identity@,
        ),
{
    let ghost dbs = dbs_view(acc.dbs@);
    let mut i: usize = 0;
    assert(old(rows).view_rows() + db_rows(dbs.take(0), cat@, ids@, opt_views(names@), identity@)
        =~= old(rows).view_rows());
    while i < acc.dbs.len()
        invariant
            i <= acc.dbs.len(),
            rows.wf(),
            dbs == dbs_view(acc.dbs@),
            rows.view_rows() == old(rows).view_rows() + db_rows(
                dbs.take(i as int),
                cat@,
                ids@,
                opt_views(names@),
                identity@,
            ),
        decreases acc.dbs.len() - i,
    {
        assert(dbs.take(i + 1).drop_last() =~= dbs.take(i as int));
        let g = &acc.dbs[i];
        if str_eq(g.0.as_str(), cat) {
            match lookup_name_exec(ids, names, g.1) {
                Some(db_name) => {
                    let grant = text5("GRANT ", g.2.as_str(), " ON '", cat, "'.'");
                    let grant = text3(grant.as_str(), db_name.as_str(), "'.* TO ");
                    let grant = text2(grant.as_str(), identity);
                    let ghost before = rows.view_rows();
                    rows.push(g.2.clone(), db_name, Some(g.1), grant);
                    proof {
                        assert(rows.view_rows() == before.push(
                            db_row(cat@, db_name@, g.1, g.2@, identity@),
                        )) by {
                            assert(grant@ =~= db_row(cat@, db_name@, g.1, g.2@, identity@).3);
                        }
                    }
                },
                None => {},
            }
        }
        i = i + 1;
        assert(rows.view_rows() =~= old(rows).view_rows() + db_rows(
            dbs.take(i as int),
            cat@,
            ids@,
            opt_views(names@),
            identity@,
        ));
    }
    assert(dbs.take(acc.dbs.len() as int) =~= dbs);
}

/// Adds the rows of the table grants of catalog `cat`, given the names found
/// for the database ids `db_ids` and for the table ids `table_ids`.
pub fn resolve_table_grants(
    acc: &AccountGrants,
    cat: &str,
    db_ids: &Vec<u64>,
    db_names: &Vec<Option<String>>,
    table_ids: &Vec<u64>,
    table_names: &Vec<Option<String>>,
    identity: &str,
    rows: &mut GrantRows,
)
    requires
        old(rows).wf(),
    ensures
        final(rows).wf(),
        final(rows).view_rows() == old(rows).view_rows() + table_rows(
            tables_view(acc.tables@),
            cat@,
            db_ids@,
            opt_views(db_names@),
            table_ids@,
            opt_views(table_names@),
            identity@,
        ),
{
    let ghost ts = tables_view(acc.tables@);
    let ghost dn = opt_views(db_names@);
    let ghost tn = opt_views(table_names@);
    let mut i: usize = 0;
    assert(old(rows).view_rows() + table_rows(ts.take(0), cat@, db_ids@, dn, table_ids@, tn, identity@)
        =~= old(rows).view_rows());
    while i < acc.tables.len()
        invariant
            i <= acc.tables.len(),
            rows.wf(),
            ts == tables_view(acc.tables@),
            dn == opt_views(db_names@),
            tn == opt_views(table_names@),
            rows.view_rows() == old(rows).view_rows() + table_rows(
                ts.take(i as int),
                cat@,
                db_ids@,
                dn,
                table_ids@,
                tn,
                identity@,
            ),
        decreases acc.tables.len() - i,
    {
        assert(ts.take(i + 1).drop_last() =~= ts.take(i as int));
        let g = &acc.tables[i];
        if str_eq(g.0.as_str(), cat) {
            match lookup_name_exec(db_ids, db_names, g.1) {
                Some(db_name) => {
                    match lookup_name_exec(table_ids, table_names, g.2) {
                        Some(table_name) => {
                            let name = text5(
                                cat,
                                ".",
                                db_name.as_str(),
                                ".",
                                table_name.as_str(),
                            );
                            let grant = text5("GRANT ", g.3.as_str(), " ON '", cat, "'.'");
                            let grant = text5(
                                grant.as_str(),
                                db_name.as_str(),
                                "'.'",
                                table_name.as_str(),
                                "' TO ",
                            );
                            let grant = text2(grant.as_str(), identity);
                            let ghost before = rows.view_rows();
                            let ghost want = table_row(
                                cat@,
                                db_name@,
                                table_name@,
                                g.2,
                                g.3@,
                                identity@,
                            );
                            assert(name@ =~= want.1);
                            assert(grant@ =~= want.3);
                            rows.push(g.3.clone(), name, Some(g.2), grant);
                        },
                        None => {},
                    }
                },
                None => {},
            }
        }
        i = i + 1;
        assert(rows.view_rows() =~= old(rows).view_rows() + table_rows(
            ts.take(i as int),
            cat@,
            db_ids@,
            dn,
            table_ids@,
            tn,
            identity@,
        ));
    }
    assert(ts.take(acc.tables.len() as int) =~= ts);
}

/// The result of `show_grants`: one row per privilege, all shown for the
/// same grantee.
pub struct GrantsBlock {
    pub privileges: Vec<String>,
    pub object_name: Vec<String>,
    pub object_id: Vec<Option<u64>>,
    pub grant_to: Vec<String>,
    pub name: Vec<String>,
    pub grants: Vec<String>,
}

impl GrantsBlock {
    /// Every column has one value per row.
    pub open spec fn columns_agree(&self) -> bool {
        let n = self.privileges@.len();
        &&& self.object_name@.len() == n
        &&& self.object_id@.len() == n
        &&& self.grant_to@.len() == n
        &&& self.name@.len() == n
        &&& self.grants@.len() == n
    }

    pub open spec fn num_rows(&self) -> nat {
        self.privileges@.len()
    }

    /// Row `i` shows the pair (privileges, role) for the object `target`,
    /// granted to `ROLE`, with an empty grant text.
    pub open spec fn object_row_is(
        &self,
        i: int,
        pr: (Seq<char>, Seq<char>),
        target: ObjectTarget,
    ) -> bool {
        &&& self.privileges@[i]@ == pr.0
        &&& self.name@[i]@ == pr.1
        &&& self.object_name@[i]@ == target.object_name@
        &&& self.object_id@[i] == target.object_id
        &&& self.grant_to@[i]@ == "ROLE"@
        &&& self.grants@[i]@ == Seq::<char>::empty()
    }

    pub open spec fn row(&self, i: int) -> Row {
        (self.privileges@[i]@, self.object_name@[i]@, self.object_id@[i], self.grants@[i]@)
    }
}

fn repeat_string(s: &str, n: usize) -> (v: Vec<String>)
    ensures
        v@.len() == n,
        forall|i: int| 0 <= i < n ==> #[trigger] v@[i]@ == s@,
{
    let mut v: Vec<String> = Vec::new();
    let mut i: usize = 0;
    while i < n
        invariant
            i <= n,
            v@.len() == i,
            forall|k: int| 0 <= k < i ==> #[trigger] v@[k]@ == s@,
        decreases n - i,
    {
        v.push(s.to_owned());
        i = i + 1;
    }
    v
}

fn repeat_id(id: Option<u64>, n: usize) -> (v: Vec<Option<u64>>)
    ensures
        v@.len() == n,
        forall|i: int| 0 <= i < n ==> #[trigger] v@[i] == id,
{
    let mut v: Vec<Option<u64>> = Vec::new();
    let mut i: usize = 0;
    while i < n
        invariant
            i <= n,
            v@.len() == i,
            forall|k: int| 0 <= k < i ==> #[trigger] v@[k] == id,
        decreases n - i,
    {
        v.push(id);
        i = i + 1;
    }
    v
}

/// The block of the grants of a user or role: the rows as collected, each
/// shown with `grant_to` (`USER` or `ROLE`) and the grantee's `name`.
pub fn account_grants_block(grant_to: &str, name: &str, rows: GrantRows) -> (b: GrantsBlock)
    requires
        rows.wf(),
    ensures
        b.columns_agree(),
        b.num_rows() == rows.view_rows().len(),
        forall|i: int| 0 <= i < b.num_rows() ==> #[trigger] b.row(i) == rows.view_rows()[i],
        forall|i: int|
            0 <= i < b.num_rows() ==> #[trigger] b.grant_to@[i]@ == grant_to@ && b.name@[i]@
                == name@,
{
    let n = rows.len();
    let grant_tos = repeat_string(grant_to, n);
    let names = repeat_string(name, n);
    GrantsBlock {
        privileges: rows.privileges,
        object_name: rows.object_name,
        object_id: rows.object_id,
        grant_to: grant_tos,
        name: names,
        grants: rows.grants,
    }
}

// ---------------------------------------------------------------------------
// Whose grants: users and roles
// ---------------------------------------------------------------------------

/// Whether the grants of a user or of a role are shown.
#[derive(Debug, PartialEq, Eq)]
pub enum AccountKind {
    User,
    Role,
}

/// Reads the grantee kind: exactly `user` or `role`.
pub fn parse_account_kind(grant_type: &str) -> (r: Result<AccountKind, ErrorCode>)
    ensures
        grant_type@ == "user"@ ==> r == Ok::<AccountKind, ErrorCode>(AccountKind::User),
        grant_type@ == "role"@ ==> r == Ok::<AccountKind, ErrorCode>(AccountKind::Role),
        grant_type@ != "user"@ && grant_type@ != "role"@ ==> (r matches Err(
            ErrorCode::InvalidArgument(m),
        ) && m@ == "Expected 'user|role', but got "@ + debug_text(grant_type@)),
{
    proof {
        reveal_strlit("user");
        reveal_strlit("role");
        assert("user"@[0] != "role"@[0]);
    }
    if str_eq(grant_type, "user") {
        Ok(AccountKind::User)
    } else if str_eq(grant_type, "role") {
        Ok(AccountKind::Role)
    } else {
        let d = debug_str(grant_type);
        Err(ErrorCode::InvalidArgument(concat("Expected 'user|role', but got ", d.as_str())))
    }
}

/// The message refusing to show grants to a user without the `Grant`
/// privilege.
pub open spec fn grant_denied_message(user: Seq<char>, sorted_roles: Seq<Seq<char>>) -> Seq<char> {
    "Permission denied: privilege [Grant] is required on *.* for user "@ + user + " with roles ["@
        + join(sorted_roles, ","@) + "]"@
}

/// The error refusing to show grants to `user` (displayed), listing the
/// user's roles in ascending order.
pub fn grant_denied(user_display: &str, roles: Vec<String>) -> (e: ErrorCode)
    ensures
        e matches ErrorCode::PermissionDenied(m) && exists|sorted: Seq<Seq<char>>|
            #[trigger] is_sorted_permutation(sorted, views(roles@)) && m@ == grant_denied_message(
                user_display@,
                sorted,
            ),
{
    let mut roles = roles;
    sort_strings(&mut roles);
    let joined = join_strings(&roles, ",");
    let mut m = chars_of("Permission denied: privilege [Grant] is required on *.* for user ");
    extend_str(&mut m, user_display);
    extend_str(&mut m, " with roles [");
    extend_chars(&mut m, &joined);
    extend_str(&mut m, "]");
    let msg = string_of(&m);
    assert(msg@ == grant_denied_message(user_display@, views(roles@)));
    ErrorCode::PermissionDenied(msg)
}

/// Whether the current user may see the grants of user `target`: only its
/// own, unless it holds the `Grant` privilege.
pub fn check_user_grants_access(
    current_username: &str,
    current_display: &str,
    current_roles: Vec<String>,
    target: &str,
    has_grant_priv: bool,
) -> (r: Result<(), ErrorCode>)
    ensures
        r is Ok <==> (current_username@ == target@ || has_grant_priv),
        r matches Err(e) ==> e matches ErrorCode::PermissionDenied(m) && exists|
            sorted: Seq<Seq<char>>,
        | #[trigger] is_sorted_permutation(sorted, views(current_roles@)) && m@
            == grant_denied_message(current_display@, sorted),
{
    if !str_eq(current_username, target) && !has_grant_priv {
        return Err(grant_denied(current_display, current_roles));
    }
    Ok(())
}

/// Whether the current user may see the grants of role `target`: only of
/// its effective roles, unless it holds the `Grant` privilege.
pub fn check_role_grants_access(
    effective_roles: &Vec<String>,
    current_display: &str,
    current_roles: Vec<String>,
    target: &str,
    has_grant_priv: bool,
) -> (r: Result<(), ErrorCode>)
    ensures
        r is Ok <==> (views(effective_roles@).contains(target@) || has_grant_priv),
        r matches Err(e) ==> e matches ErrorCode::PermissionDenied(m) && exists|
            sorted: Seq<Seq<char>>,
        | #[trigger] is_sorted_permutation(sorted, views(current_roles@)) && m@
            == grant_denied_message(current_display@, sorted),
{
    if !contains_str(effective_roles, target) && !has_grant_priv {
        return Err(grant_denied(current_display, current_roles));
    }
    Ok(())
}

/// How a role is named as a grantee: ``ROLE `name` ``.
pub fn role_identity(name: &str) -> (s: String)
    ensures
        s@ == "ROLE `"@ + name@ + "`"@,
{
    text3("ROLE `", name, "`")
}

/// The roles whose ownerships a user's grants include: the roles related to
/// its grants, in ascending order.
pub fn user_roles(related_role_names: Vec<String>) -> (r: Vec<String>)
    ensures
        is_sorted_permutation(views(r@), views(related_role_names@)),
{
    sorted_strings(related_role_names)
}

/// The roles whose ownerships a role's grants include: the roles related to
/// it, then the role itself.
pub fn role_roles(related_role_names: Vec<String>, name: &str) -> (r: Vec<String>)
    ensures
        views(r@) == views(related_role_names@).push(name@),
{
    let mut r = related_role_names;
    let ghost before = views(r@);
    r.push(name.to_owned());
    assert(views(r@) =~= before.push(name@));
    r
}

// ---------------------------------------------------------------------------
// What `show_grants` is asked for
// ---------------------------------------------------------------------------

/// The two kinds of `show_grants` queries.
#[derive(Debug, PartialEq, Eq)]
pub enum GrantsQuery {
    /// The grants of a user or a role.
    Account,
    /// The roles holding privileges on an object.
    Object,
}

/// Reads the first argument of `show_grants` case-insensitively: `role` and
/// `user` ask for the grants of an account, `table`, `database`, `udf` and
/// `stage` for the grants on an object.
pub fn grants_query(grant_type: &str) -> (r: Result<GrantsQuery, ErrorCode>)
    ensures
        ({
            let l = lowercase(grant_type@);
            &&& (l == "role"@ || l == "user"@) ==> r == Ok::<GrantsQuery, ErrorCode>(
                GrantsQuery::Account,
            )
            &&& (l == "table"@ || l == "database"@ || l == "udf"@ || l == "stage"@) ==> r
                == Ok::<GrantsQuery, ErrorCode>(GrantsQuery::Object)
            &&& !(l == "role"@ || l == "user"@ || l == "table"@ || l == "database"@ || l
                == "udf"@ || l == "stage"@) ==> (r matches Err(ErrorCode::InvalidArgument(m))
                && m@ == "Expected 'user|role|table|database|udf|stage', but got "@ + debug_text(
                grant_type@,
            ))
        }),
{
    proof {
        reveal_strlit("user");
        reveal_strlit("role");
        reveal_strlit("table");
        reveal_strlit("database");
        reveal_strlit("udf");
        reveal_strlit("stage");
        assert("role"@[0] == 'r' && "user"@[0] == 'u' && "table"@[0] == 't' && "database"@[0]
            == 'd' && "udf"@.len() == 3 && "stage"@[0] == 's');
        assert("role"@ != "table"@ && "role"@ != "database"@ && "role"@ != "udf"@ && "role"@
            != "stage"@);
        assert("user"@ != "table"@ && "user"@ != "database"@ && "user"@ != "udf"@ && "user"@
            != "stage"@);
    }
    let l = to_lowercase(grant_type);
    let l = l.as_str();
    if str_eq(l, "role") || str_eq(l, "user") {
        Ok(GrantsQuery::Account)
    } else if str_eq(l, "table") || str_eq(l, "database") || str_eq(l, "udf") || str_eq(
        l,
        "stage",
    ) {
        Ok(GrantsQuery::Object)
    } else {
        let d = debug_str(grant_type);
        Err(
            ErrorCode::InvalidArgument(
                concat("Expected 'user|role|table|database|udf|stage', but got ", d.as_str()),
            ),
        )
    }
}

// ---------------------------------------------------------------------------
// Grants on an object
// ---------------------------------------------------------------------------

/// Two grant objects are the same object.
pub open spec fn same_object(a: GrantObject, b: GrantObject) -> bool {
    match (a, b) {
        (GrantObject::Global, GrantObject::Global) => true,
        (GrantObject::Database(c1, d1), GrantObject::Database(c2, d2)) => c1@ == c2@ && d1@ == d2@,
        (GrantObject::DatabaseById(c1, d1), GrantObject::DatabaseById(c2, d2)) => c1@ == c2@ && d1
            == d2,
        (GrantObject::Table(c1, d1, t1), GrantObject::Table(c2, d2, t2)) => c1@ == c2@ && d1@
            == d2@ && t1@ == t2@,
        (GrantObject::TableById(c1, d1, t1), GrantObject::TableById(c2, d2, t2)) => c1@ == c2@
            && d1 == d2 && t1 == t2,
        (GrantObject::UDF(x), GrantObject::UDF(y)) => x@ == y@,
        (GrantObject::Stage(x), GrantObject::Stage(y)) => x@ == y@,
        (GrantObject::Warehouse(x), GrantObject::Warehouse(y)) => x@ == y@,
        _ => false,
    }
}

/// Two owned objects are the same object.
pub open spec fn same_owned(a: OwnershipObject, b: OwnershipObject) -> bool {
    match (a, b) {
        (
            OwnershipObject::Database { catalog_name: c1, db_id: d1 },
            OwnershipObject::Database { catalog_name: c2, db_id: d2 },
        ) => c1@ == c2@ && d1 == d2,
        (
            OwnershipObject::Table { catalog_name: c1, db_id: d1, table_id: t1 },
            OwnershipObject::Table { catalog_name: c2, db_id: d2, table_id: t2 },
        ) => c1@ == c2@ && d1 == d2 && t1 == t2,
        (OwnershipObject::Stage { name: x }, OwnershipObject::Stage { name: y }) => x@ == y@,
        (OwnershipObject::UDF { name: x }, OwnershipObject::UDF { name: y }) => x@ == y@,
        _ => false,
    }
}

pub fn grant_object_eq(a: &GrantObject, b: &GrantObject) -> (r: bool)
    ensures
        r == same_object(*a, *b),
{
    match (a, b) {
        (GrantObject::Global, GrantObject::Global) => true,
        (GrantObject::Database(c1, d1), GrantObject::Database(c2, d2)) => str_eq(
            c1.as_str(),
            c2.as_str(),
        ) && str_eq(d1.as_str(), d2.as_str()),
        (GrantObject::DatabaseById(c1, d1), GrantObject::DatabaseById(c2, d2)) => str_eq(
            c1.as_str(),
            c2.as_str(),
        ) && *d1 == *d2,
        (GrantObject::Table(c1, d1, t1), GrantObject::Table(c2, d2, t2)) => str_eq(
            c1.as_str(),
            c2.as_str(),
        ) && str_eq(d1.as_str(), d2.as_str()) && str_eq(t1.as_str(), t2.as_str()),
        (GrantObject::TableById(c1, d1, t1), GrantObject::TableById(c2, d2, t2)) => str_eq(
            c1.as_str(),
            c2.as_str(),
        ) && *d1 == *d2 && *t1 == *t2,
        (GrantObject::UDF(x), GrantObject::UDF(y)) => str_eq(x.as_str(), y.as_str()),
        (GrantObject::Stage(x), GrantObject::Stage(y)) => str_eq(x.as_str(), y.as_str()),
        (GrantObject::Warehouse(x), GrantObject::Warehouse(y)) => str_eq(x.as_str(), y.as_str()),
        _ => false,
    }
}

pub fn ownership_object_eq(a: &OwnershipObject, b: &OwnershipObject) -> (r: bool)
    ensures
        r == same_owned(*a, *b),
{
    match (a, b) {
        (
            OwnershipObject::Database { catalog_name: c1, db_id: d1 },
            OwnershipObject::Database { catalog_name: c2, db_id: d2 },
        ) => str_eq(c1.as_str(), c2.as_str()) && *d1 == *d2,
        (
            OwnershipObject::Table { catalog_name: c1, db_id: d1, table_id: t1 },
            OwnershipObject::Table { catalog_name: c2, db_id: d2, table_id: t2 },
        ) => str_eq(c1.as_str(), c2.as_str()) && *d1 == *d2 && *t1 == *t2,
        (OwnershipObject::Stage { name: x }, OwnershipObject::Stage { name: y }) => str_eq(
            x.as_str(),
            y.as_str(),
        ),
        (OwnershipObject::UDF { name: x }, OwnershipObject::UDF { name: y }) => str_eq(
            x.as_str(),
            y.as_str(),
        ),
        _ => false,
    }
}

/// The object whose grants are shown, as the grant entries and the
/// ownership records name it, with the id and name shown in every row.
#[derive(Debug)]
pub struct ObjectTarget {
    pub object: GrantObject,
    pub owner: OwnershipObject,
    pub object_id: Option<u64>,
    pub object_name: String,
}

/// Identifies the object of a `show_grants` query on a table, database,
/// UDF or stage, once the caller has looked up its ids (`db_id` for a
/// table or database, `table_id` for a table) and whether the current user
/// can see it (`visible`).
pub fn object_grant_target(
    grant_type: &str,
    name: &str,
    catalog_name: &str,
    db_id: u64,
    table_id: u64,
    visible: bool,
    current_user: &str,
) -> (r: Result<ObjectTarget, ErrorCode>)
    ensures
        grant_type@ == "table"@ ==> if visible {
            r matches Ok(t) && t.object_id == Some(table_id) && t.object_name@ == name@ && (
            t.object matches GrantObject::TableById(c, d, tb) && c@ == catalog_name@ && d == db_id
                && tb == table_id) && (t.owner matches OwnershipObject::Table {
                catalog_name: c2,
                db_id: d2,
                table_id: t2,
            } && c2@ == catalog_name@ && d2 == db_id && t2 == table_id)
        } else {
            r matches Err(ErrorCode::PermissionDenied(m)) && m@ == "Permission denied: No privilege on table "@
                + name@ + " for user "@ + current_user@ + "."@
        },
        grant_type@ == "database"@ ==> if visible {
            r matches Ok(t) && t.object_id == Some(db_id) && t.object_name@ == name@ && (
            t.object matches GrantObject::DatabaseById(c, d) && c@ == catalog_name@ && d == db_id)
                && (t.owner matches OwnershipObject::Database { catalog_name: c2, db_id: d2 }
                && c2@ == catalog_name@ && d2 == db_id)
        } else {
            r matches Err(ErrorCode::PermissionDenied(m)) && m@
                == "Permission denied: No privilege on database "@ + name@ + " for user "@
                + current_user@ + "."@
        },
        grant_type@ == "udf"@ ==> if visible {
            r matches Ok(t) && t.object_id is None && t.object_name@ == name@ && (
            t.object matches GrantObject::UDF(u) && u@ == name@) && (
            t.owner matches OwnershipObject::UDF { name: u2 } && u2@ == name@)
        } else {
            r matches Err(ErrorCode::PermissionDenied(m)) && m@
                == "Permission denied: privilege USAGE is required on udf "@ + name@
                + " for user "@ + current_user@ + "."@
        },
        grant_type@ == "stage"@ ==> if visible {
            r matches Ok(t) && t.object_id is None && t.object_name@ == name@ && (
            t.object matches GrantObject::Stage(u) && u@ == name@) && (
            t.owner matches OwnershipObject::Stage { name: u2 } && u2@ == name@)
        } else {
            r matches Err(ErrorCode::PermissionDenied(m)) && m@
                == "Permission denied: privilege READ is required on stage "@ + name@
                + " for user "@ + current_user@
                + ". Or no need to show the stage privilege"@
        },
        grant_type@ != "table"@ && grant_type@ != "database"@ && grant_type@ != "udf"@
            && grant_type@ != "stage"@ ==> (r matches Err(ErrorCode::InvalidArgument(m)) && m@
            == "Expected 'table|database|udf|stage', but got "@ + debug_text(grant_type@)),
{
    proof {
        reveal_strlit("table");
        reveal_strlit("database");
        reveal_strlit("udf");
        reveal_strlit("stage");
        assert("table"@[0] == 't' && "database"@[0] == 'd' && "udf"@[0] == 'u' && "stage"@[0]
            == 's');
    }
    if str_eq(grant_type, "table") {
        if !visible {
            let m = text5(
                "Permission denied: No privilege on table ",
                name,
                " for user ",
                current_user,
                ".",
            );
            return Err(ErrorCode::PermissionDenied(m));
        }
        Ok(
            ObjectTarget {
                object: GrantObject::TableById(catalog_name.to_owned(), db_id, table_id),
                owner: OwnershipObject::Table {
                    catalog_name: catalog_name.to_owned(),
                    db_id,
                    table_id,
                },
                object_id: Some(table_id),
                object_name: name.to_owned(),
            },
        )
    } else if str_eq(grant_type, "database") {
        if !visible {
            let m = text5(
                "Permission denied: No privilege on database ",
                name,
                " for user ",
                current_user,
                ".",
            );
            return Err(ErrorCode::PermissionDenied(m));
        }
        Ok(
            ObjectTarget {
                object: GrantObject::DatabaseById(catalog_name.to_owned(), db_id),
                owner: OwnershipObject::Database { catalog_name: catalog_name.to_owned(), db_id },
                object_id: Some(db_id),
                object_name: name.to_owned(),
            },
        )
    } else if str_eq(grant_type, "udf") {
        if !visible {
            let m = text5(
                "Permission denied: privilege USAGE is required on udf ",
                name,
                " for user ",
                current_user,
                ".",
            );
            return Err(ErrorCode::PermissionDenied(m));
        }
        Ok(
            ObjectTarget {
                object: GrantObject::UDF(name.to_owned()),
                owner: OwnershipObject::UDF { name: name.to_owned() },
                object_id: None,
                object_name: name.to_owned(),
            },
        )
    } else if str_eq(grant_type, "stage") {
        if !visible {
            let m = text5(
                "Permission denied: privilege READ is required on stage ",
                name,
                " for user ",
                current_user,
                ". Or no need to show the stage privilege",
            );
            return Err(ErrorCode::PermissionDenied(m));
        }
        Ok(
            ObjectTarget {
                object: GrantObject::Stage(name.to_owned()),
                owner: OwnershipObject::Stage { name: name.to_owned() },
                object_id: None,
                object_name: name.to_owned(),
            },
        )
    } else {
        let d = debug_str(grant_type);
        Err(
            ErrorCode::InvalidArgument(
                concat("Expected 'table|database|udf|stage', but got ", d.as_str()),
            ),
        )
    }
}

/// The (privileges, role) pairs of a role's entries on `object`, in order.
pub open spec fn role_object_pairs(role_name: Seq<char>, es: Seq<GrantEntry>, object: GrantObject) -> Seq<
    (Seq<char>, Seq<char>),
>
    decreases es.len(),
{
    if es.len() == 0 {
        Seq::empty()
    } else {
        let r = role_object_pairs(role_name, es.drop_last(), object);
        if same_object(es.last().object, object) {
            r.push((es.last().privileges@, role_name))
        } else {
            r
        }
    }
}

/// The (privileges, role) pairs of all roles' entries on `object`, role by
/// role.
pub open spec fn object_pairs(roles: Seq<RoleGrants>, object: GrantObject) -> Seq<
    (Seq<char>, Seq<char>),
>
    decreases roles.len(),
{
    if roles.len() == 0 {
        Seq::empty()
    } else {
        object_pairs(roles.drop_last(), object) + role_object_pairs(
            roles.last().name@,
            roles.last().entries@,
            object,
        )
    }
}

/// The (`OWNERSHIP`, role) pairs of the ownerships of `owner`, in order.
pub open spec fn owner_pairs(os: Seq<Ownership>, owner: OwnershipObject) -> Seq<
    (Seq<char>, Seq<char>),
>
    decreases os.len(),
{
    if os.len() == 0 {
        Seq::empty()
    } else {
        let r = owner_pairs(os.drop_last(), owner);
        if same_owned(os.last().object, owner) {
            r.push(("OWNERSHIP"@, os.last().role@))
        } else {
            r
        }
    }
}

/// All (privileges, role) pairs shown for an object: the roles' grant
/// entries on it, then its owners.
pub open spec fn object_grant_pairs(
    roles: Seq<RoleGrants>,
    os: Seq<Ownership>,
    target: ObjectTarget,
) -> Seq<(Seq<char>, Seq<char>)> {
    object_pairs(roles, target.object) + owner_pairs(os, target.owner)
}

/// The roles that hold privileges on an object, and its owners: one row
/// each, showing the object's name and id, granted to `ROLE`, with an empty
/// grant text.
pub fn object_grants_block(
    roles: &Vec<RoleGrants>,
    ownerships: &Vec<Ownership>,
    target: &ObjectTarget,
) -> (b: GrantsBlock)
    ensures
        b.columns_agree(),
        b.num_rows() == object_grant_pairs(roles@, ownerships@, *target).len(),
        forall|i: int|
            0 <= i < b.num_rows() ==> #[trigger] b.object_row_is(
                i,
                object_grant_pairs(roles@, ownerships@, *target)[i],
                *target,
            ),
{
    let mut privileges: Vec<String> = Vec::new();
    let mut names: Vec<String> = Vec::new();
    let mut i: usize = 0;
    while i < roles.len()
        invariant
            i <= roles.len(),
            privileges@.len() == names@.len(),
            privileges@.len() == object_pairs(roles@.take(i as int), target.object).len(),
            forall|k: int|
                0 <= k < privileges@.len() ==> #[trigger] privileges@[k]@ == object_pairs(
                    roles@.take(i as int),
                    target.object,
                )[k].0 && names@[k]@ == object_pairs(roles@.take(i as int), target.object)[k].1,
        decreases roles.len() - i,
    {
        let role = &roles[i];
        let ghost base = object_pairs(roles@.take(i as int), target.object);
        assert(roles@.take(i + 1).drop_last() =~= roles@.take(i as int));
        let mut j: usize = 0;
        while j < role.entries.len()
            invariant
                j <= role.entries.len(),
                privileges@.len() == names@.len(),
                privileges@.len() == base.len() + role_object_pairs(
                    role.name@,
                    role.entries@.take(j as int),
                    target.object,
                ).len(),
                forall|k: int|
                    0 <= k < privileges@.len() ==> {
                        let all = base + role_object_pairs(
                            role.name@,
                            role.entries@.take(j as int),
                            target.object,
                        );
                        #[trigger] privileges@[k]@ == all[k].0 && names@[k]@ == all[k].1
                    },
            decreases role.entries.len() - j,
        {
            assert(role.entries@.take(j + 1).drop_last() =~= role.entries@.take(j as int));
            let e = &role.entries[j];
            let ghost prev = base + role_object_pairs(
                role.name@,
                role.entries@.take(j as int),
                target.object,
            );
            let ghost next = base + role_object_pairs(
                role.name@,
                role.entries@.take(j + 1),
                target.object,
            );
            assert(role.entries@.take(j + 1).last() == *e);
            let ghost old_p = privileges@;
            let ghost old_n = names@;
            assert(forall|k: int|
                0 <= k < old_p.len() ==> #[trigger] old_p[k]@ == prev[k].0 && old_n[k]@
                    == prev[k].1);
            if grant_object_eq(&e.object, &target.object) {
                privileges.push(e.privileges.clone());
                names.push(role.name.clone());
                assert(next =~= prev.push((e.privileges@, role.name@)));
            } else {
                assert(next =~= prev);
            }
            assert forall|k: int| 0 <= k < privileges@.len() implies #[trigger] privileges@[k]@
                == next[k].0 && names@[k]@ == next[k].1 by {
                if k < old_p.len() {
                    assert(privileges@[k] == old_p[k]);
                    assert(names@[k] == old_n[k]);
                    assert(old_p[k]@ == prev[k].0);
                }
            }
            j = j + 1;
        }
        assert(role.entries@.take(role.entries.len() as int) =~= role.entries@);
        assert(roles@.take(i + 1).last() == *role);
        assert(object_pairs(roles@.take(i + 1), target.object) == base + role_object_pairs(
            role.name@,
            role.entries@,
            target.object,
        ));
        i = i + 1;
    }
    assert(roles@.take(roles.len() as int) =~= roles@);
    let ghost granted = object_pairs(roles@, target.object);
    let mut o: usize = 0;
    while o < ownerships.len()
        invariant
            o <= ownerships.len(),
            privileges@.len() == names@.len(),
            privileges@.len() == granted.len() + owner_pairs(
                ownerships@.take(o as int),
                target.owner,
            ).len(),
            forall|k: int|
                0 <= k < privileges@.len() ==> {
                    let all = granted + owner_pairs(ownerships@.take(o as int), target.owner);
                    #[trigger] privileges@[k]@ == all[k].0 && names@[k]@ == all[k].1
                },
        decreases ownerships.len() - o,
    {
        assert(ownerships@.take(o + 1).drop_last() =~= ownerships@.take(o as int));
        let ow = &ownerships[o];
        let ghost prev = granted + owner_pairs(ownerships@.take(o as int), target.owner);
        let ghost next = granted + owner_pairs(ownerships@.take(o + 1), target.owner);
        assert(ownerships@.take(o + 1).last() == *ow);
        let ghost old_p = privileges@;
        let ghost old_n = names@;
        assert(forall|k: int|
            0 <= k < old_p.len() ==> #[trigger] old_p[k]@ == prev[k].0 && old_n[k]@ == prev[k].1);
        if ownership_object_eq(&ow.object, &target.owner) {
            privileges.push("OWNERSHIP".to_owned());
            names.push(ow.role.clone());
            assert(next =~= prev.push(("OWNERSHIP"@, ow.role@)));
        } else {
            assert(next =~= prev);
        }
        assert forall|k: int| 0 <= k < privileges@.len() implies #[trigger] privileges@[k]@
            == next[k].0 && names@[k]@ == next[k].1 by {
            if k < old_p.len() {
                assert(privileges@[k] == old_p[k]);
                assert(names@[k] == old_n[k]);
            }
        }
        o = o + 1;
    }
    assert(ownerships@.take(ownerships.len() as int) =~= ownerships@);
    let n = privileges.len();
    let object_names = repeat_string(target.object_name.as_str(), n);
    let object_ids = repeat_id(target.object_id, n);
    let grant_tos = repeat_string("ROLE", n);
    let grants = repeat_string("", n);
    proof {
        reveal_strlit("");
        let all = object_grant_pairs(roles@, ownerships@, *target);
        assert(all == granted + owner_pairs(ownerships@.take(ownerships.len() as int), target.owner));
        assert forall|i: int| 0 <= i < n implies {
            &&& #[trigger] privileges@[i]@ == all[i].0
            &&& names@[i]@ == all[i].1
            &&& object_names@[i]@ == target.object_name@
            &&& object_ids@[i] == target.object_id
            &&& grant_tos@[i]@ == "ROLE"@
            &&& grants@[i]@ == Seq::<char>::empty()
        } by {
            assert(object_names@[i]@ == target.object_name@);
            assert(grant_tos@[i]@ == "ROLE"@);
            assert(grants@[i]@ == ""@);
        }
    }
    let b = GrantsBlock {
        privileges,
        object_name: object_names,
        object_id: object_ids,
        grant_to: grant_tos,
        name: names,
        grants,
    };
    assert forall|i: int| 0 <= i < b.num_rows() implies #[trigger] b.object_row_is(
        i,
        object_grant_pairs(roles@, ownerships@, *target)[i],
        *target,
    ) by {
        assert(b.privileges@[i] == privileges@[i]);
    }
    b
}

// ---------------------------------------------------------------------------
// The table function
// ---------------------------------------------------------------------------

/// The `show_grants` table function, with its arguments:
/// `show_grants('user'|'role', name)` or
/// `show_grants('table'|'database'|'udf'|'stage', name[, catalog[, database]])`.
#[derive(Debug)]
pub struct ShowGrants {
    pub grant_type: String,
    pub name: String,
    pub catalog: String,
    pub db_name: String,
    pub table_info: TableInfo,
}

/// A column of the `show_grants` schema: its name and whether it is a
/// nullable string (`Some(true)`), a string (`Some(false)`) or a nullable
/// UInt64 (`None`).
pub open spec fn field_is(f: TableField, name: Seq<char>, kind: Option<bool>) -> bool {
    &&& f.name@ == name
    &&& match kind {
        Some(false) => f.data_type == DataType::String,
        Some(true) => f.data_type == DataType::Nullable(Box::new(DataType::String)),
        None => f.data_type == DataType::Nullable(Box::new(DataType::UInt64)),
    }
}

/// The schema of `show_grants`.
pub open spec fn is_show_grants_schema(fields: Seq<TableField>) -> bool {
    &&& fields.len() == 6
    &&& field_is(fields[0], "privileges"@, Some(false))
    &&& field_is(fields[1], "object_name"@, Some(false))
    &&& field_is(fields[2], "object_id"@, None)
    &&& field_is(fields[3], "grant_to"@, Some(false))
    &&& field_is(fields[4], "name"@, Some(false))
    &&& field_is(fields[5], "grants"@, Some(true))
}

/// All arguments are strings.
pub open spec fn all_strings(args: Seq<Scalar>) -> bool {
    forall|i: int| 0 <= i < args.len() ==> #[trigger] args[i] is String
}

/// The text of a string argument.
pub open spec fn arg_text(a: Scalar) -> Seq<char> {
    match a {
        Scalar::String(s) => s@,
        Scalar::Other(_) => Seq::empty(),
    }
}

fn field(name: &str, data_type: DataType) -> (f: TableField)
    ensures
        f.name@ == name@,
        f.data_type == data_type,
{
    TableField { name: name.to_owned(), data_type }
}

fn arg_string(a: &Scalar) -> (s: String)
    requires
        a is String,
    ensures
        s@ == arg_text(*a),
{
    match a {
        Scalar::String(s) => s.clone(),
        Scalar::Other(_) => String::new(),
    }
}

impl ShowGrants {
    /// The schema of the table: privileges, object_name, object_id (a
    /// nullable UInt64), grant_to, name, and grants (a nullable string).
    pub fn schema() -> (fields: Vec<TableField>)
        ensures
            is_show_grants_schema(fields@),
    {
        let mut v: Vec<TableField> = Vec::new();
        v.push(field("privileges", DataType::String));
        v.push(field("object_name", DataType::String));
        v.push(field("object_id", DataType::Nullable(Box::new(DataType::UInt64))));
        v.push(field("grant_to", DataType::String));
        v.push(field("name", DataType::String));
        v.push(field("grants", DataType::Nullable(Box::new(DataType::String))));
        v
    }

    /// Creates the table function from its arguments: two to four strings,
    /// the grantee or object kind, the name, and for objects the catalog and
    /// the database.
    pub fn create(database_name: &str, table_func_name: &str, table_id: u64, args: Vec<Scalar>) -> (r:
        Result<ShowGrants, ErrorCode>)
        ensures
            (args@.len() < 2 || args@.len() > 4) ==> (r matches Err(
                ErrorCode::NumberArgumentsNotMatch(m),
            ) && m@ == variadic_args_message(table_func_name@, 2, 4, args@.len())),
            (2 <= args@.len() <= 4 && !all_strings(args@)) ==> (r matches Err(
                ErrorCode::BadDataValueType(m),
            ) && m@ == "Expected String type, but got "@ + scalars_debug(args@)),
            (2 <= args@.len() <= 4 && all_strings(args@)) ==> (r matches Ok(sg) && {
                &&& sg.grant_type@ == arg_text(args@[0])
                &&& sg.name@ == arg_text(args@[1])
                &&& sg.catalog@ == (if args@.len() >= 3 {
                    arg_text(args@[2])
                } else {
                    Seq::empty()
                })
                &&& sg.db_name@ == (if args@.len() == 4 {
                    arg_text(args@[3])
                } else {
                    Seq::empty()
                })
                &&& sg.table_info.table_id == table_id
                &&& sg.table_info.seq == 0
                &&& sg.table_info.desc@ == table_function_desc(database_name@, table_func_name@)
                &&& sg.table_info.name@ == table_func_name@
                &&& sg.table_info.engine@ == "show_grants"@
                &&& is_show_grants_schema(sg.table_info.schema@)
            }),
    {
        validate_function_arg(table_func_name, args.len(), Some((2, 4)), 2)?;
        let mut i: usize = 0;
        while i < args.len()
            invariant
                i <= args.len(),
                2 <= args.len() <= 4,
                forall|k: int| 0 <= k < i ==> #[trigger] args@[k] is String,
            decreases args.len() - i,
        {
            match &args[i] {
                Scalar::String(_) => {},
                Scalar::Other(_) => {
                    let d = scalars_debug_string(&args);
                    return Err(
                        ErrorCode::BadDataValueType(
                            concat("Expected String type, but got ", d.as_str()),
                        ),
                    );
                },
            }
            i = i + 1;
        }
        let grant_type = arg_string(&args[0]);
        let name = arg_string(&args[1]);
        let (catalog, db_name) = if args.len() == 3 {
            (arg_string(&args[2]), String::new())
        } else if args.len() == 4 {
            (arg_string(&args[2]), arg_string(&args[3]))
        } else {
            (String::new(), String::new())
        };
        let table_info = TableInfo {
            table_id,
            seq: 0,
            desc: table_function_desc_string(database_name, table_func_name),
            name: table_func_name.to_owned(),
            engine: "show_grants".to_owned(),
            created_on: 0,
            updated_on: 0,
            schema: Self::schema(),
        };
        Ok(ShowGrants { grant_type, name, catalog, db_name, table_info })
    }

    /// The name of the table function.
    pub fn function_name(&self) -> (s: &str)
        ensures
            s@ == self.table_info.name@,
    {
        self.table_info.name.as_str()
    }

    /// The arguments the table function was created with, the missing
    /// catalog and database as empty strings.
    pub fn table_args(&self) -> (args: Vec<Scalar>)
        ensures
            args@.len() == 4,
            all_strings(args@),
            arg_text(args@[0]) == self.grant_type@,
            arg_text(args@[1]) == self.name@,
            arg_text(args@[2]) == self.catalog@,
            arg_text(args@[3]) == self.db_name@,
    {
        let mut v: Vec<Scalar> = Vec::new();
        v.push(Scalar::String(self.grant_type.clone()));
        v.push(Scalar::String(self.name.clone()));
        v.push(Scalar::String(self.catalog.clone()));
        v.push(Scalar::String(self.db_name.clone()));
        v
    }
}

/// Creating `show_grants` from four string arguments and reading its
/// arguments back gives the same four strings.
pub proof fn lemma_show_grants_args_roundtrip(args: Seq<Scalar>, sg: ShowGrants)
    requires
        args.len() == 4,
        all_strings(args),
        sg.grant_type@ == arg_text(args[0]),
        sg.name@ == arg_text(args[1]),
        sg.catalog@ == arg_text(args[2]),
        sg.db_name@ == arg_text(args[3]),
    ensures
        forall|out: Seq<Scalar>|
            out.len() == 4 && all_strings(out) && arg_text(out[0]) == sg.grant_type@ && arg_text(
                out[1],
            ) == sg.name@ && arg_text(out[2]) == sg.catalog@ && arg_text(out[3]) == sg.db_name@
                ==> forall|i: int| 0 <= i < 4 ==> #[trigger] arg_text(out[i]) == arg_text(args[i]),
{
}

/// Who an account's grants are shown for: `USER` and the user's name, or
/// `ROLE` and the role's name.
pub open spec fn account_grantee(kind: AccountKind, user_name: Seq<char>, role_name: Seq<char>) -> (
    Seq<char>,
    Seq<char>,
) {
    match kind {
        AccountKind::User => ("USER"@, user_name),
        AccountKind::Role => ("ROLE"@, role_name),
    }
}

/// The block of the grants of an account of kind `kind`: the rows as
/// collected, each shown granted to `USER` and the user's name `user_name`
/// (as the user is stored), or to `ROLE` and the role's name `role_name`.
pub fn account_kind_grants_block(
    kind: &AccountKind,
    user_name: &str,
    role_name: &str,
    rows: GrantRows,
) -> (b: GrantsBlock)
    requires
        rows.wf(),
    ensures
        b.columns_agree(),
        b.num_rows() == rows.view_rows().len(),
        forall|i: int| 0 <= i < b.num_rows() ==> #[trigger] b.row(i) == rows.view_rows()[i],
        forall|i: int|
            0 <= i < b.num_rows() ==> #[trigger] b.grant_to@[i]@ == account_grantee(
                *kind,
                user_name@,
                role_name@,
            ).0 && b.name@[i]@ == account_grantee(*kind, user_name@, role_name@).1,
{
    match kind {
        AccountKind::User => account_grants_block("USER", user_name, rows),
        AccountKind::Role => account_grants_block("ROLE", role_name, rows),
    }
}

/// The name of an account as its grants name it: the user's displayed
/// identity, or ``ROLE `name` `` for a role.
pub fn account_identity(kind: &AccountKind, user_display: &str, role_name: &str) -> (s: String)
    ensures
        *kind == AccountKind::User ==> s@ == user_display@,
        *kind == AccountKind::Role ==> s@ == "ROLE `"@ + role_name@ + "`"@,
{
    match kind {
        AccountKind::User => user_display.to_owned(),
        AccountKind::Role => role_identity(role_name),
    }
}

/// A grant entry on a table or database named by catalog, database (and
/// table) is shown as one more row: its privileges, the object named
/// `catalog.database.table` (or `catalog.database.*`), no id, and the entry's
/// text granted to the account; unless the entry's privilege reads
/// `ownership`.
pub proof fn lemma_named_object_rows(es: Seq<GrantEntry>, e: GrantEntry, identity: Seq<char>)
    requires
        lowercase(priv_text(e)) != "ownership"@,
    ensures
        e.object matches GrantObject::Table(cat, db, t) ==> collect_entries(es.push(e), identity).rows
            == collect_entries(es, identity).rows.push(
            (
                if e.has_all_available_privileges {
                    "ALL"@
                } else {
                    e.privileges@
                },
                cat@ + "."@ + db@ + "."@ + t@,
                None::<u64>,
                e.display@ + " TO "@ + identity,
            ),
        ),
        e.object matches GrantObject::Database(cat, db) ==> collect_entries(es.push(e), identity).rows
            == collect_entries(es, identity).rows.push(
            (
                if e.has_all_available_privileges {
                    "ALL"@
                } else {
                    e.privileges@
                },
                cat@ + "."@ + db@ + ".*"@,
                None::<u64>,
                e.display@ + " TO "@ + identity,
            ),
        ),
{
    assert(es.push(e).drop_last() =~= es);
    assert(es.push(e).last() == e);
}

/// Objects are the same only when they are equal: the same kind, with the
/// same names and ids. In particular two tables by id are the same only
/// when catalog, database id and table id all agree.
pub proof fn lemma_same_object_is_equality(a: GrantObject, b: GrantObject)
    ensures
        same_object(a, a),
        same_object(a, b) == same_object(b, a),
        a matches GrantObject::TableById(c1, d1, t1) ==> (same_object(a, b) ==> (b matches GrantObject::TableById(c2, d2, t2) && c1@ == c2@ && d1 == d2 && t1 == t2)),
        a matches GrantObject::Table(c1, d1, t1) ==> (same_object(a, b) ==> (b matches GrantObject::Table(c2, d2, t2) && c1@ == c2@ && d1@ == d2@ && t1@ == t2@)),
        a matches GrantObject::DatabaseById(c1, d1) ==> (same_object(a, b) ==> (b matches GrantObject::DatabaseById(c2, d2) && c1@ == c2@ && d1 == d2)),
        a matches GrantObject::Database(c1, d1) ==> (same_object(a, b) ==> (b matches GrantObject::Database(c2, d2) && c1@ == c2@ && d1@ == d2@)),
        a matches GrantObject::UDF(x) ==> (same_object(a, b) ==> (b matches GrantObject::UDF(y) && x@ == y@)),
        a matches GrantObject::Stage(x) ==> (same_object(a, b) ==> (b matches GrantObject::Stage(y) && x@ == y@)),
        a matches GrantObject::Warehouse(x) ==> (same_object(a, b) ==> (b matches GrantObject::Warehouse(y) && x@ == y@)),
        (a is Global && same_object(a, b)) ==> b is Global,
{
}

/// Every (privileges, role) pair listed for an object comes from one of the
/// role's entries on that very object, with that entry's privileges: the
/// entry `j` returned.
pub proof fn lemma_object_pairs_come_from_entries_on_object(
    role_name: Seq<char>,
    es: Seq<GrantEntry>,
    object: GrantObject,
    i: int,
) -> (j: int)
    requires
        0 <= i < role_object_pairs(role_name, es, object).len(),
    ensures
        0 <= j < es.len(),
        same_object(es[j].object, object),
        es[j].privileges@ == role_object_pairs(role_name, es, object)[i].0,
        role_object_pairs(role_name, es, object)[i].1 == role_name,
    decreases es.len(),
{
    let prev = es.drop_last();
    let now = role_object_pairs(role_name, es, object);
    let before = role_object_pairs(role_name, prev, object);
    if i < before.len() {
        assert(now[i] == before[i]);
        let j = lemma_object_pairs_come_from_entries_on_object(role_name, prev, object, i);
        assert(es[j] == prev[j]);
        j
    } else {
        let j = es.len() - 1;
        assert(es[j] == es.last());
        j
    }
}

} // verus!
