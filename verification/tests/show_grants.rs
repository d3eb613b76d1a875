use bigbytesdb::schema::{DataType, Scalar};
use bigbytesdb::show_grants::{
    account_grants_block, account_identity, account_kind_grants_block, check_role_grants_access, check_user_grants_access, collect_account_grants,
    db_catalogs, db_ids_of_catalog, grants_query, object_grant_target, object_grants_block,
    parse_account_kind, resolve_db_grants, resolve_table_grants, role_identity, role_roles,
    table_catalogs, table_db_ids_of_catalog, table_ids_of_catalog, user_roles, AccountKind,
    GrantEntry, GrantObject, GrantRows, GrantsQuery, Ownership, OwnershipObject, RoleGrants,
    ShowGrants,
};
use bigbytesdb::ErrorCode;

fn entry(object: GrantObject, privileges: &str, all: bool, display: &str) -> GrantEntry {
    GrantEntry {
        object,
        privileges: privileges.to_string(),
        has_all_available_privileges: all,
        display: display.to_string(),
    }
}

#[test]
fn named_grants_become_rows() {
    let entries = vec![
        entry(GrantObject::Global, "SELECT", false, "GRANT SELECT ON *.*"),
        entry(
            GrantObject::Database("default".to_string(), "db1".to_string()),
            "SELECT,INSERT",
            true,
            "GRANT ALL ON 'default'.'db1'.*",
        ),
        entry(GrantObject::Stage("s1".to_string()), "Ownership", false, "GRANT OWNERSHIP ON STAGE s1"),
        entry(GrantObject::UDF("f1".to_string()), "USAGE", false, "GRANT USAGE ON UDF f1"),
    ];
    let acc = collect_account_grants(&entries, &vec![], &vec!["public".to_string()], "'u1'@'%'");
    assert_eq!(acc.rows.privileges, vec!["SELECT", "ALL", "USAGE"]);
    assert_eq!(acc.rows.object_name, vec!["*.*", "default.db1.*", "f1"]);
    assert_eq!(acc.rows.object_id, vec![None, None, None]);
    assert_eq!(
        acc.rows.grants,
        vec![
            "GRANT SELECT ON *.* TO 'u1'@'%'",
            "GRANT ALL ON 'default'.'db1'.* TO 'u1'@'%'",
            "GRANT USAGE ON UDF f1 TO 'u1'@'%'"
        ]
    );
}

#[test]
fn grants_by_id_are_resolved_by_catalog() {
    let entries = vec![
        entry(GrantObject::DatabaseById("default".to_string(), 7), "SELECT", false, "x"),
        entry(GrantObject::TableById("default".to_string(), 7, 70), "INSERT", false, "y"),
        entry(GrantObject::TableById("hive".to_string(), 8, 80), "DELETE", false, "z"),
    ];
    let ownerships = vec![
        Ownership {
            object: OwnershipObject::Database { catalog_name: "default".to_string(), db_id: 9 },
            role: "r1".to_string(),
        },
        Ownership {
            object: OwnershipObject::Stage { name: "st".to_string() },
            role: "r2".to_string(),
        },
        Ownership {
            object: OwnershipObject::UDF { name: "fn".to_string() },
            role: "r1".to_string(),
        },
    ];
    let acc = collect_account_grants(&entries, &ownerships, &vec!["r1".to_string()], "ROLE `r1`");
    assert_eq!(acc.rows.privileges, vec!["OWNERSHIP"]);
    assert_eq!(acc.rows.grants, vec!["GRANT OWNERSHIP ON UDF fn TO ROLE `r1`"]);
    assert_eq!(db_catalogs(&acc), vec!["default"]);
    assert_eq!(table_catalogs(&acc), vec!["default", "hive"]);
    assert_eq!(db_ids_of_catalog(&acc, "default"), vec![7, 9]);
    assert_eq!(table_db_ids_of_catalog(&acc, "default"), vec![7]);
    assert_eq!(table_ids_of_catalog(&acc, "hive"), vec![80]);

    let mut rows = GrantRows::new();
    resolve_db_grants(
        &acc,
        "default",
        &vec![7, 9],
        &vec![Some("db7".to_string()), None],
        "ROLE `r1`",
        &mut rows,
    );
    assert_eq!(rows.len(), 1);
    assert_eq!(rows.object_name, vec!["db7"]);
    assert_eq!(rows.object_id, vec![Some(7)]);
    assert_eq!(rows.grants, vec!["GRANT SELECT ON 'default'.'db7'.* TO ROLE `r1`"]);

    resolve_table_grants(
        &acc,
        "default",
        &vec![7],
        &vec![Some("db7".to_string())],
        &vec![70],
        &vec![Some("t70".to_string())],
        "ROLE `r1`",
        &mut rows,
    );
    assert_eq!(rows.len(), 2);
    assert_eq!(rows.object_name[1], "default.db7.t70");
    assert_eq!(rows.object_id[1], Some(70));
    assert_eq!(rows.grants[1], "GRANT INSERT ON 'default'.'db7'.'t70' TO ROLE `r1`");
}

#[test]
fn account_admin_skips_ownerships() {
    let ownerships = vec![Ownership {
        object: OwnershipObject::Stage { name: "st".to_string() },
        role: "account_admin".to_string(),
    }];
    let acc = collect_account_grants(&vec![], &ownerships, &vec!["account_admin".to_string()], "u");
    assert_eq!(acc.rows.len(), 0);
}

#[test]
fn account_block_repeats_grantee() {
    let mut rows = GrantRows::new();
    rows.push("ALL".to_string(), "*.*".to_string(), None, "GRANT ALL ON *.* TO u".to_string());
    rows.push("SELECT".to_string(), "d.*".to_string(), Some(3), "g".to_string());
    let b = account_grants_block("USER", "u", rows);
    assert_eq!(b.grant_to, vec!["USER", "USER"]);
    assert_eq!(b.name, vec!["u", "u"]);
    assert_eq!(b.object_id, vec![None, Some(3)]);
}

#[test]
fn account_kind_is_user_or_role() {
    assert_eq!(parse_account_kind("user"), Ok(AccountKind::User));
    assert_eq!(parse_account_kind("role"), Ok(AccountKind::Role));
    assert_eq!(
        parse_account_kind("USER"),
        Err(ErrorCode::InvalidArgument("Expected 'user|role', but got \"USER\"".to_string()))
    );
}

#[test]
fn grants_query_is_case_insensitive() {
    assert_eq!(grants_query("ROLE"), Ok(GrantsQuery::Account));
    assert_eq!(grants_query("Table"), Ok(GrantsQuery::Object));
    assert_eq!(
        grants_query("view"),
        Err(ErrorCode::InvalidArgument(
            "Expected 'user|role|table|database|udf|stage', but got \"view\"".to_string()
        ))
    );
}

#[test]
fn access_checks_list_sorted_roles() {
    assert!(check_user_grants_access("u1", "'u1'@'%'", vec![], "u1", false).is_ok());
    assert!(check_user_grants_access("u1", "'u1'@'%'", vec![], "u2", true).is_ok());
    assert_eq!(
        check_user_grants_access("u1", "'u1'@'%'", vec!["r2".to_string(), "r1".to_string()], "u2", false),
        Err(ErrorCode::PermissionDenied(
            "Permission denied: privilege [Grant] is required on *.* for user 'u1'@'%' with roles [r1,r2]"
                .to_string()
        ))
    );
    assert!(check_role_grants_access(&vec!["r1".to_string()], "u", vec![], "r1", false).is_ok());
    assert!(check_role_grants_access(&vec!["r1".to_string()], "u", vec![], "r9", false).is_err());
}

#[test]
fn role_names_and_lists() {
    assert_eq!(role_identity("r1"), "ROLE `r1`");
    assert_eq!(user_roles(vec!["b".to_string(), "a".to_string()]), vec!["a", "b"]);
    assert_eq!(role_roles(vec!["x".to_string()], "me"), vec!["x", "me"]);
}

#[test]
fn object_targets_and_denials() {
    let t = object_grant_target("table", "t1", "default", 1, 2, true, "u").unwrap();
    assert_eq!(t.object_id, Some(2));
    assert_eq!(t.object, GrantObject::TableById("default".to_string(), 1, 2));
    assert_eq!(
        object_grant_target("database", "d1", "default", 1, 0, false, "u").unwrap_err(),
        ErrorCode::PermissionDenied("Permission denied: No privilege on database d1 for user u.".to_string())
    );
    assert_eq!(
        object_grant_target("view", "v", "default", 0, 0, true, "u").unwrap_err(),
        ErrorCode::InvalidArgument("Expected 'table|database|udf|stage', but got \"view\"".to_string())
    );
}

#[test]
fn object_block_lists_roles_then_owners() {
    let target = object_grant_target("udf", "f1", "default", 0, 0, true, "u").unwrap();
    let roles = vec![
        RoleGrants {
            name: "r1".to_string(),
            entries: vec![entry(GrantObject::UDF("f1".to_string()), "USAGE", false, "")],
        },
        RoleGrants {
            name: "r2".to_string(),
            entries: vec![entry(GrantObject::UDF("f2".to_string()), "USAGE", false, "")],
        },
    ];
    let owners = vec![Ownership { object: OwnershipObject::UDF { name: "f1".to_string() }, role: "r3".to_string() }];
    let b = object_grants_block(&roles, &owners, &target);
    assert_eq!(b.privileges, vec!["USAGE", "OWNERSHIP"]);
    assert_eq!(b.name, vec!["r1", "r3"]);
    assert_eq!(b.grant_to, vec!["ROLE", "ROLE"]);
    assert_eq!(b.object_name, vec!["f1", "f1"]);
}

#[test]
fn show_grants_arguments_round_trip() {
    let args = vec![
        Scalar::String("user".to_string()),
        Scalar::String("u1".to_string()),
        Scalar::String("default".to_string()),
        Scalar::String("db".to_string()),
    ];
    let sg = ShowGrants::create("system", "show_grants", 5, args).unwrap();
    assert_eq!(sg.function_name(), "show_grants");
    assert_eq!(sg.table_info.desc, "'system'.'show_grants'");
    assert_eq!(sg.table_info.table_id, 5);
    let back = sg.table_args();
    assert_eq!(back.len(), 4);
    match &back[3] {
        Scalar::String(s) => assert_eq!(s, "db"),
        _ => panic!("string expected"),
    }
    let schema = ShowGrants::schema();
    assert_eq!(schema.len(), 6);
    assert_eq!(schema[2].data_type, DataType::Nullable(Box::new(DataType::UInt64)));
}

#[test]
fn show_grants_argument_errors() {
    let r = ShowGrants::create("system", "show_grants", 5, vec![Scalar::String("user".to_string())]);
    assert_eq!(
        r.err().unwrap(),
        ErrorCode::NumberArgumentsNotMatch(
            "Function `show_grants` expect to have [2, 4] arguments, but got 1".to_string()
        )
    );
    let r = ShowGrants::create(
        "system",
        "show_grants",
        5,
        vec![Scalar::String("user".to_string()), Scalar::Other("Number(1)".to_string())],
    );
    assert_eq!(
        r.err().unwrap(),
        ErrorCode::BadDataValueType(
            "Expected String type, but got [String(\"user\"), Number(1)]".to_string()
        )
    );
}

#[test]
fn account_kind_fixes_grantee_columns() {
    let mut rows = GrantRows::new();
    rows.push("ALL".to_string(), "*.*".to_string(), None, "g".to_string());
    let b = account_kind_grants_block(&AccountKind::User, "u1", "ignored", rows);
    assert_eq!(b.grant_to, vec!["USER"]);
    assert_eq!(b.name, vec!["u1"]);
    let mut rows = GrantRows::new();
    rows.push("ALL".to_string(), "*.*".to_string(), None, "g".to_string());
    rows.push("SELECT".to_string(), "d".to_string(), Some(1), "h".to_string());
    let b = account_kind_grants_block(&AccountKind::Role, "ignored", "r1", rows);
    assert_eq!(b.grant_to, vec!["ROLE", "ROLE"]);
    assert_eq!(b.name, vec!["r1", "r1"]);
    assert_eq!(account_identity(&AccountKind::User, "'u1'@'%'", "x"), "'u1'@'%'");
    assert_eq!(account_identity(&AccountKind::Role, "x", "r1"), "ROLE `r1`");
}
