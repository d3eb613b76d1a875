use bigbytesdb::system_database::{
    disable_system_tables_contains, system_table_kinds, InMemoryMetas, SystemDatabase, SystemTable, SystemTableKind,
};

fn names(names: &[&str]) -> Vec<String> {
    names.iter().map(|n| n.to_string()).collect()
}

#[test]
fn all_tables_load_without_restriction() {
    let mut meta = InMemoryMetas::new(1, 100);
    let ts = names(&["one", "configs", "clusters", "tables"]);
    let db = SystemDatabase::create(&mut meta, false, ts);
    assert_eq!(meta.tables.len(), 4);
    assert_eq!(meta.tables[1].table, SystemTable { name: "configs".to_string(), id: 101 });
    assert!(meta.tables.iter().all(|t| t.db_name == "system"));
    assert_eq!(db.db_info.database_id, 1);
    assert_eq!(meta.next_db_id, 2);
    assert_eq!(meta.next_table_id, 104);
    assert_eq!(db.db_info.name, "system");
    assert_eq!(db.db_info.tenant, "dummy");
    assert_eq!(db.db_info.engine, "SYSTEM");
    assert_eq!(db.db_info.seq, 0);
    assert_eq!(db.name(), "system");
}

#[test]
fn restricted_load_hides_sensitive_tables() {
    let mut meta = InMemoryMetas::new(5, 0);
    let ts = names(&["one", "configs", "tracing", "clusters", "malloc_stats", "build_options", "users"]);
    let db = SystemDatabase::create(&mut meta, true, ts);
    let names: Vec<&str> = meta.tables.iter().map(|t| t.table.name.as_str()).collect();
    assert_eq!(names, vec!["one", "users"]);
    assert_eq!(meta.tables[1].table.id, 6);
    assert_eq!(db.get_db_info().database_id, 5);
    assert_eq!(meta.next_table_id, 7);
}

#[test]
fn hidden_table_names() {
    assert!(disable_system_tables_contains("configs"));
    assert!(disable_system_tables_contains("build_options"));
    assert!(!disable_system_tables_contains("Configs"));
    assert!(!disable_system_tables_contains("settings"));
}

#[test]
fn ids_are_handed_out_in_sequence() {
    let mut meta = InMemoryMetas::new(10, 20);
    assert_eq!(meta.next_table_id(), 20);
    assert_eq!(meta.next_table_id(), 21);
    assert_eq!(meta.next_db_id(), 10);
    assert_eq!(meta.next_db_id(), 11);
}

#[test]
fn system_tables_are_created_in_order() {
    let with = system_table_kinds(true);
    let without = system_table_kinds(false);
    assert_eq!(with.len(), 48);
    assert_eq!(without.len(), 46);
    assert_eq!(with[0], SystemTableKind::OneTable);
    assert_eq!(with[15], SystemTableKind::MallocStatsTable);
    assert_eq!(without[15], SystemTableKind::ColumnsTable);
    assert_eq!(*without.last().unwrap(), SystemTableKind::DictionariesTable);
}
