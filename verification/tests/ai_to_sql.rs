use bigbytesdb::ai_to_sql::{build_prompt, GPT2SQLSource, GPT2SQLTable, ListedTable};
use bigbytesdb::schema::{DataType, Scalar, TableArgs};
use bigbytesdb::ErrorCode;

fn listed(name: &str, engine: &str, cols: &[&str]) -> ListedTable {
    ListedTable {
        name: name.to_string(),
        engine: engine.to_string(),
        columns: cols.iter().map(|c| c.to_string()).collect(),
    }
}

#[test]
fn create_takes_one_string_argument() {
    let args = TableArgs::new_positioned(vec![Scalar::String("list users".to_string())]);
    let t = GPT2SQLTable::create("default", "ai_to_sql", 12, &args).unwrap();
    assert_eq!(t.prompt, "list users");
    assert_eq!(t.function_name(), "ai_to_sql");
    let info = t.get_table_info();
    assert_eq!(info.table_id, 12);
    assert_eq!(info.desc, "'default'.'ai_to_sql'");
    assert_eq!(info.engine, "ai_to_sql");
    assert_eq!(info.created_on, 0);
    assert_eq!(info.schema.len(), 2);
    assert_eq!(info.schema[1].name, "generated_sql");
    assert_eq!(info.schema[1].data_type, DataType::String);
    let back = t.table_args();
    assert_eq!(back.positioned.len(), 1);
}

#[test]
fn create_argument_errors() {
    let none = TableArgs::new_positioned(vec![]);
    assert_eq!(
        GPT2SQLTable::create("d", "ai_to_sql", 1, &none).err().unwrap(),
        ErrorCode::BadArguments("ai_to_sql must accept exactly 1 positioned args".to_string())
    );
    let named = TableArgs {
        positioned: vec![],
        named: vec![("x".to_string(), Scalar::String("y".to_string()))],
    };
    assert_eq!(
        GPT2SQLTable::create("d", "ai_to_sql", 1, &named).err().unwrap(),
        ErrorCode::BadArguments("ai_to_sql accept positioned args only".to_string())
    );
    let number = TableArgs::new_positioned(vec![Scalar::Other("Number(1)".to_string())]);
    assert_eq!(
        GPT2SQLTable::create("d", "ai_to_sql", 1, &number).err().unwrap(),
        ErrorCode::BadArguments("Expected string argument.".to_string())
    );
}

#[test]
fn prompt_lists_tables_but_not_views_or_streams() {
    let tables = vec![
        listed("Employee", "FUSE", &["id", "name", "department_id"]),
        listed("v1", "VIEW", &["a"]),
        listed("s1", "STREAM", &["b"]),
        listed("Department", "FUSE", &["id", "name"]),
    ];
    let p = build_prompt(&tables, "how many employees?");
    assert_eq!(
        p,
        "### Postgres SQL tables, with their properties:#Employee(id,name,department_id)Department(id,name)#### how many employees?#SELECT"
    );
}

#[test]
fn source_asks_once_then_finishes() {
    let mut s = GPT2SQLSource::create("q".to_string());
    let req = s.request(&vec![]).unwrap();
    assert_eq!(req, "### Postgres SQL tables, with their properties:##### q#SELECT");
    let row = s.complete("default", "count(*) FROM t");
    assert_eq!(row.database, "default");
    assert_eq!(row.generated_sql, "SELECT count(*) FROM t");
    assert!(s.finished);
    assert!(s.request(&vec![]).is_none());
}

#[test]
fn finished_source_needs_no_tables() {
    let mut s = GPT2SQLSource::create("q".to_string());
    assert!(s.needs_tables());
    s.complete("d", "1");
    assert!(!s.needs_tables());
}
