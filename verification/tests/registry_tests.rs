use aggregator::registry::{Bootstrap, ScriptSpec};

fn script(name: &str, source: &str) -> ScriptSpec {
    ScriptSpec {
        name: String::from(name),
        source: String::from(source),
    }
}

fn declared() -> (Vec<ScriptSpec>, Vec<ScriptSpec>) {
    let schemas = vec![script("trades", "CREATE TABLE IF NOT EXISTS trades (...)")];
    let queries = vec![
        script("insert_trade", "INSERT INTO trades VALUES ($1, $2, $3, $4, $5)"),
        script("count_trades", "SELECT count(*) FROM trades"),
    ];
    (schemas, queries)
}

#[test]
fn bootstrap_runs_schemas_then_queries_in_order() {
    let (schemas, queries) = declared();
    let mut b: Bootstrap<u32> = Bootstrap::new(schemas, queries);
    assert!(b.schema_pending());
    assert!(!b.query_pending());
    assert_eq!(b.next_schema().name.as_str(), "trades");
    b.schema_ok();
    assert!(!b.schema_pending());
    assert!(b.query_pending());
    assert_eq!(b.next_query().name.as_str(), "insert_trade");
    b.query_ok(11);
    assert_eq!(b.next_query().name.as_str(), "count_trades");
    b.query_ok(22);
    assert!(!b.query_pending());
    assert!(b.is_complete());
    let registry = b.finish(String::from("connection"));
    let found = registry.statement(&String::from("insert_trade"));
    assert_eq!(found, Some(&11));
    let found = registry.statement(&String::from("count_trades"));
    assert_eq!(found, Some(&22));
    assert_eq!(registry.connection().as_str(), "connection");
}

#[test]
fn schema_failure_ends_the_bootstrap_and_names_the_script() {
    let (schemas, queries) = declared();
    let mut b: Bootstrap<u32> = Bootstrap::new(schemas, queries);
    assert!(b.schema_pending());
    let e = b.fail_schema(String::from("syntax error at or near"));
    assert_eq!(e.script().as_str(), "trades");
    assert_eq!(e.detail().as_str(), "syntax error at or near");
    assert!(!b.schema_pending());
    assert!(!b.query_pending());
    assert!(!b.is_complete());
}

#[test]
fn query_failure_after_one_success_leaves_no_usable_set() {
    let (schemas, queries) = declared();
    let mut b: Bootstrap<u32> = Bootstrap::new(schemas, queries);
    b.schema_ok();
    b.query_ok(11);
    assert!(b.query_pending());
    let e = b.fail_query(String::from("column does not exist"));
    assert_eq!(e.script().as_str(), "count_trades");
    assert!(!b.query_pending());
    assert!(!b.is_complete());
}

#[test]
fn lookup_of_an_undeclared_name_finds_nothing() {
    let (schemas, queries) = declared();
    let mut b: Bootstrap<u32> = Bootstrap::new(schemas, queries);
    b.schema_ok();
    b.query_ok(11);
    b.query_ok(22);
    let registry = b.finish(0u8);
    assert_eq!(registry.statement(&String::from("delete_trade")), None);
}

#[test]
fn lookup_of_a_repeated_name_finds_the_first_declaration() {
    let schemas: Vec<ScriptSpec> = Vec::new();
    let queries = vec![
        script("insert_trade", "INSERT INTO trades VALUES ($1)"),
        script("insert_trade", "INSERT INTO trades VALUES ($1, $2)"),
    ];
    let mut b: Bootstrap<u32> = Bootstrap::new(schemas, queries);
    b.query_ok(1);
    b.query_ok(2);
    let registry = b.finish(0u8);
    assert_eq!(registry.statement(&String::from("insert_trade")), Some(&1));
}

#[test]
fn empty_declarations_complete_at_once() {
    let b: Bootstrap<u32> = Bootstrap::new(Vec::new(), Vec::new());
    assert!(!b.schema_pending());
    assert!(!b.query_pending());
    assert!(b.is_complete());
}
