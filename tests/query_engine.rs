use query_engine::bridge::{resume, unmarshal_u32, BridgeFault};
use query_engine::engine::{
    ConfigFault, Driver, DriverMember, QueryEngine, QueryKind, QueryResult,
};
use query_engine::fault_registry::{FaultRegistry, InstallFault};
use query_engine::query::{insert_command, select_command, translate, InsertQuery, Query, SelectQuery};
use wasm_bindgen::JsValue;

fn object_of(key: &str, value: serde_json::Value) -> serde_json::Value {
    let mut m = serde_json::Map::new();
    m.insert(key.to_string(), value);
    serde_json::Value::Object(m)
}

fn insert(table: &str, field: &str, data: serde_json::Value) -> Query {
    Query::Insert(InsertQuery { data, table: table.to_string(), field: field.to_string() })
}

fn select(table: &str, field: &str) -> Query {
    Query::Select(SelectQuery { table: table.to_string(), field: field.to_string() })
}

#[test]
fn insert_translation_is_exact_and_repeatable() {
    let q = insert("t", "f", object_of("a", serde_json::Value::from(1)));
    let first = translate(&q);
    assert_eq!(first, "INSERT INTO t (f) VALUES (json('{\"a\":1}'))");
    assert_eq!(translate(&q), first);
}

#[test]
fn select_translation_is_exact() {
    let q = select("t", "f");
    assert_eq!(translate(&q), "SELECT \"id\", json(\"f\") as \"f\" FROM \"t\" ORDER BY \"id\" DESC");
    assert_eq!(translate(&q), translate(&select("t", "f")));
}

#[test]
fn insert_dispatches_its_command_to_execute_raw() {
    let q = insert("users", "profile", object_of("name", serde_json::Value::from("a")));
    let d = QueryEngine::plan(&q);
    assert_eq!(d.kind, QueryKind::Insert);
    assert_eq!(d.member, DriverMember::ExecuteRaw);
    assert_eq!(d.command, "INSERT INTO users (profile) VALUES (json('{\"name\":\"a\"}'))");
}

#[test]
fn insert_that_delivers_one_is_one_row() {
    let r = QueryEngine::finish_insert(Ok(1));
    assert!(matches!(r, Ok(QueryResult::Insert(1))));
}

#[test]
fn select_dispatches_to_query_raw_and_a_rejection_is_a_boundary_fault() {
    let d = QueryEngine::plan(&select("users", "profile"));
    assert_eq!(d.kind, QueryKind::Select);
    assert_eq!(d.member, DriverMember::QueryRaw);
    assert_eq!(d.command, "SELECT \"id\", json(\"profile\") as \"profile\" FROM \"users\" ORDER BY \"id\" DESC");
    let r = QueryEngine::finish(d.kind, Err(JsValue::NULL));
    assert!(matches!(r, Err(BridgeFault::Boundary(_))));
}

#[test]
fn insert_rejection_is_a_boundary_fault() {
    let r = QueryEngine::finish(QueryKind::Insert, Err(JsValue::UNDEFINED));
    assert!(matches!(r, Err(BridgeFault::Boundary(_))));
}

#[test]
fn select_rows_pass_through() {
    let r = QueryEngine::finish(QueryKind::Select, Ok(JsValue::TRUE));
    assert!(matches!(r, Ok(QueryResult::Select(_))));
}

#[test]
fn dispatch_does_not_depend_on_earlier_queries() {
    let a = QueryEngine::plan(&select("t", "f"));
    let _ = QueryEngine::plan(&insert("u", "g", serde_json::Value::Null));
    let b = QueryEngine::plan(&select("t", "f"));
    assert_eq!(a.kind, b.kind);
    assert_eq!(a.member, b.member);
    assert_eq!(a.command, b.command);
}

#[test]
fn raw_outcomes_pass_through_in_either_mode() {
    assert!(matches!(resume(Ok(JsValue::FALSE)), Ok(_)));
    assert!(matches!(resume(Err(JsValue::NULL)), Err(BridgeFault::Boundary(_))));
}

#[test]
fn decoded_count_passes_through() {
    assert!(matches!(unmarshal_u32(Ok(7)), Ok(7)));
    assert!(matches!(unmarshal_u32(Ok(u32::MAX)), Ok(n) if n == u32::MAX));
}

#[test]
fn data_is_put_in_without_escaping() {
    let q = insert("t", "f", serde_json::Value::from("it's"));
    assert_eq!(translate(&q), "INSERT INTO t (f) VALUES (json('\"it's\"'))");
}

#[test]
fn empty_names_are_not_validated() {
    assert_eq!(insert_command("", "", "null"), "INSERT INTO  () VALUES (json('null'))");
    assert_eq!(select_command("", ""), "SELECT \"id\", json(\"\") as \"\" FROM \"\" ORDER BY \"id\" DESC");
}

#[test]
fn driver_needs_both_functions() {
    assert!(matches!(Driver::from_members(None, Some(JsValue::NULL)), Err(ConfigFault::MissingQueryRaw)));
    assert!(matches!(Driver::from_members(Some(JsValue::NULL), None), Err(ConfigFault::MissingExecuteRaw)));
    assert!(matches!(Driver::from_members(None, None), Err(ConfigFault::MissingQueryRaw)));
    assert!(matches!(Driver::from_members(Some(JsValue::NULL), Some(JsValue::NULL)), Ok(_)));
    assert_eq!(ConfigFault::MissingQueryRaw.message(), "driver has no function `query_raw`");
    assert_eq!(ConfigFault::MissingExecuteRaw.message(), "driver has no function `execute_raw`");
}

#[test]
fn fault_handler_is_installed_once() {
    let mut reg = FaultRegistry::new();
    assert!(!reg.is_installed());
    assert_eq!(reg.report("boom".to_string()), None);
    assert_eq!(reg.install(), Ok(()));
    assert!(reg.is_installed());
    assert_eq!(reg.install(), Err(InstallFault::AlreadyInstalled));
    assert!(reg.is_installed());
    assert_eq!(reg.report("boom".to_string()), Some("boom".to_string()));
}
