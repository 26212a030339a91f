use swissknife_ai_sdk::error::Error;
use swissknife_ai_sdk::json::{JsonNumber, JsonValue};
use swissknife_ai_sdk::registry::ToolRegistry;
use swissknife_ai_sdk::table::KeyedTable;
use swissknife_ai_sdk::tool::{
    get_array_param, get_bool_param, get_i64_param, get_object_param, get_required_i64_param,
    get_required_string_param, get_string_param, ToolSpec,
};

fn spec(id: &str, category: &str) -> ToolSpec {
    ToolSpec {
        id: id.to_string(),
        name: format!("{} tool", id),
        description: format!("does {}", id),
        category: category.to_string(),
        parameters: JsonValue::Null,
    }
}

#[test]
fn register_then_get_finds_the_tool() {
    let mut r: ToolRegistry<u32> = ToolRegistry::new();
    assert!(r.is_empty());
    r.register(spec("a", "x"), 1);
    r.register(spec("b", "y"), 2);
    assert_eq!(r.get("a"), Some(&1));
    assert_eq!(r.get("b"), Some(&2));
    assert_eq!(r.get("c"), None);
    assert!(r.contains("a"));
    assert_eq!(r.len(), 2);
    assert_eq!(r.spec("b").map(|s| s.category.as_str()), Some("y"));
}

#[test]
fn registering_an_id_again_replaces_in_place() {
    let mut r: ToolRegistry<u32> = ToolRegistry::new();
    r.register(spec("a", "x"), 1);
    r.register(spec("b", "x"), 2);
    r.register(spec("a", "z"), 3);
    assert_eq!(r.len(), 2);
    assert_eq!(r.get("a"), Some(&3));
    assert_eq!(r.list(), vec!["a".to_string(), "b".to_string()]);
}

#[test]
fn remove_after_register_restores() {
    let mut r: ToolRegistry<u32> = ToolRegistry::default();
    r.register(spec("keep", "x"), 1);
    r.register(spec("tmp", "x"), 2);
    assert_eq!(r.remove("tmp"), Some(2));
    assert_eq!(r.remove("tmp"), None);
    assert!(!r.contains("tmp"));
    assert_eq!(r.list(), vec!["keep".to_string()]);
}

#[test]
fn find_reports_missing_tools() {
    let mut r: ToolRegistry<u32> = ToolRegistry::new();
    r.register(spec("a", "x"), 1);
    assert_eq!(*r.find("a").unwrap(), 1);
    match r.find("zzz") {
        Err(Error::ToolNotFound(id)) => assert_eq!(id, "zzz"),
        other => panic!("unexpected {:?}", other),
    }
}

#[test]
fn categories_are_sorted_and_unique() {
    let mut r: ToolRegistry<()> = ToolRegistry::new();
    r.register(spec("1", "search"), ());
    r.register(spec("2", "crm"), ());
    r.register(spec("3", "search"), ());
    r.register(spec("4", "Banking"), ());
    r.register(spec("5", "crm"), ());
    assert_eq!(r.categories(), vec!["Banking".to_string(), "crm".to_string(), "search".to_string()]);
    assert_eq!(r.list_by_category("crm"), vec!["2".to_string(), "5".to_string()]);
    let defs = r.definitions_by_category("search");
    assert_eq!(defs.len(), 2);
    assert_eq!(defs[0].id, "1");
    assert_eq!(defs[1].id, "3");
    assert_eq!(r.definitions().len(), 5);
    assert!(r.list_by_category("none").is_empty());
}

fn params() -> KeyedTable<JsonValue> {
    let mut p = KeyedTable::new();
    p.set("name".to_string(), JsonValue::String("bob".to_string()));
    p.set("count".to_string(), JsonValue::Number(JsonNumber::NegInt(-3)));
    p.set("big".to_string(), JsonValue::Number(JsonNumber::PosInt(u64::MAX)));
    p.set("flag".to_string(), JsonValue::Bool(true));
    p.set("list".to_string(), JsonValue::Array(vec![JsonValue::Null, JsonValue::Bool(false)]));
    p.set("obj".to_string(), JsonValue::Object(vec![("k".to_string(), JsonValue::Null)]));
    p
}

#[test]
fn string_params() {
    let p = params();
    assert_eq!(get_string_param(&p, "name"), Some("bob".to_string()));
    assert_eq!(get_string_param(&p, "flag"), None);
    assert_eq!(get_required_string_param(&p, "name").unwrap(), "bob");
    match get_required_string_param(&p, "missing") {
        Err(Error::MissingParameter(k)) => assert_eq!(k, "missing"),
        other => panic!("unexpected {:?}", other),
    }
}

#[test]
fn integer_params() {
    let p = params();
    assert_eq!(get_i64_param(&p, "count"), Some(-3));
    assert_eq!(get_i64_param(&p, "big"), None);
    assert_eq!(get_required_i64_param(&p, "count").unwrap(), -3);
    assert!(matches!(get_required_i64_param(&p, "name"), Err(Error::MissingParameter(k)) if k == "name"));
}

#[test]
fn other_params() {
    let p = params();
    assert_eq!(get_bool_param(&p, "flag"), Some(true));
    assert_eq!(get_bool_param(&p, "name"), None);
    assert_eq!(get_array_param(&p, "list").map(|v| v.len()), Some(2));
    assert!(get_array_param(&p, "obj").is_none());
    let o = get_object_param(&p, "obj").unwrap();
    assert_eq!(o.len(), 1);
    assert_eq!(o[0].0, "k");
    assert!(get_object_param(&p, "flag").is_none());
}

#[test]
fn keyed_table_set_get_remove() {
    let mut t: KeyedTable<u8> = KeyedTable::new();
    t.set("x".to_string(), 1);
    t.set("y".to_string(), 2);
    t.set("x".to_string(), 9);
    assert_eq!(t.get("x"), Some(&9));
    assert_eq!(t.len(), 2);
    assert_eq!(t.key_list(), vec!["x".to_string(), "y".to_string()]);
    assert_eq!(t.remove("x"), Some(9));
    assert_eq!(t.get("x"), None);
    assert_eq!(t.len(), 1);
    assert!(!t.contains("x"));
    assert!(t.contains("y"));
}
