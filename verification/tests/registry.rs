use json_rpc_v2::{Error, Provider, Registry};
use serde_json::Value;

type Method = fn(Value) -> Result<Value, Error>;

fn one(_: Value) -> Result<Value, Error> {
    Ok(Value::from(1))
}

fn two(_: Value) -> Result<Value, Error> {
    Ok(Value::from(2))
}

fn three(_: Value) -> Result<Value, Error> {
    Ok(Value::from(3))
}

fn result_of(registry: &Registry<Method>, name: &str) -> Option<Value> {
    registry.get_method(name).map(|method| method(Value::Null).ok().unwrap())
}

struct Counting;

impl Provider<Method> for Counting {
    fn methods() -> &'static [(&'static str, Method)] {
        &[("counting.one", one as Method), ("counting.two", two as Method)]
    }
}

struct Shadowing;

impl Provider<Method> for Shadowing {
    fn methods() -> &'static [(&'static str, Method)] {
        &[("n", one as Method), ("n", two as Method)]
    }
}

#[test]
fn new_registry_knows_no_method() {
    let registry: Registry<Method> = Registry::new();
    assert!(registry.get_method("one").is_none());
    assert!(registry.get_method("").is_none());
}

#[test]
fn registered_method_is_found_by_its_name() {
    let mut registry: Registry<Method> = Registry::new();
    registry.register_method("one", one);
    registry.register_method("two", two);
    assert_eq!(result_of(&registry, "one"), Some(Value::from(1)));
    assert_eq!(result_of(&registry, "two"), Some(Value::from(2)));
    assert_eq!(result_of(&registry, "three"), None);
}

#[test]
fn names_are_compared_as_a_whole() {
    let mut registry: Registry<Method> = Registry::new();
    registry.register_method("sum", one);
    assert!(registry.get_method("su").is_none());
    assert!(registry.get_method("sum1").is_none());
    assert!(registry.get_method("Sum").is_none());
    assert!(registry.get_method("süm").is_none());
    assert!(registry.get_method("sum").is_some());
}

#[test]
fn later_registration_replaces_the_earlier() {
    let mut registry: Registry<Method> = Registry::new();
    registry.register_method("n", one);
    registry.register_method("other", three);
    registry.register_method("n", two);
    assert_eq!(result_of(&registry, "n"), Some(Value::from(2)));
    assert_eq!(result_of(&registry, "other"), Some(Value::from(3)));
}

#[test]
fn table_is_registered_in_order() {
    let mut registry: Registry<Method> = Registry::new();
    registry.register_method("a", three);
    registry.register_all(&[("a", one as Method), ("b", one as Method), ("b", two as Method)]);
    assert_eq!(result_of(&registry, "a"), Some(Value::from(1)));
    assert_eq!(result_of(&registry, "b"), Some(Value::from(2)));
}

#[test]
fn empty_table_changes_nothing() {
    let mut registry: Registry<Method> = Registry::new();
    registry.register_method("a", three);
    registry.register_all(&[]);
    assert_eq!(result_of(&registry, "a"), Some(Value::from(3)));
}

#[test]
fn group_is_registered_under_its_names() {
    let mut registry: Registry<Method> = Registry::new();
    registry.register::<Counting>();
    assert_eq!(result_of(&registry, "counting.one"), Some(Value::from(1)));
    assert_eq!(result_of(&registry, "counting.two"), Some(Value::from(2)));
    assert_eq!(result_of(&registry, "one"), None);
}

#[test]
fn group_is_registered_in_its_order() {
    let mut registry: Registry<Method> = Registry::new();
    registry.register_method("n", three);
    registry.register::<Shadowing>();
    assert_eq!(result_of(&registry, "n"), Some(Value::from(2)));
}
