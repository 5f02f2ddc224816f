use json_rpc_v2::{Error, Registry};
use serde_json::{to_string, Value};

type Method = fn(Value) -> Result<Value, Error>;

fn registry() -> Registry<Method> {
    let mut registry: Registry<Method> = Registry::new();
    registry.register_method("sum", sum);
    registry
}

fn sum(args: Value) -> Result<Value, Error> {
    let (a, b) = match args {
        Value::Array(args) if args.len() >= 2 => {
            let a = args[0].as_i64();
            let b = args[1].as_i64();
            (a, b)
        }
        Value::Object(args) => {
            let a = args.get("a").and_then(Value::as_i64);
            let b = args.get("b").and_then(Value::as_i64);
            (a, b)
        }
        _ => return Err(Error::invalid_params()),
    };
    if a.is_some() || b.is_some() {
        Ok(Value::from(a.unwrap() + b.unwrap()))
    } else {
        Err(Error::invalid_params())
    }
}

#[test]
fn test_by_position_parameter() {
    let req = br#"{"jsonrpc":"2.0","method":"sum","params":[3,4],"id":1}"#;
    let result = registry().call(req);
    assert_eq!(to_string(result.as_ref().unwrap()).unwrap(), r#"{"id":1,"jsonrpc":"2.0","result":7}"#);
}

#[test]
fn test_by_name_parameter() {
    let req = br#"{"jsonrpc":"2.0","method":"sum","params":{"a":3,"b":4},"id":1}"#;
    let result = registry().call(req);
    assert_eq!(to_string(result.as_ref().unwrap()).unwrap(), r#"{"id":1,"jsonrpc":"2.0","result":7}"#);
}

#[test]
fn test_batch_call() {
    let req = br#"[{"jsonrpc":"2.0","method":"sum","params":[3,4],"id":1},{"jsonrpc":"2.0","method":"sum","params":[3,4],"id":2}]
"#;
    let result = registry().call(req);
    assert_eq!(to_string(result.as_ref().unwrap()).unwrap(), r#"[{"id":1,"jsonrpc":"2.0","result":7},{"id":2,"jsonrpc":"2.0","result":7}]"#);
}

#[test]
fn test_method_not_found() {
    let req = br#"{"jsonrpc":"2.0","method":"sum1","params":[3,4],"id":1}"#;
    let result = registry().call(req);
    assert_eq!(to_string(result.as_ref().unwrap()).unwrap(), r#"{"error":{"code":-32601,"message":"Method not found"},"id":1,"jsonrpc":"2.0"}"#);
}

#[test]
fn test_invalid_json() {
    let req = br#"{1"jsonrpc":"1.0","method":"sum1","params":[3,4],"id":1}"#;
    let result = registry().call(req);
    assert_eq!(to_string(result.as_ref().unwrap()).unwrap(), r#"{"error":{"code":-32700,"message":"Parse error"},"id":null,"jsonrpc":"2.0"}"#);
}

#[test]
fn test_invalid_id() {
    let req = br#"{"jsonrpc":"2.0","method":"sum1","params":[3,4],"id":1.1}"#;
    let result = registry().call(req);
    assert_eq!(to_string(result.as_ref().unwrap()).unwrap(), r#"{"error":{"code":-32700,"message":"Parse error"},"id":null,"jsonrpc":"2.0"}"#);
}

#[test]
fn test_invalid_version() {
    let req = br#"{"jsonrpc":"2.1","method":"sum1","params":[3,4],"id":1.1}"#;
    let result = registry().call(req);
    assert_eq!(to_string(result.as_ref().unwrap()).unwrap(), r#"{"error":{"code":-32700,"message":"Parse error"},"id":null,"jsonrpc":"2.0"}"#);
}
