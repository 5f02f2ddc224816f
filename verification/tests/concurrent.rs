use std::future::Future;
use std::pin::Pin;

use json_rpc_v2::{
    answer, batch_reply, decode, single_reply, Batch, Error, Id, Job, Payload, Registry, Request,
    Response, Step,
};
use serde_json::{to_string, Value};
use tokio::runtime::Builder;
use tokio::spawn;
use tokio::sync::mpsc::unbounded_channel;
use tokio::task::yield_now;

type Method = fn(Value) -> Pin<Box<dyn Future<Output = Result<Value, Error>> + Send>>;

fn sum(args: Value) -> Pin<Box<dyn Future<Output = Result<Value, Error>> + Send>> {
    Box::pin(async move {
        let (a, b) = match args {
            Value::Array(args) if args.len() >= 2 => (args[0].as_i64(), args[1].as_i64()),
            Value::Object(args) => {
                (args.get("a").and_then(Value::as_i64), args.get("b").and_then(Value::as_i64))
            }
            _ => return Err(Error::invalid_params()),
        };
        match (a, b) {
            (Some(a), Some(b)) => Ok(Value::from(a + b)),
            _ => Err(Error::invalid_params()),
        }
    })
}

fn linger(rounds: Value) -> Pin<Box<dyn Future<Output = Result<Value, Error>> + Send>> {
    Box::pin(async move {
        let count = rounds[0].as_u64().ok_or_else(Error::invalid_params)?;
        for _ in 0..count {
            yield_now().await;
        }
        Ok(Value::from(count))
    })
}

fn crash(_: Value) -> Pin<Box<dyn Future<Output = Result<Value, Error>> + Send>> {
    Box::pin(async move { panic!("the handler gave up") })
}

fn registry() -> Registry<Method> {
    let mut registry: Registry<Method> = Registry::new();
    registry.register_method("sum", sum);
    registry.register_method("linger", linger);
    registry.register_method("crash", crash);
    registry
}

async fn call_one(registry: &Registry<Method>, request: Request) -> Option<Response> {
    match registry.route(request) {
        Step::Run(Job { handler, params, id }) => {
            let method = *handler;
            answer(id, method(params).await)
        }
        Step::Reply(response) => Some(response),
        Step::Skip => None,
    }
}

async fn call_batch(registry: &Registry<Method>, requests: Vec<Request>) -> Vec<Response> {
    let mut batch = Batch::new();
    let (tx, mut rx) = unbounded_channel();
    for request in requests {
        if let Some(Job { handler, params, id }) = batch.submit(registry.route(request)) {
            let method = *handler;
            let tx = tx.clone();
            let _ = spawn(async move {
                if let Some(response) = answer(id, method(params).await) {
                    let _ = tx.send(response);
                }
            });
        }
    }
    drop(tx);
    while batch.pending() > 0 {
        match rx.recv().await {
            Some(response) => batch.complete(response),
            None => batch.close(),
        }
    }
    batch.finish()
}

async fn call(registry: &Registry<Method>, req: &[u8]) -> Option<Value> {
    match decode(req) {
        Payload::Single(request) => single_reply(call_one(registry, request).await),
        Payload::Batch(requests) => batch_reply(call_batch(registry, requests).await),
        Payload::Rejected(response) => Some(response.into_value()),
    }
}

fn block_on(req: &[u8]) -> Option<Value> {
    let runtime = Builder::new_current_thread().build().unwrap();
    let registry = registry();
    runtime.block_on(call(&registry, req))
}

#[test]
fn awaited_single_call() {
    let reply = block_on(br#"{"jsonrpc":"2.0","method":"sum","params":[3,4],"id":1}"#);
    assert_eq!(to_string(&reply.unwrap()).unwrap(), r#"{"id":1,"jsonrpc":"2.0","result":7}"#);
}

#[test]
fn awaited_notification_gets_no_reply() {
    assert!(block_on(br#"{"jsonrpc":"2.0","method":"sum","params":[3,4]}"#).is_none());
}

#[test]
fn spawned_batch_answers_each_identified_request() {
    let reply = block_on(
        br#"[{"jsonrpc":"2.0","method":"sum","params":[3,4],"id":1},{"jsonrpc":"2.0","method":"sum","params":[3,4],"id":2}]"#,
    )
    .unwrap();
    let responses = reply.as_array().unwrap();
    assert_eq!(responses.len(), 2);
    let mut ids: Vec<i64> = responses.iter().map(|r| r["id"].as_i64().unwrap()).collect();
    ids.sort();
    assert_eq!(ids, vec![1, 2]);
    assert!(responses.iter().all(|r| r["result"] == 7 && r["jsonrpc"] == "2.0"));
}

#[test]
fn spawned_batch_collects_in_the_order_of_completion() {
    let reply = block_on(
        br#"[{"jsonrpc":"2.0","method":"linger","params":[6],"id":"slow"},
             {"jsonrpc":"2.0","method":"nowhere","params":[0],"id":"lost"},
             {"jsonrpc":"2.0","method":"linger","params":[0],"id":"fast"},
             {"jsonrpc":"2.0","method":"linger","params":[3],"id":"middle"},
             {"jsonrpc":"2.0","method":"linger","params":[1]}]"#,
    )
    .unwrap();
    let ids: Vec<&str> =
        reply.as_array().unwrap().iter().map(|r| r["id"].as_str().unwrap()).collect();
    assert_eq!(ids, vec!["lost", "fast", "middle", "slow"]);
}

#[test]
fn spawned_batch_of_notifications_gets_no_reply() {
    let reply = block_on(
        br#"[{"jsonrpc":"2.0","method":"linger","params":[2]},{"jsonrpc":"2.0","method":"nowhere"}]"#,
    );
    assert!(reply.is_none());
}

#[test]
fn lost_call_leaves_a_partial_reply() {
    let reply = block_on(
        br#"[{"jsonrpc":"2.0","method":"crash","params":[],"id":1},{"jsonrpc":"2.0","method":"linger","params":[2],"id":2}]"#,
    )
    .unwrap();
    let ids: Vec<i64> =
        reply.as_array().unwrap().iter().map(|r| r["id"].as_i64().unwrap()).collect();
    assert_eq!(ids, vec![2]);
}

#[test]
fn response_ids_are_never_the_marker() {
    let runtime = Builder::new_current_thread().build().unwrap();
    let registry = registry();
    let requests = vec![
        Request { method: String::from("sum"), params: Value::Null, id: Id::Notification },
        Request { method: String::from("sum"), params: Value::Null, id: Id::Null },
        Request { method: String::from("none"), params: Value::Null, id: Id::Notification },
        Request { method: String::from("none"), params: Value::Null, id: Id::Number(0) },
    ];
    let responses = runtime.block_on(call_batch(&registry, requests));
    assert_eq!(responses.len(), 2);
    assert!(responses.iter().all(|response| !response.id().is_notification()));
}
