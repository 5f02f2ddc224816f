use json_rpc_v2::{answer, batch_reply, Batch, Error, Id, Job, Registry, Request, Response, Step};
use serde_json::{to_string, Value};

type Method = fn(Value) -> Result<Value, Error>;

fn echo(params: Value) -> Result<Value, Error> {
    Ok(params)
}

fn registry() -> Registry<Method> {
    let mut registry: Registry<Method> = Registry::new();
    registry.register_method("echo", echo);
    registry
}

fn request(method: &str, params: Value, id: Id) -> Request {
    Request { method: String::from(method), params, id }
}

fn ids(responses: &Vec<Response>) -> Vec<Id> {
    responses.iter().map(|response| response.id().clone()).collect()
}

#[test]
fn new_batch_waits_for_nothing() {
    let batch = Batch::new();
    assert_eq!(batch.pending(), 0);
    assert!(batch.finish().is_empty());
}

#[test]
fn submitting_counts_the_calls_that_are_waited_for() {
    let registry = registry();
    let mut batch = Batch::new();

    let job = batch.submit(registry.route(request("echo", Value::from(1), Id::Number(1))));
    assert!(job.is_some());
    assert_eq!(batch.pending(), 1);

    let job = batch.submit(registry.route(request("echo", Value::from(2), Id::Notification)));
    assert!(job.unwrap().id.is_notification());
    assert_eq!(batch.pending(), 1);

    let job = batch.submit(registry.route(request("nope", Value::from(3), Id::Number(3))));
    assert!(job.is_none());
    assert_eq!(batch.pending(), 1);

    let job = batch.submit(registry.route(request("nope", Value::from(4), Id::Notification)));
    assert!(job.is_none());
    assert_eq!(batch.pending(), 1);

    let job = batch.submit(Step::<Method>::Skip);
    assert!(job.is_none());

    let responses = batch.finish();
    assert_eq!(ids(&responses), vec![Id::Number(3)]);
}

#[test]
fn responses_are_kept_in_the_order_of_their_arrival() {
    let registry = registry();
    let mut batch = Batch::new();
    let mut jobs: Vec<Job<Method>> = Vec::new();
    for n in 1..=3 {
        let step = registry.route(request("echo", Value::from(n), Id::Number(n)));
        jobs.push(batch.submit(step).unwrap());
    }
    let step = registry.route(request("nope", Value::Null, Id::String(String::from("x"))));
    assert!(batch.submit(step).is_none());
    assert_eq!(batch.pending(), 3);

    while let Some(Job { handler, params, id }) = jobs.pop() {
        let response = answer(id, handler(params)).unwrap();
        batch.complete(response);
    }
    assert_eq!(batch.pending(), 0);

    let responses = batch.finish();
    assert_eq!(
        ids(&responses),
        vec![Id::String(String::from("x")), Id::Number(3), Id::Number(2), Id::Number(1)]
    );
    assert_eq!(
        to_string(&batch_reply(responses).unwrap()).unwrap(),
        concat_reply()
    );
}

fn concat_reply() -> String {
    let parts = vec![
        r#"{"error":{"code":-32601,"message":"Method not found"},"id":"x","jsonrpc":"2.0"}"#,
        r#"{"id":3,"jsonrpc":"2.0","result":3}"#,
        r#"{"id":2,"jsonrpc":"2.0","result":2}"#,
        r#"{"id":1,"jsonrpc":"2.0","result":1}"#,
    ];
    format!("[{}]", parts.join(","))
}

#[test]
fn closing_gives_up_what_has_not_arrived() {
    let registry = registry();
    let mut batch = Batch::new();
    let first = batch.submit(registry.route(request("echo", Value::from(1), Id::Number(1))));
    let second = batch.submit(registry.route(request("echo", Value::from(2), Id::Number(2))));
    assert!(first.is_some());
    assert_eq!(batch.pending(), 2);

    let Job { handler, params, id } = second.unwrap();
    batch.complete(answer(id, handler(params)).unwrap());
    assert_eq!(batch.pending(), 1);

    batch.close();
    assert_eq!(batch.pending(), 0);
    assert_eq!(ids(&batch.finish()), vec![Id::Number(2)]);
}

#[test]
fn no_response_makes_no_reply() {
    assert!(batch_reply(Vec::new()).is_none());
}

#[test]
fn one_response_makes_an_array_of_one() {
    let reply = batch_reply(vec![Response::ok(Id::Number(1), Value::from(true))]).unwrap();
    assert_eq!(to_string(&reply).unwrap(), r#"[{"id":1,"jsonrpc":"2.0","result":true}]"#);
}
