//! What holds of every dispatch, whatever the methods do.

use crate::dispatch::{
    answered, answers, batch_answers, batch_json, may_come_of, may_return, planned, replies,
    routed, settled, single_json, unknown_method, StepView, Task,
};
use crate::json::{json_parsed, Json};
use crate::payload::{
    decoded, first_byte, misshapen, unreadable, PayloadView, ARRAY_START, OBJECT_START,
};
use crate::protocol::{
    request_of, response_json, Error, ErrorView, IdView, RequestView, ResponseView,
};
use serde_json::Value;
use vstd::prelude::*;
use vstd::seq_lib::{lemma_multiset_commutative, to_multiset_build};

verus! {

/// The identifiers of the requests that carry one, in the order of the
/// requests.
pub open spec fn identifiers(requests: Seq<RequestView>) -> Seq<IdView>
    decreases requests.len(),
{
    if requests.len() == 0 {
        Seq::empty()
    } else if requests.last().id is Notification {
        identifiers(requests.drop_last())
    } else {
        identifiers(requests.drop_last()).push(requests.last().id)
    }
}

/// The identifiers of the responses, in the order of the responses.
pub open spec fn response_ids(responses: Seq<ResponseView>) -> Seq<IdView> {
    responses.map_values(|response: ResponseView| response.id)
}

/// The identifiers of the tasks whose outcome is waited for, in the order of
/// the tasks.
pub open spec fn awaited_ids<H>(tasks: Seq<Task<H>>) -> Seq<IdView>
    decreases tasks.len(),
{
    if tasks.len() == 0 {
        Seq::empty()
    } else if tasks.last().id is Notification {
        awaited_ids(tasks.drop_last())
    } else {
        awaited_ids(tasks.drop_last()).push(tasks.last().id)
    }
}

/// Whether the outcome of a handler depends on nothing but the tree that its
/// parameters hold.
pub open spec fn steady<H: Fn(Value) -> Result<Value, Error>>(handler: H) -> bool {
    forall|params: Json, one: Result<Json, ErrorView>, other: Result<Json, ErrorView>|
        #[trigger] may_return(handler, params, one) && #[trigger] may_return(
            handler,
            params,
            other,
        ) ==> one == other
}

/// Whether a payload announces requests and cannot be read as such.
pub open spec fn malformed(payload: Seq<u8>) -> bool {
    match first_byte(payload) {
        Some(byte) if byte == OBJECT_START => match json_parsed(payload) {
            Some(value) => request_of(value) is None,
            None => true,
        },
        Some(byte) if byte == ARRAY_START => match json_parsed(payload) {
            Some(Json::Array(items)) => exists|i: int|
                0 <= i < items.len() && (#[trigger] request_of(items[i])) is None,
            _ => true,
        },
        _ => false,
    }
}

/// The reply that reports a parse error, member by member.
pub open spec fn parse_error_reply() -> Json {
    Json::Object(
        map![
            "jsonrpc"@ => Json::String("2.0"@),
            "id"@ => Json::Null,
            "error"@ => Json::Object(
                map![
                    "code"@ => Json::Int(-32700),
                    "message"@ => Json::String("Parse error"@),
                ],
            ),
        ],
    )
}

/// Nothing is sent back for a notification: not the outcome of its method,
/// and not the news that its method is unknown.
pub proof fn notification_gets_no_response<H: Fn(Value) -> Result<Value, Error>>(
    table: Map<Seq<char>, H>,
    request: RequestView,
    reply: Option<ResponseView>,
)
    requires
        request.id is Notification,
        answers(table, request, reply),
    ensures
        reply is None,
{
}

/// A payload that holds one notification gets no reply, whatever its method
/// does.
pub proof fn notification_gets_no_reply<H: Fn(Value) -> Result<Value, Error>>(
    table: Map<Seq<char>, H>,
    payload: Seq<u8>,
    reply: Option<Json>,
)
    requires
        decoded(payload) matches PayloadView::Single(request) && request.id is Notification,
        replies(table, payload, reply),
    ensures
        reply is None,
{
}

/// A request that carries an identifier is answered, and the response
/// carries that identifier.
pub proof fn request_gets_its_response<H: Fn(Value) -> Result<Value, Error>>(
    table: Map<Seq<char>, H>,
    request: RequestView,
    reply: Option<ResponseView>,
)
    requires
        !(request.id is Notification),
        answers(table, request, reply),
    ensures
        reply matches Some(response) && response.id == request.id,
{
}

/// The responses that carry the outcomes of the tasks carry the identifiers
/// of the tasks that are waited for, in the same order.
proof fn settled_ids<H>(tasks: Seq<Task<H>>, outcomes: Seq<Result<Json, ErrorView>>)
    requires
        tasks.len() == outcomes.len(),
    ensures
        response_ids(settled(tasks, outcomes)) == awaited_ids(tasks),
    decreases tasks.len(),
{
    if tasks.len() == 0 {
        assert(response_ids(settled(tasks, outcomes)) =~= Seq::empty());
    } else {
        settled_ids(tasks.drop_last(), outcomes.drop_last());
        let rest = settled(tasks.drop_last(), outcomes.drop_last());
        match answered(tasks.last().id, outcomes.last()) {
            Some(response) => {
                assert(response_ids(rest.push(response)) =~= response_ids(rest).push(
                    response.id,
                ));
            },
            None => {},
        }
    }
}

/// The plan of a batch answers, between its responses and the tasks that
/// are waited for, the requests that carry an identifier, each once.
proof fn planned_ids<H>(table: Map<Seq<char>, H>, requests: Seq<RequestView>)
    ensures
        response_ids(planned(table, requests).replies).to_multiset().add(
            awaited_ids(planned(table, requests).tasks).to_multiset(),
        ) == identifiers(requests).to_multiset(),
    decreases requests.len(),
{
    broadcast use vstd::multiset::group_multiset_axioms;

    let plan = planned(table, requests);
    if requests.len() == 0 {
        let nothing = Seq::<IdView>::empty();
        assert(response_ids(plan.replies) =~= nothing);
        assert(awaited_ids(plan.tasks) =~= nothing);
        assert(identifiers(requests) =~= nothing);
        nothing.to_multiset_ensures();
        assert(nothing.to_multiset().len() == 0);
        assert(response_ids(plan.replies).to_multiset().add(
            awaited_ids(plan.tasks).to_multiset(),
        ) =~= identifiers(requests).to_multiset());
    } else {
        planned_ids(table, requests.drop_last());
        let before = planned(table, requests.drop_last());
        let last = requests.last();
        match routed(table, last) {
            StepView::Run(task) => {
                assert(plan.tasks.drop_last() =~= before.tasks);
                if !(last.id is Notification) {
                    to_multiset_build(awaited_ids(before.tasks), last.id);
                    to_multiset_build(identifiers(requests.drop_last()), last.id);
                }
            },
            StepView::Reply(response) => {
                assert(response_ids(plan.replies) =~= response_ids(before.replies).push(
                    last.id,
                ));
                to_multiset_build(response_ids(before.replies), last.id);
                to_multiset_build(identifiers(requests.drop_last()), last.id);
            },
            StepView::Skip => {},
        }
        assert(response_ids(plan.replies).to_multiset().add(
            awaited_ids(plan.tasks).to_multiset(),
        ) =~= identifiers(requests).to_multiset());
    }
}

/// No identifier of a request that carries one is the marker of a
/// notification.
proof fn identifiers_are_none_of_notifications(requests: Seq<RequestView>)
    ensures
        forall|k: int|
            0 <= k < identifiers(requests).len() ==> !(#[trigger] identifiers(
                requests,
            )[k] is Notification),
    decreases requests.len(),
{
    if requests.len() > 0 {
        identifiers_are_none_of_notifications(requests.drop_last());
    }
}

/// The responses to a batch answer the requests that carry an identifier,
/// each of them once, and nothing else: up to their order, the identifiers
/// of the responses are the identifiers of those requests. No response
/// carries the marker of a notification, so none stands for a notification
/// of the batch.
pub proof fn batch_answers_what_is_identified<H: Fn(Value) -> Result<Value, Error>>(
    table: Map<Seq<char>, H>,
    requests: Seq<RequestView>,
    responses: Seq<ResponseView>,
)
    requires
        batch_answers(table, requests, responses),
    ensures
        response_ids(responses).to_multiset() == identifiers(requests).to_multiset(),
        responses.len() == identifiers(requests).len(),
        forall|k: int| 0 <= k < responses.len() ==> !(#[trigger] responses[k].id is Notification),
{
    broadcast use vstd::seq_lib::group_to_multiset_ensures;

    let plan = planned(table, requests);
    let outcomes = choose|outcomes: Seq<Result<Json, ErrorView>>|
        #[trigger] may_come_of(plan.tasks, outcomes) && responses == plan.replies + settled(
            plan.tasks,
            outcomes,
        );
    let results = settled(plan.tasks, outcomes);
    settled_ids(plan.tasks, outcomes);
    planned_ids(table, requests);
    assert(response_ids(responses) =~= response_ids(plan.replies) + response_ids(results));
    lemma_multiset_commutative(response_ids(plan.replies), response_ids(results));
    assert(response_ids(responses).len() == responses.len());
    assert(response_ids(responses).to_multiset().len() == responses.len());
    assert(identifiers(requests).to_multiset().len() == identifiers(requests).len());
    identifiers_are_none_of_notifications(requests);
    assert forall|k: int| 0 <= k < responses.len() implies !(#[trigger] responses[k].id
        is Notification) by {
        let id = responses[k].id;
        assert(response_ids(responses)[k] == id);
        assert(response_ids(responses).contains(id));
        assert(identifiers(requests).to_multiset().count(id) > 0);
        assert(identifiers(requests).contains(id));
    }
}

/// A batch that holds nothing but notifications gets no reply at all, and
/// neither does a batch that holds nothing.
pub proof fn notifications_alone_get_no_reply<H: Fn(Value) -> Result<Value, Error>>(
    table: Map<Seq<char>, H>,
    payload: Seq<u8>,
    reply: Option<Json>,
)
    requires
        replies(table, payload, reply),
        decoded(payload) matches PayloadView::Batch(requests) && forall|i: int|
            0 <= i < requests.len() ==> #[trigger] requests[i].id is Notification,
    ensures
        reply is None,
{
    let requests = decoded(payload)->Batch_0;
    let responses = choose|responses: Seq<ResponseView>|
        #[trigger] batch_answers(table, requests, responses) && reply == batch_json(responses);
    batch_answers_what_is_identified(table, requests, responses);
    nothing_to_identify(requests);
}

/// Requests that are all notifications carry no identifier.
proof fn nothing_to_identify(requests: Seq<RequestView>)
    requires
        forall|i: int| 0 <= i < requests.len() ==> #[trigger] requests[i].id is Notification,
    ensures
        identifiers(requests).len() == 0,
    decreases requests.len(),
{
    if requests.len() > 0 {
        assert(requests.last().id is Notification);
        nothing_to_identify(requests.drop_last());
    }
}

/// An object whose version tag is not the string `2.0` is no request.
pub proof fn other_version_is_no_request(members: Map<Seq<char>, Json>)
    requires
        members.get("jsonrpc"@) != Some(Json::String("2.0"@)),
    ensures
        request_of(Json::Object(members)) is None,
{
}

/// An object whose identifier is there, and is neither an integer that fits
/// an `i64` nor a string nor `null`, is no request.
pub proof fn other_identifier_is_no_request(members: Map<Seq<char>, Json>)
    requires
        members.contains_key("id"@),
        match members["id"@] {
            Json::Null => false,
            Json::String(_) => false,
            Json::Int(n) => !(i64::MIN <= n <= i64::MAX),
            _ => true,
        },
    ensures
        request_of(Json::Object(members)) is None,
{
}

/// An object whose parameters are there, and are neither an array nor an
/// object, is no request.
pub proof fn other_params_are_no_request(members: Map<Seq<char>, Json>)
    requires
        members.contains_key("params"@),
        !(members["params"@] is Array),
        !(members["params"@] is Object),
    ensures
        request_of(Json::Object(members)) is None,
{
}

/// An object without a method name, or with one that is no string, is no
/// request.
pub proof fn other_method_is_no_request(members: Map<Seq<char>, Json>)
    requires
        !(members.get("method"@) matches Some(Json::String(_))),
    ensures
        request_of(Json::Object(members)) is None,
{
}

/// Nothing but an object is a request.
pub proof fn other_value_is_no_request(value: Json)
    requires
        !(value is Object),
    ensures
        request_of(value) is None,
{
}

/// A payload that announces requests and cannot be read as such is answered
/// with a parse error under the identifier `null`, and with nothing else:
/// none of its requests is carried out.
pub proof fn malformed_payload_gets_parse_error<H: Fn(Value) -> Result<Value, Error>>(
    table: Map<Seq<char>, H>,
    payload: Seq<u8>,
    reply: Option<Json>,
)
    requires
        malformed(payload),
        replies(table, payload, reply),
    ensures
        decoded(payload) == PayloadView::Rejected(unreadable()),
        reply == Some(parse_error_reply()),
{
    reveal_strlit("jsonrpc");
    reveal_strlit("id");
    reveal_strlit("error");
    assert(response_json(unreadable())->Object_0 =~= parse_error_reply()->Object_0);
}

/// Where the outcome of the method depends on its parameters alone, what is
/// sent back for a request depends on the request alone: the same request
/// gets the same response every time.
pub proof fn same_request_same_response<H: Fn(Value) -> Result<Value, Error>>(
    table: Map<Seq<char>, H>,
    request: RequestView,
    first: Option<ResponseView>,
    second: Option<ResponseView>,
)
    requires
        table.contains_key(request.method) ==> steady(table[request.method]),
        answers(table, request, first),
        answers(table, request, second),
    ensures
        first == second,
{
}

/// Whether a handler is registered in a table, under whatever name.
pub open spec fn offers<H>(table: Map<Seq<char>, H>, handler: H) -> bool {
    exists|name: Seq<char>| table.contains_key(name) && #[trigger] table[name] == handler
}

/// Every task of a plan calls a method of the table.
proof fn planned_tasks_are_registered<H>(table: Map<Seq<char>, H>, requests: Seq<RequestView>)
    ensures
        forall|k: int|
            0 <= k < planned(table, requests).tasks.len() ==> offers(
                table,
                (#[trigger] planned(table, requests).tasks[k]).handler,
            ),
    decreases requests.len(),
{
    if requests.len() > 0 {
        planned_tasks_are_registered(table, requests.drop_last());
        let before = planned(table, requests.drop_last());
        let plan = planned(table, requests);
        assert forall|k: int| 0 <= k < plan.tasks.len() implies offers(
            table,
            (#[trigger] plan.tasks[k]).handler,
        ) by {
            if k < before.tasks.len() {
                assert(plan.tasks[k] == before.tasks[k]);
            } else {
                let name = requests.last().method;
                assert(table.contains_key(name) && table[name] == plan.tasks[k].handler);
            }
        }
    }
}

/// Where the outcome of each method depends on its parameters alone, the
/// responses to a batch whose calls are made one after the other depend on
/// the batch alone.
pub proof fn same_batch_same_responses<H: Fn(Value) -> Result<Value, Error>>(
    table: Map<Seq<char>, H>,
    requests: Seq<RequestView>,
    first: Seq<ResponseView>,
    second: Seq<ResponseView>,
)
    requires
        forall|name: Seq<char>| table.contains_key(name) ==> steady(#[trigger] table[name]),
        batch_answers(table, requests, first),
        batch_answers(table, requests, second),
    ensures
        first == second,
{
    let plan = planned(table, requests);
    let one = choose|outcomes: Seq<Result<Json, ErrorView>>|
        #[trigger] may_come_of(plan.tasks, outcomes) && first == plan.replies + settled(
            plan.tasks,
            outcomes,
        );
    let other = choose|outcomes: Seq<Result<Json, ErrorView>>|
        #[trigger] may_come_of(plan.tasks, outcomes) && second == plan.replies + settled(
            plan.tasks,
            outcomes,
        );
    planned_tasks_are_registered(table, requests);
    assert forall|k: int| 0 <= k < plan.tasks.len() implies one[k] == other[k] by {
        let task = plan.tasks[k];
        assert(offers(table, task.handler));
        assert(steady(task.handler));
        assert(may_return(task.handler, task.params, one[k]));
        assert(may_return(task.handler, task.params, other[k]));
    }
    assert(one =~= other);
}

/// Where the outcome of each method depends on its parameters alone, the
/// reply to a payload depends on the payload alone: the same payload gets
/// the same reply every time.
pub proof fn same_payload_same_reply<H: Fn(Value) -> Result<Value, Error>>(
    table: Map<Seq<char>, H>,
    payload: Seq<u8>,
    first: Option<Json>,
    second: Option<Json>,
)
    requires
        forall|name: Seq<char>| table.contains_key(name) ==> steady(#[trigger] table[name]),
        replies(table, payload, first),
        replies(table, payload, second),
    ensures
        first == second,
{
    match decoded(payload) {
        PayloadView::Single(request) => {
            let one = choose|response: Option<ResponseView>|
                #[trigger] answers(table, request, response) && first == single_json(response);
            let other = choose|response: Option<ResponseView>|
                #[trigger] answers(table, request, response) && second == single_json(response);
            same_request_same_response(table, request, one, other);
        },
        PayloadView::Batch(requests) => {
            let one = choose|responses: Seq<ResponseView>|
                #[trigger] batch_answers(table, requests, responses) && first == batch_json(
                    responses,
                );
            let other = choose|responses: Seq<ResponseView>|
                #[trigger] batch_answers(table, requests, responses) && second == batch_json(
                    responses,
                );
            same_batch_same_responses(table, requests, one, other);
        },
        PayloadView::Rejected(_) => {},
    }
}

/// The reply that reports an invalid request, member by member.
pub open spec fn invalid_request_reply() -> Json {
    Json::Object(
        map![
            "jsonrpc"@ => Json::String("2.0"@),
            "id"@ => Json::Null,
            "error"@ => Json::Object(
                map![
                    "code"@ => Json::Int(-32600),
                    "message"@ => Json::String("Invalid Request"@),
                ],
            ),
        ],
    )
}

/// A payload that opens neither an object nor an array is answered with an
/// invalid request under the identifier `null`, without an attempt to read
/// it.
pub proof fn other_payload_gets_invalid_request<H: Fn(Value) -> Result<Value, Error>>(
    table: Map<Seq<char>, H>,
    payload: Seq<u8>,
    reply: Option<Json>,
)
    requires
        first_byte(payload) != Some(OBJECT_START),
        first_byte(payload) != Some(ARRAY_START),
        replies(table, payload, reply),
    ensures
        reply == Some(invalid_request_reply()),
{
    reveal_strlit("jsonrpc");
    reveal_strlit("id");
    reveal_strlit("error");
    assert(response_json(misshapen())->Object_0 =~= invalid_request_reply()->Object_0);
}

/// The reply to a batch is never an empty array: where there is no response,
/// there is no reply.
pub proof fn batch_reply_is_never_empty<H: Fn(Value) -> Result<Value, Error>>(
    table: Map<Seq<char>, H>,
    payload: Seq<u8>,
    reply: Option<Json>,
)
    requires
        decoded(payload) is Batch,
        replies(table, payload, reply),
    ensures
        reply matches Some(value) ==> value matches Json::Array(responses) && responses.len() > 0,
{
}

/// The plan of a batch of unknown methods holds no task, and a response for
/// each request that carries an identifier.
proof fn planned_for_unknown_methods<H>(table: Map<Seq<char>, H>, requests: Seq<RequestView>)
    requires
        forall|i: int|
            0 <= i < requests.len() ==> !table.contains_key((#[trigger] requests[i]).method)
                && !(requests[i].id is Notification),
    ensures
        planned(table, requests).tasks.len() == 0,
        planned(table, requests).replies == requests.map_values(
            |request: RequestView| unknown_method(request.id),
        ),
    decreases requests.len(),
{
    let expected = requests.map_values(|request: RequestView| unknown_method(request.id));
    if requests.len() == 0 {
        assert(planned(table, requests).replies =~= expected);
    } else {
        planned_for_unknown_methods(table, requests.drop_last());
        let last = requests.last();
        assert(!table.contains_key(last.method) && !(last.id is Notification));
        assert(planned(table, requests).replies =~= expected);
    }
}

/// A batch that asks for unknown methods only, each under an identifier, is
/// answered request by request, in the order of the requests: that the
/// method was not found is a response like any other.
pub proof fn unknown_methods_are_all_reported<H: Fn(Value) -> Result<Value, Error>>(
    table: Map<Seq<char>, H>,
    requests: Seq<RequestView>,
    responses: Seq<ResponseView>,
)
    requires
        forall|i: int|
            0 <= i < requests.len() ==> !table.contains_key((#[trigger] requests[i]).method)
                && !(requests[i].id is Notification),
        batch_answers(table, requests, responses),
    ensures
        responses == requests.map_values(|request: RequestView| unknown_method(request.id)),
{
    planned_for_unknown_methods(table, requests);
    let plan = planned(table, requests);
    let outcomes = choose|outcomes: Seq<Result<Json, ErrorView>>|
        #[trigger] may_come_of(plan.tasks, outcomes) && responses == plan.replies + settled(
            plan.tasks,
            outcomes,
        );
    assert(settled(plan.tasks, outcomes) =~= Seq::empty());
    assert(plan.replies + Seq::<ResponseView>::empty() =~= plan.replies);
}

} // verus!
