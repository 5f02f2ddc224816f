//! The dispatch engine: what is done about a request, what is sent back for
//! the outcome of a call, and the whole way from a payload to its reply.
//!
//! The engine never looks into a handler. Where it calls one itself, in
//! [`Registry::call_one`], [`Registry::call_batch`], [`Registry::dispatch`]
//! and [`Registry::call`], the handler is a plain function from parameters to
//! an outcome, and the calls of a batch are made one after the other. A
//! driver that runs handlers in another way (on an executor, side by side)
//! takes its decisions from [`Registry::route`], [`answer`] and
//! [`crate::batch::Batch`], and makes the calls itself.

use crate::batch::Batch;
use crate::json::{self, json_if_any, json_of, jsons_of, Json};
use crate::payload::{decode, decoded, Payload, PayloadView};
use crate::protocol::{
    outcome_view, plain_error, requests_view, response_json, responses_view, Error, ErrorView,
    Id, IdView, Request, RequestView, Response, ResponseView,
};
use crate::registry::Registry;
use serde_json::Value;
use vstd::prelude::*;

verus! {

/// A call that is to be made: the handler, what to hand to it, and the
/// identifier under which its outcome is awaited. Where the identifier is
/// the marker of a notification, nobody waits for the outcome.
pub struct Job<'a, H> {
    pub handler: &'a H,
    pub params: Value,
    pub id: Id,
}

/// A call that is to be made, as a mathematical value.
pub ghost struct Task<H> {
    pub handler: H,
    pub params: Json,
    pub id: IdView,
}

impl<'a, H> View for Job<'a, H> {
    type V = Task<H>;

    open spec fn view(&self) -> Task<H> {
        Task { handler: *self.handler, params: json_of(self.params), id: self.id@ }
    }
}

/// The views of a sequence of jobs, one by one.
pub open spec fn jobs_view<'a, H>(jobs: Seq<Job<'a, H>>) -> Seq<Task<H>> {
    jobs.map_values(|job: Job<'a, H>| job@)
}

/// What is to be done about one request.
pub enum Step<'a, H> {
    /// Its method is registered: call it.
    Run(Job<'a, H>),
    /// Its method is unknown, and the client waits to be told so.
    Reply(Response),
    /// Its method is unknown, and nobody waits for an answer.
    Skip,
}

/// What is to be done about one request, as a mathematical value.
pub ghost enum StepView<H> {
    Run(Task<H>),
    Reply(ResponseView),
    Skip,
}

impl<'a, H> View for Step<'a, H> {
    type V = StepView<H>;

    open spec fn view(&self) -> StepView<H> {
        match self {
            Step::Run(job) => StepView::Run(job@),
            Step::Reply(response) => StepView::Reply(response@),
            Step::Skip => StepView::Skip,
        }
    }
}

/// The response that tells a client that the method it asked for is unknown.
pub open spec fn unknown_method(id: IdView) -> ResponseView {
    ResponseView { id, outcome: Err(plain_error(-32601, "Method not found"@)) }
}

/// What is to be done about a request, given the methods that are
/// registered.
pub open spec fn routed<H>(table: Map<Seq<char>, H>, request: RequestView) -> StepView<H> {
    if table.contains_key(request.method) {
        StepView::Run(
            Task { handler: table[request.method], params: request.params, id: request.id },
        )
    } else if request.id is Notification {
        StepView::Skip
    } else {
        StepView::Reply(unknown_method(request.id))
    }
}

/// The response that carries the outcome of a call to the client: none for a
/// notification, whatever the outcome.
pub open spec fn answered(id: IdView, outcome: Result<Json, ErrorView>) -> Option<ResponseView> {
    if id is Notification {
        None
    } else {
        Some(ResponseView { id, outcome })
    }
}

/// The view of a response, if there is a response.
pub open spec fn response_view(response: Option<Response>) -> Option<ResponseView> {
    match response {
        Some(response) => Some(response@),
        None => None,
    }
}

/// Decides what is sent back for the outcome of a call.
pub fn answer(id: Id, outcome: Result<Value, Error>) -> (r: Option<Response>)
    ensures
        response_view(r) == answered(id@, outcome_view(outcome)),
{
    if id.is_notification() {
        None
    } else {
        match outcome {
            Ok(result) => Some(Response::ok(id, result)),
            Err(error) => Some(Response::error(id, error)),
        }
    }
}

/// Whether a handler may answer parameters that hold the given tree with the
/// given outcome.
pub open spec fn may_return<H: Fn(Value) -> Result<Value, Error>>(
    handler: H,
    params: Json,
    outcome: Result<Json, ErrorView>,
) -> bool {
    exists|input: Value, output: Result<Value, Error>|
        json_of(input) == params && #[trigger] call_ensures(handler, (input,), output)
            && outcome_view(output) == outcome
}

/// Whether a response, or none, is what may be sent back for a request.
///
/// An unknown method is reported to a client that waits, and passed over in
/// silence otherwise. A known method is called with the parameters of the
/// request, and its outcome is what is sent back, unless the request is a
/// notification: then nothing is.
pub open spec fn answers<H: Fn(Value) -> Result<Value, Error>>(
    table: Map<Seq<char>, H>,
    request: RequestView,
    reply: Option<ResponseView>,
) -> bool {
    match routed(table, request) {
        StepView::Run(task) => exists|outcome: Result<Json, ErrorView>|
            #[trigger] may_return(task.handler, task.params, outcome) && reply == answered(
                task.id,
                outcome,
            ),
        StepView::Reply(response) => reply == Some(response),
        StepView::Skip => reply is None,
    }
}

/// What comes of submitting the requests of a batch in order: the responses
/// that need no call, and the calls to make.
pub ghost struct Plan<H> {
    pub replies: Seq<ResponseView>,
    pub tasks: Seq<Task<H>>,
}

/// The plan of a batch.
pub open spec fn planned<H>(table: Map<Seq<char>, H>, requests: Seq<RequestView>) -> Plan<H>
    decreases requests.len(),
{
    if requests.len() == 0 {
        Plan { replies: Seq::empty(), tasks: Seq::empty() }
    } else {
        let plan = planned(table, requests.drop_last());
        match routed(table, requests.last()) {
            StepView::Run(task) => Plan { replies: plan.replies, tasks: plan.tasks.push(task) },
            StepView::Reply(response) => Plan {
                replies: plan.replies.push(response),
                tasks: plan.tasks,
            },
            StepView::Skip => plan,
        }
    }
}

/// The number of tasks whose outcome is waited for.
pub open spec fn awaited<H>(tasks: Seq<Task<H>>) -> nat
    decreases tasks.len(),
{
    if tasks.len() == 0 {
        0
    } else if tasks.last().id is Notification {
        awaited(tasks.drop_last())
    } else {
        awaited(tasks.drop_last()) + 1
    }
}

/// The responses that carry the outcomes of the tasks, in the order of the
/// tasks. The outcome of a notification is left out.
pub open spec fn settled<H>(tasks: Seq<Task<H>>, outcomes: Seq<Result<Json, ErrorView>>) -> Seq<
    ResponseView,
>
    recommends
        tasks.len() == outcomes.len(),
    decreases tasks.len(),
{
    if tasks.len() == 0 {
        Seq::empty()
    } else {
        let rest = settled(tasks.drop_last(), outcomes.drop_last());
        match answered(tasks.last().id, outcomes.last()) {
            Some(response) => rest.push(response),
            None => rest,
        }
    }
}

/// Whether the outcomes are what the tasks may come to, one by one.
pub open spec fn may_come_of<H: Fn(Value) -> Result<Value, Error>>(
    tasks: Seq<Task<H>>,
    outcomes: Seq<Result<Json, ErrorView>>,
) -> bool {
    &&& outcomes.len() == tasks.len()
    &&& forall|k: int|
        0 <= k < tasks.len() ==> #[trigger] may_return(
            tasks[k].handler,
            tasks[k].params,
            outcomes[k],
        )
}

/// Whether the responses are what may come of a batch whose calls are made
/// one after the other: first, in the order of the requests, what is sent
/// back without a call, then the outcomes of the calls.
pub open spec fn batch_answers<H: Fn(Value) -> Result<Value, Error>>(
    table: Map<Seq<char>, H>,
    requests: Seq<RequestView>,
    responses: Seq<ResponseView>,
) -> bool {
    let plan = planned(table, requests);
    exists|outcomes: Seq<Result<Json, ErrorView>>|
        #[trigger] may_come_of(plan.tasks, outcomes) && responses == plan.replies + settled(
            plan.tasks,
            outcomes,
        )
}

/// The reply to one request: the response, if there is one.
pub open spec fn single_json(response: Option<ResponseView>) -> Option<Json> {
    match response {
        Some(response) => Some(response_json(response)),
        None => None,
    }
}

/// The reply to a batch: the array of the responses, and nothing at all
/// where there is no response.
pub open spec fn batch_json(responses: Seq<ResponseView>) -> Option<Json> {
    if responses.len() == 0 {
        None
    } else {
        Some(Json::Array(responses.map_values(|response: ResponseView| response_json(response))))
    }
}

/// Whether a reply, or none, is what may be sent back for what a payload
/// asks for.
pub open spec fn dispatched<H: Fn(Value) -> Result<Value, Error>>(
    table: Map<Seq<char>, H>,
    payload: PayloadView,
    reply: Option<Json>,
) -> bool {
    match payload {
        PayloadView::Single(request) => exists|response: Option<ResponseView>|
            #[trigger] answers(table, request, response) && reply == single_json(response),
        PayloadView::Batch(requests) => exists|responses: Seq<ResponseView>|
            #[trigger] batch_answers(table, requests, responses) && reply == batch_json(responses),
        PayloadView::Rejected(response) => reply == Some(response_json(response)),
    }
}

/// Whether a reply, or none, is what may be sent back for the bytes of a
/// payload.
pub open spec fn replies<H: Fn(Value) -> Result<Value, Error>>(
    table: Map<Seq<char>, H>,
    payload: Seq<u8>,
    reply: Option<Json>,
) -> bool {
    dispatched(table, decoded(payload), reply)
}

/// Turns the response to one request, if there is one, into the reply.
pub fn single_reply(response: Option<Response>) -> (r: Option<Value>)
    ensures
        json_if_any(r) == single_json(response_view(response)),
{
    match response {
        Some(response) => Some(response.into_value()),
        None => None,
    }
}

/// Turns the responses of a batch into its reply.
pub fn batch_reply(responses: Vec<Response>) -> (r: Option<Value>)
    ensures
        json_if_any(r) == batch_json(responses_view(responses@)),
{
    if responses.len() == 0 {
        return None;
    }
    let ghost views = responses_view(responses@);
    let mut values: Vec<Value> = Vec::with_capacity(responses.len());
    for response in it: responses
        invariant
            it.seq() == responses@,
            views == responses_view(responses@),
            values.len() == it.index(),
            forall|k: int|
                0 <= k < it.index() ==> json_of(#[trigger] values@[k]) == response_json(views[k]),
    {
        values.push(response.into_value());
    }
    assert(jsons_of(values@) =~= views.map_values(
        |response: ResponseView| response_json(response),
    ));
    Some(json::array(values))
}

/// No more outcomes are waited for in a part of the tasks than in all of
/// them, and no more than there are tasks.
proof fn awaited_of_part<H>(tasks: Seq<Task<H>>, part: int)
    requires
        0 <= part <= tasks.len(),
    ensures
        awaited(tasks.take(part)) <= awaited(tasks),
        awaited(tasks) <= tasks.len(),
    decreases tasks.len(),
{
    if part == tasks.len() {
        assert(tasks.take(part) =~= tasks);
        if tasks.len() > 0 {
            awaited_of_part(tasks.drop_last(), part - 1);
        }
    } else {
        awaited_of_part(tasks.drop_last(), part);
        assert(tasks.drop_last().take(part) =~= tasks.take(part));
    }
}

impl<H> Registry<H> {
    /// Whether every method that is registered takes any parameters at all.
    pub open spec fn total(&self) -> bool where H: Fn(Value) -> Result<Value, Error> {
        forall|name: Seq<char>, params: Value|
            self@.contains_key(name) ==> #[trigger] call_requires(self@[name], (params,))
    }

    /// Decides what is to be done about a request.
    pub fn route(&self, request: Request) -> (r: Step<'_, H>)
        ensures
            r@ == routed(self@, request@),
    {
        let Request { method, params, id } = request;
        match self.get_method(method.as_str()) {
            Some(handler) => Step::Run(Job { handler, params, id }),
            None => {
                if id.is_notification() {
                    Step::Skip
                } else {
                    Step::Reply(Response::error(id, Error::method_not_found()))
                }
            },
        }
    }

    /// Carries out one request: calls its method, if the method is known,
    /// and says what is to be sent back.
    pub fn call_one(&self, request: Request) -> (r: Option<Response>) where
        H: Fn(Value) -> Result<Value, Error>,

        requires
            self.total(),
        ensures
            answers(self@, request@, response_view(r)),
    {
        match self.route(request) {
            Step::Run(job) => {
                let Job { handler, params, id } = job;
                let outcome = handler(params);
                proof {
                    assert(may_return(job@.handler, job@.params, outcome_view(outcome)));
                }
                answer(id, outcome)
            },
            Step::Reply(response) => Some(response),
            Step::Skip => None,
        }
    }

    /// Carries out the requests of a batch, one call after the other, and
    /// collects what is to be sent back.
    pub fn call_batch(&self, requests: Vec<Request>) -> (r: Vec<Response>) where
        H: Fn(Value) -> Result<Value, Error>,

        requires
            self.total(),
        ensures
            batch_answers(self@, requests_view(requests@), responses_view(r@)),
    {
        let ghost views = requests_view(requests@);
        let count = requests.len();
        let mut batch = Batch::new();
        let mut jobs: Vec<Job<'_, H>> = Vec::with_capacity(count);
        for request in it: requests
            invariant
                it.seq() == requests@,
                requests@.len() == count,
                views == requests_view(requests@),
                batch@.responses == planned(self@, views.take(it.index())).replies,
                jobs_view(jobs@) == planned(self@, views.take(it.index())).tasks,
                batch@.pending == awaited(jobs_view(jobs@)),
                jobs.len() <= it.index(),
                forall|k: int, params: Value|
                    0 <= k < jobs.len() ==> #[trigger] call_requires(
                        *jobs@[k].handler,
                        (params,),
                    ),
                self.total(),
        {
            proof {
                assert(views.take(it.index() + 1).drop_last() =~= views.take(it.index()));
                awaited_of_part(jobs_view(jobs@), 0);
            }
            let ghost before = jobs@;
            match batch.submit(self.route(request)) {
                Some(job) => {
                    jobs.push(job);
                    proof {
                        assert(jobs_view(jobs@).drop_last() =~= jobs_view(before));
                    }
                },
                None => {},
            }
        }
        let ghost tasks = jobs_view(jobs@);
        let ghost replies = batch@.responses;
        let ghost mut outcomes: Seq<Result<Json, ErrorView>> = Seq::empty();
        proof {
            assert(views.take(views.len() as int) =~= views);
        }
        for job in it: jobs
            invariant
                it.seq() == jobs@,
                tasks == jobs_view(jobs@),
                may_come_of(tasks.take(it.index()), outcomes),
                batch@.responses == replies + settled(tasks.take(it.index()), outcomes),
                batch@.pending + awaited(tasks.take(it.index())) == awaited(tasks),
                forall|k: int, params: Value|
                    0 <= k < jobs.len() ==> #[trigger] call_requires(
                        *jobs@[k].handler,
                        (params,),
                    ),
        {
            let ghost done = it.index();
            let ghost earlier = outcomes;
            let Job { handler, params, id } = job;
            let outcome = handler(params);
            proof {
                outcomes = outcomes.push(outcome_view(outcome));
                assert(tasks.take(done + 1).drop_last() =~= tasks.take(done));
                assert(outcomes.drop_last() =~= earlier);
                awaited_of_part(tasks, done + 1);
            }
            match answer(id, outcome) {
                Some(response) => {
                    batch.complete(response);
                },
                None => {},
            }
        }
        proof {
            assert(tasks.take(tasks.len() as int) =~= tasks);
        }
        batch.finish()
    }

    /// Carries out what a payload asks for, and hands back the reply, if one
    /// is due.
    pub fn dispatch(&self, payload: Payload) -> (r: Option<Value>) where
        H: Fn(Value) -> Result<Value, Error>,

        requires
            self.total(),
        ensures
            dispatched(self@, payload@, json_if_any(r)),
    {
        match payload {
            Payload::Single(request) => {
                let response = self.call_one(request);
                assert(answers(self@, request@, response_view(response)));
                single_reply(response)
            },
            Payload::Batch(requests) => {
                let responses = self.call_batch(requests);
                let ghost views = responses_view(responses@);
                let r = batch_reply(responses);
                assert(payload@ matches PayloadView::Batch(asked) && batch_answers(
                    self@,
                    asked,
                    views,
                ) && json_if_any(r) == batch_json(views));
                r
            },
            Payload::Rejected(response) => Some(response.into_value()),
        }
    }

    /// Answers a payload: reads the request or the batch of requests that
    /// its bytes hold, carries them out, and hands back the reply, if one is
    /// due.
    pub fn call(&self, req: &[u8]) -> (r: Option<Value>) where
        H: Fn(Value) -> Result<Value, Error>,

        requires
            self.total(),
        ensures
            replies(self@, req@, json_if_any(r)),
    {
        self.dispatch(decode(req))
    }
}

} // verus!
