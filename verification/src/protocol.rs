//! Identifiers, requests, responses and errors of JSON-RPC 2.0, and their
//! form on the wire.

use crate::json::{self, json_of, members_of, Json};
use crate::text::same_text;
use serde_json::Value;
use std::borrow::Cow;
use vstd::prelude::*;

verus! {

/// The identifier of an exchange.
///
/// `Notification` stands for an identifier that was left out: an exchange
/// without one is a notification, and nothing is ever sent back for it.
#[derive(Debug, Eq, Ord, Hash)]
pub enum Id {
    Number(i64),
    String(String),
    Null,
    Notification,
}

/// An identifier as a mathematical value.
pub ghost enum IdView {
    Number(i64),
    String(Seq<char>),
    Null,
    Notification,
}

impl View for Id {
    type V = IdView;

    open spec fn view(&self) -> IdView {
        match self {
            Id::Number(n) => IdView::Number(*n),
            Id::String(s) => IdView::String(s@),
            Id::Null => IdView::Null,
            Id::Notification => IdView::Notification,
        }
    }
}

impl PartialEq for Id {
    fn eq(&self, other: &Id) -> (r: bool) {
        match (self, other) {
            (Id::Number(a), Id::Number(b)) => *a == *b,
            (Id::String(a), Id::String(b)) => *a == *b,
            (Id::Null, Id::Null) => true,
            (Id::Notification, Id::Notification) => true,
            _ => false,
        }
    }
}

impl vstd::std_specs::cmp::PartialEqSpecImpl for Id {
    open spec fn obeys_eq_spec() -> bool {
        true
    }

    open spec fn eq_spec(&self, other: &Id) -> bool {
        self@ == other@
    }
}

impl Clone for Id {
    fn clone(&self) -> (r: Id)
        ensures
            r@ == self@,
    {
        match self {
            Id::Number(n) => Id::Number(*n),
            Id::String(s) => Id::String(s.clone()),
            Id::Null => Id::Null,
            Id::Notification => Id::Notification,
        }
    }
}

impl Default for Id {
    /// The identifier of a request that names none.
    fn default() -> (r: Id)
        ensures
            r is Notification,
    {
        Id::Notification
    }
}

/// The identifier that a request carries, read from its `id` member if it has
/// one: an integer that fits an `i64`, a string or `null`. Any other member
/// is no identifier.
pub open spec fn id_of(member: Option<Json>) -> Option<IdView> {
    match member {
        None => Some(IdView::Notification),
        Some(Json::Null) => Some(IdView::Null),
        Some(Json::String(s)) => Some(IdView::String(s)),
        Some(Json::Int(n)) => if i64::MIN <= n <= i64::MAX {
            Some(IdView::Number(n as i64))
        } else {
            None
        },
        Some(_) => None,
    }
}

/// The JSON value that stands for an identifier in a response.
pub open spec fn id_json(id: IdView) -> Json {
    match id {
        IdView::Number(n) => Json::Int(n as int),
        IdView::String(s) => Json::String(s),
        IdView::Null => Json::Null,
        IdView::Notification => Json::Null,
    }
}

impl Id {
    /// Whether this is the marker of a notification.
    pub fn is_notification(&self) -> (r: bool)
        ensures
            r == (self is Notification),
    {
        matches!(self, Id::Notification)
    }

    /// Reads the identifier that a JSON value stands for.
    pub fn from_value(value: &Value) -> (r: Option<Id>)
        ensures
            match r {
                Some(id) => id_of(Some(json_of(*value))) == Some(id@),
                None => id_of(Some(json_of(*value))) is None,
            },
    {
        if value.is_null() {
            return Some(Id::Null);
        }
        if let Some(n) = value.as_i64() {
            return Some(Id::Number(n));
        }
        match value.as_str() {
            Some(s) => Some(Id::String(s.to_owned())),
            None => None,
        }
    }

    /// The JSON value that stands for this identifier.
    pub fn to_value(&self) -> (r: Value)
        ensures
            json_of(r) == id_json(self@),
    {
        match self {
            Id::Number(n) => json::integer(*n),
            Id::String(s) => json::string(s.as_str()),
            Id::Null => json::null(),
            Id::Notification => json::null(),
        }
    }
}

/// What went wrong with a request.
pub struct Error {
    pub code: i32,
    pub message: Cow<'static, str>,
    pub data: Option<Value>,
}

/// An error as a mathematical value.
pub ghost struct ErrorView {
    pub code: int,
    pub message: Seq<char>,
    pub data: Option<Json>,
}

impl View for Error {
    type V = ErrorView;

    open spec fn view(&self) -> ErrorView {
        ErrorView {
            code: self.code as int,
            message: self.message@,
            data: match self.data {
                Some(d) => Some(json_of(d)),
                None => None,
            },
        }
    }
}

/// An error of the protocol: a code and a message, without data.
pub open spec fn plain_error(code: int, message: Seq<char>) -> ErrorView {
    ErrorView { code, message, data: None }
}

/// The JSON object that stands for an error in a response.
pub open spec fn error_json(error: ErrorView) -> Json {
    let members = map![
        "code"@ => Json::Int(error.code),
        "message"@ => Json::String(error.message),
    ];
    match error.data {
        Some(data) => Json::Object(members.insert("data"@, data)),
        None => Json::Object(members),
    }
}

impl Error {
    /// The text could not be read as a request.
    pub fn parse_error() -> (r: Error)
        ensures
            r@ == plain_error(-32700, "Parse error"@),
    {
        Error { code: -32700, message: Cow::Borrowed("Parse error"), data: None }
    }

    /// The payload is neither a request nor a batch of requests.
    pub fn invalid_request() -> (r: Error)
        ensures
            r@ == plain_error(-32600, "Invalid Request"@),
    {
        Error { code: -32600, message: Cow::Borrowed("Invalid Request"), data: None }
    }

    /// No method of the requested name is registered.
    pub fn method_not_found() -> (r: Error)
        ensures
            r@ == plain_error(-32601, "Method not found"@),
    {
        Error { code: -32601, message: Cow::Borrowed("Method not found"), data: None }
    }

    /// The parameters do not fit the method.
    pub fn invalid_params() -> (r: Error)
        ensures
            r@ == plain_error(-32602, "Invalid params"@),
    {
        Error { code: -32602, message: Cow::Borrowed("Invalid params"), data: None }
    }

    /// The server failed in a way that is not the request's fault.
    pub fn internal_error() -> (r: Error)
        ensures
            r@ == plain_error(-32603, "Internal error"@),
    {
        Error { code: -32603, message: Cow::Borrowed("Internal error"), data: None }
    }

    /// An error of the server's own, with the first code of the reserved range.
    pub fn server_error() -> (r: Error)
        ensures
            r@ == plain_error(-32000, "Server error"@),
    {
        Error { code: -32000, message: Cow::Borrowed("Server error"), data: None }
    }

    /// The JSON object that stands for this error.
    pub fn into_value(self) -> (r: Value)
        ensures
            json_of(r) == error_json(self@),
    {
        let Error { code, message, data } = self;
        let text = match &message {
            Cow::Borrowed(s) => json::string(s),
            Cow::Owned(s) => json::string(s.as_str()),
        };
        let mut fields: Vec<(String, Value)> = Vec::new();
        fields.push(("code".to_owned(), json::integer(code as i64)));
        fields.push(("message".to_owned(), text));
        proof {
            reveal_strlit("code");
            reveal_strlit("message");
            reveal_strlit("data");
            assert("code"@[0] != "data"@[0]);
            assert("code"@.len() != "message"@.len());
            assert("data"@.len() != "message"@.len());
            reveal_with_fuel(members_of, 4);
        }
        match data {
            Some(d) => {
                fields.push(("data".to_owned(), d));
                assert(fields@.drop_last().drop_last().drop_last() =~= Seq::empty());
            },
            None => {
                assert(fields@.drop_last().drop_last() =~= Seq::empty());
            },
        }
        assert(members_of(fields@) =~= error_json(self@)->Object_0);
        json::object(fields)
    }
}

/// The outcome of a call as a mathematical value.
pub open spec fn outcome_view(outcome: Result<Value, Error>) -> Result<Json, ErrorView> {
    match outcome {
        Ok(result) => Ok(json_of(result)),
        Err(error) => Err(error@),
    }
}

/// What is sent back for a request that names an identifier: that
/// identifier, and either the result of the call or its error.
///
/// The identifier of a response is never the marker of a notification.
pub struct Response {
    id: Id,
    outcome: Result<Value, Error>,
}

/// A response as a mathematical value.
pub ghost struct ResponseView {
    pub id: IdView,
    pub outcome: Result<Json, ErrorView>,
}

/// The JSON object that stands for a response.
pub open spec fn response_json(response: ResponseView) -> Json {
    let members = map![
        "jsonrpc"@ => Json::String("2.0"@),
        "id"@ => id_json(response.id),
    ];
    match response.outcome {
        Ok(result) => Json::Object(members.insert("result"@, result)),
        Err(error) => Json::Object(members.insert("error"@, error_json(error))),
    }
}

impl View for Response {
    type V = ResponseView;

    /// The identifier and the outcome that the response holds. The marker of
    /// a notification, which no response holds, would stand for `null`, as
    /// it would on the wire.
    closed spec fn view(&self) -> ResponseView {
        ResponseView {
            id: match self.id {
                Id::Notification => IdView::Null,
                id => id@,
            },
            outcome: outcome_view(self.outcome),
        }
    }
}

impl Response {
    #[verifier::type_invariant]
    spec fn identified(self) -> bool {
        !(self.id is Notification)
    }

    /// The response that carries the result of a call.
    pub fn ok(id: Id, result: Value) -> (r: Response)
        requires
            !(id is Notification),
        ensures
            r@ == (ResponseView { id: id@, outcome: Ok(json_of(result)) }),
    {
        Response { id, outcome: Ok(result) }
    }

    /// The response that carries the error of a call.
    pub fn error(id: Id, error: Error) -> (r: Response)
        requires
            !(id is Notification),
        ensures
            r@ == (ResponseView { id: id@, outcome: Err(error@) }),
    {
        Response { id, outcome: Err(error) }
    }

    /// No response carries the marker of a notification.
    pub proof fn carries_an_identifier(self)
        ensures
            !(self@.id is Notification),
    {
    }

    /// The identifier of the request that this answers.
    pub fn id(&self) -> (r: &Id)
        ensures
            r@ == self@.id,
            !(r is Notification),
    {
        proof {
            use_type_invariant(self);
        }
        &self.id
    }

    /// What came of the call: its result, or its error.
    pub fn outcome(&self) -> (r: Result<&Value, &Error>)
        ensures
            match r {
                Ok(result) => self@.outcome == Ok::<Json, ErrorView>(json_of(*result)),
                Err(error) => self@.outcome == Err::<Json, ErrorView>(error@),
            },
    {
        match &self.outcome {
            Ok(result) => Ok(result),
            Err(error) => Err(error),
        }
    }

    /// The JSON object that stands for this response.
    pub fn into_value(self) -> (r: Value)
        ensures
            json_of(r) == response_json(self@),
    {
        proof {
            reveal_strlit("jsonrpc");
            reveal_strlit("id");
            reveal_strlit("result");
            reveal_strlit("error");
            assert("jsonrpc"@.len() != "id"@.len());
            assert("result"@.len() != "id"@.len());
            assert("result"@.len() != "jsonrpc"@.len());
            assert("error"@.len() != "id"@.len());
            assert("error"@.len() != "jsonrpc"@.len());
            reveal_with_fuel(members_of, 4);
        }
        let ghost view = self@;
        let Response { id, outcome } = self;
        let mut fields: Vec<(String, Value)> = Vec::new();
        fields.push(("jsonrpc".to_owned(), json::string("2.0")));
        fields.push(("id".to_owned(), id.to_value()));
        match outcome {
            Ok(result) => {
                fields.push(("result".to_owned(), result));
            },
            Err(error) => {
                fields.push(("error".to_owned(), error.into_value()));
            },
        }
        assert(fields@.drop_last().drop_last().drop_last() =~= Seq::empty());
        assert(members_of(fields@) =~= response_json(view)->Object_0);
        json::object(fields)
    }
}

/// A call of a method, as a client asks for it.
pub struct Request {
    pub method: String,
    pub params: Value,
    pub id: Id,
}

/// A request as a mathematical value.
pub ghost struct RequestView {
    pub method: Seq<char>,
    pub params: Json,
    pub id: IdView,
}

impl View for Request {
    type V = RequestView;

    open spec fn view(&self) -> RequestView {
        RequestView { method: self.method@, params: json_of(self.params), id: self.id@ }
    }
}

/// The parameters that a request carries, read from its `params` member if
/// it has one: an array or an object, or `null` where the member is left
/// out. Any other member is no parameters.
pub open spec fn params_of(member: Option<Json>) -> Option<Json> {
    match member {
        None => Some(Json::Null),
        Some(Json::Array(items)) => Some(Json::Array(items)),
        Some(Json::Object(members)) => Some(Json::Object(members)),
        Some(_) => None,
    }
}

/// The request that a JSON value stands for, if it stands for one.
///
/// A request is an object whose member `jsonrpc` is the string `2.0` and
/// whose member `method` is a string. Its member `params`, if there is one,
/// is an array or an object, and its member `id`, if there is one, is an
/// identifier. Other members are ignored.
pub open spec fn request_of(value: Json) -> Option<RequestView> {
    match value {
        Json::Object(members) => {
            if members.get("jsonrpc"@) == Some(Json::String("2.0"@)) {
                match (
                    members.get("method"@),
                    params_of(members.get("params"@)),
                    id_of(members.get("id"@)),
                ) {
                    (Some(Json::String(method)), Some(params), Some(id)) => Some(
                        RequestView { method, params, id },
                    ),
                    _ => None,
                }
            } else {
                None
            }
        },
        _ => None,
    }
}

/// Whether a JSON value is the version tag of the protocol.
fn is_version(value: &Value) -> (r: bool)
    ensures
        r == (json_of(*value) == Json::String("2.0"@)),
{
    match value.as_str() {
        Some(tag) => same_text(tag, "2.0"),
        None => false,
    }
}

impl Request {
    /// Reads the request that a JSON value stands for.
    pub fn from_value(value: &Value) -> (r: Option<Request>)
        ensures
            match r {
                Some(request) => request_of(json_of(*value)) == Some(request@),
                None => request_of(json_of(*value)) is None,
            },
    {
        match json::member(value, "jsonrpc") {
            Some(tag) => {
                if !is_version(tag) {
                    return None;
                }
            },
            None => {
                return None;
            },
        }
        let method = match json::member(value, "method") {
            Some(name) => match name.as_str() {
                Some(text) => text.to_owned(),
                None => {
                    return None;
                },
            },
            None => {
                return None;
            },
        };
        let id = match json::member(value, "id") {
            Some(member) => match Id::from_value(member) {
                Some(id) => id,
                None => {
                    return None;
                },
            },
            None => Id::Notification,
        };
        let params = match json::member(value, "params") {
            Some(member) => {
                if member.as_array().is_none() && !member.is_object() {
                    return None;
                }
                member.clone()
            },
            None => json::null(),
        };
        Some(Request { method, params, id })
    }
}

/// The views of a sequence of requests, one by one.
pub open spec fn requests_view(requests: Seq<Request>) -> Seq<RequestView> {
    requests.map_values(|request: Request| request@)
}

/// The views of a sequence of responses, one by one.
pub open spec fn responses_view(responses: Seq<Response>) -> Seq<ResponseView> {
    responses.map_values(|response: Response| response@)
}

/// Whether none of the responses carries the marker of a notification.
pub open spec fn all_identified(responses: Seq<ResponseView>) -> bool {
    forall|k: int| 0 <= k < responses.len() ==> !(#[trigger] responses[k].id is Notification)
}

/// Among responses, whichever they are, none carries the marker of a
/// notification.
pub proof fn responses_are_identified(responses: Seq<Response>)
    ensures
        all_identified(responses_view(responses)),
{
    assert forall|k: int| 0 <= k < responses.len() implies !(#[trigger] responses_view(
        responses,
    )[k].id is Notification) by {
        responses[k].carries_an_identifier();
    }
}

} // verus!
