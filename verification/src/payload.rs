//! What the bytes of a payload ask for: one request, a batch of requests, or
//! nothing that can be carried out.

use crate::json::{self, json_if_any, json_of, json_parsed, jsons_of, Json};
use crate::protocol::{
    plain_error, request_of, requests_view, Error, ErrorView, Id, IdView, Request, RequestView,
    Response, ResponseView,
};
use serde_json::Value;
use vstd::prelude::*;

verus! {

/// The byte that opens a JSON object.
pub const OBJECT_START: u8 = 0x7b;

/// The byte that opens a JSON array.
pub const ARRAY_START: u8 = 0x5b;

/// Whether a byte is white space between the tokens of a JSON text.
pub open spec fn is_space(byte: u8) -> bool {
    byte == 0x20 || byte == 0x09 || byte == 0x0a || byte == 0x0d
}

/// The first byte of a text that is not white space, if it has one.
pub open spec fn first_byte(text: Seq<u8>) -> Option<u8>
    decreases text.len(),
{
    if text.len() == 0 {
        None
    } else if is_space(text[0]) {
        first_byte(text.drop_first())
    } else {
        Some(text[0])
    }
}

/// The response that turns a payload down: it carries the error and the
/// identifier `null`, since no request was read from which to take one.
pub open spec fn rejection(error: ErrorView) -> ResponseView {
    ResponseView { id: IdView::Null, outcome: Err(error) }
}

/// The response to a payload that cannot be read as what its first byte
/// announces.
pub open spec fn unreadable() -> ResponseView {
    rejection(plain_error(-32700, "Parse error"@))
}

/// The response to a payload that is neither an object nor an array.
pub open spec fn misshapen() -> ResponseView {
    rejection(plain_error(-32600, "Invalid Request"@))
}

/// The requests that the elements of an array stand for, if each of them
/// stands for one.
pub open spec fn requests_of(items: Seq<Json>) -> Option<Seq<RequestView>> {
    if forall|i: int| 0 <= i < items.len() ==> (#[trigger] request_of(items[i])) is Some {
        Some(items.map_values(|item: Json| request_of(item).unwrap()))
    } else {
        None
    }
}

/// What a payload asks for.
pub enum Payload {
    /// One request.
    Single(Request),
    /// Several requests, to be answered together.
    Batch(Vec<Request>),
    /// Nothing that can be carried out: the response says why.
    Rejected(Response),
}

/// A payload as a mathematical value.
pub ghost enum PayloadView {
    Single(RequestView),
    Batch(Seq<RequestView>),
    Rejected(ResponseView),
}

impl View for Payload {
    type V = PayloadView;

    open spec fn view(&self) -> PayloadView {
        match self {
            Payload::Single(request) => PayloadView::Single(request@),
            Payload::Batch(requests) => PayloadView::Batch(requests_view(requests@)),
            Payload::Rejected(response) => PayloadView::Rejected(response@),
        }
    }
}

/// What a payload asks for that announces one request, given what was read
/// from it: the request that the value stands for. A payload from which no
/// value was read, or a value that stands for no request, is turned down
/// with a parse error.
pub open spec fn single_of(parsed: Option<Json>) -> PayloadView {
    match parsed {
        Some(value) => match request_of(value) {
            Some(request) => PayloadView::Single(request),
            None => PayloadView::Rejected(unreadable()),
        },
        None => PayloadView::Rejected(unreadable()),
    }
}

/// What a payload asks for that announces a batch, given what was read from
/// it: the requests that the elements of the array stand for. One element
/// that stands for no request spoils the batch: it is then turned down as a
/// whole with a parse error, as is a payload from which no array was read.
pub open spec fn batch_of(parsed: Option<Json>) -> PayloadView {
    match parsed {
        Some(Json::Array(items)) => match requests_of(items) {
            Some(requests) => PayloadView::Batch(requests),
            None => PayloadView::Rejected(unreadable()),
        },
        _ => PayloadView::Rejected(unreadable()),
    }
}

/// What the bytes of a payload ask for.
///
/// The first byte that is not white space decides: `{` announces one
/// request, `[` a batch, and anything else, or nothing at all, is turned
/// down as an invalid request.
pub open spec fn decoded(text: Seq<u8>) -> PayloadView {
    match first_byte(text) {
        Some(byte) if byte == OBJECT_START => single_of(json_parsed(text)),
        Some(byte) if byte == ARRAY_START => batch_of(json_parsed(text)),
        _ => PayloadView::Rejected(misshapen()),
    }
}

/// Tells whether a byte is white space between the tokens of a JSON text:
/// a space, a tab, a line feed or a carriage return.
pub fn space(byte: u8) -> (r: bool)
    ensures
        r == is_space(byte),
{
    byte == 0x20 || byte == 0x09 || byte == 0x0a || byte == 0x0d
}

/// Finds the first byte of a text that is not white space.
pub fn leading_byte(text: &[u8]) -> (r: Option<u8>)
    ensures
        r == first_byte(text@),
{
    let mut index: usize = 0;
    assert(text@.skip(0) =~= text@);
    while index < text.len()
        invariant
            index <= text.len(),
            first_byte(text@) == first_byte(text@.skip(index as int)),
        decreases text.len() - index,
    {
        let byte = text[index];
        if !space(byte) {
            assert(text@.skip(index as int)[0] == byte);
            return Some(byte);
        }
        assert(text@.skip(index as int).drop_first() =~= text@.skip(index + 1));
        index += 1;
    }
    None
}

/// The response that turns down a payload that cannot be read.
pub fn parse_error() -> (r: Response)
    ensures
        r@ == unreadable(),
{
    Response::error(Id::Null, Error::parse_error())
}

/// The response that turns down a payload that is neither an object nor an
/// array.
pub fn invalid_request() -> (r: Response)
    ensures
        r@ == misshapen(),
{
    Response::error(Id::Null, Error::invalid_request())
}

/// Reads the requests that the elements of an array stand for. One element
/// that stands for none spoils them all.
pub fn read_batch(items: &Vec<Value>) -> (r: Option<Vec<Request>>)
    ensures
        match r {
            Some(requests) => requests_of(jsons_of(items@)) == Some(requests_view(requests@)),
            None => requests_of(jsons_of(items@)) is None,
        },
{
    let mut requests: Vec<Request> = Vec::with_capacity(items.len());
    let mut index: usize = 0;
    while index < items.len()
        invariant
            index <= items.len(),
            requests.len() == index,
            forall|k: int|
                0 <= k < index ==> request_of(json_of(items@[k])) == Some(
                    (#[trigger] requests@[k])@,
                ),
        decreases items.len() - index,
    {
        match Request::from_value(&items[index]) {
            Some(request) => {
                requests.push(request);
            },
            None => {
                assert(request_of(jsons_of(items@)[index as int]) is None);
                return None;
            },
        }
        index += 1;
    }
    proof {
        let trees = jsons_of(items@);
        assert forall|i: int| 0 <= i < trees.len() implies (#[trigger] request_of(
            trees[i],
        )) is Some by {
            assert(request_of(json_of(items@[i])) == Some(requests@[i]@));
        }
        assert(requests_view(requests@) =~= trees.map_values(
            |item: Json| request_of(item).unwrap(),
        )) by {
            assert forall|i: int| 0 <= i < trees.len() implies requests@[i]@ == request_of(
                trees[i],
            ).unwrap() by {
                assert(request_of(json_of(items@[i])) == Some(requests@[i]@));
            }
        }
    }
    Some(requests)
}

/// Reads what a payload asks for that announces one request, from the value
/// that was read from it, if one was.
pub fn single_payload(parsed: Option<Value>) -> (r: Payload)
    ensures
        r@ == single_of(json_if_any(parsed)),
{
    match parsed {
        Some(value) => match Request::from_value(&value) {
            Some(request) => Payload::Single(request),
            None => Payload::Rejected(parse_error()),
        },
        None => Payload::Rejected(parse_error()),
    }
}

/// Reads what a payload asks for that announces a batch, from the value that
/// was read from it, if one was.
pub fn batch_payload(parsed: Option<Value>) -> (r: Payload)
    ensures
        r@ == batch_of(json_if_any(parsed)),
{
    match parsed {
        Some(value) => match value.as_array() {
            Some(items) => match read_batch(items) {
                Some(requests) => Payload::Batch(requests),
                None => Payload::Rejected(parse_error()),
            },
            None => Payload::Rejected(parse_error()),
        },
        None => Payload::Rejected(parse_error()),
    }
}

/// Reads what the bytes of a payload ask for.
pub fn decode(text: &[u8]) -> (r: Payload)
    ensures
        r@ == decoded(text@),
{
    match leading_byte(text) {
        Some(byte) if byte == OBJECT_START => single_payload(json::parse(text)),
        Some(byte) if byte == ARRAY_START => batch_payload(json::parse(text)),
        _ => Payload::Rejected(invalid_request()),
    }
}

} // verus!
