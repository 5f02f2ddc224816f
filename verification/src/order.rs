//! The order of identifiers.
//!
//! Identifiers are ordered by their kind first: numbers come before strings,
//! strings before `null`, and `null` before the marker of a notification.
//! Numbers are ordered by their value, and strings by their bytes in UTF-8.

use crate::protocol::{Id, IdView};
use crate::text::{rest_of, same_encoding_same_text};
use std::cmp::Ordering;
use vstd::prelude::*;
use vstd::string::StringSliceAdditionalSpecFns;
use vstd::utf8::encode_utf8;

verus! {

/// How two strings of bytes compare: by the first byte in which they differ,
/// and, where one begins the other, the shorter one first.
pub open spec fn bytes_order(a: Seq<u8>, b: Seq<u8>) -> Ordering
    decreases a.len(),
{
    if a.len() == 0 {
        if b.len() == 0 {
            Ordering::Equal
        } else {
            Ordering::Less
        }
    } else if b.len() == 0 {
        Ordering::Greater
    } else if a[0] < b[0] {
        Ordering::Less
    } else if a[0] > b[0] {
        Ordering::Greater
    } else {
        bytes_order(a.drop_first(), b.drop_first())
    }
}

/// The place of the kind of an identifier among the kinds.
pub open spec fn rank(id: IdView) -> int {
    match id {
        IdView::Number(_) => 0,
        IdView::String(_) => 1,
        IdView::Null => 2,
        IdView::Notification => 3,
    }
}

/// How two integers compare.
pub open spec fn int_order(a: int, b: int) -> Ordering {
    if a < b {
        Ordering::Less
    } else if a == b {
        Ordering::Equal
    } else {
        Ordering::Greater
    }
}

/// How two numbers compare.
pub open spec fn number_order(a: i64, b: i64) -> Ordering {
    if a < b {
        Ordering::Less
    } else if a == b {
        Ordering::Equal
    } else {
        Ordering::Greater
    }
}

/// How two identifiers compare.
pub open spec fn id_order(a: IdView, b: IdView) -> Ordering {
    match (a, b) {
        (IdView::Number(x), IdView::Number(y)) => number_order(x, y),
        (IdView::String(x), IdView::String(y)) => bytes_order(encode_utf8(x), encode_utf8(y)),
        _ => int_order(rank(a), rank(b)),
    }
}

/// Compares two strings of bytes.
pub fn compare_bytes(a: &[u8], b: &[u8]) -> (r: Ordering)
    ensures
        r == bytes_order(a@, b@),
{
    let mut index: usize = 0;
    assert(rest_of(a@, 0) =~= a@ && rest_of(b@, 0) =~= b@);
    while index < a.len() && index < b.len()
        invariant
            index <= a.len(),
            index <= b.len(),
            bytes_order(a@, b@) == bytes_order(rest_of(a@, index), rest_of(b@, index)),
        decreases a.len() - index,
    {
        let x = a[index];
        let y = b[index];
        assert(rest_of(a@, index)[0] == x && rest_of(b@, index)[0] == y);
        if x < y {
            return Ordering::Less;
        }
        if x > y {
            return Ordering::Greater;
        }
        let here = index;
        index += 1;
        assert(rest_of(a@, here).drop_first() =~= rest_of(a@, index));
        assert(rest_of(b@, here).drop_first() =~= rest_of(b@, index));
    }
    if index < b.len() {
        Ordering::Less
    } else if index < a.len() {
        Ordering::Greater
    } else {
        Ordering::Equal
    }
}

impl PartialOrd for Id {
    fn partial_cmp(&self, other: &Id) -> (r: Option<Ordering>) {
        match (self, other) {
            (Id::Number(a), Id::Number(b)) => {
                if *a < *b {
                    Some(Ordering::Less)
                } else if *a == *b {
                    Some(Ordering::Equal)
                } else {
                    Some(Ordering::Greater)
                }
            },
            (Id::String(a), Id::String(b)) => Some(
                compare_bytes(a.as_str().as_bytes(), b.as_str().as_bytes()),
            ),
            (Id::Number(_), _) => Some(Ordering::Less),
            (_, Id::Number(_)) => Some(Ordering::Greater),
            (Id::String(_), _) => Some(Ordering::Less),
            (_, Id::String(_)) => Some(Ordering::Greater),
            (Id::Null, Id::Null) => Some(Ordering::Equal),
            (Id::Null, Id::Notification) => Some(Ordering::Less),
            (Id::Notification, Id::Null) => Some(Ordering::Greater),
            (Id::Notification, Id::Notification) => Some(Ordering::Equal),
        }
    }
}

impl vstd::std_specs::cmp::PartialOrdSpecImpl for Id {
    open spec fn obeys_partial_cmp_spec() -> bool {
        true
    }

    open spec fn partial_cmp_spec(&self, other: &Id) -> Option<Ordering> {
        Some(id_order(self@, other@))
    }
}

/// A string of bytes compares as equal with itself.
proof fn bytes_order_of_same(a: Seq<u8>)
    ensures
        bytes_order(a, a) == Ordering::Equal,
    decreases a.len(),
{
    if a.len() > 0 {
        bytes_order_of_same(a.drop_first());
    }
}

/// Strings of bytes that compare as equal are the same.
proof fn bytes_order_of_equals(a: Seq<u8>, b: Seq<u8>)
    requires
        bytes_order(a, b) == Ordering::Equal,
    ensures
        a == b,
    decreases a.len(),
{
    if a.len() > 0 {
        bytes_order_of_equals(a.drop_first(), b.drop_first());
        assert(a =~= seq![a[0]] + a.drop_first());
        assert(b =~= seq![b[0]] + b.drop_first());
    } else {
        assert(a =~= b);
    }
}

/// One string of bytes comes before another exactly if the other comes
/// after it.
proof fn bytes_order_turned(a: Seq<u8>, b: Seq<u8>)
    ensures
        bytes_order(a, b) == Ordering::Less <==> bytes_order(b, a) == Ordering::Greater,
        bytes_order(a, b) == Ordering::Equal <==> bytes_order(b, a) == Ordering::Equal,
    decreases a.len(),
{
    if a.len() > 0 && b.len() > 0 {
        bytes_order_turned(a.drop_first(), b.drop_first());
    }
}

/// What comes before something that comes before a third comes before the
/// third.
proof fn bytes_order_chained(a: Seq<u8>, b: Seq<u8>, c: Seq<u8>)
    requires
        bytes_order(a, b) == Ordering::Less,
        bytes_order(b, c) == Ordering::Less,
    ensures
        bytes_order(a, c) == Ordering::Less,
    decreases a.len(),
{
    if a.len() > 0 && b.len() > 0 && c.len() > 0 {
        if a[0] == b[0] && b[0] == c[0] {
            bytes_order_chained(a.drop_first(), b.drop_first(), c.drop_first());
        }
    }
}

/// Every identifier compares as equal with itself.
pub proof fn order_is_reflexive(a: IdView)
    ensures
        id_order(a, a) == Ordering::Equal,
{
    if let IdView::String(text) = a {
        bytes_order_of_same(encode_utf8(text));
    }
}

/// Identifiers that compare as equal are the same identifier.
pub proof fn order_tells_apart(a: IdView, b: IdView)
    requires
        id_order(a, b) == Ordering::Equal,
    ensures
        a == b,
{
    if let (IdView::String(x), IdView::String(y)) = (a, b) {
        bytes_order_of_equals(encode_utf8(x), encode_utf8(y));
        same_encoding_same_text(x, y);
    }
}

/// One identifier comes before another exactly if the other comes after it.
pub proof fn order_is_antisymmetric(a: IdView, b: IdView)
    ensures
        id_order(a, b) == Ordering::Less <==> id_order(b, a) == Ordering::Greater,
        id_order(a, b) == Ordering::Equal <==> id_order(b, a) == Ordering::Equal,
{
    if let (IdView::String(x), IdView::String(y)) = (a, b) {
        bytes_order_turned(encode_utf8(x), encode_utf8(y));
    }
}

/// An identifier that comes before another comes before all that come after
/// that other.
pub proof fn order_is_transitive(a: IdView, b: IdView, c: IdView)
    requires
        id_order(a, b) == Ordering::Less,
        id_order(b, c) == Ordering::Less,
    ensures
        id_order(a, c) == Ordering::Less,
{
    if let (IdView::String(x), IdView::String(y), IdView::String(z)) = (a, b, c) {
        bytes_order_chained(encode_utf8(x), encode_utf8(y), encode_utf8(z));
    }
}

} // verus!
