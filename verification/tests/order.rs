use json_rpc_v2::order::compare_bytes;
use json_rpc_v2::Id;
use std::cmp::Ordering;

fn samples() -> Vec<Id> {
    vec![
        Id::Number(i64::MIN),
        Id::Number(-1),
        Id::Number(0),
        Id::Number(1),
        Id::Number(i64::MAX),
        Id::String(String::new()),
        Id::String(String::from("A")),
        Id::String(String::from("a")),
        Id::String(String::from("a\u{0}")),
        Id::String(String::from("ab")),
        Id::String(String::from("b")),
        Id::String(String::from("z")),
        Id::String(String::from("é")),
        Id::String(String::from("\u{10000}")),
        Id::Null,
        Id::Notification,
    ]
}

#[test]
fn samples_are_listed_in_ascending_order() {
    let ids = samples();
    for (i, a) in ids.iter().enumerate() {
        for (j, b) in ids.iter().enumerate() {
            assert_eq!(a.partial_cmp(b), Some(i.cmp(&j)));
            assert_eq!(a < b, i < j);
            assert_eq!(a <= b, i <= j);
            assert_eq!(a > b, i > j);
            assert_eq!(a >= b, i >= j);
            assert_eq!(a == b, i == j);
        }
    }
}

#[test]
fn partial_and_total_order_agree() {
    let ids = samples();
    for a in &ids {
        for b in &ids {
            assert_eq!(a.partial_cmp(b), Some(a.cmp(b)));
        }
    }
}

#[test]
fn sorting_brings_ids_into_their_order() {
    let mut ids = samples();
    ids.reverse();
    ids.sort();
    assert_eq!(ids, samples());
}

#[test]
fn bytes_are_compared_as_slices_are() {
    let texts: Vec<&[u8]> = vec![b"", b"\x00", b"a", b"a\x00", b"ab", b"b", b"\xff", b"\xff\x00"];
    for a in &texts {
        for b in &texts {
            assert_eq!(compare_bytes(a, b), a.cmp(b));
        }
    }
    assert_eq!(compare_bytes(b"abc", b"abd"), Ordering::Less);
    assert_eq!(compare_bytes(b"abd", b"abc"), Ordering::Greater);
    assert_eq!(compare_bytes(b"abc", b"abc"), Ordering::Equal);
    assert_eq!(compare_bytes(b"ab", b"abc"), Ordering::Less);
    assert_eq!(compare_bytes(b"abc", b"ab"), Ordering::Greater);
}
