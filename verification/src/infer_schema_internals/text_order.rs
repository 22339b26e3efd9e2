//! The order of texts: that of their UTF-8 bytes, compared from the front.

use vstd::prelude::*;
use vstd::utf8::encode_utf8;

verus! {

/// How one value stands to another in an order.
#[derive(Debug, Clone, Copy, PartialEq, Eq, Structural)]
pub enum Order {
    Less,
    Equal,
    Greater,
}

/// How the bytes `a` stand to the bytes `b` from index `from` on: the first
/// byte that differs decides, and where none does, the shorter comes first.
pub open spec fn bytes_order(a: Seq<u8>, b: Seq<u8>, from: int) -> Order
    decreases a.len() - from,
{
    if from < 0 || from >= a.len() {
        if from >= b.len() {
            Order::Equal
        } else {
            Order::Less
        }
    } else if from >= b.len() {
        Order::Greater
    } else if a[from] < b[from] {
        Order::Less
    } else if a[from] > b[from] {
        Order::Greater
    } else {
        bytes_order(a, b, from + 1)
    }
}

/// How the text `a` stands to the text `b`.
pub open spec fn text_order(a: Seq<char>, b: Seq<char>) -> Order {
    bytes_order(encode_utf8(a), encode_utf8(b), 0)
}

/// How an optional text stands to another: none comes before any.
pub open spec fn optional_text_order(a: Option<Seq<char>>, b: Option<Seq<char>>) -> Order {
    match (a, b) {
        (None, None) => Order::Equal,
        (None, Some(_)) => Order::Less,
        (Some(_), None) => Order::Greater,
        (Some(x), Some(y)) => text_order(x, y),
    }
}

/// Bytes are equal in the order exactly where they are the same from `from`
/// on.
pub proof fn lemma_bytes_order_equal(a: Seq<u8>, b: Seq<u8>, from: int)
    requires
        0 <= from <= a.len(),
        from <= b.len(),
    ensures
        bytes_order(a, b, from) == Order::Equal <==> a.len() == b.len() && forall|i: int|
            from <= i < a.len() ==> a[i] == b[i],
    decreases a.len() - from,
{
    if from < a.len() && from < b.len() && a[from] == b[from] {
        lemma_bytes_order_equal(a, b, from + 1);
    }
}

/// Texts are equal in the order exactly where they are the same text.
pub proof fn lemma_text_order_equal(a: Seq<char>, b: Seq<char>)
    ensures
        text_order(a, b) == Order::Equal <==> a == b,
{
    lemma_bytes_order_equal(encode_utf8(a), encode_utf8(b), 0);
    vstd::utf8::encode_utf8_decode_utf8(a);
    vstd::utf8::encode_utf8_decode_utf8(b);
    if text_order(a, b) == Order::Equal {
        assert(encode_utf8(a) =~= encode_utf8(b));
    }
}

/// How `a` stands to `b`.
pub fn order_of_text(a: &str, b: &str) -> (order: Order)
    ensures
        order == text_order(a@, b@),
{
    let left = a.as_bytes();
    let right = b.as_bytes();
    let mut i: usize = 0;
    while i < left.len() && i < right.len()
        invariant
            i <= left@.len(),
            i <= right@.len(),
            left@ == encode_utf8(a@),
            right@ == encode_utf8(b@),
            bytes_order(left@, right@, 0) == bytes_order(left@, right@, i as int),
        decreases left@.len() - i,
    {
        if left[i] < right[i] {
            return Order::Less;
        }
        if left[i] > right[i] {
            return Order::Greater;
        }
        i += 1;
    }
    if i < right.len() {
        Order::Less
    } else if i < left.len() {
        Order::Greater
    } else {
        Order::Equal
    }
}

/// How the optional text `a` stands to `b`.
pub fn order_of_optional_text(a: &Option<String>, b: &Option<String>) -> (order: Order)
    ensures
        order == optional_text_order(
            match a {
                Some(x) => Some(x@),
                None => None,
            },
            match b {
                Some(y) => Some(y@),
                None => None,
            },
        ),
{
    match (a, b) {
        (None, None) => Order::Equal,
        (None, Some(_)) => Order::Less,
        (Some(_), None) => Order::Greater,
        (Some(x), Some(y)) => order_of_text(x.as_str(), y.as_str()),
    }
}

} // verus!
