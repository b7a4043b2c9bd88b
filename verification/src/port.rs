//! Finding the port that a comm message announces.
//!
//! A kernel answers the opening of a language-server comm with a message
//! whose data names a TCP port somewhere inside it. The search prefers the
//! `params` member, then the `content` member, then the data as a whole, and
//! walks each of them depth first.

use crate::json::{
    lemma_array_view, lemma_object_view, lookup, Json, JsonObject, JsonView, MemberView,
};
use crate::text::{bounded_decimal, parse_bounded};
use vstd::prelude::*;

verus! {

/// The port that a JSON value denotes by itself: a number that is an unsigned
/// integer of at most 65535, or a string that writes one in decimal.
pub open spec fn port_value(value: JsonView) -> Option<u16> {
    match value {
        JsonView::Number(n) => match n.unsigned {
            Some(u) => if u <= u16::MAX {
                Some(u as u16)
            } else {
                None
            },
            None => None,
        },
        JsonView::String(s) => match bounded_decimal(s, u16::MAX as nat) {
            Some(n) => Some(n as u16),
            None => None,
        },
        _ => None,
    }
}

/// The port that an object names in its own `port` member.
pub open spec fn own_port(value: JsonView) -> Option<u16> {
    match value {
        JsonView::Object(members) => match lookup(members, "port"@) {
            Some(v) => port_value(v),
            None => None,
        },
        _ => None,
    }
}

/// The first port met in a depth-first walk of `value`: at an object its own
/// `port` member, else the first found in its members' values in order; at an
/// array the first found in its items in order.
pub open spec fn found_port(value: JsonView) -> Option<u16>
    decreases value,
{
    match value {
        JsonView::Object(members) => match own_port(value) {
            Some(p) => Some(p),
            None => first_port_among(members, 0),
        },
        JsonView::Array(items) => first_port_in(items, 0),
        _ => None,
    }
}

/// The first port found in `items[from..]`.
pub open spec fn first_port_in(items: Seq<JsonView>, from: int) -> Option<u16>
    decreases items, items.len() - from,
{
    if from < 0 || from >= items.len() {
        None
    } else {
        match found_port(items[from]) {
            Some(p) => Some(p),
            None => first_port_in(items, from + 1),
        }
    }
}

/// The first port found in the values of `members[from..]`.
pub open spec fn first_port_among(members: Seq<MemberView>, from: int) -> Option<u16>
    decreases members, members.len() - from,
{
    if from < 0 || from >= members.len() {
        None
    } else {
        match found_port(members[from].value) {
            Some(p) => Some(p),
            None => first_port_among(members, from + 1),
        }
    }
}

/// The port found in the member `key` of `data`, where that member is an object.
pub open spec fn port_under(data: Seq<MemberView>, key: Seq<char>) -> Option<u16> {
    match lookup(data, key) {
        Some(JsonView::Object(members)) => found_port(JsonView::Object(members)),
        _ => None,
    }
}

/// The port that the data of a comm message announces: the one found under
/// `params`, else the one found under `content`, else the one found in the
/// data as a whole.
pub open spec fn comm_port(data: Seq<MemberView>) -> Option<u16> {
    if port_under(data, "params"@) is Some {
        port_under(data, "params"@)
    } else if port_under(data, "content"@) is Some {
        port_under(data, "content"@)
    } else {
        found_port(JsonView::Object(data))
    }
}

/// Whether, somewhere in `value` (in itself or in what it holds, at any
/// depth), an object names the port `p` in its own `port` member.
pub open spec fn names_port(value: JsonView, p: u16) -> bool
    decreases value,
{
    match value {
        JsonView::Object(members) => own_port(value) == Some(p) || exists|i: int|
            0 <= i < members.len() && names_port((#[trigger] members[i]).value, p),
        JsonView::Array(items) => exists|i: int|
            0 <= i < items.len() && names_port(#[trigger] items[i], p),
        _ => false,
    }
}

/// What `first_port_in` returns is what the walk finds in the first item that
/// yields a port, and it returns nothing only where no item yields one.
pub proof fn lemma_first_port_in(items: Seq<JsonView>, from: int)
    requires
        0 <= from,
    ensures
        match first_port_in(items, from) {
            Some(p) => exists|i: int|
                from <= i < items.len() && found_port(#[trigger] items[i]) == Some(p),
            None => forall|i: int|
                from <= i < items.len() ==> found_port(#[trigger] items[i]) is None,
        },
    decreases items.len() - from,
{
    if from < items.len() {
        lemma_first_port_in(items, from + 1);
    }
}

/// What `first_port_among` returns is what the walk finds in the first member
/// whose value yields a port, and it returns nothing only where none does.
pub proof fn lemma_first_port_among(members: Seq<MemberView>, from: int)
    requires
        0 <= from,
    ensures
        match first_port_among(members, from) {
            Some(p) => exists|i: int|
                from <= i < members.len() && found_port((#[trigger] members[i]).value) == Some(p),
            None => forall|i: int|
                from <= i < members.len() ==> found_port((#[trigger] members[i]).value) is None,
        },
    decreases members.len() - from,
{
    if from < members.len() {
        lemma_first_port_among(members, from + 1);
    }
}

/// Only a number or a string denotes a port: a `port` member of any other
/// JSON type yields none.
pub proof fn lemma_port_value_kinds(value: JsonView)
    ensures
        port_value(value) is Some ==> value is Number || value is String,
        value is Null || value is Bool || value is Array || value is Object ==> port_value(value)
            is None,
{
}

/// The walk only returns a port that some object in the value names in its
/// `port` member.
pub proof fn lemma_found_port_is_named(value: JsonView)
    ensures
        found_port(value) matches Some(p) ==> names_port(value, p),
    decreases value,
{
    match value {
        JsonView::Object(members) => {
            if own_port(value) is None {
                lemma_first_port_among(members, 0);
                if first_port_among(members, 0) is Some {
                    let p = first_port_among(members, 0)->0;
                    let i = choose|i: int|
                        0 <= i < members.len() && found_port((#[trigger] members[i]).value) == Some(
                            p,
                        );
                    lemma_found_port_is_named(members[i].value);
                }
            }
        },
        JsonView::Array(items) => {
            lemma_first_port_in(items, 0);
            if first_port_in(items, 0) is Some {
                let p = first_port_in(items, 0)->0;
                let i = choose|i: int|
                    0 <= i < items.len() && found_port(#[trigger] items[i]) == Some(p);
                lemma_found_port_is_named(items[i]);
            }
        },
        _ => {},
    }
}

/// Where some object in the value names a port in its `port` member, the walk
/// returns a port.
pub proof fn lemma_named_port_is_found(value: JsonView, p: u16)
    requires
        names_port(value, p),
    ensures
        found_port(value) is Some,
    decreases value,
{
    match value {
        JsonView::Object(members) => {
            if own_port(value) is None {
                let i = choose|i: int|
                    0 <= i < members.len() && names_port((#[trigger] members[i]).value, p);
                lemma_named_port_is_found(members[i].value, p);
                lemma_first_port_among(members, 0);
            }
        },
        JsonView::Array(items) => {
            let i = choose|i: int| 0 <= i < items.len() && names_port(#[trigger] items[i], p);
            lemma_named_port_is_found(items[i], p);
            lemma_first_port_in(items, 0);
        },
        _ => {},
    }
}

/// Where the value names the port `p` in some `port` member and names no
/// other port anywhere, the walk returns `p`; where it names none, the walk
/// returns nothing.
pub proof fn lemma_find_port_complete(value: JsonView, p: u16)
    ensures
        names_port(value, p) && (forall|q: u16| names_port(value, q) ==> q == p) ==> found_port(
            value,
        ) == Some(p),
        (forall|q: u16| !names_port(value, q)) ==> found_port(value) is None,
{
    lemma_found_port_is_named(value);
    if names_port(value, p) {
        lemma_named_port_is_found(value, p);
    }
}

/// The order of preference of `comm_port`: what is found under `params`
/// comes before what is found under `content`, and that before what is found
/// in the data as a whole.
pub proof fn lemma_comm_port_preference(data: Seq<MemberView>)
    ensures
        port_under(data, "params"@) matches Some(p) ==> comm_port(data) == Some(p),
        port_under(data, "params"@) is None && port_under(data, "content"@) is Some
            ==> comm_port(data) == port_under(data, "content"@),
        port_under(data, "params"@) is None && port_under(data, "content"@) is None ==> comm_port(
            data,
        ) == found_port(JsonView::Object(data)),
{
}

/// Reads a port from the value of a `port` member, if there is one.
pub fn parse_port_value(value: Option<&Json>) -> (port: Option<u16>)
    ensures
        port == match value {
            Some(v) => port_value(v@),
            None => None,
        },
{
    match value {
        Some(Json::Number(n)) => match n.unsigned {
            Some(u) => if u <= 0xffff {
                Some(u as u16)
            } else {
                None
            },
            None => None,
        },
        Some(Json::String(s)) => match parse_bounded(s.as_str(), 0xffff) {
            Some(n) => Some(n as u16),
            None => None,
        },
        _ => None,
    }
}

/// Walks `value` depth first and returns the first port met.
#[verifier::loop_isolation(false)]
pub fn find_port(value: &Json) -> (port: Option<u16>)
    ensures
        port == found_port(value@),
    decreases value,
{
    match value {
        Json::Object(object) => {
            proof {
                lemma_object_view(*object);
            }
            find_port_in_object(object)
        },
        Json::Array(items) => {
            proof {
                lemma_array_view(*items);
            }
            let ghost views = value@->Array_0;
            let mut i: usize = 0;
            while i < items.len()
                invariant
                    i <= items.len(),
                    first_port_in(views, 0) == first_port_in(views, i as int),
                decreases items.len() - i,
            {
                let nested = find_port(&items[i]);
                if nested.is_some() {
                    return nested;
                }
                i = i + 1;
            }
            None
        },
        _ => None,
    }
}

/// Walks an object depth first and returns the first port met.
#[verifier::loop_isolation(false)]
pub fn find_port_in_object(object: &JsonObject) -> (port: Option<u16>)
    ensures
        port == found_port(JsonView::Object(object@)),
    decreases object,
{
    let own = parse_port_value(object.get("port"));
    if own.is_some() {
        return own;
    }
    let ghost views = object@;
    let mut i: usize = 0;
    while i < object.members.len()
        invariant
            i <= object.members.len(),
            first_port_among(views, 0) == first_port_among(views, i as int),
        decreases object.members.len() - i,
    {
        let nested = find_port(&object.members[i].value);
        if nested.is_some() {
            return nested;
        }
        i = i + 1;
    }
    None
}

/// The port found under the member `key` of `data`, where that member is an object.
fn find_port_under(data: &JsonObject, key: &str) -> (port: Option<u16>)
    ensures
        port == port_under(data@, key@),
{
    match data.get(key) {
        Some(Json::Object(inner)) => {
            proof {
                lemma_object_view(*inner);
            }
            find_port_in_object(inner)
        },
        _ => None,
    }
}

/// Finds the port that the data of a comm message announces.
pub fn extract_comm_port(data: &JsonObject) -> (port: Option<u16>)
    ensures
        port == comm_port(data@),
{
    let in_params = find_port_under(data, "params");
    if in_params.is_some() {
        return in_params;
    }
    let in_content = find_port_under(data, "content");
    if in_content.is_some() {
        return in_content;
    }
    find_port_in_object(data)
}

} // verus!
