//! JSON values as the sidecar reads them.
//!
//! An object keeps its members in the order in which they were written, and a
//! number keeps its literal text beside its value as an unsigned integer.

use crate::text::{decimal_digits, decimal_text, same_text};
use serde_json::Value;
use vstd::prelude::*;

verus! {

/// A value of `serde_json`, as its parser hands it out.
#[verifier::external_type_specification]
#[verifier::external_body]
pub struct ExValue(serde_json::Value);

/// What `serde_json` reads from a text: the value that the text writes, or
/// `None` where the text is not one JSON value.
pub uninterp spec fn parsed_json(text: Seq<char>) -> Option<JsonView>;

/// A JSON number: its literal text and, where the literal is a non-negative
/// integer that fits in 64 bits, that integer.
#[derive(Debug, PartialEq, Eq)]
pub struct JsonNumber {
    pub text: String,
    pub unsigned: Option<u64>,
}

/// A JSON value.
#[derive(Debug, PartialEq, Eq)]
pub enum Json {
    Null,
    Bool(bool),
    Number(JsonNumber),
    String(String),
    Array(Vec<Json>),
    Object(JsonObject),
}

/// One `key: value` pair of an object.
#[derive(Debug, PartialEq, Eq)]
pub struct Member {
    pub key: String,
    pub value: Json,
}

/// A JSON object: its members, first written first.
#[derive(Debug, PartialEq, Eq)]
pub struct JsonObject {
    pub members: Vec<Member>,
}

/// What a [`JsonNumber`] stands for.
pub struct NumberView {
    pub text: Seq<char>,
    pub unsigned: Option<u64>,
}

/// What a [`Member`] stands for.
pub struct MemberView {
    pub key: Seq<char>,
    pub value: JsonView,
}

/// What a [`Json`] stands for.
pub enum JsonView {
    Null,
    Bool(bool),
    Number(NumberView),
    String(Seq<char>),
    Array(Seq<JsonView>),
    Object(Seq<MemberView>),
}

impl View for JsonNumber {
    type V = NumberView;

    open spec fn view(&self) -> NumberView {
        NumberView { text: self.text@, unsigned: self.unsigned }
    }
}

/// What `value` stands for.
pub open spec fn json_view(value: Json) -> JsonView
    decreases value,
{
    match value {
        Json::Null => JsonView::Null,
        Json::Bool(b) => JsonView::Bool(b),
        Json::Number(n) => JsonView::Number(n@),
        Json::String(s) => JsonView::String(s@),
        Json::Array(items) => JsonView::Array(items_view(items@, items@.len())),
        Json::Object(object) => JsonView::Object(
            members_view(object.members@, object.members@.len()),
        ),
    }
}

/// What the first `n` of `items` stand for.
pub open spec fn items_view(items: Seq<Json>, n: nat) -> Seq<JsonView>
    decreases items, n,
{
    if n == 0 || n > items.len() {
        Seq::empty()
    } else {
        items_view(items, (n - 1) as nat).push(json_view(items[n - 1]))
    }
}

/// What the first `n` of `members` stand for.
pub open spec fn members_view(members: Seq<Member>, n: nat) -> Seq<MemberView>
    decreases members, n,
{
    if n == 0 || n > members.len() {
        Seq::empty()
    } else {
        members_view(members, (n - 1) as nat).push(
            MemberView { key: members[n - 1].key@, value: json_view(members[n - 1].value) },
        )
    }
}

impl View for Json {
    type V = JsonView;

    open spec fn view(&self) -> JsonView {
        json_view(*self)
    }
}

impl View for Member {
    type V = MemberView;

    open spec fn view(&self) -> MemberView {
        MemberView { key: self.key@, value: self.value@ }
    }
}

impl View for JsonObject {
    type V = Seq<MemberView>;

    open spec fn view(&self) -> Seq<MemberView> {
        Seq::new(self.members.len() as nat, |i: int| self.members[i]@)
    }
}

/// The value of the first member of `members` whose key is `key`.
pub open spec fn lookup(members: Seq<MemberView>, key: Seq<char>) -> Option<JsonView>
    decreases members.len(),
{
    if members.len() == 0 {
        None
    } else if members[0].key == key {
        Some(members[0].value)
    } else {
        lookup(members.drop_first(), key)
    }
}

/// The member `key` of `members`, where it is a string.
pub open spec fn string_member(members: Seq<MemberView>, key: Seq<char>) -> Option<Seq<char>> {
    match lookup(members, key) {
        Some(JsonView::String(s)) => Some(s),
        _ => None,
    }
}

/// The member `key` of `members`, where it is an object.
pub open spec fn object_member(members: Seq<MemberView>, key: Seq<char>) -> Option<
    Seq<MemberView>,
> {
    match lookup(members, key) {
        Some(JsonView::Object(inner)) => Some(inner),
        _ => None,
    }
}

/// The index of the first member of `members` whose key is `key`.
pub open spec fn position(members: Seq<MemberView>, key: Seq<char>) -> Option<int>
    decreases members.len(),
{
    if members.len() == 0 {
        None
    } else if members[0].key == key {
        Some(0int)
    } else {
        match position(members.drop_first(), key) {
            Some(i) => Some(i + 1),
            None => None,
        }
    }
}

/// `members` with `key` set to `value`: in the place of the first member that
/// had the key, or at the end where none had it.
pub open spec fn with_member(members: Seq<MemberView>, key: Seq<char>, value: JsonView) -> Seq<
    MemberView,
> {
    match position(members, key) {
        Some(i) => members.update(i, MemberView { key, value }),
        None => members.push(MemberView { key, value }),
    }
}

/// `position` names a member with the key before which no member has it, and
/// `lookup` gives that member's value.
pub proof fn lemma_position(members: Seq<MemberView>, key: Seq<char>)
    ensures
        match position(members, key) {
            Some(i) => {
                &&& 0 <= i < members.len()
                &&& members[i].key == key
                &&& lookup(members, key) == Some(members[i].value)
                &&& forall|k: int| 0 <= k < i ==> (#[trigger] members[k]).key != key
            },
            None => {
                &&& lookup(members, key) is None
                &&& forall|k: int| 0 <= k < members.len() ==> (#[trigger] members[k]).key != key
            },
        },
    decreases members.len(),
{
    if members.len() > 0 && members[0].key != key {
        let rest = members.drop_first();
        lemma_position(rest, key);
        match position(rest, key) {
            Some(i) => {
                assert forall|k: int| 0 <= k < i + 1 implies (#[trigger] members[k]).key != key by {
                    if k > 0 {
                        assert(rest[k - 1] == members[k]);
                    }
                }
            },
            None => {
                assert forall|k: int| 0 <= k < members.len() implies (#[trigger] members[k]).key
                    != key by {
                    if k > 0 {
                        assert(rest[k - 1] == members[k]);
                    }
                }
            },
        }
    }
}

/// Where no member before index `i` has the key and the member at `i` has it,
/// `position` is `i`.
pub proof fn lemma_position_is(members: Seq<MemberView>, key: Seq<char>, i: int)
    requires
        0 <= i < members.len(),
        members[i].key == key,
        forall|k: int| 0 <= k < i ==> (#[trigger] members[k]).key != key,
    ensures
        position(members, key) == Some(i),
        lookup(members, key) == Some(members[i].value),
    decreases i,
{
    if i > 0 {
        let rest = members.drop_first();
        assert forall|k: int| 0 <= k < i - 1 implies (#[trigger] rest[k]).key != key by {
            assert(rest[k] == members[k + 1]);
        }
        lemma_position_is(rest, key, i - 1);
    }
}

/// Where no member has the key, `position` and `lookup` find nothing.
pub proof fn lemma_position_none(members: Seq<MemberView>, key: Seq<char>)
    requires
        forall|k: int| 0 <= k < members.len() ==> (#[trigger] members[k]).key != key,
    ensures
        position(members, key) is None,
        lookup(members, key) is None,
    decreases members.len(),
{
    if members.len() > 0 {
        let rest = members.drop_first();
        assert forall|k: int| 0 <= k < rest.len() implies (#[trigger] rest[k]).key != key by {
            assert(rest[k] == members[k + 1]);
        }
        lemma_position_none(rest, key);
    }
}

/// After a member is put at the end of an object that lacked its key,
/// `lookup` finds it.
pub proof fn lemma_lookup_pushed(members: Seq<MemberView>, key: Seq<char>, value: JsonView)
    requires
        lookup(members, key) is None,
    ensures
        lookup(members.push(MemberView { key, value }), key) == Some(value),
    decreases members.len(),
{
    let pushed = members.push(MemberView { key, value });
    if members.len() == 0 {
        assert(pushed.drop_first() =~= members);
    } else {
        lemma_lookup_pushed(members.drop_first(), key, value);
        assert(pushed.drop_first() =~= members.drop_first().push(MemberView { key, value }));
    }
}

/// Putting a member at the end of an object changes nothing for a key
/// other than the member's.
pub proof fn lemma_lookup_pushed_other(
    members: Seq<MemberView>,
    key: Seq<char>,
    value: JsonView,
    other: Seq<char>,
)
    requires
        other != key,
    ensures
        lookup(members.push(MemberView { key, value }), other) == lookup(members, other),
    decreases members.len(),
{
    let pushed = members.push(MemberView { key, value });
    if members.len() == 0 {
        assert(pushed.drop_first() =~= members);
    } else {
        lemma_lookup_pushed_other(members.drop_first(), key, value, other);
        assert(pushed.drop_first() =~= members.drop_first().push(MemberView { key, value }));
    }
}

proof fn lemma_items_view(items: Seq<Json>, n: nat)
    requires
        n <= items.len(),
    ensures
        items_view(items, n).len() == n,
        forall|i: int| 0 <= i < n ==> (#[trigger] items_view(items, n)[i]) == items[i]@,
    decreases n,
{
    if n > 0 {
        lemma_items_view(items, (n - 1) as nat);
    }
}

proof fn lemma_members_view(members: Seq<Member>, n: nat)
    requires
        n <= members.len(),
    ensures
        members_view(members, n).len() == n,
        forall|i: int| 0 <= i < n ==> (#[trigger] members_view(members, n)[i]) == members[i]@,
    decreases n,
{
    if n > 0 {
        lemma_members_view(members, (n - 1) as nat);
    }
}

/// The view of an array is the views of its items, in order.
pub proof fn lemma_array_view(items: Vec<Json>)
    ensures
        Json::Array(items)@ == JsonView::Array(Seq::new(items.len() as nat, |i: int| items[i]@)),
{
    lemma_items_view(items@, items@.len());
    assert(Json::Array(items)@->Array_0 =~= Seq::new(items.len() as nat, |i: int| items[i]@));
}

/// The view of an object is the views of its members, in order.
pub proof fn lemma_object_view(object: JsonObject)
    ensures
        Json::Object(object)@ == JsonView::Object(object@),
{
    lemma_members_view(object.members@, object.members@.len());
    assert(Json::Object(object)@->Object_0 =~= object@);
}

/// Copies a value of `serde_json` into a [`Json`], member by member: each
/// variant of `serde_json::Value` becomes the variant of the same name, an
/// object's members are taken in the order in which `serde_json` walks them,
/// and a number keeps what `Number::to_string` and `Number::as_u64` give.
#[verifier::external_body]
fn json_from_value(value: &Value) -> Json {
    match value {
        Value::Null => Json::Null,
        Value::Bool(b) => Json::Bool(*b),
        Value::Number(n) => Json::Number(JsonNumber { text: n.to_string(), unsigned: n.as_u64() }),
        Value::String(s) => Json::String(s.clone()),
        Value::Array(items) => Json::Array(items.iter().map(json_from_value).collect()),
        Value::Object(map) => {
            let member = |(k, v)| Member { key: String::clone(k), value: json_from_value(v) };
            Json::Object(JsonObject { members: map.iter().map(member).collect() })
        },
    }
}

/// Reads one JSON value from `text` with `serde_json::from_str`. The result
/// depends on the text alone; it is named `parsed_json` and not described
/// further.
#[verifier::external_body]
fn read_json(text: &str) -> (value: Option<Json>)
    ensures
        match value {
            Some(v) => parsed_json(text@) == Some(v@),
            None => parsed_json(text@) is None,
        },
{
    match serde_json::from_str::<Value>(text) {
        Ok(value) => Some(json_from_value(&value)),
        Err(_) => None,
    }
}

/// What `serde_json` writes for a value: its compact JSON text.
pub uninterp spec fn rendered_json(value: JsonView) -> Seq<char>;

/// Copies a [`Json`] into a value of `serde_json`, member by member: each
/// variant becomes the variant of the same name, an object's members are
/// inserted in their order, and a number is what `serde_json` reads from
/// its literal (`null` where it reads none).
#[verifier::external_body]
fn value_from_json(value: &Json) -> Value {
    match value {
        Json::Null => Value::Null,
        Json::Bool(b) => Value::Bool(*b),
        Json::Number(n) => n.text.parse::<serde_json::Number>().map_or(Value::Null, Value::Number),
        Json::String(s) => Value::String(s.clone()),
        Json::Array(items) => Value::Array(items.iter().map(value_from_json).collect()),
        Json::Object(object) => {
            let member = |m: &Member| (m.key.clone(), value_from_json(&m.value));
            Value::Object(object.members.iter().map(member).collect())
        },
    }
}

/// Writes a value as compact JSON with `serde_json`'s `Value::to_string`.
/// The result depends on the value alone; it is named `rendered_json` and
/// not described further.
#[verifier::external_body]
fn write_json(value: &Json) -> (text: String)
    ensures
        text@ == rendered_json(value@),
{
    value_from_json(value).to_string()
}

/// Writes a value as one line of compact JSON.
pub fn render_json(value: &Json) -> (text: String)
    ensures
        text@ == rendered_json(value@),
{
    write_json(value)
}

/// Reads one JSON value from `text`; `None` where the text is not one.
pub fn parse_json(text: &str) -> (value: Option<Json>)
    ensures
        match value {
            Some(v) => parsed_json(text@) == Some(v@),
            None => parsed_json(text@) is None,
        },
{
    read_json(text)
}

impl JsonNumber {
    /// The number `n`, with its decimal literal.
    pub fn from_u64(n: u64) -> (out: Self)
        ensures
            out@ == (NumberView { text: decimal_digits(n as nat), unsigned: Some(n) }),
    {
        JsonNumber { text: decimal_text(n), unsigned: Some(n) }
    }
}

impl Json {
    /// The string `text` as a JSON value.
    pub fn string(text: &str) -> (out: Self)
        ensures
            out@ == JsonView::String(text@),
    {
        Json::String(text.to_string())
    }

    /// The number `n` as a JSON value.
    pub fn number(n: u64) -> (out: Self)
        ensures
            out@ == JsonView::Number(
                NumberView { text: decimal_digits(n as nat), unsigned: Some(n) },
            ),
    {
        Json::Number(JsonNumber::from_u64(n))
    }
}

impl JsonObject {
    /// An object without members.
    pub fn new() -> (out: Self)
        ensures
            out@ == Seq::<MemberView>::empty(),
    {
        let out = JsonObject { members: Vec::new() };
        assert(out@ =~= Seq::<MemberView>::empty());
        out
    }

    /// The index of the first member whose key is `key`.
    pub fn find(&self, key: &str) -> (at: Option<usize>)
        ensures
            match at {
                Some(i) => position(self@, key@) == Some(i as int),
                None => position(self@, key@) is None,
            },
    {
        let mut i: usize = 0;
        while i < self.members.len()
            invariant
                i <= self.members.len(),
                forall|k: int| 0 <= k < i ==> (#[trigger] self@[k]).key != key@,
            decreases self.members.len() - i,
        {
            if same_text(self.members[i].key.as_str(), key) {
                proof {
                    lemma_position_is(self@, key@, i as int);
                }
                return Some(i);
            }
            i = i + 1;
        }
        proof {
            lemma_position_none(self@, key@);
        }
        None
    }

    /// The value of the first member whose key is `key`.
    pub fn get(&self, key: &str) -> (found: Option<&Json>)
        ensures
            match found {
                Some(value) => lookup(self@, key@) == Some(value@),
                None => lookup(self@, key@) is None,
            },
    {
        proof {
            lemma_position(self@, key@);
        }
        match self.find(key) {
            Some(i) => Some(&self.members[i].value),
            None => None,
        }
    }

    /// The member `key`, where it is a string.
    pub fn get_str(&self, key: &str) -> (found: Option<&String>)
        ensures
            match found {
                Some(s) => string_member(self@, key@) == Some(s@),
                None => string_member(self@, key@) is None,
            },
    {
        match self.get(key) {
            Some(Json::String(s)) => Some(s),
            _ => None,
        }
    }

    /// The member `key`, where it is an object.
    pub fn get_object(&self, key: &str) -> (found: Option<&JsonObject>)
        ensures
            match found {
                Some(o) => object_member(self@, key@) == Some(o@),
                None => object_member(self@, key@) is None,
            },
    {
        match self.get(key) {
            Some(Json::Object(inner)) => {
                proof {
                    lemma_object_view(*inner);
                }
                Some(inner)
            },
            _ => None,
        }
    }

    /// Puts a new last member under `key`, whatever members there are.
    pub fn push(&mut self, key: &str, value: Json)
        ensures
            final(self)@ == old(self)@.push(MemberView { key: key@, value: value@ }),
    {
        self.members.push(Member { key: key.to_string(), value });
        assert(self@ =~= old(self)@.push(MemberView { key: key@, value: value@ }));
    }

    /// This object as a JSON value.
    pub fn into_json(self) -> (out: Json)
        ensures
            out@ == JsonView::Object(self@),
    {
        proof {
            lemma_object_view(self);
        }
        Json::Object(self)
    }

    /// Sets `key` to `value`: in place where the object has the key, at the
    /// end where it has not.
    pub fn insert(&mut self, key: String, value: Json)
        ensures
            final(self)@ == with_member(old(self)@, key@, value@),
    {
        proof {
            lemma_position(self@, key@);
        }
        match self.find(key.as_str()) {
            Some(i) => {
                self.members.set(i, Member { key, value });
                assert(self@ =~= with_member(old(self)@, key@, value@));
            },
            None => {
                self.members.push(Member { key, value });
                assert(self@ =~= with_member(old(self)@, key@, value@));
            },
        }
    }
}

impl Clone for JsonNumber {
    fn clone(&self) -> (out: Self)
        ensures
            out@ == self@,
    {
        JsonNumber { text: self.text.clone(), unsigned: self.unsigned }
    }
}

impl Clone for Json {
    #[verifier::loop_isolation(false)]
    fn clone(&self) -> (out: Self)
        ensures
            out@ == self@,
        decreases self,
    {
        match self {
            Json::Null => Json::Null,
            Json::Bool(b) => Json::Bool(*b),
            Json::Number(n) => Json::Number(n.clone()),
            Json::String(s) => Json::String(s.clone()),
            Json::Array(items) => {
                let mut out: Vec<Json> = Vec::new();
                let mut i: usize = 0;
                while i < items.len()
                    invariant
                        i <= items.len(),
                        out.len() == i,
                        forall|k: int| 0 <= k < i ==> out[k]@ == items[k]@,
                    decreases items.len() - i,
                {
                    out.push(items[i].clone());
                    i = i + 1;
                }
                proof {
                    lemma_array_view(out);
                    lemma_array_view(*items);
                    assert(Seq::new(out.len() as nat, |i: int| out[i]@) =~= Seq::new(
                        items.len() as nat,
                        |i: int| items[i]@,
                    ));
                }
                Json::Array(out)
            },
            Json::Object(object) => {
                let copy = object.clone();
                proof {
                    lemma_object_view(copy);
                    lemma_object_view(*object);
                }
                Json::Object(copy)
            },
        }
    }
}

impl Clone for Member {
    fn clone(&self) -> (out: Self)
        ensures
            out@ == self@,
        decreases self,
    {
        Member { key: self.key.clone(), value: self.value.clone() }
    }
}

impl Clone for JsonObject {
    fn clone(&self) -> (out: Self)
        ensures
            out@ == self@,
        decreases self,
    {
        let mut members: Vec<Member> = Vec::new();
        let mut i: usize = 0;
        while i < self.members.len()
            invariant
                i <= self.members.len(),
                members.len() == i,
                forall|k: int| 0 <= k < i ==> members[k]@ == self.members[k]@,
            decreases self.members.len() - i,
        {
            members.push(self.members[i].clone());
            i = i + 1;
        }
        let out = JsonObject { members };
        assert(out@ =~= self@);
        out
    }
}

} // verus!
