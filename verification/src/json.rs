//! A JSON document model for the values the service reads from its upstream
//! services and writes back to its clients.
//!
//! The HTTP layer turns wire JSON into a [`Json`] value before the library
//! looks at it, and turns the library's [`Json`] answers back into wire JSON.
//! The accessors here follow the lookup rules of `serde_json::Value`:
//! a missing key or an index out of range reads as nothing (JSON `null`).
use vstd::prelude::*;

use crate::text::str_eq;

verus! {

/// A JSON number, held the way `serde_json` holds one: a non-negative
/// integer, a negative integer, or a finite floating-point value (kept as the
/// bit pattern of the `f64`).
#[derive(Debug, Clone, Copy, PartialEq, Eq, Structural)]
pub enum JsonNumber {
    PosInt(u64),
    NegInt(i64),
    Float(u64),
}

/// One `"key": value` entry of a JSON object.
#[derive(Debug, PartialEq)]
pub struct Member {
    pub key: String,
    pub value: Json,
}

/// A JSON value. Objects keep their entries in order.
#[derive(Debug, PartialEq)]
pub enum Json {
    Null,
    Bool(bool),
    Number(JsonNumber),
    Str(String),
    Array(Vec<Json>),
    Object(Vec<Member>),
}

/// The mathematical value of a JSON document.
pub enum JsonV {
    Null,
    Bool(bool),
    Number(JsonNumber),
    Str(Seq<char>),
    Array(Seq<JsonV>),
    Object(Seq<(Seq<char>, JsonV)>),
}

pub open spec fn json_view(j: Json) -> JsonV
    decreases j,
{
    match j {
        Json::Null => JsonV::Null,
        Json::Bool(b) => JsonV::Bool(b),
        Json::Number(n) => JsonV::Number(n),
        Json::Str(s) => JsonV::Str(s@),
        Json::Array(items) => JsonV::Array(
            Seq::new(
                items@.len(),
                |i: int|
                    if 0 <= i < items@.len() {
                        json_view(items@[i])
                    } else {
                        JsonV::Null
                    },
            ),
        ),
        Json::Object(members) => JsonV::Object(
            Seq::new(
                members@.len(),
                |i: int|
                    if 0 <= i < members@.len() {
                        (members@[i].key@, json_view(members@[i].value))
                    } else {
                        (Seq::empty(), JsonV::Null)
                    },
            ),
        ),
    }
}

impl View for Json {
    type V = JsonV;

    open spec fn view(&self) -> JsonV {
        json_view(*self)
    }
}

/// The views of a sequence of JSON values.
pub open spec fn views(items: Seq<Json>) -> Seq<JsonV> {
    Seq::new(items.len(), |i: int| items[i]@)
}

/// The views of a sequence of object entries.
pub open spec fn member_views(members: Seq<Member>) -> Seq<(Seq<char>, JsonV)> {
    Seq::new(members.len(), |i: int| (members[i].key@, members[i].value@))
}

/// The first entry at or after position `i` whose key is `key`.
pub open spec fn lookup_from(entries: Seq<(Seq<char>, JsonV)>, key: Seq<char>, i: int) -> Option<
    JsonV,
>
    decreases entries.len() - i,
{
    if i < 0 || i >= entries.len() {
        None
    } else if entries[i].0 == key {
        Some(entries[i].1)
    } else {
        lookup_from(entries, key, i + 1)
    }
}

pub open spec fn jobj(entries: Seq<(Seq<char>, JsonV)>) -> JsonV {
    JsonV::Object(entries)
}

pub open spec fn jarr(items: Seq<JsonV>) -> JsonV {
    JsonV::Array(items)
}

pub open spec fn jstr(s: Seq<char>) -> JsonV {
    JsonV::Str(s)
}

pub open spec fn juint(n: u64) -> JsonV {
    JsonV::Number(JsonNumber::PosInt(n))
}

/// The JSON number `serde_json` makes of an `i64`.
pub open spec fn jint(n: i64) -> JsonV {
    if n >= 0 {
        JsonV::Number(JsonNumber::PosInt(n as u64))
    } else {
        JsonV::Number(JsonNumber::NegInt(n))
    }
}

impl JsonV {
    /// `value.get(key)`: the entry of an object, nothing for any other value.
    pub open spec fn field(self, key: Seq<char>) -> Option<JsonV> {
        match self {
            JsonV::Object(entries) => lookup_from(entries, key, 0),
            _ => None,
        }
    }

    /// `value.get(i)`: the element of an array, nothing for any other value.
    pub open spec fn item(self, i: int) -> Option<JsonV> {
        match self {
            JsonV::Array(items) => if 0 <= i < items.len() {
                Some(items[i])
            } else {
                None
            },
            _ => None,
        }
    }

    /// `value[key]`: like `field`, with `null` for nothing.
    pub open spec fn at_key(self, key: Seq<char>) -> JsonV {
        match self.field(key) {
            Some(v) => v,
            None => JsonV::Null,
        }
    }

    /// `value[i]`: like `item`, with `null` for nothing.
    pub open spec fn at_index(self, i: int) -> JsonV {
        match self.item(i) {
            Some(v) => v,
            None => JsonV::Null,
        }
    }

    pub open spec fn as_str(self) -> Option<Seq<char>> {
        match self {
            JsonV::Str(s) => Some(s),
            _ => None,
        }
    }

    /// `as_u64`: only a non-negative integer reads as one.
    pub open spec fn as_u64(self) -> Option<u64> {
        match self {
            JsonV::Number(JsonNumber::PosInt(n)) => Some(n),
            _ => None,
        }
    }

    pub open spec fn as_array(self) -> Option<Seq<JsonV>> {
        match self {
            JsonV::Array(items) => Some(items),
            _ => None,
        }
    }

    /// `as_f64().is_some()`: every JSON number reads as a float.
    pub open spec fn is_number(self) -> bool {
        self is Number
    }

    pub open spec fn as_number(self) -> Option<JsonNumber> {
        match self {
            JsonV::Number(n) => Some(n),
            _ => None,
        }
    }
}

/// The value an optional reference stands for: `None` reads as `null`,
/// as it does along a chain of `value[..]` lookups.
pub open spec fn opt_view(v: Option<&Json>) -> JsonV {
    match v {
        Some(j) => j@,
        None => JsonV::Null,
    }
}

/// `value[key]` along a chain of lookups.
pub fn field_of<'a>(v: Option<&'a Json>, key: &str) -> (r: Option<&'a Json>)
    ensures
        opt_view(r) == opt_view(v).at_key(key@),
{
    match v {
        Some(j) => j.get(key),
        None => None,
    }
}

/// `value[i]` along a chain of lookups.
pub fn index_of<'a>(v: Option<&'a Json>, i: usize) -> (r: Option<&'a Json>)
    ensures
        opt_view(r) == opt_view(v).at_index(i as int),
{
    match v {
        Some(j) => j.item(i),
        None => None,
    }
}

/// `value.as_str()` at the end of a chain of lookups.
pub fn str_of<'a>(v: Option<&'a Json>) -> (r: Option<&'a str>)
    ensures
        match r {
            Some(s) => opt_view(v).as_str() == Some(s@),
            None => opt_view(v).as_str() is None,
        },
{
    match v {
        Some(j) => j.as_str(),
        None => None,
    }
}

/// `value.as_u64()` at the end of a chain of lookups.
pub fn u64_of(v: Option<&Json>) -> (r: Option<u64>)
    ensures
        r == opt_view(v).as_u64(),
{
    match v {
        Some(j) => j.as_u64(),
        None => None,
    }
}

/// The number at the end of a chain of lookups, if it is one.
pub fn number_of(v: Option<&Json>) -> (r: Option<JsonNumber>)
    ensures
        r == opt_view(v).as_number(),
{
    match v {
        Some(Json::Number(n)) => Some(*n),
        _ => None,
    }
}

/// `value.as_array()` at the end of a chain of lookups.
pub fn array_of<'a>(v: Option<&'a Json>) -> (r: Option<&'a Vec<Json>>)
    ensures
        match r {
            Some(items) => opt_view(v).as_array() == Some(views(items@)),
            None => opt_view(v).as_array() is None,
        },
{
    match v {
        Some(j) => j.as_array(),
        None => None,
    }
}

proof fn lemma_array_view(items: Vec<Json>)
    ensures
        Json::Array(items)@ == JsonV::Array(views(items@)),
{
    assert(Json::Array(items)@->Array_0 =~= views(items@));
}

proof fn lemma_object_view(members: Vec<Member>)
    ensures
        Json::Object(members)@ == JsonV::Object(member_views(members@)),
{
    assert(Json::Object(members)@->Object_0 =~= member_views(members@));
}

impl Json {
    /// `value.get(key)` on an object.
    pub fn get(&self, key: &str) -> (r: Option<&Json>)
        ensures
            match r {
                Some(v) => self@.field(key@) == Some(v@),
                None => self@.field(key@) is None,
            },
    {
        match self {
            Json::Object(members) => {
                proof {
                    lemma_object_view(*members);
                }
                let ghost entries = member_views(members@);
                let mut i: usize = 0;
                while i < members.len()
                    invariant
                        0 <= i <= members@.len(),
                        entries == member_views(members@),
                        self@ == JsonV::Object(entries),
                        lookup_from(entries, key@, 0) == lookup_from(entries, key@, i as int),
                    decreases members@.len() - i,
                {
                    if str_eq(members[i].key.as_str(), key) {
                        return Some(&members[i].value);
                    }
                    i += 1;
                }
                None
            },
            _ => None,
        }
    }

    /// `value.get(i)` on an array.
    pub fn item(&self, i: usize) -> (r: Option<&Json>)
        ensures
            match r {
                Some(v) => self@.item(i as int) == Some(v@),
                None => self@.item(i as int) is None,
            },
    {
        match self {
            Json::Array(items) => {
                proof {
                    lemma_array_view(*items);
                }
                if i < items.len() {
                    Some(&items[i])
                } else {
                    None
                }
            },
            _ => None,
        }
    }

    pub fn as_str(&self) -> (r: Option<&str>)
        ensures
            match r {
                Some(s) => self@.as_str() == Some(s@),
                None => self@.as_str() is None,
            },
    {
        match self {
            Json::Str(s) => Some(s.as_str()),
            _ => None,
        }
    }

    pub fn as_u64(&self) -> (r: Option<u64>)
        ensures
            r == self@.as_u64(),
    {
        match self {
            Json::Number(JsonNumber::PosInt(n)) => Some(*n),
            _ => None,
        }
    }

    pub fn as_array(&self) -> (r: Option<&Vec<Json>>)
        ensures
            match r {
                Some(items) => self@.as_array() == Some(views(items@)),
                None => self@.as_array() is None,
            },
    {
        match self {
            Json::Array(items) => {
                proof {
                    lemma_array_view(*items);
                }
                Some(items)
            },
            _ => None,
        }
    }

    pub fn is_number(&self) -> (r: bool)
        ensures
            r == self@.is_number(),
    {
        match self {
            Json::Number(_) => true,
            _ => false,
        }
    }

    pub fn text(s: &str) -> (r: Json)
        ensures
            r@ == jstr(s@),
    {
        Json::Str(s.to_string())
    }

    pub fn string(s: String) -> (r: Json)
        ensures
            r@ == jstr(s@),
    {
        Json::Str(s)
    }

    pub fn uint(n: u64) -> (r: Json)
        ensures
            r@ == juint(n),
    {
        Json::Number(JsonNumber::PosInt(n))
    }

    pub fn signed(n: i64) -> (r: Json)
        ensures
            r@ == jint(n),
    {
        if n >= 0 {
            Json::Number(JsonNumber::PosInt(n as u64))
        } else {
            Json::Number(JsonNumber::NegInt(n))
        }
    }

    pub fn array(items: Vec<Json>) -> (r: Json)
        ensures
            r@ == JsonV::Array(views(items@)),
    {
        proof {
            lemma_array_view(items);
        }
        Json::Array(items)
    }

    pub fn object(members: Vec<Member>) -> (r: Json)
        ensures
            r@ == JsonV::Object(member_views(members@)),
    {
        proof {
            lemma_object_view(members);
        }
        Json::Object(members)
    }
}

impl Json {
    /// A copy of the whole value.
    pub fn deep_clone(&self) -> (r: Json)
        ensures
            r@ == self@,
        decreases self,
    {
        match self {
            Json::Null => Json::Null,
            Json::Bool(b) => Json::Bool(*b),
            Json::Number(n) => Json::Number(*n),
            Json::Str(s) => Json::Str(s.clone()),
            Json::Array(items) => {
                let mut out: Vec<Json> = Vec::new();
                let mut i: usize = 0;
                while i < items.len()
                    invariant
                        0 <= i <= items@.len(),
                        out@.len() == i,
                        *self == Json::Array(*items),
                        forall|k: int| 0 <= k < i ==> (#[trigger] out@[k])@ == items@[k]@,
                    decreases items@.len() - i,
                {
                    assert(decreases_to!(*self => (*self)->Array_0));
                    assert(decreases_to!(*items => items@));
                    assert(decreases_to!(items@ => items@[i as int]));
                    out.push(items[i].deep_clone());
                    i += 1;
                }
                let r = Json::array(out);
                proof {
                    lemma_array_view(*items);
                    assert(views(out@) =~= views(items@));
                }
                r
            },
            Json::Object(members) => {
                let mut out: Vec<Member> = Vec::new();
                let mut i: usize = 0;
                while i < members.len()
                    invariant
                        0 <= i <= members@.len(),
                        out@.len() == i,
                        *self == Json::Object(*members),
                        forall|k: int|
                            0 <= k < i ==> (#[trigger] out@[k]).key@ == members@[k].key@
                                && out@[k].value@ == members@[k].value@,
                    decreases members@.len() - i,
                {
                    assert(decreases_to!(*self => (*self)->Object_0));
                    assert(decreases_to!(*members => members@));
                    assert(decreases_to!(members@ => members@[i as int]));
                    assert(decreases_to!(members@[i as int] => members@[i as int].value));
                    let value = members[i].value.deep_clone();
                    out.push(Member { key: members[i].key.clone(), value });
                    i += 1;
                }
                let r = Json::object(out);
                proof {
                    lemma_object_view(*members);
                    assert(member_views(out@) =~= member_views(members@));
                }
                r
            },
        }
    }
}

impl Member {
    pub fn new(key: &str, value: Json) -> (m: Member)
        ensures
            m.key@ == key@,
            m.value@ == value@,
    {
        Member { key: key.to_string(), value }
    }
}

/// The empty object.
pub fn obj0() -> (r: Json)
    ensures
        r@ == jobj(seq![]),
{
    let members: Vec<Member> = Vec::new();
    let r = Json::object(members);
    assert(member_views(members@) =~= seq![]);
    r
}

/// The object { k1: v1, .. } with 1 entry, in order.
pub fn obj1(k1: &str, v1: Json) -> (r: Json)
    ensures
        r@ == jobj(seq![(k1@, v1@)]),
{
    let ghost g1 = (k1@, v1@);
    let members = vec![Member::new(k1, v1)];
    let r = Json::object(members);
    assert(member_views(members@) =~= seq![g1]);
    r
}

/// The object { k1: v1, .. } with 2 entries, in order.
pub fn obj2(k1: &str, v1: Json, k2: &str, v2: Json) -> (r: Json)
    ensures
        r@ == jobj(seq![(k1@, v1@), (k2@, v2@)]),
{
    let ghost g1 = (k1@, v1@);
    let ghost g2 = (k2@, v2@);
    let members = vec![Member::new(k1, v1), Member::new(k2, v2)];
    let r = Json::object(members);
    assert(member_views(members@) =~= seq![g1, g2]);
    r
}

/// The object { k1: v1, .. } with 3 entries, in order.
pub fn obj3(k1: &str, v1: Json, k2: &str, v2: Json, k3: &str, v3: Json) -> (r: Json)
    ensures
        r@ == jobj(seq![(k1@, v1@), (k2@, v2@), (k3@, v3@)]),
{
    let ghost g1 = (k1@, v1@);
    let ghost g2 = (k2@, v2@);
    let ghost g3 = (k3@, v3@);
    let members = vec![Member::new(k1, v1), Member::new(k2, v2), Member::new(k3, v3)];
    let r = Json::object(members);
    assert(member_views(members@) =~= seq![g1, g2, g3]);
    r
}

/// The object { k1: v1, .. } with 4 entries, in order.
pub fn obj4(k1: &str, v1: Json, k2: &str, v2: Json, k3: &str, v3: Json, k4: &str, v4: Json) -> (r: Json)
    ensures
        r@ == jobj(seq![(k1@, v1@), (k2@, v2@), (k3@, v3@), (k4@, v4@)]),
{
    let ghost g1 = (k1@, v1@);
    let ghost g2 = (k2@, v2@);
    let ghost g3 = (k3@, v3@);
    let ghost g4 = (k4@, v4@);
    let members = vec![Member::new(k1, v1), Member::new(k2, v2), Member::new(k3, v3), Member::new(k4, v4)];
    let r = Json::object(members);
    assert(member_views(members@) =~= seq![g1, g2, g3, g4]);
    r
}

/// The object { k1: v1, .. } with 5 entries, in order.
pub fn obj5(k1: &str, v1: Json, k2: &str, v2: Json, k3: &str, v3: Json, k4: &str, v4: Json, k5: &str, v5: Json) -> (r: Json)
    ensures
        r@ == jobj(seq![(k1@, v1@), (k2@, v2@), (k3@, v3@), (k4@, v4@), (k5@, v5@)]),
{
    let ghost g1 = (k1@, v1@);
    let ghost g2 = (k2@, v2@);
    let ghost g3 = (k3@, v3@);
    let ghost g4 = (k4@, v4@);
    let ghost g5 = (k5@, v5@);
    let members = vec![Member::new(k1, v1), Member::new(k2, v2), Member::new(k3, v3), Member::new(k4, v4), Member::new(k5, v5)];
    let r = Json::object(members);
    assert(member_views(members@) =~= seq![g1, g2, g3, g4, g5]);
    r
}

/// The object { k1: v1, .. } with 6 entries, in order.
pub fn obj6(k1: &str, v1: Json, k2: &str, v2: Json, k3: &str, v3: Json, k4: &str, v4: Json, k5: &str, v5: Json, k6: &str, v6: Json) -> (r: Json)
    ensures
        r@ == jobj(seq![(k1@, v1@), (k2@, v2@), (k3@, v3@), (k4@, v4@), (k5@, v5@), (k6@, v6@)]),
{
    let ghost g1 = (k1@, v1@);
    let ghost g2 = (k2@, v2@);
    let ghost g3 = (k3@, v3@);
    let ghost g4 = (k4@, v4@);
    let ghost g5 = (k5@, v5@);
    let ghost g6 = (k6@, v6@);
    let members = vec![Member::new(k1, v1), Member::new(k2, v2), Member::new(k3, v3), Member::new(k4, v4), Member::new(k5, v5), Member::new(k6, v6)];
    let r = Json::object(members);
    assert(member_views(members@) =~= seq![g1, g2, g3, g4, g5, g6]);
    r
}

/// The array [v1, ..] with 0 elements, in order.
pub fn arr0() -> (r: Json)
    ensures
        r@ == jarr(seq![]),
{

    let items: Vec<Json> = vec![];
    let r = Json::array(items);
    assert(views(items@) =~= seq![]);
    r
}

/// The array [v1, ..] with 1 element, in order.
pub fn arr1(v1: Json) -> (r: Json)
    ensures
        r@ == jarr(seq![v1@]),
{
    let ghost g1 = v1@;
    let items: Vec<Json> = vec![v1];
    let r = Json::array(items);
    assert(views(items@) =~= seq![g1]);
    r
}

/// The array [v1, ..] with 2 elements, in order.
pub fn arr2(v1: Json, v2: Json) -> (r: Json)
    ensures
        r@ == jarr(seq![v1@, v2@]),
{
    let ghost g1 = v1@;
    let ghost g2 = v2@;
    let items: Vec<Json> = vec![v1, v2];
    let r = Json::array(items);
    assert(views(items@) =~= seq![g1, g2]);
    r
}

/// The array [v1, ..] with 3 elements, in order.
pub fn arr3(v1: Json, v2: Json, v3: Json) -> (r: Json)
    ensures
        r@ == jarr(seq![v1@, v2@, v3@]),
{
    let ghost g1 = v1@;
    let ghost g2 = v2@;
    let ghost g3 = v3@;
    let items: Vec<Json> = vec![v1, v2, v3];
    let r = Json::array(items);
    assert(views(items@) =~= seq![g1, g2, g3]);
    r
}

/// The array [v1, ..] with 4 elements, in order.
pub fn arr4(v1: Json, v2: Json, v3: Json, v4: Json) -> (r: Json)
    ensures
        r@ == jarr(seq![v1@, v2@, v3@, v4@]),
{
    let ghost g1 = v1@;
    let ghost g2 = v2@;
    let ghost g3 = v3@;
    let ghost g4 = v4@;
    let items: Vec<Json> = vec![v1, v2, v3, v4];
    let r = Json::array(items);
    assert(views(items@) =~= seq![g1, g2, g3, g4]);
    r
}

/// The array [v1, ..] with 5 elements, in order.
pub fn arr5(v1: Json, v2: Json, v3: Json, v4: Json, v5: Json) -> (r: Json)
    ensures
        r@ == jarr(seq![v1@, v2@, v3@, v4@, v5@]),
{
    let ghost g1 = v1@;
    let ghost g2 = v2@;
    let ghost g3 = v3@;
    let ghost g4 = v4@;
    let ghost g5 = v5@;
    let items: Vec<Json> = vec![v1, v2, v3, v4, v5];
    let r = Json::array(items);
    assert(views(items@) =~= seq![g1, g2, g3, g4, g5]);
    r
}

/// The array [v1, ..] with 6 elements, in order.
pub fn arr6(v1: Json, v2: Json, v3: Json, v4: Json, v5: Json, v6: Json) -> (r: Json)
    ensures
        r@ == jarr(seq![v1@, v2@, v3@, v4@, v5@, v6@]),
{
    let ghost g1 = v1@;
    let ghost g2 = v2@;
    let ghost g3 = v3@;
    let ghost g4 = v4@;
    let ghost g5 = v5@;
    let ghost g6 = v6@;
    let items: Vec<Json> = vec![v1, v2, v3, v4, v5, v6];
    let r = Json::array(items);
    assert(views(items@) =~= seq![g1, g2, g3, g4, g5, g6]);
    r
}

} // verus!
