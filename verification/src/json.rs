use vstd::prelude::*;

use crate::text::{owned, str_equal};

verus! {

/// A JSON number as the library reads it: an integer that fits in `u64`, a
/// negative integer that fits in `i64`, or any other number kept as its text.
#[derive(Debug)]
pub enum JsonNumber {
    PosInt(u64),
    NegInt(i64),
    Float(String),
}

/// A JSON document. Objects keep their members in order; a key is looked up
/// by its first occurrence.
#[derive(Debug)]
pub enum JsonValue {
    Null,
    Bool(bool),
    Number(JsonNumber),
    String(String),
    Array(Vec<JsonValue>),
    Object(Vec<(String, JsonValue)>),
}

/// The mathematical content of a JSON number.
pub enum NumberData {
    PosInt(u64),
    NegInt(i64),
    Float(Seq<char>),
}

/// The mathematical content of a JSON document.
pub enum JsonData {
    Null,
    Bool(bool),
    Number(NumberData),
    Str(Seq<char>),
    Array(Seq<JsonData>),
    Object(Seq<(Seq<char>, JsonData)>),
}

pub open spec fn number_data(n: JsonNumber) -> NumberData {
    match n {
        JsonNumber::PosInt(v) => NumberData::PosInt(v),
        JsonNumber::NegInt(v) => NumberData::NegInt(v),
        JsonNumber::Float(t) => NumberData::Float(t@),
    }
}

pub open spec fn json_data(v: JsonValue) -> JsonData
    decreases v, 1int,
{
    match v {
        JsonValue::Null => JsonData::Null,
        JsonValue::Bool(b) => JsonData::Bool(b),
        JsonValue::Number(n) => JsonData::Number(number_data(n)),
        JsonValue::String(s) => JsonData::Str(s@),
        JsonValue::Array(items) => JsonData::Array(items_data(items@)),
        JsonValue::Object(members) => JsonData::Object(members_data(members@)),
    }
}

pub open spec fn items_data(items: Seq<JsonValue>) -> Seq<JsonData>
    decreases items, 0int,
{
    if items.len() == 0 {
        Seq::empty()
    } else {
        seq![json_data(items[0])] + items_data(items.drop_first())
    }
}

pub open spec fn members_data(members: Seq<(String, JsonValue)>) -> Seq<(Seq<char>, JsonData)>
    decreases members, 0int,
{
    if members.len() == 0 {
        Seq::empty()
    } else {
        seq![(members[0].0@, json_data(members[0].1))] + members_data(members.drop_first())
    }
}

impl View for JsonValue {
    type V = JsonData;

    open spec fn view(&self) -> JsonData {
        json_data(*self)
    }
}

/// `serde_json`'s document type, carried opaquely.
#[verifier::external_type_specification]
#[verifier::external_body]
pub struct ExSerdeJsonValue(serde_json::Value);

/// The document that `serde_json::from_str` reads from a text, as the
/// library's JSON model, or `None` when the text is not a JSON document.
pub uninterp spec fn json_parse(text: Seq<char>) -> Option<JsonData>;

/// A `serde_json` document as the library's JSON value, node for node: an
/// unsigned integer that fits in `u64` stays one, a negative one that fits
/// in `i64` too, any other number keeps its text; object members come in
/// the order the document's map yields them.
#[verifier::external_body]
fn json_from_serde(v: serde_json::Value) -> JsonValue {
    match v {
        serde_json::Value::Null => JsonValue::Null,
        serde_json::Value::Bool(b) => JsonValue::Bool(b),
        serde_json::Value::Number(n) => JsonValue::Number(match (n.as_u64(), n.as_i64()) {
            (Some(u), _) => JsonNumber::PosInt(u),
            (None, Some(i)) => JsonNumber::NegInt(i),
            (None, None) => JsonNumber::Float(n.to_string()),
        }),
        serde_json::Value::String(s) => JsonValue::String(s),
        serde_json::Value::Array(a) => JsonValue::Array(a.into_iter().map(json_from_serde).collect()),
        serde_json::Value::Object(m) => JsonValue::Object(m.into_iter().map(|(k, x)| (k, json_from_serde(x))).collect()),
    }
}

/// Reads a text as a JSON document with `serde_json::from_str` (into
/// `serde_json::Value`). The contract names the result `json_parse` of the
/// text: what the parser accepts and builds is its own and is not stated here.
#[verifier::external_body]
pub(crate) fn parse_json(text: &str) -> (r: Option<JsonValue>)
    ensures
        match r {
            Some(v) => json_parse(text@) == Some(v@),
            None => json_parse(text@) is None,
        },
{
    serde_json::from_str::<serde_json::Value>(text).ok().map(json_from_serde)
}

/// The value of the first member named `key`, if any.
pub open spec fn data_members_get(members: Seq<(Seq<char>, JsonData)>, key: Seq<char>) -> Option<JsonData>
    decreases members.len(),
{
    if members.len() == 0 {
        None
    } else if members[0].0 == key {
        Some(members[0].1)
    } else {
        data_members_get(members.drop_first(), key)
    }
}

impl JsonData {
    /// The member `key` of an object; `None` for any other value.
    pub open spec fn get(self, key: Seq<char>) -> Option<JsonData> {
        match self {
            JsonData::Object(members) => data_members_get(members, key),
            _ => None,
        }
    }

    /// The characters of a string value.
    pub open spec fn as_str(self) -> Option<Seq<char>> {
        match self {
            JsonData::Str(s) => Some(s),
            _ => None,
        }
    }

    /// The text of the string member `key` of an object.
    pub open spec fn str_member(self, key: Seq<char>) -> Option<Seq<char>> {
        match self.get(key) {
            Some(v) => v.as_str(),
            None => None,
        }
    }

    /// The value as a signed 64-bit integer, as JSON libraries read it.
    pub open spec fn as_i64(self) -> Option<i64> {
        match self {
            JsonData::Number(NumberData::PosInt(n)) => if n <= i64::MAX { Some(n as i64) } else { None },
            JsonData::Number(NumberData::NegInt(n)) => Some(n),
            _ => None,
        }
    }

    /// The value as an unsigned 64-bit integer.
    pub open spec fn as_u64(self) -> Option<u64> {
        match self {
            JsonData::Number(NumberData::PosInt(n)) => Some(n),
            _ => None,
        }
    }

    /// The value as a boolean.
    pub open spec fn as_bool(self) -> Option<bool> {
        match self {
            JsonData::Bool(b) => Some(b),
            _ => None,
        }
    }

    /// The elements of an array.
    pub open spec fn as_array(self) -> Option<Seq<JsonData>> {
        match self {
            JsonData::Array(items) => Some(items),
            _ => None,
        }
    }

    /// The members of an object.
    pub open spec fn as_object(self) -> Option<Seq<(Seq<char>, JsonData)>> {
        match self {
            JsonData::Object(members) => Some(members),
            _ => None,
        }
    }
}

/// The view of a sequence of values has one entry per value, in order.
pub proof fn lemma_items_data_len(items: Seq<JsonValue>)
    ensures
        items_data(items).len() == items.len(),
        forall|i: int| 0 <= i < items.len() ==> #[trigger] items_data(items)[i] == json_data(items[i]),
    decreases items.len(),
{
    if items.len() > 0 {
        lemma_items_data_len(items.drop_first());
        let rest = items_data(items.drop_first());
        assert forall|i: int| 0 <= i < items.len() implies #[trigger] items_data(items)[i] == json_data(items[i]) by {
            if i > 0 {
                assert(items_data(items)[i] == rest[i - 1]);
                assert(items.drop_first()[i - 1] == items[i]);
            }
        }
    }
}

/// The view of a member list has one entry per member, in order.
pub proof fn lemma_members_data_len(members: Seq<(String, JsonValue)>)
    ensures
        members_data(members).len() == members.len(),
        forall|i: int| 0 <= i < members.len() ==> #[trigger] members_data(members)[i] == (members[i].0@, json_data(members[i].1)),
    decreases members.len(),
{
    if members.len() > 0 {
        lemma_members_data_len(members.drop_first());
        let rest = members_data(members.drop_first());
        assert forall|i: int| 0 <= i < members.len() implies #[trigger] members_data(members)[i] == (members[i].0@, json_data(members[i].1)) by {
            if i > 0 {
                assert(members_data(members)[i] == rest[i - 1]);
                assert(members.drop_first()[i - 1] == members[i]);
            }
        }
    }
}

impl JsonValue {
    pub fn is_null(&self) -> (r: bool)
        ensures
            r == (self@ is Null),
    {
        match self {
            JsonValue::Null => true,
            _ => false,
        }
    }

    pub fn as_str(&self) -> (r: Option<&str>)
        ensures
            match r {
                Some(s) => self@.as_str() == Some(s@),
                None => self@.as_str() is None,
            },
    {
        match self {
            JsonValue::String(s) => Some(s.as_str()),
            _ => None,
        }
    }

    pub fn as_bool(&self) -> (r: Option<bool>)
        ensures
            r == self@.as_bool(),
    {
        match self {
            JsonValue::Bool(b) => Some(*b),
            _ => None,
        }
    }

    pub fn as_i64(&self) -> (r: Option<i64>)
        ensures
            r == self@.as_i64(),
    {
        match self {
            JsonValue::Number(JsonNumber::PosInt(n)) => {
                if *n <= 0x7fff_ffff_ffff_ffffu64 {
                    Some(*n as i64)
                } else {
                    None
                }
            },
            JsonValue::Number(JsonNumber::NegInt(n)) => Some(*n),
            _ => None,
        }
    }

    pub fn as_u64(&self) -> (r: Option<u64>)
        ensures
            r == self@.as_u64(),
    {
        match self {
            JsonValue::Number(JsonNumber::PosInt(n)) => Some(*n),
            _ => None,
        }
    }

    pub fn as_array(&self) -> (r: Option<&Vec<JsonValue>>)
        ensures
            match r {
                Some(items) => self@.as_array() == Some(items_data(items@)),
                None => self@.as_array() is None,
            },
    {
        match self {
            JsonValue::Array(items) => Some(items),
            _ => None,
        }
    }

    pub fn as_object(&self) -> (r: Option<&Vec<(String, JsonValue)>>)
        ensures
            match r {
                Some(members) => self@.as_object() == Some(members_data(members@)),
                None => self@.as_object() is None,
            },
    {
        match self {
            JsonValue::Object(members) => Some(members),
            _ => None,
        }
    }

    /// The member `key` of an object (its first occurrence).
    pub fn get(&self, key: &str) -> (r: Option<&JsonValue>)
        ensures
            match r {
                Some(v) => self@.get(key@) == Some(v@),
                None => self@.get(key@) is None,
            },
    {
        match self {
            JsonValue::Object(members) => members_lookup(members, key),
            _ => None,
        }
    }

    /// The text of the string member `key` of an object.
    pub fn str_member(&self, key: &str) -> (r: Option<&str>)
        ensures
            match r {
                Some(s) => self@.str_member(key@) == Some(s@),
                None => self@.str_member(key@) is None,
            },
    {
        match self.get(key) {
            Some(v) => v.as_str(),
            None => None,
        }
    }

    /// A copy of this value.
    pub fn duplicate(&self) -> (r: JsonValue)
        ensures
            r@ == self@,
        decreases self,
    {
        match self {
            JsonValue::Null => JsonValue::Null,
            JsonValue::Bool(b) => JsonValue::Bool(*b),
            JsonValue::Number(JsonNumber::PosInt(n)) => JsonValue::Number(JsonNumber::PosInt(*n)),
            JsonValue::Number(JsonNumber::NegInt(n)) => JsonValue::Number(JsonNumber::NegInt(*n)),
            JsonValue::Number(JsonNumber::Float(t)) => JsonValue::Number(JsonNumber::Float(t.clone())),
            JsonValue::String(s) => JsonValue::String(s.clone()),
            JsonValue::Array(items) => {
                let mut out: Vec<JsonValue> = Vec::new();
                let mut i: usize = 0;
                proof {
                    lemma_items_data_len(items@);
                }
                while i < items.len()
                    invariant
                        i <= items.len(),
                        *self == JsonValue::Array(*items),
                        out@.len() == i,
                        forall|k: int| 0 <= k < i ==> #[trigger] json_data(out@[k]) == json_data(items@[k]),
                    decreases items.len() - i,
                {
                    proof {
                        assert(decreases_to!(*self => self->Array_0));
                        assert(decreases_to!(self->Array_0 => items@[i as int]));
                    }
                    let item = items[i].duplicate();
                    out.push(item);
                    i = i + 1;
                }
                proof {
                    lemma_items_data_len(out@);
                    lemma_items_data_len(items@);
                    assert(items_data(out@) =~= items_data(items@));
                }
                JsonValue::Array(out)
            },
            JsonValue::Object(members) => {
                let mut out: Vec<(String, JsonValue)> = Vec::new();
                let mut i: usize = 0;
                while i < members.len()
                    invariant
                        i <= members.len(),
                        *self == JsonValue::Object(*members),
                        out@.len() == i,
                        forall|k: int| 0 <= k < i ==> #[trigger] out@[k].0@ == members@[k].0@,
                        forall|k: int| 0 <= k < i ==> #[trigger] json_data(out@[k].1) == json_data(members@[k].1),
                    decreases members.len() - i,
                {
                    proof {
                        assert(decreases_to!(*self => self->Object_0));
                        assert(decreases_to!(self->Object_0 => members@[i as int]));
                        assert(decreases_to!(members@[i as int] => members@[i as int].1));
                    }
                    let name = members[i].0.clone();
                    let value = members[i].1.duplicate();
                    out.push((name, value));
                    i = i + 1;
                }
                proof {
                    lemma_members_data_len(out@);
                    lemma_members_data_len(members@);
                    assert(members_data(out@) =~= members_data(members@));
                }
                JsonValue::Object(out)
            },
        }
    }
}

/// Appending a member appends its view.
pub proof fn lemma_members_data_push(members: Seq<(String, JsonValue)>, m: (String, JsonValue))
    ensures
        members_data(members.push(m)) == members_data(members).push((m.0@, json_data(m.1))),
{
    lemma_members_data_len(members);
    lemma_members_data_len(members.push(m));
    assert(members_data(members.push(m)) =~= members_data(members).push((m.0@, json_data(m.1))));
}

/// Appending an item appends its view.
pub proof fn lemma_items_data_push(items: Seq<JsonValue>, v: JsonValue)
    ensures
        items_data(items.push(v)) == items_data(items).push(json_data(v)),
{
    lemma_items_data_len(items);
    lemma_items_data_len(items.push(v));
    assert(items_data(items.push(v)) =~= items_data(items).push(json_data(v)));
}

/// Appends the member `key: value` to an object's member list.
pub fn push_member(members: &mut Vec<(String, JsonValue)>, key: &str, value: JsonValue)
    ensures
        members_data(final(members)@) == members_data(old(members)@).push((key@, value@)),
{
    let k = owned(key);
    let ghost m = (k, value);
    proof {
        lemma_members_data_push(old(members)@, m);
    }
    members.push((k, value));
    proof {
        assert(final(members)@ == old(members)@.push(m));
    }
}

/// A JSON string holding `s`.
pub fn string_value(s: &str) -> (r: JsonValue)
    ensures
        r@ == JsonData::Str(s@),
{
    JsonValue::String(owned(s))
}

/// The first member named `key`.
pub fn members_lookup<'a>(members: &'a Vec<(String, JsonValue)>, key: &str) -> (r: Option<&'a JsonValue>)
    ensures
        match r {
            Some(v) => data_members_get(members_data(members@), key@) == Some(v@),
            None => data_members_get(members_data(members@), key@) is None,
        },
{
    let mut i: usize = 0;
    proof {
        lemma_members_data_len(members@);
        assert(members@.skip(0) =~= members@);
    }
    while i < members.len()
        invariant
            i <= members.len(),
            data_members_get(members_data(members@), key@) == data_members_get(members_data(members@.skip(i as int)), key@),
        decreases members.len() - i,
    {
        proof {
            let tail = members@.skip(i as int);
            assert(tail.drop_first() =~= members@.skip(i + 1));
            assert(tail[0] == members@[i as int]);
            let md = members_data(tail);
            assert(md == seq![(tail[0].0@, json_data(tail[0].1))] + members_data(tail.drop_first()));
            assert(md.drop_first() =~= members_data(tail.drop_first()));
        }
        if str_equal(members[i].0.as_str(), key) {
            return Some(&members[i].1);
        }
        i = i + 1;
    }
    None
}

} // verus!
