use vstd::prelude::*;

use crate::error::Error;
use crate::json::{items_data, lemma_items_data_len, lemma_members_data_len, members_data, JsonData, JsonValue};
use crate::table::KeyedTable;
use crate::text::owned;

verus! {

/// What a tool is: its id (the key it is registered under), name,
/// description, category, and the JSON schema of its parameters.
#[derive(Debug)]
pub struct ToolSpec {
    pub id: String,
    pub name: String,
    pub description: String,
    pub category: String,
    pub parameters: JsonValue,
}

impl ToolSpec {
    /// A copy of this description.
    pub fn duplicate(&self) -> (r: ToolSpec)
        ensures
            r.id == self.id,
            r.name == self.name,
            r.description == self.description,
            r.category == self.category,
            r.parameters@ == self.parameters@,
    {
        ToolSpec {
            id: self.id.clone(),
            name: self.name.clone(),
            description: self.description.clone(),
            category: self.category.clone(),
            parameters: self.parameters.duplicate(),
        }
    }
}

/// The parameters of a tool call, by name.
pub type Params = KeyedTable<JsonValue>;

/// The value of the parameter `key`, if given.
pub open spec fn param(params: Params, key: Seq<char>) -> Option<JsonData> {
    if params.map().contains_key(key) {
        Some(params.map()[key]@)
    } else {
        None
    }
}

/// The string parameter `key`: `None` when it is missing or not a string.
pub fn get_string_param(params: &Params, key: &str) -> (r: Option<String>)
    requires
        params.wf(),
    ensures
        match r {
            Some(s) => param(*params, key@) matches Some(v) && v.as_str() == Some(s@),
            None => !(param(*params, key@) matches Some(v) && v.as_str() is Some),
        },
{
    match params.get(key) {
        Some(v) => match v.as_str() {
            Some(s) => Some(owned(s)),
            None => None,
        },
        None => None,
    }
}

/// The string parameter `key`, which must be given.
pub fn get_required_string_param(params: &Params, key: &str) -> (r: Result<String, Error>)
    requires
        params.wf(),
    ensures
        match r {
            Ok(s) => param(*params, key@) matches Some(v) && v.as_str() == Some(s@),
            Err(e) => !(param(*params, key@) matches Some(v) && v.as_str() is Some)
                && (e matches Error::MissingParameter(k) && k@ == key@),
        },
{
    match get_string_param(params, key) {
        Some(s) => Ok(s),
        None => Err(Error::MissingParameter(owned(key))),
    }
}

/// The integer parameter `key`: `None` when it is missing or not an integer
/// that fits in `i64`.
pub fn get_i64_param(params: &Params, key: &str) -> (r: Option<i64>)
    requires
        params.wf(),
    ensures
        r == match param(*params, key@) {
            Some(v) => v.as_i64(),
            None => None,
        },
{
    match params.get(key) {
        Some(v) => v.as_i64(),
        None => None,
    }
}

/// The integer parameter `key`, which must be given.
pub fn get_required_i64_param(params: &Params, key: &str) -> (r: Result<i64, Error>)
    requires
        params.wf(),
    ensures
        match r {
            Ok(n) => param(*params, key@) matches Some(v) && v.as_i64() == Some(n),
            Err(e) => !(param(*params, key@) matches Some(v) && v.as_i64() is Some)
                && (e matches Error::MissingParameter(k) && k@ == key@),
        },
{
    match get_i64_param(params, key) {
        Some(n) => Ok(n),
        None => Err(Error::MissingParameter(owned(key))),
    }
}

/// The boolean parameter `key`: `None` when it is missing or not a boolean.
pub fn get_bool_param(params: &Params, key: &str) -> (r: Option<bool>)
    requires
        params.wf(),
    ensures
        r == match param(*params, key@) {
            Some(v) => v.as_bool(),
            None => None,
        },
{
    match params.get(key) {
        Some(v) => v.as_bool(),
        None => None,
    }
}

/// A copy of the array parameter `key`: `None` when it is missing or not an
/// array.
pub fn get_array_param(params: &Params, key: &str) -> (r: Option<Vec<JsonValue>>)
    requires
        params.wf(),
    ensures
        match r {
            Some(items) => param(*params, key@) matches Some(v) && v.as_array() == Some(items_data(items@)),
            None => !(param(*params, key@) matches Some(v) && v.as_array() is Some),
        },
{
    match params.get(key) {
        Some(v) => match v.as_array() {
            Some(items) => {
                let mut out: Vec<JsonValue> = Vec::new();
                let mut i: usize = 0;
                while i < items.len()
                    invariant
                        i <= items@.len(),
                        out@.len() == i,
                        forall|k: int| 0 <= k < i ==> #[trigger] out@[k]@ == items@[k]@,
                    decreases items@.len() - i,
                {
                    out.push(items[i].duplicate());
                    i = i + 1;
                }
                proof {
                    lemma_items_data_len(out@);
                    lemma_items_data_len(items@);
                    assert forall|k: int| 0 <= k < out@.len() implies #[trigger] items_data(out@)[k] == items_data(items@)[k] by {
                        assert(out@[k]@ == items@[k]@);
                    }
                    assert(items_data(out@) =~= items_data(items@));
                }
                Some(out)
            },
            None => None,
        },
        None => None,
    }
}

/// A copy of the object parameter `key`: `None` when it is missing or not an
/// object.
pub fn get_object_param(params: &Params, key: &str) -> (r: Option<Vec<(String, JsonValue)>>)
    requires
        params.wf(),
    ensures
        match r {
            Some(members) => param(*params, key@) matches Some(v) && v.as_object() == Some(members_data(members@)),
            None => !(param(*params, key@) matches Some(v) && v.as_object() is Some),
        },
{
    match params.get(key) {
        Some(v) => match v.as_object() {
            Some(members) => {
                let mut out: Vec<(String, JsonValue)> = Vec::new();
                let mut i: usize = 0;
                while i < members.len()
                    invariant
                        i <= members@.len(),
                        out@.len() == i,
                        forall|k: int| 0 <= k < i ==> (#[trigger] out@[k]).0@ == members@[k].0@,
                        forall|k: int| 0 <= k < i ==> (#[trigger] out@[k]).1@ == members@[k].1@,
                    decreases members@.len() - i,
                {
                    out.push((members[i].0.clone(), members[i].1.duplicate()));
                    i = i + 1;
                }
                proof {
                    lemma_members_data_len(out@);
                    lemma_members_data_len(members@);
                    assert forall|k: int| 0 <= k < out@.len() implies #[trigger] members_data(out@)[k] == members_data(members@)[k] by {
                        assert(out@[k].0@ == members@[k].0@);
                        assert(out@[k].1@ == members@[k].1@);
                    }
                    assert(members_data(out@) =~= members_data(members@));
                }
                Some(out)
            },
            None => None,
        },
        None => None,
    }
}

} // verus!
