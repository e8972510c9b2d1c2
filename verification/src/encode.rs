//! What can stand in a document: the values that know their own encoding.

use crate::json::{
    array_value, bool_value, json_of, jsons_of, number_of, number_value, signed_value,
    string_value, unsigned_value, Json, Num,
};
use vstd::prelude::*;

verus! {

/// A value that has an encoding as a JSON document.
pub trait Encode {
    /// The document that stands for this value.
    spec fn json(&self) -> Json;

    /// Builds the document that stands for this value.
    fn to_value(&self) -> (value: serde_json::Value)
        ensures
            json_of(value) == self.json(),
    ;
}

/// The documents of a list of values, in order.
pub open spec fn json_list<T: Encode>(items: Seq<T>) -> Seq<Json> {
    items.map_values(|item: T| item.json())
}

/// The document of a value that may be missing.
pub open spec fn json_option<T: Encode>(item: Option<T>) -> Option<Json> {
    match item {
        Some(present) => Some(present.json()),
        None => None,
    }
}

impl Encode for bool {
    open spec fn json(&self) -> Json {
        Json::Bool(*self)
    }

    fn to_value(&self) -> (value: serde_json::Value) {
        bool_value(*self)
    }
}

impl Encode for i32 {
    open spec fn json(&self) -> Json {
        Json::Number(Num::Integer(*self as int))
    }

    fn to_value(&self) -> (value: serde_json::Value) {
        signed_value(*self as i64)
    }
}

impl Encode for i64 {
    open spec fn json(&self) -> Json {
        Json::Number(Num::Integer(*self as int))
    }

    fn to_value(&self) -> (value: serde_json::Value) {
        signed_value(*self)
    }
}

impl Encode for u32 {
    open spec fn json(&self) -> Json {
        Json::Number(Num::Integer(*self as int))
    }

    fn to_value(&self) -> (value: serde_json::Value) {
        unsigned_value(*self as u64)
    }
}

impl Encode for u64 {
    open spec fn json(&self) -> Json {
        Json::Number(Num::Integer(*self as int))
    }

    fn to_value(&self) -> (value: serde_json::Value) {
        unsigned_value(*self)
    }
}

impl Encode for usize {
    open spec fn json(&self) -> Json {
        Json::Number(Num::Integer(*self as int))
    }

    fn to_value(&self) -> (value: serde_json::Value) {
        unsigned_value(*self as u64)
    }
}

impl Encode for String {
    open spec fn json(&self) -> Json {
        Json::Str(self@)
    }

    fn to_value(&self) -> (value: serde_json::Value) {
        string_value(self.clone())
    }
}

impl<'a> Encode for &'a str {
    open spec fn json(&self) -> Json {
        Json::Str(self@)
    }

    fn to_value(&self) -> (value: serde_json::Value) {
        string_value((*self).to_owned())
    }
}

impl Encode for serde_json::Number {
    open spec fn json(&self) -> Json {
        Json::Number(number_of(*self))
    }

    fn to_value(&self) -> (value: serde_json::Value) {
        number_value(self)
    }
}

impl<T: Encode> Encode for Vec<T> {
    open spec fn json(&self) -> Json {
        Json::Array(json_list(self@))
    }

    fn to_value(&self) -> (value: serde_json::Value) {
        let mut items: Vec<serde_json::Value> = Vec::new();
        let mut at: usize = 0;
        while at < self.len()
            invariant
                at <= self.len(),
                items@.len() == at,
                forall|i: int| 0 <= i < at ==> json_of(#[trigger] items@[i]) == self@[i].json(),
            decreases self.len() - at,
        {
            items.push(self[at].to_value());
            at = at + 1;
        }
        assert(jsons_of(items@) =~= json_list(self@));
        let value = array_value(items);
        assert(json_of(value) == Json::Array(json_list(self@)));
        value
    }
}

} // verus!
