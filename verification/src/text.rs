//! JSON text, read and written by `serde_json`.
//!
//! The parser and the printer are `serde_json`'s.  This module declares its
//! types, names what its calls return, and moves documents between
//! `serde_json::Value` and [`Json`] one level at a time.

use crate::decode::DecodeError;
use crate::json::{
    array_view, items_view, members_view, number_model, object_view, Json, JsonModel,
};
use crate::number::number_from_i64;
use crate::settle::{
    settle, settled, settled_items, settled_items_are_settled, settled_values,
    settled_values_are_settled,
};
use serde_json::{Number, Value};
use vstd::prelude::*;

verus! {

/// `serde_json::Value`: held and handed on, never looked into from here.
#[verifier::external_type_specification]
#[verifier::external_body]
pub struct ExValue(serde_json::Value);

/// The document that a `serde_json::Value` holds.  An object's members stand
/// in the order in which the value walks them.
pub uninterp spec fn value_model(v: Value) -> JsonModel;

/// What `serde_json::from_str` makes of a text: the document that the value
/// it returns holds, or `None` where it returns an error.
pub uninterp spec fn parsed(text: Seq<char>) -> Option<JsonModel>;

/// The compact text that `serde_json` writes for a value that holds the
/// document `doc`.
pub uninterp spec fn printed(doc: JsonModel) -> Seq<char>;

/// One level of a `serde_json::Value`, borrowed from it.
pub(crate) enum Layer<'a> {
    Null,
    Bool(bool),
    Number(&'a Number),
    String(&'a String),
    Array(&'a Vec<Value>),
    Object(Vec<(&'a String, &'a Value)>),
}

impl<'a> Layer<'a> {
    /// The document that a value with this top level holds.
    pub(crate) open spec fn model(self) -> JsonModel {
        match self {
            Layer::Null => JsonModel::Null,
            Layer::Bool(b) => JsonModel::Bool(b),
            Layer::Number(n) => number_model(*n),
            Layer::String(s) => JsonModel::String(s@),
            Layer::Array(items) => JsonModel::Array(
                Seq::new(items@.len(), |i: int| value_model(items@[i])),
            ),
            Layer::Object(members) => JsonModel::Object(
                Seq::new(members@.len(), |i: int| (members@[i].0@, value_model(*members@[i].1))),
            ),
        }
    }
}

/// The parts of which a `serde_json::Value` is put together.
pub(crate) enum Parts {
    Null,
    Bool(bool),
    Number(Number),
    String(String),
    Array(Vec<Value>),
    Object(Vec<(String, Value)>),
}

impl Parts {
    /// The document that the value put together from these parts holds.
    pub(crate) open spec fn model(self) -> JsonModel {
        match self {
            Parts::Null => JsonModel::Null,
            Parts::Bool(b) => JsonModel::Bool(b),
            Parts::Number(n) => number_model(n),
            Parts::String(s) => JsonModel::String(s@),
            Parts::Array(items) => JsonModel::Array(
                Seq::new(items@.len(), |i: int| value_model(items@[i])),
            ),
            Parts::Object(members) => JsonModel::Object(
                settle(
                    Seq::new(members@.len(), |i: int| (members@[i].0@, value_model(members@[i].1))),
                ),
            ),
        }
    }
}

/// `serde_json::from_str` at the type `Value`: the value that the text
/// denotes, or `None` where the parser returns an error.
#[verifier::external_body]
pub(crate) fn parse_value(text: &str) -> (r: Option<Value>)
    ensures
        match r {
            Some(v) => parsed(text@) == Some(value_model(v)),
            None => parsed(text@) is None,
        },
{
    serde_json::from_str::<Value>(text).ok()
}

/// `Value`'s `to_string`: the value as compact JSON text.
#[verifier::external_body]
pub(crate) fn print_value(v: &Value) -> (s: String)
    ensures
        s@ == printed(value_model(*v)),
{
    v.to_string()
}

/// Takes the top level of a `Value` apart, variant by variant.  The members
/// of an object come in the order of `Map::iter`, which is the order in which
/// their keys were first written.
#[verifier::external_body]
pub(crate) fn unpack<'a>(v: &'a Value) -> (r: Layer<'a>)
    ensures
        r.model() == value_model(*v),
{
    match v {
        Value::Null => Layer::Null,
        Value::Bool(b) => Layer::Bool(*b),
        Value::Number(n) => Layer::Number(n),
        Value::String(s) => Layer::String(s),
        Value::Array(items) => Layer::Array(items),
        Value::Object(members) => Layer::Object(members.iter().collect()),
    }
}

/// Puts a `Value` together, variant by variant.  An object is collected into
/// a `Map`, which keeps the order of writing (the feature `preserve_order`)
/// and takes the members one after another: a key that is already there keeps
/// its place and takes the new value.
#[verifier::external_body]
pub(crate) fn pack(parts: Parts) -> (v: Value)
    ensures
        value_model(v) == parts.model(),
{
    match parts {
        Parts::Null => Value::Null,
        Parts::Bool(b) => Value::Bool(b),
        Parts::Number(n) => Value::Number(n),
        Parts::String(s) => Value::String(s),
        Parts::Array(items) => Value::Array(items),
        Parts::Object(members) => Value::Object(members.into_iter().collect()),
    }
}

impl Json {
    /// The document that a `serde_json::Value` holds.
    #[verifier::loop_isolation(false)]
    pub fn from_value(v: &Value) -> (j: Json)
        ensures
            j@ == value_model(*v),
        decreases value_model(*v),
    {
        match unpack(v) {
            Layer::Null => Json::Null,
            Layer::Bool(b) => Json::Bool(b),
            Layer::Number(n) => Json::from_number(n.clone()),
            Layer::String(s) => Json::String(s.clone()),
            Layer::Array(items) => {
                let ghost whole = value_model(*v)->Array_0;
                let mut out: Vec<Json> = Vec::new();
                let mut i: usize = 0;
                while i < items.len()
                    invariant
                        i <= items.len(),
                        out.len() == i,
                        value_model(*v) == JsonModel::Array(whole),
                        whole.len() == items.len(),
                        forall|k: int| 0 <= k < items.len() ==> whole[k] == value_model(items@[k]),
                        forall|k: int| 0 <= k < i ==> out@[k]@ == whole[k],
                    decreases items.len() - i,
                {
                    assert(whole[i as int] == value_model(items@[i as int]));
                    let item = Json::from_value(&items[i]);
                    out.push(item);
                    i += 1;
                }
                proof {
                    array_view(out);
                    assert(items_view(out@) =~= whole);
                }
                Json::Array(out)
            },
            Layer::Object(members) => {
                let ghost whole = value_model(*v)->Object_0;
                let mut out: Vec<(String, Json)> = Vec::new();
                let mut i: usize = 0;
                while i < members.len()
                    invariant
                        i <= members.len(),
                        out.len() == i,
                        value_model(*v) == JsonModel::Object(whole),
                        whole.len() == members.len(),
                        forall|k: int|
                            0 <= k < members.len() ==> whole[k] == (
                                members@[k].0@,
                                value_model(*members@[k].1),
                            ),
                        forall|k: int| 0 <= k < i ==> (out@[k].0@, out@[k].1@) == whole[k],
                    decreases members.len() - i,
                {
                    assert(whole[i as int].1 == value_model(*members@[i as int].1));
                    let key = members[i].0.clone();
                    let value = Json::from_value(members[i].1);
                    out.push((key, value));
                    i += 1;
                }
                proof {
                    object_view(out);
                    assert(members_view(out@) =~= whole);
                }
                Json::Object(out)
            },
        }
    }

    /// A `serde_json::Value` that holds the document, settled.
    #[verifier::loop_isolation(false)]
    pub fn to_value(&self) -> (v: Value)
        ensures
            value_model(v) == settled(self@),
        decreases self,
    {
        match self {
            Json::Null => pack(Parts::Null),
            Json::Bool(b) => pack(Parts::Bool(*b)),
            Json::Int(i) => pack(Parts::Number(number_from_i64(*i))),
            Json::Number(n) => pack(Parts::Number(n.clone())),
            Json::String(s) => pack(Parts::String(s.clone())),
            Json::Array(items) => {
                let mut out: Vec<Value> = Vec::new();
                let mut i: usize = 0;
                while i < items.len()
                    invariant
                        i <= items.len(),
                        out.len() == i,
                        *self == Json::Array(*items),
                        forall|k: int| 0 <= k < i ==> value_model(out@[k]) == settled(items@[k]@),
                    decreases items.len() - i,
                {
                    let item = items[i].to_value();
                    out.push(item);
                    i += 1;
                }
                proof {
                    array_view(*items);
                    settled_items_are_settled(items_view(items@));
                    assert(Parts::Array(out).model()->Array_0 =~= settled_items(
                        items_view(items@),
                    ));
                }
                pack(Parts::Array(out))
            },
            Json::Object(members) => {
                let mut out: Vec<(String, Value)> = Vec::new();
                let mut i: usize = 0;
                while i < members.len()
                    invariant
                        i <= members.len(),
                        out.len() == i,
                        *self == Json::Object(*members),
                        forall|k: int|
                            0 <= k < i ==> out@[k].0@ == members@[k].0@ && value_model(out@[k].1)
                                == settled(members@[k].1@),
                    decreases members.len() - i,
                {
                    let key = members[i].0.clone();
                    let value = members[i].1.to_value();
                    out.push((key, value));
                    i += 1;
                }
                proof {
                    object_view(*members);
                    settled_values_are_settled(members_view(members@));
                    assert(Seq::new(out@.len(), |i: int| (out@[i].0@, value_model(out@[i].1)))
                        =~= settled_values(members_view(members@)));
                }
                pack(Parts::Object(out))
            },
        }
    }

    /// Reads a JSON text.  Fails with `InvalidJson` exactly where
    /// `serde_json` refuses the text.
    pub fn parse(text: &str) -> (r: Result<Json, DecodeError>)
        ensures
            match r {
                Ok(j) => parsed(text@) == Some(j@),
                Err(e) => e == DecodeError::InvalidJson && parsed(text@) is None,
            },
    {
        match parse_value(text) {
            Some(v) => Ok(Json::from_value(&v)),
            None => Err(DecodeError::InvalidJson),
        }
    }

    /// Writes the document as compact JSON text.
    pub fn to_text(&self) -> (s: String)
        ensures
            s@ == printed(settled(self@)),
    {
        let v = self.to_value();
        print_value(&v)
    }
}

} // verus!
