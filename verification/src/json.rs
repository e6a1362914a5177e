//! JSON documents that the library builds for its answers, and their
//! mathematical model.
use vstd::prelude::*;

verus! {

/// A JSON document as a mathematical value.
#[verifier::ext_equal]
pub enum Json {
    Null,
    Bool(bool),
    Str(Seq<char>),
    Array(Seq<Json>),
    Object(Seq<(Seq<char>, Json)>),
}

/// A JSON document built by the library; the server turns it into the response body.
#[derive(Debug, PartialEq)]
pub enum JsonValue {
    Null,
    Bool(bool),
    Str(String),
    Array(Vec<JsonValue>),
    Object(Vec<(String, JsonValue)>),
}

/// The document that `v` holds.
pub open spec fn json_of(v: JsonValue) -> Json
    decreases v,
{
    match v {
        JsonValue::Null => Json::Null,
        JsonValue::Bool(b) => Json::Bool(b),
        JsonValue::Str(s) => Json::Str(s@),
        JsonValue::Array(items) => Json::Array(
            Seq::new(
                items@.len(),
                |i: int|
                    if 0 <= i < items@.len() {
                        json_of(items@[i])
                    } else {
                        Json::Null
                    },
            ),
        ),
        JsonValue::Object(fields) => Json::Object(
            Seq::new(
                fields@.len(),
                |i: int|
                    if 0 <= i < fields@.len() {
                        (fields@[i].0@, json_of(fields@[i].1))
                    } else {
                        (Seq::empty(), Json::Null)
                    },
            ),
        ),
    }
}

impl View for JsonValue {
    type V = Json;

    open spec fn view(&self) -> Json {
        json_of(*self)
    }
}

} // verus!

verus! {

/// The fields of an object as mathematical values.
pub open spec fn fields_view(fields: Seq<(String, JsonValue)>) -> Seq<(Seq<char>, Json)> {
    Seq::new(fields.len(), |i: int| (fields[i].0@, fields[i].1@))
}

/// The object with `fields`, in their order.
pub fn object(fields: Vec<(String, JsonValue)>) -> (res: JsonValue)
    ensures
        res@ == Json::Object(fields_view(fields@)),
{
    let ghost f = fields@;
    let res = JsonValue::Object(fields);
    assert(res@->Object_0 =~= fields_view(f));
    res
}

/// The field `key: value` of an object.
pub fn field(key: &str, value: JsonValue) -> (res: (String, JsonValue))
    ensures
        res.0@ == key@,
        res.1 == value,
{
    (key.to_owned(), value)
}

} // verus!

verus! {

/// The items of an array as mathematical values.
pub open spec fn items_view(items: Seq<JsonValue>) -> Seq<Json> {
    Seq::new(items.len(), |i: int| items[i]@)
}

/// The array of `items`, in their order.
pub fn array(items: Vec<JsonValue>) -> (res: JsonValue)
    ensures
        res@ == Json::Array(items_view(items@)),
{
    let ghost f = items@;
    let res = JsonValue::Array(items);
    assert(res@->Array_0 =~= items_view(f));
    res
}

} // verus!
