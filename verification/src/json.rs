//! A structural model of JSON values, used for the request bodies the
//! builder produces.  Objects keep their entries in insertion order, so a
//! built body is fully determined by the builder's inputs.

use vstd::prelude::*;

verus! {

broadcast use vstd::std_specs::vec::axiom_vec_index_decreases;

/// Mathematical mirror of `Json`, used in contracts.
#[verifier::ext_equal]
pub enum JsonV {
    Null,
    Bool(bool),
    Int(u64),
    /// A non-integer number, carried as its decimal text.
    Num(Seq<char>),
    Str(Seq<char>),
    Arr(Seq<JsonV>),
    Obj(Seq<(Seq<char>, JsonV)>),
}

/// A JSON value.  Non-integer numbers are carried as their decimal text,
/// so that the whole value is plain data.
#[derive(Debug, PartialEq, Eq)]
pub enum Json {
    Null,
    Bool(bool),
    Int(u64),
    Num(String),
    Str(String),
    Arr(Vec<Json>),
    Obj(Vec<(String, Json)>),
}

/// The mathematical value of a `Json` tree.
pub open spec fn json_view(j: Json) -> JsonV
    decreases j,
{
    match j {
        Json::Null => JsonV::Null,
        Json::Bool(b) => JsonV::Bool(b),
        Json::Int(n) => JsonV::Int(n),
        Json::Num(s) => JsonV::Num(s@),
        Json::Str(s) => JsonV::Str(s@),
        Json::Arr(v) => JsonV::Arr(
            Seq::new(v@.len(), |i: int| if 0 <= i < v@.len() { json_view(v@[i]) } else { JsonV::Null }),
        ),
        Json::Obj(v) => JsonV::Obj(
            Seq::new(
                v@.len(),
                |i: int| if 0 <= i < v@.len() {
                    (v@[i].0@, json_view(v@[i].1))
                } else {
                    (Seq::empty(), JsonV::Null)
                },
            ),
        ),
    }
}

impl View for Json {
    type V = JsonV;

    open spec fn view(&self) -> JsonV {
        json_view(*self)
    }
}

/// A string value.
pub fn j_str(s: String) -> (r: Json)
    ensures
        r@ == JsonV::Str(s@),
{
    Json::Str(s)
}

/// A number value, from its decimal text.
pub fn j_num(s: String) -> (r: Json)
    ensures
        r@ == JsonV::Num(s@),
{
    Json::Num(s)
}

/// A boolean value.
pub fn j_bool(b: bool) -> (r: Json)
    ensures
        r@ == JsonV::Bool(b),
{
    Json::Bool(b)
}

/// An array value, carrying the given items in order.
pub fn j_arr(items: Vec<Json>) -> (r: Json)
    ensures
        r@ is Arr,
        r@->Arr_0.len() == items@.len(),
        forall|i: int| 0 <= i < items@.len() ==> r@->Arr_0[i] == items@[i]@,
{
    let r = Json::Arr(items);
    r
}

/// An object value, carrying the given entries in order.
pub fn j_obj(fields: Vec<(String, Json)>) -> (r: Json)
    ensures
        r@ is Obj,
        r@->Obj_0.len() == fields@.len(),
        forall|i: int| 0 <= i < fields@.len() ==> r@->Obj_0[i] == (fields@[i].0@, fields@[i].1@),
{
    let r = Json::Obj(fields);
    r
}

} // verus!
