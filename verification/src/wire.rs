//! The structural wire value and its mathematical model.

use vstd::prelude::*;

verus! {

/// A structural wire value: the JSON-shaped tree that turns are encoded
/// into and decoded from.
#[derive(Debug)]
pub enum WireValue {
    Null,
    Bool(bool),
    Int(i64),
    Str(String),
    Arr(Vec<WireValue>),
    Obj(Vec<(String, WireValue)>),
}

/// The mathematical model of a wire value.
pub enum WireV {
    Null,
    Bool(bool),
    Int(i64),
    Str(Seq<char>),
    Arr(Seq<WireV>),
    Obj(Seq<(Seq<char>, WireV)>),
}

/// The model of a sequence of wire values.
pub open spec fn wire_seq_view(items: Seq<WireValue>) -> Seq<WireV>
    decreases items,
{
    if items.len() == 0 {
        Seq::empty()
    } else {
        seq![wire_view(items[0])] + wire_seq_view(items.drop_first())
    }
}

/// The model of the field list of a wire object.
pub open spec fn wire_fields_view(fields: Seq<(String, WireValue)>) -> Seq<(Seq<char>, WireV)>
    decreases fields,
{
    if fields.len() == 0 {
        Seq::empty()
    } else {
        seq![(fields[0].0@, wire_view(fields[0].1))] + wire_fields_view(fields.drop_first())
    }
}

/// The model of a wire value.
pub open spec fn wire_view(v: WireValue) -> WireV
    decreases v,
{
    match v {
        WireValue::Null => WireV::Null,
        WireValue::Bool(b) => WireV::Bool(b),
        WireValue::Int(i) => WireV::Int(i),
        WireValue::Str(s) => WireV::Str(s@),
        WireValue::Arr(items) => WireV::Arr(wire_seq_view(items@)),
        WireValue::Obj(fields) => WireV::Obj(wire_fields_view(fields@)),
    }
}

impl View for WireValue {
    type V = WireV;

    open spec fn view(&self) -> WireV {
        wire_view(*self)
    }
}

/// The first value bound to `key` in an object's field list, if any.
pub open spec fn obj_get(fields: Seq<(Seq<char>, WireV)>, key: Seq<char>) -> Option<WireV>
    decreases fields.len(),
{
    if fields.len() == 0 {
        None
    } else if fields[0].0 == key {
        Some(fields[0].1)
    } else {
        obj_get(fields.drop_first(), key)
    }
}

/// Whether an object's field list binds `key`.
pub open spec fn obj_has(fields: Seq<(Seq<char>, WireV)>, key: Seq<char>) -> bool {
    obj_get(fields, key) is Some
}

} // verus!
