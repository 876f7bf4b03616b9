//! The boundary to the wire codec.
//!
//! Encoding structured values to bytes is the codec's job, not this
//! library's: the library builds the value, the codec serializes it. The
//! byte encoding of a value is named, never spelled out, and everything
//! the library proves about encoded messages goes through that name.

use vstd::prelude::*;

use mpack::Value as MpackValue;

use crate::value::{EntryModel, Value, ValueModel};

verus! {

/// The number of bytes the UTF-8 encoding of one character takes.
pub open spec fn char_utf8_len(c: char) -> int {
    if (c as int) < 0x80 {
        1
    } else if (c as int) < 0x800 {
        2
    } else if (c as int) < 0x10000 {
        3
    } else {
        4
    }
}

/// The number of bytes the UTF-8 encoding of a text takes.
pub open spec fn utf8_len(s: Seq<char>) -> int
    decreases s.len(),
{
    if s.len() == 0 {
        0
    } else {
        char_utf8_len(s[0]) + utf8_len(s.drop_first())
    }
}

/// Whether a value fits the wire format, which caps every text, binary
/// blob, array, map and extension payload at a 32-bit length. Encoding
/// succeeds exactly on values that fit.
pub open spec fn fits_wire(v: ValueModel) -> bool
    decreases v,
{
    match v {
        ValueModel::Nil => true,
        ValueModel::Boolean(_) => true,
        ValueModel::Int(_) => true,
        ValueModel::Uint(_) => true,
        ValueModel::Text(s) => utf8_len(s) <= u32::MAX,
        ValueModel::Binary(b) => b.len() <= u32::MAX,
        ValueModel::Array(xs) => xs.len() <= u32::MAX && all_fit(xs),
        ValueModel::Dict(es) => es.len() <= u32::MAX && entries_fit(es),
        ValueModel::Extended(_, d) => d.len() <= u32::MAX,
    }
}

/// Whether every value of a sequence fits the wire format.
pub open spec fn all_fit(xs: Seq<ValueModel>) -> bool
    decreases xs,
{
    xs.len() == 0 || (fits_wire(xs[0]) && all_fit(xs.drop_first()))
}

/// Whether every key and value of a map fits the wire format.
pub open spec fn entries_fit(es: Seq<EntryModel>) -> bool
    decreases es,
{
    es.len() == 0 || (fits_wire(es[0].key) && fits_wire(es[0].val) && entries_fit(
        es.drop_first(),
    ))
}

/// The codec's own value type, opaque to this library.
#[verifier::external_type_specification]
#[verifier::external_body]
pub struct ExMpackValue(MpackValue);

/// The library value that a codec value carries.
pub uninterp spec fn wire_model(w: MpackValue) -> ValueModel;

/// The byte encoding the codec gives a value.
pub uninterp spec fn msgpack_bytes(v: ValueModel) -> Seq<u8>;

/// Why a value could not be encoded.
#[derive(Debug)]
pub enum EncodeError {
    /// A string, binary blob, array or map is too long for the wire
    /// format, which caps lengths at 32 bits.
    TooMuchData(usize),
    /// The byte sink failed underneath the codec.
    Io,
}

/// Relies on the shape of mpack::Value: each arm moves one variant's data
/// into the codec variant that carries the same content, so the result
/// carries exactly the given value.
#[verifier::external_body]
fn to_wire(v: &Value) -> (r: MpackValue)
    ensures
        wire_model(r) == v.deep_view(),
{
    match v {
        Value::Nil => MpackValue::Nil,
        Value::Boolean(b) => MpackValue::Boolean(*b),
        Value::Int(i) => MpackValue::Int64(*i),
        Value::Uint(u) => MpackValue::Uint64(*u),
        Value::Text(s) => MpackValue::String(s.clone()),
        Value::Binary(b) => MpackValue::Binary(b.clone()),
        Value::Array(xs) => MpackValue::Array(xs.iter().map(to_wire).collect()),
        Value::Dict(es) => MpackValue::Map(mpack::ValueMap(
            es.iter().map(|e| (to_wire(&e.key), to_wire(&e.val))).collect(),
        )),
        Value::Extended(t, d) => MpackValue::Extended(*t, d.clone()),
    }
}

/// Relies on mpack::write_value: the bytes written into an in-memory
/// buffer depend on the value alone, and the write fails exactly when
/// some text, binary, array, map or extension payload is longer than the
/// wire format's 32-bit cap — the in-memory sink itself cannot fail.
#[verifier::external_body]
fn write_wire(w: MpackValue) -> (r: Result<Vec<u8>, EncodeError>)
    ensures
        r is Ok <==> fits_wire(wire_model(w)),
        r matches Ok(b) ==> b@ == msgpack_bytes(wire_model(w)),
{
    let mut buf: Vec<u8> = Vec::new();
    match mpack::write_value(&mut buf, w) {
        Ok(()) => Ok(buf),
        Err(mpack::WriteError::TooMuchData(n)) => Err(EncodeError::TooMuchData(n)),
        Err(_) => Err(EncodeError::Io),
    }
}

/// Serialize a value through the codec; succeeds exactly when the value
/// fits the wire format.
pub fn encode_value(v: &Value) -> (r: Result<Vec<u8>, EncodeError>)
    ensures
        r is Ok <==> fits_wire(v.deep_view()),
        r matches Ok(b) ==> b@ == msgpack_bytes(v.deep_view()),
{
    let w = to_wire(v);
    write_wire(w)
}

} // verus!
