//! The shared backend value shape.
//!
//! Reads come back from the backend as one of these kinds; converting
//! into the runtime's `Value` is total for every kind with a defined
//! mapping and fails loudly for the rest, rather than dropping data.

use crate::datetime::{OffsetDateTime, PrimitiveDateTime};
use crate::json::{json_string_of, JsonValue};
use crate::ids::{IdValue, IdValueView};
use crate::value::{F32Repr, Value, ValueError, ValueView};
use serde_json::Value as JsonDocument;
use vstd::prelude::*;

verus! {

/// A value as the backend sends it.
#[derive(Debug)]
pub enum BackendValue {
    String(String),
    Json(JsonDocument),
    UuidV4(u128),
    UuidV7(u128),
    I32(i32),
    I32Vec(Vec<i32>),
    I64(i64),
    U32(u32),
    F32(F32Repr),
    Bool(bool),
    PrimitiveDateTime(PrimitiveDateTime),
    OffsetDateTime(OffsetDateTime),
}

impl Value {
    /// Converts a backend value into a runtime value. Text arrives as
    /// `String` (the backend does not distinguish short from long
    /// text), a raw JSON document is wrapped with its serialized form
    /// computed, and plain kinds map to themselves. A vector kind has
    /// no mapping yet and fails loudly.
    pub fn from_backend_value(backend: BackendValue) -> (r: Result<Value, ValueError>)
        ensures
            match backend {
                BackendValue::String(s) => (r matches Ok(v) && v@ == ValueView::String(s@)),
                BackendValue::Json(document) => (r matches Ok(v) && v@ == ValueView::Json(
                    json_string_of(document),
                )),
                BackendValue::UuidV4(b) => (r matches Ok(v) && v@ == ValueView::UuidV4(b)),
                BackendValue::UuidV7(b) => (r matches Ok(v) && v@ == ValueView::UuidV7(b)),
                BackendValue::I32(n) => (r matches Ok(v) && v@ == ValueView::I32(n)),
                BackendValue::I32Vec(_) => r == Err::<Value, ValueError>(
                    ValueError::UnsupportedConversion,
                ),
                BackendValue::I64(n) => (r matches Ok(v) && v@ == ValueView::I64(n)),
                BackendValue::U32(n) => (r matches Ok(v) && v@ == ValueView::U32(n)),
                BackendValue::F32(f) => (r matches Ok(v) && v@ == ValueView::F32(f@)),
                BackendValue::Bool(b) => (r matches Ok(v) && v@ == ValueView::Bool(b)),
                BackendValue::PrimitiveDateTime(dt) => (r matches Ok(v) && v@
                    == ValueView::PrimitiveDateTime(dt)),
                BackendValue::OffsetDateTime(dt) => (r matches Ok(v) && v@
                    == ValueView::OffsetDateTime(dt)),
            },
    {
        match backend {
            BackendValue::String(s) => Ok(Value::String(s)),
            BackendValue::Json(document) => Ok(Value::Json(JsonValue::new(document))),
            BackendValue::UuidV4(b) => Ok(Value::UuidV4(b)),
            BackendValue::UuidV7(b) => Ok(Value::UuidV7(b)),
            BackendValue::I32(n) => Ok(Value::I32(n)),
            BackendValue::I32Vec(_) => Err(ValueError::UnsupportedConversion),
            BackendValue::I64(n) => Ok(Value::I64(n)),
            BackendValue::U32(n) => Ok(Value::U32(n)),
            BackendValue::F32(f) => Ok(Value::F32(f)),
            BackendValue::Bool(b) => Ok(Value::Bool(b)),
            BackendValue::PrimitiveDateTime(dt) => Ok(Value::PrimitiveDateTime(dt)),
            BackendValue::OffsetDateTime(dt) => Ok(Value::OffsetDateTime(dt)),
        }
    }

    /// Converts an identifier field value into a runtime value. Total:
    /// every identifier kind has a mapping.
    pub fn from_id_value(id_value: IdValue) -> (r: Value)
        ensures
            r@ == (match id_value@ {
                IdValueView::String(s) => ValueView::String(s),
                IdValueView::UuidV4(b) => ValueView::UuidV4(b),
                IdValueView::UuidV7(b) => ValueView::UuidV7(b),
                IdValueView::I32(n) => ValueView::I32(n),
                IdValueView::I64(n) => ValueView::I64(n),
                IdValueView::U32(n) => ValueView::U32(n),
                IdValueView::Bool(b) => ValueView::Bool(b),
                IdValueView::PrimitiveDateTime(dt) => ValueView::PrimitiveDateTime(dt),
                IdValueView::OffsetDateTime(dt) => ValueView::OffsetDateTime(dt),
            }),
    {
        match id_value {
            IdValue::String(s) => Value::String(s),
            IdValue::UuidV4(b) => Value::UuidV4(b),
            IdValue::UuidV7(b) => Value::UuidV7(b),
            IdValue::I32(n) => Value::I32(n),
            IdValue::I64(n) => Value::I64(n),
            IdValue::U32(n) => Value::U32(n),
            IdValue::Bool(b) => Value::Bool(b),
            IdValue::PrimitiveDateTime(dt) => Value::PrimitiveDateTime(dt),
            IdValue::OffsetDateTime(dt) => Value::OffsetDateTime(dt),
        }
    }
}

} // verus!
