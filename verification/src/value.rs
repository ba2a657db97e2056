//! The tagged value model.
//!
//! Every field an entity exposes is read and written as a `Value`: a
//! closed sum with one variant per supported field kind. A `Value` is
//! self-describing — the variant tag alone decides which operations
//! are legal on it. The `take_*` family narrows a `Value` back to a
//! native value; each performs exactly the enumerated cross-variant
//! coercions and otherwise fails with a typed error carrying the
//! unexpected variant.

use crate::datetime::{
    format_offset_date_time, format_primitive_date_time, offset_date_time_seq,
    parse_offset_rfc3339, parse_primitive_rfc3339, primitive_date_time_seq, rfc3339_offset_of,
    rfc3339_primitive_of, OffsetDateTime, PrimitiveDateTime,
};
use crate::text::{
    dec_seq, i64_to_dec_string, parse_i32, parse_i64, parse_u32, parsed_i32, parsed_i64,
    parsed_u32, signed_dec_seq, u64_to_dec_string, uuid_seq, uuid_to_string,
};
use serde_json::Value as JsonDocument;
use crate::ids::{
    duplicate_id_fields, id_field_views, id_fields_eq, id_value_display, id_value_display_wf,
    IdField, IdFieldView, IdValueView,
};
use vstd::string::StringExecFns;
use crate::json::JsonValue;
use crate::selectable::{
    all_tags, duplicate_selectables, first_tag_mismatch, selectable_views, selectables_eq,
    some_tag, Selectable, SelectableView,
};
use vstd::prelude::*;

verus! {

/// A 32-bit float carried as its raw bits together with the text it
/// renders as. Float arithmetic never happens in this runtime; the
/// pair is produced at the boundary and carried through unchanged.
#[derive(Debug)]
pub struct F32Repr {
    pub bits: u32,
    pub repr: String,
}

/// The observable state of a carried float.
pub struct F32ReprView {
    pub bits: u32,
    pub repr: Seq<char>,
}

impl View for F32Repr {
    type V = F32ReprView;

    open spec fn view(&self) -> F32ReprView {
        F32ReprView { bits: self.bits, repr: self.repr@ }
    }
}

impl F32Repr {
    /// A copy observing equal.
    pub fn duplicate(&self) -> (r: F32Repr)
        ensures
            r@ == self@,
    {
        F32Repr { bits: self.bits, repr: self.repr.clone() }
    }
}

/// The variant tag of a `Value`, for diagnostics and for kind checks.
#[derive(Clone, Copy, PartialEq, Eq, Structural, Debug)]
pub enum ValueKind {
    String,
    Text,
    Json,
    OptionalJson,
    UuidV4,
    UuidV7,
    U32,
    OptionalU32,
    I32,
    I64,
    OptionalI32,
    OptionalI64,
    F32,
    Bool,
    ValidationStatus,
    PrimitiveDateTime,
    OffsetDateTime,
    OptionalPrimitiveDateTime,
    OptionalOffsetDateTime,
    OneToOneRelation,
    NestedTable,
    Custom,
    Select,
    Multiselect,
    OptionalSelect,
    OptionalMultiselect,
}

/// Why narrowing a `Value` failed.
#[derive(Clone, Copy, PartialEq, Eq, Structural, Debug)]
pub enum ValueError {
    /// The value's variant is not one the operation accepts.
    UnexpectedVariant { found: ValueKind },
    /// A string coercion was attempted and the text did not parse.
    ParseFailed,
    /// A selectable's concrete type tag was not the expected one.
    DowncastFailed { expected_tag: u64, found_tag: u64 },
    /// The value's kind has no defined mapping for the conversion.
    UnsupportedConversion,
}

/// A field value. All variants are stateless and copy-replaceable.
#[derive(Debug)]
pub enum Value {
    String(String),
    Text(String),
    Json(JsonValue),
    OptionalJson(Option<JsonValue>),
    UuidV4(u128),
    UuidV7(u128),
    U32(u32),
    OptionalU32(Option<u32>),
    I32(i32),
    I64(i64),
    OptionalI32(Option<i32>),
    OptionalI64(Option<i64>),
    F32(F32Repr),
    Bool(bool),
    /// A specialized boolean rendered as a validation marker.
    ValidationStatus(bool),
    PrimitiveDateTime(PrimitiveDateTime),
    OffsetDateTime(OffsetDateTime),
    OptionalPrimitiveDateTime(Option<PrimitiveDateTime>),
    OptionalOffsetDateTime(Option<OffsetDateTime>),
    OneToOneRelation(Option<u32>),
    NestedTable(Vec<IdField>),
    Custom(()),
    Select(Selectable),
    Multiselect(Vec<Selectable>),
    OptionalSelect(Option<Selectable>),
    OptionalMultiselect(Option<Vec<Selectable>>),
}

/// The observable state of a `Value`. A JSON payload is observed
/// through its serialized form.
pub enum ValueView {
    String(Seq<char>),
    Text(Seq<char>),
    Json(Seq<char>),
    OptionalJson(Option<Seq<char>>),
    UuidV4(u128),
    UuidV7(u128),
    U32(u32),
    OptionalU32(Option<u32>),
    I32(i32),
    I64(i64),
    OptionalI32(Option<i32>),
    OptionalI64(Option<i64>),
    F32(F32ReprView),
    Bool(bool),
    ValidationStatus(bool),
    PrimitiveDateTime(PrimitiveDateTime),
    OffsetDateTime(OffsetDateTime),
    OptionalPrimitiveDateTime(Option<PrimitiveDateTime>),
    OptionalOffsetDateTime(Option<OffsetDateTime>),
    OneToOneRelation(Option<u32>),
    NestedTable(Seq<IdFieldView>),
    Custom,
    Select(SelectableView),
    Multiselect(Seq<SelectableView>),
    OptionalSelect(Option<SelectableView>),
    OptionalMultiselect(Option<Seq<SelectableView>>),
}

impl View for Value {
    type V = ValueView;

    open spec fn view(&self) -> ValueView {
        match self {
            Value::String(s) => ValueView::String(s@),
            Value::Text(s) => ValueView::Text(s@),
            Value::Json(j) => ValueView::Json(j@),
            Value::OptionalJson(o) => ValueView::OptionalJson(
                match o {
                    Some(j) => Some(j@),
                    None => None,
                },
            ),
            Value::UuidV4(b) => ValueView::UuidV4(*b),
            Value::UuidV7(b) => ValueView::UuidV7(*b),
            Value::U32(v) => ValueView::U32(*v),
            Value::OptionalU32(o) => ValueView::OptionalU32(*o),
            Value::I32(v) => ValueView::I32(*v),
            Value::I64(v) => ValueView::I64(*v),
            Value::OptionalI32(o) => ValueView::OptionalI32(*o),
            Value::OptionalI64(o) => ValueView::OptionalI64(*o),
            Value::F32(f) => ValueView::F32(f@),
            Value::Bool(b) => ValueView::Bool(*b),
            Value::ValidationStatus(b) => ValueView::ValidationStatus(*b),
            Value::PrimitiveDateTime(dt) => ValueView::PrimitiveDateTime(*dt),
            Value::OffsetDateTime(dt) => ValueView::OffsetDateTime(*dt),
            Value::OptionalPrimitiveDateTime(o) => ValueView::OptionalPrimitiveDateTime(*o),
            Value::OptionalOffsetDateTime(o) => ValueView::OptionalOffsetDateTime(*o),
            Value::OneToOneRelation(o) => ValueView::OneToOneRelation(*o),
            Value::NestedTable(fields) => ValueView::NestedTable(id_field_views(fields@)),
            Value::Custom(_) => ValueView::Custom,
            Value::Select(s) => ValueView::Select(s@),
            Value::Multiselect(s) => ValueView::Multiselect(selectable_views(s@)),
            Value::OptionalSelect(o) => ValueView::OptionalSelect(
                match o {
                    Some(s) => Some(s@),
                    None => None,
                },
            ),
            Value::OptionalMultiselect(o) => ValueView::OptionalMultiselect(
                match o {
                    Some(s) => Some(selectable_views(s@)),
                    None => None,
                },
            ),
        }
    }
}

/// The variant tag of an observed value.
pub open spec fn view_kind(v: ValueView) -> ValueKind {
    match v {
        ValueView::String(_) => ValueKind::String,
        ValueView::Text(_) => ValueKind::Text,
        ValueView::Json(_) => ValueKind::Json,
        ValueView::OptionalJson(_) => ValueKind::OptionalJson,
        ValueView::UuidV4(_) => ValueKind::UuidV4,
        ValueView::UuidV7(_) => ValueKind::UuidV7,
        ValueView::U32(_) => ValueKind::U32,
        ValueView::OptionalU32(_) => ValueKind::OptionalU32,
        ValueView::I32(_) => ValueKind::I32,
        ValueView::I64(_) => ValueKind::I64,
        ValueView::OptionalI32(_) => ValueKind::OptionalI32,
        ValueView::OptionalI64(_) => ValueKind::OptionalI64,
        ValueView::F32(_) => ValueKind::F32,
        ValueView::Bool(_) => ValueKind::Bool,
        ValueView::ValidationStatus(_) => ValueKind::ValidationStatus,
        ValueView::PrimitiveDateTime(_) => ValueKind::PrimitiveDateTime,
        ValueView::OffsetDateTime(_) => ValueKind::OffsetDateTime,
        ValueView::OptionalPrimitiveDateTime(_) => ValueKind::OptionalPrimitiveDateTime,
        ValueView::OptionalOffsetDateTime(_) => ValueKind::OptionalOffsetDateTime,
        ValueView::OneToOneRelation(_) => ValueKind::OneToOneRelation,
        ValueView::NestedTable(_) => ValueKind::NestedTable,
        ValueView::Custom => ValueKind::Custom,
        ValueView::Select(_) => ValueKind::Select,
        ValueView::Multiselect(_) => ValueKind::Multiselect,
        ValueView::OptionalSelect(_) => ValueKind::OptionalSelect,
        ValueView::OptionalMultiselect(_) => ValueKind::OptionalMultiselect,
    }
}

impl Value {
    /// The value's variant tag.
    pub fn kind(&self) -> (r: ValueKind)
        ensures
            r == view_kind(self@),
    {
        match self {
            Value::String(_) => ValueKind::String,
            Value::Text(_) => ValueKind::Text,
            Value::Json(_) => ValueKind::Json,
            Value::OptionalJson(_) => ValueKind::OptionalJson,
            Value::UuidV4(_) => ValueKind::UuidV4,
            Value::UuidV7(_) => ValueKind::UuidV7,
            Value::U32(_) => ValueKind::U32,
            Value::OptionalU32(_) => ValueKind::OptionalU32,
            Value::I32(_) => ValueKind::I32,
            Value::I64(_) => ValueKind::I64,
            Value::OptionalI32(_) => ValueKind::OptionalI32,
            Value::OptionalI64(_) => ValueKind::OptionalI64,
            Value::F32(_) => ValueKind::F32,
            Value::Bool(_) => ValueKind::Bool,
            Value::ValidationStatus(_) => ValueKind::ValidationStatus,
            Value::PrimitiveDateTime(_) => ValueKind::PrimitiveDateTime,
            Value::OffsetDateTime(_) => ValueKind::OffsetDateTime,
            Value::OptionalPrimitiveDateTime(_) => ValueKind::OptionalPrimitiveDateTime,
            Value::OptionalOffsetDateTime(_) => ValueKind::OptionalOffsetDateTime,
            Value::OneToOneRelation(_) => ValueKind::OneToOneRelation,
            Value::NestedTable(_) => ValueKind::NestedTable,
            Value::Custom(_) => ValueKind::Custom,
            Value::Select(_) => ValueKind::Select,
            Value::Multiselect(_) => ValueKind::Multiselect,
            Value::OptionalSelect(_) => ValueKind::OptionalSelect,
            Value::OptionalMultiselect(_) => ValueKind::OptionalMultiselect,
        }
    }

    /// Structural equality of two values, over their observable state.
    pub fn value_eq(&self, other: &Value) -> (r: bool)
        ensures
            r == (self@ == other@),
    {
        match (self, other) {
            (Value::String(a), Value::String(b)) => *a == *b,
            (Value::Text(a), Value::Text(b)) => *a == *b,
            (Value::Json(a), Value::Json(b)) => a.json_eq(b),
            (Value::OptionalJson(a), Value::OptionalJson(b)) => match (a, b) {
                (Some(x), Some(y)) => x.json_eq(y),
                (None, None) => true,
                _ => false,
            },
            (Value::UuidV4(a), Value::UuidV4(b)) => *a == *b,
            (Value::UuidV7(a), Value::UuidV7(b)) => *a == *b,
            (Value::U32(a), Value::U32(b)) => *a == *b,
            (Value::OptionalU32(a), Value::OptionalU32(b)) => match (a, b) {
                (Some(x), Some(y)) => *x == *y,
                (None, None) => true,
                _ => false,
            },
            (Value::I32(a), Value::I32(b)) => *a == *b,
            (Value::I64(a), Value::I64(b)) => *a == *b,
            (Value::OptionalI32(a), Value::OptionalI32(b)) => match (a, b) {
                (Some(x), Some(y)) => *x == *y,
                (None, None) => true,
                _ => false,
            },
            (Value::OptionalI64(a), Value::OptionalI64(b)) => match (a, b) {
                (Some(x), Some(y)) => *x == *y,
                (None, None) => true,
                _ => false,
            },
            (Value::F32(a), Value::F32(b)) => a.bits == b.bits && a.repr == b.repr,
            (Value::Bool(a), Value::Bool(b)) => *a == *b,
            (Value::ValidationStatus(a), Value::ValidationStatus(b)) => *a == *b,
            (Value::PrimitiveDateTime(a), Value::PrimitiveDateTime(b)) => *a == *b,
            (Value::OffsetDateTime(a), Value::OffsetDateTime(b)) => *a == *b,
            (
                Value::OptionalPrimitiveDateTime(a),
                Value::OptionalPrimitiveDateTime(b),
            ) => match (a, b) {
                (Some(x), Some(y)) => *x == *y,
                (None, None) => true,
                _ => false,
            },
            (Value::OptionalOffsetDateTime(a), Value::OptionalOffsetDateTime(b)) => match (
                a,
                b,
            ) {
                (Some(x), Some(y)) => *x == *y,
                (None, None) => true,
                _ => false,
            },
            (Value::OneToOneRelation(a), Value::OneToOneRelation(b)) => match (a, b) {
                (Some(x), Some(y)) => *x == *y,
                (None, None) => true,
                _ => false,
            },
            (Value::NestedTable(a), Value::NestedTable(b)) => id_fields_eq(a, b),
            (Value::Custom(_), Value::Custom(_)) => true,
            (Value::Select(a), Value::Select(b)) => a.selectable_eq(b),
            (Value::Multiselect(a), Value::Multiselect(b)) => selectables_eq(a, b),
            (Value::OptionalSelect(a), Value::OptionalSelect(b)) => match (a, b) {
                (Some(x), Some(y)) => x.selectable_eq(y),
                (None, None) => true,
                _ => false,
            },
            (Value::OptionalMultiselect(a), Value::OptionalMultiselect(b)) => match (a, b) {
                (Some(x), Some(y)) => selectables_eq(x, y),
                (None, None) => true,
                _ => false,
            },
            _ => false,
        }
    }

    /// Narrows to the text of a `String` value.
    pub fn take_string(self) -> (r: Result<String, ValueError>)
        ensures
            match self@ {
                ValueView::String(s) => r matches Ok(x) && x@ == s,
                _ => r == Err::<String, ValueError>(
                    ValueError::UnexpectedVariant { found: view_kind(self@) },
                ),
            },
    {
        match self {
            Value::String(s) => Ok(s),
            other => Err(ValueError::UnexpectedVariant { found: other.kind() }),
        }
    }

    /// Narrows to the text of a `Text` value.
    pub fn take_text(self) -> (r: Result<String, ValueError>)
        ensures
            match self@ {
                ValueView::Text(s) => r matches Ok(x) && x@ == s,
                _ => r == Err::<String, ValueError>(
                    ValueError::UnexpectedVariant { found: view_kind(self@) },
                ),
            },
    {
        match self {
            Value::Text(s) => Ok(s),
            other => Err(ValueError::UnexpectedVariant { found: other.kind() }),
        }
    }

    /// Narrows to the parsed document of a `Json` value.
    pub fn take_inner_json_value(self) -> (r: Result<JsonDocument, ValueError>)
        ensures
            self@ is Json <==> r is Ok,
            !(self@ is Json) ==> (r matches Err(e) && e == (ValueError::UnexpectedVariant {
                found: view_kind(self@),
            })),
    {
        match self {
            Value::Json(j) => Ok(j.into_inner_value()),
            other => Err(ValueError::UnexpectedVariant { found: other.kind() }),
        }
    }

    /// Narrows to the number of a `U32` value.
    pub fn take_u32(self) -> (r: Result<u32, ValueError>)
        ensures
            match self@ {
                ValueView::U32(v) => r == Ok::<u32, ValueError>(v),
                _ => r == Err::<u32, ValueError>(
                    ValueError::UnexpectedVariant { found: view_kind(self@) },
                ),
            },
    {
        match self {
            Value::U32(v) => Ok(v),
            other => Err(ValueError::UnexpectedVariant { found: other.kind() }),
        }
    }

    /// Narrows to a `u32`, additionally parsing the text of a
    /// `String` value as decimal.
    pub fn take_u32_or_parse(self) -> (r: Result<u32, ValueError>)
        ensures
            match self@ {
                ValueView::U32(v) => r == Ok::<u32, ValueError>(v),
                ValueView::String(s) => match parsed_u32(s) {
                    Some(v) => r == Ok::<u32, ValueError>(v),
                    None => r == Err::<u32, ValueError>(ValueError::ParseFailed),
                },
                _ => r == Err::<u32, ValueError>(
                    ValueError::UnexpectedVariant { found: view_kind(self@) },
                ),
            },
    {
        match self {
            Value::U32(v) => Ok(v),
            Value::String(s) => match parse_u32(s.as_str()) {
                Some(v) => Ok(v),
                None => Err(ValueError::ParseFailed),
            },
            other => Err(ValueError::UnexpectedVariant { found: other.kind() }),
        }
    }

    /// Narrows to an `i32`; a `U32` value is accepted and cast, which
    /// wraps for numbers beyond `i32::MAX` as the two's-complement
    /// cast does.
    pub fn take_i32(self) -> (r: Result<i32, ValueError>)
        ensures
            match self@ {
                ValueView::I32(v) => r == Ok::<i32, ValueError>(v),
                ValueView::U32(v) => r == Ok::<i32, ValueError>(v as i32),
                _ => r == Err::<i32, ValueError>(
                    ValueError::UnexpectedVariant { found: view_kind(self@) },
                ),
            },
    {
        match self {
            Value::I32(v) => Ok(v),
            Value::U32(v) => Ok(
                #[verifier::truncate]
                (v as i32),
            ),
            other => Err(ValueError::UnexpectedVariant { found: other.kind() }),
        }
    }

    /// Narrows to the number of an `I64` value.
    pub fn take_i64(self) -> (r: Result<i64, ValueError>)
        ensures
            match self@ {
                ValueView::I64(v) => r == Ok::<i64, ValueError>(v),
                _ => r == Err::<i64, ValueError>(
                    ValueError::UnexpectedVariant { found: view_kind(self@) },
                ),
            },
    {
        match self {
            Value::I64(v) => Ok(v),
            other => Err(ValueError::UnexpectedVariant { found: other.kind() }),
        }
    }

    /// Narrows to an optional `i32`: an `I32` value is some, an
    /// `OptionalI32` is itself, and a `String` is parsed, a failed
    /// parse yielding none rather than an error.
    pub fn take_optional_i32(self) -> (r: Result<Option<i32>, ValueError>)
        ensures
            match self@ {
                ValueView::I32(v) => r == Ok::<Option<i32>, ValueError>(Some(v)),
                ValueView::OptionalI32(o) => r == Ok::<Option<i32>, ValueError>(o),
                ValueView::String(s) => r == Ok::<Option<i32>, ValueError>(parsed_i32(s)),
                _ => r == Err::<Option<i32>, ValueError>(
                    ValueError::UnexpectedVariant { found: view_kind(self@) },
                ),
            },
    {
        match self {
            Value::I32(v) => Ok(Some(v)),
            Value::OptionalI32(o) => Ok(o),
            Value::String(s) => Ok(parse_i32(s.as_str())),
            other => Err(ValueError::UnexpectedVariant { found: other.kind() }),
        }
    }

    /// Narrows to an optional `i64`, as `take_optional_i32` does.
    pub fn take_optional_i64(self) -> (r: Result<Option<i64>, ValueError>)
        ensures
            match self@ {
                ValueView::I64(v) => r == Ok::<Option<i64>, ValueError>(Some(v)),
                ValueView::OptionalI64(o) => r == Ok::<Option<i64>, ValueError>(o),
                ValueView::String(s) => r == Ok::<Option<i64>, ValueError>(parsed_i64(s)),
                _ => r == Err::<Option<i64>, ValueError>(
                    ValueError::UnexpectedVariant { found: view_kind(self@) },
                ),
            },
    {
        match self {
            Value::I64(v) => Ok(Some(v)),
            Value::OptionalI64(o) => Ok(o),
            Value::String(s) => Ok(parse_i64(s.as_str())),
            other => Err(ValueError::UnexpectedVariant { found: other.kind() }),
        }
    }

    /// Narrows to the carried float of an `F32` value.
    pub fn take_f32(self) -> (r: Result<F32Repr, ValueError>)
        ensures
            match self@ {
                ValueView::F32(f) => r matches Ok(x) && x@ == f,
                _ => r == Err::<F32Repr, ValueError>(
                    ValueError::UnexpectedVariant { found: view_kind(self@) },
                ),
            },
    {
        match self {
            Value::F32(f) => Ok(f),
            other => Err(ValueError::UnexpectedVariant { found: other.kind() }),
        }
    }

    /// Narrows to the boolean of a `Bool` value.
    pub fn take_bool(self) -> (r: Result<bool, ValueError>)
        ensures
            match self@ {
                ValueView::Bool(b) => r == Ok::<bool, ValueError>(b),
                _ => r == Err::<bool, ValueError>(
                    ValueError::UnexpectedVariant { found: view_kind(self@) },
                ),
            },
    {
        match self {
            Value::Bool(b) => Ok(b),
            other => Err(ValueError::UnexpectedVariant { found: other.kind() }),
        }
    }

    /// Narrows to a date-time without offset; a `String` value is
    /// parsed as RFC 3339, and a failed parse is an error.
    pub fn take_primitive_date_time(self) -> (r: Result<PrimitiveDateTime, ValueError>)
        ensures
            match self@ {
                ValueView::PrimitiveDateTime(dt) => r == Ok::<PrimitiveDateTime, ValueError>(dt),
                ValueView::String(s) => match rfc3339_primitive_of(s) {
                    Some(dt) => r == Ok::<PrimitiveDateTime, ValueError>(dt),
                    None => r == Err::<PrimitiveDateTime, ValueError>(ValueError::ParseFailed),
                },
                _ => r == Err::<PrimitiveDateTime, ValueError>(
                    ValueError::UnexpectedVariant { found: view_kind(self@) },
                ),
            },
    {
        match self {
            Value::PrimitiveDateTime(dt) => Ok(dt),
            Value::String(s) => match parse_primitive_rfc3339(s.as_str()) {
                Some(dt) => Ok(dt),
                None => Err(ValueError::ParseFailed),
            },
            other => Err(ValueError::UnexpectedVariant { found: other.kind() }),
        }
    }

    /// Narrows to an offset date-time; a `String` value is parsed as
    /// RFC 3339, and a failed parse is an error.
    pub fn take_offset_date_time(self) -> (r: Result<OffsetDateTime, ValueError>)
        ensures
            match self@ {
                ValueView::OffsetDateTime(dt) => r == Ok::<OffsetDateTime, ValueError>(dt),
                ValueView::String(s) => match rfc3339_offset_of(s) {
                    Some(dt) => r == Ok::<OffsetDateTime, ValueError>(dt),
                    None => r == Err::<OffsetDateTime, ValueError>(ValueError::ParseFailed),
                },
                _ => r == Err::<OffsetDateTime, ValueError>(
                    ValueError::UnexpectedVariant { found: view_kind(self@) },
                ),
            },
    {
        match self {
            Value::OffsetDateTime(dt) => Ok(dt),
            Value::String(s) => match parse_offset_rfc3339(s.as_str()) {
                Some(dt) => Ok(dt),
                None => Err(ValueError::ParseFailed),
            },
            other => Err(ValueError::UnexpectedVariant { found: other.kind() }),
        }
    }

    /// Narrows to an optional date-time without offset; a `String`
    /// value is parsed as RFC 3339, and a failed parse is an error.
    pub fn take_optional_primitive_date_time(self) -> (r: Result<
        Option<PrimitiveDateTime>,
        ValueError,
    >)
        ensures
            match self@ {
                ValueView::PrimitiveDateTime(dt) => r == Ok::<Option<PrimitiveDateTime>, ValueError>(
                    Some(dt),
                ),
                ValueView::OptionalPrimitiveDateTime(o) => r == Ok::<
                    Option<PrimitiveDateTime>,
                    ValueError,
                >(o),
                ValueView::String(s) => match rfc3339_primitive_of(s) {
                    Some(dt) => r == Ok::<Option<PrimitiveDateTime>, ValueError>(Some(dt)),
                    None => r == Err::<Option<PrimitiveDateTime>, ValueError>(
                        ValueError::ParseFailed,
                    ),
                },
                _ => r == Err::<Option<PrimitiveDateTime>, ValueError>(
                    ValueError::UnexpectedVariant { found: view_kind(self@) },
                ),
            },
    {
        match self {
            Value::PrimitiveDateTime(dt) => Ok(Some(dt)),
            Value::OptionalPrimitiveDateTime(o) => Ok(o),
            Value::String(s) => match parse_primitive_rfc3339(s.as_str()) {
                Some(dt) => Ok(Some(dt)),
                None => Err(ValueError::ParseFailed),
            },
            other => Err(ValueError::UnexpectedVariant { found: other.kind() }),
        }
    }

    /// Narrows to an optional offset date-time; a `String` value is
    /// parsed as RFC 3339, and a failed parse is an error.
    pub fn take_optional_offset_date_time(self) -> (r: Result<Option<OffsetDateTime>, ValueError>)
        ensures
            match self@ {
                ValueView::OffsetDateTime(dt) => r == Ok::<Option<OffsetDateTime>, ValueError>(
                    Some(dt),
                ),
                ValueView::OptionalOffsetDateTime(o) => r == Ok::<
                    Option<OffsetDateTime>,
                    ValueError,
                >(o),
                ValueView::String(s) => match rfc3339_offset_of(s) {
                    Some(dt) => r == Ok::<Option<OffsetDateTime>, ValueError>(Some(dt)),
                    None => r == Err::<Option<OffsetDateTime>, ValueError>(ValueError::ParseFailed),
                },
                _ => r == Err::<Option<OffsetDateTime>, ValueError>(
                    ValueError::UnexpectedVariant { found: view_kind(self@) },
                ),
            },
    {
        match self {
            Value::OffsetDateTime(dt) => Ok(Some(dt)),
            Value::OptionalOffsetDateTime(o) => Ok(o),
            Value::String(s) => match parse_offset_rfc3339(s.as_str()) {
                Some(dt) => Ok(Some(dt)),
                None => Err(ValueError::ParseFailed),
            },
            other => Err(ValueError::UnexpectedVariant { found: other.kind() }),
        }
    }

    /// Narrows to the option of a `Select` value.
    pub fn take_select(self) -> (r: Result<Selectable, ValueError>)
        ensures
            match self@ {
                ValueView::Select(s) => r matches Ok(x) && x@ == s,
                _ => r == Err::<Selectable, ValueError>(
                    ValueError::UnexpectedVariant { found: view_kind(self@) },
                ),
            },
    {
        match self {
            Value::Select(s) => Ok(s),
            other => Err(ValueError::UnexpectedVariant { found: other.kind() }),
        }
    }

    /// Narrows to the option of a `Select` value whose concrete type
    /// tag is `type_tag`; a differently-tagged option is a typed
    /// downcast failure.
    pub fn take_select_downcast_to(self, type_tag: u64) -> (r: Result<Selectable, ValueError>)
        ensures
            match self@ {
                ValueView::Select(s) => if s.type_tag == type_tag {
                    r matches Ok(x) && x@ == s
                } else {
                    r == Err::<Selectable, ValueError>(
                        ValueError::DowncastFailed { expected_tag: type_tag, found_tag: s.type_tag },
                    )
                },
                _ => r == Err::<Selectable, ValueError>(
                    ValueError::UnexpectedVariant { found: view_kind(self@) },
                ),
            },
    {
        match self {
            Value::Select(s) => {
                if s.type_tag == type_tag {
                    Ok(s)
                } else {
                    Err(ValueError::DowncastFailed { expected_tag: type_tag, found_tag: s.type_tag })
                }
            },
            other => Err(ValueError::UnexpectedVariant { found: other.kind() }),
        }
    }

    /// Narrows to the option of an `OptionalSelect` value whose
    /// concrete type tag is `type_tag`, when one is selected.
    pub fn take_optional_select_downcast_to(self, type_tag: u64) -> (r: Result<
        Option<Selectable>,
        ValueError,
    >)
        ensures
            match self@ {
                ValueView::OptionalSelect(o) => match o {
                    Some(s) => if s.type_tag == type_tag {
                        r matches Ok(x) && x matches Some(y) && y@ == s
                    } else {
                        r == Err::<Option<Selectable>, ValueError>(
                            ValueError::DowncastFailed {
                                expected_tag: type_tag,
                                found_tag: s.type_tag,
                            },
                        )
                    },
                    None => r matches Ok(x) && x is None,
                },
                _ => r == Err::<Option<Selectable>, ValueError>(
                    ValueError::UnexpectedVariant { found: view_kind(self@) },
                ),
            },
    {
        match self {
            Value::OptionalSelect(o) => match o {
                Some(s) => {
                    if s.type_tag == type_tag {
                        Ok(Some(s))
                    } else {
                        Err(
                            ValueError::DowncastFailed {
                                expected_tag: type_tag,
                                found_tag: s.type_tag,
                            },
                        )
                    }
                },
                None => Ok(None),
            },
            other => Err(ValueError::UnexpectedVariant { found: other.kind() }),
        }
    }

    /// Narrows to the options of a `Multiselect` value.
    pub fn take_multiselect(self) -> (r: Result<Vec<Selectable>, ValueError>)
        ensures
            match self@ {
                ValueView::Multiselect(s) => r matches Ok(x) && selectable_views(x@) == s,
                _ => r == Err::<Vec<Selectable>, ValueError>(
                    ValueError::UnexpectedVariant { found: view_kind(self@) },
                ),
            },
    {
        match self {
            Value::Multiselect(s) => Ok(s),
            other => Err(ValueError::UnexpectedVariant { found: other.kind() }),
        }
    }

    /// Narrows to the options of a `Multiselect` value when every
    /// selected option carries the concrete type tag `type_tag`.
    pub fn take_multiselect_downcast_to(self, type_tag: u64) -> (r: Result<
        Vec<Selectable>,
        ValueError,
    >)
        ensures
            match self@ {
                ValueView::Multiselect(s) => if all_tags(s, type_tag) {
                    r matches Ok(x) && selectable_views(x@) == s
                } else {
                    r matches Err(e) && e matches ValueError::DowncastFailed {
                        expected_tag,
                        found_tag,
                    } && expected_tag == type_tag && some_tag(s, found_tag) && found_tag != type_tag
                },
                _ => r == Err::<Vec<Selectable>, ValueError>(
                    ValueError::UnexpectedVariant { found: view_kind(self@) },
                ),
            },
    {
        match self {
            Value::Multiselect(s) => match first_tag_mismatch(&s, type_tag) {
                None => Ok(s),
                Some(found) => Err(
                    ValueError::DowncastFailed { expected_tag: type_tag, found_tag: found },
                ),
            },
            other => Err(ValueError::UnexpectedVariant { found: other.kind() }),
        }
    }

    /// Narrows to the options of an `OptionalMultiselect` value when
    /// every selected option carries the concrete type tag `type_tag`.
    pub fn take_optional_multiselect_downcast_to(self, type_tag: u64) -> (r: Result<
        Option<Vec<Selectable>>,
        ValueError,
    >)
        ensures
            self@ matches ValueView::OptionalMultiselect(Some(s)) ==> ((all_tags(s, type_tag) ==> (
            r matches Ok(x) && x matches Some(y) && selectable_views(y@) == s)) && (!all_tags(
                s,
                type_tag,
            ) ==> (r matches Err(e) && e matches ValueError::DowncastFailed {
                expected_tag,
                found_tag,
            } && expected_tag == type_tag && some_tag(s, found_tag) && found_tag != type_tag))),
            self@ matches ValueView::OptionalMultiselect(o) && o is None ==> (r matches Ok(x)
                && x is None),
            !(self@ is OptionalMultiselect) ==> r == Err::<Option<Vec<Selectable>>, ValueError>(
                ValueError::UnexpectedVariant { found: view_kind(self@) },
            ),
    {
        match self {
            Value::OptionalMultiselect(Some(s)) => match first_tag_mismatch(&s, type_tag) {
                None => Ok(Some(s)),
                Some(found) => Err(
                    ValueError::DowncastFailed { expected_tag: type_tag, found_tag: found },
                ),
            },
            Value::OptionalMultiselect(None) => Ok(None),
            other => Err(ValueError::UnexpectedVariant { found: other.kind() }),
        }
    }

    /// Narrows to the reference of a one-to-one relation: a `U32`
    /// value is some, `OptionalU32` and `OneToOneRelation` are
    /// themselves.
    pub fn take_one_to_one_relation(self) -> (r: Result<Option<u32>, ValueError>)
        ensures
            match self@ {
                ValueView::U32(v) => r == Ok::<Option<u32>, ValueError>(Some(v)),
                ValueView::OptionalU32(o) => r == Ok::<Option<u32>, ValueError>(o),
                ValueView::OneToOneRelation(o) => r == Ok::<Option<u32>, ValueError>(o),
                _ => r == Err::<Option<u32>, ValueError>(
                    ValueError::UnexpectedVariant { found: view_kind(self@) },
                ),
            },
    {
        match self {
            Value::U32(v) => Ok(Some(v)),
            Value::OptionalU32(o) => Ok(o),
            Value::OneToOneRelation(o) => Ok(o),
            other => Err(ValueError::UnexpectedVariant { found: other.kind() }),
        }
    }

    /// A copy observing equal.
    pub fn duplicate(&self) -> (r: Value)
        ensures
            r@ == self@,
    {
        match self {
            Value::String(s) => Value::String(s.clone()),
            Value::Text(s) => Value::Text(s.clone()),
            Value::Json(j) => Value::Json(j.duplicate()),
            Value::OptionalJson(o) => Value::OptionalJson(
                match o {
                    Some(j) => Some(j.duplicate()),
                    None => None,
                },
            ),
            Value::UuidV4(b) => Value::UuidV4(*b),
            Value::UuidV7(b) => Value::UuidV7(*b),
            Value::U32(v) => Value::U32(*v),
            Value::OptionalU32(o) => Value::OptionalU32(*o),
            Value::I32(v) => Value::I32(*v),
            Value::I64(v) => Value::I64(*v),
            Value::OptionalI32(o) => Value::OptionalI32(*o),
            Value::OptionalI64(o) => Value::OptionalI64(*o),
            Value::F32(f) => Value::F32(f.duplicate()),
            Value::Bool(b) => Value::Bool(*b),
            Value::ValidationStatus(b) => Value::ValidationStatus(*b),
            Value::PrimitiveDateTime(dt) => Value::PrimitiveDateTime(*dt),
            Value::OffsetDateTime(dt) => Value::OffsetDateTime(*dt),
            Value::OptionalPrimitiveDateTime(o) => Value::OptionalPrimitiveDateTime(*o),
            Value::OptionalOffsetDateTime(o) => Value::OptionalOffsetDateTime(*o),
            Value::OneToOneRelation(o) => Value::OneToOneRelation(*o),
            Value::NestedTable(fields) => Value::NestedTable(duplicate_id_fields(fields)),
            Value::Custom(_) => Value::Custom(()),
            Value::Select(s) => Value::Select(s.duplicate()),
            Value::Multiselect(s) => Value::Multiselect(duplicate_selectables(s)),
            Value::OptionalSelect(o) => Value::OptionalSelect(
                match o {
                    Some(s) => Some(s.duplicate()),
                    None => None,
                },
            ),
            Value::OptionalMultiselect(o) => Value::OptionalMultiselect(
                match o {
                    Some(s) => Some(duplicate_selectables(s)),
                    None => None,
                },
            ),
        }
    }

    /// Renders the value as `value_display` says.
    pub fn to_display_string(&self) -> (r: String)
        requires
            display_wf(self@),
        ensures
            r@ == value_display(self@),
    {
        match self {
            Value::String(s) => s.clone(),
            Value::Text(s) => s.clone(),
            Value::Json(j) => {
                let r = String::from_str(j.get_string_representation());
                r
            },
            Value::OptionalJson(o) => match o {
                Some(j) => String::from_str(j.get_string_representation()),
                None => String::from_str("-"),
            },
            Value::UuidV4(b) => uuid_to_string(*b),
            Value::UuidV7(b) => uuid_to_string(*b),
            Value::U32(n) => u64_to_dec_string(*n as u64),
            Value::OptionalU32(o) => match o {
                Some(n) => u64_to_dec_string(*n as u64),
                None => String::from_str("-"),
            },
            Value::I32(n) => i64_to_dec_string(*n as i64),
            Value::I64(n) => i64_to_dec_string(*n),
            Value::OptionalI32(o) => match o {
                Some(n) => i64_to_dec_string(*n as i64),
                None => String::from_str("-"),
            },
            Value::OptionalI64(o) => match o {
                Some(n) => i64_to_dec_string(*n),
                None => String::from_str("-"),
            },
            Value::F32(f) => f.repr.clone(),
            Value::Bool(b) => {
                if *b {
                    String::from_str("true")
                } else {
                    String::from_str("false")
                }
            },
            Value::ValidationStatus(b) => {
                if *b {
                    String::from_str("true")
                } else {
                    String::from_str("false")
                }
            },
            Value::PrimitiveDateTime(dt) => format_primitive_date_time(dt),
            Value::OffsetDateTime(dt) => format_offset_date_time(dt),
            Value::OptionalPrimitiveDateTime(o) => match o {
                Some(dt) => format_primitive_date_time(dt),
                None => String::new(),
            },
            Value::OptionalOffsetDateTime(o) => match o {
                Some(dt) => format_offset_date_time(dt),
                None => String::new(),
            },
            Value::OneToOneRelation(o) => match o {
                Some(n) => u64_to_dec_string(*n as u64),
                None => String::new(),
            },
            Value::NestedTable(fields) => display_id_fields(fields),
            Value::Custom(_) => String::from_str("Custom"),
            Value::Select(s) => s.display_string(),
            Value::Multiselect(options) => display_selectables(options),
            Value::OptionalSelect(o) => match o {
                Some(s) => s.display_string(),
                None => String::from_str("NONE"),
            },
            Value::OptionalMultiselect(o) => match o {
                Some(options) => display_selectables(options),
                None => String::from_str("NONE"),
            },
        }
    }
}


/// The rendering of one nested-table field: the quoted field name, a
/// separator, and the field's identifier value.
pub open spec fn id_field_display(f: IdFieldView) -> Seq<char> {
    seq!['\''] + f.name + "': "@ + id_value_display(f.value)
}

/// The rendering of a nested table: its fields' renderings in order.
pub open spec fn nested_table_display(s: Seq<IdFieldView>) -> Seq<char>
    decreases s.len(),
{
    if s.len() == 0 {
        Seq::<char>::empty()
    } else {
        nested_table_display(s.drop_last()) + id_field_display(s.last())
    }
}

/// The rendering of a multiselect: its options' renderings in order.
pub open spec fn multiselect_display(s: Seq<SelectableView>) -> Seq<char>
    decreases s.len(),
{
    if s.len() == 0 {
        Seq::<char>::empty()
    } else {
        multiselect_display(s.drop_last()) + s.last().display
    }
}

/// Whether a value can be rendered: offset timestamps, also inside a
/// nested table, must have components in range.
pub open spec fn display_wf(v: ValueView) -> bool {
    match v {
        ValueView::OffsetDateTime(dt) => dt.wf(),
        ValueView::OptionalOffsetDateTime(o) => match o {
            Some(dt) => dt.wf(),
            None => true,
        },
        ValueView::NestedTable(s) => forall|i: int|
            0 <= i < s.len() ==> id_value_display_wf((#[trigger] s[i]).value),
        _ => true,
    }
}

/// The rendering of a value: text as itself, a JSON value as its
/// serialized form, numbers in decimal, identifiers in hyphenated
/// hexadecimal, timestamps in the RFC 3339 style, a carried float as
/// the text it arrived with, and selects as their options' renderings.
/// An absent optional number or JSON value renders as a dash, an
/// absent optional timestamp or relation as nothing, and an absent
/// optional select as `NONE`.
pub open spec fn value_display(v: ValueView) -> Seq<char> {
    match v {
        ValueView::String(s) => s,
        ValueView::Text(s) => s,
        ValueView::Json(s) => s,
        ValueView::OptionalJson(o) => match o {
            Some(s) => s,
            None => "-"@,
        },
        ValueView::UuidV4(b) => uuid_seq(b),
        ValueView::UuidV7(b) => uuid_seq(b),
        ValueView::U32(n) => dec_seq(n as nat),
        ValueView::OptionalU32(o) => match o {
            Some(n) => dec_seq(n as nat),
            None => "-"@,
        },
        ValueView::I32(n) => signed_dec_seq(n as int),
        ValueView::I64(n) => signed_dec_seq(n as int),
        ValueView::OptionalI32(o) => match o {
            Some(n) => signed_dec_seq(n as int),
            None => "-"@,
        },
        ValueView::OptionalI64(o) => match o {
            Some(n) => signed_dec_seq(n as int),
            None => "-"@,
        },
        ValueView::F32(f) => f.repr,
        ValueView::Bool(b) => if b {
            "true"@
        } else {
            "false"@
        },
        ValueView::ValidationStatus(b) => if b {
            "true"@
        } else {
            "false"@
        },
        ValueView::PrimitiveDateTime(dt) => primitive_date_time_seq(dt),
        ValueView::OffsetDateTime(dt) => offset_date_time_seq(dt),
        ValueView::OptionalPrimitiveDateTime(o) => match o {
            Some(dt) => primitive_date_time_seq(dt),
            None => Seq::<char>::empty(),
        },
        ValueView::OptionalOffsetDateTime(o) => match o {
            Some(dt) => offset_date_time_seq(dt),
            None => Seq::<char>::empty(),
        },
        ValueView::OneToOneRelation(o) => match o {
            Some(n) => dec_seq(n as nat),
            None => Seq::<char>::empty(),
        },
        ValueView::NestedTable(s) => nested_table_display(s),
        ValueView::Custom => "Custom"@,
        ValueView::Select(s) => s.display,
        ValueView::Multiselect(s) => multiselect_display(s),
        ValueView::OptionalSelect(o) => match o {
            Some(s) => s.display,
            None => "NONE"@,
        },
        ValueView::OptionalMultiselect(o) => match o {
            Some(s) => multiselect_display(s),
            None => "NONE"@,
        },
    }
}

/// Renders a nested table as `nested_table_display` says.
fn display_id_fields(fields: &Vec<IdField>) -> (r: String)
    requires
        forall|i: int|
            0 <= i < id_field_views(fields@).len() ==> id_value_display_wf(
                (#[trigger] id_field_views(fields@)[i]).value,
            ),
    ensures
        r@ == nested_table_display(id_field_views(fields@)),
{
    let mut s = String::new();
    let mut i: usize = 0;
    while i < fields.len()
        invariant
            i <= fields@.len(),
            forall|k: int|
                0 <= k < id_field_views(fields@).len() ==> id_value_display_wf(
                    (#[trigger] id_field_views(fields@)[k]).value,
                ),
            s@ == nested_table_display(id_field_views(fields@).take(i as int)),
        decreases fields@.len() - i,
    {
        proof {
            assert(id_field_views(fields@)[i as int] == fields@[i as int]@);
        }
        s.append("'");
        s.append(fields[i].name.as_str());
        s.append("': ");
        s.append(fields[i].value.to_display_string().as_str());
        proof {
            reveal_strlit("'");
            let views = id_field_views(fields@);
            assert(views.take(i + 1).drop_last() =~= views.take(i as int));
            assert(views.take(i + 1).last() == views[i as int]);
            assert(s@ =~= nested_table_display(views.take(i + 1)));
        }
        i = i + 1;
    }
    proof {
        assert(id_field_views(fields@).take(fields@.len() as int) =~= id_field_views(fields@));
    }
    s
}

/// Renders a multiselect as `multiselect_display` says.
fn display_selectables(options: &Vec<Selectable>) -> (r: String)
    ensures
        r@ == multiselect_display(selectable_views(options@)),
{
    let mut s = String::new();
    let mut i: usize = 0;
    while i < options.len()
        invariant
            i <= options@.len(),
            s@ == multiselect_display(selectable_views(options@).take(i as int)),
        decreases options@.len() - i,
    {
        proof {
            assert(selectable_views(options@)[i as int] == options@[i as int]@);
        }
        s.append(options[i].display.as_str());
        proof {
            let views = selectable_views(options@);
            assert(views.take(i + 1).drop_last() =~= views.take(i as int));
            assert(views.take(i + 1).last() == views[i as int]);
            assert(s@ =~= multiselect_display(views.take(i + 1)));
        }
        i = i + 1;
    }
    proof {
        assert(selectable_views(options@).take(options@.len() as int) =~= selectable_views(
            options@,
        ));
    }
    s
}

} // verus!
