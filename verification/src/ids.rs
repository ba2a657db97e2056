//! Identifier values.
//!
//! An entity's identifier is a set of named fields, each holding one
//! of a closed set of plain identifier value kinds. This is the
//! serializable shape that crosses process restarts and names rows in
//! backend conditions.

use crate::datetime::{format_offset_date_time, format_primitive_date_time};
use crate::datetime::{offset_date_time_seq, primitive_date_time_seq};
use crate::datetime::{OffsetDateTime, PrimitiveDateTime};
use crate::text::{signed_dec_seq, dec_seq, uuid_seq};
use crate::text::{i64_to_dec_string, u64_to_dec_string, uuid_to_string};
use vstd::prelude::*;
use vstd::string::StringExecFns;

verus! {

/// One identifier field value.
#[derive(Debug)]
pub enum IdValue {
    String(String),
    UuidV4(u128),
    UuidV7(u128),
    I32(i32),
    I64(i64),
    U32(u32),
    Bool(bool),
    PrimitiveDateTime(PrimitiveDateTime),
    OffsetDateTime(OffsetDateTime),
}

/// The observable state of an identifier field value.
pub enum IdValueView {
    String(Seq<char>),
    UuidV4(u128),
    UuidV7(u128),
    I32(i32),
    I64(i64),
    U32(u32),
    Bool(bool),
    PrimitiveDateTime(PrimitiveDateTime),
    OffsetDateTime(OffsetDateTime),
}

impl View for IdValue {
    type V = IdValueView;

    open spec fn view(&self) -> IdValueView {
        match self {
            IdValue::String(s) => IdValueView::String(s@),
            IdValue::UuidV4(b) => IdValueView::UuidV4(*b),
            IdValue::UuidV7(b) => IdValueView::UuidV7(*b),
            IdValue::I32(v) => IdValueView::I32(*v),
            IdValue::I64(v) => IdValueView::I64(*v),
            IdValue::U32(v) => IdValueView::U32(*v),
            IdValue::Bool(v) => IdValueView::Bool(*v),
            IdValue::PrimitiveDateTime(v) => IdValueView::PrimitiveDateTime(*v),
            IdValue::OffsetDateTime(v) => IdValueView::OffsetDateTime(*v),
        }
    }
}

/// The rendering of an identifier value: text as itself, identifiers
/// in hyphenated hexadecimal, numbers in decimal, `true`/`false` for
/// booleans, timestamps in the RFC 3339 style.
pub open spec fn id_value_display(v: IdValueView) -> Seq<char> {
    match v {
        IdValueView::String(s) => s,
        IdValueView::UuidV4(b) => uuid_seq(b),
        IdValueView::UuidV7(b) => uuid_seq(b),
        IdValueView::I32(n) => signed_dec_seq(n as int),
        IdValueView::I64(n) => signed_dec_seq(n as int),
        IdValueView::U32(n) => dec_seq(n as nat),
        IdValueView::Bool(b) => if b {
            "true"@
        } else {
            "false"@
        },
        IdValueView::PrimitiveDateTime(dt) => primitive_date_time_seq(dt),
        IdValueView::OffsetDateTime(dt) => offset_date_time_seq(dt),
    }
}

/// Whether an identifier value can be rendered: an offset timestamp
/// must have components in range.
pub open spec fn id_value_display_wf(v: IdValueView) -> bool {
    match v {
        IdValueView::OffsetDateTime(dt) => dt.wf(),
        _ => true,
    }
}

impl IdValue {
    /// Structural equality.
    pub fn id_value_eq(&self, other: &IdValue) -> (r: bool)
        ensures
            r == (self@ == other@),
    {
        match (self, other) {
            (IdValue::String(a), IdValue::String(b)) => *a == *b,
            (IdValue::UuidV4(a), IdValue::UuidV4(b)) => *a == *b,
            (IdValue::UuidV7(a), IdValue::UuidV7(b)) => *a == *b,
            (IdValue::I32(a), IdValue::I32(b)) => *a == *b,
            (IdValue::I64(a), IdValue::I64(b)) => *a == *b,
            (IdValue::U32(a), IdValue::U32(b)) => *a == *b,
            (IdValue::Bool(a), IdValue::Bool(b)) => *a == *b,
            (IdValue::PrimitiveDateTime(a), IdValue::PrimitiveDateTime(b)) => *a == *b,
            (IdValue::OffsetDateTime(a), IdValue::OffsetDateTime(b)) => *a == *b,
            _ => false,
        }
    }

    /// A copy observing equal.
    pub fn duplicate(&self) -> (r: IdValue)
        ensures
            r@ == self@,
    {
        match self {
            IdValue::String(s) => IdValue::String(s.clone()),
            IdValue::UuidV4(b) => IdValue::UuidV4(*b),
            IdValue::UuidV7(b) => IdValue::UuidV7(*b),
            IdValue::I32(v) => IdValue::I32(*v),
            IdValue::I64(v) => IdValue::I64(*v),
            IdValue::U32(v) => IdValue::U32(*v),
            IdValue::Bool(v) => IdValue::Bool(*v),
            IdValue::PrimitiveDateTime(v) => IdValue::PrimitiveDateTime(*v),
            IdValue::OffsetDateTime(v) => IdValue::OffsetDateTime(*v),
        }
    }

    /// Renders the value as `id_value_display` says.
    pub fn to_display_string(&self) -> (r: String)
        requires
            id_value_display_wf(self@),
        ensures
            r@ == id_value_display(self@),
    {
        match self {
            IdValue::String(s) => s.clone(),
            IdValue::UuidV4(b) => uuid_to_string(*b),
            IdValue::UuidV7(b) => uuid_to_string(*b),
            IdValue::I32(n) => i64_to_dec_string(*n as i64),
            IdValue::I64(n) => i64_to_dec_string(*n),
            IdValue::U32(n) => u64_to_dec_string(*n as u64),
            IdValue::Bool(b) => {
                if *b {
                    String::from_str("true")
                } else {
                    String::from_str("false")
                }
            },
            IdValue::PrimitiveDateTime(dt) => format_primitive_date_time(dt),
            IdValue::OffsetDateTime(dt) => format_offset_date_time(dt),
        }
    }
}

/// The observable state of a named identifier field.
pub struct IdFieldView {
    pub name: Seq<char>,
    pub value: IdValueView,
}

/// A named identifier field.
#[derive(Debug)]
pub struct IdField {
    pub name: String,
    pub value: IdValue,
}

impl View for IdField {
    type V = IdFieldView;

    open spec fn view(&self) -> IdFieldView {
        IdFieldView { name: self.name@, value: self.value@ }
    }
}

impl IdField {
    /// Structural equality.
    pub fn id_field_eq(&self, other: &IdField) -> (r: bool)
        ensures
            r == (self@ == other@),
    {
        self.name == other.name && self.value.id_value_eq(&other.value)
    }

    /// A copy observing equal.
    pub fn duplicate(&self) -> (r: IdField)
        ensures
            r@ == self@,
    {
        IdField { name: self.name.clone(), value: self.value.duplicate() }
    }
}

/// The views of a sequence of identifier fields.
pub open spec fn id_field_views(s: Seq<IdField>) -> Seq<IdFieldView> {
    s.map_values(|f: IdField| f@)
}

/// Structural equality of two identifier field sequences.
pub fn id_fields_eq(a: &Vec<IdField>, b: &Vec<IdField>) -> (r: bool)
    ensures
        r == (id_field_views(a@) == id_field_views(b@)),
{
    if a.len() != b.len() {
        proof {
            assert(id_field_views(a@).len() != id_field_views(b@).len());
        }
        return false;
    }
    let mut i: usize = 0;
    while i < a.len()
        invariant
            i <= a@.len(),
            a@.len() == b@.len(),
            forall|j: int| 0 <= j < i ==> a@[j]@ == b@[j]@,
        decreases a@.len() - i,
    {
        if !a[i].id_field_eq(&b[i]) {
            proof {
                assert(id_field_views(a@)[i as int] == a@[i as int]@);
                assert(id_field_views(b@)[i as int] == b@[i as int]@);
            }
            return false;
        }
        i = i + 1;
    }
    proof {
        assert forall|j: int| 0 <= j < id_field_views(a@).len() implies id_field_views(a@)[j]
            == id_field_views(b@)[j] by {
            assert(a@[j]@ == b@[j]@);
        }
        assert(id_field_views(a@) =~= id_field_views(b@));
    }
    true
}

/// A copy of an identifier field sequence, observing equal.
pub fn duplicate_id_fields(a: &Vec<IdField>) -> (r: Vec<IdField>)
    ensures
        id_field_views(r@) == id_field_views(a@),
{
    let mut fields: Vec<IdField> = Vec::new();
    let mut i: usize = 0;
    while i < a.len()
        invariant
            i <= a@.len(),
            fields@.len() == i,
            forall|j: int| 0 <= j < i ==> (#[trigger] fields@[j])@ == a@[j]@,
        decreases a@.len() - i,
    {
        fields.push(a[i].duplicate());
        i = i + 1;
    }
    proof {
        assert forall|j: int| 0 <= j < id_field_views(fields@).len() implies id_field_views(
            fields@,
        )[j] == id_field_views(a@)[j] by {
            assert(fields@[j]@ == a@[j]@);
        }
        assert(id_field_views(fields@) =~= id_field_views(a@));
    }
    fields
}

/// A complete serializable identifier: its fields in order.
#[derive(Debug)]
pub struct SerializableId {
    pub fields: Vec<IdField>,
}

impl View for SerializableId {
    type V = Seq<IdFieldView>;

    open spec fn view(&self) -> Seq<IdFieldView> {
        id_field_views(self.fields@)
    }
}

impl SerializableId {
    /// Structural equality.
    pub fn id_eq(&self, other: &SerializableId) -> (r: bool)
        ensures
            r == (self@ == other@),
    {
        id_fields_eq(&self.fields, &other.fields)
    }

    /// A copy observing equal.
    pub fn duplicate(&self) -> (r: SerializableId)
        ensures
            r@ == self@,
    {
        SerializableId { fields: duplicate_id_fields(&self.fields) }
    }
}

} // verus!
