//! Backend conditions and request shapes.
//!
//! A read or update request names the rows it works on with a
//! condition: a conjunction or disjunction of clauses comparing a
//! column against a plain value. The runtime builds by-identifier
//! conditions from the route-level numeric id; converting a `Value`
//! into a condition-clause value is the boundary into request
//! construction and fails loudly for kinds without a mapping.

use crate::value::{view_kind, F32Repr, Value, ValueError, ValueView};
use vstd::prelude::*;

verus! {

/// A plain value a condition clause compares against.
#[derive(Debug)]
pub enum ConditionClauseValue {
    String(String),
    Json(String),
    UuidV4(u128),
    UuidV7(u128),
    U32(u32),
    I32(i32),
    I64(i64),
    F32(F32Repr),
    Bool(bool),
}

/// How a clause compares its column against its value.
#[derive(Clone, Copy, PartialEq, Eq, Structural, Debug)]
pub enum Operator {
    Equal,
    NotEqual,
    Less,
    LessOrEqual,
    Greater,
    GreaterOrEqual,
}

/// One comparison of a column against a value.
#[derive(Debug)]
pub struct ConditionClause {
    pub column_name: String,
    pub operator: Operator,
    pub value: ConditionClauseValue,
}

/// One element of a condition.
#[derive(Debug)]
pub enum ConditionElement {
    Clause(ConditionClause),
}

/// A condition over rows: all elements must hold, or any may.
#[derive(Debug)]
pub enum Condition {
    All(Vec<ConditionElement>),
    Any(Vec<ConditionElement>),
}

/// Whether `c` selects exactly the rows whose `column` equals the
/// unsigned number `id`.
pub open spec fn is_by_id_condition(c: Condition, column: Seq<char>, id: u32) -> bool {
    &&& c matches Condition::All(elements)
    &&& c matches Condition::All(elements) ==> {
        &&& elements@.len() == 1
        &&& elements@[0] matches ConditionElement::Clause(clause)
        &&& elements@[0] matches ConditionElement::Clause(clause) ==> {
            &&& clause.column_name@ == column
            &&& clause.operator == Operator::Equal
            &&& clause.value matches ConditionClauseValue::U32(v) && v == id
        }
    }
}

/// Builds the condition selecting the row whose `column_name` equals `id`.
pub fn by_id_condition(column_name: String, id: u32) -> (c: Condition)
    ensures
        is_by_id_condition(c, column_name@, id),
{
    let clause = ConditionClause {
        column_name,
        operator: Operator::Equal,
        value: ConditionClauseValue::U32(id),
    };
    let mut elements: Vec<ConditionElement> = Vec::new();
    elements.push(ConditionElement::Clause(clause));
    Condition::All(elements)
}

/// One ordering entry of a read request.
#[derive(Debug)]
pub struct OrderByEntry {
    pub name: String,
    pub order: Order,
}

/// A sort direction.
#[derive(Clone, Copy, PartialEq, Eq, Structural, Debug)]
pub enum Order {
    Asc,
    Desc,
}

/// A request for one row.
#[derive(Debug)]
pub struct ReadOne {
    pub skip: Option<u64>,
    pub order_by: Option<Vec<OrderByEntry>>,
    pub condition: Option<Condition>,
}

/// Whether `r` requests exactly the row whose `column` equals `id`,
/// with no skipping and no ordering.
pub open spec fn is_read_one_by_id(r: ReadOne, column: Seq<char>, id: u32) -> bool {
    &&& r.skip is None
    &&& r.order_by is None
    &&& r.condition matches Some(c) && is_by_id_condition(c, column, id)
}

/// Builds the request for the row whose `column_name` equals `id`.
pub fn read_one_by_id(column_name: String, id: u32) -> (r: ReadOne)
    ensures
        is_read_one_by_id(r, column_name@, id),
{
    ReadOne { skip: None, order_by: None, condition: Some(by_id_condition(column_name, id)) }
}

/// An update of one entity, targeted by a condition.
#[derive(Debug)]
pub struct UpdateOne<T> {
    pub entity: T,
    pub condition: Option<Condition>,
}

impl Value {
    /// Converts a value into the shape a condition clause compares
    /// against. Text maps to text, a JSON value to its serialized
    /// form, and identifiers, numbers, the carried float and booleans
    /// map to themselves; every other kind has no mapping and fails
    /// loudly with the offending variant.
    pub fn into_condition_clause_value(self) -> (r: Result<ConditionClauseValue, ValueError>)
        ensures
            match self@ {
                ValueView::String(s) => r matches Ok(c) && c matches ConditionClauseValue::String(t)
                    && t@ == s,
                ValueView::Text(s) => r matches Ok(c) && c matches ConditionClauseValue::String(t)
                    && t@ == s,
                ValueView::Json(s) => r matches Ok(c) && c matches ConditionClauseValue::Json(t)
                    && t@ == s,
                ValueView::UuidV4(b) => r matches Ok(c) && c == ConditionClauseValue::UuidV4(b),
                ValueView::UuidV7(b) => r matches Ok(c) && c == ConditionClauseValue::UuidV7(b),
                ValueView::U32(v) => r matches Ok(c) && c == ConditionClauseValue::U32(v),
                ValueView::I32(v) => r matches Ok(c) && c == ConditionClauseValue::I32(v),
                ValueView::I64(v) => r matches Ok(c) && c == ConditionClauseValue::I64(v),
                ValueView::F32(f) => r matches Ok(c) && c matches ConditionClauseValue::F32(g)
                    && g@ == f,
                ValueView::Bool(v) => r matches Ok(c) && c == ConditionClauseValue::Bool(v),
                _ => r == Err::<ConditionClauseValue, ValueError>(
                    ValueError::UnexpectedVariant { found: view_kind(self@) },
                ),
            },
    {
        match self {
            Value::String(s) => Ok(ConditionClauseValue::String(s)),
            Value::Text(s) => Ok(ConditionClauseValue::String(s)),
            Value::Json(j) => Ok(ConditionClauseValue::Json(j.into_string_representation())),
            Value::UuidV4(b) => Ok(ConditionClauseValue::UuidV4(b)),
            Value::UuidV7(b) => Ok(ConditionClauseValue::UuidV7(b)),
            Value::U32(v) => Ok(ConditionClauseValue::U32(v)),
            Value::I32(v) => Ok(ConditionClauseValue::I32(v)),
            Value::I64(v) => Ok(ConditionClauseValue::I64(v)),
            Value::F32(f) => Ok(ConditionClauseValue::F32(f)),
            Value::Bool(v) => Ok(ConditionClauseValue::Bool(v)),
            other => Err(ValueError::UnexpectedVariant { found: other.kind() }),
        }
    }
}

} // verus!
