//! The JSON value wrapper.
//!
//! A `JsonValue` owns a parsed `JsonDocument` together with its
//! serialized string form. The parsed document is opaque to
//! verification; the string form is the wrapper's observable state,
//! and every constructor and mutator recomputes it from the document
//! it stores, so the two can never drift apart.

use serde_json::Value as JsonDocument;
use vstd::prelude::*;

verus! {

#[verifier::external_type_specification]
#[verifier::external_body]
pub struct ExSerdeJsonValue(JsonDocument);

/// The serialized form of a JSON document: what `serde_json::to_string`
/// yields for it. The output is a function of the document alone (its
/// maps iterate in their stored order).
pub uninterp spec fn json_string_of(value: JsonDocument) -> Seq<char>;

/// Relies on `serde_json::to_string`: serializing a self-describing
/// `JsonDocument` cannot fail (its maps are keyed by strings),
/// and the output depends on the value alone.
#[verifier::external_body]
fn json_value_to_string(value: &JsonDocument) -> (r: String)
    ensures
        r@ == json_string_of(*value),
{
    serde_json::to_string(value).unwrap_or_default()
}

/// Relies on `JsonDocument`'s `Clone` implementation.
#[verifier::external_body]
fn clone_json_value(value: &JsonDocument) -> (r: JsonDocument) {
    value.clone()
}

/// A parsed JSON document with its cached serialized form.
#[derive(Debug)]
pub struct JsonValue {
    value: JsonDocument,
    string_representation: String,
}

impl View for JsonValue {
    type V = Seq<char>;

    /// A `JsonValue` is observed through its serialized form.
    closed spec fn view(&self) -> Seq<char> {
        self.string_representation@
    }
}

impl JsonValue {
    /// Wraps `value`, computing its serialized form: the wrapper's
    /// observable state is exactly the serialization of `value`.
    pub fn new(value: JsonDocument) -> (r: JsonValue)
        ensures
            r@ == json_string_of(value),
    {
        let string_representation = json_value_to_string(&value);
        JsonValue { value, string_representation }
    }

    /// Replaces the document and recomputes the serialized form, so
    /// the cached string is never stale.
    pub fn set_value(&mut self, value: JsonDocument)
        ensures
            final(self)@ == json_string_of(value),
    {
        let string_representation = json_value_to_string(&value);
        self.value = value;
        self.string_representation = string_representation;
    }

    /// The parsed document.
    pub fn get_value(&self) -> &JsonDocument {
        &self.value
    }

    /// The serialized form.
    pub fn get_string_representation(&self) -> (r: &str)
        ensures
            r@ == self@,
    {
        self.string_representation.as_str()
    }

    /// Equality of the observable state: the serialized forms match.
    pub fn json_eq(&self, other: &JsonValue) -> (r: bool)
        ensures
            r == (self@ == other@),
    {
        self.string_representation == other.string_representation
    }

    /// Gives up the wrapper for the parsed document alone.
    pub fn into_inner_value(self) -> JsonDocument {
        self.value
    }

    /// Gives up the wrapper for the serialized form alone.
    pub fn into_string_representation(self) -> (r: String)
        ensures
            r@ == self@,
    {
        self.string_representation
    }

    /// A copy observing equal: the document is cloned, the cached
    /// string is carried over unchanged.
    pub fn duplicate(&self) -> (r: JsonValue)
        ensures
            r@ == self@,
    {
        JsonValue {
            value: clone_json_value(&self.value),
            string_representation: self.string_representation.clone(),
        }
    }
}

} // verus!
