//! Entity-model contracts.
//!
//! A concrete entity type takes part in the generic runtime by
//! supplying capabilities: stable-named field accessors that read and
//! write its fields through `Value`, an identifier, a resource name,
//! and structural equality for dirty tracking. The traits here state
//! those capabilities with their contracts; `record` provides the
//! dynamic-record implementation the tests run against.

use crate::ids::{IdFieldView, SerializableId};
use crate::value::{Value, ValueError, ValueView};
use vstd::prelude::*;

verus! {

/// A transport-level failure, carrying its description.
#[derive(Debug)]
pub struct RequestError {
    pub message: String,
}

impl View for RequestError {
    type V = Seq<char>;

    open spec fn view(&self) -> Seq<char> {
        self.message@
    }
}

/// Why no entity is available: not loaded yet, a failed request, or a
/// request that succeeded but found nothing.
#[derive(Debug)]
pub enum NoData {
    NotYetLoaded,
    FetchFailed(RequestError),
    FetchReturnedNothing,
    CreateFailed(RequestError),
    CreateReturnedNothing,
    UpdateFailed(RequestError),
    UpdateReturnedNothing,
}

/// The observable state of a `NoData`: failures carry their message.
pub enum NoDataView {
    NotYetLoaded,
    FetchFailed(Seq<char>),
    FetchReturnedNothing,
    CreateFailed(Seq<char>),
    CreateReturnedNothing,
    UpdateFailed(Seq<char>),
    UpdateReturnedNothing,
}

impl View for NoData {
    type V = NoDataView;

    open spec fn view(&self) -> NoDataView {
        match self {
            NoData::NotYetLoaded => NoDataView::NotYetLoaded,
            NoData::FetchFailed(e) => NoDataView::FetchFailed(e@),
            NoData::FetchReturnedNothing => NoDataView::FetchReturnedNothing,
            NoData::CreateFailed(e) => NoDataView::CreateFailed(e@),
            NoData::CreateReturnedNothing => NoDataView::CreateReturnedNothing,
            NoData::UpdateFailed(e) => NoDataView::UpdateFailed(e@),
            NoData::UpdateReturnedNothing => NoDataView::UpdateReturnedNothing,
        }
    }
}

/// A field name that no accessor exists for.
#[derive(Debug)]
pub struct UnknownFieldError {
    pub field_name: String,
}

/// A stable field name.
pub trait CrudFieldNameTrait {
    /// The accessor's field name.
    spec fn spec_name(&self) -> Seq<char>;

    /// Hands out the field name.
    fn get_name(&self) -> (r: String)
        ensures
            r@ == self.spec_name(),
    ;
}

/// Reading and writing one field of an entity through `Value`.
pub trait CrudFieldValueTrait<T: View>: Sized {
    /// Whether this accessor names a field the entity has.
    spec fn declared(&self, entity: T::V) -> bool;

    /// The field's current value.
    spec fn spec_value(&self, entity: T::V) -> ValueView;

    /// Whether `value` may be written into the field: its variant must
    /// be the one the field's declared kind calls for.
    spec fn accepts(&self, entity: T::V, value: ValueView) -> bool;

    /// The entity after the field is replaced by `value`.
    spec fn spec_update(&self, entity: T::V, value: ValueView) -> T::V;

    /// Reads the field. Total for every declared field.
    fn get_value(&self, entity: &T) -> (r: Value)
        requires
            self.declared(entity@),
        ensures
            r@ == self.spec_value(entity@),
    ;

    /// Writes the field. A `Value` variant incompatible with the
    /// field's declared kind is rejected, and a rejected write leaves
    /// the entity untouched: a field write is atomic.
    fn set_value(&self, entity: &mut T, value: Value) -> (r: Result<(), ValueError>)
        ensures
            r is Ok <==> (self.declared(old(entity)@) && self.accepts(old(entity)@, value@)),
            r is Ok ==> final(entity)@ == self.spec_update(old(entity)@, value@),
            r is Err ==> final(entity)@ == old(entity)@,
    ;

    /// An accepted write puts exactly the written value in the field,
    /// keeps the field declared, and writing back the value the field
    /// already has changes nothing.
    proof fn lemma_update_value(&self, entity: T::V, value: ValueView)
        requires
            self.declared(entity),
            self.accepts(entity, value),
        ensures
            self.spec_value(self.spec_update(entity, value)) == value,
            self.declared(self.spec_update(entity, value)),
            value == self.spec_value(entity) ==> self.spec_update(entity, value) == entity,
    ;
}

/// What a data model must offer the generic runtime: field lookup by
/// stable name, structural equality, duplication, and an empty value
/// to start an edit from.
pub trait CrudDataTrait: View + Sized {
    type Field: CrudFieldNameTrait + CrudFieldValueTrait<Self>;

    /// The column the backend matches row identifiers against.
    spec fn spec_id_field_name() -> Seq<char>;

    /// Which names resolve to a field accessor.
    spec fn spec_known_field(name: Seq<char>) -> bool;

    /// Hands out the identifier column name.
    fn get_id_field_name() -> (r: String)
        ensures
            r@ == Self::spec_id_field_name(),
    ;

    /// Resolves a stable name to the field accessor of that name; an
    /// unknown name is a typed error.
    fn get_field(field_name: &str) -> (r: Result<Self::Field, UnknownFieldError>)
        ensures
            r is Ok <==> Self::spec_known_field(field_name@),
            r matches Ok(f) ==> f.spec_name() == field_name@,
    ;

    /// Structural equality, over the observable state.
    fn data_eq(&self, other: &Self) -> (r: bool)
        ensures
            r == (self@ == other@),
    ;

    /// A copy observing equal.
    fn clone_data(&self) -> (r: Self)
        ensures
            r@ == self@,
    ;

    /// The observable state of the model's empty value.
    spec fn spec_default() -> Self::V;

    /// An empty value of the model, for a fresh working copy.
    fn default_data() -> (r: Self)
        ensures
            r@ == Self::spec_default(),
    ;
}

/// Access to an entity's identifier.
pub trait CrudIdTrait {
    /// The identifier's fields.
    spec fn spec_id(&self) -> Seq<IdFieldView>;

    /// Hands out the identifier.
    fn get_id(&self) -> (r: SerializableId)
        ensures
            r@ == self.spec_id(),
    ;
}

/// A resource participating in CRUD flows names itself.
pub trait CrudResourceTrait {
    /// The resource's name.
    spec fn spec_resource_name() -> Seq<char>;

    /// Hands out the resource name.
    fn get_resource_name() -> (r: String)
        ensures
            r@ == Self::spec_resource_name(),
    ;
}

/// The complete contract of a CRUD resource: its create, read and
/// update shapes, and how a read row becomes an editable row.
pub trait CrudMainTrait: CrudResourceTrait {
    type CreateModel: CrudDataTrait;

    type ReadModel: CrudDataTrait + CrudIdTrait;

    type UpdateModel: CrudDataTrait + CrudIdTrait;

    type ActionPayload: CrudActionPayload;

    /// What converting a read row yields.
    spec fn spec_read_into_update(read: Self::ReadModel) -> <Self::UpdateModel as View>::V;

    /// Converts a read row into the editable shape.
    fn read_into_update(read: Self::ReadModel) -> (r: Self::UpdateModel)
        ensures
            r@ == Self::spec_read_into_update(read),
    ;
}

/// Marker for data usable as the payload of a CRUD action.
pub trait CrudActionPayload {

}

/// The payload of an action that carries nothing.
#[derive(Clone, Copy, PartialEq, Eq, Structural, Debug)]
pub struct EmptyActionPayload {

}

impl CrudActionPayload for EmptyActionPayload {

}

/// A model a delete request may carry: the read or the update shape.
#[derive(Debug)]
pub enum DeletableModel<ReadModel: CrudDataTrait + CrudIdTrait, UpdateModel: CrudDataTrait + CrudIdTrait> {
    Read(ReadModel),
    Update(UpdateModel),
}

} // verus!
