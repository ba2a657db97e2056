//! Which part of a CRUD instance is showing.
//!
//! A view is the list, the create form, or a read or edit form opened
//! on a row named by its identifier. The serializable shape carries
//! identifiers as plain fields and is what the persisted store keeps.

use crate::data::CrudIdTrait;
use crate::ids::{IdFieldView, SerializableId};
use vstd::prelude::*;

verus! {

/// A view opened on typed identifiers.
#[derive(Debug)]
pub enum CrudView<ReadId: CrudIdTrait, UpdateId: CrudIdTrait> {
    List,
    Create,
    Read(ReadId),
    Edit(UpdateId),
}

/// The observable state of a serializable view.
pub enum SerializableCrudViewV {
    List,
    Create,
    Read(Seq<IdFieldView>),
    Edit(Seq<IdFieldView>),
}

/// A view with its identifiers in serializable form.
#[derive(Debug)]
pub enum SerializableCrudView {
    List,
    Create,
    Read(SerializableId),
    Edit(SerializableId),
}

impl View for SerializableCrudView {
    type V = SerializableCrudViewV;

    open spec fn view(&self) -> SerializableCrudViewV {
        match self {
            SerializableCrudView::List => SerializableCrudViewV::List,
            SerializableCrudView::Create => SerializableCrudViewV::Create,
            SerializableCrudView::Read(id) => SerializableCrudViewV::Read(id@),
            SerializableCrudView::Edit(id) => SerializableCrudViewV::Edit(id@),
        }
    }
}

impl SerializableCrudView {
    /// Structural equality, over the observable state.
    pub fn view_eq(&self, other: &SerializableCrudView) -> (r: bool)
        ensures
            r == (self@ == other@),
    {
        match (self, other) {
            (SerializableCrudView::List, SerializableCrudView::List) => true,
            (SerializableCrudView::Create, SerializableCrudView::Create) => true,
            (SerializableCrudView::Read(a), SerializableCrudView::Read(b)) => a.id_eq(b),
            (SerializableCrudView::Edit(a), SerializableCrudView::Edit(b)) => a.id_eq(b),
            _ => false,
        }
    }

    /// A copy observing equal.
    pub fn duplicate(&self) -> (r: SerializableCrudView)
        ensures
            r@ == self@,
    {
        match self {
            SerializableCrudView::List => SerializableCrudView::List,
            SerializableCrudView::Create => SerializableCrudView::Create,
            SerializableCrudView::Read(id) => SerializableCrudView::Read(id.duplicate()),
            SerializableCrudView::Edit(id) => SerializableCrudView::Edit(id.duplicate()),
        }
    }
}

/// A view reduced to its shape, without identifiers.
#[derive(Clone, Copy, PartialEq, Eq, Structural, Debug)]
pub enum CrudSimpleView {
    List,
    Create,
    Read,
    Edit,
}

impl<ReadId: CrudIdTrait, UpdateId: CrudIdTrait> CrudView<ReadId, UpdateId> {
    /// Serializes the identifiers, keeping the shape.
    pub fn into_serializable(self) -> (r: SerializableCrudView)
        ensures
            self is List ==> r@ == SerializableCrudViewV::List,
            self is Create ==> r@ == SerializableCrudViewV::Create,
            (self matches CrudView::Read(id) ==> r@ == SerializableCrudViewV::Read(id.spec_id())),
            (self matches CrudView::Edit(id) ==> r@ == SerializableCrudViewV::Edit(id.spec_id())),
    {
        match self {
            CrudView::List => SerializableCrudView::List,
            CrudView::Create => SerializableCrudView::Create,
            CrudView::Read(id) => SerializableCrudView::Read(id.get_id()),
            CrudView::Edit(id) => SerializableCrudView::Edit(id.get_id()),
        }
    }

    /// Drops the identifiers, keeping the shape.
    pub fn into_simple(&self) -> (r: CrudSimpleView)
        ensures
            r == (match self {
                CrudView::List => CrudSimpleView::List,
                CrudView::Create => CrudSimpleView::Create,
                CrudView::Read(_) => CrudSimpleView::Read,
                CrudView::Edit(_) => CrudSimpleView::Edit,
            }),
    {
        match self {
            CrudView::List => CrudSimpleView::List,
            CrudView::Create => CrudSimpleView::Create,
            CrudView::Read(_) => CrudSimpleView::Read,
            CrudView::Edit(_) => CrudSimpleView::Edit,
        }
    }
}

impl<ReadId: CrudIdTrait, UpdateId: CrudIdTrait> Default for CrudView<ReadId, UpdateId> {
    /// A fresh instance starts on the list.
    fn default() -> (r: Self)
        ensures
            r is List,
    {
        CrudView::List
    }
}

} // verus!
