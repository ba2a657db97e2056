//! The edit view's state machine.
//!
//! An edit view loads an entity, tracks whether the working copy has
//! drifted from it, saves it back by its route-level identifier, and
//! interposes a confirmation when the user tries to leave with unsaved
//! changes. Network work happens outside: the machine consumes
//! messages and emits effects, and the surrounding event loop performs
//! each effect and feeds the outcome back as a later message.
//!
//! Invariants kept by every transition: the leave confirmation can
//! only be pending while the working copy is dirty, and while an
//! entity is loaded the dirty flag holds exactly when the working copy
//! differs from it.

use crate::condition::{is_by_id_condition, is_read_one_by_id, read_one_by_id, ReadOne, UpdateOne};
use crate::data::{CrudDataTrait, CrudFieldValueTrait, NoData, NoDataView, RequestError};
use crate::value::{Value, ValueError, ValueView};
use vstd::prelude::*;

verus! {

/// The routing step a save carries with it.
#[derive(Clone, Copy, PartialEq, Eq, Structural, Debug)]
pub enum Then {
    DoNothing,
    OpenListView,
    OpenCreateView,
}

/// What a successful update returned: the saved entity, and whether
/// the backend reported validation findings alongside it.
#[derive(Debug)]
pub struct SaveResult<T> {
    pub entity: T,
    pub with_validation_errors: bool,
}

/// An event the edit view consumes.
pub enum Msg<T: CrudDataTrait> {
    Back,
    BackCanceled,
    BackApproved,
    LoadedEntity(Result<Option<T>, RequestError>),
    UpdatedEntity(Result<Option<SaveResult<T>>, RequestError>, Then),
    Save,
    SaveAndReturn,
    SaveAndNew,
    Delete,
    ValueChanged(T::Field, Value),
}

/// A side effect the machine asks its surroundings to perform.
pub enum Effect<T: CrudDataTrait> {
    /// Navigate to the list view.
    NavigateToList,
    /// Navigate to the create view.
    NavigateToCreate,
    /// Announce a completed save to the embedding instance.
    EntitySaved(SaveResult<T>),
    /// Ask the embedding instance to delete the loaded entity.
    DeleteRequested(T),
    /// Send this update to the backend; answer with `UpdatedEntity`.
    SaveRequested(UpdateOne<T>, Then),
    /// Read one row from the backend; answer with `LoadedEntity`.
    LoadRequested(ReadOne),
    /// A field write was rejected; nothing changed.
    FieldRejected(ValueError),
}

/// The observable state of an edit view.
pub struct EditViewSnapshot<TV> {
    pub id: u32,
    pub input: TV,
    pub input_dirty: bool,
    pub user_wants_to_leave: bool,
    pub entity: Result<TV, NoDataView>,
    pub ongoing_save: bool,
}

/// The edit view: the route-level identifier it was opened with, the
/// working copy, the dirty flag, the pending leave confirmation, the
/// loaded entity (or why none is available), and the in-flight save
/// guard.
pub struct CrudEditView<T: CrudDataTrait> {
    pub id: u32,
    pub input: T,
    pub input_dirty: bool,
    pub user_wants_to_leave: bool,
    pub entity: Result<T, NoData>,
    pub ongoing_save: bool,
}

impl<T: CrudDataTrait> View for CrudEditView<T> {
    type V = EditViewSnapshot<T::V>;

    open spec fn view(&self) -> EditViewSnapshot<T::V> {
        EditViewSnapshot {
            id: self.id,
            input: self.input@,
            input_dirty: self.input_dirty,
            user_wants_to_leave: self.user_wants_to_leave,
            entity: match self.entity {
                Ok(ref e) => Ok(e@),
                Err(ref n) => Err(n@),
            },
            ongoing_save: self.ongoing_save,
        }
    }
}

impl<T: CrudDataTrait> CrudEditView<T> {
    /// The view's invariant: a pending leave confirmation implies a
    /// dirty working copy, and while an entity is loaded the dirty
    /// flag holds exactly when the working copy differs from it.
    pub open spec fn wf(&self) -> bool {
        &&& (self@.user_wants_to_leave ==> self@.input_dirty)
        &&& (self@.entity matches Ok(e) ==> (self@.input_dirty <==> self@.input != e))
    }

    /// Mounts the view: the working copy starts from the model's
    /// empty value, nothing is loaded yet, nothing is dirty, and the
    /// row named by `id` is requested.
    pub fn create(id: u32) -> (r: (CrudEditView<T>, Vec<Effect<T>>))
        ensures
            r.0.wf(),
            r.0@.id == id,
            r.0@.input == T::spec_default(),
            r.0@.input_dirty == false,
            r.0@.user_wants_to_leave == false,
            r.0@.ongoing_save == false,
            r.0@.entity == Err::<T::V, NoDataView>(NoDataView::NotYetLoaded),
            r.1@.len() == 1,
            (r.1@[0] matches Effect::LoadRequested(req) && is_read_one_by_id(
                req,
                T::spec_id_field_name(),
                id,
            )),
    {
        let state = CrudEditView {
            id,
            input: T::default_data(),
            input_dirty: false,
            user_wants_to_leave: false,
            entity: Err(NoData::NotYetLoaded),
            ongoing_save: false,
        };
        let mut effects: Vec<Effect<T>> = Vec::new();
        effects.push(Effect::LoadRequested(read_one_by_id(T::get_id_field_name(), id)));
        (state, effects)
    }

    /// Starts a save of the working copy unless one is in flight:
    /// at most one save is outstanding at a time. The update is
    /// targeted by the route-level identifier, not by anything inside
    /// the working copy.
    fn save_entity(&mut self, and_then: Then) -> (effects: Vec<Effect<T>>)
        ensures
            old(self)@.ongoing_save ==> final(self)@ == old(self)@ && effects@.len() == 0,
            !old(self)@.ongoing_save ==> {
                &&& final(self)@ == (EditViewSnapshot { ongoing_save: true, ..old(self)@ })
                &&& effects@.len() == 1
                &&& (effects@[0] matches Effect::SaveRequested(req, t) && t == and_then
                    && req.entity@ == old(self)@.input && (req.condition matches Some(c)
                    && is_by_id_condition(c, T::spec_id_field_name(), old(self)@.id)))
            },
    {
        let mut effects: Vec<Effect<T>> = Vec::new();
        if self.ongoing_save {
            return effects;
        }
        self.ongoing_save = true;
        let entity = self.input.clone_data();
        let condition = Some(crate::condition::by_id_condition(T::get_id_field_name(), self.id));
        effects.push(Effect::SaveRequested(UpdateOne { entity, condition }, and_then));
        effects
    }

    /// Consumes one message and yields the effects to perform and
    /// whether the view must re-render.
    ///
    /// The clauses below pin each transition down. In particular:
    /// `Back` while dirty emits no navigation and leaves a
    /// confirmation pending; `BackApproved` emits exactly one
    /// navigation; `BackCanceled` emits none and changes nothing but
    /// the pending flag; a failed update leaves the working copy and
    /// the loaded entity exactly as they were; and a successful update
    /// replaces both and clears the dirty flag.
    pub fn update(&mut self, msg: Msg<T>) -> (r: (Vec<Effect<T>>, bool))
        requires
            old(self).wf(),
        ensures
            final(self).wf(),
            final(self)@.id == old(self)@.id,
            msg is Back && old(self)@.input_dirty ==> final(self)@ == (EditViewSnapshot {
                user_wants_to_leave: true,
                ..old(self)@
            }) && r.0@.len() == 0 && r.1 == true,
            msg is Back && !old(self)@.input_dirty ==> final(self)@ == old(self)@ && r.0@.len() == 1
                && r.0@[0] is NavigateToList && r.1 == false,
            msg is BackCanceled ==> final(self)@ == (EditViewSnapshot {
                user_wants_to_leave: false,
                ..old(self)@
            }) && r.0@.len() == 0 && r.1 == true,
            msg is BackApproved ==> final(self)@ == (EditViewSnapshot {
                user_wants_to_leave: false,
                ..old(self)@
            }) && r.0@.len() == 1 && r.0@[0] is NavigateToList && r.1 == false,
            msg matches Msg::LoadedEntity(res) ==> r.0@.len() == 0 && r.1 == true && (match res {
                Ok(Some(e)) => final(self)@ == (EditViewSnapshot {
                    input: e@,
                    input_dirty: false,
                    user_wants_to_leave: false,
                    entity: Ok(e@),
                    ..old(self)@
                }),
                Ok(None) => final(self)@ == (EditViewSnapshot {
                    entity: Err(NoDataView::FetchReturnedNothing),
                    ..old(self)@
                }),
                Err(e) => final(self)@ == (EditViewSnapshot {
                    entity: Err(NoDataView::FetchFailed(e@)),
                    ..old(self)@
                }),
            }),
            msg matches Msg::UpdatedEntity(res, then) ==> r.1 == true && (match res {
                Ok(Some(sr)) => {
                    &&& final(self)@ == (EditViewSnapshot {
                        input: sr.entity@,
                        input_dirty: false,
                        user_wants_to_leave: false,
                        entity: Ok(sr.entity@),
                        ongoing_save: false,
                        ..old(self)@
                    })
                    &&& (r.0@[0] matches Effect::EntitySaved(x) && x.entity@ == sr.entity@
                        && x.with_validation_errors == sr.with_validation_errors)
                    &&& (then == Then::DoNothing ==> r.0@.len() == 1)
                    &&& (then != Then::DoNothing ==> r.0@.len() == 2)
                    &&& (then == Then::OpenListView ==> r.0@[1] is NavigateToList)
                    &&& (then == Then::OpenCreateView ==> r.0@[1] is NavigateToCreate)
                },
                Ok(None) => final(self)@ == (EditViewSnapshot {
                    entity: Err(NoDataView::UpdateReturnedNothing),
                    ongoing_save: false,
                    ..old(self)@
                }) && r.0@.len() == 0,
                Err(_) => final(self)@ == (EditViewSnapshot {
                    ongoing_save: false,
                    ..old(self)@
                }) && r.0@.len() == 0,
            }),
            msg is Save && old(self)@.ongoing_save ==> final(self)@ == old(self)@ && r.0@.len() == 0
                && r.1 == false,
            msg is Save && !old(self)@.ongoing_save ==> final(self)@ == (EditViewSnapshot {
                ongoing_save: true,
                ..old(self)@
            }) && r.0@.len() == 1 && r.1 == true && save_requested(r.0@[0], old(self)@, Then::DoNothing),
            msg is SaveAndReturn && old(self)@.ongoing_save ==> final(self)@ == old(self)@
                && r.0@.len() == 0 && r.1 == false,
            msg is SaveAndReturn && !old(self)@.ongoing_save ==> final(self)@ == (EditViewSnapshot {
                ongoing_save: true,
                ..old(self)@
            }) && r.0@.len() == 1 && r.1 == false && save_requested(
                r.0@[0],
                old(self)@,
                Then::OpenListView,
            ),
            msg is SaveAndNew && old(self)@.ongoing_save ==> final(self)@ == old(self)@
                && r.0@.len() == 0 && r.1 == false,
            msg is SaveAndNew && !old(self)@.ongoing_save ==> final(self)@ == (EditViewSnapshot {
                ongoing_save: true,
                ..old(self)@
            }) && r.0@.len() == 1 && r.1 == false && save_requested(
                r.0@[0],
                old(self)@,
                Then::OpenCreateView,
            ),
            msg is Delete ==> final(self)@ == old(self)@ && r.1 == false && (match old(self)@.entity {
                Ok(e) => r.0@.len() == 1 && (r.0@[0] matches Effect::DeleteRequested(x) && x@ == e),
                Err(_) => r.0@.len() == 0,
            }),
            msg matches Msg::ValueChanged(field, value) ==> {
                &&& r.1 == false
                &&& final(self)@.entity == old(self)@.entity
                &&& final(self)@.ongoing_save == old(self)@.ongoing_save
                &&& (old(self)@.entity matches Ok(e) ==> (final(self)@.input_dirty
                    <==> final(self)@.input != e))
                &&& (old(self)@.entity is Err ==> final(self)@.input_dirty == false)
                &&& final(self)@.user_wants_to_leave == (old(self)@.user_wants_to_leave
                    && final(self)@.input_dirty)
                &&& (field.declared(old(self)@.input) && field.accepts(old(self)@.input, value@)
                    ==> final(self)@.input == field.spec_update(old(self)@.input, value@)
                    && r.0@.len() == 0)
                &&& (!(field.declared(old(self)@.input) && field.accepts(old(self)@.input, value@))
                    ==> final(self)@.input == old(self)@.input && r.0@.len() == 1 && r.0@[0]
                    is FieldRejected)
            },
    {
        let mut effects: Vec<Effect<T>> = Vec::new();
        match msg {
            Msg::Back => {
                if self.input_dirty {
                    self.user_wants_to_leave = true;
                    (effects, true)
                } else {
                    effects.push(Effect::NavigateToList);
                    (effects, false)
                }
            },
            Msg::BackCanceled => {
                self.user_wants_to_leave = false;
                (effects, true)
            },
            Msg::BackApproved => {
                self.user_wants_to_leave = false;
                effects.push(Effect::NavigateToList);
                (effects, false)
            },
            Msg::LoadedEntity(res) => {
                match res {
                    Ok(Some(e)) => {
                        self.input = e.clone_data();
                        self.entity = Ok(e);
                        self.input_dirty = false;
                        self.user_wants_to_leave = false;
                    },
                    Ok(None) => {
                        self.entity = Err(NoData::FetchReturnedNothing);
                    },
                    Err(err) => {
                        self.entity = Err(NoData::FetchFailed(err));
                    },
                }
                (effects, true)
            },
            Msg::UpdatedEntity(res, then) => {
                self.ongoing_save = false;
                match res {
                    Ok(Some(sr)) => {
                        self.input = sr.entity.clone_data();
                        self.entity = Ok(sr.entity.clone_data());
                        self.input_dirty = false;
                        self.user_wants_to_leave = false;
                        effects.push(Effect::EntitySaved(sr));
                        match then {
                            Then::DoNothing => {},
                            Then::OpenListView => effects.push(Effect::NavigateToList),
                            Then::OpenCreateView => effects.push(Effect::NavigateToCreate),
                        }
                    },
                    Ok(None) => {
                        self.entity = Err(NoData::UpdateReturnedNothing);
                    },
                    Err(_) => {},
                }
                (effects, true)
            },
            Msg::Save => {
                let started = !self.ongoing_save;
                let effects = self.save_entity(Then::DoNothing);
                (effects, started)
            },
            Msg::SaveAndReturn => {
                let effects = self.save_entity(Then::OpenListView);
                (effects, false)
            },
            Msg::SaveAndNew => {
                let effects = self.save_entity(Then::OpenCreateView);
                (effects, false)
            },
            Msg::Delete => {
                match &self.entity {
                    Ok(e) => {
                        effects.push(Effect::DeleteRequested(e.clone_data()));
                    },
                    Err(_) => {},
                }
                (effects, false)
            },
            Msg::ValueChanged(field, value) => {
                let set_result = field.set_value(&mut self.input, value);
                match &self.entity {
                    Ok(e) => {
                        self.input_dirty = !self.input.data_eq(e);
                    },
                    Err(_) => {
                        self.input_dirty = false;
                    },
                }
                if !self.input_dirty {
                    self.user_wants_to_leave = false;
                }
                if let Err(err) = set_result {
                    effects.push(Effect::FieldRejected(err));
                }
                (effects, false)
            },
        }
    }
}

/// Whether `e` asks for a save of `state`'s working copy, targeted by
/// `state`'s route-level identifier, with `then` as the routing step.
pub open spec fn save_requested<T: CrudDataTrait>(
    e: Effect<T>,
    state: EditViewSnapshot<T::V>,
    then: Then,
) -> bool {
    &&& e matches Effect::SaveRequested(req, t)
    &&& e matches Effect::SaveRequested(req, t) ==> {
        &&& t == then
        &&& req.entity@ == state.input
        &&& (req.condition matches Some(c) && is_by_id_condition(
            c,
            T::spec_id_field_name(),
            state.id,
        ))
    }
}

/// Dirty tracking, for a working copy equal to the loaded entity:
/// writing back the value a declared field already carries leaves the
/// copy equal to the entity, so `update` keeps the dirty flag down;
/// writing a different accepted value makes the copy differ, so
/// `update` raises it. (A write the field does not accept is the
/// remaining case: by `update`'s `ValueChanged` clauses it is
/// rejected and the working copy stays exactly as it was.) An
/// accepted write puts exactly the written value in the field, which
/// is what decides both directions.
pub proof fn lemma_dirty_tracking<T: CrudDataTrait>(
    input: <T as View>::V,
    entity: <T as View>::V,
    field: T::Field,
    value: ValueView,
)
    requires
        input == entity,
        field.declared(input),
    ensures
        field.accepts(input, value) && value == field.spec_value(entity) ==> field.spec_update(
            input,
            value,
        ) == entity,
        field.accepts(input, value) && value != field.spec_value(entity) ==> field.spec_update(
            input,
            value,
        ) != entity,
{
    if field.accepts(input, value) {
        field.lemma_update_value(input, value);
    }
}

} // verus!
