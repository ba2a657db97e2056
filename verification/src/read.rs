//! The read-only view's state machine.
//!
//! A strict subset of the edit view: it loads a row, converts it to
//! the editable shape for rendering, tracks nothing, and leaving
//! navigates immediately.

use crate::condition::is_read_one_by_id;
use crate::condition::read_one_by_id;
use crate::data::{CrudDataTrait, CrudMainTrait, NoData, NoDataView, RequestError};
use crate::edit::Effect;
use vstd::prelude::*;

verus! {

/// An event the read view consumes.
pub enum Msg<T: CrudMainTrait> {
    Back,
    LoadedEntity(Result<Option<T::ReadModel>, RequestError>),
}

/// The observable state of a read view.
pub struct ReadViewSnapshot<TV> {
    pub id: u32,
    pub entity: Result<TV, NoDataView>,
}

/// The read view: the route-level identifier it was opened with and
/// the loaded row, already converted to the editable shape.
pub struct CrudReadView<T: CrudMainTrait> {
    pub id: u32,
    pub entity: Result<T::UpdateModel, NoData>,
}

impl<T: CrudMainTrait> View for CrudReadView<T> {
    type V = ReadViewSnapshot<<T::UpdateModel as View>::V>;

    open spec fn view(&self) -> ReadViewSnapshot<<T::UpdateModel as View>::V> {
        ReadViewSnapshot {
            id: self.id,
            entity: match self.entity {
                Ok(ref e) => Ok(e@),
                Err(ref n) => Err(n@),
            },
        }
    }
}

impl<T: CrudMainTrait> CrudReadView<T> {
    /// Mounts the view: nothing is loaded yet, and the row named by
    /// `id` is requested.
    pub fn create(id: u32) -> (r: (CrudReadView<T>, Vec<Effect<T::UpdateModel>>))
        ensures
            r.0@.id == id,
            r.0@.entity == Err::<<T::UpdateModel as View>::V, NoDataView>(NoDataView::NotYetLoaded),
            r.1@.len() == 1,
            (r.1@[0] matches Effect::LoadRequested(req) && is_read_one_by_id(
                req,
                <T::ReadModel as CrudDataTrait>::spec_id_field_name(),
                id,
            )),
    {
        let state = CrudReadView { id, entity: Err(NoData::NotYetLoaded) };
        let mut effects: Vec<Effect<T::UpdateModel>> = Vec::new();
        effects.push(
            Effect::LoadRequested(
                read_one_by_id(<T::ReadModel as CrudDataTrait>::get_id_field_name(), id),
            ),
        );
        (state, effects)
    }

    /// Consumes one message: leaving navigates immediately, and a load
    /// outcome replaces the entity, distinguishing an absent row from
    /// a transport failure.
    pub fn update(&mut self, msg: Msg<T>) -> (r: (Vec<Effect<T::UpdateModel>>, bool))
        ensures
            final(self)@.id == old(self)@.id,
            msg is Back ==> final(self)@ == old(self)@ && r.0@.len() == 1 && r.0@[0]
                is NavigateToList && r.1 == false,
            msg matches Msg::LoadedEntity(res) ==> r.0@.len() == 0 && r.1 == true && (match res {
                Ok(Some(e)) => final(self)@ == (ReadViewSnapshot {
                    entity: Ok(T::spec_read_into_update(e)),
                    ..old(self)@
                }),
                Ok(None) => final(self)@ == (ReadViewSnapshot {
                    entity: Err(NoDataView::FetchReturnedNothing),
                    ..old(self)@
                }),
                Err(e) => final(self)@ == (ReadViewSnapshot {
                    entity: Err(NoDataView::FetchFailed(e@)),
                    ..old(self)@
                }),
            }),
    {
        let mut effects: Vec<Effect<T::UpdateModel>> = Vec::new();
        match msg {
            Msg::Back => {
                effects.push(Effect::NavigateToList);
                (effects, false)
            },
            Msg::LoadedEntity(res) => {
                self.entity = match res {
                    Ok(Some(e)) => Ok(T::read_into_update(e)),
                    Ok(None) => Err(NoData::FetchReturnedNothing),
                    Err(err) => Err(NoData::FetchFailed(err)),
                };
                (effects, true)
            },
        }
    }
}

} // verus!
