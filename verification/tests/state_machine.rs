//! The edit view's transitions: dirty tracking, leave confirmation,
//! failed saves, the in-flight save guard, and the end-to-end
//! load-edit-save scenario.

use crudkit_core::condition::{Condition, ConditionClauseValue, ConditionElement, Operator};
use crudkit_core::data::{CrudDataTrait, CrudFieldValueTrait, NoData, RequestError};
use crudkit_core::edit::{CrudEditView, Effect, Msg, SaveResult, Then};
use crudkit_core::record::{RecordEntry, ValueRecord};
use crudkit_core::value::Value;

fn person(name: &str) -> ValueRecord {
    ValueRecord {
        entries: vec![
            RecordEntry { name: "id".to_string(), value: Value::U32(7) },
            RecordEntry { name: "name".to_string(), value: Value::String(name.to_string()) },
        ],
    }
}

fn loaded_view(name: &str) -> CrudEditView<ValueRecord> {
    let (mut view, _effects) = CrudEditView::<ValueRecord>::create(7);
    let (effects, rerender) = view.update(Msg::LoadedEntity(Ok(Some(person(name)))));
    assert!(effects.is_empty());
    assert!(rerender);
    view
}

fn name_field() -> <ValueRecord as CrudDataTrait>::Field {
    ValueRecord::get_field("name").unwrap()
}

#[test]
fn create_requests_the_row_by_id() {
    let (view, effects) = CrudEditView::<ValueRecord>::create(7);
    // The working copy starts from the model's empty value.
    assert!(view.input.data_eq(&ValueRecord::default_data()));
    assert!(view.input.entries.is_empty());
    assert!(!view.input_dirty);
    assert!(!view.user_wants_to_leave);
    assert!(!view.ongoing_save);
    assert!(matches!(view.entity, Err(NoData::NotYetLoaded)));
    assert_eq!(effects.len(), 1);
    match &effects[0] {
        Effect::LoadRequested(req) => {
            assert!(req.skip.is_none());
            assert!(req.order_by.is_none());
            match req.condition.as_ref().unwrap() {
                Condition::All(elements) => {
                    assert_eq!(elements.len(), 1);
                    let ConditionElement::Clause(clause) = &elements[0];
                    assert_eq!(clause.column_name, "id".to_string());
                    assert!(matches!(clause.operator, Operator::Equal));
                    assert!(matches!(clause.value, ConditionClauseValue::U32(7)));
                },
                Condition::Any(_) => panic!("expected a conjunction"),
            }
        },
        _ => panic!("expected a load request"),
    }
}

#[test]
fn dirty_tracking() {
    let mut view = loaded_view("Ada");
    assert!(!view.input_dirty);

    // Writing the value the field already has keeps the copy clean.
    let (effects, _) = view.update(Msg::ValueChanged(
        name_field(),
        Value::String("Ada".to_string()),
    ));
    assert!(effects.is_empty());
    assert!(!view.input_dirty);

    // Writing a different value dirties it.
    view.update(Msg::ValueChanged(name_field(), Value::String("Grace".to_string())));
    assert!(view.input_dirty);

    // Writing the loaded value back cleans it again.
    view.update(Msg::ValueChanged(name_field(), Value::String("Ada".to_string())));
    assert!(!view.input_dirty);

    // A successful save resets the flag and replaces the working copy.
    view.update(Msg::ValueChanged(name_field(), Value::String("Grace".to_string())));
    assert!(view.input_dirty);
    let saved = person("Grace");
    view.update(Msg::UpdatedEntity(
        Ok(Some(SaveResult { entity: saved, with_validation_errors: false })),
        Then::DoNothing,
    ));
    assert!(!view.input_dirty);
    assert!(view.input.data_eq(&person("Grace")));
    assert!(view.entity.as_ref().unwrap().data_eq(&person("Grace")));
}

#[test]
fn wrong_kind_field_write_is_rejected_and_changes_nothing() {
    let mut view = loaded_view("Ada");
    let (effects, _) = view.update(Msg::ValueChanged(name_field(), Value::U32(1)));
    assert_eq!(effects.len(), 1);
    assert!(matches!(effects[0], Effect::FieldRejected(_)));
    assert!(!view.input_dirty);
    assert!(view.input.data_eq(&person("Ada")));
}

#[test]
fn leave_confirmation() {
    let mut view = loaded_view("Ada");
    view.update(Msg::ValueChanged(name_field(), Value::String("Grace".to_string())));
    assert!(view.input_dirty);

    // Back while dirty: no navigation, confirmation pending.
    let (effects, rerender) = view.update(Msg::Back);
    assert!(effects.is_empty());
    assert!(rerender);
    assert!(view.user_wants_to_leave);

    // Canceling returns to editing with the working copy unchanged.
    let (effects, _) = view.update(Msg::BackCanceled);
    assert!(effects.is_empty());
    assert!(!view.user_wants_to_leave);
    assert!(view.input_dirty);
    let current = name_field().get_value(&view.input);
    assert_eq!(current.take_string().unwrap(), "Grace".to_string());

    // Approving emits exactly one navigation.
    view.update(Msg::Back);
    let (effects, _) = view.update(Msg::BackApproved);
    assert_eq!(effects.len(), 1);
    assert!(matches!(effects[0], Effect::NavigateToList));
}

#[test]
fn back_when_clean_navigates_immediately() {
    let mut view = loaded_view("Ada");
    let (effects, rerender) = view.update(Msg::Back);
    assert_eq!(effects.len(), 1);
    assert!(matches!(effects[0], Effect::NavigateToList));
    assert!(!rerender);
    assert!(!view.user_wants_to_leave);
}

#[test]
fn failed_save_preserves_state() {
    let mut view = loaded_view("Ada");
    view.update(Msg::ValueChanged(name_field(), Value::String("Grace".to_string())));
    let (effects, _) = view.update(Msg::Save);
    assert_eq!(effects.len(), 1);
    assert!(view.ongoing_save);

    let before_input = view.input.clone_data();
    let before_entity = view.entity.as_ref().unwrap().clone_data();
    let (effects, _) = view.update(Msg::UpdatedEntity(
        Err(RequestError { message: "connection reset".to_string() }),
        Then::DoNothing,
    ));
    assert!(effects.is_empty());
    assert!(view.input.data_eq(&before_input));
    assert!(view.entity.as_ref().unwrap().data_eq(&before_entity));
    assert!(view.input_dirty);
    assert!(!view.ongoing_save);
}

#[test]
fn at_most_one_save_in_flight() {
    let mut view = loaded_view("Ada");
    let (first, _) = view.update(Msg::Save);
    assert_eq!(first.len(), 1);
    let (second, _) = view.update(Msg::Save);
    assert!(second.is_empty());
    view.update(Msg::UpdatedEntity(
        Ok(Some(SaveResult { entity: person("Ada"), with_validation_errors: false })),
        Then::DoNothing,
    ));
    assert!(!view.ongoing_save);
    let (third, _) = view.update(Msg::Save);
    assert_eq!(third.len(), 1);
}

#[test]
fn delete_requires_a_loaded_entity() {
    let (mut view, _) = CrudEditView::<ValueRecord>::create(7);
    let (effects, _) = view.update(Msg::Delete);
    assert!(effects.is_empty());

    let mut view = loaded_view("Ada");
    let (effects, _) = view.update(Msg::Delete);
    assert_eq!(effects.len(), 1);
    match &effects[0] {
        Effect::DeleteRequested(entity) => assert!(entity.data_eq(&person("Ada"))),
        _ => panic!("expected a delete request"),
    }
}

#[test]
fn load_failures_are_distinguished() {
    let (mut view, _) = CrudEditView::<ValueRecord>::create(7);
    view.update(Msg::LoadedEntity(Ok(None)));
    assert!(matches!(view.entity, Err(NoData::FetchReturnedNothing)));

    let (mut view, _) = CrudEditView::<ValueRecord>::create(7);
    view.update(Msg::LoadedEntity(Err(RequestError { message: "timeout".to_string() })));
    assert!(matches!(view.entity, Err(NoData::FetchFailed(_))));
}

#[test]
fn update_returning_nothing_keeps_the_working_copy() {
    let mut view = loaded_view("Ada");
    view.update(Msg::ValueChanged(name_field(), Value::String("Grace".to_string())));
    view.update(Msg::Save);
    view.update(Msg::UpdatedEntity(Ok(None), Then::DoNothing));
    assert!(matches!(view.entity, Err(NoData::UpdateReturnedNothing)));
    let current = name_field().get_value(&view.input);
    assert_eq!(current.take_string().unwrap(), "Grace".to_string());
}

#[test]
fn end_to_end_edit_save_and_return() {
    // Load the row with id 7, holding {name: "Ada"}.
    let (mut view, effects) = CrudEditView::<ValueRecord>::create(7);
    assert_eq!(effects.len(), 1);
    view.update(Msg::LoadedEntity(Ok(Some(person("Ada")))));
    assert!(view.entity.as_ref().unwrap().data_eq(&person("Ada")));

    // Edit the name.
    view.update(Msg::ValueChanged(name_field(), Value::String("Grace".to_string())));
    assert!(view.input_dirty);

    // Save and return: one save request carrying the edited copy,
    // targeted by the route-level id.
    let (effects, rerender) = view.update(Msg::SaveAndReturn);
    assert!(!rerender);
    assert_eq!(effects.len(), 1);
    match &effects[0] {
        Effect::SaveRequested(req, then) => {
            assert!(matches!(then, Then::OpenListView));
            assert!(req.entity.data_eq(&person("Grace")));
            match req.condition.as_ref().unwrap() {
                Condition::All(elements) => {
                    let ConditionElement::Clause(clause) = &elements[0];
                    assert_eq!(clause.column_name, "id".to_string());
                    assert!(matches!(clause.value, ConditionClauseValue::U32(7)));
                },
                Condition::Any(_) => panic!("expected a conjunction"),
            }
        },
        _ => panic!("expected a save request"),
    }

    // The provider answers with the saved row: exactly one saved
    // announcement and one navigation to the list are emitted.
    let (effects, _) = view.update(Msg::UpdatedEntity(
        Ok(Some(SaveResult { entity: person("Grace"), with_validation_errors: false })),
        Then::OpenListView,
    ));
    assert_eq!(effects.len(), 2);
    match &effects[0] {
        Effect::EntitySaved(saved) => {
            assert!(saved.entity.data_eq(&person("Grace")));
            assert!(!saved.with_validation_errors);
        },
        _ => panic!("expected the saved announcement first"),
    }
    assert!(matches!(effects[1], Effect::NavigateToList));

    assert!(view.entity.as_ref().unwrap().data_eq(&person("Grace")));
    assert!(!view.input_dirty);
}
