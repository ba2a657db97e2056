//! The JSON wrapper's string caching, the record entity's accessors,
//! the read view, the view conversions, and the condition boundary.

use crudkit_core::condition::ConditionClauseValue;
use crudkit_core::data::{
    CrudDataTrait, CrudFieldNameTrait, CrudFieldValueTrait, CrudIdTrait, CrudResourceTrait, NoData,
    RequestError,
};
use crudkit_core::edit::Effect;
use crudkit_core::ids::{IdField, IdValue};
use crudkit_core::json::JsonValue;
use crudkit_core::read::{CrudReadView, Msg};
use crudkit_core::record::{RecordEntry, RecordResource, ValueRecord};
use crudkit_core::value::{Value, ValueError, ValueKind};
use crudkit_core::views::{CrudSimpleView, CrudView, SerializableCrudView};

#[test]
fn json_value_keeps_its_string_form_current() {
    let mut json = JsonValue::new(serde_json::Value::Bool(true));
    assert_eq!(json.get_string_representation(), "true");
    json.set_value(serde_json::Value::String("x".to_string()));
    assert_eq!(json.get_string_representation(), "\"x\"");
    assert_eq!(json.get_value(), &serde_json::Value::String("x".to_string()));
    let copy = json.duplicate();
    assert!(json.json_eq(&copy));
    assert_eq!(copy.into_string_representation(), "\"x\"".to_string());
}

#[test]
fn json_value_of_an_object() {
    let mut object = serde_json::Map::new();
    object.insert("a".to_string(), serde_json::Value::Number(serde_json::Number::from(1)));
    let json = JsonValue::new(serde_json::Value::Object(object));
    assert_eq!(json.get_string_representation(), "{\"a\":1}");
    assert_eq!(
        json.into_inner_value(),
        serde_json::from_str::<serde_json::Value>("{\"a\":1}").unwrap()
    );
}

fn sample_record() -> ValueRecord {
    ValueRecord {
        entries: vec![
            RecordEntry { name: "id".to_string(), value: Value::U32(7) },
            RecordEntry { name: "name".to_string(), value: Value::String("Ada".to_string()) },
        ],
    }
}

#[test]
fn record_accessors_read_and_write() {
    let mut record = sample_record();
    let field = ValueRecord::get_field("name").unwrap();
    assert_eq!(field.get_name(), "name".to_string());
    assert_eq!(
        field.get_value(&record).take_string().unwrap(),
        "Ada".to_string()
    );
    field.set_value(&mut record, Value::String("Grace".to_string())).unwrap();
    assert_eq!(
        field.get_value(&record).take_string().unwrap(),
        "Grace".to_string()
    );
}

#[test]
fn record_write_rejects_an_incompatible_kind() {
    let mut record = sample_record();
    let field = ValueRecord::get_field("name").unwrap();
    let rejected = field.set_value(&mut record, Value::U32(1));
    assert_eq!(
        rejected,
        Err(ValueError::UnexpectedVariant { found: ValueKind::U32 })
    );
    assert!(record.data_eq(&sample_record()));

    let missing = ValueRecord::get_field("age").unwrap();
    assert!(missing.set_value(&mut record, Value::U32(1)).is_err());
    assert!(record.data_eq(&sample_record()));
}

#[test]
fn record_identity_and_resource_name() {
    let record = sample_record();
    let id = record.get_id();
    assert_eq!(id.fields.len(), 1);
    assert_eq!(id.fields[0].name, "id".to_string());
    assert!(id.fields[0].value.id_value_eq(&IdValue::U32(7)));
    assert_eq!(ValueRecord::get_id_field_name(), "id".to_string());
    assert_eq!(RecordResource::get_resource_name(), "record".to_string());
}

#[test]
fn read_view_loads_and_converts() {
    let (mut view, effects) = CrudReadView::<RecordResource>::create(7);
    assert_eq!(effects.len(), 1);
    assert!(matches!(effects[0], Effect::LoadRequested(_)));
    assert!(matches!(view.entity, Err(NoData::NotYetLoaded)));

    let (effects, rerender) = view.update(Msg::LoadedEntity(Ok(Some(sample_record()))));
    assert!(effects.is_empty());
    assert!(rerender);
    assert!(view.entity.as_ref().unwrap().data_eq(&sample_record()));

    // Back always navigates immediately.
    let (effects, _) = view.update(Msg::Back);
    assert_eq!(effects.len(), 1);
    assert!(matches!(effects[0], Effect::NavigateToList));
}

#[test]
fn read_view_distinguishes_failures() {
    let (mut view, _) = CrudReadView::<RecordResource>::create(7);
    view.update(Msg::LoadedEntity(Ok(None)));
    assert!(matches!(view.entity, Err(NoData::FetchReturnedNothing)));

    let (mut view, _) = CrudReadView::<RecordResource>::create(7);
    view.update(Msg::LoadedEntity(Err(RequestError { message: "down".to_string() })));
    assert!(matches!(view.entity, Err(NoData::FetchFailed(_))));
}

#[test]
fn view_conversions() {
    let view: CrudView<ValueRecord, ValueRecord> = CrudView::Edit(sample_record());
    assert_eq!(view.into_simple(), CrudSimpleView::Edit);
    let serialized = view.into_serializable();
    match &serialized {
        SerializableCrudView::Edit(id) => {
            assert_eq!(id.fields.len(), 1);
            assert_eq!(id.fields[0].name, "id".to_string());
        },
        _ => panic!("expected an edit view"),
    }
    let default_view: CrudView<ValueRecord, ValueRecord> = CrudView::default();
    assert_eq!(default_view.into_simple(), CrudSimpleView::List);
    assert!(CrudView::<ValueRecord, ValueRecord>::List
        .into_serializable()
        .view_eq(&SerializableCrudView::List));
}

#[test]
fn condition_clause_values_from_values() {
    assert!(matches!(
        Value::String("a".to_string()).into_condition_clause_value(),
        Ok(ConditionClauseValue::String(_))
    ));
    assert!(matches!(
        Value::Text("a".to_string()).into_condition_clause_value(),
        Ok(ConditionClauseValue::String(_))
    ));
    match Value::Json(JsonValue::new(serde_json::Value::Bool(false)))
        .into_condition_clause_value()
        .unwrap()
    {
        ConditionClauseValue::Json(s) => assert_eq!(s, "false".to_string()),
        _ => panic!("expected the serialized form"),
    }
    assert!(matches!(
        Value::U32(3).into_condition_clause_value(),
        Ok(ConditionClauseValue::U32(3))
    ));
    assert!(matches!(
        Value::UuidV4(5).into_condition_clause_value(),
        Ok(ConditionClauseValue::UuidV4(5))
    ));
    // A kind without a mapping fails loudly.
    assert_eq!(
        Value::OptionalU32(Some(1)).into_condition_clause_value().err(),
        Some(ValueError::UnexpectedVariant { found: ValueKind::OptionalU32 })
    );
    assert_eq!(
        Value::NestedTable(vec![IdField {
            name: "id".to_string(),
            value: IdValue::U32(1),
        }])
        .into_condition_clause_value()
        .err(),
        Some(ValueError::UnexpectedVariant { found: ValueKind::NestedTable })
    );
}
