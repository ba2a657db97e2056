//! Conversions across the backend boundary: backend values and
//! identifier values into runtime values.

use crudkit_core::backend::BackendValue;
use crudkit_core::datetime::PrimitiveDateTime;
use crudkit_core::ids::IdValue;
use crudkit_core::value::{F32Repr, Value, ValueError};

#[test]
fn backend_values_map_to_their_kind() {
    assert_eq!(
        Value::from_backend_value(BackendValue::String("a".to_string()))
            .unwrap()
            .take_string()
            .unwrap(),
        "a".to_string()
    );
    assert_eq!(
        Value::from_backend_value(BackendValue::U32(7)).unwrap().take_u32(),
        Ok(7)
    );
    assert_eq!(
        Value::from_backend_value(BackendValue::I64(-1)).unwrap().take_i64(),
        Ok(-1)
    );
    assert_eq!(
        Value::from_backend_value(BackendValue::Bool(true)).unwrap().take_bool(),
        Ok(true)
    );
    let dt = PrimitiveDateTime {
        year: 2020,
        month: 1,
        day: 2,
        hour: 3,
        minute: 4,
        second: 5,
        nanosecond: 0,
    };
    assert_eq!(
        Value::from_backend_value(BackendValue::PrimitiveDateTime(dt))
            .unwrap()
            .take_primitive_date_time(),
        Ok(dt)
    );
    let f = F32Repr { bits: 2.0f32.to_bits(), repr: "2".to_string() };
    let taken = Value::from_backend_value(BackendValue::F32(f)).unwrap().take_f32().unwrap();
    assert_eq!(f32::from_bits(taken.bits), 2.0f32);
}

#[test]
fn backend_json_is_wrapped_with_its_serialized_form() {
    let converted =
        Value::from_backend_value(BackendValue::Json(serde_json::Value::Bool(false))).unwrap();
    assert_eq!(converted.to_display_string(), "false".to_string());
}

#[test]
fn backend_vector_kind_fails_loudly() {
    assert!(matches!(
        Value::from_backend_value(BackendValue::I32Vec(vec![1, 2])),
        Err(ValueError::UnsupportedConversion)
    ));
}

#[test]
fn id_values_map_to_their_kind() {
    assert_eq!(
        Value::from_id_value(IdValue::U32(9)).take_u32(),
        Ok(9)
    );
    assert_eq!(
        Value::from_id_value(IdValue::String("k".to_string()))
            .take_string()
            .unwrap(),
        "k".to_string()
    );
    assert_eq!(
        Value::from_id_value(IdValue::Bool(false)).take_bool(),
        Ok(false)
    );
    let uuid_value = Value::from_id_value(IdValue::UuidV4(0x10));
    assert_eq!(
        uuid_value.to_display_string(),
        "00000000-0000-0000-0000-000000000010".to_string()
    );
}
