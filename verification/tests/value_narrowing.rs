//! Narrowing round-trips: each `take_*` returns the native value its
//! matching variant was built from, the enumerated coercions yield the
//! documented results, and an incompatible variant is a typed error.

use crudkit_core::datetime::{OffsetDateTime, PrimitiveDateTime};
use crudkit_core::ids::{IdField, IdValue};
use crudkit_core::selectable::Selectable;
use crudkit_core::value::{F32Repr, Value, ValueError, ValueKind};

fn sample_selectable(tag: u64, display: &str) -> Selectable {
    Selectable { type_tag: tag, data: vec![1, 2, 3], display: display.to_string() }
}

#[test]
fn take_string_returns_the_string() {
    assert_eq!(
        Value::String("hello".to_string()).take_string().unwrap(),
        "hello".to_string()
    );
}

#[test]
fn take_string_rejects_text() {
    assert_eq!(
        Value::Text("hello".to_string()).take_string(),
        Err(ValueError::UnexpectedVariant { found: ValueKind::Text })
    );
}

#[test]
fn take_text_returns_the_text() {
    assert_eq!(Value::Text("t".to_string()).take_text().unwrap(), "t".to_string());
    assert_eq!(
        Value::String("t".to_string()).take_text(),
        Err(ValueError::UnexpectedVariant { found: ValueKind::String })
    );
}

#[test]
fn take_u32_round_trip() {
    assert_eq!(Value::U32(42).take_u32(), Ok(42));
    assert_eq!(
        Value::I32(42).take_u32(),
        Err(ValueError::UnexpectedVariant { found: ValueKind::I32 })
    );
}

#[test]
fn take_u32_or_parse_parses_strings() {
    assert_eq!(Value::U32(7).take_u32_or_parse(), Ok(7));
    assert_eq!(Value::String("123".to_string()).take_u32_or_parse(), Ok(123));
    assert_eq!(Value::String("+123".to_string()).take_u32_or_parse(), Ok(123));
    assert_eq!(
        Value::String("4294967295".to_string()).take_u32_or_parse(),
        Ok(u32::MAX)
    );
    assert_eq!(
        Value::String("4294967296".to_string()).take_u32_or_parse(),
        Err(ValueError::ParseFailed)
    );
    assert_eq!(
        Value::String("12a".to_string()).take_u32_or_parse(),
        Err(ValueError::ParseFailed)
    );
    assert_eq!(
        Value::String("".to_string()).take_u32_or_parse(),
        Err(ValueError::ParseFailed)
    );
    assert_eq!(
        Value::Bool(true).take_u32_or_parse(),
        Err(ValueError::UnexpectedVariant { found: ValueKind::Bool })
    );
}

#[test]
fn take_i32_accepts_u32_with_truncation() {
    assert_eq!(Value::I32(-5).take_i32(), Ok(-5));
    assert_eq!(Value::U32(5).take_i32(), Ok(5));
    // The documented lossy cast: a number beyond i32::MAX wraps.
    assert_eq!(Value::U32(u32::MAX).take_i32(), Ok(-1));
    assert_eq!(
        Value::I64(5).take_i32(),
        Err(ValueError::UnexpectedVariant { found: ValueKind::I64 })
    );
}

#[test]
fn take_i64_round_trip() {
    assert_eq!(Value::I64(-9).take_i64(), Ok(-9));
    assert_eq!(
        Value::U32(9).take_i64(),
        Err(ValueError::UnexpectedVariant { found: ValueKind::U32 })
    );
}

#[test]
fn take_optional_i32_coercions() {
    assert_eq!(Value::I32(3).take_optional_i32(), Ok(Some(3)));
    assert_eq!(Value::OptionalI32(None).take_optional_i32(), Ok(None));
    assert_eq!(Value::OptionalI32(Some(-4)).take_optional_i32(), Ok(Some(-4)));
    assert_eq!(Value::String("-17".to_string()).take_optional_i32(), Ok(Some(-17)));
    // A failed parse degrades to none rather than an error.
    assert_eq!(Value::String("nope".to_string()).take_optional_i32(), Ok(None));
    assert_eq!(
        Value::String("2147483648".to_string()).take_optional_i32(),
        Ok(None)
    );
    assert_eq!(
        Value::U32(3).take_optional_i32(),
        Err(ValueError::UnexpectedVariant { found: ValueKind::U32 })
    );
}

#[test]
fn take_optional_i64_coercions() {
    assert_eq!(Value::I64(3).take_optional_i64(), Ok(Some(3)));
    assert_eq!(Value::OptionalI64(Some(8)).take_optional_i64(), Ok(Some(8)));
    assert_eq!(
        Value::String("-9223372036854775808".to_string()).take_optional_i64(),
        Ok(Some(i64::MIN))
    );
    assert_eq!(
        Value::String("9223372036854775808".to_string()).take_optional_i64(),
        Ok(None)
    );
    assert_eq!(
        Value::I32(3).take_optional_i64(),
        Err(ValueError::UnexpectedVariant { found: ValueKind::I32 })
    );
}

#[test]
fn take_f32_hands_back_the_carried_float() {
    let f = 1.5f32;
    let carried = F32Repr { bits: f.to_bits(), repr: "1.5".to_string() };
    let taken = Value::F32(carried).take_f32().unwrap();
    assert_eq!(f32::from_bits(taken.bits), 1.5f32);
    assert_eq!(taken.repr, "1.5".to_string());
    assert_eq!(
        Value::Bool(false).take_f32().map(|f| f.bits),
        Err(ValueError::UnexpectedVariant { found: ValueKind::Bool })
    );
}

#[test]
fn take_bool_round_trip() {
    assert_eq!(Value::Bool(true).take_bool(), Ok(true));
    assert_eq!(
        Value::ValidationStatus(true).take_bool(),
        Err(ValueError::UnexpectedVariant { found: ValueKind::ValidationStatus })
    );
}

#[test]
fn take_primitive_date_time_parses_rfc3339_strings() {
    let dt = PrimitiveDateTime {
        year: 2020,
        month: 1,
        day: 2,
        hour: 3,
        minute: 4,
        second: 5,
        nanosecond: 0,
    };
    assert_eq!(Value::PrimitiveDateTime(dt).take_primitive_date_time(), Ok(dt));
    let parsed = Value::String("2020-01-02T03:04:05Z".to_string())
        .take_primitive_date_time()
        .unwrap();
    assert_eq!(parsed, dt);
    assert_eq!(
        Value::String("not a date".to_string()).take_primitive_date_time(),
        Err(ValueError::ParseFailed)
    );
    assert_eq!(
        Value::Bool(true).take_primitive_date_time(),
        Err(ValueError::UnexpectedVariant { found: ValueKind::Bool })
    );
}

#[test]
fn take_offset_date_time_parses_rfc3339_strings() {
    let dt = OffsetDateTime {
        year: 2021,
        month: 6,
        day: 15,
        hour: 10,
        minute: 30,
        second: 0,
        nanosecond: 0,
        offset_seconds: 7200,
    };
    assert_eq!(Value::OffsetDateTime(dt).take_offset_date_time(), Ok(dt));
    let parsed = Value::String("2021-06-15T10:30:00+02:00".to_string())
        .take_offset_date_time()
        .unwrap();
    assert_eq!(parsed, dt);
    let utc = Value::String("2021-06-15T10:30:00Z".to_string())
        .take_offset_date_time()
        .unwrap();
    assert_eq!(utc.offset_seconds, 0);
    assert_eq!(
        Value::String("2021-06-15".to_string()).take_offset_date_time(),
        Err(ValueError::ParseFailed)
    );
}

#[test]
fn take_optional_date_times() {
    let dt = PrimitiveDateTime {
        year: 1999,
        month: 12,
        day: 31,
        hour: 23,
        minute: 59,
        second: 59,
        nanosecond: 0,
    };
    assert_eq!(
        Value::PrimitiveDateTime(dt).take_optional_primitive_date_time(),
        Ok(Some(dt))
    );
    assert_eq!(
        Value::OptionalPrimitiveDateTime(None).take_optional_primitive_date_time(),
        Ok(None)
    );
    assert_eq!(
        Value::String("1999-12-31T23:59:59Z".to_string()).take_optional_primitive_date_time(),
        Ok(Some(dt))
    );
    // Unlike the optional integers, a failed date parse is an error.
    assert_eq!(
        Value::String("oops".to_string()).take_optional_primitive_date_time(),
        Err(ValueError::ParseFailed)
    );
    assert_eq!(
        Value::OptionalOffsetDateTime(None).take_optional_offset_date_time(),
        Ok(None)
    );
}

#[test]
fn take_select_and_downcasts() {
    let s = sample_selectable(11, "first");
    let taken = Value::Select(s).take_select().unwrap();
    assert_eq!(taken.type_tag, 11);
    assert_eq!(taken.display, "first".to_string());

    let ok = Value::Select(sample_selectable(11, "first"))
        .take_select_downcast_to(11)
        .unwrap();
    assert_eq!(ok.type_tag, 11);
    assert_eq!(
        Value::Select(sample_selectable(11, "first")).take_select_downcast_to(12).err(),
        Some(ValueError::DowncastFailed { expected_tag: 12, found_tag: 11 })
    );
    assert_eq!(
        Value::Bool(true).take_select_downcast_to(1).err(),
        Some(ValueError::UnexpectedVariant { found: ValueKind::Bool })
    );
}

#[test]
fn take_optional_select_downcasts() {
    assert!(Value::OptionalSelect(None)
        .take_optional_select_downcast_to(1)
        .unwrap()
        .is_none());
    let some = Value::OptionalSelect(Some(sample_selectable(4, "x")))
        .take_optional_select_downcast_to(4)
        .unwrap();
    assert_eq!(some.unwrap().display, "x".to_string());
    assert_eq!(
        Value::OptionalSelect(Some(sample_selectable(4, "x")))
            .take_optional_select_downcast_to(5)
            .err(),
        Some(ValueError::DowncastFailed { expected_tag: 5, found_tag: 4 })
    );
}

#[test]
fn take_multiselect_downcasts() {
    let options = vec![sample_selectable(2, "a"), sample_selectable(2, "b")];
    let taken = Value::Multiselect(options).take_multiselect().unwrap();
    assert_eq!(taken.len(), 2);

    let options = vec![sample_selectable(2, "a"), sample_selectable(2, "b")];
    let ok = Value::Multiselect(options).take_multiselect_downcast_to(2).unwrap();
    assert_eq!(ok.len(), 2);
    assert_eq!(ok[1].display, "b".to_string());

    let mixed = vec![sample_selectable(2, "a"), sample_selectable(3, "b")];
    assert_eq!(
        Value::Multiselect(mixed).take_multiselect_downcast_to(2).err(),
        Some(ValueError::DowncastFailed { expected_tag: 2, found_tag: 3 })
    );

    let mixed = vec![sample_selectable(2, "a"), sample_selectable(3, "b")];
    assert_eq!(
        Value::OptionalMultiselect(Some(mixed))
            .take_optional_multiselect_downcast_to(2)
            .err(),
        Some(ValueError::DowncastFailed { expected_tag: 2, found_tag: 3 })
    );
    assert!(Value::OptionalMultiselect(None)
        .take_optional_multiselect_downcast_to(2)
        .unwrap()
        .is_none());
}

#[test]
fn take_one_to_one_relation_coercions() {
    assert_eq!(Value::U32(9).take_one_to_one_relation(), Ok(Some(9)));
    assert_eq!(Value::OptionalU32(None).take_one_to_one_relation(), Ok(None));
    assert_eq!(
        Value::OneToOneRelation(Some(3)).take_one_to_one_relation(),
        Ok(Some(3))
    );
    assert_eq!(
        Value::I32(3).take_one_to_one_relation(),
        Err(ValueError::UnexpectedVariant { found: ValueKind::I32 })
    );
}

#[test]
fn value_eq_compares_observable_state() {
    assert!(Value::String("a".to_string()).value_eq(&Value::String("a".to_string())));
    assert!(!Value::String("a".to_string()).value_eq(&Value::Text("a".to_string())));
    assert!(!Value::U32(1).value_eq(&Value::U32(2)));
    let nested = Value::NestedTable(vec![IdField {
        name: "id".to_string(),
        value: IdValue::U32(7),
    }]);
    let same = Value::NestedTable(vec![IdField {
        name: "id".to_string(),
        value: IdValue::U32(7),
    }]);
    let different = Value::NestedTable(vec![IdField {
        name: "id".to_string(),
        value: IdValue::U32(8),
    }]);
    assert!(nested.value_eq(&same));
    assert!(!nested.value_eq(&different));
}

#[test]
fn duplicate_observes_equal() {
    let original = Value::Multiselect(vec![sample_selectable(1, "a")]);
    let copy = original.duplicate();
    assert!(original.value_eq(&copy));
}
