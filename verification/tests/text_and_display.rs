//! Exact expected values for the text layer: decimal and hexadecimal
//! rendering, decimal parsing, and the rendering of whole values.

use crudkit_core::datetime::{OffsetDateTime, PrimitiveDateTime};
use crudkit_core::ids::{IdField, IdValue};
use crudkit_core::json::JsonValue;
use crudkit_core::selectable::Selectable;
use crudkit_core::text::{
    i64_to_dec_string, parse_i32, parse_i64, parse_u32, u128_to_padded_hex, u64_to_dec_string,
    u64_to_padded_dec, uuid_to_string,
};
use crudkit_core::value::{F32Repr, Value};

#[test]
fn decimal_rendering() {
    assert_eq!(u64_to_dec_string(0), "0".to_string());
    assert_eq!(u64_to_dec_string(42), "42".to_string());
    assert_eq!(u64_to_dec_string(u64::MAX), "18446744073709551615".to_string());
    assert_eq!(i64_to_dec_string(-42), "-42".to_string());
    assert_eq!(i64_to_dec_string(i64::MIN), "-9223372036854775808".to_string());
    assert_eq!(u64_to_padded_dec(7, 4), "0007".to_string());
    assert_eq!(u64_to_padded_dec(2024, 4), "2024".to_string());
}

#[test]
fn hexadecimal_rendering() {
    assert_eq!(u128_to_padded_hex(0xdeadbeef, 8), "deadbeef".to_string());
    assert_eq!(u128_to_padded_hex(0xf, 4), "000f".to_string());
}

#[test]
fn uuid_rendering() {
    let bits = 0x67e5504410b1426f9247bb680e5fe0c8u128;
    assert_eq!(
        uuid_to_string(bits),
        "67e55044-10b1-426f-9247-bb680e5fe0c8".to_string()
    );
    // Cross-check against the uuid crate's canonical rendering.
    assert_eq!(uuid_to_string(bits), uuid::Uuid::from_u128(bits).to_string());
}

#[test]
fn decimal_parsing() {
    assert_eq!(parse_u32("0"), Some(0));
    assert_eq!(parse_u32("4294967295"), Some(u32::MAX));
    assert_eq!(parse_u32("4294967296"), None);
    assert_eq!(parse_u32(""), None);
    assert_eq!(parse_u32("+"), None);
    assert_eq!(parse_u32("-1"), None);
    assert_eq!(parse_i32("-2147483648"), Some(i32::MIN));
    assert_eq!(parse_i32("2147483648"), None);
    assert_eq!(parse_i64("9223372036854775807"), Some(i64::MAX));
    assert_eq!(parse_i64("-9223372036854775809"), None);
    assert_eq!(parse_i64("1 2"), None);
    // Agreement with the standard library's parser on shared inputs.
    for s in ["0", "17", "+17", "-17", "junk", "", "-", "99999999999999999999999"] {
        assert_eq!(parse_i64(s), s.parse::<i64>().ok());
        assert_eq!(parse_u32(s), s.parse::<u32>().ok());
    }
}

#[test]
fn value_display_strings() {
    assert_eq!(
        Value::String("plain".to_string()).to_display_string(),
        "plain".to_string()
    );
    assert_eq!(Value::U32(7).to_display_string(), "7".to_string());
    assert_eq!(Value::OptionalU32(None).to_display_string(), "-".to_string());
    assert_eq!(Value::OptionalI64(Some(-3)).to_display_string(), "-3".to_string());
    assert_eq!(Value::Bool(true).to_display_string(), "true".to_string());
    assert_eq!(Value::ValidationStatus(false).to_display_string(), "false".to_string());
    assert_eq!(Value::OneToOneRelation(None).to_display_string(), "".to_string());
    assert_eq!(Value::Custom(()).to_display_string(), "Custom".to_string());
    assert_eq!(
        Value::F32(F32Repr { bits: 1.5f32.to_bits(), repr: "1.5".to_string() })
            .to_display_string(),
        "1.5".to_string()
    );
    assert_eq!(
        Value::UuidV4(0x67e5504410b1426f9247bb680e5fe0c8u128).to_display_string(),
        "67e55044-10b1-426f-9247-bb680e5fe0c8".to_string()
    );
}

#[test]
fn datetime_display_strings() {
    let dt = PrimitiveDateTime {
        year: 2020,
        month: 1,
        day: 2,
        hour: 3,
        minute: 4,
        second: 5,
        nanosecond: 0,
    };
    assert_eq!(
        Value::PrimitiveDateTime(dt).to_display_string(),
        "2020-01-02T03:04:05".to_string()
    );
    let with_nanos = PrimitiveDateTime { nanosecond: 120_000_000, ..dt };
    assert_eq!(
        Value::PrimitiveDateTime(with_nanos).to_display_string(),
        "2020-01-02T03:04:05.120000000".to_string()
    );
    let odt = OffsetDateTime {
        year: 2021,
        month: 6,
        day: 15,
        hour: 10,
        minute: 30,
        second: 0,
        nanosecond: 0,
        offset_seconds: 7200,
    };
    assert_eq!(
        Value::OffsetDateTime(odt).to_display_string(),
        "2021-06-15T10:30:00+02:00".to_string()
    );
    let utc = OffsetDateTime { offset_seconds: 0, ..odt };
    assert_eq!(
        Value::OffsetDateTime(utc).to_display_string(),
        "2021-06-15T10:30:00Z".to_string()
    );
    let negative = OffsetDateTime { offset_seconds: -19800, ..odt };
    assert_eq!(
        Value::OffsetDateTime(negative).to_display_string(),
        "2021-06-15T10:30:00-05:30".to_string()
    );
    assert_eq!(
        Value::OptionalOffsetDateTime(None).to_display_string(),
        "".to_string()
    );
}

#[test]
fn parse_then_display_round_trips_rfc3339() {
    let text = "2020-01-02T03:04:05Z".to_string();
    let parsed = Value::String(text.clone()).take_offset_date_time().unwrap();
    assert_eq!(Value::OffsetDateTime(parsed).to_display_string(), text);
}

#[test]
fn nested_table_and_select_display() {
    let nested = Value::NestedTable(vec![IdField {
        name: "id".to_string(),
        value: IdValue::U32(7),
    }]);
    assert_eq!(nested.to_display_string(), "'id': 7".to_string());
    let select = Value::Select(Selectable {
        type_tag: 1,
        data: vec![],
        display: "Option A".to_string(),
    });
    assert_eq!(select.to_display_string(), "Option A".to_string());
    assert_eq!(
        Value::OptionalSelect(None).to_display_string(),
        "NONE".to_string()
    );
    let multi = Value::Multiselect(vec![
        Selectable { type_tag: 1, data: vec![], display: "a".to_string() },
        Selectable { type_tag: 1, data: vec![], display: "b".to_string() },
    ]);
    assert_eq!(multi.to_display_string(), "ab".to_string());
}

#[test]
fn json_display_uses_serialized_form() {
    let json = JsonValue::new(serde_json::Value::Bool(true));
    assert_eq!(Value::Json(json).to_display_string(), "true".to_string());
    assert_eq!(Value::OptionalJson(None).to_display_string(), "-".to_string());
}
