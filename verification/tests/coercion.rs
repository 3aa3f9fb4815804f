//! The coercion table: totality, sentinels, and agreement with the
//! renderings the driver-side crates produce.

use chrono::{Datelike, TimeZone, Timelike};
use tokio_postgres::types::Type;
use pg_sessions::{
    coerce, tag_of_oid, Cell, CellValue, DateTimeValue, DateValue, DecimalValue, TimeValue,
    TypeTag,
};

fn decimal_cell(d: rust_decimal::Decimal) -> CellValue {
    CellValue::Numeric(DecimalValue {
        negative: d.is_sign_negative(),
        mantissa: d.mantissa().unsigned_abs(),
        scale: d.scale() as u8,
    })
}

fn date_value(d: chrono::NaiveDate) -> DateValue {
    DateValue { year: d.year(), month: d.month() as u8, day: d.day() as u8 }
}

fn time_value(t: chrono::NaiveTime) -> TimeValue {
    let mut second = t.second() as u8;
    let mut nano = t.nanosecond();
    if nano >= 1_000_000_000 {
        second += 1;
        nano -= 1_000_000_000;
    }
    TimeValue { hour: t.hour() as u8, minute: t.minute() as u8, second, nanosecond: nano }
}

fn datetime_value(dt: chrono::NaiveDateTime) -> DateTimeValue {
    DateTimeValue { date: date_value(dt.date()), time: time_value(dt.time()) }
}

#[test]
fn coerce_bool_and_null() {
    assert_eq!(coerce(&TypeTag::Bool, &CellValue::Bool(true)), "true");
    assert_eq!(coerce(&TypeTag::Bool, &CellValue::Bool(false)), "false");
    assert_eq!(coerce(&TypeTag::Bool, &CellValue::Null), "NULL");
}

#[test]
fn coerce_integers_match_std_rendering() {
    assert_eq!(coerce(&TypeTag::Int2, &CellValue::Int2(-32768)), (-32768i16).to_string());
    assert_eq!(coerce(&TypeTag::Int2, &CellValue::Int2(7)), "7");
    assert_eq!(coerce(&TypeTag::Int4, &CellValue::Int4(1)), "1");
    assert_eq!(coerce(&TypeTag::Int4, &CellValue::Int4(i32::MIN)), i32::MIN.to_string());
    assert_eq!(coerce(&TypeTag::Int8, &CellValue::Int8(i64::MIN)), i64::MIN.to_string());
    assert_eq!(coerce(&TypeTag::Int8, &CellValue::Int8(i64::MAX)), i64::MAX.to_string());
    assert_eq!(coerce(&TypeTag::Int8, &CellValue::Int8(0)), "0");
}

#[test]
fn coerce_floats_pass_rendered_text_through() {
    let rendered = (1.5f32).to_string();
    assert_eq!(coerce(&TypeTag::Float4, &CellValue::Float(rendered.clone())), rendered);
    let rendered8 = (-0.25f64).to_string();
    assert_eq!(coerce(&TypeTag::Float8, &CellValue::Float(rendered8.clone())), rendered8);
    assert_eq!(coerce(&TypeTag::Float4, &CellValue::Null), "NULL");
}

#[test]
fn coerce_decimal_matches_rust_decimal_display() {
    let samples = [
        rust_decimal::Decimal::new(123, 2),
        rust_decimal::Decimal::new(-123, 2),
        rust_decimal::Decimal::new(5, 2),
        rust_decimal::Decimal::new(-5, 4),
        rust_decimal::Decimal::new(0, 0),
        rust_decimal::Decimal::new(0, 3),
        rust_decimal::Decimal::new(1110, 1),
        rust_decimal::Decimal::from_i128_with_scale(79228162514264337593543950335, 0),
        rust_decimal::Decimal::from_i128_with_scale(-79228162514264337593543950335, 28),
    ];
    for d in samples {
        assert_eq!(coerce(&TypeTag::Numeric, &decimal_cell(d)), d.to_string(), "for {d:?}");
    }
    assert_eq!(coerce(&TypeTag::Numeric, &CellValue::Null), "NULL");
}

#[test]
fn coerce_date_matches_chrono_display() {
    let samples = [
        chrono::NaiveDate::from_ymd_opt(2015, 9, 5).unwrap(),
        chrono::NaiveDate::from_ymd_opt(0, 1, 1).unwrap(),
        chrono::NaiveDate::from_ymd_opt(9999, 12, 31).unwrap(),
        chrono::NaiveDate::from_ymd_opt(-1, 1, 1).unwrap(),
        chrono::NaiveDate::from_ymd_opt(10000, 12, 31).unwrap(),
        chrono::NaiveDate::from_ymd_opt(-12345, 2, 28).unwrap(),
    ];
    for d in samples {
        assert_eq!(
            coerce(&TypeTag::Date, &CellValue::Date(date_value(d))),
            d.to_string(),
            "for {d}"
        );
    }
}

#[test]
fn coerce_time_matches_chrono_display() {
    let samples = [
        chrono::NaiveTime::from_hms_opt(23, 56, 4).unwrap(),
        chrono::NaiveTime::from_hms_milli_opt(23, 56, 4, 12).unwrap(),
        chrono::NaiveTime::from_hms_micro_opt(23, 56, 4, 1234).unwrap(),
        chrono::NaiveTime::from_hms_nano_opt(23, 56, 4, 123456).unwrap(),
        chrono::NaiveTime::from_hms_milli_opt(6, 59, 59, 1_500).unwrap(),
        chrono::NaiveTime::from_hms_opt(0, 0, 0).unwrap(),
    ];
    for t in samples {
        assert_eq!(
            coerce(&TypeTag::Time, &CellValue::Time(time_value(t))),
            t.to_string(),
            "for {t}"
        );
    }
}

#[test]
fn coerce_timestamp_matches_chrono_display() {
    let dt = chrono::NaiveDate::from_ymd_opt(2016, 11, 15)
        .unwrap()
        .and_hms_opt(7, 39, 24)
        .unwrap();
    assert_eq!(
        coerce(&TypeTag::Timestamp, &CellValue::Timestamp(datetime_value(dt))),
        dt.to_string()
    );
    let with_frac = chrono::NaiveDate::from_ymd_opt(2015, 6, 30)
        .unwrap()
        .and_hms_milli_opt(23, 59, 59, 250)
        .unwrap();
    assert_eq!(
        coerce(&TypeTag::Timestamp, &CellValue::Timestamp(datetime_value(with_frac))),
        with_frac.to_string()
    );
}

#[test]
fn coerce_timestamptz_matches_chrono_utc_display() {
    let instant = chrono::Utc.with_ymd_and_hms(2020, 2, 29, 12, 0, 1).unwrap();
    assert_eq!(
        coerce(&TypeTag::TimestampTz, &CellValue::TimestampTz(datetime_value(
            instant.naive_utc()
        ))),
        instant.to_string()
    );
    assert!(instant.to_string().ends_with(" UTC"));
}

#[test]
fn coerce_uuid_matches_uuid_display() {
    let u = uuid::Uuid::new_v4();
    assert_eq!(coerce(&TypeTag::Uuid, &CellValue::Uuid(u.as_u128())), u.to_string());
    let nil = uuid::Uuid::nil();
    assert_eq!(
        coerce(&TypeTag::Uuid, &CellValue::Uuid(nil.as_u128())),
        "00000000-0000-0000-0000-000000000000"
    );
}

#[test]
fn coerce_text_kinds_pass_text_through() {
    let v = CellValue::Text(String::from("hello world"));
    assert_eq!(coerce(&TypeTag::TextLike, &v), "hello world");
    assert_eq!(coerce(&TypeTag::TextLike, &CellValue::Null), "NULL");
}

#[test]
fn coerce_sentinels_never_render_data() {
    let v = CellValue::Text(String::from("{\"a\": 1}"));
    assert_eq!(coerce(&TypeTag::Json, &v), "JSON IS NOT SUPPORTED");
    assert_eq!(coerce(&TypeTag::Json, &CellValue::Null), "JSON IS NOT SUPPORTED");
    assert_eq!(coerce(&TypeTag::Bytea, &CellValue::Null), "BYTEA IS NOT SUPPORTED");
    assert_eq!(
        coerce(&TypeTag::Bytea, &CellValue::Text(String::from("\\xdeadbeef"))),
        "BYTEA IS NOT SUPPORTED"
    );
    assert_eq!(coerce(&TypeTag::Unsupported, &CellValue::Null), "Unsupported type");
    assert_eq!(coerce(&TypeTag::Unsupported, &CellValue::Bool(true)), "Unsupported type");
}

#[test]
fn coerce_mismatched_value_yields_null_sentinel() {
    assert_eq!(coerce(&TypeTag::Int4, &CellValue::Bool(true)), "NULL");
    assert_eq!(coerce(&TypeTag::Bool, &CellValue::Int4(1)), "NULL");
    assert_eq!(coerce(&TypeTag::Uuid, &CellValue::Text(String::from("x"))), "NULL");
}

#[test]
fn tag_of_oid_matches_driver_types() {
    let pairs = [
        (Type::BOOL, TypeTag::Bool),
        (Type::INT2, TypeTag::Int2),
        (Type::INT4, TypeTag::Int4),
        (Type::INT8, TypeTag::Int8),
        (Type::FLOAT4, TypeTag::Float4),
        (Type::FLOAT8, TypeTag::Float8),
        (Type::NUMERIC, TypeTag::Numeric),
        (Type::TEXT, TypeTag::TextLike),
        (Type::VARCHAR, TypeTag::TextLike),
        (Type::CHAR, TypeTag::TextLike),
        (Type::BPCHAR, TypeTag::TextLike),
        (Type::NAME, TypeTag::TextLike),
        (Type::TIMESTAMP, TypeTag::Timestamp),
        (Type::TIMESTAMPTZ, TypeTag::TimestampTz),
        (Type::DATE, TypeTag::Date),
        (Type::TIME, TypeTag::Time),
        (Type::UUID, TypeTag::Uuid),
        (Type::JSON, TypeTag::Json),
        (Type::JSONB, TypeTag::Json),
        (Type::BYTEA, TypeTag::Bytea),
    ];
    for (ty, tag) in pairs {
        assert_eq!(tag_of_oid(ty.oid()), tag, "for {ty}");
    }
    assert_eq!(tag_of_oid(Type::INTERVAL.oid()), TypeTag::Unsupported);
    assert_eq!(tag_of_oid(Type::TEXT_ARRAY.oid()), TypeTag::Unsupported);
}

#[test]
fn every_tag_yields_a_string_for_every_representative_value() {
    let tags = [
        TypeTag::Bool,
        TypeTag::Int2,
        TypeTag::Int4,
        TypeTag::Int8,
        TypeTag::Float4,
        TypeTag::Float8,
        TypeTag::Numeric,
        TypeTag::TextLike,
        TypeTag::Timestamp,
        TypeTag::TimestampTz,
        TypeTag::Date,
        TypeTag::Time,
        TypeTag::Uuid,
        TypeTag::Json,
        TypeTag::Bytea,
        TypeTag::Unsupported,
    ];
    let date = DateValue { year: 2024, month: 2, day: 29 };
    let time = TimeValue { hour: 1, minute: 2, second: 3, nanosecond: 0 };
    let values = [
        CellValue::Null,
        CellValue::Bool(true),
        CellValue::Int2(-1),
        CellValue::Int4(42),
        CellValue::Int8(7),
        CellValue::Float(String::from("1.5")),
        CellValue::Numeric(DecimalValue { negative: true, mantissa: 10, scale: 3 }),
        CellValue::Text(String::from("t")),
        CellValue::Timestamp(DateTimeValue { date, time }),
        CellValue::TimestampTz(DateTimeValue { date, time }),
        CellValue::Date(date),
        CellValue::Time(time),
        CellValue::Uuid(u128::MAX),
    ];
    for tag in &tags {
        for value in &values {
            let cell = Cell { tag: *tag, value: value.clone() };
            let s = coerce(&cell.tag, &cell.value);
            assert!(!s.is_empty(), "empty rendering for {tag:?} / {value:?}");
        }
    }
}
