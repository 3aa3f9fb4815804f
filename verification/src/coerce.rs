//! The type-coercion table: a total map from a column's type tag and its
//! decoded value to a display string.
//!
//! Binary and structured kinds are never rendered as data; they yield a
//! fixed sentinel naming the kind. A value that is absent, or that does
//! not match its column's tag, yields the `NULL` sentinel. Every branch
//! returns a string; no input can make the table fail.

use vstd::prelude::*;
use vstd::string::*;
use crate::values::{
    DateValue, TimeValue, DateTimeValue, DecimalValue, int_chars, date_chars, time_chars,
    datetime_chars, utc_datetime_chars, decimal_chars, uuid_chars, append_i64, append_date,
    append_time, append_datetime, append_utc_datetime, append_decimal, append_uuid,
};

verus! {

/// The scalar column kinds the table distinguishes, keyed from the
/// catalog's type object identifiers by [`tag_of_oid`].
#[derive(Clone, Copy, PartialEq, Eq, Structural, Debug)]
pub enum TypeTag {
    Bool,
    Int2,
    Int4,
    Int8,
    Float4,
    Float8,
    Numeric,
    /// Plain text, fixed and variable character, and identifier-name kinds.
    TextLike,
    Timestamp,
    TimestampTz,
    Date,
    Time,
    Uuid,
    /// JSON and JSONB, never rendered as data.
    Json,
    /// Raw byte blobs, never rendered as data.
    Bytea,
    /// Any kind the table does not list.
    Unsupported,
}

/// One decoded column value. The crate holds no floating-point numbers,
/// so a float arrives already rendered by the decoder as text.
#[derive(Clone, Debug)]
pub enum CellValue {
    /// SQL NULL, or a value the decoder could not read under its tag.
    Null,
    Bool(bool),
    Int2(i16),
    Int4(i32),
    Int8(i64),
    Float(String),
    Numeric(DecimalValue),
    Text(String),
    Timestamp(DateTimeValue),
    TimestampTz(DateTimeValue),
    Date(DateValue),
    Time(TimeValue),
    Uuid(u128),
}

/// One cell of a result row: the column's tag and the decoded value.
#[derive(Clone, Debug)]
pub struct Cell {
    pub tag: TypeTag,
    pub value: CellValue,
}

/// The tag for a catalog type object identifier.
pub open spec fn spec_tag_of_oid(oid: u32) -> TypeTag {
    if oid == 16 {
        TypeTag::Bool
    } else if oid == 21 {
        TypeTag::Int2
    } else if oid == 23 {
        TypeTag::Int4
    } else if oid == 20 {
        TypeTag::Int8
    } else if oid == 700 {
        TypeTag::Float4
    } else if oid == 701 {
        TypeTag::Float8
    } else if oid == 1700 {
        TypeTag::Numeric
    } else if oid == 25 || oid == 1043 || oid == 18 || oid == 1042 || oid == 19 {
        TypeTag::TextLike
    } else if oid == 1114 {
        TypeTag::Timestamp
    } else if oid == 1184 {
        TypeTag::TimestampTz
    } else if oid == 1082 {
        TypeTag::Date
    } else if oid == 1083 {
        TypeTag::Time
    } else if oid == 2950 {
        TypeTag::Uuid
    } else if oid == 114 || oid == 3802 {
        TypeTag::Json
    } else if oid == 17 {
        TypeTag::Bytea
    } else {
        TypeTag::Unsupported
    }
}

/// Maps a column type's object identifier to its tag: `bool` is 16,
/// `bytea` 17, `"char"` 18, `name` 19, `int8` 20, `int2` 21, `int4` 23,
/// `text` 25, `json` 114, `float4` 700, `float8` 701, `bpchar` 1042,
/// `varchar` 1043, `date` 1082, `time` 1083, `timestamp` 1114,
/// `timestamptz` 1184, `numeric` 1700, `uuid` 2950, `jsonb` 3802.
pub fn tag_of_oid(oid: u32) -> (t: TypeTag)
    ensures
        t == spec_tag_of_oid(oid),
{
    match oid {
        16 => TypeTag::Bool,
        21 => TypeTag::Int2,
        23 => TypeTag::Int4,
        20 => TypeTag::Int8,
        700 => TypeTag::Float4,
        701 => TypeTag::Float8,
        1700 => TypeTag::Numeric,
        25 | 1043 | 18 | 1042 | 19 => TypeTag::TextLike,
        1114 => TypeTag::Timestamp,
        1184 => TypeTag::TimestampTz,
        1082 => TypeTag::Date,
        1083 => TypeTag::Time,
        2950 => TypeTag::Uuid,
        114 | 3802 => TypeTag::Json,
        17 => TypeTag::Bytea,
        _ => TypeTag::Unsupported,
    }
}

/// The display string for a tag and a decoded value.
pub open spec fn spec_coerce(tag: TypeTag, cell: CellValue) -> Seq<char> {
    match tag {
        TypeTag::Json => "JSON IS NOT SUPPORTED"@,
        TypeTag::Bytea => "BYTEA IS NOT SUPPORTED"@,
        TypeTag::Unsupported => "Unsupported type"@,
        TypeTag::Bool => match cell {
            CellValue::Bool(b) => if b {
                "true"@
            } else {
                "false"@
            },
            _ => "NULL"@,
        },
        TypeTag::Int2 => match cell {
            CellValue::Int2(v) => int_chars(v as int),
            _ => "NULL"@,
        },
        TypeTag::Int4 => match cell {
            CellValue::Int4(v) => int_chars(v as int),
            _ => "NULL"@,
        },
        TypeTag::Int8 => match cell {
            CellValue::Int8(v) => int_chars(v as int),
            _ => "NULL"@,
        },
        TypeTag::Float4 => match cell {
            CellValue::Float(s) => s@,
            _ => "NULL"@,
        },
        TypeTag::Float8 => match cell {
            CellValue::Float(s) => s@,
            _ => "NULL"@,
        },
        TypeTag::Numeric => match cell {
            CellValue::Numeric(d) => decimal_chars(d.negative, d.mantissa as nat, d.scale as nat),
            _ => "NULL"@,
        },
        TypeTag::TextLike => match cell {
            CellValue::Text(s) => s@,
            _ => "NULL"@,
        },
        TypeTag::Timestamp => match cell {
            CellValue::Timestamp(dt) => datetime_chars(dt),
            _ => "NULL"@,
        },
        TypeTag::TimestampTz => match cell {
            CellValue::TimestampTz(dt) => utc_datetime_chars(dt),
            _ => "NULL"@,
        },
        TypeTag::Date => match cell {
            CellValue::Date(d) => date_chars(d.year as int, d.month as nat, d.day as nat),
            _ => "NULL"@,
        },
        TypeTag::Time => match cell {
            CellValue::Time(t) => time_chars(
                t.hour as nat,
                t.minute as nat,
                t.second as nat,
                t.nanosecond as nat,
            ),
            _ => "NULL"@,
        },
        TypeTag::Uuid => match cell {
            CellValue::Uuid(u) => uuid_chars(u),
            _ => "NULL"@,
        },
    }
}

/// Coerces one decoded value to its display string under its column's
/// tag. Total: every tag and every value yield a string.
pub fn coerce(tag: &TypeTag, cell: &CellValue) -> (r: String)
    ensures
        r@ == spec_coerce(*tag, *cell),
{
    match tag {
        TypeTag::Json => String::from_str("JSON IS NOT SUPPORTED"),
        TypeTag::Bytea => String::from_str("BYTEA IS NOT SUPPORTED"),
        TypeTag::Unsupported => String::from_str("Unsupported type"),
        TypeTag::Bool => match cell {
            CellValue::Bool(b) => if *b {
                String::from_str("true")
            } else {
                String::from_str("false")
            },
            _ => String::from_str("NULL"),
        },
        TypeTag::Int2 => match cell {
            CellValue::Int2(v) => {
                let mut s = String::new();
                append_i64(*v as i64, &mut s);
                proof {
                    assert(s@ =~= int_chars(*v as int));
                }
                s
            },
            _ => String::from_str("NULL"),
        },
        TypeTag::Int4 => match cell {
            CellValue::Int4(v) => {
                let mut s = String::new();
                append_i64(*v as i64, &mut s);
                proof {
                    assert(s@ =~= int_chars(*v as int));
                }
                s
            },
            _ => String::from_str("NULL"),
        },
        TypeTag::Int8 => match cell {
            CellValue::Int8(v) => {
                let mut s = String::new();
                append_i64(*v, &mut s);
                proof {
                    assert(s@ =~= int_chars(*v as int));
                }
                s
            },
            _ => String::from_str("NULL"),
        },
        TypeTag::Float4 => match cell {
            CellValue::Float(s) => s.clone(),
            _ => String::from_str("NULL"),
        },
        TypeTag::Float8 => match cell {
            CellValue::Float(s) => s.clone(),
            _ => String::from_str("NULL"),
        },
        TypeTag::Numeric => match cell {
            CellValue::Numeric(d) => {
                let mut s = String::new();
                append_decimal(d, &mut s);
                proof {
                    assert(s@ =~= decimal_chars(d.negative, d.mantissa as nat, d.scale as nat));
                }
                s
            },
            _ => String::from_str("NULL"),
        },
        TypeTag::TextLike => match cell {
            CellValue::Text(s) => s.clone(),
            _ => String::from_str("NULL"),
        },
        TypeTag::Timestamp => match cell {
            CellValue::Timestamp(dt) => {
                let mut s = String::new();
                append_datetime(dt, &mut s);
                proof {
                    assert(s@ =~= datetime_chars(*dt));
                }
                s
            },
            _ => String::from_str("NULL"),
        },
        TypeTag::TimestampTz => match cell {
            CellValue::TimestampTz(dt) => {
                let mut s = String::new();
                append_utc_datetime(dt, &mut s);
                proof {
                    assert(s@ =~= utc_datetime_chars(*dt));
                }
                s
            },
            _ => String::from_str("NULL"),
        },
        TypeTag::Date => match cell {
            CellValue::Date(d) => {
                let mut s = String::new();
                append_date(d, &mut s);
                proof {
                    assert(s@ =~= date_chars(d.year as int, d.month as nat, d.day as nat));
                }
                s
            },
            _ => String::from_str("NULL"),
        },
        TypeTag::Time => match cell {
            CellValue::Time(t) => {
                let mut s = String::new();
                append_time(t, &mut s);
                proof {
                    assert(s@ =~= time_chars(
                        t.hour as nat,
                        t.minute as nat,
                        t.second as nat,
                        t.nanosecond as nat,
                    ));
                }
                s
            },
            _ => String::from_str("NULL"),
        },
        TypeTag::Uuid => match cell {
            CellValue::Uuid(u) => {
                let mut s = String::new();
                append_uuid(*u, &mut s);
                proof {
                    assert(s@ =~= uuid_chars(*u));
                }
                s
            },
            _ => String::from_str("NULL"),
        },
    }
}

/// Coerces every cell of one row, in order.
pub fn coerce_row(cells: &Vec<Cell>) -> (r: Vec<String>)
    ensures
        r@.len() == cells@.len(),
        forall|j: int|
            0 <= j < cells@.len() ==> r@[j]@ == spec_coerce(cells@[j].tag, cells@[j].value),
{
    let mut r: Vec<String> = Vec::new();
    let mut i: usize = 0;
    while i < cells.len()
        invariant
            i <= cells@.len(),
            r@.len() == i,
            forall|j: int|
                0 <= j < i ==> r@[j]@ == spec_coerce(cells@[j].tag, cells@[j].value),
        decreases cells@.len() - i,
    {
        let c: &Cell = &cells[i];
        r.push(coerce(&c.tag, &c.value));
        i = i + 1;
    }
    r
}

/// Coercion is total, and the sentinels are fixed: the binary and
/// structured tags yield their documented sentinel whatever the value
/// holds, never the value itself, and a missing value yields the `NULL`
/// sentinel under every data tag.
pub proof fn lemma_coerce_sentinels(tag: TypeTag, cell: CellValue)
    ensures
        spec_coerce(TypeTag::Json, cell) == "JSON IS NOT SUPPORTED"@,
        spec_coerce(TypeTag::Bytea, cell) == "BYTEA IS NOT SUPPORTED"@,
        spec_coerce(TypeTag::Unsupported, cell) == "Unsupported type"@,
        tag != TypeTag::Json && tag != TypeTag::Bytea && tag != TypeTag::Unsupported
            ==> spec_coerce(tag, CellValue::Null) == "NULL"@,
{
}

} // verus!
