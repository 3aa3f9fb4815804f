//! Plain-value models of the column values a result row can carry, and
//! renderers that turn each model into its display string.
//!
//! The models hold what the coercion logic reads of a driver value: a date
//! as year, month and day; a decimal as sign, integer mantissa and scale;
//! a UUID as its 128-bit big-endian value. The embedding program converts
//! driver values into these models at the I/O boundary.

use vstd::prelude::*;
use vstd::string::*;
use crate::digits::{digit_char, hex_char, padded_digits, hex_digits_fixed, append_padded, append_hex_fixed, lemma_padded_digits_len};

verus! {

/// A calendar date: year, month and day, as the catalog reports them.
#[derive(Clone, Copy, Debug)]
pub struct DateValue {
    pub year: i32,
    pub month: u8,
    pub day: u8,
}

/// A time of day with nanosecond fraction. A leap second arrives already
/// folded into `second` (which may then be 60).
#[derive(Clone, Copy, Debug)]
pub struct TimeValue {
    pub hour: u8,
    pub minute: u8,
    pub second: u8,
    pub nanosecond: u32,
}

/// A timestamp: a date and a time of day.
#[derive(Clone, Copy, Debug)]
pub struct DateTimeValue {
    pub date: DateValue,
    pub time: TimeValue,
}

/// An arbitrary-precision decimal: sign, integer mantissa, and the number
/// of digits that lie to the right of the decimal point.
#[derive(Clone, Copy, Debug)]
pub struct DecimalValue {
    pub negative: bool,
    pub mantissa: u128,
    pub scale: u8,
}

/// The decimal form of a signed integer: a minus sign for negative values,
/// then the digits of the magnitude.
pub open spec fn int_chars(v: int) -> Seq<char> {
    if v < 0 {
        seq!['-'] + padded_digits((-v) as nat, 1)
    } else {
        padded_digits(v as nat, 1)
    }
}

/// A date as `YYYY-MM-DD`. Years outside 0..=9999 carry an explicit sign
/// and their magnitude is still zero-padded to four digits.
pub open spec fn date_chars(y: int, m: nat, d: nat) -> Seq<char> {
    let year_part = if 0 <= y && y <= 9999 {
        padded_digits(y as nat, 4)
    } else if y < 0 {
        seq!['-'] + padded_digits((-y) as nat, 4)
    } else {
        seq!['+'] + padded_digits(y as nat, 4)
    };
    year_part + seq!['-'] + padded_digits(m, 2) + seq!['-'] + padded_digits(d, 2)
}

/// The fractional-second suffix: empty for zero, else a point and the
/// shortest of three, six or nine digits that loses nothing.
pub open spec fn frac_chars(nano: nat) -> Seq<char> {
    if nano == 0 {
        Seq::empty()
    } else if nano % 1000000 == 0 {
        seq!['.'] + padded_digits(nano / 1000000, 3)
    } else if nano % 1000 == 0 {
        seq!['.'] + padded_digits(nano / 1000, 6)
    } else {
        seq!['.'] + padded_digits(nano, 9)
    }
}

/// A time of day as `HH:MM:SS` with the fractional suffix.
pub open spec fn time_chars(h: nat, mi: nat, s: nat, nano: nat) -> Seq<char> {
    padded_digits(h, 2) + seq![':'] + padded_digits(mi, 2) + seq![':'] + padded_digits(s, 2)
        + frac_chars(nano)
}

/// A timestamp as the date, a space, and the time.
pub open spec fn datetime_chars(dt: DateTimeValue) -> Seq<char> {
    date_chars(dt.date.year as int, dt.date.month as nat, dt.date.day as nat) + seq![' ']
        + time_chars(
        dt.time.hour as nat,
        dt.time.minute as nat,
        dt.time.second as nat,
        dt.time.nanosecond as nat,
    )
}

/// A timestamp with time zone, rendered in UTC.
pub open spec fn utc_datetime_chars(dt: DateTimeValue) -> Seq<char> {
    datetime_chars(dt) + seq![' ', 'U', 'T', 'C']
}

/// A decimal as its sign, then the mantissa digits with the point inserted
/// `scale` places from the right; the whole part keeps at least one digit.
pub open spec fn decimal_chars(negative: bool, mantissa: nat, scale: nat) -> Seq<char> {
    let ds = padded_digits(mantissa, scale + 1);
    let sign_part = if negative {
        seq!['-']
    } else {
        Seq::<char>::empty()
    };
    if scale == 0 {
        sign_part + ds
    } else {
        sign_part + ds.subrange(0, ds.len() - scale) + seq!['.'] + ds.subrange(
            ds.len() - scale,
            ds.len() as int,
        )
    }
}

/// A UUID in hyphenated lower-case form, five groups of 8, 4, 4, 4 and 12
/// hexadecimal digits of the 128-bit big-endian value.
pub open spec fn uuid_chars(u: u128) -> Seq<char> {
    hex_digits_fixed((u >> 96) as nat, 8) + seq!['-'] + hex_digits_fixed((u >> 80) as nat, 4)
        + seq!['-'] + hex_digits_fixed((u >> 64) as nat, 4) + seq!['-'] + hex_digits_fixed(
        (u >> 48) as nat,
        4,
    ) + seq!['-'] + hex_digits_fixed(u as nat, 12)
}

/// Appends the decimal form of a signed 64-bit integer.
pub fn append_i64(v: i64, out: &mut String)
    ensures
        final(out)@ == old(out)@ + int_chars(v as int),
{
    if v < 0 {
        proof {
            reveal_strlit("-");
        }
        out.append("-");
        let magnitude: u128 = (-(v as i128)) as u128;
        append_padded(magnitude, 1, out);
        proof {
            assert(out@ =~= old(out)@ + int_chars(v as int));
        }
    } else {
        append_padded(v as u128, 1, out);
    }
}

/// Appends a date as `YYYY-MM-DD`.
pub fn append_date(dv: &DateValue, out: &mut String)
    ensures
        final(out)@ == old(out)@ + date_chars(dv.year as int, dv.month as nat, dv.day as nat),
{
    proof {
        reveal_strlit("-");
        reveal_strlit("+");
    }
    if 0 <= dv.year && dv.year <= 9999 {
        append_padded(dv.year as u128, 4, out);
    } else if dv.year < 0 {
        out.append("-");
        let magnitude: u128 = (-(dv.year as i64)) as u128;
        append_padded(magnitude, 4, out);
    } else {
        out.append("+");
        append_padded(dv.year as u128, 4, out);
    }
    out.append("-");
    append_padded(dv.month as u128, 2, out);
    out.append("-");
    append_padded(dv.day as u128, 2, out);
    proof {
        assert(out@ =~= old(out)@ + date_chars(dv.year as int, dv.month as nat, dv.day as nat));
    }
}

/// Appends a time of day as `HH:MM:SS` with the fractional suffix.
pub fn append_time(tv: &TimeValue, out: &mut String)
    ensures
        final(out)@ == old(out)@ + time_chars(
            tv.hour as nat,
            tv.minute as nat,
            tv.second as nat,
            tv.nanosecond as nat,
        ),
{
    proof {
        reveal_strlit(":");
        reveal_strlit(".");
    }
    append_padded(tv.hour as u128, 2, out);
    out.append(":");
    append_padded(tv.minute as u128, 2, out);
    out.append(":");
    append_padded(tv.second as u128, 2, out);
    let nano = tv.nanosecond;
    if nano == 0 {
    } else if nano % 1000000 == 0 {
        out.append(".");
        append_padded((nano / 1000000) as u128, 3, out);
    } else if nano % 1000 == 0 {
        out.append(".");
        append_padded((nano / 1000) as u128, 6, out);
    } else {
        out.append(".");
        append_padded(nano as u128, 9, out);
    }
    proof {
        assert(out@ =~= old(out)@ + time_chars(
            tv.hour as nat,
            tv.minute as nat,
            tv.second as nat,
            tv.nanosecond as nat,
        ));
    }
}

/// Appends a timestamp as the date, a space, and the time.
pub fn append_datetime(dt: &DateTimeValue, out: &mut String)
    ensures
        final(out)@ == old(out)@ + datetime_chars(*dt),
{
    proof {
        reveal_strlit(" ");
    }
    append_date(&dt.date, out);
    out.append(" ");
    append_time(&dt.time, out);
    proof {
        assert(out@ =~= old(out)@ + datetime_chars(*dt));
    }
}

/// Appends a timestamp with time zone, rendered in UTC.
pub fn append_utc_datetime(dt: &DateTimeValue, out: &mut String)
    ensures
        final(out)@ == old(out)@ + utc_datetime_chars(*dt),
{
    proof {
        reveal_strlit(" UTC");
    }
    append_datetime(dt, out);
    out.append(" UTC");
    proof {
        assert(out@ =~= old(out)@ + utc_datetime_chars(*dt));
    }
}

/// Appends a decimal as sign, whole digits, point and fraction digits.
pub fn append_decimal(v: &DecimalValue, out: &mut String)
    ensures
        final(out)@ == old(out)@ + decimal_chars(v.negative, v.mantissa as nat, v.scale as nat),
{
    proof {
        reveal_strlit("-");
        reveal_strlit(".");
    }
    if v.negative {
        out.append("-");
    }
    if v.scale == 0 {
        append_padded(v.mantissa, 1, out);
        proof {
            assert(out@ =~= old(out)@ + decimal_chars(
                v.negative,
                v.mantissa as nat,
                v.scale as nat,
            ));
        }
    } else {
        let width: usize = v.scale as usize + 1;
        let mut ds = String::new();
        append_padded(v.mantissa, width, &mut ds);
        proof {
            lemma_padded_digits_len(v.mantissa as nat, width as nat);
        }
        let n = ds.as_str().unicode_len();
        let split: usize = n - v.scale as usize;
        let whole = ds.as_str().substring_char(0, split);
        out.append(whole);
        out.append(".");
        let frac = ds.as_str().substring_char(split, n);
        out.append(frac);
        proof {
            assert(out@ =~= old(out)@ + decimal_chars(
                v.negative,
                v.mantissa as nat,
                v.scale as nat,
            ));
        }
    }
}

/// Appends a UUID in hyphenated lower-case form.
pub fn append_uuid(u: u128, out: &mut String)
    ensures
        final(out)@ == old(out)@ + uuid_chars(u),
{
    proof {
        reveal_strlit("-");
    }
    append_hex_fixed(u >> 96, 8, out);
    out.append("-");
    append_hex_fixed(u >> 80, 4, out);
    out.append("-");
    append_hex_fixed(u >> 64, 4, out);
    out.append("-");
    append_hex_fixed(u >> 48, 4, out);
    out.append("-");
    append_hex_fixed(u, 12, out);
    proof {
        assert(out@ =~= old(out)@ + uuid_chars(u));
    }
}

} // verus!
