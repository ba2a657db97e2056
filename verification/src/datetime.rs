//! Date-time values as plain components.
//!
//! The runtime stores timestamps as their calendar and clock
//! components, so that equality and rendering are fully specified.
//! Parsing RFC 3339 text is delegated to the `time` crate behind
//! trusted wrappers; rendering is implemented and verified here.

use crate::text::{padded_dec_seq, u64_to_padded_dec};
use vstd::prelude::*;
use vstd::string::StringExecFns;

verus! {

/// A date and time of day without a zone offset, by components.
#[derive(Clone, Copy, PartialEq, Eq, Structural, Debug)]
pub struct PrimitiveDateTime {
    pub year: i32,
    pub month: u8,
    pub day: u8,
    pub hour: u8,
    pub minute: u8,
    pub second: u8,
    pub nanosecond: u32,
}

/// A date and time of day together with a zone offset in seconds.
#[derive(Clone, Copy, PartialEq, Eq, Structural, Debug)]
pub struct OffsetDateTime {
    pub year: i32,
    pub month: u8,
    pub day: u8,
    pub hour: u8,
    pub minute: u8,
    pub second: u8,
    pub nanosecond: u32,
    pub offset_seconds: i32,
}

impl PrimitiveDateTime {
    /// Component ranges, as the `time` crate documents them.
    pub open spec fn wf(self) -> bool {
        &&& -9999 <= self.year <= 9999
        &&& 1 <= self.month <= 12
        &&& 1 <= self.day <= 31
        &&& self.hour < 24
        &&& self.minute < 60
        &&& self.second < 60
        &&& self.nanosecond < 1_000_000_000
    }
}

impl OffsetDateTime {
    /// Component ranges, offset included (at most a day in seconds).
    pub open spec fn wf(self) -> bool {
        &&& -9999 <= self.year <= 9999
        &&& 1 <= self.month <= 12
        &&& 1 <= self.day <= 31
        &&& self.hour < 24
        &&& self.minute < 60
        &&& self.second < 60
        &&& self.nanosecond < 1_000_000_000
        &&& -86_399 <= self.offset_seconds <= 86_399
    }

    /// The primitive part, without the offset.
    pub open spec fn spec_date_time(self) -> PrimitiveDateTime {
        PrimitiveDateTime {
            year: self.year,
            month: self.month,
            day: self.day,
            hour: self.hour,
            minute: self.minute,
            second: self.second,
            nanosecond: self.nanosecond,
        }
    }
}

/// The rendered year: four zero-padded digits, a minus sign in front
/// for negative years.
pub open spec fn year_seq(year: i32) -> Seq<char> {
    if year < 0 {
        seq!['-'] + padded_dec_seq((-(year as int)) as nat, 4)
    } else {
        padded_dec_seq(year as nat, 4)
    }
}

/// The fractional-second suffix: empty when there are no nanoseconds,
/// otherwise a dot and nine zero-padded digits.
pub open spec fn fraction_seq(nanosecond: u32) -> Seq<char> {
    if nanosecond == 0 {
        Seq::<char>::empty()
    } else {
        seq!['.'] + padded_dec_seq(nanosecond as nat, 9)
    }
}

/// The rendering of a date-time without offset, in the style of
/// RFC 3339: `year-month-dayThour:minute:second` plus the fraction.
pub open spec fn primitive_date_time_seq(dt: PrimitiveDateTime) -> Seq<char> {
    year_seq(dt.year) + seq!['-'] + padded_dec_seq(dt.month as nat, 2) + seq!['-'] + padded_dec_seq(
        dt.day as nat,
        2,
    ) + seq!['T'] + padded_dec_seq(dt.hour as nat, 2) + seq![':'] + padded_dec_seq(
        dt.minute as nat,
        2,
    ) + seq![':'] + padded_dec_seq(dt.second as nat, 2) + fraction_seq(dt.nanosecond)
}

/// The rendered zone offset: `Z` for zero, otherwise a sign and
/// zero-padded hours and minutes (offset seconds beyond whole
/// minutes are not rendered).
pub open spec fn offset_suffix_seq(offset_seconds: i32) -> Seq<char> {
    if offset_seconds == 0 {
        seq!['Z']
    } else {
        let mag = if offset_seconds < 0 {
            (-(offset_seconds as int)) as nat
        } else {
            offset_seconds as nat
        };
        let sign = if offset_seconds < 0 {
            seq!['-']
        } else {
            seq!['+']
        };
        sign + padded_dec_seq(mag / 3600, 2) + seq![':'] + padded_dec_seq((mag % 3600) / 60, 2)
    }
}

/// The rendering of an offset date-time: the primitive part followed
/// by the offset suffix.
pub open spec fn offset_date_time_seq(dt: OffsetDateTime) -> Seq<char> {
    primitive_date_time_seq(dt.spec_date_time()) + offset_suffix_seq(dt.offset_seconds)
}

/// Renders a date-time without offset as `primitive_date_time_seq` says.
pub fn format_primitive_date_time(dt: &PrimitiveDateTime) -> (r: String)
    ensures
        r@ == primitive_date_time_seq(*dt),
{
    let mut s: String;
    if dt.year < 0 {
        s = String::from_str("-");
        let mag_wide: i64 = -(dt.year as i64);
        s.append(u64_to_padded_dec(mag_wide as u64, 4).as_str());
        proof {
            reveal_strlit("-");
            assert(s@ =~= year_seq(dt.year));
        }
    } else {
        s = u64_to_padded_dec(dt.year as u64, 4);
    }
    s.append("-");
    s.append(u64_to_padded_dec(dt.month as u64, 2).as_str());
    s.append("-");
    s.append(u64_to_padded_dec(dt.day as u64, 2).as_str());
    s.append("T");
    s.append(u64_to_padded_dec(dt.hour as u64, 2).as_str());
    s.append(":");
    s.append(u64_to_padded_dec(dt.minute as u64, 2).as_str());
    s.append(":");
    s.append(u64_to_padded_dec(dt.second as u64, 2).as_str());
    if dt.nanosecond != 0 {
        s.append(".");
        s.append(u64_to_padded_dec(dt.nanosecond as u64, 9).as_str());
    }
    proof {
        reveal_strlit("-");
        reveal_strlit("T");
        reveal_strlit(":");
        reveal_strlit(".");
        assert(s@ =~= primitive_date_time_seq(*dt));
    }
    s
}

/// Renders an offset date-time as `offset_date_time_seq` says.
pub fn format_offset_date_time(dt: &OffsetDateTime) -> (r: String)
    requires
        dt.wf(),
    ensures
        r@ == offset_date_time_seq(*dt),
{
    let primitive = PrimitiveDateTime {
        year: dt.year,
        month: dt.month,
        day: dt.day,
        hour: dt.hour,
        minute: dt.minute,
        second: dt.second,
        nanosecond: dt.nanosecond,
    };
    let mut s = format_primitive_date_time(&primitive);
    if dt.offset_seconds == 0 {
        s.append("Z");
        proof {
            reveal_strlit("Z");
            assert(s@ =~= offset_date_time_seq(*dt));
        }
    } else {
        let mag: u32 = if dt.offset_seconds < 0 {
            (-(dt.offset_seconds as i64)) as u32
        } else {
            dt.offset_seconds as u32
        };
        if dt.offset_seconds < 0 {
            s.append("-");
        } else {
            s.append("+");
        }
        s.append(u64_to_padded_dec((mag / 3600) as u64, 2).as_str());
        s.append(":");
        s.append(u64_to_padded_dec(((mag % 3600) / 60) as u64, 2).as_str());
        proof {
            reveal_strlit("-");
            reveal_strlit("+");
            reveal_strlit(":");
            assert(s@ =~= offset_date_time_seq(*dt));
        }
    }
    s
}

/// What the `time` crate's RFC 3339 parser yields for a date-time
/// without offset: a function of the input text alone.
pub uninterp spec fn rfc3339_primitive_of(s: Seq<char>) -> Option<PrimitiveDateTime>;

/// What the `time` crate's RFC 3339 parser yields for an offset
/// date-time: a function of the input text alone.
pub uninterp spec fn rfc3339_offset_of(s: Seq<char>) -> Option<OffsetDateTime>;

/// Relies on `time::PlainDateTime::parse` with the well-known RFC 3339
/// format, and on the documented ranges of the component accessors
/// `year`, `month`, `day`, `hour`, `minute`, `second` and `nanosecond`,
/// which the result's fields are read from.
#[verifier::external_body]
pub fn parse_primitive_rfc3339(s: &str) -> (r: Option<PrimitiveDateTime>)
    ensures
        r == rfc3339_primitive_of(s@),
        r matches Some(dt) ==> dt.wf(),
{
    match time::PrimitiveDateTime::parse(s, &time::format_description::well_known::Rfc3339) {
        Ok(dt) => Some(PrimitiveDateTime {
            year: dt.year(),
            month: dt.month() as u8,
            day: dt.day(),
            hour: dt.hour(),
            minute: dt.minute(),
            second: dt.second(),
            nanosecond: dt.nanosecond(),
        }),
        Err(_) => None,
    }
}

/// Relies on `time::OffsetDateTime::parse` with the well-known RFC 3339
/// format, on the documented component ranges as above, and on
/// `UtcOffset::whole_seconds`; RFC 3339 offsets stay within a day.
#[verifier::external_body]
pub fn parse_offset_rfc3339(s: &str) -> (r: Option<OffsetDateTime>)
    ensures
        r == rfc3339_offset_of(s@),
        r matches Some(dt) ==> dt.wf(),
{
    match time::OffsetDateTime::parse(s, &time::format_description::well_known::Rfc3339) {
        Ok(dt) => Some(OffsetDateTime {
            year: dt.year(),
            month: dt.month() as u8,
            day: dt.day(),
            hour: dt.hour(),
            minute: dt.minute(),
            second: dt.second(),
            nanosecond: dt.nanosecond(),
            offset_seconds: dt.offset().whole_seconds(),
        }),
        Err(_) => None,
    }
}

} // verus!
