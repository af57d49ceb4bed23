//! Wall-clock readings, the timestamp carried by log records, and the
//! RFC 3339 rendering of a reading.
//!
//! The clock itself is read through `chrono`; everything computed from a
//! reading (clamping, zero-padded date and time fields, the RFC 3339 string)
//! is verified here.
use crate::text::{digit_char, pad2, pad2_digits, pad4, pad4_digits};
use chrono::{Datelike, Timelike};
use vstd::prelude::*;
use vstd::string::StringExecFns;

verus! {

/// One reading of the local wall clock, as plain values: calendar date,
/// time of day, and the local offset from UTC in seconds.
pub struct ClockReading {
    pub year: i32,
    pub month: u32,
    pub day: u32,
    pub hour: u32,
    pub minute: u32,
    pub second: u32,
    pub offset_seconds: i32,
}

/// The component ranges every clock reading satisfies.
pub open spec fn clock_wf(c: ClockReading) -> bool {
    &&& 1 <= c.month <= 12
    &&& 1 <= c.day <= 31
    &&& c.hour <= 23
    &&& c.minute <= 59
    &&& c.second <= 59
    &&& -86400 < c.offset_seconds < 86400
}

/// Relies on `chrono::Local::now` and the components it documents:
/// `Datelike::month` ranges over 1..=12 and `Datelike::day` over 1..=31;
/// `Timelike::hour`, `minute` and `second` range over 0..=23 and 0..=59;
/// a `chrono::FixedOffset` holds strictly between -86,400 and 86,400
/// seconds.
#[verifier::external_body]
pub(crate) fn now_clock() -> (c: ClockReading)
    ensures
        clock_wf(c),
{
    let now = chrono::Local::now();
    ClockReading {
        year: now.year(),
        month: now.month(),
        day: now.day(),
        hour: now.hour(),
        minute: now.minute(),
        second: now.second(),
        offset_seconds: now.offset().local_minus_utc(),
    }
}

/// The timestamp a log record carries: a calendar date and a time of day,
/// with the year held to the four digits the rendered formats use.
#[derive(Clone, Copy, Debug, PartialEq, Eq, Structural)]
pub struct Timestamp {
    pub year: u16,
    pub month: u8,
    pub day: u8,
    pub hour: u8,
    pub minute: u8,
    pub second: u8,
}

impl Timestamp {
    /// The component ranges of a well-formed timestamp.
    pub open spec fn wf(self) -> bool {
        &&& self.year <= 9999
        &&& 1 <= self.month <= 12
        &&& 1 <= self.day <= 31
        &&& self.hour <= 23
        &&& self.minute <= 59
        &&& self.second <= 59
    }

    /// The timestamp of a clock reading: the same components, with the year
    /// saturated into the four-digit range of the rendered formats.
    pub fn from_clock(c: &ClockReading) -> (t: Timestamp)
        requires
            clock_wf(*c),
        ensures
            t.wf(),
            t.year as int == clamp_year(c.year as int),
            t.month as int == c.month as int,
            t.day as int == c.day as int,
            t.hour as int == c.hour as int,
            t.minute as int == c.minute as int,
            t.second as int == c.second as int,
    {
        let year: u16 = if c.year < 0 {
            0
        } else if c.year > 9999 {
            9999
        } else {
            c.year as u16
        };
        Timestamp {
            year,
            month: c.month as u8,
            day: c.day as u8,
            hour: c.hour as u8,
            minute: c.minute as u8,
            second: c.second as u8,
        }
    }
}

/// A year saturated into the four-digit range 0..=9999.
pub open spec fn clamp_year(y: int) -> int {
    if y < 0 {
        0
    } else if y > 9999 {
        9999
    } else {
        y
    }
}

/// The sign character of a UTC offset.
pub open spec fn offset_sign(off: int) -> Seq<char> {
    if off < 0 {
        "-"@
    } else {
        "+"@
    }
}

/// The RFC 3339 rendering of a timestamp with a UTC offset in seconds:
/// `YYYY-MM-DDTHH:MM:SS` followed by the signed offset as `hh:mm`.
pub open spec fn rfc3339_of(t: Timestamp, off: int) -> Seq<char> {
    let a = if off < 0 {
        -off
    } else {
        off
    };
    pad4_digits(t.year as nat) + "-"@ + pad2_digits(t.month as nat) + "-"@ + pad2_digits(
        t.day as nat,
    ) + "T"@ + pad2_digits(t.hour as nat) + ":"@ + pad2_digits(t.minute as nat) + ":"@
        + pad2_digits(t.second as nat) + offset_sign(off) + pad2_digits((a / 3600) as nat) + ":"@
        + pad2_digits((a % 3600 / 60) as nat)
}

/// The RFC 3339 string of a timestamp and offset.
pub fn rfc3339_string(t: &Timestamp, offset_seconds: i32) -> (s: String)
    requires
        t.wf(),
        -86400 < offset_seconds < 86400,
    ensures
        s@ == rfc3339_of(*t, offset_seconds as int),
{
    let a: i32 = if offset_seconds < 0 {
        -offset_seconds
    } else {
        offset_seconds
    };
    let mut s = pad4(t.year);
    s.append("-");
    s.append(pad2(t.month).as_str());
    s.append("-");
    s.append(pad2(t.day).as_str());
    s.append("T");
    s.append(pad2(t.hour).as_str());
    s.append(":");
    s.append(pad2(t.minute).as_str());
    s.append(":");
    s.append(pad2(t.second).as_str());
    s.append(if offset_seconds < 0 {
        "-"
    } else {
        "+"
    });
    s.append(pad2((a / 3600) as u8).as_str());
    s.append(":");
    s.append(pad2((a % 3600 / 60) as u8).as_str());
    proof {
        assert(s@ =~= rfc3339_of(*t, offset_seconds as int));
    }
    s
}

/// A decimal digit character.
pub open spec fn is_dec_digit(c: char) -> bool {
    '0' <= c && c <= '9'
}

/// The value of the two decimal digits of `s` at positions `i` and `i + 1`.
pub open spec fn two_digits_val(s: Seq<char>, i: int) -> int {
    (s[i] as int - 48) * 10 + (s[i + 1] as int - 48)
}

/// An RFC 3339 date-time in the shape this crate produces: a four-digit
/// date, a two-digit time of day, and a signed numeric `hh:mm` offset, with
/// every component inside its calendar range.
pub open spec fn is_rfc3339_datetime(s: Seq<char>) -> bool {
    &&& s.len() == 25
    &&& is_dec_digit(s[0]) && is_dec_digit(s[1]) && is_dec_digit(s[2]) && is_dec_digit(s[3])
    &&& s[4] == '-' && is_dec_digit(s[5]) && is_dec_digit(s[6])
    &&& s[7] == '-' && is_dec_digit(s[8]) && is_dec_digit(s[9])
    &&& s[10] == 'T' && is_dec_digit(s[11]) && is_dec_digit(s[12])
    &&& s[13] == ':' && is_dec_digit(s[14]) && is_dec_digit(s[15])
    &&& s[16] == ':' && is_dec_digit(s[17]) && is_dec_digit(s[18])
    &&& (s[19] == '+' || s[19] == '-')
    &&& is_dec_digit(s[20]) && is_dec_digit(s[21])
    &&& s[22] == ':' && is_dec_digit(s[23]) && is_dec_digit(s[24])
    &&& 1 <= two_digits_val(s, 5) <= 12
    &&& 1 <= two_digits_val(s, 8) <= 31
    &&& two_digits_val(s, 11) <= 23
    &&& two_digits_val(s, 14) <= 59
    &&& two_digits_val(s, 17) <= 59
    &&& two_digits_val(s, 20) <= 23
    &&& two_digits_val(s, 23) <= 59
}

/// A digit character is a digit and encodes its value.
proof fn lemma_digit_char(d: nat)
    requires
        d < 10,
    ensures
        is_dec_digit(digit_char(d)),
        digit_char(d) as int == 48 + d,
{
}

/// The RFC 3339 rendering of any well-formed timestamp with any in-range
/// offset is a valid RFC 3339 date-time.
pub proof fn lemma_rfc3339_of_valid(t: Timestamp, off: int)
    requires
        t.wf(),
        -86400 < off < 86400,
    ensures
        is_rfc3339_datetime(rfc3339_of(t, off)),
{
    reveal_strlit("-");
    reveal_strlit("+");
    reveal_strlit("T");
    reveal_strlit(":");
    let a = if off < 0 {
        -off
    } else {
        off
    };
    let y = t.year as nat;
    let mo = t.month as nat;
    let d = t.day as nat;
    let h = t.hour as nat;
    let mi = t.minute as nat;
    let se = t.second as nat;
    let oh = (a / 3600) as nat;
    let om = (a % 3600 / 60) as nat;
    let sign = if off < 0 {
        '-'
    } else {
        '+'
    };
    let s = rfc3339_of(t, off);
    assert(s =~= seq![
        digit_char(y / 1000 % 10),
        digit_char(y / 100 % 10),
        digit_char(y / 10 % 10),
        digit_char(y % 10),
        '-',
        digit_char(mo / 10 % 10),
        digit_char(mo % 10),
        '-',
        digit_char(d / 10 % 10),
        digit_char(d % 10),
        'T',
        digit_char(h / 10 % 10),
        digit_char(h % 10),
        ':',
        digit_char(mi / 10 % 10),
        digit_char(mi % 10),
        ':',
        digit_char(se / 10 % 10),
        digit_char(se % 10),
        sign,
        digit_char(oh / 10 % 10),
        digit_char(oh % 10),
        ':',
        digit_char(om / 10 % 10),
        digit_char(om % 10),
    ]);
    assert forall|x: nat| x < 10 implies is_dec_digit(digit_char(x)) && digit_char(x) as int == 48
        + x by {
        lemma_digit_char(x);
    }
    assert(oh <= 23);
    assert(om <= 59);
    assert(two_digits_val(s, 5) == mo);
    assert(two_digits_val(s, 8) == d);
    assert(two_digits_val(s, 11) == h);
    assert(two_digits_val(s, 14) == mi);
    assert(two_digits_val(s, 17) == se);
    assert(two_digits_val(s, 20) == oh);
    assert(two_digits_val(s, 23) == om);
}

} // verus!
