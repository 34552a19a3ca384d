//! The responses that carry a time or a position: how their text is read.
use crate::storage::FmlGnssRawData;
use crate::text::{
    digit_value, field, has_at, run_end, spec_digit_value, spec_field, spec_has_at, spec_is_digit,
    spec_run_end,
};
use crate::urc::ParseError;
use vstd::prelude::*;
use vstd::slice::slice_subrange;
use vstd::string::StringSliceAdditionalSpecFns;

verus! {

/// What `chrono` gives as the seconds since the epoch of a date and a time
/// of day, taken as UTC; `None` where it refuses the date or the time.
pub uninterp spec fn utc_timestamp_result(
    year: i32,
    month: u32,
    day: u32,
    hour: u32,
    min: u32,
    sec: u32,
) -> Option<i64>;

/// Calls `chrono::NaiveDate::from_ymd_opt`, `NaiveDate::and_hms_opt`,
/// `NaiveDateTime::and_utc` and `DateTime::timestamp`: the seconds since the
/// epoch of the date and time, or `None` where one of the first two refuses
/// its arguments.
#[verifier::external_body]
fn utc_timestamp(year: i32, month: u32, day: u32, hour: u32, min: u32, sec: u32) -> (r: Option<i64>)
    ensures
        r == utc_timestamp_result(year, month, day, hour, min, sec),
{
    match chrono::NaiveDate::from_ymd_opt(year, month, day) {
        Some(date) => match date.and_hms_opt(hour, min, sec) {
            Some(time) => Some(time.and_utc().timestamp()),
            None => None,
        },
        None => None,
    }
}

/// A number of exactly `width` decimal digits at `at`.
pub open spec fn spec_fixed(s: Seq<u8>, at: int, width: int) -> Option<nat> {
    if 0 <= at && 0 < width && at + width <= s.len() && spec_run_end(
        s.subrange(at, at + width),
        0,
        false,
    ) == width {
        spec_field(s.subrange(at, at + width), 0, false, 0xFFFF_FFFF)
    } else {
        None
    }
}

/// Reads a number of exactly `width` decimal digits at `at`.
pub fn fixed(buf: &[u8], at: usize, width: usize) -> (r: Option<u32>)
    ensures
        r is Some == spec_fixed(buf@, at as int, width as int) is Some,
        r is Some ==> r->0 as nat == spec_fixed(buf@, at as int, width as int)->0,
{
    if width == 0 || at > buf.len() || buf.len() - at < width {
        return None;
    }
    let part = slice_subrange(buf, at, at + width);
    if run_end(part, 0, false) != width {
        return None;
    }
    field(part, 0, false, 0xFFFF_FFFF)
}

/// Where the field that starts at `from` ends: at the next `stop` byte or at the end.
pub open spec fn spec_field_end(s: Seq<u8>, from: int, stop: u8) -> int
    decreases s.len() - from,
{
    if 0 <= from < s.len() && s[from] != stop {
        spec_field_end(s, from + 1, stop)
    } else {
        from
    }
}

/// Finds where the field that starts at `from` ends.
pub fn field_end(buf: &[u8], from: usize, stop: u8) -> (r: usize)
    ensures
        r == spec_field_end(buf@, from as int, stop),
        from <= r,
        from <= buf@.len() ==> r <= buf@.len(),
{
    if from > buf.len() {
        return from;
    }
    let mut i: usize = from;
    while i < buf.len() && buf[i] != stop
        invariant
            from <= i <= buf@.len(),
            spec_field_end(buf@, from as int, stop) == spec_field_end(buf@, i as int, stop),
        decreases buf@.len() - i,
    {
        i += 1;
    }
    i
}

/// A calendar date and a time of day.
#[derive(Debug, Clone, Copy, PartialEq, Eq, Structural)]
pub struct Clock {
    pub year: i32,
    pub month: u32,
    pub day: u32,
    pub hour: u32,
    pub min: u32,
    pub sec: u32,
}

/// Whether the parts lie in the ranges of a date and a time: months 1 to 12,
/// days 1 to 31, hours below 24, minutes and seconds below 60.
pub open spec fn spec_in_range(c: Clock) -> bool {
    1 <= c.month <= 12 && 1 <= c.day <= 31 && c.hour < 24 && c.min < 60 && c.sec < 60
}

/// The seconds since the epoch that a date and time stand for, where their
/// parts are in range and the calendar has the day.
pub open spec fn spec_stamp(c: Clock) -> Option<i64> {
    if spec_in_range(c) {
        utc_timestamp_result(c.year, c.month, c.day, c.hour, c.min, c.sec)
    } else {
        None
    }
}

/// The seconds since the epoch that a date and time stand for.
pub fn stamp(c: &Clock) -> (r: Option<i64>)
    ensures
        r == spec_stamp(*c),
{
    if 1 <= c.month && c.month <= 12 && 1 <= c.day && c.day <= 31 && c.hour < 24 && c.min < 60
        && c.sec < 60 {
        utc_timestamp(c.year, c.month, c.day, c.hour, c.min, c.sec)
    } else {
        None
    }
}

/// The network time response, `+QLTS: "yyyy/MM/dd,hh:mm:ss+zz,d"`: the date
/// stands between the opening quote and the first comma as four, two and two
/// digits with one separator each; the time follows the comma as three
/// times two digits with one separator each; the zone runs up to the next
/// comma and is not read; a daylight-saving number of at most 255 must follow.
pub open spec fn spec_qlts_clock(s: Seq<u8>) -> Option<Clock> {
    let head = "+QLTS: \"".spec_bytes();
    let d = head.len() as int;
    let comma = spec_field_end(s, d, 0x2C);
    let t = comma + 1;
    let zone_end = spec_field_end(s, t + 8, 0x2C);
    let dst_end = spec_field_end(s, zone_end + 1, 0x22);
    if spec_has_at(s, 0, head) && comma < s.len() && t + 8 <= s.len() && zone_end < s.len()
        && dst_end < s.len() && spec_field(s, zone_end + 1, false, 255) is Some && comma - d >= 10
        && spec_fixed(s, d, 4) is Some && spec_fixed(s, d + 5, 2) is Some && spec_fixed(
        s,
        d + 8,
        2,
    ) is Some && spec_fixed(s, t, 2) is Some && spec_fixed(s, t + 3, 2) is Some && spec_fixed(
        s,
        t + 6,
        2,
    ) is Some {
        Some(
            Clock {
                year: spec_fixed(s, d, 4)->0 as i32,
                month: spec_fixed(s, d + 5, 2)->0 as u32,
                day: spec_fixed(s, d + 8, 2)->0 as u32,
                hour: spec_fixed(s, t, 2)->0 as u32,
                min: spec_fixed(s, t + 3, 2)->0 as u32,
                sec: spec_fixed(s, t + 6, 2)->0 as u32,
            },
        )
    } else {
        None
    }
}

/// The time that a network time response carries, in seconds since the epoch.
pub open spec fn spec_parse_qlts(s: Seq<u8>) -> Result<i64, ParseError> {
    match spec_qlts_clock(s) {
        Some(c) => match spec_stamp(c) {
            Some(utc) => Ok(utc),
            None => Err(ParseError::NoMatch),
        },
        None => Err(ParseError::NoMatch),
    }
}

/// Reads the date and time of a network time response.
pub fn qlts_clock(buf: &[u8]) -> (r: Option<Clock>)
    ensures
        r == spec_qlts_clock(buf@),
{
    let head = "+QLTS: \"".as_bytes();
    if !has_at(buf, 0, head) {
        return None;
    }
    let total: usize = buf.len();
    let d: usize = head.len();
    let comma: usize = field_end(buf, d, 0x2C);
    if comma >= total || total - comma < 9 || comma - d < 10 {
        return None;
    }
    let t: usize = comma + 1;
    let zone_end: usize = field_end(buf, t + 8, 0x2C);
    if zone_end >= total {
        return None;
    }
    let dst_end: usize = field_end(buf, zone_end + 1, 0x22);
    if dst_end >= total || field(buf, zone_end + 1, false, 255).is_none() {
        return None;
    }
    match (
        fixed(buf, d, 4),
        fixed(buf, d + 5, 2),
        fixed(buf, d + 8, 2),
        fixed(buf, t, 2),
        fixed(buf, t + 3, 2),
        fixed(buf, t + 6, 2),
    ) {
        (Some(year), Some(month), Some(day), Some(hour), Some(min), Some(sec)) => {
            if year > 0x7FFF_FFFF {
                proof {
                    lemma_fixed_is_small(buf@, d as int, 4);
                }
                None
            } else {
                Some(Clock { year: year as i32, month, day, hour, min, sec })
            }
        },
        _ => None,
    }
}

/// Decodes a network time response into seconds since the epoch, UTC.
pub fn parse_qlts(buf: &[u8]) -> (r: Result<i64, ParseError>)
    ensures
        r == spec_parse_qlts(buf@),
{
    match qlts_clock(buf) {
        Some(c) => match stamp(&c) {
            Some(utc) => Ok(utc),
            None => Err(ParseError::NoMatch),
        },
        None => Err(ParseError::NoMatch),
    }
}

/// A number of `width` digits is below 10 to the power of `width`.
pub proof fn lemma_number_is_small(s: Seq<u8>)
    requires
        forall|i: int| 0 <= i < s.len() ==> spec_is_digit(#[trigger] s[i]),
        s.len() <= 4,
    ensures
        crate::text::spec_number(s, 10) < 10_000,
        s.len() <= 3 ==> crate::text::spec_number(s, 10) < 1_000,
        s.len() <= 2 ==> crate::text::spec_number(s, 10) < 100,
        s.len() <= 1 ==> crate::text::spec_number(s, 10) < 10,
        s.len() == 0 ==> crate::text::spec_number(s, 10) == 0,
    decreases s.len(),
{
    if s.len() > 0 {
        lemma_number_is_small(s.drop_last());
        assert(spec_is_digit(s.last()));
    }
}

/// In a run of digits every byte is a digit.
pub proof fn lemma_run_is_digits(s: Seq<u8>, from: int, i: int)
    requires
        0 <= from <= i < spec_run_end(s, from, false),
    ensures
        spec_is_digit(s[i]),
        i < s.len(),
    decreases s.len() - from,
{
    if from < s.len() && spec_is_digit(s[from]) {
        if i > from {
            lemma_run_is_digits(s, from + 1, i);
        }
    }
}

/// A fixed-width number of up to four digits is below ten thousand.
pub proof fn lemma_fixed_is_small(s: Seq<u8>, at: int, width: int)
    requires
        spec_fixed(s, at, width) is Some,
        width <= 4,
    ensures
        spec_fixed(s, at, width)->0 < 10_000,
        width <= 2 ==> spec_fixed(s, at, width)->0 < 100,
{
    let part = s.subrange(at, at + width);
    assert forall|i: int| 0 <= i < part.len() implies spec_is_digit(#[trigger] part[i]) by {
        lemma_run_is_digits(part, 0, i);
    }
    assert(part.subrange(0, width) =~= part);
    lemma_number_is_small(part);
}

/// The first `k` digits behind the decimal point at `from`, read as a
/// number; where the text ends earlier, zeros stand for the missing digits.
pub open spec fn spec_frac(s: Seq<u8>, from: int, k: nat) -> nat
    decreases k,
{
    if k == 0 {
        0
    } else {
        spec_frac(s, from, (k - 1) as nat) * 10 + (if 0 <= from + k - 1 < s.len() {
            spec_digit_value(s[from + k - 1])
        } else {
            0
        })
    }
}

/// The largest number of `k` digits.
pub open spec fn spec_nines(k: nat) -> nat
    decreases k,
{
    if k == 0 {
        0
    } else {
        spec_nines((k - 1) as nat) * 10 + 9
    }
}

/// Digits kept behind the decimal point: six for degrees, two for all else.
pub open spec fn spec_places(micro: bool) -> nat {
    if micro {
        6
    } else {
        2
    }
}

/// The factor by which a value is scaled: a million for degrees, a hundred for all else.
pub open spec fn spec_unit(micro: bool) -> nat {
    if micro {
        1_000_000
    } else {
        100
    }
}

/// The largest whole part whose scaled value fits 31 bits.
pub open spec fn spec_whole_max(micro: bool) -> nat {
    if micro {
        2_146
    } else {
        21_474_835
    }
}

/// A plain decimal number in fixed point: an optional sign, at least one
/// digit, and optionally a point with digits behind it up to the end of the
/// text. Digits beyond the kept places are dropped. `None` where the text
/// is otherwise or the whole part is beyond the largest that fits.
pub open spec fn spec_scaled(t: Seq<u8>, micro: bool) -> Option<int> {
    let signed = t.len() > 0 && (t[0] == 0x2D || t[0] == 0x2B);
    let b: int = if signed {
        1
    } else {
        0
    };
    let dot = spec_run_end(t, b, false);
    let whole = spec_field(t, b, false, spec_whole_max(micro));
    let has_frac = dot < t.len();
    if whole is Some && (!has_frac || (t[dot] == 0x2E && spec_run_end(t, dot + 1, false)
        == t.len())) {
        let mag: int = whole->0 * spec_unit(micro) + (if has_frac {
            spec_frac(t, dot + 1, spec_places(micro)) as int
        } else {
            0
        });
        Some(
            if signed && t[0] == 0x2D {
                -mag
            } else {
                mag
            },
        )
    } else {
        None
    }
}

/// Reads a plain decimal number into fixed point.
#[verifier::loop_isolation(false)]
pub fn scaled(t: &[u8], micro: bool) -> (r: Option<i32>)
    ensures
        r is Some == spec_scaled(t@, micro) is Some,
        r is Some ==> r->0 as int == spec_scaled(t@, micro)->0,
{
    let total: usize = t.len();
    let signed = total > 0 && (t[0] == 0x2D || t[0] == 0x2B);
    let b: usize = if signed {
        1
    } else {
        0
    };
    let dot: usize = run_end(t, b, false);
    let whole = match field(t, b, false, if micro {
        2_146
    } else {
        21_474_835
    }) {
        Some(w) => w,
        None => {
            return None;
        },
    };
    let has_frac = dot < total;
    if has_frac && (t[dot] != 0x2E || run_end(t, dot + 1, false) != total) {
        return None;
    }
    let places: usize = if micro {
        6
    } else {
        2
    };
    let mut acc: u32 = 0;
    if has_frac {
        let mut j: usize = 0;
        while j < places
            invariant
                j <= places <= 6,
                dot < total == t@.len(),
                spec_run_end(t@, dot + 1, false) == total,
                acc == spec_frac(t@, dot + 1, j as nat),
                acc <= spec_nines(j as nat),
                spec_nines(j as nat) <= 999_999,
            decreases places - j,
        {
            proof {
                reveal_with_fuel(spec_nines, 8);
                if dot + 1 + j < total {
                    lemma_run_is_digits(t@, dot + 1, dot + 1 + j);
                }
            }
            let d: u32 = if total - dot - 1 > j {
                digit_value(t[dot + 1 + j]) as u32
            } else {
                0
            };
            acc = acc * 10 + d;
            j += 1;
        }
    }
    proof {
        reveal_with_fuel(spec_nines, 8);
        assert(spec_nines(2) == 99 && spec_nines(6) == 999_999);
    }
    let mag: u32 = if micro {
        whole * 1_000_000 + acc
    } else {
        whole * 100 + acc
    };
    if signed && t[0] == 0x2D {
        Some(-(mag as i32))
    } else {
        Some(mag as i32)
    }
}

/// Where field number `i` of a position response starts: the first behind
/// the response's name, each later one behind the comma that ends the one
/// before; negative where the text ends before the field.
pub open spec fn spec_start(s: Seq<u8>, i: nat) -> int
    decreases i,
{
    if i == 0 {
        if spec_has_at(s, 0, "+QGPSLOC: ".spec_bytes()) {
            "+QGPSLOC: ".spec_bytes().len() as int
        } else {
            -1
        }
    } else {
        let p = spec_start(s, (i - 1) as nat);
        if p < 0 {
            -1
        } else if spec_field_end(s, p, 0x2C) < s.len() {
            spec_field_end(s, p, 0x2C) + 1
        } else {
            -1
        }
    }
}

/// The text of field number `i`.
pub open spec fn spec_text(s: Seq<u8>, i: nat) -> Seq<u8> {
    s.subrange(spec_start(s, i), spec_field_end(s, spec_start(s, i), 0x2C))
}

/// The year that two digits stand for: 83 to 99 lie in the 1900s, all others in the 2000s.
pub open spec fn spec_year(two: nat) -> i32 {
    if 83 <= two <= 99 {
        (two + 1900) as i32
    } else {
        (two + 2000) as i32
    }
}

/// The date and time of a position response: the time of day stands first
/// as `hhmmss.ss`, of which the seconds are read as a plain decimal of five
/// characters and cut to whole seconds; the date stands in the tenth field
/// as `ddmmyy`.
pub open spec fn spec_gps_clock(s: Seq<u8>) -> Option<Clock> {
    let time = spec_text(s, 0);
    let date = spec_text(s, 9);
    let sec = if time.len() >= 9 {
        spec_scaled(time.subrange(4, 9), false)
    } else {
        None
    };
    if spec_fixed(time, 0, 2) is Some && spec_fixed(time, 2, 2) is Some && sec is Some && sec->0
        >= 0 && spec_fixed(date, 0, 2) is Some && spec_fixed(date, 2, 2) is Some && spec_fixed(
        date,
        4,
        2,
    ) is Some {
        Some(
            Clock {
                year: spec_year(spec_fixed(date, 4, 2)->0),
                month: spec_fixed(date, 2, 2)->0 as u32,
                day: spec_fixed(date, 0, 2)->0 as u32,
                hour: spec_fixed(time, 0, 2)->0 as u32,
                min: spec_fixed(time, 2, 2)->0 as u32,
                sec: (sec->0 / 100) as u32,
            },
        )
    } else {
        None
    }
}

/// A value that must not be negative.
pub open spec fn spec_unsigned(v: Option<int>) -> Option<int> {
    if v is Some && v->0 >= 0 {
        v
    } else {
        None
    }
}

/// The position that a response carries. Its eleven fields are time,
/// latitude, longitude, dilution of precision, altitude, fix quality, course,
/// speed in km/h, speed in knots, date and satellites in use. An empty
/// course is no course; fix quality and satellites are numbers up to 255;
/// dilution and speeds must not be negative.
pub open spec fn spec_parse_gps_loc(s: Seq<u8>) -> Result<FmlGnssRawData, ParseError> {
    let lat = spec_scaled(spec_text(s, 1), true);
    let lon = spec_scaled(spec_text(s, 2), true);
    let hdop = spec_unsigned(spec_scaled(spec_text(s, 3), false));
    let alt = spec_scaled(spec_text(s, 4), false);
    let fix = spec_field(s, spec_start(s, 5), false, 255);
    let cog = spec_scaled(spec_text(s, 6), false);
    let spkm = spec_unsigned(spec_scaled(spec_text(s, 7), false));
    let spkn = spec_unsigned(spec_scaled(spec_text(s, 8), false));
    let nsat = spec_field(s, spec_start(s, 10), false, 255);
    let clock = spec_gps_clock(s);
    if spec_start(s, 10) >= 0 && lat is Some && lon is Some && hdop is Some && alt is Some
        && fix is Some && (cog is Some || spec_text(s, 6).len() == 0) && spkm is Some
        && spkn is Some && nsat is Some && clock is Some && spec_stamp(clock->0) is Some {
        Ok(
            FmlGnssRawData {
                latitude: lat->0 as i32,
                longitude: lon->0 as i32,
                hdop: hdop->0 as u32,
                altitude: alt->0 as i32,
                fix: fix->0 as u8,
                cog: if spec_text(s, 6).len() == 0 {
                    None
                } else {
                    Some(cog->0 as i32)
                },
                spkm: spkm->0 as u32,
                spkn: spkn->0 as u32,
                nsat: nsat->0 as u8,
                utc_stamp: spec_stamp(clock->0)->0,
            },
        )
    } else {
        Err(ParseError::NoMatch)
    }
}

fn unsigned(v: Option<i32>) -> (r: Option<u32>)
    ensures
        r is Some == (v is Some && v->0 >= 0),
        r is Some ==> r->0 == v->0,
{
    match v {
        Some(x) => if x >= 0 {
            Some(x as u32)
        } else {
            None
        },
        None => None,
    }
}

/// Decodes a position response.
#[verifier::loop_isolation(false)]
pub fn parse_gps_loc(buf: &[u8]) -> (r: Result<FmlGnssRawData, ParseError>)
    ensures
        r == spec_parse_gps_loc(buf@),
{
    let head = "+QGPSLOC: ".as_bytes();
    if !has_at(buf, 0, head) {
        proof {
            reveal_with_fuel(spec_start, 12);
        }
        return Err(ParseError::NoMatch);
    }
    let total: usize = buf.len();
    let mut starts: Vec<usize> = Vec::new();
    let mut ends: Vec<usize> = Vec::new();
    let mut at: usize = head.len();
    let mut i: usize = 0;
    while i < 11
        invariant
            i <= 11,
            total == buf@.len(),
            starts@.len() == i,
            ends@.len() == i,
            at <= total,
            i < 11 ==> at == spec_start(buf@, i as nat),
            forall|j: int|
                0 <= j < i ==> #[trigger] starts@[j] == spec_start(buf@, j as nat) && ends@[j]
                    == spec_field_end(buf@, starts@[j] as int, 0x2C) && starts@[j] <= ends@[j]
                    <= total,
        decreases 11 - i,
    {
        let e: usize = field_end(buf, at, 0x2C);
        starts.push(at);
        ends.push(e);
        assert(starts@[i as int] == spec_start(buf@, i as nat));
        assert(ends@[i as int] == spec_field_end(buf@, starts@[i as int] as int, 0x2C));
        if i < 10 {
            if e >= total {
                proof {
                    reveal_with_fuel(spec_start, 12);
                    lemma_start_stays_absent(buf@, (i + 1) as nat, 10);
                }
                return Err(ParseError::NoMatch);
            }
            at = e + 1;
        }
        i += 1;
    }
    let lat = scaled(slice_subrange(buf, starts[1], ends[1]), true);
    let lon = scaled(slice_subrange(buf, starts[2], ends[2]), true);
    let hdop = unsigned(scaled(slice_subrange(buf, starts[3], ends[3]), false));
    let alt = scaled(slice_subrange(buf, starts[4], ends[4]), false);
    let fix = field(buf, starts[5], false, 255);
    let cog_text = slice_subrange(buf, starts[6], ends[6]);
    let cog = scaled(cog_text, false);
    let spkm = unsigned(scaled(slice_subrange(buf, starts[7], ends[7]), false));
    let spkn = unsigned(scaled(slice_subrange(buf, starts[8], ends[8]), false));
    let nsat = field(buf, starts[10], false, 255);
    let time = slice_subrange(buf, starts[0], ends[0]);
    let date = slice_subrange(buf, starts[9], ends[9]);
    let sec = if time.len() >= 9 {
        scaled(slice_subrange(time, 4, 9), false)
    } else {
        None
    };
    let clock = match (
        fixed(time, 0, 2),
        fixed(time, 2, 2),
        sec,
        fixed(date, 0, 2),
        fixed(date, 2, 2),
        fixed(date, 4, 2),
    ) {
        (Some(hour), Some(min), Some(sec), Some(day), Some(month), Some(two)) => {
            proof {
                lemma_fixed_is_small(date@, 4, 2);
            }
            if sec < 0 {
                return Err(ParseError::NoMatch);
            }
            Clock {
                year: if 83 <= two && two <= 99 {
                    (two + 1900) as i32
                } else {
                    (two + 2000) as i32
                },
                month,
                day,
                hour,
                min,
                sec: (sec / 100) as u32,
            }
        },
        _ => {
            return Err(ParseError::NoMatch);
        },
    };
    let utc_stamp = match stamp(&clock) {
        Some(t) => t,
        None => {
            return Err(ParseError::NoMatch);
        },
    };
    let cog = if cog_text.len() == 0 {
        None
    } else {
        match cog {
            Some(c) => Some(c),
            None => {
                return Err(ParseError::NoMatch);
            },
        }
    };
    match (lat, lon, hdop, alt, fix, spkm, spkn, nsat) {
        (
            Some(latitude),
            Some(longitude),
            Some(hdop),
            Some(altitude),
            Some(fix),
            Some(spkm),
            Some(spkn),
            Some(nsat),
        ) => Ok(
            FmlGnssRawData {
                latitude,
                longitude,
                hdop,
                altitude,
                fix: fix as u8,
                cog,
                spkm,
                spkn,
                nsat: nsat as u8,
                utc_stamp,
            },
        ),
        _ => Err(ParseError::NoMatch),
    }
}

/// Once a field is absent, so are all later ones.
pub proof fn lemma_start_stays_absent(s: Seq<u8>, i: nat, j: nat)
    requires
        i <= j,
        spec_start(s, i) < 0,
    ensures
        spec_start(s, j) < 0,
    decreases j - i,
{
    if i < j {
        lemma_start_stays_absent(s, i, (j - 1) as nat);
    }
}

} // verus!
