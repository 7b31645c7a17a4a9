//! Call timestamps.
//!
//! A call is identified by the 14-digit local time `YYYYMMDDhhmmss`, stored
//! as a number.  The same number is rendered as an RFC 3339-shaped string
//! (`YYYY-MM-DDThh:mm:ssZ`) when a row is inserted.

use crate::utils::{digit_char, push_digit};
use chrono::{Datelike, Timelike};
use vstd::arithmetic::div_mod::{
    lemma_fundamental_div_mod, lemma_fundamental_div_mod_converse, lemma_mod_breakdown,
};
use vstd::prelude::*;

verus! {

/// A broken-down calendar time, as read from the host clock.
pub struct DateParts {
    pub year: i64,
    pub month: u32,
    pub day: u32,
    pub hour: u32,
    pub minute: u32,
    pub second: u32,
}

pub open spec fn is_leap_year(y: int) -> bool {
    y % 4 == 0 && (y % 100 != 0 || y % 400 == 0)
}

pub open spec fn days_in_month(y: int, m: int) -> int {
    if m == 2 {
        if is_leap_year(y) {
            29
        } else {
            28
        }
    } else if m == 4 || m == 6 || m == 9 || m == 11 {
        30
    } else {
        31
    }
}

pub open spec fn wf_parts(p: DateParts) -> bool {
    &&& 1 <= p.month <= 12
    &&& 1 <= p.day <= days_in_month(p.year as int, p.month as int)
    &&& p.hour < 24
    &&& p.minute < 60
    &&& p.second < 60
}

/// Well-formed and renderable as exactly four year digits.
pub open spec fn fmt_parts(p: DateParts) -> bool {
    wf_parts(p) && 1000 <= p.year <= 9999
}

/// Two decimal digits, zero padded.
pub open spec fn pad2(n: int) -> Seq<char> {
    seq![digit_char((n / 10) % 10), digit_char(n % 10)]
}

/// Four decimal digits, zero padded.
pub open spec fn pad4(n: int) -> Seq<char> {
    seq![
        digit_char((n / 1000) % 10),
        digit_char((n / 100) % 10),
        digit_char((n / 10) % 10),
        digit_char(n % 10),
    ]
}

/// The 14-digit compact rendering `YYYYMMDDhhmmss`.
pub open spec fn spec_compact(p: DateParts) -> Seq<char> {
    pad4(p.year as int) + pad2(p.month as int) + pad2(p.day as int) + pad2(p.hour as int) + pad2(
        p.minute as int,
    ) + pad2(p.second as int)
}

/// The numeric value of the compact rendering.
pub open spec fn id_value(p: DateParts) -> int {
    p.year * 10_000_000_000 + p.month * 100_000_000 + p.day * 1_000_000 + p.hour * 10_000
        + p.minute * 100 + p.second
}

pub open spec fn id_year(id: int) -> int {
    id / 10_000_000_000
}

pub open spec fn id_month(id: int) -> int {
    (id / 100_000_000) % 100
}

pub open spec fn id_day(id: int) -> int {
    (id / 1_000_000) % 100
}

pub open spec fn id_hour(id: int) -> int {
    (id / 10_000) % 100
}

pub open spec fn id_minute(id: int) -> int {
    (id / 100) % 100
}

pub open spec fn id_second(id: int) -> int {
    id % 100
}

/// A number is a valid compact timestamp when it has exactly 14 digits and
/// every field decodes to a real calendar date and time of day.
pub open spec fn valid_compact_id(id: int) -> bool {
    &&& 10_000_000_000_000 <= id < 100_000_000_000_000
    &&& 1 <= id_month(id) <= 12
    &&& 1 <= id_day(id) <= days_in_month(id_year(id), id_month(id))
    &&& id_hour(id) < 24
    &&& id_minute(id) < 60
    &&& id_second(id) < 60
}

/// The RFC 3339-shaped rendering of a valid compact timestamp.
pub open spec fn spec_format_date(id: int) -> Seq<char> {
    pad4(id_year(id)) + seq!['-'] + pad2(id_month(id)) + seq!['-'] + pad2(id_day(id)) + seq!['T']
        + pad2(id_hour(id)) + seq![':'] + pad2(id_minute(id)) + seq![':'] + pad2(id_second(id))
        + seq!['Z']
}

/// A compact id carries exactly the fields it was built from.
pub proof fn lemma_id_fields(p: DateParts)
    requires
        fmt_parts(p),
    ensures
        valid_compact_id(id_value(p)),
        id_year(id_value(p)) == p.year,
        id_month(id_value(p)) == p.month,
        id_day(id_value(p)) == p.day,
        id_hour(id_value(p)) == p.hour,
        id_minute(id_value(p)) == p.minute,
        id_second(id_value(p)) == p.second,
{
    let id = id_value(p);
    let y = p.year as int;
    let mo = p.month as int;
    let d = p.day as int;
    let h = p.hour as int;
    let mi = p.minute as int;
    let s = p.second as int;
    assert(days_in_month(y, mo) <= 31);
    lemma_fundamental_div_mod_converse(
        id,
        10_000_000_000,
        y,
        mo * 100_000_000 + d * 1_000_000 + h * 10_000 + mi * 100 + s,
    );
    lemma_fundamental_div_mod_converse(
        id,
        100_000_000,
        y * 100 + mo,
        d * 1_000_000 + h * 10_000 + mi * 100 + s,
    );
    lemma_fundamental_div_mod_converse(y * 100 + mo, 100, y, mo);
    lemma_fundamental_div_mod_converse(
        id,
        1_000_000,
        (y * 100 + mo) * 100 + d,
        h * 10_000 + mi * 100 + s,
    );
    lemma_fundamental_div_mod_converse((y * 100 + mo) * 100 + d, 100, y * 100 + mo, d);
    lemma_fundamental_div_mod_converse(
        id,
        10_000,
        ((y * 100 + mo) * 100 + d) * 100 + h,
        mi * 100 + s,
    );
    lemma_fundamental_div_mod_converse(
        ((y * 100 + mo) * 100 + d) * 100 + h,
        100,
        (y * 100 + mo) * 100 + d,
        h,
    );
    lemma_fundamental_div_mod_converse(
        id,
        100,
        (((y * 100 + mo) * 100 + d) * 100 + h) * 100 + mi,
        s,
    );
    lemma_fundamental_div_mod_converse(
        (((y * 100 + mo) * 100 + d) * 100 + h) * 100 + mi,
        100,
        ((y * 100 + mo) * 100 + d) * 100 + h,
        mi,
    );
}

/// A valid compact id is the weighted sum of its decoded fields.
pub proof fn lemma_id_decompose(id: int)
    requires
        0 <= id,
    ensures
        id == id_year(id) * 10_000_000_000 + id_month(id) * 100_000_000 + id_day(id) * 1_000_000
            + id_hour(id) * 10_000 + id_minute(id) * 100 + id_second(id),
{
    lemma_fundamental_div_mod(id, 10_000_000_000);
    lemma_mod_breakdown(id, 100_000_000, 100);
    lemma_mod_breakdown(id, 1_000_000, 100);
    lemma_mod_breakdown(id, 10_000, 100);
    lemma_mod_breakdown(id, 100, 100);
}

proof fn lemma_digit_char_inj(a: int, b: int)
    requires
        0 <= a < 10,
        0 <= b < 10,
        digit_char(a) == digit_char(b),
    ensures
        a == b,
{
}

proof fn lemma_pad2_inj(x: int, y: int)
    requires
        0 <= x < 100,
        0 <= y < 100,
        pad2(x) == pad2(y),
    ensures
        x == y,
{
    assert(pad2(x)[0] == pad2(y)[0]);
    assert(pad2(x)[1] == pad2(y)[1]);
    lemma_digit_char_inj((x / 10) % 10, (y / 10) % 10);
    lemma_digit_char_inj(x % 10, y % 10);
    lemma_fundamental_div_mod(x, 10);
    lemma_fundamental_div_mod(y, 10);
}

proof fn lemma_pad4_inj(x: int, y: int)
    requires
        0 <= x < 10000,
        0 <= y < 10000,
        pad4(x) == pad4(y),
    ensures
        x == y,
{
    assert(pad4(x)[0] == pad4(y)[0]);
    assert(pad4(x)[1] == pad4(y)[1]);
    assert(pad4(x)[2] == pad4(y)[2]);
    assert(pad4(x)[3] == pad4(y)[3]);
    lemma_digit_char_inj((x / 1000) % 10, (y / 1000) % 10);
    lemma_digit_char_inj((x / 100) % 10, (y / 100) % 10);
    lemma_digit_char_inj((x / 10) % 10, (y / 10) % 10);
    lemma_digit_char_inj(x % 10, y % 10);
    lemma_fundamental_div_mod(x, 1000);
    lemma_mod_breakdown(x, 100, 10);
    lemma_mod_breakdown(x, 10, 10);
    lemma_fundamental_div_mod(y, 1000);
    lemma_mod_breakdown(y, 100, 10);
    lemma_mod_breakdown(y, 10, 10);
}

/// The RFC 3339 rendering determines the compact id: two valid ids that
/// render to the same string are the same id, so the rendering can be read
/// back to exactly the `YYYYMMDDhhmmss` number it came from.
pub proof fn lemma_format_date_injective(a: int, b: int)
    requires
        valid_compact_id(a),
        valid_compact_id(b),
        spec_format_date(a) == spec_format_date(b),
    ensures
        a == b,
{
    let fa = spec_format_date(a);
    let fb = spec_format_date(b);
    assert(fa.subrange(0, 4) =~= pad4(id_year(a)));
    assert(fb.subrange(0, 4) =~= pad4(id_year(b)));
    assert(fa.subrange(5, 7) =~= pad2(id_month(a)));
    assert(fb.subrange(5, 7) =~= pad2(id_month(b)));
    assert(fa.subrange(8, 10) =~= pad2(id_day(a)));
    assert(fb.subrange(8, 10) =~= pad2(id_day(b)));
    assert(fa.subrange(11, 13) =~= pad2(id_hour(a)));
    assert(fb.subrange(11, 13) =~= pad2(id_hour(b)));
    assert(fa.subrange(14, 16) =~= pad2(id_minute(a)));
    assert(fb.subrange(14, 16) =~= pad2(id_minute(b)));
    assert(fa.subrange(17, 19) =~= pad2(id_second(a)));
    assert(fb.subrange(17, 19) =~= pad2(id_second(b)));
    lemma_pad4_inj(id_year(a), id_year(b));
    lemma_pad2_inj(id_month(a), id_month(b));
    lemma_pad2_inj(id_day(a), id_day(b));
    lemma_pad2_inj(id_hour(a), id_hour(b));
    lemma_pad2_inj(id_minute(a), id_minute(b));
    lemma_pad2_inj(id_second(a), id_second(b));
    lemma_id_decompose(a);
    lemma_id_decompose(b);
}

fn push_pad2(s: &mut String, n: u64)
    ensures
        final(s)@ == old(s)@ + pad2(n as int),
{
    push_digit(s, (n / 10) % 10);
    push_digit(s, n % 10);
    assert(final(s)@ =~= old(s)@ + pad2(n as int));
}

fn push_pad4(s: &mut String, n: u64)
    ensures
        final(s)@ == old(s)@ + pad4(n as int),
{
    push_digit(s, (n / 1000) % 10);
    push_digit(s, (n / 100) % 10);
    push_digit(s, (n / 10) % 10);
    push_digit(s, n % 10);
    assert(final(s)@ =~= old(s)@ + pad4(n as int));
}

/// Render broken-down parts as the 14-digit compact timestamp.
pub fn format_timestamp(p: &DateParts) -> (r: String)
    requires
        0 <= p.year,
    ensures
        r@ == spec_compact(*p),
{
    let mut s = String::new();
    push_pad4(&mut s, p.year as u64);
    push_pad2(&mut s, p.month as u64);
    push_pad2(&mut s, p.day as u64);
    push_pad2(&mut s, p.hour as u64);
    push_pad2(&mut s, p.minute as u64);
    push_pad2(&mut s, p.second as u64);
    assert(s@ =~= spec_compact(*p));
    s
}

/// Render a compact id in RFC 3339 shape, `YYYY-MM-DDThh:mm:ssZ`.
pub fn format_date(id: i64) -> (r: String)
    requires
        valid_compact_id(id as int),
    ensures
        r@ == spec_format_date(id as int),
{
    let mut s = String::new();
    push_pad4(&mut s, (id / 10_000_000_000) as u64);
    crate::utils::push_char(&mut s, '-');
    push_pad2(&mut s, ((id / 100_000_000) % 100) as u64);
    crate::utils::push_char(&mut s, '-');
    push_pad2(&mut s, ((id / 1_000_000) % 100) as u64);
    crate::utils::push_char(&mut s, 'T');
    push_pad2(&mut s, ((id / 10_000) % 100) as u64);
    crate::utils::push_char(&mut s, ':');
    push_pad2(&mut s, ((id / 100) % 100) as u64);
    crate::utils::push_char(&mut s, ':');
    push_pad2(&mut s, (id % 100) as u64);
    crate::utils::push_char(&mut s, 'Z');
    assert(s@ =~= spec_format_date(id as int));
    s
}

pub fn is_leap_year_exec(y: i64) -> (r: bool)
    requires
        0 <= y,
    ensures
        r == is_leap_year(y as int),
{
    y % 4 == 0 && (y % 100 != 0 || y % 400 == 0)
}

pub fn days_in_month_exec(y: i64, m: i64) -> (r: i64)
    requires
        0 <= y,
    ensures
        r == days_in_month(y as int, m as int),
{
    if m == 2 {
        if is_leap_year_exec(y) {
            29
        } else {
            28
        }
    } else if m == 4 || m == 6 || m == 9 || m == 11 {
        30
    } else {
        31
    }
}

/// Decide whether a number is a valid compact call id.
pub fn is_valid_id(id: i64) -> (r: bool)
    ensures
        r == valid_compact_id(id as int),
{
    if id < 10_000_000_000_000 || id >= 100_000_000_000_000 {
        return false;
    }
    let year = id / 10_000_000_000;
    let month = (id / 100_000_000) % 100;
    let day = (id / 1_000_000) % 100;
    let hour = (id / 10_000) % 100;
    let minute = (id / 100) % 100;
    let second = id % 100;
    1 <= month && month <= 12 && 1 <= day && day <= days_in_month_exec(year, month) && hour < 24
        && minute < 60 && second < 60
}

/// Relies on chrono's `Local::now` with the `Datelike`/`Timelike` accessors:
/// a `NaiveDateTime` holds a valid proleptic Gregorian calendar date, with
/// month 1..=12, a day valid for that month, and hour/minute/second in their
/// clock ranges.
#[verifier::external_body]
fn now_local_parts() -> (r: DateParts)
    ensures
        wf_parts(r),
{
    let now = chrono::Local::now().naive_local();
    DateParts {
        year: now.year() as i64,
        month: now.month(),
        day: now.day(),
        hour: now.hour(),
        minute: now.minute(),
        second: now.second(),
    }
}

/// Relies on chrono's `Utc::now` with the `Datelike`/`Timelike` accessors,
/// as for the local clock.
#[verifier::external_body]
fn now_utc_parts() -> (r: DateParts)
    ensures
        wf_parts(r),
{
    let now = chrono::Utc::now().naive_utc();
    DateParts {
        year: now.year() as i64,
        month: now.month(),
        day: now.day(),
        hour: now.hour(),
        minute: now.minute(),
        second: now.second(),
    }
}

/// The local wall clock as a 14-digit compact timestamp; `None` only when
/// the clock's year cannot be rendered as four digits.
pub fn local_time() -> (r: Option<String>)
    ensures
        r matches Some(s) ==> exists|p: DateParts| fmt_parts(p) && s@ == spec_compact(p),
{
    let p = now_local_parts();
    if 1000 <= p.year && p.year <= 9999 {
        let s = format_timestamp(&p);
        proof {
            assert(fmt_parts(p) && s@ == spec_compact(p));
        }
        Some(s)
    } else {
        None
    }
}

/// The UTC wall clock as a 14-digit compact timestamp; `None` only when the
/// clock's year cannot be rendered as four digits.
pub fn utc_time() -> (r: Option<String>)
    ensures
        r matches Some(s) ==> exists|p: DateParts| fmt_parts(p) && s@ == spec_compact(p),
{
    let p = now_utc_parts();
    if 1000 <= p.year && p.year <= 9999 {
        let s = format_timestamp(&p);
        proof {
            assert(fmt_parts(p) && s@ == spec_compact(p));
        }
        Some(s)
    } else {
        None
    }
}

/// The local wall clock as a numeric call id, valid for `format_date`;
/// `None` only when the clock's year is outside four digits.
pub fn local_call_id() -> (r: Option<i64>)
    ensures
        r matches Some(id) ==> valid_compact_id(id as int),
{
    let p = now_local_parts();
    if 1000 <= p.year && p.year <= 9999 {
        proof {
            lemma_id_fields(p);
        }
        let id: i64 = p.year * 10_000_000_000 + (p.month as i64) * 100_000_000 + (p.day as i64)
            * 1_000_000 + (p.hour as i64) * 10_000 + (p.minute as i64) * 100 + (p.second as i64);
        Some(id)
    } else {
        None
    }
}

} // verus!
