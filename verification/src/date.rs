//! The request timestamp: a trusted reading of the UTC clock as plain
//! values, and a verified formatter for the RFC-1123-style pattern
//! `"<abbrev-weekday>, <day> <abbrev-month> <year> <hour>:<minute>:<second> GMT"`
//! that the signing protocol requires.

use vstd::prelude::*;

use chrono::{Datelike, Timelike};

use crate::text::push_char;

verus! {

/// A UTC date and time, split into plain fields. `weekday` counts days
/// from Sunday, so 0 is Sunday and 6 is Saturday.
pub struct DateTimeParts {
    pub year: i32,
    pub month: u32,
    pub day: u32,
    pub hour: u32,
    pub minute: u32,
    pub second: u32,
    pub weekday: u32,
}

impl DateTimeParts {
    /// The field ranges of a calendar date and a time of day.
    pub open spec fn wf(&self) -> bool {
        &&& 1 <= self.month <= 12
        &&& 1 <= self.day <= 31
        &&& self.hour <= 23
        &&& self.minute <= 59
        &&& self.second <= 59
        &&& self.weekday <= 6
    }
}

/// Relies on chrono's `Utc::now` and its `Datelike`/`Timelike` accessors:
/// the current UTC time as plain fields. The accessors' documented ranges
/// are assumed; nothing is assumed of the clock's value.
#[verifier::external_body]
pub(crate) fn utc_now_parts() -> (p: DateTimeParts)
    ensures
        p.wf(),
{
    let now = chrono::Utc::now();
    DateTimeParts {
        year: now.year(),
        month: now.month(),
        day: now.day(),
        hour: now.hour(),
        minute: now.minute(),
        second: now.second(),
        weekday: now.weekday().num_days_from_sunday(),
    }
}

/// The decimal digit for `n`, for `0 <= n < 10`.
pub open spec fn spec_digit(n: int) -> char {
    if n == 0 {
        '0'
    } else if n == 1 {
        '1'
    } else if n == 2 {
        '2'
    } else if n == 3 {
        '3'
    } else if n == 4 {
        '4'
    } else if n == 5 {
        '5'
    } else if n == 6 {
        '6'
    } else if n == 7 {
        '7'
    } else if n == 8 {
        '8'
    } else {
        '9'
    }
}

/// The decimal digits of `n`, for `n >= 0`.
pub open spec fn spec_decimal(n: int) -> Seq<char>
    decreases n,
{
    if n < 10 {
        seq![spec_digit(n)]
    } else {
        spec_decimal(n / 10) + seq![spec_digit(n % 10)]
    }
}

/// `n` as exactly two digits, for `0 <= n < 100`.
pub open spec fn spec_two_digits(n: int) -> Seq<char> {
    seq![spec_digit(n / 10), spec_digit(n % 10)]
}

/// The year, zero-padded to four digits, with a leading minus sign when
/// negative.
pub open spec fn spec_year(y: int) -> Seq<char> {
    if y < 0 {
        seq!['-'] + spec_padded4(-y)
    } else {
        spec_padded4(y)
    }
}

/// The decimal digits of `n >= 0`, left-padded with zeros to four digits.
pub open spec fn spec_padded4(n: int) -> Seq<char> {
    let d = spec_decimal(n);
    if d.len() >= 4 {
        d
    } else {
        seq!['0', '0', '0'].take(4 - d.len()) + d
    }
}

/// The abbreviated month name, for `1 <= m <= 12`.
pub open spec fn spec_month_name(m: int) -> Seq<char> {
    if m == 1 {
        "Jan"@
    } else if m == 2 {
        "Feb"@
    } else if m == 3 {
        "Mar"@
    } else if m == 4 {
        "Apr"@
    } else if m == 5 {
        "May"@
    } else if m == 6 {
        "Jun"@
    } else if m == 7 {
        "Jul"@
    } else if m == 8 {
        "Aug"@
    } else if m == 9 {
        "Sep"@
    } else if m == 10 {
        "Oct"@
    } else if m == 11 {
        "Nov"@
    } else {
        "Dec"@
    }
}

/// The abbreviated weekday name, counting from Sunday as 0.
pub open spec fn spec_weekday_name(w: int) -> Seq<char> {
    if w == 0 {
        "Sun"@
    } else if w == 1 {
        "Mon"@
    } else if w == 2 {
        "Tue"@
    } else if w == 3 {
        "Wed"@
    } else if w == 4 {
        "Thu"@
    } else if w == 5 {
        "Fri"@
    } else {
        "Sat"@
    }
}

/// The full formatted timestamp of the signing protocol.
pub open spec fn spec_rfc1123(p: DateTimeParts) -> Seq<char> {
    spec_weekday_name(p.weekday as int) + ", "@ + spec_two_digits(p.day as int) + " "@
        + spec_month_name(p.month as int) + " "@ + spec_year(p.year as int) + " "@
        + spec_two_digits(p.hour as int) + ":"@ + spec_two_digits(p.minute as int) + ":"@
        + spec_two_digits(p.second as int) + " GMT"@
}

/// The decimal digit for `n < 10`.
fn digit(n: u64) -> (c: char)
    requires
        n < 10,
    ensures
        c == spec_digit(n as int),
{
    if n == 0 {
        '0'
    } else if n == 1 {
        '1'
    } else if n == 2 {
        '2'
    } else if n == 3 {
        '3'
    } else if n == 4 {
        '4'
    } else if n == 5 {
        '5'
    } else if n == 6 {
        '6'
    } else if n == 7 {
        '7'
    } else if n == 8 {
        '8'
    } else {
        '9'
    }
}

/// Appends the decimal digits of `n`.
fn append_decimal(out: &mut String, n: u64)
    ensures
        final(out)@ == old(out)@ + spec_decimal(n as int),
    decreases n,
{
    if n < 10 {
        push_char(out, digit(n));
        proof {
            assert(out@ =~= old(out)@ + spec_decimal(n as int));
        }
    } else {
        append_decimal(out, n / 10);
        push_char(out, digit(n % 10));
        proof {
            assert(out@ =~= old(out)@ + spec_decimal(n as int));
        }
    }
}

/// Appends `n < 100` as exactly two digits.
fn append_two_digits(out: &mut String, n: u32)
    requires
        n < 100,
    ensures
        final(out)@ == old(out)@ + spec_two_digits(n as int),
{
    push_char(out, digit((n / 10) as u64));
    push_char(out, digit((n % 10) as u64));
    proof {
        assert(out@ =~= old(out)@ + spec_two_digits(n as int));
    }
}

/// Appends the year, zero-padded to four digits, with a sign if negative.
fn append_year(out: &mut String, y: i32)
    ensures
        final(out)@ == old(out)@ + spec_year(y as int),
{
    let n: u64 = if y < 0 {
        push_char(out, '-');
        (-(y as i64)) as u64
    } else {
        y as u64
    };
    if n < 10 {
        out.append("000");
        proof {
            reveal_strlit("000");
        }
    } else if n < 100 {
        out.append("00");
        proof {
            reveal_strlit("00");
        }
    } else if n < 1000 {
        out.append("0");
        proof {
            reveal_strlit("0");
        }
    }
    append_decimal(out, n);
    proof {
        reveal_strlit("000");
        reveal_strlit("00");
        reveal_strlit("0");
        lemma_decimal_len(n as int);
        assert(out@ =~= old(out)@ + spec_year(y as int));
    }
}

/// How many digits `spec_decimal` writes for each range of `n`.
proof fn lemma_decimal_len(n: int)
    requires
        n >= 0,
    ensures
        n < 10 ==> spec_decimal(n).len() == 1,
        10 <= n < 100 ==> spec_decimal(n).len() == 2,
        100 <= n < 1000 ==> spec_decimal(n).len() == 3,
        n >= 1000 ==> spec_decimal(n).len() >= 4,
    decreases n,
{
    if n >= 10 {
        lemma_decimal_len(n / 10);
    }
}

/// The abbreviated month name.
fn month_name(m: u32) -> (r: &'static str)
    requires
        1 <= m <= 12,
    ensures
        r@ == spec_month_name(m as int),
{
    if m == 1 {
        "Jan"
    } else if m == 2 {
        "Feb"
    } else if m == 3 {
        "Mar"
    } else if m == 4 {
        "Apr"
    } else if m == 5 {
        "May"
    } else if m == 6 {
        "Jun"
    } else if m == 7 {
        "Jul"
    } else if m == 8 {
        "Aug"
    } else if m == 9 {
        "Sep"
    } else if m == 10 {
        "Oct"
    } else if m == 11 {
        "Nov"
    } else {
        "Dec"
    }
}

/// The abbreviated weekday name.
fn weekday_name(w: u32) -> (r: &'static str)
    requires
        w <= 6,
    ensures
        r@ == spec_weekday_name(w as int),
{
    if w == 0 {
        "Sun"
    } else if w == 1 {
        "Mon"
    } else if w == 2 {
        "Tue"
    } else if w == 3 {
        "Wed"
    } else if w == 4 {
        "Thu"
    } else if w == 5 {
        "Fri"
    } else {
        "Sat"
    }
}

/// Formats a date and time in the exact pattern the signing protocol uses.
pub fn format_rfc1123(p: &DateTimeParts) -> (r: String)
    requires
        p.wf(),
    ensures
        r@ == spec_rfc1123(*p),
{
    let mut out = String::new();
    out.append(weekday_name(p.weekday));
    out.append(", ");
    append_two_digits(&mut out, p.day);
    out.append(" ");
    out.append(month_name(p.month));
    out.append(" ");
    append_year(&mut out, p.year);
    out.append(" ");
    append_two_digits(&mut out, p.hour);
    out.append(":");
    append_two_digits(&mut out, p.minute);
    out.append(":");
    append_two_digits(&mut out, p.second);
    out.append(" GMT");
    proof {
        assert(out@ =~= spec_rfc1123(*p));
    }
    out
}

/// The current UTC time, formatted for the signing protocol. Two calls
/// may of course differ: the clock moves.
pub fn now_rfc1123() -> (r: String)
    ensures
        exists|p: DateTimeParts| #[trigger] p.wf() && r@ == spec_rfc1123(p),
{
    let p = utc_now_parts();
    let r = format_rfc1123(&p);
    proof {
        assert(p.wf() && r@ == spec_rfc1123(p));
    }
    r
}

} // verus!
