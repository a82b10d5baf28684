//! The clock mode has no state of its own: the time it shows is read when it is drawn,
//! and turned into text here.

use vstd::prelude::*;

use crate::text::{decimal2, push_char, push_decimal2};

verus! {

/// The wall-clock mode.
#[derive(Debug, Default, Clone, Copy)]
pub struct ClockMode;

/// The fields of a local time that the clock face shows.
#[derive(Debug, Clone, Copy)]
pub struct ClockReading {
    /// 0 to 23.
    pub hour: u32,
    /// 0 to 59.
    pub minute: u32,
    /// 0 to 60 (a leap second reads 60).
    pub second: u32,
    /// Days since Monday, 0 to 6.
    pub weekday: u32,
    /// 1 to 12.
    pub month: u32,
    /// 1 to 31.
    pub day: u32,
}

/// The three-letter English name of a weekday (0 is Monday).
pub open spec fn weekday_abbrev(w: int) -> Seq<char> {
    if w == 0 {
        "Mon"@
    } else if w == 1 {
        "Tue"@
    } else if w == 2 {
        "Wed"@
    } else if w == 3 {
        "Thu"@
    } else if w == 4 {
        "Fri"@
    } else if w == 5 {
        "Sat"@
    } else {
        "Sun"@
    }
}

/// The three-letter English name of a month (1 is January).
pub open spec fn month_abbrev(m: int) -> Seq<char> {
    if m == 1 {
        "Jan"@
    } else if m == 2 {
        "Feb"@
    } else if m == 3 {
        "Mar"@
    } else if m == 4 {
        "Apr"@
    } else if m == 5 {
        "May"@
    } else if m == 6 {
        "Jun"@
    } else if m == 7 {
        "Jul"@
    } else if m == 8 {
        "Aug"@
    } else if m == 9 {
        "Sep"@
    } else if m == 10 {
        "Oct"@
    } else if m == 11 {
        "Nov"@
    } else {
        "Dec"@
    }
}

/// `%H:%M:%S`.
pub open spec fn spec_time_text(r: ClockReading) -> Seq<char> {
    decimal2(r.hour as nat) + seq![':'] + decimal2(r.minute as nat) + seq![':'] + decimal2(
        r.second as nat,
    )
}

/// `%a, %b %d`.
pub open spec fn spec_date_text(r: ClockReading) -> Seq<char> {
    weekday_abbrev(r.weekday as int) + ", "@ + month_abbrev(r.month as int) + seq![' '] + decimal2(
        r.day as nat,
    )
}

fn weekday_name(w: u32) -> (s: &'static str)
    ensures
        s@ == weekday_abbrev(w as int),
{
    match w {
        0 => "Mon",
        1 => "Tue",
        2 => "Wed",
        3 => "Thu",
        4 => "Fri",
        5 => "Sat",
        _ => "Sun",
    }
}

fn month_name(m: u32) -> (s: &'static str)
    ensures
        s@ == month_abbrev(m as int),
{
    match m {
        1 => "Jan",
        2 => "Feb",
        3 => "Mar",
        4 => "Apr",
        5 => "May",
        6 => "Jun",
        7 => "Jul",
        8 => "Aug",
        9 => "Sep",
        10 => "Oct",
        11 => "Nov",
        _ => "Dec",
    }
}

impl ClockMode {
    /// The time as the face prints it, `HH:MM:SS`.
    pub fn time_text(&self, r: &ClockReading) -> (s: String)
        ensures
            s@ == spec_time_text(*r),
    {
        let mut s = String::new();
        push_decimal2(&mut s, r.hour as u64);
        push_char(&mut s, ':');
        push_decimal2(&mut s, r.minute as u64);
        push_char(&mut s, ':');
        push_decimal2(&mut s, r.second as u64);
        s
    }

    /// The date as the face prints it, such as `Sun, Mar 08`.
    pub fn date_text(&self, r: &ClockReading) -> (s: String)
        ensures
            s@ == spec_date_text(*r),
    {
        let mut s = String::new();
        s.append(weekday_name(r.weekday));
        s.append(", ");
        s.append(month_name(r.month));
        push_char(&mut s, ' ');
        push_decimal2(&mut s, r.day as u64);
        s
    }
}

} // verus!
