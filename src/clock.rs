use chrono::Datelike;
use chrono::Timelike;
use vstd::prelude::*;
use crate::text::{decimal_text, padded_decimal};

verus! {

/// A local calendar date and wall-clock time, to the second.
pub struct WallClock {
    pub year: i32,
    pub month: u32,
    pub day: u32,
    pub hour: u32,
    pub minute: u32,
    pub second: u32,
}

impl WallClock {
    pub open spec fn wf(&self) -> bool {
        &&& 1 <= self.month <= 12
        &&& 1 <= self.day <= 31
        &&& self.hour < 24
        &&& self.minute < 60
        &&& self.second < 60
    }
}

/// Relies on chrono's `Local::now` and its `Datelike` / `Timelike`
/// accessors, which give the month from 1 to 12, the day from 1 to 31, the
/// hour from 0 to 23 and the minute and second from 0 to 59.
#[verifier::external_body]
pub(crate) fn local_now() -> (r: WallClock)
    ensures
        r.wf(),
{
    let now = chrono::Local::now();
    WallClock {
        year: now.year(),
        month: now.month(),
        day: now.day(),
        hour: now.hour(),
        minute: now.minute(),
        second: now.second(),
    }
}

/// `HH:MM:SS`.
pub open spec fn time_text(c: WallClock) -> Seq<char> {
    padded_decimal(c.hour as nat, 2) + ":"@ + padded_decimal(c.minute as nat, 2) + ":"@
        + padded_decimal(c.second as nat, 2)
}

/// The year in at least four digits; a sign precedes years below 0 or
/// above 9999.
pub open spec fn year_text(y: int) -> Seq<char> {
    let digits = padded_decimal(if y < 0 {
        (-y) as nat
    } else {
        y as nat
    }, 4);
    if y < 0 {
        "-"@ + digits
    } else if y > 9999 {
        "+"@ + digits
    } else {
        digits
    }
}

/// `YYYY-MM-DD`.
pub open spec fn date_text(c: WallClock) -> Seq<char> {
    year_text(c.year as int) + "-"@ + padded_decimal(c.month as nat, 2) + "-"@
        + padded_decimal(c.day as nat, 2)
}

impl WallClock {
    /// The time of day as `HH:MM:SS`.
    pub fn format_time(&self) -> (r: String)
        ensures
            r@ == time_text(*self),
    {
        let r = decimal_text(self.hour, 2).concat(":").concat(decimal_text(self.minute, 2).as_str());
        r.concat(":").concat(decimal_text(self.second, 2).as_str())
    }

    /// The date as `YYYY-MM-DD`.
    pub fn format_date(&self) -> (r: String)
        ensures
            r@ == date_text(*self),
    {
        let y = self.year;
        let magnitude: u32 = if y < 0 {
            (-(y as i64)) as u32
        } else {
            y as u32
        };
        let digits = decimal_text(magnitude, 4);
        let year = if y < 0 {
            String::from_str("-").concat(digits.as_str())
        } else if y > 9999 {
            String::from_str("+").concat(digits.as_str())
        } else {
            digits
        };
        let r = year.concat("-").concat(decimal_text(self.month, 2).as_str());
        r.concat("-").concat(decimal_text(self.day, 2).as_str())
    }
}

} // verus!
