//! Date formatting for the rendered pages: a calendar moment broken into the
//! parts the formatter reads, month and weekday names by language, and the
//! assembled display string.

use crate::general::push_char;
use vstd::prelude::*;
use vstd::string::StringExecFns;

verus! {

/// Day of the week, named as the formatter abbreviates it in English.
#[derive(Clone, Copy, Debug, PartialEq, Eq, Structural)]
pub enum Weekday {
    Mon,
    Tue,
    Wed,
    Thu,
    Fri,
    Sat,
    Sun,
}

/// A calendar moment broken into the parts that the formatter reads: the
/// month is counted from one.
pub struct DateParts {
    pub year: u32,
    pub month: u32,
    pub day: u32,
    pub weekday: Weekday,
    pub hour: u32,
    pub minute: u32,
}

/// The character of one decimal digit.
pub open spec fn spec_digit_char(d: nat) -> char
    recommends
        d < 10,
{
    if d == 0 {
        '0'
    } else if d == 1 {
        '1'
    } else if d == 2 {
        '2'
    } else if d == 3 {
        '3'
    } else if d == 4 {
        '4'
    } else if d == 5 {
        '5'
    } else if d == 6 {
        '6'
    } else if d == 7 {
        '7'
    } else if d == 8 {
        '8'
    } else {
        '9'
    }
}

/// The decimal rendering of a number, most significant digit first, without
/// leading zeroes.
pub open spec fn spec_dec(n: nat) -> Seq<char>
    decreases n,
{
    if n < 10 {
        seq![spec_digit_char(n)]
    } else {
        spec_dec(n / 10).push(spec_digit_char(n % 10))
    }
}

/// Returns the character of one decimal digit.
fn digit_char(d: u32) -> (c: char)
    requires
        d < 10,
    ensures
        c == spec_digit_char(d as nat),
{
    if d == 0 {
        '0'
    } else if d == 1 {
        '1'
    } else if d == 2 {
        '2'
    } else if d == 3 {
        '3'
    } else if d == 4 {
        '4'
    } else if d == 5 {
        '5'
    } else if d == 6 {
        '6'
    } else if d == 7 {
        '7'
    } else if d == 8 {
        '8'
    } else {
        '9'
    }
}

/// Renders a number in decimal, most significant digit first.
pub fn u32_to_dec_string(n: u32) -> (r: String)
    ensures
        r@ == spec_dec(n as nat),
    decreases n,
{
    if n < 10 {
        let mut s = String::new();
        push_char(&mut s, digit_char(n));
        proof {
            assert(s@ =~= seq![spec_digit_char(n as nat)]);
        }
        s
    } else {
        let mut s = u32_to_dec_string(n / 10);
        push_char(&mut s, digit_char(n % 10));
        s
    }
}

/// Whether two string slices hold the same characters.
pub fn str_eq(a: &str, b: &str) -> (r: bool)
    ensures
        r == (a@ == b@),
{
    let sa = String::from_str(a);
    let sb = String::from_str(b);
    sa == sb
}

/// The month name that the formatter shows: Spanish when asked for, English
/// for every other language.
pub open spec fn spec_month_name(lang: Seq<char>, month: int) -> Seq<char>
    recommends
        1 <= month <= 12,
{
    if lang == "es"@ {
        if month == 1 {
            "Enero"@
        } else if month == 2 {
            "Febrero"@
        } else if month == 3 {
            "Marzo"@
        } else if month == 4 {
            "Abril"@
        } else if month == 5 {
            "Mayo"@
        } else if month == 6 {
            "Junio"@
        } else if month == 7 {
            "Julio"@
        } else if month == 8 {
            "Agosto"@
        } else if month == 9 {
            "Septiembre"@
        } else if month == 10 {
            "Octubre"@
        } else if month == 11 {
            "Noviembre"@
        } else {
            "Diciembre"@
        }
    } else {
        if month == 1 {
            "January"@
        } else if month == 2 {
            "February"@
        } else if month == 3 {
            "March"@
        } else if month == 4 {
            "April"@
        } else if month == 5 {
            "May"@
        } else if month == 6 {
            "June"@
        } else if month == 7 {
            "July"@
        } else if month == 8 {
            "August"@
        } else if month == 9 {
            "September"@
        } else if month == 10 {
            "October"@
        } else if month == 11 {
            "November"@
        } else {
            "December"@
        }
    }
}

/// Returns the month name for the language.
pub fn month_name(lang: &str, month: u32) -> (r: String)
    requires
        1 <= month <= 12,
    ensures
        r@ == spec_month_name(lang@, month as int),
{
    if str_eq(lang, "es") {
        if month == 1 {
            "Enero".to_owned()
        } else if month == 2 {
            "Febrero".to_owned()
        } else if month == 3 {
            "Marzo".to_owned()
        } else if month == 4 {
            "Abril".to_owned()
        } else if month == 5 {
            "Mayo".to_owned()
        } else if month == 6 {
            "Junio".to_owned()
        } else if month == 7 {
            "Julio".to_owned()
        } else if month == 8 {
            "Agosto".to_owned()
        } else if month == 9 {
            "Septiembre".to_owned()
        } else if month == 10 {
            "Octubre".to_owned()
        } else if month == 11 {
            "Noviembre".to_owned()
        } else {
            "Diciembre".to_owned()
        }
    } else {
        if month == 1 {
            "January".to_owned()
        } else if month == 2 {
            "February".to_owned()
        } else if month == 3 {
            "March".to_owned()
        } else if month == 4 {
            "April".to_owned()
        } else if month == 5 {
            "May".to_owned()
        } else if month == 6 {
            "June".to_owned()
        } else if month == 7 {
            "July".to_owned()
        } else if month == 8 {
            "August".to_owned()
        } else if month == 9 {
            "September".to_owned()
        } else if month == 10 {
            "October".to_owned()
        } else if month == 11 {
            "November".to_owned()
        } else {
            "December".to_owned()
        }
    }
}

/// The weekday name that the formatter shows: the English abbreviation for
/// English, the Spanish abbreviation for every other language.
pub open spec fn spec_weekday_name(lang: Seq<char>, w: Weekday) -> Seq<char> {
    if lang == "en"@ {
        match w {
            Weekday::Mon => "Mon"@,
            Weekday::Tue => "Tue"@,
            Weekday::Wed => "Wed"@,
            Weekday::Thu => "Thu"@,
            Weekday::Fri => "Fri"@,
            Weekday::Sat => "Sat"@,
            Weekday::Sun => "Sun"@,
        }
    } else {
        match w {
            Weekday::Mon => "Lun"@,
            Weekday::Tue => "Mar"@,
            Weekday::Wed => "Mié"@,
            Weekday::Thu => "Jue"@,
            Weekday::Fri => "Vie"@,
            Weekday::Sat => "Sab"@,
            Weekday::Sun => "Dom"@,
        }
    }
}

/// Returns the weekday name for the language.
pub fn weekday_name(lang: &str, w: Weekday) -> (r: String)
    ensures
        r@ == spec_weekday_name(lang@, w),
{
    if str_eq(lang, "en") {
        match w {
            Weekday::Mon => "Mon".to_owned(),
            Weekday::Tue => "Tue".to_owned(),
            Weekday::Wed => "Wed".to_owned(),
            Weekday::Thu => "Thu".to_owned(),
            Weekday::Fri => "Fri".to_owned(),
            Weekday::Sat => "Sat".to_owned(),
            Weekday::Sun => "Sun".to_owned(),
        }
    } else {
        match w {
            Weekday::Mon => "Lun".to_owned(),
            Weekday::Tue => "Mar".to_owned(),
            Weekday::Wed => "Mié".to_owned(),
            Weekday::Thu => "Jue".to_owned(),
            Weekday::Fri => "Vie".to_owned(),
            Weekday::Sat => "Sab".to_owned(),
            Weekday::Sun => "Dom".to_owned(),
        }
    }
}

/// The display string for a date: weekday, day, month name, year, and the
/// time as hour and minute.
pub open spec fn spec_formatted_date(d: DateParts, lang: Seq<char>) -> Seq<char>
    recommends
        1 <= d.month <= 12,
{
    spec_weekday_name(lang, d.weekday) + ", "@ + spec_dec(d.day as nat) + " de "@
        + spec_month_name(lang, d.month as int) + " de "@ + spec_dec(d.year as nat) + ", "@
        + spec_dec(d.hour as nat) + ":"@ + spec_dec(d.minute as nat)
}

/// Formats a date for display in the given language: weekday and day, month
/// name and year, then hour and minute.
pub fn format_date_in_language(date: &DateParts, lang: &str) -> (r: String)
    requires
        1 <= date.month <= 12,
    ensures
        r@ == spec_formatted_date(*date, lang@),
{
    let mut out = weekday_name(lang, date.weekday);
    out.append(", ");
    let day = u32_to_dec_string(date.day);
    out.append(day.as_str());
    out.append(" de ");
    let month = month_name(lang, date.month);
    out.append(month.as_str());
    out.append(" de ");
    let year = u32_to_dec_string(date.year);
    out.append(year.as_str());
    out.append(", ");
    let hour = u32_to_dec_string(date.hour);
    out.append(hour.as_str());
    out.append(":");
    let minute = u32_to_dec_string(date.minute);
    out.append(minute.as_str());
    out
}

} // verus!
