use vstd::prelude::*;

use crate::text::chars_of;
use crate::volume_label::{all_digits, digits_value, is_ascii_digit};

verus! {

/// A leap year of the Gregorian calendar.
pub open spec fn is_leap_year(year: int) -> bool {
    (year % 4 == 0 && year % 100 != 0) || year % 400 == 0
}

/// How many days the month has (January is 1).
pub open spec fn days_in_month(year: int, month: int) -> int {
    if month == 2 {
        if is_leap_year(year) {
            29
        } else {
            28
        }
    } else if month == 4 || month == 6 || month == 9 || month == 11 {
        30
    } else {
        31
    }
}

/// The year, month and day digits of a `YYYY-MM-DD` text.
pub open spec fn year_digits(s: Seq<char>) -> Seq<char> {
    s.subrange(0, 4)
}

pub open spec fn month_digits(s: Seq<char>) -> Seq<char> {
    s.subrange(5, 7)
}

pub open spec fn day_digits(s: Seq<char>) -> Seq<char> {
    s.subrange(8, 10)
}

/// `s` is a calendar date written `YYYY-MM-DD`: four digits of year, two of month
/// and two of day, separated by dashes, naming a month of the year and a day of
/// that month.
pub open spec fn is_iso_date(s: Seq<char>) -> bool {
    &&& s.len() == 10
    &&& s[4] == '-'
    &&& s[7] == '-'
    &&& all_digits(year_digits(s))
    &&& all_digits(month_digits(s))
    &&& all_digits(day_digits(s))
    &&& 1 <= digits_value(month_digits(s)) <= 12
    &&& 1 <= digits_value(day_digits(s)) <= days_in_month(
        digits_value(year_digits(s)) as int,
        digits_value(month_digits(s)) as int,
    )
}

proof fn digits_value_of_two(s: Seq<char>)
    requires
        s.len() == 2,
        all_digits(s),
    ensures
        digits_value(s) == ((s[0] as nat) - ('0' as nat)) * 10 + ((s[1] as nat) - ('0' as nat)),
{
    let t = s.drop_last();
    assert(t.drop_last() =~= Seq::<char>::empty());
    assert(t.last() == s[0]);
    assert(is_ascii_digit(s[0]) && is_ascii_digit(s[1]));
    assert(digits_value(t.drop_last()) == 0);
    assert(digits_value(t) == (s[0] as nat) - ('0' as nat));
}

proof fn digits_value_of_four(s: Seq<char>)
    requires
        s.len() == 4,
        all_digits(s),
    ensures
        digits_value(s) == ((s[0] as nat) - ('0' as nat)) * 1000 + ((s[1] as nat) - ('0' as nat))
            * 100 + ((s[2] as nat) - ('0' as nat)) * 10 + ((s[3] as nat) - ('0' as nat)),
{
    let t = s.drop_last();
    let u = t.drop_last();
    assert(u[0] == s[0] && u[1] == s[1]);
    assert(all_digits(u));
    digits_value_of_two(u);
    assert(t.last() == s[2]);
    assert(is_ascii_digit(s[2]) && is_ascii_digit(s[3]));
    assert(digits_value(t) == digits_value(u) * 10 + ((s[2] as nat) - ('0' as nat)));
}

/// The value of the digit `c`.
fn digit_value(c: char) -> (d: u32)
    requires
        is_ascii_digit(c),
    ensures
        d == (c as nat) - ('0' as nat),
        d < 10,
{
    (c as u32) - 48
}

/// Whether `text` is a calendar date written `YYYY-MM-DD` (see `is_iso_date`).
pub fn is_valid_iso_date(text: &str) -> (r: bool)
    ensures
        r == is_iso_date(text@),
{
    let chars = chars_of(text);
    let ghost s = chars@;
    if chars.len() != 10 || chars[4] != '-' || chars[7] != '-' {
        return false;
    }
    let mut i: usize = 0;
    while i < 10
        invariant
            s.len() == 10,
            chars@ == s,
            s == text@,
            i <= 10,
            forall|k: int| 0 <= k < i && k != 4 && k != 7 ==> is_ascii_digit(#[trigger] s[k]),
        decreases 10 - i,
    {
        if i != 4 && i != 7 && !('0' <= chars[i] && chars[i] <= '9') {
            assert(!all_digits(year_digits(s)) || !all_digits(month_digits(s)) || !all_digits(
                day_digits(s),
            )) by {
                if i < 4 {
                    assert(year_digits(s)[i as int] == s[i as int]);
                } else if i < 7 {
                    assert(month_digits(s)[i - 5] == s[i as int]);
                } else {
                    assert(day_digits(s)[i - 8] == s[i as int]);
                }
            }
            return false;
        }
        i = i + 1;
    }
    proof {
        assert forall|k: int| 0 <= k < 4 implies is_ascii_digit(#[trigger] year_digits(s)[k]) by {
            assert(year_digits(s)[k] == s[k]);
        }
        assert forall|k: int| 0 <= k < 2 implies is_ascii_digit(#[trigger] month_digits(s)[k]) by {
            assert(month_digits(s)[k] == s[k + 5]);
        }
        assert forall|k: int| 0 <= k < 2 implies is_ascii_digit(#[trigger] day_digits(s)[k]) by {
            assert(day_digits(s)[k] == s[k + 8]);
        }
        digits_value_of_four(year_digits(s));
        digits_value_of_two(month_digits(s));
        digits_value_of_two(day_digits(s));
    }
    let year = digit_value(chars[0]) * 1000 + digit_value(chars[1]) * 100 + digit_value(chars[2])
        * 10 + digit_value(chars[3]);
    let month = digit_value(chars[5]) * 10 + digit_value(chars[6]);
    let day = digit_value(chars[8]) * 10 + digit_value(chars[9]);
    assert(year == digits_value(year_digits(s)));
    assert(month == digits_value(month_digits(s)));
    assert(day == digits_value(day_digits(s)));
    if month < 1 || month > 12 {
        return false;
    }
    let leap = (year % 4 == 0 && year % 100 != 0) || year % 400 == 0;
    let days: u32 = if month == 2 {
        if leap {
            29
        } else {
            28
        }
    } else if month == 4 || month == 6 || month == 9 || month == 11 {
        30
    } else {
        31
    };
    assert(days == days_in_month(year as int, month as int));
    1 <= day && day <= days
}

} // verus!

verus! {

/// The 29th of February is a date exactly in leap years.
pub proof fn leap_day_needs_a_leap_year(s: Seq<char>)
    requires
        s.len() == 10,
        s[4] == '-',
        s[7] == '-',
        all_digits(year_digits(s)),
        month_digits(s) == seq!['0', '2'],
        day_digits(s) == seq!['2', '9'],
    ensures
        is_iso_date(s) <==> is_leap_year(digits_value(year_digits(s)) as int),
{
    assert(all_digits(month_digits(s)));
    assert(all_digits(day_digits(s)));
    digits_value_of_two(month_digits(s));
    digits_value_of_two(day_digits(s));
}

} // verus!

verus! {

/// Which texts are dates, told from the calendar: a text `YYYY-MM-DD` of digits is a
/// date exactly when its month is 1 to 12 and its day is 1 to 28, or 29 or 30 in
/// any month but February, or 31 in January, March, May, July, August, October or
/// December, or 29 in February of a year divisible by 4 but not by 100, or by 400.
pub proof fn dates_follow_the_calendar(s: Seq<char>)
    requires
        s.len() == 10,
        s[4] == '-',
        s[7] == '-',
        all_digits(year_digits(s)),
        all_digits(month_digits(s)),
        all_digits(day_digits(s)),
    ensures
        ({
            let y = digits_value(year_digits(s)) as int;
            let m = digits_value(month_digits(s)) as int;
            let d = digits_value(day_digits(s)) as int;
            is_iso_date(s) <==> {
                &&& 1 <= m <= 12
                &&& 1 <= d
                &&& {
                    ||| d <= 28
                    ||| (d == 29 || d == 30) && m != 2
                    ||| d == 31 && (m == 1 || m == 3 || m == 5 || m == 7 || m == 8 || m == 10
                        || m == 12)
                    ||| d == 29 && m == 2 && ((y % 4 == 0 && y % 100 != 0) || y % 400 == 0)
                }
            }
        }),
{
}

/// A text that is not ten characters, or whose dashes or digits are not where
/// `YYYY-MM-DD` has them, is no date.
pub proof fn dates_have_the_iso_shape(s: Seq<char>)
    ensures
        is_iso_date(s) ==> s.len() == 10 && s[4] == '-' && s[7] == '-' && all_digits(
            year_digits(s),
        ) && all_digits(month_digits(s)) && all_digits(day_digits(s)),
{
}

} // verus!
