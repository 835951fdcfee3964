//! The compact date and time by which files are told apart.

use crate::input_laws::{lemma_filled_reads_back, number_of};
use crate::text::{
    all_digits, comes_before, join, lemma_order_survives_beginning, lemma_order_survives_endings,
    lemma_zero_padded_order, lemma_zero_padded_shape, power_of_ten, render_zero_padded, zero_padded,
};
use vstd::prelude::*;

verus! {

/// A day of the Gregorian calendar.
pub struct CivilDate {
    pub year: int,
    pub month: int,
    pub day: int,
}

/// Whether a year has a leap day.
pub open spec fn is_leap(year: int) -> bool {
    year % 4 == 0 && (year % 100 != 0 || year % 400 == 0)
}

/// The number of days of a month.
pub open spec fn month_length(year: int, month: int) -> int {
    if month == 2 {
        if is_leap(year) {
            29
        } else {
            28
        }
    } else if month == 4 || month == 6 || month == 9 || month == 11 {
        30
    } else {
        31
    }
}

/// The number of days of a year before the given month.
pub open spec fn days_before_month(year: int, month: int) -> int
    decreases month,
{
    if month <= 1 {
        0
    } else {
        days_before_month(year, month - 1) + month_length(year, month - 1)
    }
}

/// The number of days from the first day of the year 0 to that of the given
/// year.
pub open spec fn days_before_year(year: int) -> int
    decreases year,
{
    if year <= 0 {
        0
    } else {
        days_before_year(year - 1) + if is_leap(year - 1) {
            366int
        } else {
            365int
        }
    }
}

impl CivilDate {
    /// Whether there is such a day.
    pub open spec fn exists_in_calendar(self) -> bool {
        &&& self.year >= 0
        &&& 1 <= self.month <= 12
        &&& 1 <= self.day <= month_length(self.year, self.month)
    }

    /// The number of days from the first of January 1970 to this day.
    pub open spec fn day_number(self) -> int {
        days_before_year(self.year) + days_before_month(self.year, self.month) + self.day - 1
            - days_before_year(1970)
    }

    /// Whether this is the day with the given number.
    pub open spec fn is_day(self, number: int) -> bool {
        self.exists_in_calendar() && self.day_number() == number
    }
}

/// The label of a second: year, month, day, hour, minute and second in a row,
/// each with its usual number of digits.
pub open spec fn compact_label(date: CivilDate, second_of_day: nat) -> Seq<char> {
    zero_padded(date.year as nat, 4) + zero_padded(date.month as nat, 2) + zero_padded(
        date.day as nat,
        2,
    ) + zero_padded(second_of_day / 3600, 2) + zero_padded((second_of_day % 3600) / 60, 2)
        + zero_padded(second_of_day % 60, 2)
}

/// Days before a year, in closed form.
proof fn lemma_days_before_year(year: int)
    requires
        year >= 1,
    ensures
        days_before_year(year) == 365 * year + (year - 1) / 4 - (year - 1) / 100 + (year - 1) / 400
            + 1,
    decreases year,
{
    if year > 1 {
        lemma_days_before_year(year - 1);
    } else {
        assert(days_before_year(0) == 0);
        assert(is_leap(0));
    }
}

/// Days before a month, in the closed form of years that begin in March.
proof fn lemma_days_before_month(year: int, month: int)
    requires
        1 <= month <= 12,
    ensures
        month <= 2 ==> days_before_month(year, month) == 31 * (month - 1),
        month >= 3 ==> days_before_month(year, month) == (153 * (month - 3) + 2) / 5 + 59 + if is_leap(
            year,
        ) {
            1int
        } else {
            0int
        },
{
    reveal_with_fuel(days_before_month, 13);
}

/// The civil date of a day, counted in years that begin in March.
fn civil_from_days(days: u64) -> (date: (u64, u64, u64))
    requires
        days <= 213_503_982_334_601,
    ensures
        (CivilDate { year: date.0 as int, month: date.1 as int, day: date.2 as int }).is_day(
            days as int,
        ),
        date.0 >= 1970,
{
    let z: u64 = days + 719468;
    let era: u64 = z / 146097;
    let doe: u64 = z - era * 146097;
    let yoe: u64 = (doe - doe / 1460 + doe / 36524 - doe / 146096) / 365;
    proof {
        lemma_year_of_era(doe as int);
    }
    let march_year: u64 = yoe + era * 400;
    proof {
        lemma_march_year(march_year as int, yoe as int, era as int);
    }
    let doy: u64 = doe - (365 * yoe + yoe / 4 - yoe / 100);
    let mp: u64 = (5 * doy + 2) / 153;
    proof {
        lemma_march_month(doy as int);
    }
    let d: u64 = doy - (153 * mp + 2) / 5 + 1;
    let m: u64 = if mp < 10 {
        mp + 3
    } else {
        mp - 9
    };
    let y: u64 = if m <= 2 {
        march_year + 1
    } else {
        march_year
    };
    proof {
        lemma_march_date(march_year as int, doy as int, days as int);
    }
    (y, m, d)
}

/// The year of an era that a day lies in begins at or before it, and ends after
/// it.
proof fn lemma_year_of_era(doe: int)
    requires
        0 <= doe < 146097,
    ensures
        ({
            let yoe = (doe - doe / 1460 + doe / 36524 - doe / 146096) / 365;
            &&& 0 <= yoe <= 399
            &&& 365 * yoe + yoe / 4 - yoe / 100 <= doe
            &&& doe - (365 * yoe + yoe / 4 - yoe / 100) <= 365
            &&& doe - (365 * yoe + yoe / 4 - yoe / 100) == 365 ==> (yoe + 1) % 4 == 0 && ((yoe + 1)
                % 100 != 0 || yoe == 399)
        }),
{
}

/// A year counted from March, split into its era and its year of the era.
proof fn lemma_march_year(march_year: int, yoe: int, era: int)
    requires
        march_year == yoe + era * 400,
        0 <= yoe <= 399,
        era >= 0,
    ensures
        march_year / 4 == yoe / 4 + era * 100,
        march_year / 100 == yoe / 100 + era * 4,
        march_year / 400 == era,
        (yoe + 1) % 4 == 0 && ((yoe + 1) % 100 != 0 || yoe == 399) ==> is_leap(march_year + 1),
{
}

/// The month of a year counted from March that a day lies in begins at or before
/// it, and ends after it.
proof fn lemma_march_month(doy: int)
    requires
        0 <= doy <= 365,
    ensures
        ({
            let mp = (5 * doy + 2) / 153;
            &&& 0 <= mp <= 11
            &&& (153 * mp + 2) / 5 <= doy
            &&& doy < (153 * (mp + 1) + 2) / 5
        }),
{
}

/// One more year has as many leap days before it as it has itself.
proof fn lemma_leap_days(year: int)
    requires
        year >= 1,
    ensures
        year / 4 - year / 100 + year / 400 == (year - 1) / 4 - (year - 1) / 100 + (year - 1) / 400
            + if is_leap(year) {
            1int
        } else {
            0int
        },
{
    assert(year / 4 == (year - 1) / 4 + if year % 4 == 0 {
        1int
    } else {
        0int
    });
    assert(year / 100 == (year - 1) / 100 + if year % 100 == 0 {
        1int
    } else {
        0int
    });
    assert(year / 400 == (year - 1) / 400 + if year % 400 == 0 {
        1int
    } else {
        0int
    });
    assert(year % 400 == 0 ==> year % 100 == 0);
    assert(year % 100 == 0 ==> year % 4 == 0);
}

/// The date that a day has whose place in its year, counted from March, is
/// known.
proof fn lemma_march_date(march_year: int, doy: int, days: int)
    requires
        march_year >= 1969,
        0 <= doy <= 365,
        doy == 365 ==> is_leap(march_year + 1),
        days >= 0,
        days == 365 * march_year + march_year / 4 - march_year / 100 + march_year / 400 + doy
            - 719468,
    ensures
        ({
            let mp = (5 * doy + 2) / 153;
            let m = if mp < 10 {
                mp + 3
            } else {
                mp - 9
            };
            let y = if m <= 2 {
                march_year + 1
            } else {
                march_year
            };
            let date = CivilDate { year: y, month: m, day: doy - (153 * mp + 2) / 5 + 1 };
            &&& date.is_day(days)
            &&& y >= 1970
        }),
{
    lemma_march_month(doy);
    lemma_days_before_year(1970);
    let mp = (5 * doy + 2) / 153;
    if mp < 10 {
        let m = mp + 3;
        lemma_days_before_year(march_year);
        lemma_days_before_month(march_year, m);
        lemma_leap_days(march_year);
        let d = doy - (153 * mp + 2) / 5 + 1;
        assert(1 <= d <= month_length(march_year, m));
        assert(march_year >= 1970) by {
            if march_year == 1969 {
                assert(doy < 306);
            }
        }
    } else {
        let m = mp - 9;
        let year = march_year + 1;
        lemma_days_before_year(year);
        lemma_days_before_month(year, m);
        let d = doy - (153 * mp + 2) / 5 + 1;
        assert(1 <= d <= month_length(year, m));
    }
}

/// The date and time, to the second, without separators.
pub fn iso8601_compact_label(seconds: u64) -> (label: String)
    ensures
        exists|date: CivilDate| #[trigger]
            date.is_day(seconds as int / 86400) && label@ == compact_label(
                date,
                (seconds % 86400) as nat,
            ),
{
    let days: u64 = seconds / 86400;
    let day_seconds: u64 = seconds % 86400;
    let (y, m, d) = civil_from_days(days);
    let ghost date = CivilDate { year: y as int, month: m as int, day: d as int };
    let year = render_zero_padded(y, 4);
    let month = render_zero_padded(m, 2);
    let day = render_zero_padded(d, 2);
    let hour = render_zero_padded(day_seconds / 3600, 2);
    let minute = render_zero_padded((day_seconds % 3600) / 60, 2);
    let second = render_zero_padded(day_seconds % 60, 2);
    let mut label = join(year.as_str(), month.as_str());
    label = join(label.as_str(), day.as_str());
    label = join(label.as_str(), hour.as_str());
    label = join(label.as_str(), minute.as_str());
    label = join(label.as_str(), second.as_str());
    proof {
        assert(date.is_day(seconds as int / 86400));
        assert(label@ == compact_label(date, day_seconds as nat));
    }
    label
}

/// There is one day for a number: the date of a label is determined by the
/// second.
pub proof fn a_day_has_one_date(first: CivilDate, second: CivilDate, number: int)
    requires
        first.is_day(number),
        second.is_day(number),
    ensures
        first == second,
{
    if first.year < second.year {
        lemma_later_year(first, second);
    } else if second.year < first.year {
        lemma_later_year(second, first);
    } else if first.month < second.month {
        lemma_later_month(first.year, first.month, second.month);
    } else if second.month < first.month {
        lemma_later_month(first.year, second.month, first.month);
    }
}

/// A year is over before the next one begins.
proof fn lemma_later_year(earlier: CivilDate, later: CivilDate)
    requires
        earlier.exists_in_calendar(),
        later.exists_in_calendar(),
        earlier.year < later.year,
    ensures
        earlier.day_number() < later.day_number(),
{
    lemma_years_add_up(earlier.year + 1, later.year);
    lemma_days_before_month(earlier.year, earlier.month);
    lemma_days_before_month(later.year, later.month);
    assert(days_before_year(earlier.year + 1) == days_before_year(earlier.year) + if is_leap(
        earlier.year,
    ) {
        366int
    } else {
        365int
    });
}

proof fn lemma_years_add_up(earlier: int, later: int)
    requires
        0 <= earlier <= later,
    ensures
        days_before_year(earlier) <= days_before_year(later),
    decreases later - earlier,
{
    if earlier < later {
        lemma_years_add_up(earlier, later - 1);
    }
}

/// A month is over before the next one begins.
proof fn lemma_later_month(year: int, earlier: int, later: int)
    requires
        1 <= earlier < later <= 12,
    ensures
        days_before_month(year, earlier) + month_length(year, earlier) <= days_before_month(
            year,
            later,
        ),
    decreases later - earlier,
{
    if earlier + 1 < later {
        lemma_later_month(year, earlier, later - 1);
    }
}

/// Until the end of the year 9999 a label has fourteen characters, all of them
/// digits.
pub proof fn a_label_is_fourteen_digits(date: CivilDate, second_of_day: nat)
    requires
        date.exists_in_calendar(),
        date.year <= 9999,
        second_of_day < 86400,
    ensures
        compact_label(date, second_of_day).len() == 14,
        all_digits(compact_label(date, second_of_day)),
{
    assert(power_of_ten(4) == 10_000 && power_of_ten(2) == 100) by {
        reveal_with_fuel(power_of_ten, 5);
    }
    lemma_zero_padded_shape(date.year as nat, 4);
    lemma_zero_padded_shape(date.month as nat, 2);
    lemma_zero_padded_shape(date.day as nat, 2);
    lemma_zero_padded_shape(second_of_day / 3600, 2);
    lemma_zero_padded_shape((second_of_day % 3600) / 60, 2);
    lemma_zero_padded_shape(second_of_day % 60, 2);
}

/// A later date is later in its first different part.
proof fn lemma_date_order(first: CivilDate, second: CivilDate)
    requires
        first.exists_in_calendar(),
        second.exists_in_calendar(),
        first.day_number() <= second.day_number(),
    ensures
        first.year <= second.year,
        first.year == second.year ==> first.month <= second.month,
        first.year == second.year && first.month == second.month ==> first.day <= second.day,
        first.day_number() < second.day_number() ==> first != second,
{
    if second.year < first.year {
        lemma_later_year(second, first);
    } else if second.year == first.year && second.month < first.month {
        lemma_later_month(first.year, second.month, first.month);
    }
}

/// A later second of a day is later in its first different part.
proof fn lemma_second_order(first: nat, second: nat)
    requires
        first < second < 86400,
    ensures
        first / 3600 <= second / 3600 <= 23,
        first / 3600 == second / 3600 ==> (first % 3600) / 60 <= (second % 3600) / 60,
        (second % 3600) / 60 <= 59,
        first / 3600 == second / 3600 && (first % 3600) / 60 == (second % 3600) / 60 ==> first % 60
            < second % 60,
        second % 60 <= 59,
{
}

/// Until the end of the year 9999 the label of a later second comes after that of
/// an earlier one.
pub proof fn labels_grow_with_time(
    first: CivilDate,
    first_second: nat,
    second: CivilDate,
    second_second: nat,
)
    requires
        first.exists_in_calendar(),
        second.exists_in_calendar(),
        first.year <= 9999,
        second.year <= 9999,
        first_second < 86400,
        second_second < 86400,
        first.day_number() * 86400 + first_second < second.day_number() * 86400 + second_second,
    ensures
        comes_before(compact_label(first, first_second), compact_label(second, second_second)),
{
    assert(first.day_number() <= second.day_number());
    lemma_date_order(first, second);
    if first == second {
        lemma_second_order(first_second, second_second);
    }
    assert(power_of_ten(4) == 10_000 && power_of_ten(2) == 100) by {
        reveal_with_fuel(power_of_ten, 5);
    }
    let f = zero_padded(first_second % 60, 2);
    let e = zero_padded((first_second % 3600) / 60, 2) + f;
    let d = zero_padded(first_second / 3600, 2) + e;
    let c = zero_padded(first.day as nat, 2) + d;
    let b = zero_padded(first.month as nat, 2) + c;
    let z = zero_padded(second_second % 60, 2);
    let y = zero_padded((second_second % 3600) / 60, 2) + z;
    let x = zero_padded(second_second / 3600, 2) + y;
    let w = zero_padded(second.day as nat, 2) + x;
    let v = zero_padded(second.month as nat, 2) + w;
    if first == second {
        if first_second / 3600 == second_second / 3600 {
            if (first_second % 3600) / 60 == (second_second % 3600) / 60 {
                lemma_zero_padded_order(first_second % 60, second_second % 60, 2);
            }
            lemma_field_order((first_second % 3600) / 60, (second_second % 3600) / 60, 2, f, z);
        }
        lemma_field_order(first_second / 3600, second_second / 3600, 2, e, y);
    }
    if first.year == second.year {
        if first.month == second.month {
            lemma_field_order(first.day as nat, second.day as nat, 2, d, x);
        }
        lemma_field_order(first.month as nat, second.month as nat, 2, c, w);
    }
    lemma_field_order(first.year as nat, second.year as nat, 4, b, v);
    lemma_label_nests(first, first_second);
    lemma_label_nests(second, second_second);
}

/// Numbers of one width with something behind them are ordered by the numbers
/// first, and by what is behind them then.
proof fn lemma_field_order(
    smaller: nat,
    larger: nat,
    width: nat,
    first: Seq<char>,
    second: Seq<char>,
)
    requires
        width >= 1,
        larger < power_of_ten(width),
        smaller < larger || smaller == larger && comes_before(first, second),
    ensures
        comes_before(zero_padded(smaller, width) + first, zero_padded(larger, width) + second),
{
    if smaller < larger {
        lemma_zero_padded_order(smaller, larger, width);
        lemma_order_survives_endings(
            zero_padded(smaller, width),
            zero_padded(larger, width),
            first,
            second,
        );
    } else {
        lemma_order_survives_beginning(zero_padded(smaller, width), first, second);
    }
}

/// A label read from its end.
proof fn lemma_label_nests(date: CivilDate, second_of_day: nat)
    ensures
        compact_label(date, second_of_day) == zero_padded(date.year as nat, 4) + (zero_padded(
            date.month as nat,
            2,
        ) + (zero_padded(date.day as nat, 2) + (zero_padded(second_of_day / 3600, 2) + (zero_padded(
            (second_of_day % 3600) / 60,
            2,
        ) + zero_padded(second_of_day % 60, 2))))),
{
    assert(compact_label(date, second_of_day) =~= zero_padded(date.year as nat, 4) + (zero_padded(
        date.month as nat,
        2,
    ) + (zero_padded(date.day as nat, 2) + (zero_padded(second_of_day / 3600, 2) + (zero_padded(
        (second_of_day % 3600) / 60,
        2,
    ) + zero_padded(second_of_day % 60, 2))))));
}

/// The day number of a date, in closed form.
proof fn lemma_day_number(date: CivilDate)
    requires
        date.exists_in_calendar(),
        date.year >= 1,
    ensures
        date.month >= 3 ==> date.day_number() == 365 * date.year + date.year / 4 - date.year / 100
            + date.year / 400 + (153 * (date.month - 3) + 2) / 5 + date.day - 719469,
        date.month <= 2 ==> date.day_number() == 365 * (date.year - 1) + (date.year - 1) / 4 - (
        date.year - 1) / 100 + (date.year - 1) / 400 + 31 * (date.month - 1) + 306 + date.day
            - 719469,
{
    lemma_days_before_year(date.year);
    lemma_days_before_year(1970);
    lemma_days_before_month(date.year, date.month);
}

proof fn lemma_within_four_digits(date: CivilDate, number: int)
    requires
        date.is_day(number),
        0 <= number < 2_932_897,
    ensures
        1 <= date.year <= 9999,
{
    if date.year >= 10000 {
        lemma_years_add_up(10000, date.year);
        lemma_days_before_year(10000);
        lemma_days_before_year(1970);
        lemma_days_before_month(date.year, date.month);
    } else if date.year < 1 {
        lemma_days_before_year(1970);
        lemma_days_before_month(date.year, date.month);
    }
}

/// Until the end of the year 9999 the digits of a label tell the second: they are the
/// year, the month, the day, the hour, the minute and the second of it, counted from the
/// first of January 1970 in the Gregorian calendar.
pub proof fn a_label_tells_its_second(seconds: u64, label: String)
    requires
        seconds < 253_402_300_800,
        call_ensures(iso8601_compact_label, (seconds,), label),
    ensures
        label@.len() == 14,
        all_digits(label@),
        ({
            let year = number_of(label@.subrange(0, 4));
            let month = number_of(label@.subrange(4, 6));
            let day = number_of(label@.subrange(6, 8));
            let hour = number_of(label@.subrange(8, 10));
            let minute = number_of(label@.subrange(10, 12));
            let second = number_of(label@.subrange(12, 14));
            let past = if month >= 3 {
                365 * year + year / 4 - year / 100 + year / 400 + (153 * (month - 3) + 2) / 5
            } else {
                365 * (year - 1) + (year - 1) / 4 - (year - 1) / 100 + (year - 1) / 400 + 31 * (
                month - 1) + 306
            };
            &&& 1 <= month <= 12
            &&& 1 <= day <= 31
            &&& 0 <= hour < 24
            &&& 0 <= minute < 60
            &&& 0 <= second < 60
            &&& seconds == (past + day - 719469) * 86400 + hour * 3600 + minute * 60 + second
        }),
{
    let number = seconds as int / 86400;
    let rest = (seconds % 86400) as nat;
    let date = choose|date: CivilDate| #[trigger]
        date.is_day(number) && label@ == compact_label(date, rest);
    assert(date.is_day(number));
    lemma_within_four_digits(date, number);
    lemma_day_number(date);
    a_label_is_fourteen_digits(date, rest);
    assert(power_of_ten(4) == 10_000 && power_of_ten(2) == 100) by {
        reveal_with_fuel(power_of_ten, 5);
    }
    lemma_filled_reads_back(date.year as nat, 4);
    lemma_filled_reads_back(date.month as nat, 2);
    lemma_filled_reads_back(date.day as nat, 2);
    lemma_filled_reads_back(rest / 3600, 2);
    lemma_filled_reads_back((rest % 3600) / 60, 2);
    lemma_filled_reads_back(rest % 60, 2);
    assert(label@.subrange(0, 4) =~= zero_padded(date.year as nat, 4));
    assert(label@.subrange(4, 6) =~= zero_padded(date.month as nat, 2));
    assert(label@.subrange(6, 8) =~= zero_padded(date.day as nat, 2));
    assert(label@.subrange(8, 10) =~= zero_padded(rest / 3600, 2));
    assert(label@.subrange(10, 12) =~= zero_padded((rest % 3600) / 60, 2));
    assert(label@.subrange(12, 14) =~= zero_padded(rest % 60, 2));
}

/// A later second has the later label, until the end of the year 9999.
pub proof fn a_later_second_has_the_later_label(
    earlier: u64,
    earlier_label: String,
    later: u64,
    later_label: String,
)
    requires
        earlier < later < 253_402_300_800,
        call_ensures(iso8601_compact_label, (earlier,), earlier_label),
        call_ensures(iso8601_compact_label, (later,), later_label),
    ensures
        comes_before(earlier_label@, later_label@),
{
    let first = choose|date: CivilDate| #[trigger]
        date.is_day(earlier as int / 86400) && earlier_label@ == compact_label(
            date,
            (earlier % 86400) as nat,
        );
    let second = choose|date: CivilDate| #[trigger]
        date.is_day(later as int / 86400) && later_label@ == compact_label(
            date,
            (later % 86400) as nat,
        );
    lemma_within_four_digits(first, earlier as int / 86400);
    lemma_within_four_digits(second, later as int / 86400);
    labels_grow_with_time(
        first,
        (earlier % 86400) as nat,
        second,
        (later % 86400) as nat,
    );
}

} // verus!
