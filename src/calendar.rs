use vstd::prelude::*;

verus! {

/// Days are numbered from 1 January of year 1 in the proleptic Gregorian
/// calendar, which is day 1 and a Monday (chrono's `num_days_from_ce`).
/// This is the last day the library works with, in the year 8214.
pub const LAST_DAY: i32 = 3_000_000;

/// The last day a fetch may ask for: past `LAST_DAY` by more than any
/// lookahead window reaches (a window holds at most 65535 days).
pub const LAST_FETCH_DAY: i32 = 3_070_000;

/// Whether a day number lies in the range the library works with.
pub open spec fn day_in_range(day: int) -> bool {
    1 <= day <= LAST_DAY
}

/// Days since the Monday that starts the day's week: 0 for a Monday, 6 for a
/// Sunday.
pub open spec fn days_since_monday(day: int) -> int {
    (day - 1) % 7
}

/// The day's date as DD-MM-YYYY.
pub uninterp spec fn dmy_text(day: int) -> Seq<char>;

/// Days since the Monday that starts the day's week.
pub fn weekday_offset(day: i32) -> (r: i32)
    requires
        day_in_range(day as int),
    ensures
        r == days_since_monday(day as int),
        0 <= r < 7,
{
    (day - 1) % 7
}

/// Relies on chrono's `NaiveDate::from_num_days_from_ce_opt`, which gives a
/// date for every day from 1 to `LAST_FETCH_DAY` (years 1 to 8406 lie inside
/// `NaiveDate::MIN..=NaiveDate::MAX`), and on `format("%d-%m-%Y")` for the
/// text; the text depends on the day alone.
#[verifier::external_body]
pub(crate) fn date_text(day: i32) -> (r: String)
    requires
        1 <= day <= LAST_FETCH_DAY,
    ensures
        r@ == dmy_text(day as int),
{
    chrono::NaiveDate::from_num_days_from_ce_opt(day).unwrap().format("%d-%m-%Y").to_string()
}

} // verus!
