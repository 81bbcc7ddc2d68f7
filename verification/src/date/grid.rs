//! Calendar arithmetic behind the month grid: weeks start on Sunday and
//! the grid has six rows of seven days.

use vstd::prelude::*;

verus! {

pub const GRID_ROWS: usize = 6;
pub const GRID_COLUMNS: usize = 7;
pub const GRID_CELLS: usize = 42;

/// Earliest and latest years a `chrono::NaiveDate` can hold.
pub const MIN_YEAR: i32 = -262143;
pub const MAX_YEAR: i32 = 262142;

/// Days a `chrono::TimeDelta` can span either way.
pub const MAX_DELTA_DAYS: i64 = 106_751_991_167;

/// Gregorian leap years, counted proleptically (year 0 is 1 BCE).
pub open spec fn is_leap_year(year: int) -> bool {
    (year % 4 == 0 && year % 100 != 0) || year % 400 == 0
}

/// Number of days of a month (1 to 12) of the proleptic Gregorian calendar.
pub open spec fn month_length(year: int, month: int) -> int {
    if month == 2 {
        if is_leap_year(year) { 29 } else { 28 }
    } else if month == 4 || month == 6 || month == 9 || month == 11 {
        30
    } else {
        31
    }
}

/// Whether `chrono::NaiveDate` can hold the given calendar date.
pub open spec fn valid_date(year: int, month: int, day: int) -> bool {
    &&& MIN_YEAR <= year <= MAX_YEAR
    &&& 1 <= month <= 12
    &&& 1 <= day <= month_length(year, month)
}

/// The month before `month` of `year`.
pub open spec fn previous_month(year: int, month: int) -> (int, int) {
    if month == 1 { (year - 1, 12) } else { (year, month - 1) }
}

/// A calendar date as plain numbers.
#[derive(Debug, Clone, Copy, PartialEq, Eq, Structural)]
pub struct PlainDate {
    pub year: i32,
    pub month: u32,
    pub day: u32,
}

/// Days from 1970-01-01 to a date of the proleptic Gregorian calendar
/// (negative before it): the year is counted from March, so that the leap
/// day closes it, in eras of 400 years of 146097 days.
pub open spec fn days_from_civil(year: int, month: int, day: int) -> int {
    let y = if month <= 2 { year - 1 } else { year };
    let era = y / 400;
    let year_of_era = y - era * 400;
    let month_from_march = (month + 9) % 12;
    let day_of_year = (153 * month_from_march + 2) / 5 + day - 1;
    let day_of_era = year_of_era * 365 + year_of_era / 4 - year_of_era / 100 + day_of_year;
    era * 146097 + day_of_era - 719468
}

/// The day of the week of a date, counted from Sunday (1970-01-01 was a
/// Thursday).
pub open spec fn weekday_from_sunday_of(year: i32, month: u32, day: u32) -> u32 {
    ((days_from_civil(year as int, month as int, day as int) + 4) % 7) as u32
}

/// The year of the date `n` days after 1970-01-01: the inverse of
/// `days_from_civil` on the year.
pub open spec fn civil_year_of(n: int) -> int {
    let z = n + 719468;
    let era = z / 146097;
    let day_of_era = z - era * 146097;
    let year_of_era = (day_of_era - day_of_era / 1460 + day_of_era / 36524 - day_of_era / 146096) / 365;
    let day_of_year = day_of_era - (365 * year_of_era + year_of_era / 4 - year_of_era / 100);
    let month_from_march = (5 * day_of_year + 2) / 153;
    let y = year_of_era + era * 400;
    if month_from_march < 10 { y } else { y + 1 }
}

/// ISO week of the date `n` days after 1970-01-01: a week runs from Monday
/// to Sunday and belongs to the year of its Thursday, counted from that
/// year's first Thursday.
pub open spec fn iso_week_of_day(n: int) -> u32 {
    let thursday = n - (n + 3) % 7 + 3;
    ((thursday - days_from_civil(civil_year_of(thursday), 1, 1)) / 7 + 1) as u32
}

/// Whether the date `n` days after 1970-01-01 is one `chrono` can hold.
pub open spec fn day_in_range(n: int) -> bool {
    days_from_civil(MIN_YEAR as int, 1, 1) <= n <= days_from_civil(MAX_YEAR as int, 12, 31)
}

/// The ISO week of the date `days` days after the first of a month, when
/// `chrono` can hold the first and that date.
pub open spec fn iso_week_after_first(year: i32, month: u32, days: i64) -> Option<u32> {
    let target = days_from_civil(year as int, month as int, 1) + days;
    if valid_date(year as int, month as int, 1) && day_in_range(target) {
        Some(iso_week_of_day(target))
    } else {
        None
    }
}

/// The day of the month of the day before the first of `month`, when
/// `chrono` can hold both dates: the length of the previous month.
pub open spec fn day_before_first_spec(year: i32, month: u32) -> Option<u32> {
    if valid_date(year as int, month as int, 1) && !(year == MIN_YEAR && month == 1) {
        let (py, pm) = previous_month(year as int, month as int);
        Some(month_length(py, pm) as u32)
    } else {
        None
    }
}

/// The day of the month of the day before the first of `month`
/// (`NaiveDate::from_ymd_opt(year, month, 1)`, then `pred_opt()`, then
/// `day()`), or `None` when `chrono` cannot hold one of the two dates.
#[verifier::external_body]
fn day_before_first(year: i32, month: u32) -> (r: Option<u32>)
    ensures
        r == day_before_first_spec(year, month),
{
    chrono::NaiveDate::from_ymd_opt(year, month, 1).and_then(|date| date.pred_opt()).map(|date| chrono::Datelike::day(&date))
}

/// The day of the week of a date counted from Sunday
/// (`NaiveDate::from_ymd_opt`, then `weekday().num_days_from_sunday()`),
/// or `None` when `chrono` cannot hold the date. `chrono` counts dates on
/// the proleptic Gregorian calendar, where the weekday is the one the day
/// count from 1970-01-01 gives.
#[verifier::external_body]
pub(crate) fn weekday_from_sunday(year: i32, month: u32, day: u32) -> (r: Option<u32>)
    ensures
        r is Some <==> valid_date(year as int, month as int, day as int),
        r matches Some(w) ==> w == weekday_from_sunday_of(year, month, day),
{
    chrono::NaiveDate::from_ymd_opt(year, month, day).map(|date| chrono::Datelike::weekday(&date).num_days_from_sunday())
}

/// The ISO week of the date `days` days after the first of a month
/// (`NaiveDate::from_ymd_opt`, `checked_add_signed(TimeDelta::days(days))`,
/// `iso_week().week()`): `None` when `chrono` cannot hold the first or the
/// date reached; ISO weeks run from 1 to 53.
#[verifier::external_body]
fn iso_week_of_offset(year: i32, month: u32, days: i64) -> (r: Option<u32>)
    requires
        -MAX_DELTA_DAYS <= days <= MAX_DELTA_DAYS,
    ensures
        r == iso_week_after_first(year, month, days),
        r matches Some(w) ==> 1 <= w <= 53,
{
    chrono::NaiveDate::from_ymd_opt(year, month, 1)
        .and_then(|first| first.checked_add_signed(chrono::TimeDelta::days(days)))
        .map(|date| chrono::Datelike::iso_week(&date).week())
}

/// The month `offset` months away from `month` of `year`.
pub open spec fn shift_month_spec(year: i32, month: u32, offset: i32) -> (i32, u32) {
    let index = year * 12 + (month as i32) - 1 + offset;
    ((index / 12) as i32, (index % 12 + 1) as u32)
}

/// The month count `year * 12 + month - 1 + offset` does not leave `i32`
/// on the way (where the computation would overflow).
pub open spec fn shift_month_fits(year: i32, month: u32, offset: i32) -> bool {
    &&& i32::MIN <= year * 12 <= i32::MAX
    &&& i32::MIN <= year * 12 + (month as i32) <= i32::MAX
    &&& i32::MIN <= year * 12 + (month as i32) - 1 <= i32::MAX
    &&& i32::MIN <= year * 12 + (month as i32) - 1 + offset <= i32::MAX
}

pub fn shift_month(year: i32, month: u32, offset: i32) -> (r: (i32, u32))
    requires
        shift_month_fits(year, month, offset),
    ensures
        r == shift_month_spec(year, month, offset),
        1 <= r.1 <= 12,
{
    let index = year * 12 + month as i32 - 1 + offset;
    let q = index.checked_div_euclid(12).unwrap();
    let m = index.checked_rem_euclid(12).unwrap();
    (q, m as u32 + 1)
}

/// The month after `month` of `year`.
pub open spec fn next_month(year: int, month: int) -> (int, int) {
    if month == 12 { (year + 1, 1) } else { (year, month + 1) }
}

/// Days of `month` of `year`, or 30 when `chrono` cannot tell.
pub open spec fn days_in_month_spec(year: i32, month: u32) -> u32 {
    let (ny, nm) = next_month(year as int, month as int);
    if valid_date(ny, nm, 1) && !(ny == MIN_YEAR && nm == 1) {
        month_length(previous_month(ny, nm).0, previous_month(ny, nm).1) as u32
    } else {
        30
    }
}

/// Where moving on to the next month would overflow.
pub open spec fn next_month_fits(year: i32, month: u32) -> bool {
    month != u32::MAX && !(month == 12 && year == i32::MAX)
}

pub fn days_in_month(year: i32, month: u32) -> (r: u32)
    requires
        next_month_fits(year, month),
    ensures
        r == days_in_month_spec(year, month),
        1 <= month <= 12 && MIN_YEAR <= year <= MAX_YEAR && (year < MAX_YEAR || month < 12) ==> r
            == month_length(
            year as int,
            month as int,
        ),
        28 <= r <= 31,
{
    let (next_year, next_month) = if month == 12 { (year + 1, 1) } else { (year, month + 1) };
    match day_before_first(next_year, next_month) {
        Some(day) => day,
        None => 30,
    }
}

/// Empty cells before the first of the month, in a week that starts on
/// Sunday.
pub open spec fn sunday_offset_spec(year: i32, month: u32) -> u32 {
    if valid_date(year as int, month as int, 1) {
        weekday_from_sunday_of(year, month, 1)
    } else {
        0
    }
}

pub fn sunday_offset(year: i32, month: u32) -> (r: u32)
    ensures
        r == sunday_offset_spec(year, month),
        r < 7,
{
    match weekday_from_sunday(year, month, 1) {
        Some(w) => w,
        None => 0,
    }
}

/// Rows the month takes: its cells rounded up to whole weeks, kept
/// between 1 and 6.
pub open spec fn rows_spec(offset: int, days: int) -> int {
    let rows = (offset + days + 6) / 7;
    if rows < 1 { 1 } else if rows > 6 { 6 } else { rows }
}

pub fn rows_in_month(year: i32, month: u32) -> (r: usize)
    requires
        next_month_fits(year, month),
    ensures
        r == rows_spec(
            sunday_offset_spec(year, month) as int,
            days_in_month_spec(year, month) as int,
        ),
        1 <= r <= GRID_ROWS,
{
    let cells = sunday_offset(year, month) as usize + days_in_month(year, month) as usize;
    let rows = (cells + 6) / 7;
    if rows < 1 {
        1
    } else if rows > GRID_ROWS {
        GRID_ROWS
    } else {
        rows
    }
}

/// Days from the first of the month to the Saturday that closes `row`.
pub open spec fn saturday_of_row(year: i32, month: u32, row: usize) -> int {
    row * 7 + 6 - sunday_offset_spec(year, month)
}

/// ISO week of a grid row. The anchor is the Saturday that closes the row,
/// so a lone Sunday does not drag the previous week along.
pub fn week_number(year: i32, month: u32, row: usize) -> (r: Option<u32>)
    requires
        valid_date(year as int, month as int, 1) ==> saturday_of_row(year, month, row) <= MAX_DELTA_DAYS,
    ensures
        r == if valid_date(year as int, month as int, 1) {
            iso_week_after_first(year, month, saturday_of_row(year, month, row) as i64)
        } else {
            None::<u32>
        },
        r matches Some(w) ==> 1 <= w <= 53,
{
    let offset = match weekday_from_sunday(year, month, 1) {
        Some(w) => w,
        None => return None,
    };
    let days = row as i64 * 7 + 6 - offset as i64;
    iso_week_of_offset(year, month, days)
}

/// Cell `index` of the grid of a month that starts after `start` empty
/// cells and has `days` days.
pub open spec fn grid_cell(start: int, days: int, index: int) -> Option<u8> {
    if start <= index && index - start < days {
        Some((index - start + 1) as u8)
    } else {
        None
    }
}

/// The month as 42 cells: the day number in each cell it covers.
pub fn month_grid(year: i32, month: u32) -> (r: [Option<u8>; 42])
    requires
        next_month_fits(year, month),
    ensures
        forall|i: int| 0 <= i < 42 ==> #[trigger] r@[i] == grid_cell(
            sunday_offset_spec(year, month) as int,
            days_in_month_spec(year, month) as int,
            i,
        ),
{
    let mut grid: [Option<u8>; 42] = [None; 42];
    let start = sunday_offset(year, month) as usize;
    let days = days_in_month(year, month);
    let mut day: u32 = 1;
    while day <= days
        invariant
            1 <= day <= days + 1,
            days <= 31,
            start < 7,
            start == sunday_offset_spec(year, month),
            days == days_in_month_spec(year, month),
            forall|i: int| 0 <= i < 42 ==> #[trigger] grid@[i] == grid_cell(
                start as int,
                (day - 1) as int,
                i,
            ),
        decreases days + 1 - day,
    {
        let index = start + day as usize - 1;
        if index < GRID_CELLS {
            grid[index] = Some(day as u8);
        }
        day = day + 1;
    }
    grid
}

/// Moving by one offset and then another is moving by their sum.
pub proof fn lemma_shift_month_compose(year: i32, month: u32, a: i32, b: i32)
    requires
        1 <= month <= 12,
        shift_month_fits(year, month, a),
        i32::MIN <= a + b <= i32::MAX,
        shift_month_fits(year, month, (a + b) as i32),
        shift_month_fits(shift_month_spec(year, month, a).0, shift_month_spec(year, month, a).1, b),
    ensures
        shift_month_spec(
            shift_month_spec(year, month, a).0,
            shift_month_spec(year, month, a).1,
            b,
        ) == shift_month_spec(year, month, (a + b) as i32),
{
    let index = year * 12 + (month as i32) - 1 + a;
    let q = index / 12;
    let m = index % 12;
    assert(q * 12 + m == index) by (nonlinear_arith)
        requires q == index / 12, m == index % 12;
    let index2 = (q as i32) * 12 + ((m + 1) as u32 as i32) - 1 + b;
    assert(index2 == index + b);
}

/// Moving by no month stays put, by one month goes to the next month
/// (January of the next year after December), and by minus one goes to the
/// previous month (December of the year before after January).
pub proof fn lemma_shift_month_steps(year: i32, month: u32)
    requires
        1 <= month <= 12,
        shift_month_fits(year, month, 1i32),
        shift_month_fits(year, month, -1i32),
    ensures
        shift_month_spec(year, month, 0i32) == (year, month),
        shift_month_spec(year, month, 1i32).0 == next_month(year as int, month as int).0,
        shift_month_spec(year, month, 1i32).1 == next_month(year as int, month as int).1,
        shift_month_spec(year, month, -1i32).0 == previous_month(year as int, month as int).0,
        shift_month_spec(year, month, -1i32).1 == previous_month(year as int, month as int).1,
{
    let base = year * 12 + (month as i32) - 1;
    assert(base / 12 == year && base % 12 == month - 1) by (nonlinear_arith)
        requires base == year * 12 + month - 1, 1 <= month <= 12;
    if month == 12 {
        assert((base + 1) / 12 == year + 1 && (base + 1) % 12 == 0) by (nonlinear_arith)
            requires base == year * 12 + 11;
    } else {
        assert((base + 1) / 12 == year && (base + 1) % 12 == month) by (nonlinear_arith)
            requires base == year * 12 + month - 1, 1 <= month < 12;
    }
    if month == 1 {
        assert((base - 1) / 12 == year - 1 && (base - 1) % 12 == 11) by (nonlinear_arith)
            requires base == year * 12;
    } else {
        assert((base - 1) / 12 == year && (base - 1) % 12 == month - 2) by (nonlinear_arith)
            requires base == year * 12 + month - 1, 1 < month <= 12;
    }
}

/// Every day of the month lands in exactly one cell: day `d` in cell
/// `offset + d - 1`.
pub proof fn lemma_grid_cell_of_day(start: int, days: int, day: int)
    requires
        0 <= start,
        1 <= day <= days <= 31,
    ensures
        grid_cell(start, days, start + day - 1) == Some(day as u8),
        forall|i: int| i != start + day - 1 ==> grid_cell(start, days, i) != Some(day as u8),
{
}

/// Every day of a month lands in the column of its own weekday: the grid
/// puts day `day` in cell `offset + day - 1`, and that cell's column is
/// the weekday of the date.
pub proof fn lemma_day_in_its_weekday_column(year: i32, month: u32, day: u32)
    requires
        valid_date(year as int, month as int, day as int),
    ensures
        (sunday_offset_spec(year, month) + day - 1) % 7 == weekday_from_sunday_of(year, month, day) as int,
{
    let first = days_from_civil(year as int, month as int, 1);
    assert(days_from_civil(year as int, month as int, day as int) == first + day - 1);
    vstd::arithmetic::div_mod::lemma_add_mod_noop(first + 4, day - 1, 7);
    vstd::arithmetic::div_mod::lemma_mod_twice(day - 1, 7);
    vstd::arithmetic::div_mod::lemma_add_mod_noop((first + 4) % 7, day - 1, 7);
    vstd::arithmetic::div_mod::lemma_mod_twice(first + 4, 7);
}

/// A month takes the weeks its cells cover and no more: its last day lies
/// in its last row, and every row before holds one of its days.
pub proof fn lemma_rows_cover_the_month(year: i32, month: u32)
    ensures
        ({
            let offset = sunday_offset_spec(year, month) as int;
            let days = days_in_month_spec(year, month) as int;
            let rows = rows_spec(offset, days);
            &&& 4 <= rows <= 6
            &&& (rows - 1) * 7 < offset + days <= rows * 7
            &&& (offset + days - 1) / 7 == rows - 1
        }),
{
    let offset = sunday_offset_spec(year, month) as int;
    let days = days_in_month_spec(year, month) as int;
    assert(0 <= offset < 7);
    assert(28 <= days <= 31) by {
        let (ny, nm) = next_month(year as int, month as int);
        if valid_date(ny, nm, 1) && !(ny == MIN_YEAR && nm == 1) {
            let (py, pm) = previous_month(ny, nm);
            assert(28 <= month_length(py, pm) <= 31);
        }
    }
}

} // verus!
