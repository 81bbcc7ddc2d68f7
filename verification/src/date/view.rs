//! The month the calendar panel looks at, and where today falls in it.

use vstd::prelude::*;

use crate::date::grid::{
    GRID_CELLS, GRID_COLUMNS, PlainDate, grid_cell, lemma_grid_cell_of_day, shift_month, shift_month_fits, shift_month_spec, valid_date,
    weekday_from_sunday, weekday_from_sunday_of,
};

verus! {

/// The month on show, today's date, and whether the month on show is the
/// current one.
#[derive(Debug, Clone, Copy, PartialEq, Eq, Structural)]
pub struct MonthView {
    pub year: i32,
    pub month: u32,
    pub today: PlainDate,
    pub viewing_current_month: bool,
}

/// The view `month_offset` months away from today's month.
pub fn month_view(today: PlainDate, month_offset: i32) -> (r: MonthView)
    requires
        shift_month_fits(today.year, today.month, month_offset),
    ensures
        (r.year, r.month) == shift_month_spec(today.year, today.month, month_offset),
        r.today == today,
        r.viewing_current_month == (month_offset == 0),
{
    let (year, month) = shift_month(today.year, today.month, month_offset);
    MonthView { year, month, today, viewing_current_month: month_offset == 0 }
}

/// The day to mark as today: only in the current month's view.
pub open spec fn today_day_spec(view: MonthView) -> Option<u8> {
    if view.viewing_current_month && view.today.year == view.year && view.today.month == view.month {
        Some(view.today.day as u8)
    } else {
        None
    }
}

/// The first cell from `i` on that holds `day`.
pub open spec fn first_cell_of(grid: Seq<Option<u8>>, day: u8, i: int) -> Option<int>
    decreases grid.len() - i,
{
    if i < 0 || i >= grid.len() {
        None
    } else if grid[i] == Some(day) {
        Some(i)
    } else {
        first_cell_of(grid, day, i + 1)
    }
}

/// The grid row holding `day`: that of the first cell holding it.
pub open spec fn row_of_day(grid: Seq<Option<u8>>, day: u8) -> Option<usize> {
    match first_cell_of(grid, day, 0) {
        Some(i) => Some((i / (GRID_COLUMNS as int)) as usize),
        None => None,
    }
}

impl MonthView {
    pub fn today_day(&self) -> (r: Option<u8>)
        ensures
            r == today_day_spec(*self),
    {
        if self.viewing_current_month && self.today.year == self.year && self.today.month == self.month {
            Some(self.today.day as u8)
        } else {
            None
        }
    }

    /// The weekday column of today, counted from Sunday, in the current
    /// month's view.
    pub fn today_column(&self) -> (r: Option<usize>)
        ensures
            !self.viewing_current_month ==> r is None,
            self.viewing_current_month && valid_date(
                self.today.year as int,
                self.today.month as int,
                self.today.day as int,
            ) ==> r == Some(weekday_from_sunday_of(self.today.year, self.today.month, self.today.day) as usize),
            r matches Some(c) ==> c < GRID_COLUMNS,
    {
        if !self.viewing_current_month {
            return None;
        }
        match weekday_from_sunday(self.today.year, self.today.month, self.today.day) {
            Some(w) => Some(w as usize),
            None => None,
        }
    }
}

/// The row of the grid that holds `day`, if any.
pub fn today_row(grid: &[Option<u8>; 42], day: Option<u8>) -> (r: Option<usize>)
    ensures
        r == match day {
            Some(d) => row_of_day(grid@, d),
            None => None,
        },
{
    let d = match day {
        Some(d) => d,
        None => return None,
    };
    let mut i: usize = 0;
    while i < GRID_CELLS
        invariant
            i <= GRID_CELLS,
            grid@.len() == GRID_CELLS,
            day == Some(d),
            first_cell_of(grid@, d, 0) == first_cell_of(grid@, d, i as int),
        decreases GRID_CELLS - i,
    {
        let found = match grid[i] {
            Some(x) => x == d,
            None => false,
        };
        if found {
            return Some(i / GRID_COLUMNS);
        }
        i = i + 1;
    }
    None
}

proof fn lemma_first_cell_of_day(start: int, days: int, day: u8, i: int)
    requires
        0 <= start < 7,
        1 <= day <= days <= 31,
        0 <= i <= start + day - 1,
    ensures
        first_cell_of(Seq::new(42, |k: int| grid_cell(start, days, k)), day, i) == Some(start + day - 1),
    decreases start + day - 1 - i,
{
    let g = Seq::new(42, |k: int| grid_cell(start, days, k));
    lemma_grid_cell_of_day(start, days, day as int);
    if i < start + day - 1 {
        assert(g[i] != Some(day));
        lemma_first_cell_of_day(start, days, day, i + 1);
    }
}

/// Today's cell is found in the row that holds day `day` of a month whose
/// first day sits in column `start`.
pub proof fn lemma_today_row(start: int, days: int, day: u8)
    requires
        0 <= start < 7,
        1 <= day <= days <= 31,
    ensures
        row_of_day(Seq::new(42, |k: int| grid_cell(start, days, k)), day) == Some(
            ((start + day - 1) / 7) as usize,
        ),
{
    lemma_first_cell_of_day(start, days, day, 0);
}

/// Sundays and Saturdays, the first and last columns.
pub fn is_weekend_column(column: usize) -> (r: bool)
    ensures
        r == (column == 0 || column == GRID_COLUMNS - 1),
{
    column == 0 || column == GRID_COLUMNS - 1
}

} // verus!
