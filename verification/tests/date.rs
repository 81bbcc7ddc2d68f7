use chrono::Datelike;
use hyprbar::components::{ComponentAction, ComponentTag, DropdownId, Interaction};
use hyprbar::date::action::CalendarAction;
use hyprbar::date::grid::{PlainDate, days_in_month, month_grid, rows_in_month, shift_month, sunday_offset, week_number};
use hyprbar::date::view::{is_weekend_column, month_view, today_row};
use hyprbar::date::pill::{DatePanel, DatePill, MAX_MONTH_OFFSET, day_month};

#[test]
fn shift_month_crosses_years() {
    assert_eq!(shift_month(2024, 1, -1), (2023, 12));
    assert_eq!(shift_month(2024, 12, 1), (2025, 1));
    assert_eq!(shift_month(2024, 5, 0), (2024, 5));
    assert_eq!(shift_month(2024, 5, 25), (2026, 6));
    assert_eq!(shift_month(2024, 5, -17), (2022, 12));
}

#[test]
fn month_lengths() {
    assert_eq!(days_in_month(2024, 2), 29);
    assert_eq!(days_in_month(2023, 2), 28);
    assert_eq!(days_in_month(1900, 2), 28);
    assert_eq!(days_in_month(2000, 2), 29);
    assert_eq!(days_in_month(2024, 12), 31);
    assert_eq!(days_in_month(2024, 4), 30);
    assert_eq!(days_in_month(2024, 13), 30);
}

#[test]
fn first_weekday_from_sunday() {
    assert_eq!(sunday_offset(2024, 9), 0);
    assert_eq!(sunday_offset(2024, 2), 4);
    assert_eq!(sunday_offset(2024, 13), 0);
}

#[test]
fn rows_of_months() {
    assert_eq!(rows_in_month(2026, 2), 4);
    assert_eq!(rows_in_month(2024, 9), 5);
    assert_eq!(rows_in_month(2025, 8), 6);
}

#[test]
fn grid_cells() {
    let grid = month_grid(2024, 2);
    assert_eq!(&grid[0..5], &[None, None, None, None, Some(1)]);
    assert_eq!(grid[32], Some(29));
    assert_eq!(grid[33], None);
    assert_eq!(grid.iter().filter(|c| c.is_some()).count(), 29);
}

#[test]
fn iso_weeks_of_rows() {
    assert_eq!(week_number(2024, 1, 0), Some(1));
    assert_eq!(week_number(2021, 1, 0), Some(53));
    assert_eq!(week_number(2024, 13, 0), None);
}

#[test]
fn calendar_actions_round_trip() {
    for action in [CalendarAction::PrevMonth, CalendarAction::NextMonth, CalendarAction::Today] {
        assert_eq!(CalendarAction::from_interaction(action.interaction()), Some(action));
        assert_eq!(CalendarAction::from_code(action.code()), Some(action));
    }
    assert_eq!(CalendarAction::from_code(3), None);
    let foreign = Interaction::Action(ComponentAction::new(ComponentTag::Clock, 0));
    assert_eq!(CalendarAction::from_interaction(foreign), None);
}

#[test]
fn date_pill_navigates_and_clamps() {
    let mut pill = DatePill::new();
    assert_eq!(pill.month_offset(), 0);
    assert!(!pill.handle_interaction(CalendarAction::Today.interaction()));
    assert!(pill.handle_interaction(CalendarAction::PrevMonth.interaction()));
    assert_eq!(pill.month_offset(), -1);
    assert!(pill.handle_interaction(CalendarAction::NextMonth.interaction()));
    assert!(pill.handle_interaction(CalendarAction::NextMonth.interaction()));
    assert_eq!(pill.month_offset(), 1);
    assert!(pill.handle_interaction(CalendarAction::Today.interaction()));
    assert_eq!(pill.month_offset(), 0);
    for _ in 0..1300 {
        pill.handle_interaction(CalendarAction::NextMonth.interaction());
    }
    assert_eq!(pill.month_offset(), MAX_MONTH_OFFSET);
    assert!(!pill.handle_interaction(Interaction::Dropdown(DropdownId::Date)));
    pill.close();
    assert_eq!(pill.month_offset(), 0);
}

#[test]
fn date_pill_text() {
    let mut pill = DatePill::new();
    assert!(pill.is_active(Some(DropdownId::Date)));
    assert!(!pill.is_active(None));
    pill.set_frame_text(day_month(5, 3));
    assert_eq!(pill.take_frame_text().as_deref(), Some("05/03"));
    assert_eq!(pill.take_frame_text(), None);
    assert_eq!(DatePanel { month_offset: 2 }.month_offset, 2);
}

#[test]
fn month_view_marks_today() {
    let today = PlainDate { year: 2024, month: 2, day: 15 };
    let view = month_view(today, 0);
    assert_eq!((view.year, view.month, view.viewing_current_month), (2024, 2, true));
    assert_eq!(view.today_day(), Some(15));
    assert_eq!(view.today_column(), Some(4));
    let grid = month_grid(2024, 2);
    assert_eq!(today_row(&grid, view.today_day()), Some(2));
    let other = month_view(today, -2);
    assert_eq!((other.year, other.month), (2023, 12));
    assert_eq!(other.today_day(), None);
    assert_eq!(other.today_column(), None);
    assert_eq!(today_row(&grid, None), None);
    assert_eq!(today_row(&grid, Some(30)), None);
    assert!(is_weekend_column(0) && is_weekend_column(6) && !is_weekend_column(3));
}

/// The day count from 1970-01-01 that the grid's contract states the
/// weekday by, written out on `i64` to hold it against `chrono`.
fn days_from_civil(year: i64, month: i64, day: i64) -> i64 {
    let y = if month <= 2 { year - 1 } else { year };
    let era = y.div_euclid(400);
    let year_of_era = y - era * 400;
    let month_from_march = (month + 9).rem_euclid(12);
    let day_of_year = (153 * month_from_march + 2).div_euclid(5) + day - 1;
    let day_of_era = year_of_era * 365 + year_of_era.div_euclid(4) - year_of_era.div_euclid(100) + day_of_year;
    era * 146097 + day_of_era - 719468
}

#[test]
fn stated_weekday_agrees_with_chrono() {
    let mut years: Vec<i32> = (-2400..=2600).collect();
    years.extend(-262143..=-262100);
    years.extend(262100..=262142);
    for year in years {
        for month in 1..=12u32 {
            for day in [1u32, 2, 15, 28, 29, 30, 31] {
                let Some(date) = chrono::NaiveDate::from_ymd_opt(year, month, day) else {
                    continue;
                };
                let stated = (days_from_civil(year as i64, month as i64, day as i64) + 4).rem_euclid(7);
                assert_eq!(stated, date.weekday().num_days_from_sunday() as i64, "{year}-{month}-{day}");
                if day == 1 {
                    assert_eq!(sunday_offset(year, month) as i64, stated);
                }
            }
        }
    }
    assert_eq!(days_from_civil(1970, 1, 1), 0);
}

/// The year of a day count, as the grid's contract states it.
fn civil_year_of(n: i64) -> i64 {
    let z = n + 719468;
    let era = z.div_euclid(146097);
    let day_of_era = z - era * 146097;
    let year_of_era = (day_of_era - day_of_era.div_euclid(1460) + day_of_era.div_euclid(36524)
        - day_of_era.div_euclid(146096))
    .div_euclid(365);
    let day_of_year = day_of_era - (365 * year_of_era + year_of_era.div_euclid(4) - year_of_era.div_euclid(100));
    let month_from_march = (5 * day_of_year + 2).div_euclid(153);
    let y = year_of_era + era * 400;
    if month_from_march < 10 { y } else { y + 1 }
}

/// The ISO week of a day count, as the grid's contract states it.
fn iso_week_of_day(n: i64) -> i64 {
    let thursday = n - (n + 3).rem_euclid(7) + 3;
    (thursday - days_from_civil(civil_year_of(thursday), 1, 1)).div_euclid(7) + 1
}

#[test]
fn stated_iso_week_agrees_with_chrono() {
    let mut years: Vec<i32> = (-1200..=2800).collect();
    years.extend(-262143..=-262130);
    years.extend(262130..=262142);
    for year in years {
        for month in 1..=12u32 {
            let first = chrono::NaiveDate::from_ymd_opt(year, month, 1).unwrap();
            let base = days_from_civil(year as i64, month as i64, 1);
            for days in [-400i64, -8, -1, 0, 3, 6, 13, 20, 27, 34, 41, 400] {
                let reached = first.checked_add_signed(chrono::TimeDelta::days(days));
                let n = base + days;
                let min = days_from_civil(-262143, 1, 1);
                let max = days_from_civil(262142, 12, 31);
                assert_eq!(reached.is_some(), min <= n && n <= max, "{year}-{month} {days}");
                if let Some(date) = reached {
                    assert_eq!(civil_year_of(n), date.year() as i64, "{year}-{month} {days}");
                    assert_eq!(iso_week_of_day(n), date.iso_week().week() as i64, "{year}-{month} {days}");
                }
            }
        }
    }
}

#[test]
fn week_numbers_of_a_whole_year() {
    for month in 1..=12u32 {
        for row in 0..rows_in_month(2026, month) {
            let week = week_number(2026, month, row).unwrap();
            let offset = sunday_offset(2026, month) as i64;
            let n = days_from_civil(2026, month as i64, 1) + row as i64 * 7 + 6 - offset;
            assert_eq!(week as i64, iso_week_of_day(n));
        }
    }
}

#[test]
fn week_number_of_an_invalid_month_is_none_for_any_row() {
    assert_eq!(week_number(2024, 13, usize::MAX), None);
    assert_eq!(week_number(2024, 0, 3), None);
}
