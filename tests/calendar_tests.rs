use chrono::Weekday;
use fuzzy_picker::calendar::{
    calendar_days, datepicker, day_num, get_days_in_month, CalendarDate, CalendarDays,
    DateMessage, DayKind,
};

fn date(y: i32, m: u32, d: u32) -> CalendarDate {
    CalendarDate::new(y, m, d).unwrap()
}

#[test]
fn month_lengths() {
    assert_eq!(get_days_in_month(date(2024, 2, 10)), 29);
    assert_eq!(get_days_in_month(date(2023, 2, 1)), 28);
    assert_eq!(get_days_in_month(date(1900, 2, 1)), 28);
    assert_eq!(get_days_in_month(date(2000, 2, 1)), 29);
    assert_eq!(get_days_in_month(date(2023, 4, 30)), 30);
    assert_eq!(get_days_in_month(date(2023, 12, 31)), 31);
    assert_eq!(get_days_in_month(date(2023, 1, 1)), 31);
}

#[test]
fn invalid_dates_are_refused() {
    assert!(CalendarDate::new(2023, 2, 29).is_none());
    assert!(CalendarDate::new(2023, 13, 1).is_none());
    assert!(CalendarDate::new(2023, 4, 31).is_none());
    assert!(CalendarDate::new(2023, 1, 0).is_none());
    assert!(CalendarDate::new(2024, 2, 29).is_some());
}

#[test]
fn weekday_columns_start_on_sunday() {
    assert_eq!(day_num(Weekday::Sun), 0);
    assert_eq!(day_num(Weekday::Mon), 1);
    assert_eq!(day_num(Weekday::Wed), 3);
    assert_eq!(day_num(Weekday::Sat), 6);
}

#[test]
fn march_2024_layout() {
    // 2024-03-01 is a Friday, 2024-03-31 a Sunday.
    let c = calendar_days(date(2024, 3, 15));
    assert_eq!(c, CalendarDays { start_blanks: 5, days: 31, end_blanks: 6 });
    let cells = c.into_cells();
    assert_eq!(cells.len(), 42);
    assert_eq!(cells[4], DayKind::Blank);
    assert_eq!(cells[5], DayKind::Day(1));
    assert_eq!(cells[35], DayKind::Day(31));
    assert_eq!(cells[36], DayKind::Blank);
}

#[test]
fn february_2015_fills_four_rows() {
    // 2015-02-01 is a Sunday and 2015-02-28 a Saturday.
    let c = calendar_days(date(2015, 2, 1));
    assert_eq!(c, CalendarDays { start_blanks: 0, days: 28, end_blanks: 0 });
    assert_eq!(c.into_cells().len(), 28);
}

#[test]
fn date_picker_moves_each_end() {
    let mut p = datepicker(date(2023, 6, 1), date(2024, 1, 9));
    // 2023-06-01 is a Thursday, 2023-06-30 a Friday.
    assert_eq!(p.grid, CalendarDays { start_blanks: 4, days: 30, end_blanks: 1 });
    p.update(DateMessage::EndDate(date(2024, 2, 1)));
    assert_eq!(p.start_date, date(2023, 6, 1));
    assert_eq!(p.end_date, date(2024, 2, 1));
    p.update(DateMessage::StartDate(date(2023, 7, 1)));
    assert_eq!(p.start_date, date(2023, 7, 1));
    assert_eq!(p.end_date, date(2024, 2, 1));
    assert_eq!(p.grid, calendar_days(date(2023, 6, 1)));
}

#[test]
fn month_grids_fill_whole_weeks() {
    for (y, m) in [(2024, 2), (2023, 2), (2015, 2), (2024, 3), (2023, 12), (1, 1), (-5, 7)] {
        let c = calendar_days(date(y, m, 1));
        let cells = c.into_cells().len();
        assert_eq!(cells % 7, 0);
        assert!(28 <= cells && cells <= 42);
    }
    // 0001-01-01 was a Monday.
    assert_eq!(calendar_days(date(1, 1, 1)).start_blanks, 1);
}
