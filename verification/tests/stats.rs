use tomatui::calendar::{history_date, history_dates, CalendarDate, HistoryRangeError};
use tomatui::stats::{DayStat, Stats};

#[test]
fn test_record_increments_pomodoros() {
    let mut stats = Stats::default();
    stats.record("2026-03-07", 25);
    assert_eq!(stats.get_day("2026-03-07"), (1, 25));

    stats.record("2026-03-07", 25);
    assert_eq!(stats.get_day("2026-03-07"), (2, 50));
}

#[test]
fn test_different_days_are_independent() {
    let mut stats = Stats::default();
    stats.record("2026-03-07", 25);
    stats.record("2026-03-08", 25);

    assert_eq!(stats.get_day("2026-03-07"), (1, 25));
    assert_eq!(stats.get_day("2026-03-08"), (1, 25));
}

#[test]
fn test_nonexistent_day_returns_zero() {
    let stats = Stats::default();
    assert_eq!(stats.get_day("2099-01-01"), (0, 0));
}

#[test]
fn test_total_across_days() {
    let mut stats = Stats::default();
    stats.record("2026-03-07", 25);
    stats.record("2026-03-07", 25);
    stats.record("2026-03-08", 30);

    let (pomos, mins) = stats.total();
    assert_eq!(pomos, 3);
    assert_eq!(mins, 80);
}

#[test]
fn test_today_resets_for_new_date() {
    let mut stats = Stats::default();
    stats.record("2026-03-07", 25);
    stats.record("2026-03-07", 25);

    // Next day has no records
    assert_eq!(stats.get_day("2026-03-08"), (0, 0));

    // The earlier day is still intact
    assert_eq!(stats.get_day("2026-03-07"), (2, 50));
}

#[test]
fn test_empty_stats_total() {
    let stats = Stats::default();
    assert_eq!(stats.total(), (0, 0));
}

#[test]
fn set_day_replaces_and_adds_days() {
    let mut stats = Stats::new();
    stats.set_day("2026-03-07", DayStat { pomodoros: 4, work_minutes: 100 });
    stats.set_day("2026-03-08", DayStat { pomodoros: 1, work_minutes: 25 });
    stats.set_day("2026-03-07", DayStat { pomodoros: 2, work_minutes: 50 });
    assert_eq!(stats.day_count(), 2);
    assert_eq!(stats.get_day("2026-03-07"), (2, 50));
    assert_eq!(stats.total(), (3, 75));
    assert_eq!(stats.days().len(), 2);
}

#[test]
fn history_labels_days_and_sums_the_period() {
    let mut stats = Stats::new();
    for _ in 0..35 {
        stats.record("2026-09-16", 25);
    }
    stats.record("2026-09-14", 30);
    stats.record("2026-01-01", 30);
    let dates: Vec<String> = ["2026-09-16", "2026-09-15", "2026-09-14"]
        .iter()
        .map(|d| d.to_string())
        .collect();
    let report = stats.history(&dates);
    assert_eq!(report.rows.len(), 3);
    assert_eq!(report.rows[0].label, "Today");
    assert_eq!(report.rows[1].label, "Yesterday");
    assert_eq!(report.rows[2].label, "2026-09-14");
    assert_eq!(
        report.rows[0].day,
        Some(DayStat { pomodoros: 35, work_minutes: 875 })
    );
    assert_eq!(report.rows[0].bar_cells, 30);
    assert_eq!(report.rows[1].day, None);
    assert_eq!(report.rows[1].bar_cells, 0);
    assert_eq!(report.rows[2].bar_cells, 1);
    assert_eq!((report.pomodoros, report.work_minutes), (36, 905));
}

#[test]
fn history_dates_use_calendar_days() {
    let march_first = CalendarDate { year: 2024, month: 3, day: 1 };
    assert_eq!(
        history_date(march_first, 1).unwrap(),
        CalendarDate { year: 2024, month: 2, day: 29 }
    );
}

#[test]
fn history_dates_list_today_then_earlier_days() {
    let march_first = CalendarDate { year: 2024, month: 3, day: 1 };
    assert_eq!(
        history_dates(march_first, 3).unwrap(),
        vec!["2024-03-01".to_string(), "2024-02-29".to_string(), "2024-02-28".to_string()]
    );
    assert_eq!(history_dates(march_first, 0).unwrap(), Vec::<String>::new());
    let new_year = CalendarDate { year: 2025, month: 1, day: 1 };
    assert_eq!(history_date(new_year, 1).unwrap(), CalendarDate { year: 2024, month: 12, day: 31 });
    assert_eq!(history_date(new_year, 0).unwrap(), new_year);
}

#[test]
fn history_before_the_first_calendar_day_is_refused() {
    let first = CalendarDate { year: -262143, month: 1, day: 1 };
    assert_eq!(history_dates(first, 1).unwrap(), vec!["-262143-01-01".to_string()]);
    let refused = history_dates(first, 2).unwrap_err();
    assert_eq!(refused, HistoryRangeError);
    assert_eq!(refused.message(), "history range is too large");
    assert!(history_date(first, 1).is_err());
    let not_a_date = CalendarDate { year: 2024, month: 2, day: 30 };
    assert!(history_dates(not_a_date, 1).is_err());
}

#[test]
fn early_years_are_written_with_four_digits() {
    let date = CalendarDate { year: 33, month: 1, day: 5 };
    assert_eq!(
        history_dates(date, 2).unwrap(),
        vec!["0033-01-05".to_string(), "0033-01-04".to_string()]
    );
    let far = CalendarDate { year: 10000, month: 1, day: 1 };
    assert_eq!(history_dates(far, 1).unwrap(), vec!["+10000-01-01".to_string()]);
}
