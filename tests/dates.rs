use anna::date::{resolve_today, today, CalendarDate, LocalTime};
use anna::page::{locate, plan_page, prepare, template_path, Preparation};
use anna::config::{Config, JournalError};

fn d(y: i32, m: u32, day: u32) -> CalendarDate {
    CalendarDate::new(y, m, day).unwrap()
}

#[test]
fn locate_pads_month_and_day() {
    assert_eq!(locate("/j", &d(2024, 3, 7), "md"), "/j/2024/03/07.md");
    assert_eq!(locate("/j/", &d(2024, 12, 31), "txt"), "/j/2024/12/31.txt");
    assert_eq!(locate("", &d(987, 1, 1), ""), "987/01/01");
}

#[test]
fn month_and_day_segments_are_two_wide() {
    for (m, day) in [(1, 1), (9, 30), (10, 5), (12, 31)] {
        let p = locate("/root", &d(2023, m, day), "txt");
        let parts: Vec<&str> = p.trim_end_matches(".txt").split('/').collect();
        let n = parts.len();
        assert_eq!(parts[n - 2].len(), 2);
        assert_eq!(parts[n - 1].len(), 2);
    }
}

#[test]
fn template_lives_in_root() {
    assert_eq!(template_path("/j"), "/j/template");
    assert_eq!(template_path("/j/"), "/j/template");
}

#[test]
fn invalid_dates_are_refused() {
    assert!(CalendarDate::new(2023, 2, 29).is_none());
    assert!(CalendarDate::new(2024, 2, 29).is_some());
    assert!(CalendarDate::new(2024, 13, 1).is_none());
    assert!(CalendarDate::new(2024, 4, 31).is_none());
}

fn at(date: CalendarDate, hour: u32) -> LocalTime {
    LocalTime { date, hour }
}

#[test]
fn before_offset_is_yesterday() {
    assert_eq!(resolve_today(at(d(2024, 3, 7), 2), 3), Some(d(2024, 3, 6)));
}

#[test]
fn at_offset_is_still_yesterday() {
    assert_eq!(resolve_today(at(d(2024, 3, 7), 3), 3), Some(d(2024, 3, 6)));
}

#[test]
fn after_offset_is_today() {
    assert_eq!(resolve_today(at(d(2024, 3, 7), 4), 3), Some(d(2024, 3, 7)));
}

#[test]
fn yesterday_crosses_month_and_year() {
    assert_eq!(resolve_today(at(d(2024, 3, 1), 0), 0), Some(d(2024, 2, 29)));
    assert_eq!(resolve_today(at(d(2024, 1, 1), 1), 5), Some(d(2023, 12, 31)));
}

#[test]
fn iso_string_of_date() {
    assert_eq!(d(2024, 1, 1).iso_string(), "2024-01-01");
    assert_eq!(d(33, 11, 9).iso_string(), "0033-11-09");
}

#[test]
fn today_is_a_valid_date() {
    let t = today(None).unwrap();
    assert!(CalendarDate::new(t.year, t.month, t.day).is_some());
}

#[test]
fn plan_needs_journal_root() {
    let c = Config::default();
    assert_eq!(plan_page(&c, &d(2024, 5, 1)).unwrap_err(), JournalError::MissingJournalPath);
}

#[test]
fn plan_uses_default_extension() {
    let mut c = Config::default();
    c.path = Some("/j".to_string());
    let p = plan_page(&c, &d(2024, 5, 1)).unwrap();
    assert_eq!(p.page_path, "/j/2024/05/01.txt");
    assert_eq!(p.page_dir, "/j/2024/05");
    assert_eq!(p.template_path, "/j/template");
    c.extension = Some("md".to_string());
    assert_eq!(plan_page(&c, &d(2024, 5, 1)).unwrap().page_path, "/j/2024/05/01.md");
}

#[test]
fn existing_page_is_never_materialized() {
    assert_eq!(prepare(true, true), Preparation::Keep);
    assert_eq!(prepare(true, false), Preparation::Keep);
    assert_eq!(prepare(false, true), Preparation::Materialize);
    assert_eq!(prepare(false, false), Preparation::MakeDirectory);
}
