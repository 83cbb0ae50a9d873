use month_calendar::calendar::{Date, MAX_YEAR, MIN_YEAR};
use month_calendar::navigation::{month_from_name, month_from_text, year_from_text, Cursor};

fn cursor(year: i32, month: u32) -> Cursor {
    Cursor::new(year, month).unwrap()
}

#[test]
fn cursor_new_checks_its_values() {
    assert!(Cursor::new(2024, 0).is_none());
    assert!(Cursor::new(2024, 13).is_none());
    assert!(Cursor::new(MIN_YEAR - 1, 1).is_none());
    assert!(Cursor::new(MAX_YEAR + 1, 1).is_none());
    let c = cursor(2024, 5);
    assert_eq!((c.year, c.month), (2024, 5));
}

#[test]
fn prev_month_rolls_back_over_january() {
    let mut c = cursor(2024, 1);
    assert!(c.prev_month());
    assert_eq!((c.year, c.month), (2023, 12));
    assert!(c.prev_month());
    assert_eq!((c.year, c.month), (2023, 11));
}

#[test]
fn next_month_rolls_over_december() {
    let mut c = cursor(2024, 12);
    assert!(c.next_month());
    assert_eq!((c.year, c.month), (2025, 1));
    assert!(c.next_month());
    assert_eq!((c.year, c.month), (2025, 2));
}

#[test]
fn year_steps_keep_the_month() {
    let mut c = cursor(2024, 7);
    assert!(c.prev_year());
    assert_eq!((c.year, c.month), (2023, 7));
    assert!(c.next_year());
    assert!(c.next_year());
    assert_eq!((c.year, c.month), (2025, 7));
}

#[test]
fn steps_stop_at_the_supported_range() {
    let mut c = cursor(MIN_YEAR, 1);
    assert!(!c.prev_month());
    assert!(!c.prev_year());
    assert_eq!((c.year, c.month), (MIN_YEAR, 1));
    let mut c = cursor(MAX_YEAR, 12);
    assert!(!c.next_month());
    assert!(!c.next_year());
    assert_eq!((c.year, c.month), (MAX_YEAR, 12));
}

#[test]
fn set_year_rejects_out_of_range_and_garbage() {
    let mut c = cursor(2024, 3);
    for text in ["0", "10000", "abc", "", "-5", " 2020", "2020 ", "99999999999"] {
        assert!(!c.set_year(text));
        assert_eq!((c.year, c.month), (2024, 3));
    }
}

#[test]
fn set_year_takes_a_year_in_range() {
    let mut c = cursor(2024, 3);
    assert!(c.set_year("1999"));
    assert_eq!((c.year, c.month), (1999, 3));
    assert!(c.set_year("+1"));
    assert_eq!(c.year, 1);
    assert!(c.set_year("9999"));
    assert_eq!(c.year, 9999);
}

#[test]
fn set_month_by_name_or_number() {
    let mut c = cursor(2024, 1);
    assert!(c.set_month("March"));
    assert_eq!((c.year, c.month), (2024, 3));
    let mut c = cursor(2024, 1);
    assert!(c.set_month("3"));
    assert_eq!((c.year, c.month), (2024, 3));
    assert!(c.set_month("DECEMBER"));
    assert_eq!(c.month, 12);
    assert!(c.set_month("sePTember"));
    assert_eq!(c.month, 9);
    assert!(c.set_month("12"));
    assert_eq!(c.month, 12);
}

#[test]
fn set_month_rejects_unknown_text() {
    let mut c = cursor(2024, 5);
    for text in ["13", "marchs", "0", "-3", "", "Mar", " march"] {
        assert!(!c.set_month(text));
        assert_eq!((c.year, c.month), (2024, 5));
    }
}

#[test]
fn month_from_name_wants_lowercase_names() {
    assert_eq!(month_from_name("march"), Some(3));
    assert_eq!(month_from_name("january"), Some(1));
    assert_eq!(month_from_name("december"), Some(12));
    assert_eq!(month_from_name("March"), None);
    assert_eq!(month_from_name("marchs"), None);
}

#[test]
fn month_from_text_prefers_numbers() {
    assert_eq!(month_from_text("3", "3"), Some(3));
    assert_eq!(month_from_text("March", "march"), Some(3));
    assert_eq!(month_from_text("13", "13"), None);
    assert_eq!(month_from_text("7", "june"), Some(7));
    assert_eq!(month_from_text("13", "june"), Some(6));
}

#[test]
fn year_from_text_bounds() {
    assert_eq!(year_from_text("1"), Some(1));
    assert_eq!(year_from_text("9999"), Some(9999));
    assert_eq!(year_from_text("0"), None);
    assert_eq!(year_from_text("10000"), None);
    assert_eq!(year_from_text("abc"), None);
}

#[test]
fn cursor_grid_marks_today() {
    let c = cursor(2024, 2);
    let today = Date::new(2024, 2, 29).unwrap();
    let g = c.grid(today);
    assert_eq!(g.month_label, "February");
    assert_eq!(g.today_index, Some(32));
    assert_eq!(g.cells[32], Some(29));
    let g = cursor(2024, 3).grid(today);
    assert_eq!(g.today_index, None);
}
