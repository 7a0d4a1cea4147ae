use mensa_report::date::{normalize, normalize_with, to_iso_string, DateError, ResolvedDate};

fn date(year: u16, month: u8, day: u8) -> ResolvedDate {
    ResolvedDate { year, month, day }
}

#[test]
fn normalize_valid_date_returns_its_triple() {
    let d = normalize("2024-03-15").unwrap();
    assert_eq!(d.year, 2024);
    assert_eq!(d.month, 3);
    assert_eq!(d.day, 15);
}

#[test]
fn normalize_round_trips_through_iso_text() {
    let samples = [
        date(2024, 2, 29),
        date(2023, 12, 31),
        date(1, 1, 1),
        date(9999, 12, 31),
        date(2000, 2, 29),
    ];
    for d in samples {
        let text = to_iso_string(&d);
        let back = normalize(&text).unwrap();
        assert_eq!(back.year, d.year);
        assert_eq!(back.month, d.month);
        assert_eq!(back.day, d.day);
    }
}

#[test]
fn iso_text_is_zero_padded() {
    assert_eq!(to_iso_string(&date(1, 2, 3)), "0001-02-03");
    assert_eq!(to_iso_string(&date(2024, 11, 5)), "2024-11-05");
}

#[test]
fn normalize_with_fixed_clock_returns_that_date() {
    let fixed = date(2021, 7, 4);
    let r = normalize_with("today", fixed).unwrap();
    assert_eq!(r.year, 2021);
    assert_eq!(r.month, 7);
    assert_eq!(r.day, 4);
}

#[test]
fn normalize_with_passes_other_tokens_to_the_parser() {
    let fixed = date(2021, 7, 4);
    let r = normalize_with("1999-01-31", fixed).unwrap();
    assert_eq!(r.year, 1999);
    assert_eq!(r.month, 1);
    assert_eq!(r.day, 31);
    assert!(normalize_with("Today", fixed).is_err());
}

#[test]
fn normalize_today_uses_the_current_clock() {
    let d = normalize("today").unwrap();
    assert!(d.is_wf());
    assert!((1..=12).contains(&d.month));
    assert!((1..=31).contains(&d.day));
}

#[test]
fn normalize_rejects_invalid_day_for_february() {
    let e = normalize("2024-02-30").unwrap_err();
    assert!(matches!(e, DateError::InvalidFormat(_)));
}

#[test]
fn normalize_rejects_invalid_month() {
    let e = normalize("2024-13-01").unwrap_err();
    assert!(matches!(e, DateError::InvalidFormat(_)));
}

#[test]
fn normalize_rejects_unparseable_text() {
    let e = normalize("not-a-date").unwrap_err();
    assert!(matches!(e, DateError::InvalidFormat(_)));
}

#[test]
fn normalize_applies_leap_year_rules() {
    assert!(normalize("2024-02-29").is_ok());
    assert!(normalize("2023-02-29").is_err());
    assert!(normalize("2000-02-29").is_ok());
    assert!(normalize("1900-02-29").is_err());
    assert!(normalize("2024-04-31").is_err());
    assert!(normalize("2024-04-30").is_ok());
}

#[test]
fn normalize_rejects_near_miss_shapes() {
    assert!(normalize("2024-3-15").is_err());
    assert!(normalize("2024/03/15").is_err());
    assert!(normalize("2024-03-150").is_err());
    assert!(normalize("").is_err());
    assert!(normalize("2024-00-10").is_err());
    assert!(normalize("2024-01-00").is_err());
}

#[test]
fn date_error_message_carries_the_diagnostic() {
    let e = normalize("nope").unwrap_err();
    let DateError::InvalidFormat(diag) = &e;
    let msg = e.message();
    assert!(msg.starts_with("Invalid date format: "));
    assert!(msg.ends_with(diag.as_str()));
}
