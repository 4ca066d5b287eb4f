use mfinvoice::Date;

#[test]
fn date_serializes_as_year_month_day() {
    let d = Date::from_ymd(2017, 9, 30).unwrap();
    assert_eq!(d.to_text(), "2017-09-30");
    assert_eq!((d.year(), d.month(), d.day()), (2017, 9, 30));
}

#[test]
fn date_text_pads_and_signs() {
    assert_eq!(Date::from_ymd(5, 1, 2).unwrap().to_text(), "0005-01-02");
    assert_eq!(Date::from_ymd(-1, 1, 1).unwrap().to_text(), "-0001-01-01");
    assert_eq!(Date::from_ymd(10000, 12, 31).unwrap().to_text(), "+10000-12-31");
}

#[test]
fn only_calendar_dates_exist() {
    assert!(Date::from_ymd(2015, 2, 29).is_none());
    assert!(Date::from_ymd(2016, 2, 29).is_some());
    assert!(Date::from_ymd(1900, 2, 29).is_none());
    assert!(Date::from_ymd(2000, 2, 29).is_some());
    assert!(Date::from_ymd(2015, 4, 31).is_none());
    assert!(Date::from_ymd(2015, 0, 1).is_none());
    assert!(Date::from_ymd(2015, 13, 1).is_none());
    assert!(Date::from_ymd(2015, 1, 0).is_none());
    assert!(Date::from_ymd(262142, 12, 31).is_some());
    assert!(Date::from_ymd(262143, 1, 1).is_none());
    assert!(Date::from_ymd(-262143, 1, 1).is_some());
    assert!(Date::from_ymd(-262144, 12, 31).is_none());
}
