use gleanmark::time::Timestamp;

#[test]
fn formats_rfc3339() {
    let t = Timestamp::from_parts(1431648000, 0).unwrap();
    assert_eq!(t.to_rfc3339(), "2015-05-15T00:00:00+00:00");
    let t = Timestamp::from_parts(1431648000, 500_000_000).unwrap();
    assert_eq!(t.to_rfc3339(), "2015-05-15T00:00:00.500+00:00");
}

#[test]
fn parses_rfc3339_as_utc() {
    let t = Timestamp::parse_rfc3339("1996-12-19T16:39:57-08:00").unwrap();
    assert_eq!(t.secs(), 851042397);
    assert_eq!(t.nanos(), 0);
    assert!(Timestamp::parse_rfc3339("yesterday").is_none());
}

#[test]
fn out_of_range_instants_are_refused() {
    assert!(Timestamp::from_parts(0, 2_000_000_000).is_none());
    assert!(Timestamp::from_parts(i64::MAX, 0).is_none());
    assert!(Timestamp::from_parts(-1, 0).is_some());
}

#[test]
fn now_round_trips_through_text() {
    let now = Timestamp::now();
    assert_eq!(Timestamp::parse_rfc3339(&now.to_rfc3339()), Some(now));
}

#[test]
fn text_reads_back_within_four_digit_years() {
    for (secs, nanos) in [
        (-62167219200i64, 0u32),
        (253402300799, 999_999_999),
        (1_700_000_000, 123_456_789),
        (1_700_000_000, 120_000),
        (1_483_228_799, 1_500_000_000),
    ] {
        let t = Timestamp::from_parts(secs, nanos).unwrap();
        t.has_text_holds();
        assert_eq!(Timestamp::parse_rfc3339(&t.to_rfc3339()), Some(t));
    }
    let leap = Timestamp::from_parts(1_483_228_799, 1_500_000_000).unwrap();
    assert_eq!(leap.to_rfc3339(), "2016-12-31T23:59:60.500+00:00");
}

#[test]
fn text_of_a_five_digit_year_is_not_read() {
    let t = Timestamp::from_parts(253402300800, 0).unwrap();
    assert_eq!(t.to_rfc3339(), "+10000-01-01T00:00:00+00:00");
    assert!(Timestamp::parse_rfc3339(&t.to_rfc3339()).is_none());
    let t = Timestamp::from_parts(-62167219201, 0).unwrap();
    assert!(Timestamp::parse_rfc3339(&t.to_rfc3339()).is_none());
}
