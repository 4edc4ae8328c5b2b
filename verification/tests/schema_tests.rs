use worldtimeapi::schema::DateTimeJson;

#[test]
fn test_key_list() {
    let keys = DateTimeJson::key_list();
    assert_eq!(
        keys,
        vec![
            "abbreviation",
            "client_ip",
            "datetime",
            "day_of_week",
            "day_of_year",
            "dst",
            "dst_from",
            "dst_offset",
            "dst_until",
            "raw_offset",
            "timezone",
            "unixtime",
            "utc_datetime",
            "utc_offset",
            "week_number",
        ]
    );
}

#[test]
fn test_record_accessors_round_trip() {
    let record = DateTimeJson {
        abbreviation: "EDT".to_string(),
        client_ip: "192.0.2.1".to_string(),
        datetime: "2024-09-23T14:23:48+00:00".to_string(),
        day_of_week: 1,
        day_of_year: 266,
        dst: true,
        dst_from: None,
        dst_offset: 3600,
        dst_until: None,
        raw_offset: -18000,
        timezone: "America/New_York".to_string(),
        unixtime: 1695475428,
        utc_datetime: 1695475428,
        utc_offset: "-05:00".to_string(),
        week_number: 39,
    };
    assert_eq!(record.abbreviation(), "EDT");
    assert_eq!(record.client_ip(), "192.0.2.1");
    assert_eq!(record.datetime(), "2024-09-23T14:23:48+00:00");
    assert_eq!(record.day_of_week(), 1);
    assert_eq!(record.day_of_year(), 266);
    assert!(record.dst());
    assert_eq!(record.dst_from(), None);
    assert_eq!(record.dst_offset(), 3600);
    assert_eq!(record.dst_until(), None);
    assert_eq!(record.raw_offset(), -18000);
    assert_eq!(record.timezone(), "America/New_York");
    assert_eq!(record.unixtime(), 1695475428);
    assert_eq!(record.utc_datetime(), 1695475428);
    assert_eq!(record.utc_offset(), "-05:00");
    assert_eq!(record.week_number(), 39);
}

#[test]
fn test_record_with_transitions() {
    let record = DateTimeJson {
        abbreviation: "BST".to_string(),
        client_ip: "198.51.100.7".to_string(),
        datetime: "2024-06-01T12:00:00+01:00".to_string(),
        day_of_week: 6,
        day_of_year: 153,
        dst: true,
        dst_from: Some(1711846800),
        dst_offset: 3600,
        dst_until: Some(1729990800),
        raw_offset: 0,
        timezone: "Europe/London".to_string(),
        unixtime: 1717239600,
        utc_datetime: 1717239600,
        utc_offset: "+01:00".to_string(),
        week_number: 22,
    };
    assert_eq!(record.dst_from(), Some(1711846800));
    assert_eq!(record.dst_until(), Some(1729990800));
}
