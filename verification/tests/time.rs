use stagix::model::Time;

#[test]
fn time_is_written_with_its_offset() {
    assert_eq!(
        Time { seconds: 1660766698, offset: 7200 }.format(),
        "2022-08-17 22:04:58 +0200"
    );
    assert_eq!(Time { seconds: 0, offset: 0 }.format(), "1970-01-01 00:00:00 +0000");
    assert_eq!(
        Time { seconds: 1700000000, offset: -18000 }.format(),
        "2023-11-14 17:13:20 -0500"
    );
}

#[test]
fn time_out_of_the_calendar_is_written_as_seconds() {
    assert_eq!(Time { seconds: i64::MAX, offset: 0 }.format(), i64::MAX.to_string());
    assert_eq!(Time { seconds: 5, offset: i32::MAX }.format(), "5");
}
