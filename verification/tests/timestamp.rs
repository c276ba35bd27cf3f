use gitminer::timestamp::Timestamp;

fn text(seconds: i64, utc_offset: i32) -> String {
    String::from_utf8(Timestamp::new(seconds, utc_offset).render()).unwrap()
}

#[test]
fn renders_seconds_and_offset() {
    assert_eq!(text(1700000000, 0), "1700000000 -0000");
    assert_eq!(text(1700000000, 3600), "1700000000 +0100");
    assert_eq!(text(1700000000, 19800), "1700000000 +0530");
    assert_eq!(text(1700000000, -25200), "1700000000 -0700");
    assert_eq!(text(0, 59), "0 +0000");
    assert_eq!(text(0, -59), "0 -0000");
    assert_eq!(text(0, 60), "0 +0001");
    assert_eq!(text(5, 86399), "5 +2359");
}

#[test]
fn renders_negative_and_extreme_seconds() {
    assert_eq!(text(-1, -25200), "-1 -0700");
    assert_eq!(text(i64::MAX, 0), "9223372036854775807 -0000");
    assert_eq!(text(i64::MIN, 0), "-9223372036854775808 -0000");
}

#[test]
fn renders_offsets_beyond_a_day() {
    assert_eq!(text(0, 360000), "0 +10000");
    assert_eq!(text(0, i32::MAX), "0 +59652314");
    assert_eq!(text(0, i32::MIN), "0 -59652314");
}

#[test]
fn new_keeps_its_arguments() {
    let t = Timestamp::new(12, -34);
    assert_eq!(t.seconds, 12);
    assert_eq!(t.utc_offset, -34);
    assert_eq!(t, Timestamp { seconds: 12, utc_offset: -34 });
}

#[test]
fn agrees_with_strftime_in_utc() {
    for seconds in [0i64, 1, 59, 86399, 951782400, 1700000000, 4102444800] {
        let tm = time::at_utc(time::Timespec::new(seconds, 0));
        let theirs = tm.strftime("%s %z").unwrap().to_string();
        assert_eq!(text(seconds, 0), theirs);
    }
}

#[test]
fn agrees_with_strftime_on_offsets() {
    for offset in [0i32, 1, 59, 60, 3600, 19800, 43200, 86399, -1, -60, -3600, -25200, -34200] {
        let mut tm = time::empty_tm();
        tm.tm_utcoff = offset;
        let theirs = tm.strftime("%z").unwrap().to_string();
        let ours = text(0, offset);
        assert_eq!(ours, format!("0 {}", theirs));
    }
}
