use thetime::{now, IntTime, Ntp, RelativeTime, StrTime, System, Time, TimeDiff, Tz};

#[test]
fn unix_seconds_round_trip_concrete() {
    let x = "2017-01-01 00:00:00".parse_time::<System>("%Y-%m-%d %H:%M:%S");
    let rebuilt: System = (x.unix() as u64).unix::<System>();
    assert_eq!(rebuilt.raw(), x.raw());
    assert_eq!(rebuilt.unix(), 1483228800);
}

#[test]
fn parse_with_explicit_offset() {
    let x = Ntp::strptime("2021-01-01 00:00:00 +0000", "%Y-%m-%d %H:%M:%S %z");
    assert_eq!(x.unix(), 1609459200);
    assert!(!x.valid_server());
    assert_eq!(x.server(), "strptime");
}

#[test]
fn difference_two_years() {
    let a = "2017-01-01 00:00:00".parse_time::<System>("%Y-%m-%d %H:%M:%S");
    let b = "2015-01-01 00:00:00".parse_time::<System>("%Y-%m-%d %H:%M:%S");
    assert_eq!(a.diff(&b), 63158400);
    assert_eq!(b.diff(&a), 63158400);
    assert_eq!(a.diff_ms(&b), 63158400000);
}

#[test]
fn compare_relative_antisymmetry_concrete() {
    let a = "2017-01-01 00:00:00".parse_time::<System>("%Y-%m-%d %H:%M:%S");
    let b = "2015-01-01 00:00:00".parse_time::<System>("%Y-%m-%d %H:%M:%S");
    assert_eq!(a.past_future(&b), RelativeTime::Future);
    assert_eq!(b.past_future(&a), RelativeTime::Past);
    assert_eq!(a.past_future(&a), RelativeTime::Present);
    assert_eq!(a.past_future(&b).name(), "future");
    assert_eq!(b.past_future(&a).name(), "past");
    assert_eq!(a.past_future(&a).name(), "present");
}

#[test]
fn change_timezone_round_trip() {
    let x = "2017-01-01 00:00:00".parse_time::<System>("%Y-%m-%d %H:%M:%S");
    let shifted = x.change_tz("+01:00");
    let back = shifted.change_tz("-01:00");
    assert_eq!(back.diff_ms(&x), 0);
    assert_eq!(back.unix(), x.unix());
    assert_eq!(shifted.pretty(), "2017-01-01 01:00:00");
    assert_eq!(back.pretty(), "2016-12-31 23:00:00");
    assert_eq!(shifted.tz_offset(), "+01:00");
    assert_eq!(back.tz_offset(), "-01:00");
}

#[test]
fn duration_formatting_of_one_hour() {
    assert_eq!(3600u64.ts_print(), "0w 0d 1h 0m 0s");
    assert_eq!(0u64.ts_print(), "0w 0d 0h 0m 0s");
    assert_eq!(63158400u64.ts_print(), "104w 3d 0h 0m 0s");
    assert_eq!(604800u64.ts_print(), "1w 0d 0h 0m 0s");
    assert_eq!(86461u64.ts_print(), "0w 1d 0h 1m 1s");
}

#[test]
fn add_seconds_then_difference() {
    let x = "2017-01-01 00:00:00".parse_time::<System>("%Y-%m-%d %H:%M:%S");
    let later = x.add_seconds(3600);
    assert_eq!(later.diff(&x), 3600);
    assert_eq!(x.diff(&later), 3600);
    assert_eq!(later.pretty(), "2017-01-01 01:00:00");
}

#[test]
fn add_units_are_second_multiples() {
    let x = "2017-01-01 00:00:00".parse_time::<System>("%Y-%m-%d %H:%M:%S");
    assert_eq!(x.add_minutes(60).diff(&x), 3600);
    assert_eq!(x.add_hours(24).diff(&x), 86400);
    assert_eq!(x.add_days(7).diff(&x), 604800);
    assert_eq!(x.add_weeks(1).diff(&x), 604800);
    assert_eq!(x.add_seconds(-3600).diff(&x), 3600);
}

#[test]
fn ntp_fallback_is_tagged() {
    let x = Ntp::or_system_fallback(None);
    assert!(!x.valid_server());
    assert_eq!(x.server(), "chrono::Utc");
    assert!(x.unix() > 0);
}

#[test]
fn ntp_request_packet_shape() {
    let p = Ntp::request_packet();
    assert_eq!(p.len(), 48);
    assert_eq!(p[0], 0x1b);
    for i in 1..48 {
        assert_eq!(p[i], 0);
    }
}

#[test]
fn ntp_response_parsing() {
    // 2017-01-01 00:00:00 UTC is 3692217600 seconds after the 1900 reference
    // epoch; stored big-endian at byte offset 40 of a response.
    let mut buf = vec![0u8; 48];
    let secs_1900: u32 = 3692217600;
    let be = secs_1900.to_be_bytes();
    buf[40] = be[0];
    buf[41] = be[1];
    buf[42] = be[2];
    buf[43] = be[3];
    let v = Ntp::from_response("pool.ntp.org", &buf, 0).unwrap();
    assert_eq!(v.unix(), 1483228800);
    assert_eq!(v.pretty(), "2017-01-01 00:00:00");
    assert_eq!(v.server(), "pool.ntp.org");
    assert!(v.valid_server());

    // A response too short to hold the field is a failure.
    let short = vec![0u8; 43];
    assert!(Ntp::from_response("pool.ntp.org", &short, 0).is_none());
    // One carrying an instant before 1970 is a failure.
    let early = vec![0u8; 48];
    assert!(Ntp::from_response("pool.ntp.org", &early, 0).is_none());
    // Every failure still yields a usable value through the fallback.
    let fallen = Ntp::or_system_fallback(Ntp::from_response("pool.ntp.org", &early, 0));
    assert!(!fallen.valid_server());
}

#[test]
fn try_strptime_is_total() {
    let good: Option<System> = System::try_strptime("2017-01-01 00:00:00", "%Y-%m-%d %H:%M:%S");
    assert_eq!(good.unwrap().unix(), 1483228800);
    let bad: Option<System> = System::try_strptime("not a date", "%Y-%m-%d %H:%M:%S");
    assert!(bad.is_none());
    let tried: Option<Ntp> = "2017-01-01 00:00:00".try_parse_time::<Ntp>("%Y-%m-%d %H:%M:%S");
    assert_eq!(tried.unwrap().unix(), 1483228800);
}

#[test]
fn epoch_conversions_of_2017() {
    let x = "2017-01-01 00:00:00".parse_time::<System>("%Y-%m-%d %H:%M:%S");
    assert_eq!(x.unix(), 1483228800);
    assert_eq!(x.unix_ms(), 1483228800000);
    assert_eq!(x.epoch(), 13127702400000);
    assert_eq!(x.windows_ns(), 131277024000000000);
    assert_eq!(x.webkit(), 13127702400000000);
    assert_eq!(x.mac_os(), 3566073600);
    assert_eq!(x.mac_os_cfa(), 504921600);
    assert_eq!(x.sas_4gl(), 1798848000);
}

#[test]
fn iso_and_rfc_renderings() {
    let x = System::strptime("2015-02-18 23:16:09.234", "%Y-%m-%d %H:%M:%S%.3f");
    assert_eq!(x.iso8601(), "2015-02-18 23:16:09.234");
    assert_eq!(x.rfc3339(), "2015-02-18T23:16:09.234Z");
    assert_eq!(x.raw() % 1000, 234);
}

#[test]
fn parse_before_1970() {
    let x = System::strptime("1950-01-01 00:00:00", "%Y-%m-%d %H:%M:%S");
    assert_eq!(x.unix(), -631152000);
    assert_eq!(x.pretty(), "1950-01-01 00:00:00");
}

#[test]
fn epoch_start_is_representable() {
    let x = System::from_epoch(0);
    assert_eq!(x.pretty(), "1601-01-01 00:00:00");
    assert_eq!(x.unix(), -11644473600);
    assert_eq!(x.raw(), 0);
}

#[test]
fn tz_table_lookups() {
    assert_eq!(Tz::UtcWet.offset(), 0);
    assert_eq!(Tz::BstCet.offset(), 3600);
    assert_eq!(Tz::Ist.offset_str(), "+05:30");
    assert_eq!(Tz::Sast.offset_str(), "-11:00");
    assert_eq!(Tz::BstCet.name(), "BST/CET");
    assert_eq!(Tz::from_name("BST/CET"), Some(Tz::BstCet));
    assert_eq!(Tz::from_name("Life? Don't talk to me about life!"), None);
    assert_eq!(Tz::from_offset(28800), Some(Tz::CstAwstSstHkt));
    assert_eq!(Tz::from_offset(123456), None);
    assert_eq!(Tz::from_offset_str("+08:00"), Some(Tz::CstAwstSstHkt));
    assert_eq!(Tz::from_offset_str("+05:30"), Some(Tz::Ist));
    assert_eq!(Tz::from_offset_str("-03:30"), Some(Tz::Nst));
    assert_eq!(Tz::from_offset_str("-11:00"), Some(Tz::Sast));
    assert_eq!(Tz::from_offset_str("junk:junk"), Some(Tz::UtcWet));
    assert_eq!(Tz::from_offset_str("99:00"), None);
    assert_eq!(Tz::default(), Tz::UtcWet);
}

#[test]
fn offset_string_lookup_round_trip() {
    let all = vec![
        Tz::UtcWet,
        Tz::BstCet,
        Tz::CestEet,
        Tz::EestAst,
        Tz::Ist,
        Tz::JstKst,
        Tz::CstAwstSstHkt,
        Tz::Acst,
        Tz::AestChst,
        Tz::Lwst,
        Tz::NzstFjt,
        Tz::Sast,
        Tz::Hast,
        Tz::Alst,
        Tz::Pst,
        Tz::Mst,
        Tz::Censt,
        Tz::Est,
        Tz::AtstClt,
        Tz::Nst,
        Tz::BtAtArtUyt,
        Tz::IctWib,
    ];
    for t in all {
        assert_eq!(Tz::from_offset_str(&t.offset_str()), Some(t));
        assert_eq!(Tz::from_name(&t.name()), Some(t));
        assert_eq!(Tz::from_offset(t.offset()), Some(t));
    }
}

#[test]
fn epoch_constructors_are_tagged() {
    let x = Ntp::from_epoch(1483228800000);
    assert_eq!(x.server(), "from_epoch");
    assert!(x.valid_server());
    let y = Ntp::from_epoch_offset(1483228800000, 3600);
    assert_eq!(y.server(), "from_epoch_offset");
    assert!(y.valid_server());
    assert_eq!(Ntp::now().server(), "chrono::Utc");
    assert!(!Ntp::now().valid_server());
}

#[test]
fn tz_enum_from_display_offset() {
    let x = System::now().change_tz("+08:00");
    assert_eq!(x.tz_enum(), Some(Tz::CstAwstSstHkt));
    assert_eq!(x.tz_offset(), "+08:00");
    let y = Tz::Acst.offset_struct(x);
    assert_eq!(y.tz_enum(), Some(Tz::Acst));
    assert_eq!(y.tz_offset(), "+09:30");
}

#[test]
fn now_is_after_2020() {
    assert!(now() > 1577836800);
    let sys = System::now();
    let ntp = Ntp::now();
    assert!(sys.diff(&ntp) < 86400);
}

#[test]
fn add_duration_shifts_by_seconds() {
    let x = "2017-01-01 00:00:00".parse_time::<System>("%Y-%m-%d %H:%M:%S");
    let a = x.add_duration(std::time::Duration::from_secs(3600));
    assert_eq!(a.diff(&x), 3600);
    let b = x.add_duration(chrono::Duration::seconds(3600));
    assert_eq!(b.diff(&x), 3600);
}

#[test]
fn casting_keeps_the_instant() {
    let x = "2017-01-01 00:00:00".parse_time::<System>("%Y-%m-%d %H:%M:%S");
    let y: Ntp = x.cast();
    assert_eq!(y.unix(), 1483228800);
    assert_eq!(y.diff_ms(&x), 0);
    let back: System = y.cast();
    assert_eq!(back.raw(), x.raw());
}

#[test]
fn ntp_round_trips_through_parts() {
    let x = Ntp::strptime("2021-01-01 00:00:00 +0000", "%Y-%m-%d %H:%M:%S %z");
    let raw = x.raw();
    let rebuilt = Ntp::from_parts(raw / 1000, raw % 1000, "strptime", x.utc_offset()).unwrap();
    assert_eq!(rebuilt.raw(), x.raw());
    assert_eq!(rebuilt.server(), x.server());
    assert!(Ntp::from_parts(0, 1000, "x", 0).is_none());
    assert!(Ntp::from_parts(0, 0, "x", 86400).is_none());
}
