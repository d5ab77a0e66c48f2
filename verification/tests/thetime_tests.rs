use thetime::{IntTime, Ntp, StrTime, System, Time, TimeDiff, Tz};

#[test]
fn test_system() {
    let x = System::now();
    println!("{}", x.pretty());
    println!("{}", x.unix_ms());
    println!("{}", x.strftime("%Y-%m-%d %H:%M:%S"));
}

#[test]
fn test_ntp() {
    let x = Ntp::now();
    println!("{:#?}", x);
    println!("{}", x.unix_ms());
    println!("{}", x.pretty());
}

#[test]
fn strptime() {
    let x = System::strptime("2015-02-18 23:16:09.234", "%Y-%m-%d %H:%M:%S%.3f");
    println!("2015 - {}", x.pretty());
    let x = Ntp::strptime("2021-01-01 00:00:00 +0000", "%Y-%m-%d %H:%M:%S %z");
    println!("2021 - {}", x.pretty());
    assert_eq!(x.unix(), 1609459200);
    println!("1950 - {}", Ntp::strptime("1950-01-01 00:00:00", "%Y-%m-%d %H:%M:%S").pretty())
}

#[test]
fn str_time() {
    let date2017 = "2017-01-01 00:00:00".parse_time::<System>("%Y-%m-%d %H:%M:%S");
    println!("2017 - {}", date2017.pretty());
    assert_eq!(date2017.unix(), 1483228800);
}

#[test]
fn time_diff() {
    let x = "2015-01-01 00:00:00".parse_time::<System>("%Y-%m-%d %H:%M:%S");
    let y = "2017-01-01 00:00:00".parse_time::<System>("%Y-%m-%d %H:%M:%S");
    println!("{} difference", y.diff(&x).ts_print());
    println!("{} milliseconds difference", x.diff_ms(&y));
    assert_eq!(x.diff(&y), 63158400u64);
}

#[test]
fn int_ntp_time() {
    assert_eq!(1483228800u32.unix::<Ntp>().pretty(), "2017-01-01 00:00:00");
    assert_eq!(
        131277024000000000u64.windows_ns::<Ntp>().pretty(),
        "2017-01-01 00:00:00"
    );
    assert_eq!(
        3787310789u64.mac_os::<Ntp>().pretty(),
        "2024-01-05 14:46:29"
    );
    assert_eq!(
        726158877u32.mac_os_cfa::<Ntp>().pretty(),
        "2024-01-05 14:47:57"
    );
    assert_eq!(0u32.sas_4gl::<Ntp>().pretty(), "1960-01-01 00:00:00");
}

#[test]
fn int_system_time() {
    assert_eq!(1483228800u32.unix::<System>().pretty(), "2017-01-01 00:00:00");
    assert_eq!(
        131277024000000000u64.windows_ns::<System>().pretty(),
        "2017-01-01 00:00:00"
    );
    assert_eq!(
        3787310789u64.mac_os::<System>().pretty(),
        "2024-01-05 14:46:29"
    );
    assert_eq!(
        726158877u32.mac_os_cfa::<System>().pretty(),
        "2024-01-05 14:47:57"
    );
    assert_eq!(0u32.sas_4gl::<System>().pretty(), "1960-01-01 00:00:00");
}

#[test]
fn windows_tests() {
    let x = System::now();
    println!("{} lots of 100ns since Windows epoch", x.windows_ns());
}

#[test]
fn mac_os() {
    let x = System::now();
    println!("{} seconds since Mac OS epoch", x.mac_os());
    println!("{} seconds since Mac OS Absolute epoch", x.mac_os_cfa());
}

#[test]
fn sas_4gl() {
    let x = System::now();
    println!("{} seconds since SAS 4GL epoch", x.sas_4gl());
}

#[test]
fn rfc3339_iso8601() {
    let x = System::now();
    println!("{}", x.iso8601());
    println!("{}", x.rfc3339());
}

#[test]
fn strptime_rfc_and_iso() {
    let x = "2017-01-01T00:00:00.000".strp_iso8601::<System>();
    let y = "2017-01-01T00:00:00.000Z".strp_rf3339::<System>();
    assert_eq!(x.unix(), 1483228800);
    assert_eq!(y.unix(), 1483228800);
}

#[test]
fn tz_tests() {
    let x = Ntp::now();
    println!("{:#?}", x);
    println!("{}", x.change_tz("+01:00").pretty());
    println!("{}", x.change_tz("-01:00").pretty());
}

#[test]
fn test_add_seconds() {
    let x = System::now();
    println!("{}", x.add_seconds(3600).pretty());
}

#[test]
fn test_add_minshoursdaysweeks() {
    let x = System::now();
    println!("{}", x.add_minutes(60).pretty());
    println!("{}", x.add_hours(24).pretty());
    println!("{}", x.add_days(7).pretty());
    println!("{}", x.add_weeks(52).pretty());
}

#[test]
fn long_ago_dates() {
    let x = System::from_epoch(0);
    println!("{}", x.pretty());
    println!("{}", x.unix());
    println!("{}", x.strftime("%Y-%m-%d %H:%M:%S"));
}

#[test]
fn test_past_future() {
    let x = "2029-01-01T00:00:00.000".strp_iso8601::<System>();
    let y = "2017-01-01T00:00:00.000Z".strp_rf3339::<System>();
    println!("{} is in the {}", x.pretty(), x.past_future(&y).name());
    println!("{} is in the {}", y.pretty(), y.past_future(&x).name());
}

#[test]
fn test_add_duration() {
    let x = System::now();

    println!("{}", x.add_duration(std::time::Duration::from_secs(3600)).pretty());

    println!("{}", x.add_duration(chrono::Duration::seconds(3600)).pretty());
}

#[test]
fn test_local() {
    let x = System::now();
    println!("{}", x.local().pretty());
}

#[test]
fn test_tz_enum() {
    let x = System::now().change_tz("+08:00");
    println!("{}", x.tz_enum().unwrap_or_default().name());
    println!("{}", Tz::from_offset(3600).unwrap_or_default().name());
    println!("{}", Tz::from_offset(0).unwrap_or_default().name());
    println!("{}", Tz::from_offset(3600).unwrap_or_default().name());
    println!("{}", Tz::from_offset(7200).unwrap_or_default().name());
    println!("{}", Tz::from_offset(123456).unwrap_or_default().name());
    println!("{}", Tz::Acst.offset_struct(System::now()).pretty());
}

#[test]
fn test_cast() {
    let x = System::now();
    println!("{:#?}", x.cast::<Ntp>());
}
