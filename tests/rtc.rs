use lpc_runtime::rtc::{get_time, rtc_init, set_time, Day, Month, RawCalendar, RtcOp, RtcTime};

fn raw(sec: u32, min: u32, hour: u32, dow: u32, dom: u32, month: u32, year: u32, doy: u32) -> RawCalendar {
    RawCalendar {
        ctime0: sec | (min << 8) | (hour << 16) | (dow << 24),
        ctime1: dom | (month << 8) | (year << 16),
        ctime2: doy,
    }
}

fn assert_epoch(t: &RtcTime) {
    assert_eq!(t.get_seconds(), 0);
    assert_eq!(t.get_minutes(), 0);
    assert_eq!(t.get_hours(), 0);
    assert_eq!(t.get_day_of_week(), Day::Monday);
    assert_eq!(t.get_day_of_month(), 1);
    assert_eq!(t.get_month(), Month::January);
    assert_eq!(t.get_year(), 1970);
    assert_eq!(t.get_day_of_year(), 1);
}

#[test]
fn default_is_epoch() {
    assert_epoch(&RtcTime::default());
    assert!(RtcTime::default().is_valid());
}

#[test]
fn decode_consolidated_registers() {
    let t = RtcTime::from_registers(&raw(59, 30, 23, 6, 29, 2, 2024, 60));
    assert_eq!(t.get_seconds(), 59);
    assert_eq!(t.get_minutes(), 30);
    assert_eq!(t.get_hours(), 23);
    assert_eq!(t.get_day_of_week(), Day::Sunday);
    assert_eq!(t.get_day_of_month(), 29);
    assert_eq!(t.get_month(), Month::February);
    assert_eq!(t.get_year(), 2024);
    assert_eq!(t.get_day_of_year(), 60);
    assert!(t.is_valid());
    // bits outside the fields are ignored
    let noisy = RawCalendar { ctime0: 0xc0c0_c0c0, ctime1: 0xf000_f0e0, ctime2: 0xffff_f000 };
    let z = RtcTime::from_registers(&noisy);
    assert_eq!(z.get_seconds(), 0);
    assert_eq!(z.get_day_of_month(), 0);
    assert_eq!(z.get_year(), 0);
    assert_eq!(z.get_day_of_year(), 0);
}

#[test]
fn startup_replaces_april_31st_with_epoch() {
    let stored = RtcTime::from_registers(&raw(10, 20, 5, 2, 31, 4, 2021, 121));
    let replaced = rtc_init(&stored).expect("invalid time must be replaced");
    assert_epoch(&replaced);
}

#[test]
fn startup_keeps_valid_time() {
    let stored = RtcTime::from_registers(&raw(10, 20, 5, 2, 30, 4, 2021, 120));
    assert!(rtc_init(&stored).is_none());
    let leap_end = RtcTime::from_registers(&raw(0, 0, 0, 0, 31, 12, 2024, 366));
    assert!(rtc_init(&leap_end).is_none());
}

#[test]
fn startup_replaces_each_kind_of_invalid_time() {
    let cases = [
        raw(60, 0, 0, 0, 1, 1, 2021, 1),
        raw(0, 60, 0, 0, 1, 1, 2021, 1),
        raw(0, 0, 24, 0, 1, 1, 2021, 1),
        raw(0, 0, 0, 7, 1, 1, 2021, 1),
        raw(0, 0, 0, 0, 0, 1, 2021, 1),
        raw(0, 0, 0, 0, 1, 0, 2021, 1),
        raw(0, 0, 0, 0, 1, 13, 2021, 1),
        raw(0, 0, 0, 0, 1, 1, 2021, 0),
        raw(0, 0, 0, 0, 1, 1, 2021, 366),
        raw(0, 0, 0, 0, 29, 2, 2021, 60),
    ];
    for c in cases {
        let t = RtcTime::from_registers(&c);
        assert!(!t.is_valid());
        assert_epoch(&rtc_init(&t).unwrap());
    }
}

#[test]
fn february_29th_only_in_leap_years() {
    let mut t = RtcTime::default();
    t.set_month(Month::February);
    let before = t;
    assert!(!t.set_day_of_month(29));
    assert!(t == before);
    t.set_year(2024);
    assert!(t.set_day_of_month(29));
    assert_eq!(t.get_day_of_month(), 29);
    assert!(!t.set_day_of_month(30));
    assert_eq!(t.get_day_of_month(), 29);
}

#[test]
fn day_of_month_limits() {
    let mut t = RtcTime::default();
    assert!(!t.set_day_of_month(0));
    assert!(t.set_day_of_month(31));
    t.set_month(Month::April);
    assert!(!t.set_day_of_month(31));
    assert!(t.set_day_of_month(30));
    assert!(!t.set_day_of_month(32));
}

#[test]
fn day_of_year_limits() {
    let mut t = RtcTime::default();
    assert!(!t.set_day_of_year(0));
    assert!(t.set_day_of_year(365));
    assert!(!t.set_day_of_year(366));
    assert_eq!(t.get_day_of_year(), 365);
    t.set_year(2000);
    assert!(t.set_day_of_year(366));
    assert!(!t.set_day_of_year(367));
}

#[test]
fn time_of_day_setters() {
    let mut t = RtcTime::default();
    assert!(t.set_seconds(59));
    assert!(!t.set_seconds(60));
    assert!(t.set_minutes(59));
    assert!(!t.set_minutes(60));
    assert!(t.set_hours(23));
    assert!(!t.set_hours(24));
    assert_eq!((t.get_seconds(), t.get_minutes(), t.get_hours()), (59, 59, 23));
    t.set_day_of_week(Day::Friday);
    assert_eq!(t.get_day_of_week(), Day::Friday);
    t.set_month(Month::December);
    assert_eq!(t.get_month(), Month::December);
    assert_eq!(Month::December.number(), 12);
    assert_eq!(Day::Friday.index(), 4);
}

#[test]
fn torn_read_is_retried() {
    // the seconds register rolls over between the two reads
    let a = raw(59, 59, 23, 0, 31, 12, 2023, 365);
    let b = raw(0, 0, 0, 1, 1, 1, 2024, 1);
    assert!(get_time(&a, &b).is_none());
    let t = get_time(&b, &b).unwrap();
    assert_eq!(t, RtcTime::from_registers(&b));
    assert_eq!(t.get_year(), 2024);
    // a difference in one register alone is a tear too
    let c = RawCalendar { ctime2: 2, ..b };
    assert!(get_time(&b, &c).is_none());
}

#[test]
fn set_time_stops_writes_and_restarts() {
    let t = RtcTime::from_registers(&raw(1, 2, 3, 4, 5, 6, 2007, 156));
    assert_eq!(
        set_time(&t),
        vec![
            RtcOp::ClockEnable(false),
            RtcOp::Sec(1),
            RtcOp::Min(2),
            RtcOp::Hrs(3),
            RtcOp::Dow(4),
            RtcOp::Dom(5),
            RtcOp::Month(6),
            RtcOp::Year(2007),
            RtcOp::Doy(156),
            RtcOp::ClockEnable(true),
        ]
    );
}

#[test]
fn chronological_compare() {
    let a = RtcTime::from_registers(&raw(0, 0, 12, 0, 1, 3, 2024, 61));
    let b = RtcTime::from_registers(&raw(0, 0, 11, 0, 2, 3, 2024, 62));
    assert_eq!(a.compare(&b), -1);
    assert_eq!(b.compare(&a), 1);
    let c = RtcTime::from_registers(&raw(0, 0, 12, 5, 1, 3, 2024, 99));
    assert_eq!(a.compare(&c), 0);
    let d = RtcTime::from_registers(&raw(0, 0, 12, 0, 1, 3, 2025, 60));
    assert_eq!(a.compare(&d), -1);
    let e = RtcTime::from_registers(&raw(1, 0, 12, 0, 1, 3, 2024, 61));
    assert_eq!(e.compare(&a), 1);
}

#[test]
fn changing_source_is_read_until_a_pair_agrees() {
    // a double-buffered register that advances one second between reads,
    // then holds still
    let t0 = raw(57, 59, 23, 6, 31, 12, 2023, 365);
    let t1 = raw(58, 59, 23, 6, 31, 12, 2023, 365);
    let t2 = raw(59, 59, 23, 6, 31, 12, 2023, 365);
    let t3 = raw(0, 0, 0, 0, 1, 1, 2024, 1);
    let reads = vec![t0, t1, t2, t3, t3, t3];
    let (dropped, t) = lpc_runtime::rtc::get_time_from_reads(&reads).unwrap();
    assert_eq!(dropped, 2);
    assert_eq!(t, RtcTime::from_registers(&t3));
    // never a value seen in one read of a differing pair
    assert!(lpc_runtime::rtc::get_time_from_reads(&vec![t0, t1, t2, t3]).is_none());
    assert!(lpc_runtime::rtc::get_time_from_reads(&vec![t0]).is_none());
    let (dropped, _) = lpc_runtime::rtc::get_time_from_reads(&vec![t0, t0, t1]).unwrap();
    assert_eq!(dropped, 0);
}

#[test]
fn new_year_rollover_tear_is_never_returned() {
    let a = raw(59, 59, 23, 4, 31, 12, 1999, 365);
    // time registers already rolled over, date registers not yet
    let b = raw(0, 0, 0, 4, 31, 12, 1999, 365);
    let c = raw(0, 0, 0, 5, 1, 1, 2000, 1);
    assert!(get_time(&a, &b).is_none());
    let reads = vec![a, b, c, c, c, c];
    let (dropped, t) = lpc_runtime::rtc::get_time_from_reads(&reads).unwrap();
    assert_eq!(dropped, 1);
    assert_eq!(t, RtcTime::from_registers(&c));
    assert_ne!(t, RtcTime::from_registers(&a));
    assert_ne!(t, RtcTime::from_registers(&b));
    assert_eq!((t.get_year(), t.get_month(), t.get_day_of_month()), (2000, Month::January, 1));
}

#[test]
fn day_and_month_order() {
    assert!(Day::Monday < Day::Sunday);
    assert!(Month::January < Month::December);
    assert_eq!(Month::March.max(Month::February), Month::March);
}
