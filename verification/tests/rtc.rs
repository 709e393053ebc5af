use web_sw_cor24_x_tinyc::rtc::{
    anchor_secs_from_storage, anchor_secs_to_storage, battery_from_storage, format_hms,
    hms_to_secs, read_time_field, rtc_advance, secs_to_hms, RtcClock, RtcStore,
};

#[test]
fn secs_to_hms_examples() {
    assert_eq!(secs_to_hms(0), (0, 0, 0));
    assert_eq!(secs_to_hms(3661), (1, 1, 1));
    assert_eq!(secs_to_hms(86399), (23, 59, 59));
    assert_eq!(secs_to_hms(86400), (0, 0, 0));
    assert_eq!(secs_to_hms(u32::MAX), ((u32::MAX / 3600 % 24) as u8, (u32::MAX / 60 % 60) as u8, (u32::MAX % 60) as u8));
}

#[test]
fn hms_to_secs_examples() {
    assert_eq!(hms_to_secs(0, 0, 0), 0);
    assert_eq!(hms_to_secs(1, 1, 1), 3661);
    assert_eq!(hms_to_secs(23, 59, 59), 86399);
    assert_eq!(hms_to_secs(255, 255, 255), 255 * 3600 + 255 * 60 + 255);
}

#[test]
fn hms_round_trip_every_second_of_the_day() {
    for secs in 0..86400u32 {
        let (h, m, s) = secs_to_hms(secs);
        assert_eq!(hms_to_secs(h, m, s), secs);
        assert_eq!(secs_to_hms(hms_to_secs(h, m, s)), (h, m, s));
    }
    for secs in [86400u32, 90000, 1_000_000, u32::MAX] {
        let (h, m, s) = secs_to_hms(secs);
        assert_eq!(hms_to_secs(h, m, s), secs % 86400);
    }
}

#[test]
fn advance_wraps_at_midnight() {
    assert_eq!(rtc_advance(0, 0), 0);
    assert_eq!(rtc_advance(86399, 1), 0);
    assert_eq!(rtc_advance(0, -1), 86399);
    assert_eq!(rtc_advance(100, -86500), 0);
    assert_eq!(rtc_advance(3600, 7200), 10800);
    assert_eq!(rtc_advance(u32::MAX, i64::MAX), ((u32::MAX as i128 + i64::MAX as i128).rem_euclid(86400)) as u32);
    assert_eq!(rtc_advance(0, i64::MIN), ((i64::MIN as i128).rem_euclid(86400)) as u32);
}

#[test]
fn advance_composes() {
    for &(a, e1, e2) in &[(0u32, 5i64, 7i64), (86000, 1000, -5000), (12, -100000, 250000), (u32::MAX, 123456789, -987654321)] {
        let mid = rtc_advance(a, e1);
        assert_eq!(rtc_advance(mid, e2), rtc_advance(a, e1 + e2));
    }
}

#[test]
fn clock_face() {
    assert_eq!(format_hms(0, 0, 0), "00:00:00");
    assert_eq!(format_hms(1, 2, 3), "01:02:03");
    assert_eq!(format_hms(23, 59, 59), "23:59:59");
    assert_eq!(format_hms(123, 4, 255), "123:04:255");
    for h in 0..=255u8 {
        assert_eq!(format_hms(h, 59 - h % 60, h), format!("{:02}:{:02}:{:02}", h, 59 - h % 60, h));
    }
}

#[test]
fn time_inputs() {
    assert_eq!(read_time_field("", 23), 0);
    assert_eq!(read_time_field("7", 23), 7);
    assert_eq!(read_time_field("23", 23), 23);
    assert_eq!(read_time_field("75", 59), 59);
    assert_eq!(read_time_field("+5", 59), 5);
    assert_eq!(read_time_field("-5", 59), 0);
    assert_eq!(read_time_field("4.5", 59), 0);
    assert_eq!(read_time_field("99999999999", 59), 0);
    assert_eq!(read_time_field("4294967295", 59), 59);
}

#[test]
fn stored_settings() {
    assert!(battery_from_storage(Some("1")));
    assert!(!battery_from_storage(Some("0")));
    assert!(!battery_from_storage(Some("11")));
    assert!(!battery_from_storage(None));
    assert_eq!(anchor_secs_from_storage(None), 0);
    assert_eq!(anchor_secs_from_storage(Some("junk")), 0);
    assert_eq!(anchor_secs_from_storage(Some("3600")), 3600);
    for n in [0u32, 9, 10, 86399, 4000000000, u32::MAX] {
        let text = anchor_secs_to_storage(n);
        assert_eq!(text, n.to_string());
        assert_eq!(anchor_secs_from_storage(Some(&text)), n);
    }
}

#[test]
fn battery_off_run_starts_at_midnight() {
    let mut clock = RtcClock::restore(false, 5000, 100);
    assert_eq!(clock.display, (0, 0, 0));
    let u = clock.start_run(1234);
    assert_eq!(clock.display, (0, 0, 0));
    assert_eq!(clock.anchor_secs, 0);
    assert!(u.device_time.is_none());
    assert!(u.store == RtcStore::Keep);
    assert_eq!(clock.tick(5), None);
    assert_eq!(clock.display, (0, 0, 0));
}

#[test]
fn battery_on_keeps_time_across_runs() {
    let mut clock = RtcClock::restore(true, 3600, 60);
    assert_eq!(clock.display, (1, 1, 0));
    let u = clock.start_run(120);
    assert_eq!(clock.anchor_secs, 3720);
    assert_eq!(clock.display, (1, 2, 0));
    assert_eq!(u.device_time, Some((1, 2, 0)));
    assert!(u.store == RtcStore::Anchor(3720));
    assert_eq!(clock.tick(30), Some((1, 2, 30)));
    assert_eq!(clock.display, (1, 2, 30));
    assert_eq!(clock.anchor_secs, 3720);
}

#[test]
fn set_time_and_toggle_battery() {
    let mut clock = RtcClock::restore(false, 0, 0);
    let u = clock.set_time(12, 34, 56);
    assert_eq!(u.device_time, Some((12, 34, 56)));
    assert!(u.store == RtcStore::Keep);
    assert_eq!(clock.display, (12, 34, 56));
    let u = clock.toggle_battery(true);
    assert!(clock.battery);
    assert!(u.store == RtcStore::BatteryOn(hms_to_secs(12, 34, 56)));
    assert_eq!(clock.tick(0), Some((12, 34, 56)));
    let u = clock.set_time(1, 2, 3);
    assert!(u.store == RtcStore::Anchor(3723));
    let u = clock.toggle_battery(false);
    assert!(u.store == RtcStore::BatteryOff);
    assert!(u.device_time.is_none());
    clock.show_device_time(7, 8, 9);
    assert_eq!(clock.display, (7, 8, 9));
}
