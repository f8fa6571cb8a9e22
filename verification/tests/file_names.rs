use std::time::{SystemTime, UNIX_EPOCH};
use tensorboard_writer::file_name::{decimal_string, event_file_name, fresh_event_file_name};

#[test]
fn event_file_name_of_known_parts() {
    assert_eq!(
        event_file_name(1672561234, "myhost", 4242, 0),
        "events.out.tfevents.1672561234.myhost.4242.0"
    );
}

#[test]
fn event_file_name_pads_the_time_to_ten_digits() {
    assert_eq!(event_file_name(0, "h", 1, 2), "events.out.tfevents.0000000000.h.1.2");
    assert_eq!(event_file_name(5, "h", 1, 2), "events.out.tfevents.0000000005.h.1.2");
    assert_eq!(event_file_name(999_999_999, "h", 1, 2), "events.out.tfevents.0999999999.h.1.2");
    assert_eq!(event_file_name(9_999_999_999, "h", 1, 2), "events.out.tfevents.9999999999.h.1.2");
}

#[test]
fn event_file_name_does_not_cut_long_times() {
    assert_eq!(
        event_file_name(10_000_000_000, "", 0, 0),
        "events.out.tfevents.10000000000..0.0"
    );
    assert_eq!(
        event_file_name(u64::MAX, "host", u32::MAX, u64::MAX),
        "events.out.tfevents.18446744073709551615.host.4294967295.18446744073709551615"
    );
}

#[test]
fn event_file_name_keeps_the_host_name_as_it_is() {
    assert_eq!(
        event_file_name(1, "büro.example", 7, 8),
        "events.out.tfevents.0000000001.büro.example.7.8"
    );
}

#[test]
fn event_file_name_agrees_with_format() {
    for (now, pid, uid) in [(0u64, 0u32, 0u64), (12, 34, 56), (1_700_000_000, 65535, 1 << 40)] {
        assert_eq!(
            event_file_name(now, "node-1", pid, uid),
            format!("events.out.tfevents.{now:010}.node-1.{pid}.{uid}")
        );
    }
}

#[test]
fn decimal_string_of_known_numbers() {
    assert_eq!(decimal_string(0), "0");
    assert_eq!(decimal_string(9), "9");
    assert_eq!(decimal_string(10), "10");
    assert_eq!(decimal_string(1234567890), "1234567890");
    for n in [0u64, 7, 10, 99, 100, 101, 4096, u64::MAX / 3, u64::MAX] {
        assert_eq!(decimal_string(n), n.to_string());
    }
}

fn now() -> u64 {
    SystemTime::now().duration_since(UNIX_EPOCH).unwrap().as_secs()
}

#[test]
fn fresh_event_file_name_names_time_host_and_process() {
    let before = now();
    let name = fresh_event_file_name(4242, 17);
    let after = now();
    let host = hostname::get().map(|h| h.to_string_lossy().into_owned()).unwrap_or_default();
    let candidates: Vec<String> =
        (before..=after).map(|t| event_file_name(t, &host, 4242, 17)).collect();
    assert!(candidates.contains(&name), "{name}");
    assert!(name.contains("tfevents"));
}
