use lamb_daemon::label::iso8601_compact_label;
use lamb_daemon::text::{render_decimal, render_zero_padded, split_before_colon};
use std::time::{SystemTime, UNIX_EPOCH};

fn label_now() -> String {
    let seconds = SystemTime::now()
        .duration_since(UNIX_EPOCH)
        .map(|duration| duration.as_secs())
        .unwrap_or(0);
    iso8601_compact_label(seconds)
}

#[test]
fn iso8601_compact_label_is_14_digits() {
    let label = label_now();
    assert_eq!(
        label.len(),
        14,
        "expected 14-digit ISO 8601 compact, got '{label}'"
    );
    assert!(
        label.chars().all(|c| c.is_ascii_digit()),
        "expected all digits, got '{label}'"
    );
}

#[test]
fn iso8601_compact_label_is_monotonic() {
    let now = 1_700_000_000;
    let a = iso8601_compact_label(now);
    let b = iso8601_compact_label(now + 1);
    assert!(b > a, "timestamps must be monotonic: {a} then {b}");
}

#[test]
fn labels_of_known_seconds() {
    assert_eq!(iso8601_compact_label(0), "19700101000000");
    assert_eq!(iso8601_compact_label(951_782_400), "20000229000000");
    assert_eq!(iso8601_compact_label(951_868_799), "20000229235959");
    assert_eq!(iso8601_compact_label(951_868_800), "20000301000000");
    assert_eq!(iso8601_compact_label(1_700_000_000), "20231114221320");
    assert_eq!(iso8601_compact_label(4_107_542_399), "21000228235959");
    assert_eq!(iso8601_compact_label(4_107_542_400), "21000301000000");
    assert_eq!(iso8601_compact_label(253_402_300_799), "99991231235959");
    assert_eq!(iso8601_compact_label(253_402_300_800), "100000101000000");
}

#[test]
fn labels_grow_over_every_boundary_of_the_calendar() {
    let mut last = iso8601_compact_label(0);
    for day in 1..60_000u64 {
        let next = iso8601_compact_label(day * 86_400);
        assert!(next > last);
        last = next;
    }
}

#[test]
fn numbers_are_rendered_exactly() {
    assert_eq!(render_decimal(0), "0");
    assert_eq!(render_decimal(10), "10");
    assert_eq!(render_decimal(u64::MAX), u64::MAX.to_string());
    assert_eq!(render_zero_padded(7, 4), "0007");
    assert_eq!(render_zero_padded(12_345, 4), "12345");
    assert_eq!(render_zero_padded(0, 2), "00");
}

#[test]
fn a_client_is_what_stands_before_the_first_colon() {
    assert_eq!(split_before_colon("system:capture:1").as_deref(), Some("system"));
    assert_eq!(split_before_colon(":x").as_deref(), Some(""));
    assert_eq!(split_before_colon("no client"), None);
}
