use power_grid::decimal::{format_volume, parse_volume};

#[test]
fn format_volume_writes_decimal() {
    assert_eq!(format_volume(0), "0");
    assert_eq!(format_volume(7), "7");
    assert_eq!(format_volume(42), "42");
    assert_eq!(format_volume(1000), "1000");
    assert_eq!(format_volume(999), "999");
    assert_eq!(format_volume(usize::MAX), usize::MAX.to_string());
}

#[test]
fn format_volume_agrees_with_std() {
    for n in (0..5000usize).chain([65535, 1 << 20, usize::MAX - 1]) {
        assert_eq!(format_volume(n), n.to_string());
    }
}

#[test]
fn parse_volume_reads_decimal() {
    assert_eq!(parse_volume("42"), Some(42));
    assert_eq!(parse_volume("0"), Some(0));
    assert_eq!(parse_volume("007"), Some(7));
    assert_eq!(parse_volume("+7"), Some(7));
}

#[test]
fn parse_volume_rejects_malformed_text() {
    assert_eq!(parse_volume(""), None);
    assert_eq!(parse_volume("+"), None);
    assert_eq!(parse_volume("-1"), None);
    assert_eq!(parse_volume("-0"), None);
    assert_eq!(parse_volume("4a"), None);
    assert_eq!(parse_volume(" 4"), None);
    assert_eq!(parse_volume("4 "), None);
    assert_eq!(parse_volume("++4"), None);
    assert_eq!(parse_volume("٣"), None);
}

#[test]
fn parse_volume_rejects_overflow() {
    let max = usize::MAX.to_string();
    assert_eq!(parse_volume(&max), Some(usize::MAX));
    let above = format!("{}0", max);
    assert_eq!(parse_volume(&above), None);
    let above_then_letter = format!("{}0x", max);
    assert_eq!(parse_volume(&above_then_letter), None);
    assert_eq!(parse_volume("99999999999999999999999999999"), None);
}

#[test]
fn parse_volume_agrees_with_std() {
    let samples = [
        "", "+", "-", "0", "00", "+0", "12", "+12", "-12", "1_000", "1e3", "12.0", "x", "9", "65536",
        "18446744073709551615", "18446744073709551616", "4294967295", "4294967296",
    ];
    for s in samples {
        assert_eq!(parse_volume(s), s.parse::<usize>().ok(), "text {:?}", s);
    }
}

#[test]
fn volume_round_trip() {
    for n in (0..3000usize).chain([usize::MAX, usize::MAX / 10, 1 << 40]) {
        assert_eq!(parse_volume(&format_volume(n)), Some(n));
    }
}
