use yt_dlp::text::{bool_to_str, u64_to_decimal};

#[test]
fn decimal_matches_display() {
    for n in [0u64, 7, 9, 10, 120, 1234, 1_000_000, u64::MAX] {
        assert_eq!(u64_to_decimal(n), n.to_string());
    }
}

#[test]
fn bool_text_matches_display() {
    assert_eq!(bool_to_str(true), true.to_string());
    assert_eq!(bool_to_str(false), false.to_string());
}
