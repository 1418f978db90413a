use mqtt_log_view::layout::{build_header, format_header, truncate_topic};

const TS: &str = "2024-01-01T00:00:00+00:00";

#[test]
fn short_topic_is_kept() {
    assert_eq!(truncate_topic("a/b", 10), "a/b");
}

#[test]
fn long_topic_gets_ellipsis() {
    assert_eq!(truncate_topic("abcdef", 3), "ab…");
}

#[test]
fn truncated_length_is_the_limit() {
    let t = truncate_topic("a-rather-long-topic-name", 10);
    assert_eq!(t.chars().count(), 10);
    assert_eq!(t.chars().last(), Some('…'));
}

#[test]
fn zero_width_truncates_to_bare_ellipsis() {
    assert_eq!(truncate_topic("abc", 0), "…");
}

#[test]
fn exact_fit_is_not_truncated() {
    assert_eq!(truncate_topic("abc", 3), "abc");
}

#[test]
fn header_is_right_aligned_at_width() {
    // 16 chars of topic, 25 of timestamp, 55 spaces between.
    let (header, divider) = build_header("test/1234/health", TS, 96);
    assert_eq!(header.chars().count(), 96);
    assert!(header.starts_with("test/1234/health"));
    assert!(header.ends_with(TS));
    let middle: String = header.chars().skip(16).take(96 - 16 - 25).collect();
    assert!(middle.chars().all(|c| c == ' '));
    assert_eq!(divider.chars().count(), 96);
    assert!(divider.chars().all(|c| c == '─'));
}

#[test]
fn header_never_exceeds_width_when_timestamp_fits() {
    for width in 26..200 {
        let (header, _) = build_header("some/very/long/topic/name/for/the/test", TS, width);
        assert!(header.chars().count() <= width);
    }
}

#[test]
fn long_topic_is_cut_in_header() {
    let topic = "a".repeat(200);
    let (header, divider) = build_header(&topic, TS, 96);
    assert_eq!(header.chars().count(), 96);
    // 70 columns are left for the topic; the 70th is the ellipsis.
    assert_eq!(header.chars().nth(69), Some('…'));
    assert_eq!(header.chars().count(), divider.chars().count());
}

#[test]
fn tiny_width_does_not_panic() {
    for width in 0..5 {
        let (header, divider) = build_header("topic", TS, width);
        assert_eq!(header.chars().count(), divider.chars().count());
    }
}

#[test]
fn format_header_pads_between_topic_and_timestamp() {
    let h = format_header("abc", "XYZ", 10);
    assert_eq!(h, "abc    XYZ");
}

#[test]
fn format_header_floors_padding_at_zero() {
    let h = format_header("abcdefgh", "XYZ", 9);
    assert_eq!(h, "abcdefghXYZ");
}
