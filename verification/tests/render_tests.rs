use mqtt_log_view::layout::build_header;
use mqtt_log_view::render::{format_mqtt_log_entry, render_entry};

const TS: &str = "2024-01-01T00:00:00+00:00";

/// Removes ANSI escape sequences, leaving the plain text; whether styling is
/// applied depends on the environment the tests run in.
fn strip_ansi(s: &str) -> String {
    let mut out = String::new();
    let mut chars = s.chars().peekable();
    while let Some(c) = chars.next() {
        if c == '\u{1b}' {
            if chars.peek() == Some(&'[') {
                for d in chars.by_ref() {
                    if d == 'm' {
                        break;
                    }
                }
            }
        } else {
            out.push(c);
        }
    }
    out
}

#[test]
fn entry_is_framed_by_divider_header_divider() {
    let out = render_entry("test/1234/health", "{\"ok\":true}", TS, 96);
    let plain = strip_ansi(&out);
    let (header, divider) = build_header("test/1234/health", TS, 96);
    let lines: Vec<&str> = plain.lines().collect();
    assert_eq!(lines.len(), 7);
    assert_eq!(lines[0], divider);
    assert_eq!(lines[1], header);
    assert_eq!(lines[2], divider);
    assert_eq!(lines[3], "{ \"ok\": true }");
    assert_eq!(lines[4], divider);
    assert_eq!(lines[5], header);
    assert_eq!(lines[6], divider);
    assert!(plain.ends_with('\n'));
}

#[test]
fn divider_length_equals_header_length() {
    let out = render_entry("test/1234/health", "{\"ok\":true}", TS, 96);
    let plain = strip_ansi(&out);
    let lines: Vec<&str> = plain.lines().collect();
    assert_eq!(lines[0].chars().count(), lines[1].chars().count());
    assert_eq!(lines[1].chars().count(), 96);
    assert!(lines[1].ends_with(TS));
}

#[test]
fn non_json_body_is_rendered_verbatim() {
    let out = render_entry("t", "not-json-text", TS, 96);
    let plain = strip_ansi(&out);
    let lines: Vec<&str> = plain.lines().collect();
    assert_eq!(lines[3], "not-json-text");
}

#[test]
fn multi_line_bodies_are_kept_between_the_frames() {
    let raw = format!("{{\"outer\": {{\"inner\": \"{}\"}}, \"list\": [\"{}\"]}}",
        "x".repeat(120), "y".repeat(120));
    let out = render_entry("t", &raw, TS, 96);
    let plain = strip_ansi(&out);
    assert!(plain.lines().count() > 7);
}

#[test]
fn live_entry_contains_topic_and_body() {
    let out = format_mqtt_log_entry("test/1234/health", "not-json-text");
    let plain = strip_ansi(&out);
    assert!(plain.contains("test/1234/health"));
    assert!(plain.contains("not-json-text"));
}
