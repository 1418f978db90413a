use mqtt_log_view::payload::format_payload;

#[test]
fn non_json_is_returned_verbatim() {
    assert_eq!(format_payload("not-json-text"), "not-json-text");
}

#[test]
fn empty_string_is_returned_verbatim() {
    assert_eq!(format_payload(""), "");
}

#[test]
fn almost_json_is_returned_verbatim() {
    assert_eq!(format_payload("{\"ok\": tru"), "{\"ok\": tru");
}

#[test]
fn small_object_is_prettied_compactly() {
    assert_eq!(format_payload("{\"ok\":true}"), "{ \"ok\": true }");
}

#[test]
fn json_round_trips_to_an_equivalent_value() {
    let inputs = [
        "{\"ok\":true}",
        "{\"data\": 123, \"nested\": {\"a\": [1, 2, 3]}}",
        "[1,2,3,{\"k\":\"v\"}]",
        "\"just a string\"",
        "42",
        "null",
    ];
    for raw in inputs {
        let pretty = format_payload(raw);
        let before: serde_json::Value = serde_json::from_str(raw).unwrap();
        let reparsed: serde_json::Value = serde_json::from_str(&pretty).unwrap();
        assert_eq!(before, reparsed, "round trip changed the value of {}", raw);
    }
}

#[test]
fn nested_json_is_spread_over_lines() {
    let raw = format!("{{\"outer\": {{\"inner\": \"{}\"}}, \"list\": [\"{}\"]}}",
        "x".repeat(120), "y".repeat(120));
    let pretty = format_payload(&raw);
    assert!(pretty.lines().count() > 1);
}
