use mqtt_log_view::filter::{FilterError, TopicFilter};

#[test]
fn no_patterns_passes_everything() {
    let f = TopicFilter::new(None, None).unwrap();
    for topic in ["", "a/b", "test/1234/health", "anything at all"] {
        assert!(f.passes(topic));
    }
}

#[test]
fn inclusion_pattern_must_match() {
    let f = TopicFilter::new(Some("a"), None).unwrap();
    assert!(f.passes("a/b"));
    assert!(!f.passes("c/d"));
}

#[test]
fn exclusion_pattern_rejects_matches() {
    let f = TopicFilter::new(None, Some("a")).unwrap();
    assert!(!f.passes("a/b"));
    assert!(f.passes("c/d"));
}

#[test]
fn exclusion_wins_over_inclusion() {
    let f = TopicFilter::new(Some("a"), Some("b")).unwrap();
    assert!(f.passes("a/x"));
    assert!(!f.passes("a/b"));
}

#[test]
fn patterns_are_real_regexes() {
    let f = TopicFilter::new(Some("^test/[0-9]+/health$"), None).unwrap();
    assert!(f.passes("test/1234/health"));
    assert!(!f.passes("test/abc/health"));
    assert!(!f.passes("prefix/test/1234/health"));
}

#[test]
fn malformed_inclusion_is_a_startup_error() {
    let e = match TopicFilter::new(Some("("), None) {
        Err(e) => e,
        Ok(_) => panic!("a malformed pattern must not compile"),
    };
    assert_eq!(e, FilterError::InvalidInclude);
    assert_eq!(e.message(), "invalid inclusion pattern");
}

#[test]
fn malformed_exclusion_is_a_startup_error() {
    let e = match TopicFilter::new(None, Some("[")) {
        Err(e) => e,
        Ok(_) => panic!("a malformed pattern must not compile"),
    };
    assert_eq!(e, FilterError::InvalidExclude);
    assert_eq!(e.message(), "invalid exclusion pattern");
}
