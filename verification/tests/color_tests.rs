use mqtt_log_view::color::{derive_color_from_string, hash_topic, hsl_to_rgb, hue_of_hash, Rgb};

#[test]
fn same_topic_same_color() {
    let a = derive_color_from_string("test/1234/health");
    let b = derive_color_from_string("test/1234/health");
    assert_eq!(a, b);
}

#[test]
fn fixed_topic_set_does_not_collide() {
    let topics = [
        "test/1234/health",
        "test/2345/data",
        "test/2345/state",
        "sensors/temp",
        "sensors/humidity",
        "alerts/critical",
    ];
    let colors: Vec<Rgb> = topics.iter().map(|t| derive_color_from_string(t)).collect();
    for i in 0..colors.len() {
        for j in (i + 1)..colors.len() {
            assert_ne!(colors[i], colors[j], "colors of {} and {} collide", topics[i], topics[j]);
        }
    }
}

#[test]
fn empty_string_hash_is_offset_basis() {
    assert_eq!(hash_topic(""), 0xcbf2_9ce4_8422_2325);
}

#[test]
fn hash_is_order_sensitive() {
    assert_ne!(hash_topic("ab"), hash_topic("ba"));
}

#[test]
fn hue_stays_under_full_circle() {
    for topic in ["", "a", "test/1234/health", "x/y/z"] {
        let h = hue_of_hash(hash_topic(topic));
        assert!(h < 360_000);
    }
}

#[test]
fn pure_red_from_zero_hue() {
    // h = 0: chroma 10000, hue factor 0, m = 0 -> (255, 0, 0).
    assert_eq!(hsl_to_rgb(0, 100, 50), Rgb { r: 255, g: 0, b: 0 });
}

#[test]
fn pure_green_from_third_of_circle() {
    assert_eq!(hsl_to_rgb(120_000, 100, 50), Rgb { r: 0, g: 255, b: 0 });
}

#[test]
fn sector_boundary_falls_into_upper_sector() {
    // Exactly 60 degrees: the half-open comparison picks the second sector,
    // where the hue factor is maximal, giving yellow.
    assert_eq!(hsl_to_rgb(60_000, 100, 50), Rgb { r: 255, g: 255, b: 0 });
}

#[test]
fn grey_from_zero_saturation() {
    // s = 0: chroma 0, every channel is the lightness offset alone.
    assert_eq!(hsl_to_rgb(200_000, 0, 50), Rgb { r: 128, g: 128, b: 128 });
}
