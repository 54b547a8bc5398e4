use weather_report::emoji::weather_emoji;

#[test]
fn each_keyword_gets_its_pictogram() {
    assert_eq!(weather_emoji("clear sky"), "\u{2600}\u{fe0f}");
    assert_eq!(weather_emoji("scattered clouds"), "\u{2601}\u{fe0f}");
    assert_eq!(weather_emoji("light rain"), "\u{1f327}\u{fe0f}");
    assert_eq!(weather_emoji("thunderstorm with hail"), "\u{26c8}\u{fe0f}");
    assert_eq!(weather_emoji("heavy snow"), "\u{2744}\u{fe0f}");
    assert_eq!(weather_emoji("fog"), "\u{1f32b}\u{fe0f}");
}

#[test]
fn unmatched_description_gets_the_fallback() {
    assert_eq!(weather_emoji("haze"), "\u{1f308}");
    assert_eq!(weather_emoji("Unknown"), "\u{1f308}");
    assert_eq!(weather_emoji(""), "\u{1f308}");
}

#[test]
fn matching_ignores_case() {
    assert_eq!(weather_emoji("CLEAR SKY"), "\u{2600}\u{fe0f}");
    assert_eq!(weather_emoji("Light Rain"), "\u{1f327}\u{fe0f}");
}

#[test]
fn keyword_order_decides_mixed_descriptions() {
    // "cloud" stands before "rain" in the fixed order, so a description
    // holding both resolves to the cloud pictogram.
    assert_eq!(weather_emoji("light rain and clouds"), "\u{2601}\u{fe0f}");
    // "clear" stands first of all.
    assert_eq!(weather_emoji("clear with rain and clouds"), "\u{2600}\u{fe0f}");
}
