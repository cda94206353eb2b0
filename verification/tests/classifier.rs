use rainbow::icons::classify;
use rainbow::icons::get_emojis;

const SUN: &str = "\u{2600}\u{fe0f}";
const RAIN: &str = "\u{1f327}";
const THUNDER: &str = "\u{26c8}";
const MOSTLY_CLOUDY: &str = "\u{2601}\u{fe0f}";
const PARTLY_CLOUDY: &str = "\u{26c5}\u{fe0f}";
const MOSTLY_SUNNY: &str = "\u{1f324}";

#[test]
fn rain_description_gets_rain_emoji() {
    assert_eq!(classify("Light Rain"), RAIN);
    assert_eq!(classify("rain"), RAIN);
    assert_eq!(classify("Chance Showers"), RAIN);
}

#[test]
fn matching_is_case_insensitive() {
    assert_eq!(classify("SHOWERS"), RAIN);
    assert_eq!(classify("ThUnDeRsToRmS"), THUNDER);
    assert_eq!(classify("MOSTLY SUNNY"), MOSTLY_SUNNY);
}

#[test]
fn thunder_overrides_rain() {
    assert_eq!(classify("Rain and Thunderstorms"), THUNDER);
}

#[test]
fn cloud_rules_match() {
    assert_eq!(classify("Mostly Cloudy"), MOSTLY_CLOUDY);
    assert_eq!(classify("Partly Cloudy"), PARTLY_CLOUDY);
}

#[test]
fn later_rule_wins_over_earlier() {
    assert_eq!(classify("Rain then Mostly Sunny"), MOSTLY_SUNNY);
    assert_eq!(classify("Thunder then Partly Cloudy"), PARTLY_CLOUDY);
}

#[test]
fn unmatched_description_gets_default_sun() {
    assert_eq!(classify("Sunny"), SUN);
    assert_eq!(classify("Clear"), SUN);
    assert_eq!(classify(""), SUN);
}

#[test]
fn substring_match_inside_words() {
    assert_eq!(classify("Raining hard"), RAIN);
}

#[test]
fn emojis_come_in_order() {
    let descs = vec![
        "Sunny".to_string(),
        "Light Rain".to_string(),
        "Mostly Cloudy".to_string(),
    ];
    let emojis = get_emojis(descs);
    assert_eq!(emojis, vec![SUN.to_string(), RAIN.to_string(), MOSTLY_CLOUDY.to_string()]);
}
