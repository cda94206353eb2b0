use rainbow::cli::plan_request;
use rainbow::cli::points_url;
use rainbow::cli::split_coordinate;
use rainbow::cli::WeatherError;
use rainbow::text::str_eq_str;

#[test]
fn coordinate_argument_splits_at_the_comma() {
    let r = split_coordinate("30.1,-80.2").unwrap();
    assert_eq!(r.0, "30.1");
    assert_eq!(r.1, "-80.2");
}

#[test]
fn extra_fields_after_the_second_comma_are_dropped() {
    let r = split_coordinate("1,2,3").unwrap();
    assert_eq!(r.0, "1");
    assert_eq!(r.1, "2");
}

#[test]
fn empty_fields_are_passed_through() {
    let r = split_coordinate(",x").unwrap();
    assert_eq!(r.0, "");
    assert_eq!(r.1, "x");
}

#[test]
fn an_argument_without_a_comma_is_a_bad_coordinate() {
    assert_eq!(split_coordinate("abc"), Err(WeatherError::BadCoordinate));
    assert_eq!(split_coordinate(""), Err(WeatherError::BadCoordinate));
}

#[test]
fn a_missing_argument_is_reported_as_such() {
    assert_eq!(plan_request(None), Err(WeatherError::MissingArgument));
    let msg = WeatherError::MissingArgument.message();
    assert!(msg.starts_with("ERROR: must supply a latitude/longitude argument"));
}

#[test]
fn a_present_argument_is_split() {
    let arg = "30.1,-80.2".to_string();
    let r = plan_request(Some(&arg)).unwrap();
    assert_eq!(r.0, "30.1");
    assert_eq!(r.1, "-80.2");
}

#[test]
fn every_error_exits_non_zero_with_a_distinct_code() {
    let kinds = [
        WeatherError::MissingArgument,
        WeatherError::BadCoordinate,
        WeatherError::Transport,
        WeatherError::BadLocationData,
        WeatherError::BadForecastData,
    ];
    for k in kinds.iter() {
        assert_ne!(k.exit_code(), 0);
        assert!(!k.message().is_empty());
    }
    for a in 0..kinds.len() {
        for b in 0..kinds.len() {
            if a != b {
                assert_ne!(kinds[a].exit_code(), kinds[b].exit_code());
            }
        }
    }
}

#[test]
fn the_points_url_embeds_both_coordinates() {
    assert_eq!(
        points_url("30.1", "-80.2"),
        "https://api.weather.gov/points/30.1,-80.2"
    );
}

#[test]
fn string_comparison_is_by_characters() {
    assert!(str_eq_str("Today", "Today"));
    assert!(!str_eq_str("Today", "today"));
    assert!(!str_eq_str("Today", "Toda"));
}
