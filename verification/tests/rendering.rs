use rainbow::lines::render_lines;
use rainbow::periods::build_rows;
use rainbow::periods::label_of;
use rainbow::periods::ForecastPeriod;
use rainbow::text::decimal_string;

fn period(number: u8, name: &str, temperature: u8, short_forecast: &str) -> ForecastPeriod {
    ForecastPeriod {
        number,
        name: name.to_string(),
        temperature,
        icon: String::new(),
        short_forecast: short_forecast.to_string(),
    }
}

#[test]
fn today_label_is_two_blanks() {
    assert_eq!(label_of("Today"), "  ");
}

#[test]
fn long_name_is_truncated_to_two_characters() {
    assert_eq!(label_of("Monday"), "Mo");
    assert_eq!(label_of("Tonight"), "To");
}

#[test]
fn short_name_is_padded_not_a_fault() {
    assert_eq!(label_of("X"), "X ");
    assert_eq!(label_of(""), "  ");
}

#[test]
fn decimal_rendering_is_exact() {
    assert_eq!(decimal_string(0), "0");
    assert_eq!(decimal_string(7), "7");
    assert_eq!(decimal_string(55), "55");
    assert_eq!(decimal_string(75), "75");
    assert_eq!(decimal_string(100), "100");
    assert_eq!(decimal_string(255), "255");
}

#[test]
fn even_periods_pair_highs_and_lows() {
    let ps = vec![
        period(1, "Monday", 70, "Sunny"),
        period(2, "Monday Night", 50, "Clear"),
        period(3, "Tuesday", 80, "Light Rain"),
        period(4, "Tuesday Night", 60, "Mostly Cloudy"),
    ];
    let rows = build_rows(&ps);
    assert_eq!(rows.highs, vec![70, 80]);
    assert_eq!(rows.lows, vec![50, 60]);
    assert_eq!(rows.labels, vec!["Mo".to_string(), "Tu".to_string()]);
    assert_eq!(
        rows.emojis,
        vec!["\u{2600}\u{fe0f}".to_string(), "\u{1f327}".to_string()]
    );
}

#[test]
fn odd_periods_leave_lows_one_short() {
    let ps = vec![
        period(1, "Monday", 70, "Sunny"),
        period(2, "Monday Night", 50, "Clear"),
        period(3, "Tuesday", 80, "Sunny"),
    ];
    let rows = build_rows(&ps);
    assert_eq!(rows.highs, vec![70, 80]);
    assert_eq!(rows.labels.len(), 2);
    assert_eq!(rows.emojis.len(), 2);
    assert_eq!(rows.lows, vec![50]);
}

#[test]
fn empty_periods_render_empty_rows() {
    let ps: Vec<ForecastPeriod> = Vec::new();
    let rows = build_rows(&ps);
    assert_eq!(rows.highs.len(), 0);
    assert_eq!(rows.lows.len(), 0);
    let lines = render_lines(&ps);
    assert_eq!(lines, vec!["", "", "", "", ""]);
}

#[test]
fn two_periods_render_one_column() {
    let ps = vec![
        period(1, "Today", 75, "Sunny"),
        period(2, "Tonight", 55, "Clear"),
    ];
    let rows = build_rows(&ps);
    assert_eq!(rows.labels, vec!["  ".to_string()]);
    assert_eq!(rows.emojis, vec!["\u{2600}\u{fe0f}".to_string()]);
    assert_eq!(rows.highs, vec![75]);
    assert_eq!(rows.lows, vec![55]);
    let lines = render_lines(&ps);
    assert_eq!(lines.len(), 5);
    assert_eq!(lines[0], "      ");
    assert_eq!(lines[1], "  \u{2600}\u{fe0f}   ");
    assert_eq!(lines[2], "  75  ");
    assert_eq!(lines[3], "  --  ");
    assert_eq!(lines[4], "  55  ");
}

#[test]
fn rendered_lines_keep_columns_aligned() {
    let ps = vec![
        period(1, "Monday", 70, "Sunny"),
        period(2, "Monday Night", 50, "Clear"),
        period(3, "Tuesday", 80, "Light Rain"),
    ];
    let lines = render_lines(&ps);
    assert_eq!(lines[0], "  Mo    Tu  ");
    assert_eq!(lines[1], "  \u{2600}\u{fe0f}     \u{1f327}   ");
    assert_eq!(lines[2], "  70    80  ");
    assert_eq!(lines[3], "  --    --  ");
    assert_eq!(lines[4], "  50  ");
}
