use dono::color::{hex_to_rgb, is_valid_hex_color, Rgb};
use dono::date::Date;
use dono::{Config, ConfigError, Contribution, ContributionLevel, Dono, RenderError};

fn config() -> Config {
    let mut c = Config::default();
    c.github_user_token = String::from("token");
    c
}

fn custom_config() -> Config {
    let mut c = config();
    c.colors.empty = String::from("#eeeeee");
    c.colors.low = String::from("#c6e48b");
    c.colors.medium = String::from("#7bc96f");
    c.colors.high = String::from("#239a3b");
    c.colors.max = String::from("#196127");
    c
}

fn native_config() -> Config {
    let mut c = config();
    c.native_colors = true;
    c
}

fn day(y: i32, m: u32, d: u32, count: i64, color: Option<&str>, level: ContributionLevel) -> Contribution {
    Contribution {
        date: Date::new(y, m, d).unwrap(),
        count,
        color: color.map(String::from),
        contribution_level: level,
    }
}

/// `n` consecutive days from 2023-01-01 (a Sunday), each with count 1.
fn calendar(n: usize) -> Vec<Contribution> {
    let mut v = Vec::new();
    let mut y = 2023;
    let mut m = 1;
    let mut d = 1;
    for _ in 0..n {
        v.push(day(y, m, d, 1, Some("#26a641"), ContributionLevel::FIRST_QUARTILE));
        d += 1;
        if Date::new(y, m, d).is_none() {
            d = 1;
            m += 1;
            if m > 12 {
                m = 1;
                y += 1;
            }
        }
    }
    v
}

#[test]
fn default_config_needs_token() {
    assert_eq!(Config::default().validate(), Err(ConfigError::EmptyToken));
    assert_eq!(config().validate(), Ok(()));
}

#[test]
fn invalid_color_fails_validation() {
    let mut c = config();
    c.colors.medium = String::from("#zzzzzz");
    assert_eq!(c.validate(), Err(ConfigError::InvalidColor(String::from("#zzzzzz"))));
    let mut c = config();
    c.colors.low = String::from("0e4429");
    assert_eq!(c.validate(), Err(ConfigError::InvalidColor(String::from("0e4429"))));
    let mut c = config();
    c.colors.max = String::from("#39d35");
    assert_eq!(c.validate(), Err(ConfigError::InvalidColor(String::from("#39d35"))));
}

#[test]
fn invalid_week_start_day_fails_validation() {
    let mut c = config();
    c.week_start_day = String::from("Someday");
    assert_eq!(c.validate(), Err(ConfigError::InvalidWeekStartDay(String::from("Someday"))));
    c.week_start_day = String::from("Wednesday");
    assert_eq!(c.validate(), Ok(()));
}

#[test]
fn hex_colors_convert_to_rgb() {
    assert_eq!(hex_to_rgb("#0e4429"), Some(Rgb { r: 14, g: 68, b: 41 }));
    assert_eq!(hex_to_rgb("#FFa0B1"), Some(Rgb { r: 255, g: 160, b: 177 }));
    assert_eq!(hex_to_rgb("#zzzzzz"), None);
    assert!(is_valid_hex_color("#161b22"));
    assert!(!is_valid_hex_color("#161b2"));
    assert!(!is_valid_hex_color("161b22a"));
}

#[test]
fn dates_come_from_chrono() {
    assert!(Date::new(2023, 2, 29).is_none());
    assert!(Date::new(2024, 2, 29).is_some());
    assert!(Date::new(2024, 13, 1).is_none());
    assert_eq!(Date::new(2024, 3, 15), Some(Date { year: 2024, month: 3, day: 15 }));
    // The header ends with the month of the last day.
    let dono = Dono::new(config());
    let lines = dono
        .render_contributions(&[day(2024, 3, 15, 1, None, ContributionLevel::FIRST_QUARTILE)])
        .unwrap();
    assert!(lines[3].ends_with("\tMar"));
}

#[test]
fn zero_count_uses_empty_color() {
    let custom = Dono::new(custom_config());
    let native = Dono::new(native_config());
    let d = day(2024, 5, 1, 0, Some("#39d353"), ContributionLevel::FOURTH_QUARTILE);
    assert_eq!(custom.resolve_color(&d), "#eeeeee");
    assert_eq!(native.resolve_color(&d), "#45475a");
}

#[test]
fn custom_level_selects_palette_entry() {
    let dono = Dono::new(custom_config());
    let d = day(2024, 5, 1, 10, None, ContributionLevel::THIRD_QUARTILE);
    assert_eq!(dono.resolve_color(&d), "#239a3b");
    let lines = dono.render_contributions(&[d]).unwrap();
    assert!(lines.iter().any(|l| l.contains("\u{1b}[38;2;35;154;59m■\u{1b}[0m")));
    let d = day(2024, 5, 1, 3, None, ContributionLevel::NONE);
    assert_eq!(dono.resolve_color(&d), "#eeeeee");
}

#[test]
fn native_color_comes_from_source() {
    let dono = Dono::new(native_config());
    let d = day(2024, 5, 1, 4, Some("#26a641"), ContributionLevel::NONE);
    assert_eq!(dono.resolve_color(&d), "#26a641");
    let d = day(2024, 5, 1, 4, Some("green"), ContributionLevel::NONE);
    assert_eq!(dono.resolve_color(&d), "#45475a");
}

#[test]
fn custom_legend_has_five_colors_in_order() {
    let dono = Dono::new(custom_config());
    let legend = dono.legend_colors(&calendar(3));
    assert_eq!(legend, vec!["#eeeeee", "#c6e48b", "#7bc96f", "#239a3b", "#196127"]);
}

#[test]
fn native_legend_is_distinct_descending() {
    let dono = Dono::new(native_config());
    let cal = vec![
        day(2024, 5, 1, 1, Some("#0e4429"), ContributionLevel::FIRST_QUARTILE),
        day(2024, 5, 2, 0, Some("#39d353"), ContributionLevel::NONE),
        day(2024, 5, 3, 7, Some("#39d353"), ContributionLevel::FOURTH_QUARTILE),
        day(2024, 5, 4, 2, Some("#0e4429"), ContributionLevel::FIRST_QUARTILE),
        day(2024, 5, 5, 4, Some("#26a641"), ContributionLevel::THIRD_QUARTILE),
    ];
    let legend = dono.legend_colors(&cal);
    assert_eq!(legend, vec!["#45475a", "#39d353", "#26a641", "#0e4429"]);
    assert_eq!(legend.len(), 3 + 1);
}

#[test]
fn total_is_sum_of_counts() {
    let dono = Dono::new(config());
    let cal = vec![
        day(2024, 5, 1, 0, None, ContributionLevel::NONE),
        day(2024, 5, 2, 5, None, ContributionLevel::SECOND_QUARTILE),
        day(2024, 5, 3, 2, None, ContributionLevel::FIRST_QUARTILE),
    ];
    assert_eq!(dono.total_contributions(&cal), 7);
    let lines = dono.render_contributions(&cal).unwrap();
    assert_eq!(lines[1], "Total of \u{1b}[1m7\u{1b}[0m contributions in the last year");
}

#[test]
fn empty_calendar_is_refused() {
    let dono = Dono::new(config());
    assert_eq!(dono.render_contributions(&[]), Err(RenderError::EmptyCalendar));
}

#[test]
fn rendering_twice_is_identical() {
    let dono = Dono::new(native_config());
    let cal = calendar(40);
    assert_eq!(dono.render_contributions(&cal), dono.render_contributions(&cal));
}

#[test]
fn output_layout() {
    let dono = Dono::new(config());
    let cal = calendar(365);
    let lines = dono.render_contributions(&cal).unwrap();
    assert_eq!(lines.len(), 12);
    assert_eq!(lines[0], "");
    assert_eq!(lines[2], "");
    assert_eq!(
        lines[3],
        "      Jan     Feb     Mar     Apr     May     Jun     Jul     Aug     Sep     Oct     Nov     Dec\tDec"
    );
    assert!(lines[4].starts_with("Sun "));
    assert!(lines[10].starts_with("Sat "));
    // 53 columns: the legend is indented by 2 * 53 - 15 spaces.
    assert!(lines[11].starts_with(&format!("{} Less ", " ".repeat(91))));
    assert!(lines[11].ends_with("More"));
}

fn cells(line: &str) -> usize {
    line.matches('■').count()
}

#[test]
fn full_weeks_leave_no_partial_column() {
    let dono = Dono::new(config());
    let lines = dono.render_contributions(&calendar(364)).unwrap();
    for r in 0..7 {
        assert_eq!(cells(&lines[4 + r]), 52);
    }
}

#[test]
fn leap_year_adds_column_with_two_days() {
    let dono = Dono::new(config());
    let lines = dono.render_contributions(&calendar(366)).unwrap();
    assert_eq!(cells(&lines[4]), 53);
    assert_eq!(cells(&lines[5]), 53);
    for r in 2..7 {
        assert_eq!(cells(&lines[4 + r]), 52);
    }
}

#[test]
fn week_start_rotates_labels() {
    // 2025-01-01 is a Wednesday.
    let cal = vec![
        day(2025, 1, 1, 1, None, ContributionLevel::FIRST_QUARTILE),
        day(2025, 1, 2, 1, None, ContributionLevel::FIRST_QUARTILE),
    ];
    let sunday = Dono::new(config()).render_contributions(&cal).unwrap();
    assert!(sunday[7].starts_with("Wed ■") || sunday[7].starts_with("Wed \u{1b}"));
    assert_eq!(cells(&sunday[7]), 1);
    assert_eq!(cells(&sunday[8]), 1);
    assert!(sunday[4].starts_with("Sun   "));
    assert_eq!(cells(&sunday[4]), 0);
    let mut c = config();
    c.week_start_day = String::from("Wednesday");
    let wednesday = Dono::new(c).render_contributions(&cal).unwrap();
    assert!(wednesday[4].starts_with("Wed \u{1b}"));
    assert_eq!(cells(&wednesday[4]), 1);
    assert!(wednesday[5].starts_with("Thu \u{1b}"));
    assert!(wednesday[10].starts_with("Tue "));
}
