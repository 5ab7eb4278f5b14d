//! The settings that drive rendering, and their validation.
use crate::color::{is_hex_color, is_valid_hex_color};
use crate::text::{str_eq, string_of};
use vstd::prelude::*;

verus! {

/// The five colors of the custom palette, as hex color codes.
#[derive(Clone, Debug)]
pub struct Colors {
    pub empty: String,
    pub low: String,
    pub medium: String,
    pub high: String,
    pub max: String,
}

/// The settings of one run.
#[derive(Clone, Debug)]
pub struct Config {
    pub github_user_token: String,
    pub native_colors: bool,
    pub fill: String,
    pub empty: String,
    pub colors: Colors,
    pub week_start_day: String,
}

/// Why a configuration cannot be used.
#[derive(Clone, Debug, PartialEq, Eq)]
pub enum ConfigError {
    /// The access token is empty.
    EmptyToken,
    /// A color is not `#` followed by six hexadecimal digits.
    InvalidColor(String),
    /// The week start day is not the name of a weekday.
    InvalidWeekStartDay(String),
}

/// The full English name of weekday `i`, counting from Sunday as 0.
pub open spec fn weekday_name(i: int) -> Seq<char> {
    if i == 0 { "Sunday"@ }
    else if i == 1 { "Monday"@ }
    else if i == 2 { "Tuesday"@ }
    else if i == 3 { "Wednesday"@ }
    else if i == 4 { "Thursday"@ }
    else if i == 5 { "Friday"@ }
    else { "Saturday"@ }
}

/// The three-letter abbreviation of weekday `i`, counting from Sunday as 0.
pub open spec fn weekday_abbr(i: int) -> Seq<char> {
    if i == 0 { "Sun"@ }
    else if i == 1 { "Mon"@ }
    else if i == 2 { "Tue"@ }
    else if i == 3 { "Wed"@ }
    else if i == 4 { "Thu"@ }
    else if i == 5 { "Fri"@ }
    else { "Sat"@ }
}

/// The number of the weekday named `s`, or 7 where `s` names none.
pub open spec fn weekday_index(s: Seq<char>) -> int {
    if s == weekday_name(0) { 0 }
    else if s == weekday_name(1) { 1 }
    else if s == weekday_name(2) { 2 }
    else if s == weekday_name(3) { 3 }
    else if s == weekday_name(4) { 4 }
    else if s == weekday_name(5) { 5 }
    else if s == weekday_name(6) { 6 }
    else { 7 }
}

/// Parses a weekday name to its number, counting from Sunday as 0.
pub fn parse_weekday(s: &str) -> (r: Option<u8>)
    ensures
        r is Some <==> weekday_index(s@) < 7,
        r is Some ==> r.unwrap() as int == weekday_index(s@),
{
    if str_eq(s, "Sunday") { Some(0) }
    else if str_eq(s, "Monday") { Some(1) }
    else if str_eq(s, "Tuesday") { Some(2) }
    else if str_eq(s, "Wednesday") { Some(3) }
    else if str_eq(s, "Thursday") { Some(4) }
    else if str_eq(s, "Friday") { Some(5) }
    else if str_eq(s, "Saturday") { Some(6) }
    else { None }
}

/// The first of empty, low, medium, high, max that is no hex color code.
pub open spec fn first_invalid_color(c: Colors) -> Option<Seq<char>> {
    if !is_hex_color(c.empty@) { Some(c.empty@) }
    else if !is_hex_color(c.low@) { Some(c.low@) }
    else if !is_hex_color(c.medium@) { Some(c.medium@) }
    else if !is_hex_color(c.high@) { Some(c.high@) }
    else if !is_hex_color(c.max@) { Some(c.max@) }
    else { None }
}

impl Colors {
    pub open spec fn all_valid(&self) -> bool {
        first_invalid_color(*self) is None
    }
}

impl Config {
    /// A configuration that rendering accepts.
    pub open spec fn valid(&self) -> bool {
        &&& self.github_user_token@.len() > 0
        &&& self.colors.all_valid()
        &&& weekday_index(self.week_start_day@) < 7
    }

    /// Checks the token, the five colors in order, then the week start day.
    pub fn validate(&self) -> (r: Result<(), ConfigError>)
        ensures
            r is Ok <==> self.valid(),
            match r {
                Ok(_) => true,
                Err(ConfigError::EmptyToken) => self.github_user_token@.len() == 0,
                Err(ConfigError::InvalidColor(c)) => {
                    &&& self.github_user_token@.len() > 0
                    &&& first_invalid_color(self.colors) == Some(c@)
                },
                Err(ConfigError::InvalidWeekStartDay(w)) => {
                    &&& self.github_user_token@.len() > 0
                    &&& self.colors.all_valid()
                    &&& weekday_index(self.week_start_day@) == 7
                    &&& w@ == self.week_start_day@
                },
            },
    {
        if self.github_user_token.as_str().unicode_len() == 0 {
            return Err(ConfigError::EmptyToken);
        }
        if !is_valid_hex_color(self.colors.empty.as_str()) {
            return Err(ConfigError::InvalidColor(self.colors.empty.clone()));
        }
        if !is_valid_hex_color(self.colors.low.as_str()) {
            return Err(ConfigError::InvalidColor(self.colors.low.clone()));
        }
        if !is_valid_hex_color(self.colors.medium.as_str()) {
            return Err(ConfigError::InvalidColor(self.colors.medium.clone()));
        }
        if !is_valid_hex_color(self.colors.high.as_str()) {
            return Err(ConfigError::InvalidColor(self.colors.high.clone()));
        }
        if !is_valid_hex_color(self.colors.max.as_str()) {
            return Err(ConfigError::InvalidColor(self.colors.max.clone()));
        }
        if parse_weekday(self.week_start_day.as_str()).is_none() {
            return Err(ConfigError::InvalidWeekStartDay(self.week_start_day.clone()));
        }
        Ok(())
    }
}

impl Default for Config {
    /// No token, custom colors in shades of green, filled squares, weeks from Sunday.
    fn default() -> (r: Config)
        ensures
            r.github_user_token@ == ""@,
            !r.native_colors,
            r.fill@ == "■"@,
            r.empty@ == "■"@,
            r.colors.empty@ == "#161b22"@,
            r.colors.low@ == "#0e4429"@,
            r.colors.medium@ == "#006d32"@,
            r.colors.high@ == "#26a641"@,
            r.colors.max@ == "#39d353"@,
            r.week_start_day@ == "Sunday"@,
    {
        Config {
            github_user_token: string_of(""),
            native_colors: false,
            fill: string_of("■"),
            empty: string_of("■"),
            colors: Colors {
                empty: string_of("#161b22"),
                low: string_of("#0e4429"),
                medium: string_of("#006d32"),
                high: string_of("#26a641"),
                max: string_of("#39d353"),
            },
            week_start_day: string_of("Sunday"),
        }
    }
}

} // verus!
