//! A weather record as the weather service reports it, and the temperature
//! units it can be shown in.
//!
//! Every decimal quantity is held as an integer count of thousandths:
//! temperatures in millikelvin, coordinates in thousandths of a degree, wind
//! speeds in millimetres per second. A record is never changed after it is
//! made; conversion to a display unit happens when a value is formatted.

use crate::style::Color;
use crate::text::{
    fixed, fixed_text, join, lowercase, lowercase_text, round_half_away, round_to_nearest,
    str_equals,
};
use vstd::prelude::*;
use vstd::string::*;

verus! {

/// The freezing point of water, 273.15 K, in millikelvin.
pub const FREEZING_POINT: i64 = 273_150;

/// A place on the globe, in thousandths of a degree.
#[derive(Clone, Copy, Debug, PartialEq, Eq, Structural)]
pub struct Coordinates {
    pub lon: i32,
    pub lat: i32,
}

/// One weather condition. The first condition of a record is the one shown.
#[derive(Clone, Debug)]
pub struct WeatherCondition {
    pub id: u32,
    pub main: String,
    pub description: String,
    pub icon: String,
}

/// Temperatures in millikelvin, pressure in hectopascal, humidity in percent.
#[derive(Clone, Copy, Debug, PartialEq, Eq, Structural)]
pub struct MainData {
    pub temp: i32,
    pub feels_like: i32,
    pub temp_min: i32,
    pub temp_max: i32,
    pub pressure: u32,
    pub humidity: u32,
    pub sea_level: Option<u32>,
    pub grnd_level: Option<u32>,
}

/// Wind speed and gust in millimetres per second, direction in degrees.
#[derive(Clone, Copy, Debug, PartialEq, Eq, Structural)]
pub struct WindData {
    pub speed: i32,
    pub deg: u32,
    pub gust: Option<i32>,
}

/// Cloud cover in percent.
#[derive(Clone, Copy, Debug, PartialEq, Eq, Structural)]
pub struct CloudData {
    pub all: u32,
}

/// Country code, and sunrise and sunset in seconds since the Unix epoch.
#[derive(Clone, Debug)]
pub struct SystemData {
    pub country: String,
    pub sunrise: u64,
    pub sunset: u64,
}

/// The weather at one place at one time.
#[derive(Clone, Debug)]
pub struct WeatherResponse {
    pub coord: Coordinates,
    pub weather: Vec<WeatherCondition>,
    pub main: MainData,
    pub wind: WindData,
    pub clouds: CloudData,
    pub sys: SystemData,
    pub name: String,
    pub visibility: Option<u32>,
    /// Offset of local time from UTC, in seconds.
    pub timezone: i32,
}

/// The unit a temperature is shown in.
#[derive(Clone, Copy, Debug, PartialEq, Eq, Structural)]
pub enum TemperatureUnit {
    Celsius,
    Fahrenheit,
    Kelvin,
}

/// The mathematical form of a [`WeatherCondition`].
pub struct WeatherConditionView {
    pub id: u32,
    pub main: Seq<char>,
    pub description: Seq<char>,
    pub icon: Seq<char>,
}

/// The mathematical form of a [`SystemData`].
pub struct SystemDataView {
    pub country: Seq<char>,
    pub sunrise: u64,
    pub sunset: u64,
}

/// The mathematical form of a [`WeatherResponse`].
pub struct WeatherView {
    pub coord: Coordinates,
    pub weather: Seq<WeatherConditionView>,
    pub main: MainData,
    pub wind: WindData,
    pub clouds: CloudData,
    pub sys: SystemDataView,
    pub name: Seq<char>,
    pub visibility: Option<u32>,
    pub timezone: i32,
}

impl View for WeatherCondition {
    type V = WeatherConditionView;

    open spec fn view(&self) -> WeatherConditionView {
        WeatherConditionView {
            id: self.id,
            main: self.main@,
            description: self.description@,
            icon: self.icon@,
        }
    }
}

impl View for SystemData {
    type V = SystemDataView;

    open spec fn view(&self) -> SystemDataView {
        SystemDataView { country: self.country@, sunrise: self.sunrise, sunset: self.sunset }
    }
}

impl View for WeatherResponse {
    type V = WeatherView;

    open spec fn view(&self) -> WeatherView {
        WeatherView {
            coord: self.coord,
            weather: self.weather@.map_values(|c: WeatherCondition| c@),
            main: self.main,
            wind: self.wind,
            clouds: self.clouds,
            sys: self.sys@,
            name: self.name@,
            visibility: self.visibility,
            timezone: self.timezone,
        }
    }
}

/// A temperature in thousandths of a degree Celsius, from millikelvin.
pub open spec fn celsius_of(kelvin: int) -> int {
    kelvin - 273_150
}

/// A temperature in tenths of a degree Celsius, rounded half away from zero.
pub open spec fn celsius_tenths(kelvin: int) -> int {
    round_half_away(kelvin - 273_150, 100)
}

/// A temperature in tenths of a degree Fahrenheit, rounded half away from
/// zero: `(K - 273.15) * 9 / 5 + 32`, of which `9 * (kelvin - 273150) +
/// 160000` is the 5000-fold.
pub open spec fn fahrenheit_tenths(kelvin: int) -> int {
    round_half_away(9 * (kelvin - 273_150) + 160_000, 500)
}

/// A temperature in tenths of a kelvin, rounded half away from zero.
pub open spec fn kelvin_tenths(kelvin: int) -> int {
    round_half_away(kelvin, 100)
}

/// The suffix that marks a unit.
pub open spec fn unit_symbol(unit: TemperatureUnit) -> Seq<char> {
    match unit {
        TemperatureUnit::Celsius => "°C"@,
        TemperatureUnit::Fahrenheit => "°F"@,
        TemperatureUnit::Kelvin => "K"@,
    }
}

/// A temperature of `kelvin` millikelvin in `unit`, to one decimal place,
/// with the unit's suffix.
pub open spec fn display_temperature(kelvin: int, unit: TemperatureUnit) -> Seq<char> {
    match unit {
        TemperatureUnit::Celsius => fixed(celsius_tenths(kelvin), 1) + "°C"@,
        TemperatureUnit::Fahrenheit => fixed(fahrenheit_tenths(kelvin), 1) + "°F"@,
        TemperatureUnit::Kelvin => fixed(kelvin_tenths(kelvin), 1) + "K"@,
    }
}

/// The band of a temperature in thousandths of a degree Celsius: 0 below
/// 0 °C, then one band for every ten degrees, 5 from 40 °C on. A temperature
/// on a threshold belongs to the band above it.
pub open spec fn temperature_band(celsius: int) -> int {
    if celsius < 0 {
        0
    } else if celsius < 10_000 {
        1
    } else if celsius < 20_000 {
        2
    } else if celsius < 30_000 {
        3
    } else if celsius < 40_000 {
        4
    } else {
        5
    }
}

/// The terminal colour of a temperature band.
pub open spec fn band_color(band: int) -> Color {
    if band == 0 {
        Color::BrightBlue
    } else if band == 1 {
        Color::Blue
    } else if band == 2 {
        Color::BrightGreen
    } else if band == 3 {
        Color::Yellow
    } else if band == 4 {
        Color::BrightYellow
    } else {
        Color::Red
    }
}

/// The symbol for a weather icon code; the rainbow for a code that is not
/// known.
pub open spec fn weather_symbol(icon: Seq<char>) -> Seq<char> {
    if icon == "01d"@ {
        "☀️"@
    } else if icon == "01n"@ {
        "🌙"@
    } else if icon == "02d"@ || icon == "02n"@ {
        "⛅"@
    } else if icon == "03d"@ || icon == "03n"@ || icon == "04d"@ || icon == "04n"@ {
        "☁️"@
    } else if icon == "09d"@ || icon == "09n"@ {
        "🌧️"@
    } else if icon == "10d"@ || icon == "10n"@ {
        "🌦️"@
    } else if icon == "11d"@ || icon == "11n"@ {
        "⛈️"@
    } else if icon == "13d"@ || icon == "13n"@ {
        "❄️"@
    } else if icon == "50d"@ || icon == "50n"@ {
        "🌫️"@
    } else {
        "🌈"@
    }
}

/// The icon code of a record's first condition; that of a clear day where
/// the record has no condition.
pub open spec fn primary_icon(weather: WeatherView) -> Seq<char> {
    if weather.weather.len() > 0 {
        weather.weather[0].icon
    } else {
        "01d"@
    }
}

/// The unit that a lower-case token names, if any.
pub open spec fn unit_of_token(lowered: Seq<char>) -> Option<TemperatureUnit> {
    if lowered == "c"@ || lowered == "celsius"@ {
        Some(TemperatureUnit::Celsius)
    } else if lowered == "f"@ || lowered == "fahrenheit"@ {
        Some(TemperatureUnit::Fahrenheit)
    } else if lowered == "k"@ || lowered == "kelvin"@ {
        Some(TemperatureUnit::Kelvin)
    } else {
        None
    }
}

/// What parsing a unit returns for a token whose lower-case form is
/// `lowered`: the unit it names, or an error that carries the token.
pub open spec fn parsed_unit(lowered: Seq<char>, token: Seq<char>, r: Result<TemperatureUnit, String>) -> bool {
    match unit_of_token(lowered) {
        Some(unit) => r == Ok::<TemperatureUnit, String>(unit),
        None => r is Err && r->Err_0@ == "Unknown temperature unit: "@ + token,
    }
}

/// The symbol for a weather icon code; the rainbow for a code that is not
/// known.
pub fn symbol_for_icon(icon: &str) -> (symbol: &'static str)
    ensures
        symbol@ == weather_symbol(icon@),
{
    if str_equals(icon, "01d") {
        "☀️"
    } else if str_equals(icon, "01n") {
        "🌙"
    } else if str_equals(icon, "02d") || str_equals(icon, "02n") {
        "⛅"
    } else if str_equals(icon, "03d") || str_equals(icon, "03n") || str_equals(icon, "04d")
        || str_equals(icon, "04n") {
        "☁️"
    } else if str_equals(icon, "09d") || str_equals(icon, "09n") {
        "🌧️"
    } else if str_equals(icon, "10d") || str_equals(icon, "10n") {
        "🌦️"
    } else if str_equals(icon, "11d") || str_equals(icon, "11n") {
        "⛈️"
    } else if str_equals(icon, "13d") || str_equals(icon, "13n") {
        "❄️"
    } else if str_equals(icon, "50d") || str_equals(icon, "50n") {
        "🌫️"
    } else {
        "🌈"
    }
}

/// The band of a temperature given in thousandths of a degree Celsius.
pub fn band_of(celsius: i64) -> (band: u8)
    ensures
        band == temperature_band(celsius as int),
{
    if celsius < 0 {
        0
    } else if celsius < 10_000 {
        1
    } else if celsius < 20_000 {
        2
    } else if celsius < 30_000 {
        3
    } else if celsius < 40_000 {
        4
    } else {
        5
    }
}

/// The terminal colour of a temperature band.
pub fn color_of_band(band: u8) -> (color: Color)
    ensures
        color == band_color(band as int),
{
    if band == 0 {
        Color::BrightBlue
    } else if band == 1 {
        Color::Blue
    } else if band == 2 {
        Color::BrightGreen
    } else if band == 3 {
        Color::Yellow
    } else if band == 4 {
        Color::BrightYellow
    } else {
        Color::Red
    }
}

/// A temperature of `kelvin` millikelvin in thousandths of a degree Celsius.
pub fn to_celsius(kelvin: i32) -> (celsius: i64)
    ensures
        celsius == celsius_of(kelvin as int),
{
    kelvin as i64 - FREEZING_POINT
}

/// A temperature of `kelvin` millikelvin in `unit`, to one decimal place,
/// rounded half away from zero, with the unit's suffix.
pub fn to_display_temperature(kelvin: i32, unit: TemperatureUnit) -> (out: String)
    ensures
        out@ == display_temperature(kelvin as int, unit),
{
    let celsius: i64 = to_celsius(kelvin);
    match unit {
        TemperatureUnit::Celsius => {
            let tenths = round_to_nearest(celsius, 100);
            join(fixed_text(tenths, 1).as_str(), "°C")
        },
        TemperatureUnit::Fahrenheit => {
            let tenths = round_to_nearest(9 * celsius + 160_000, 500);
            join(fixed_text(tenths, 1).as_str(), "°F")
        },
        TemperatureUnit::Kelvin => {
            let tenths = round_to_nearest(kelvin as i64, 100);
            join(fixed_text(tenths, 1).as_str(), "K")
        },
    }
}

impl WeatherResponse {
    /// The symbol for the record's first condition.
    pub fn get_weather_symbol(&self) -> (symbol: &'static str)
        ensures
            symbol@ == weather_symbol(primary_icon(self@)),
    {
        if self.weather.len() > 0 {
            symbol_for_icon(self.weather[0].icon.as_str())
        } else {
            symbol_for_icon("01d")
        }
    }

    /// The terminal colour for the record's current temperature.
    pub fn get_temperature_color(&self) -> (color: Color)
        ensures
            color == band_color(temperature_band(celsius_of(self@.main.temp as int))),
    {
        color_of_band(band_of(to_celsius(self.main.temp)))
    }

    /// The current temperature in `unit`.
    pub fn format_temperature(&self, unit: &TemperatureUnit) -> (out: String)
        ensures
            out@ == display_temperature(self@.main.temp as int, *unit),
    {
        to_display_temperature(self.main.temp, *unit)
    }

    /// The felt temperature in `unit`.
    pub fn format_feels_like(&self, unit: &TemperatureUnit) -> (out: String)
        ensures
            out@ == display_temperature(self@.main.feels_like as int, *unit),
    {
        to_display_temperature(self.main.feels_like, *unit)
    }
}

impl TemperatureUnit {
    /// The unit that `token` names, where `lowered` is the token in lower
    /// case: `c` or `celsius`, `f` or `fahrenheit`, `k` or `kelvin`. Any
    /// other token is an error that carries the token as it was given.
    pub fn from_lowercase(lowered: &str, token: &str) -> (r: Result<TemperatureUnit, String>)
        ensures
            parsed_unit(lowered@, token@, r),
    {
        if str_equals(lowered, "c") || str_equals(lowered, "celsius") {
            Ok(TemperatureUnit::Celsius)
        } else if str_equals(lowered, "f") || str_equals(lowered, "fahrenheit") {
            Ok(TemperatureUnit::Fahrenheit)
        } else if str_equals(lowered, "k") || str_equals(lowered, "kelvin") {
            Ok(TemperatureUnit::Kelvin)
        } else {
            Err(join("Unknown temperature unit: ", token))
        }
    }

    /// The unit that `token` names, in whatever case it is written.
    pub fn parse(token: &str) -> (r: Result<TemperatureUnit, String>)
        ensures
            parsed_unit(lowercase_text(token@), token@, r),
    {
        let lowered = lowercase(token);
        TemperatureUnit::from_lowercase(lowered.as_str(), token)
    }

    /// The suffix that marks the unit: `°C`, `°F` or `K`.
    pub fn symbol(&self) -> (out: String)
        ensures
            out@ == unit_symbol(*self),
    {
        match self {
            TemperatureUnit::Celsius => String::from_str("°C"),
            TemperatureUnit::Fahrenheit => String::from_str("°F"),
            TemperatureUnit::Kelvin => String::from_str("K"),
        }
    }
}

impl std::str::FromStr for TemperatureUnit {
    type Err = String;

    fn from_str(s: &str) -> (r: Result<TemperatureUnit, String>)
        ensures
            parsed_unit(lowercase_text(s@), s@, r),
    {
        TemperatureUnit::parse(s)
    }
}

/// The rounded Celsius and Fahrenheit values are the tenths nearest to the
/// exact ones, `K - 273.15` and `(K - 273.15) * 9 / 5 + 32`; where two tenths
/// are equally near, the rounded value is the one farther from zero.
pub proof fn lemma_conversion_is_nearest_tenth(kelvin: int)
    ensures
        ({
            let exact = kelvin - 273_150;
            let t = celsius_tenths(kelvin);
            &&& 2 * crate::text::magnitude(exact - t * 100) <= 100
            &&& 2 * crate::text::magnitude(exact - t * 100) == 100 ==> crate::text::magnitude(
                t * 100,
            ) > crate::text::magnitude(exact)
        }),
        ({
            let exact = 9 * (kelvin - 273_150) + 160_000;
            let t = fahrenheit_tenths(kelvin);
            &&& 2 * crate::text::magnitude(exact - t * 500) <= 500
            &&& 2 * crate::text::magnitude(exact - t * 500) == 500 ==> crate::text::magnitude(
                t * 500,
            ) > crate::text::magnitude(exact)
        }),
{
    crate::text::lemma_round_half_away_is_nearest(kelvin - 273_150, 100);
    crate::text::lemma_round_half_away_is_nearest(9 * (kelvin - 273_150) + 160_000, 500);
}

} // verus!
