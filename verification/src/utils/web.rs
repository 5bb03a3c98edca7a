//! The weather record as a complete HTML page. Text that comes from the
//! weather service is escaped before it is placed in the page.

use crate::models::weather::{
    band_of, celsius_of, celsius_tenths, display_temperature, symbol_for_icon,
    temperature_band, to_celsius, weather_symbol, TemperatureUnit, WeatherResponse,
    WeatherView,
};
use crate::text::{
    decimal, digits, escape_html, fixed, fixed_text, html_escaped, round_half_away,
    round_to_nearest,
};
use crate::utils::display_templates::RenderError;
use crate::utils::formatters::{
    compass_point, coordinates_text, format_coordinates, format_location, format_speed_tenths,
    format_sun_time, format_timestamp, format_utc_offset, format_wind_direction, location_text,
    speed_tenths_text, sun_time, utc_offset_text, utc_timestamp_text, wind_sector,
    MAX_TIMESTAMP,
};
use vstd::prelude::*;
use vstd::string::*;

verus! {

/// The visibility that the page shows for a record without one, in metres.
pub const DEFAULT_VISIBILITY: u32 = 10_000;

/// The document up to the page title.
pub const PAGE_OPEN: &'static str = r#"
<!DOCTYPE html>
<html lang="en">
<head>
    <meta charset="UTF-8">
    <meta name="viewport" content="width=device-width, initial-scale=1.0">
    <title>Weather - "#;

/// From the page title to the colour of the temperature in the style sheet.
pub const AFTER_TITLE: &'static str = r#"</title>
    <style>
        * {
            margin: 0;
            padding: 0;
            box-sizing: border-box;
        }
        
        body {
            font-family: 'Segoe UI', Tahoma, Geneva, Verdana, sans-serif;
            background: linear-gradient(135deg, #667eea 0%, #764ba2 100%);
            min-height: 100vh;
            display: flex;
            justify-content: center;
            align-items: center;
            padding: 20px;
        }
        
        .container {
            background: white;
            border-radius: 20px;
            box-shadow: 0 20px 60px rgba(0, 0, 0, 0.3);
            max-width: 800px;
            width: 100%;
            overflow: hidden;
        }
        
        .header {
            background: linear-gradient(135deg, #667eea 0%, #764ba2 100%);
            color: white;
            padding: 40px 20px;
            text-align: center;
        }
        
        .header h1 {
            font-size: 2.5em;
            margin-bottom: 10px;
        }
        
        .location {
            font-size: 1.2em;
            opacity: 0.9;
        }
        
        .coords {
            font-size: 0.9em;
            opacity: 0.8;
            margin-top: 5px;
        }
        
        .main-weather {
            display: flex;
            align-items: center;
            justify-content: space-around;
            padding: 40px 20px;
            background: linear-gradient(to right, rgba(102, 126, 234, 0.1), rgba(118, 75, 162, 0.1));
            border-bottom: 2px solid #ecf0f1;
        }
        
        .weather-icon {
            font-size: 5em;
        }
        
        .weather-main {
            text-align: left;
        }
        
        .temperature {
            font-size: 3.5em;
            font-weight: bold;
            color: "#;

/// From the colour of the temperature to the width of the cloud bar in the style sheet.
pub const AFTER_COLOR: &'static str = r#";
            margin: 10px 0;
        }
        
        .condition {
            font-size: 1.3em;
            color: #2c3e50;
            text-transform: capitalize;
        }
        
        .details {
            display: grid;
            grid-template-columns: 1fr 1fr;
            gap: 20px;
            padding: 30px 20px;
        }
        
        .detail-item {
            background: #f8f9fa;
            padding: 20px;
            border-radius: 10px;
            border-left: 4px solid #667eea;
        }
        
        .detail-label {
            font-size: 0.9em;
            color: #7f8c8d;
            text-transform: uppercase;
            letter-spacing: 1px;
            margin-bottom: 8px;
        }
        
        .detail-value {
            font-size: 1.5em;
            font-weight: bold;
            color: #2c3e50;
        }
        
        .row {
            display: grid;
            grid-template-columns: 1fr 1fr;
            gap: 20px;
            padding: 0 20px;
        }
        
        .full-width {
            grid-column: 1 / -1;
        }
        
        .section {
            margin-bottom: 30px;
        }
        
        .section-title {
            font-size: 1.3em;
            font-weight: bold;
            color: #2c3e50;
            margin-bottom: 15px;
            padding-bottom: 10px;
            border-bottom: 2px solid #667eea;
        }
        
        .sun-moon {
            display: grid;
            grid-template-columns: 1fr 1fr;
            gap: 20px;
            padding: 0 20px 20px;
        }
        
        .sun-moon-item {
            background: linear-gradient(135deg, #ffd89b 0%, #ff6b6b 100%);
            padding: 20px;
            border-radius: 10px;
            color: white;
            text-align: center;
        }
        
        .sun-moon-time {
            font-size: 2em;
            font-weight: bold;
            margin: 10px 0;
        }
        
        .footer {
            background: #ecf0f1;
            padding: 20px;
            text-align: center;
            font-size: 0.9em;
            color: #7f8c8d;
        }
        
        .progress-bar {
            background: #ecf0f1;
            height: 8px;
            border-radius: 4px;
            overflow: hidden;
            margin-top: 10px;
        }
        
        .progress-fill {
            background: linear-gradient(to right, #667eea, #764ba2);
            height: 100%;
            width: "#;

/// From the width of the cloud bar in the style sheet to the heading.
pub const AFTER_FILL_WIDTH: &'static str = r#"%;
        }
        
        @media (max-width: 600px) {
            .header h1 {
                font-size: 2em;
            }
            
            .temperature {
                font-size: 2.5em;
            }
            
            .details {
                grid-template-columns: 1fr;
            }
            
            .row {
                grid-template-columns: 1fr;
            }
            
            .sun-moon {
                grid-template-columns: 1fr;
            }
            
            .main-weather {
                flex-direction: column;
            }
        }
    </style>
</head>
<body>
    <div class="container">
        <div class="header">
            <h1>"#;

/// From the heading to the location.
pub const AFTER_HEADING: &'static str = r#"</h1>
            <div class="location">"#;

/// From the location to the coordinates.
pub const AFTER_LOCATION: &'static str = r#"</div>
            <div class="coords">📍 "#;

/// From the coordinates to the weather symbol.
pub const AFTER_COORDINATES: &'static str = r#"</div>
        </div>
        
        <div class="main-weather">
            <div class="weather-icon">"#;

/// From the weather symbol to the condition.
pub const AFTER_ICON: &'static str = r#"</div>
            <div class="weather-main">
                <div class="condition">"#;

/// From the condition to the temperature.
pub const AFTER_CONDITION: &'static str = r#"</div>
                <div class="temperature">"#;

/// From the temperature to the felt temperature.
pub const AFTER_TEMPERATURE: &'static str = r#"</div>
                <div style="color: #7f8c8d; margin-top: 5px;">Feels like: "#;

/// From the felt temperature to the current temperature in the details.
pub const AFTER_FELT: &'static str = r#"</div>
            </div>
        </div>
        
        <div style="padding: 30px 20px;">
            <div class="section">
                <div class="section-title">🌡️ Temperature Details</div>
                <div class="row">
                    <div class="detail-item">
                        <div class="detail-label">Current</div>
                        <div class="detail-value">"#;

/// From the current temperature to the felt temperature in the details.
pub const AFTER_CURRENT: &'static str = r#"</div>
                    </div>
                    <div class="detail-item">
                        <div class="detail-label">Feels Like</div>
                        <div class="detail-value">"#;

/// From the felt temperature in the details to the lowest temperature.
pub const AFTER_FEELS_LIKE: &'static str = r#"</div>
                    </div>
                    <div class="detail-item">
                        <div class="detail-label">Min</div>
                        <div class="detail-value">"#;

/// From the lowest to the highest temperature.
pub const AFTER_MIN: &'static str = r#"°</div>
                    </div>
                    <div class="detail-item">
                        <div class="detail-label">Max</div>
                        <div class="detail-value">"#;

/// From the highest temperature to the humidity.
pub const AFTER_MAX: &'static str = r#"°</div>
                    </div>
                </div>
            </div>
            
            <div class="section">
                <div class="section-title">💨 Atmospheric Conditions</div>
                <div class="row">
                    <div class="detail-item">
                        <div class="detail-label">💧 Humidity</div>
                        <div class="detail-value">"#;

/// From the humidity to the pressure.
pub const AFTER_HUMIDITY: &'static str = r#"%</div>
                    </div>
                    <div class="detail-item">
                        <div class="detail-label">🎈 Pressure</div>
                        <div class="detail-value">"#;

/// From the pressure to the wind speed.
pub const AFTER_PRESSURE: &'static str = r#" hPa</div>
                    </div>
                    <div class="detail-item">
                        <div class="detail-label">💨 Wind Speed</div>
                        <div class="detail-value">"#;

/// From the wind speed to the wind direction.
pub const AFTER_WIND_SPEED: &'static str = r#" m/s</div>
                    </div>
                    <div class="detail-item">
                        <div class="detail-label">🧭 Direction</div>
                        <div class="detail-value">"#;

/// From the wind direction to the cloud cover.
pub const AFTER_DIRECTION: &'static str = r#"</div>
                    </div>
                    <div class="detail-item full-width">
                        <div class="detail-label">☁️ Cloudiness</div>
                        <div class="detail-value">"#;

/// From the cloud cover to the width of the cloud bar.
pub const AFTER_CLOUDINESS: &'static str = r#"%</div>
                        <div class="progress-bar">
                            <div class="progress-fill" style="width: "#;

/// From the width of the cloud bar to the visibility.
pub const AFTER_BAR_WIDTH: &'static str = r#"%;"></div>
                        </div>
                    </div>
                    <div class="detail-item full-width">
                        <div class="detail-label">👁️ Visibility</div>
                        <div class="detail-value">"#;

/// From the visibility to the sunrise.
pub const AFTER_VISIBILITY: &'static str = r#" km</div>
                    </div>
                </div>
            </div>
            
            <div class="section">
                <div class="section-title">☀️ Sun & Moon</div>
                <div class="sun-moon">
                    <div class="sun-moon-item">
                        <div>🌅 Sunrise</div>
                        <div class="sun-moon-time">"#;

/// From the sunrise to the sunset.
pub const AFTER_SUNRISE: &'static str = r#"</div>
                    </div>
                    <div class="sun-moon-item" style="background: linear-gradient(135deg, #667eea 0%, #764ba2 100%);">
                        <div>🌇 Sunset</div>
                        <div class="sun-moon-time">"#;

/// From the sunset to the time of rendering.
pub const AFTER_SUNSET: &'static str = r#"</div>
                    </div>
                </div>
            </div>
        </div>
        
        <div class="footer">
            <p>🌤️ Weather CLI | 🔗 Powered by OpenWeatherMap API</p>
            <p>Last updated: "#;

/// The document after the time of rendering.
pub const PAGE_CLOSE: &'static str = r#"</p>
        </div>
    </div>
</body>
</html>
"#;

/// The colour of a temperature band in a style sheet.
pub open spec fn band_hex(band: int) -> Seq<char> {
    if band == 0 {
        "#3498db"@
    } else if band == 1 {
        "#2980b9"@
    } else if band == 2 {
        "#27ae60"@
    } else if band == 3 {
        "#f39c12"@
    } else if band == 4 {
        "#e67e22"@
    } else {
        "#e74c3c"@
    }
}

/// The visibility in kilometres to one decimal place, without a unit; that
/// of 10 km for a record without one.
pub open spec fn page_visibility(visibility: Option<u32>) -> Seq<char> {
    match visibility {
        Some(v) => fixed(round_half_away(v as int, 100), 1),
        None => fixed(round_half_away(10_000, 100), 1),
    }
}

/// The start of the page: title and style sheet, with the colour of the
/// temperature band and the cloud cover as the width of the cloud bar.
pub open spec fn page_head(w: WeatherView) -> Seq<char> {
    PAGE_OPEN@ + html_escaped(location_text(w)) + AFTER_TITLE@ + band_hex(
        temperature_band(celsius_of(w.main.temp as int)),
    ) + AFTER_COLOR@ + digits(w.clouds.all as nat) + AFTER_FILL_WIDTH@
}

/// The header of the page: heading, location, coordinates and offset from
/// UTC.
pub open spec fn page_header(w: WeatherView) -> Seq<char> {
    html_escaped(location_text(w)) + AFTER_HEADING@ + html_escaped(location_text(w))
        + AFTER_LOCATION@ + coordinates_text(w.coord) + " | "@ + utc_offset_text(
        w.timezone as int,
    ) + AFTER_COORDINATES@
}

/// The main block of the page: symbol, condition, temperature and felt
/// temperature.
pub open spec fn page_main(w: WeatherView, unit: TemperatureUnit) -> Seq<char> {
    weather_symbol(w.weather[0].icon) + AFTER_ICON@ + html_escaped(w.weather[0].description)
        + AFTER_CONDITION@ + display_temperature(w.main.temp as int, unit) + AFTER_TEMPERATURE@
        + display_temperature(w.main.feels_like as int, unit) + AFTER_FELT@
}

/// The temperature details of the page: current and felt temperature in the
/// chosen unit, lowest and highest in degrees Celsius.
pub open spec fn page_temperatures(w: WeatherView, unit: TemperatureUnit) -> Seq<char> {
    display_temperature(w.main.temp as int, unit) + AFTER_CURRENT@ + display_temperature(
        w.main.feels_like as int,
        unit,
    ) + AFTER_FEELS_LIKE@ + fixed(celsius_tenths(w.main.temp_min as int), 1) + AFTER_MIN@ + fixed(
        celsius_tenths(w.main.temp_max as int),
        1,
    ) + AFTER_MAX@
}

/// The atmosphere details of the page: humidity, pressure, wind, cloud cover
/// with its bar, and visibility.
pub open spec fn page_atmosphere(w: WeatherView) -> Seq<char> {
    digits(w.main.humidity as nat) + AFTER_HUMIDITY@ + digits(w.main.pressure as nat)
        + AFTER_PRESSURE@ + speed_tenths_text(w.wind.speed as int) + AFTER_WIND_SPEED@
        + compass_point(wind_sector(w.wind.deg as int)) + AFTER_DIRECTION@ + digits(
        w.clouds.all as nat,
    ) + AFTER_CLOUDINESS@ + digits(w.clouds.all as nat) + AFTER_BAR_WIDTH@ + page_visibility(
        w.visibility,
    ) + AFTER_VISIBILITY@
}

/// The end of the page: sunrise, sunset and the time of rendering.
pub open spec fn page_sun(w: WeatherView, updated: Seq<char>) -> Seq<char> {
    sun_time(w.sys.sunrise as int, w.timezone as int) + AFTER_SUNRISE@ + sun_time(
        w.sys.sunset as int,
        w.timezone as int,
    ) + AFTER_SUNSET@ + updated + " UTC"@ + PAGE_CLOSE@
}

/// The page for a record with at least one condition, where `updated` is
/// the time of rendering as text.
pub open spec fn page(w: WeatherView, unit: TemperatureUnit, updated: Seq<char>) -> Seq<char> {
    page_head(w) + page_header(w) + page_main(w, unit) + page_temperatures(w, unit)
        + page_atmosphere(w) + page_sun(w, updated)
}

/// What making the page returns: an error for a record without a condition,
/// and for any other record the page.
pub open spec fn generated(
    w: WeatherView,
    unit: TemperatureUnit,
    updated: Seq<char>,
    result: Result<String, RenderError>,
) -> bool {
    if w.weather.len() == 0 {
        result == Err::<String, RenderError>(RenderError::NoConditions)
    } else {
        result is Ok && result->Ok_0@ == page(w, unit, updated)
    }
}

/// The symbol for a weather icon code; the rainbow for a code that is not
/// known.
pub fn get_emoji(icon: &str) -> (symbol: &'static str)
    ensures
        symbol@ == weather_symbol(icon@),
{
    symbol_for_icon(icon)
}

/// The colour of a temperature band in a style sheet.
pub fn hex_of_band(band: u8) -> (hex: &'static str)
    ensures
        hex@ == band_hex(band as int),
{
    if band == 0 {
        "#3498db"
    } else if band == 1 {
        "#2980b9"
    } else if band == 2 {
        "#27ae60"
    } else if band == 3 {
        "#f39c12"
    } else if band == 4 {
        "#e67e22"
    } else {
        "#e74c3c"
    }
}

fn head_of(weather: &WeatherResponse) -> (out: String)
    ensures
        out@ == page_head(weather@),
{
    let mut out = String::from_str(PAGE_OPEN);
    out.append(escape_html(format_location(weather).as_str()).as_str());
    out.append(AFTER_TITLE);
    out.append(hex_of_band(band_of(to_celsius(weather.main.temp))));
    out.append(AFTER_COLOR);
    out.append(decimal(weather.clouds.all as u64).as_str());
    out.append(AFTER_FILL_WIDTH);
    out
}

fn header_of(weather: &WeatherResponse) -> (out: String)
    ensures
        out@ == page_header(weather@),
{
    let location = escape_html(format_location(weather).as_str());
    let mut out = String::from_str(location.as_str());
    out.append(AFTER_HEADING);
    out.append(location.as_str());
    out.append(AFTER_LOCATION);
    out.append(format_coordinates(&weather.coord).as_str());
    out.append(" | ");
    out.append(format_utc_offset(weather.timezone).as_str());
    out.append(AFTER_COORDINATES);
    out
}

fn main_of(weather: &WeatherResponse, unit: &TemperatureUnit) -> (out: String)
    requires
        weather@.weather.len() > 0,
    ensures
        out@ == page_main(weather@, *unit),
{
    let condition = &weather.weather[0];
    assert(condition@ == weather@.weather[0]);
    let mut out = String::from_str(symbol_for_icon(condition.icon.as_str()));
    out.append(AFTER_ICON);
    out.append(escape_html(condition.description.as_str()).as_str());
    out.append(AFTER_CONDITION);
    out.append(weather.format_temperature(unit).as_str());
    out.append(AFTER_TEMPERATURE);
    out.append(weather.format_feels_like(unit).as_str());
    out.append(AFTER_FELT);
    out
}

fn temperatures_of(weather: &WeatherResponse, unit: &TemperatureUnit) -> (out: String)
    ensures
        out@ == page_temperatures(weather@, *unit),
{
    let low = round_to_nearest(to_celsius(weather.main.temp_min), 100);
    let high = round_to_nearest(to_celsius(weather.main.temp_max), 100);
    let mut out = weather.format_temperature(unit);
    out.append(AFTER_CURRENT);
    out.append(weather.format_feels_like(unit).as_str());
    out.append(AFTER_FEELS_LIKE);
    out.append(fixed_text(low, 1).as_str());
    out.append(AFTER_MIN);
    out.append(fixed_text(high, 1).as_str());
    out.append(AFTER_MAX);
    out
}

fn atmosphere_of(weather: &WeatherResponse) -> (out: String)
    ensures
        out@ == page_atmosphere(weather@),
{
    let clouds = decimal(weather.clouds.all as u64);
    let reach: u32 = match weather.visibility {
        Some(v) => v,
        None => DEFAULT_VISIBILITY,
    };
    let mut out = decimal(weather.main.humidity as u64);
    out.append(AFTER_HUMIDITY);
    out.append(decimal(weather.main.pressure as u64).as_str());
    out.append(AFTER_PRESSURE);
    out.append(format_speed_tenths(weather.wind.speed).as_str());
    out.append(AFTER_WIND_SPEED);
    out.append(format_wind_direction(weather.wind.deg).as_str());
    out.append(AFTER_DIRECTION);
    out.append(clouds.as_str());
    out.append(AFTER_CLOUDINESS);
    out.append(clouds.as_str());
    out.append(AFTER_BAR_WIDTH);
    out.append(fixed_text(round_to_nearest(reach as i64, 100), 1).as_str());
    out.append(AFTER_VISIBILITY);
    out
}

fn sun_of(weather: &WeatherResponse, updated: &str) -> (out: String)
    ensures
        out@ == page_sun(weather@, updated@),
{
    let mut out = format_sun_time(weather.sys.sunrise, weather.timezone);
    out.append(AFTER_SUNRISE);
    out.append(format_sun_time(weather.sys.sunset, weather.timezone).as_str());
    out.append(AFTER_SUNSET);
    out.append(updated);
    out.append(" UTC");
    out.append(PAGE_CLOSE);
    out
}

/// The record as an HTML page, where `updated` is the time of rendering as
/// text. Fails for a record without a condition and for no other.
pub fn compose_html(weather: &WeatherResponse, unit: &TemperatureUnit, updated: &str) -> (result:
    Result<String, RenderError>)
    ensures
        generated(weather@, *unit, updated@, result),
{
    if weather.weather.len() == 0 {
        return Err(RenderError::NoConditions);
    }
    let mut out = head_of(weather);
    out.append(header_of(weather).as_str());
    out.append(main_of(weather, unit).as_str());
    out.append(temperatures_of(weather, unit).as_str());
    out.append(atmosphere_of(weather).as_str());
    out.append(sun_of(weather, updated).as_str());
    Ok(out)
}

/// The record as an HTML page, rendered at `now` seconds after the Unix
/// epoch. Fails for a record without a condition and for no other.
pub fn generate_html(weather: &WeatherResponse, unit: &TemperatureUnit, now: u64) -> (result:
    Result<String, RenderError>)
    requires
        now <= MAX_TIMESTAMP,
    ensures
        generated(weather@, *unit, utc_timestamp_text(now as int), result),
{
    let updated = format_timestamp(now);
    compose_html(weather, unit, updated.as_str())
}

/// The colour of the temperature on the page and its colour on a terminal
/// both go by the band of the temperature, with the same thresholds: two
/// temperatures have the same colour on the page exactly when they have the
/// same colour on a terminal.
pub proof fn lemma_page_and_terminal_colours_agree(first: int, second: int)
    ensures
        band_hex(temperature_band(first)) == band_hex(temperature_band(second))
            <==> crate::models::weather::band_color(temperature_band(first))
            == crate::models::weather::band_color(temperature_band(second)),
        temperature_band(first) == temperature_band(second) <==> band_hex(
            temperature_band(first),
        ) == band_hex(temperature_band(second)),
{
    reveal_strlit("#3498db");
    reveal_strlit("#2980b9");
    reveal_strlit("#27ae60");
    reveal_strlit("#f39c12");
    reveal_strlit("#e67e22");
    reveal_strlit("#e74c3c");
    let a = temperature_band(first);
    let b = temperature_band(second);
    assert(0 <= a <= 5 && 0 <= b <= 5);
    if a != b {
        assert(band_hex(a)[1] != band_hex(b)[1] || band_hex(a)[2] != band_hex(b)[2]);
    }
}

} // verus!
