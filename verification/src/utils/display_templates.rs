//! The text templates for the terminal: default, compact, detailed and
//! minimal. Each is a fixed layout over the derived display values and yields
//! styled text; nothing here prints or clears the screen.

use crate::models::weather::{
    band_color, band_of, celsius_of, color_of_band, display_temperature, symbol_for_icon,
    temperature_band, to_celsius, weather_symbol, TemperatureUnit, WeatherResponse, WeatherView,
};
use crate::style::{
    bold, bold_tinted, dim_tinted, dimmed, flattened, lemma_flattened_concat,
    lemma_flattened_push, painted, plain, span, tinted, Color, SpanView, Style, StyledText,
};
use crate::text::{
    fill, filler, join, pad_right, padded, repeat, repeated, uppercase, uppercase_text,
};
use crate::utils::formatters::{
    bucket_of, cloudiness_text, color_of_bucket, coordinates_text, daily_range_text,
    feeling_bucket, feeling_color, feeling_glyph, feeling_label, feeling_spans,
    format_cloudiness, format_coordinates, format_daily_range, format_humidity,
    format_location, format_moon_phase, format_pressure, format_speed_hundredths,
    format_speed_tenths, format_sun_time, format_timestamp, format_utc_offset,
    format_visibility, format_wind_direction, gauge_cells, gauge_filled,
    get_temperature_feeling, glyph_of_bucket, humidity_text, label_of_bucket, location_text,
    moon_phase_text, pressure_text, speed_hundredths_text, speed_tenths_text, sun_time,
    utc_offset_text, utc_timestamp_text, visibility_text, wind_sector, compass_point,
    GAUGE_WIDTH, MAX_TIMESTAMP,
};
use vstd::prelude::*;
use vstd::string::*;

verus! {

/// The lower edge of the compact box.
pub const COMPACT_BOTTOM: &'static str = "└────────────────────────────────────────────────┘";

/// The upper edge of a double-lined box of the detailed template.
pub const DOUBLE_TOP: &'static str =
    "╔════════════════════════════════════════════════════════════╗";

/// The title line of the detailed template.
pub const DOUBLE_TITLE: &'static str =
    "║           🌤️  ADVANCED WEATHER INFORMATION 🌤️              ║";

/// The lower edge of a double-lined box of the detailed template.
pub const DOUBLE_BOTTOM: &'static str =
    "╚════════════════════════════════════════════════════════════╝";

/// The lower edge of a section of the detailed template.
pub const SECTION_BOTTOM: &'static str =
    "└────────────────────────────────────────────────────────────┘";

/// The heading of the location section of the detailed template.
pub const LOCATION_TOP: &'static str =
    "┌─ 📍 LOCATION ─────────────────────────────────────────────┐";

/// The heading of the conditions section of the detailed template.
pub const CONDITIONS_TOP: &'static str =
    "┌─ 🌡️  CURRENT CONDITIONS ────────────────────────────────────┐";

/// The heading of the atmosphere section of the detailed template.
pub const ATMOSPHERE_TOP: &'static str =
    "┌─ 💨 ATMOSPHERIC CONDITIONS ────────────────────────────────┐";

/// The heading of the sun and moon section of the detailed template.
pub const SUN_TOP: &'static str =
    "┌─ ☀️  SUN & MOON ──────────────────────────────────────────┐";

/// The layouts a weather record can be shown in on a terminal.
#[derive(Clone, Copy, Debug, PartialEq, Eq, Structural)]
pub enum DisplayTemplate {
    Default,
    Compact,
    Detailed,
    Minimal,
}

/// Why a record cannot be rendered.
#[derive(Clone, Copy, Debug, PartialEq, Eq, Structural)]
pub enum RenderError {
    /// The record has no weather condition, and every template shows the
    /// first one.
    NoConditions,
}

/// A weather record together with the unit and the template to show it in.
#[derive(Clone, Copy, Debug)]
pub struct WeatherDisplay<'a> {
    pub weather: &'a WeatherResponse,
    pub unit: TemperatureUnit,
    pub template: DisplayTemplate,
}

/// The description of a record's first condition; empty where it has none.
pub open spec fn primary_description(w: WeatherView) -> Seq<char> {
    if w.weather.len() > 0 {
        w.weather[0].description
    } else {
        Seq::empty()
    }
}

/// The heading of the default template.
pub open spec fn header_spans() -> Seq<SpanView> {
    seq![
        span("\n"@, plain()),
        span(repeated("="@, 80), tinted(Color::Cyan)),
        span("\n"@, plain()),
        span("🌤️  RUST WEATHER CLI"@, bold_tinted(Color::Cyan)),
        span("\n"@, plain()),
        span(repeated("="@, 80), tinted(Color::Cyan)),
        span("\n\n"@, plain()),
    ]
}

/// The location section of the default template: place, coordinates and
/// offset from UTC.
pub open spec fn location_spans(w: WeatherView) -> Seq<SpanView> {
    seq![
        span("📍 LOCATION"@, bold()),
        span("\n"@, plain()),
        span(repeated("─"@, 40), dimmed()),
        span("\n  "@, plain()),
        span("🏙️"@, bold()),
        span(" "@, plain()),
        span(location_text(w), bold_tinted(Color::Green)),
        span("\n  "@, plain()),
        span("🗺️"@, bold()),
        span(" Coordinates: "@ + coordinates_text(w.coord) + "\n  "@, plain()),
        span("🕐"@, bold()),
        span(" Timezone: "@ + utc_offset_text(w.timezone as int) + "\n\n"@, plain()),
    ]
}

/// The first part of the current-weather section of the default template:
/// condition, temperature in the colour of its band, felt temperature.
pub open spec fn current_head_spans(
    w: WeatherView,
    unit: TemperatureUnit,
    shouted: Seq<char>,
) -> Seq<SpanView> {
    let symbol = weather_symbol(w.weather[0].icon);
    let band = band_color(temperature_band(celsius_of(w.main.temp as int)));
    seq![
        span("🌡️  CURRENT WEATHER"@, bold()),
        span("\n"@, plain()),
        span(repeated("─"@, 40), dimmed()),
        span("\n  "@, plain()),
        span(symbol, bold()),
        span(" "@, plain()),
        span(shouted, bold()),
        span(" "@ + symbol + "\n  "@, plain()),
        span("🌡️"@, bold()),
        span(" Temperature: "@, plain()),
        span(display_temperature(w.main.temp as int, unit), bold_tinted(band)),
        span("\n  "@, plain()),
        span("🤚"@, bold()),
        span(
            " Feels like: "@ + display_temperature(w.main.feels_like as int, unit) + "\n  "@,
            plain(),
        ),
        span("💭"@, bold()),
        span(" "@, plain()),
    ]
}

/// The last part of the current-weather section of the default template:
/// the daily range and the temperature gauge of twenty cells.
pub open spec fn current_tail_spans(w: WeatherView) -> Seq<SpanView> {
    let celsius = celsius_of(w.main.temp as int);
    let band = band_color(temperature_band(celsius));
    let filled = gauge_filled(celsius, 20);
    seq![
        span("\n  "@, plain()),
        span("📊"@, bold()),
        span(" Daily range: "@ + daily_range_text(w.main) + "\n  "@, plain()),
        span("📈"@, bold()),
        span(" ["@, plain()),
        span(repeated("█"@, filled as nat), tinted(band)),
        span(repeated("░"@, (20 - filled) as nat), dimmed()),
        span("]\n\n"@, plain()),
    ]
}

/// The current-weather section of the default template.
pub open spec fn current_weather_spans(
    w: WeatherView,
    unit: TemperatureUnit,
    shouted: Seq<char>,
) -> Seq<SpanView> {
    current_head_spans(w, unit, shouted) + feeling_spans(celsius_of(w.main.temp as int))
        + current_tail_spans(w)
}

/// One row of the detail grid: a left cell padded to 35 characters, two
/// spaces, and a right cell, each cell a bold glyph and its text.
pub open spec fn detail_row_spans(
    left_glyph: Seq<char>,
    left_text: Seq<char>,
    right_glyph: Seq<char>,
    right_text: Seq<char>,
) -> Seq<SpanView> {
    seq![
        span("  "@, plain()),
        span(left_glyph, bold()),
        span(left_text + filler((left_glyph + left_text).len(), 35) + "  "@, plain()),
        span(right_glyph, bold()),
        span(right_text + "\n"@, plain()),
    ]
}

/// The heading of the detail grid of the default template.
pub open spec fn details_head_spans() -> Seq<SpanView> {
    seq![
        span("📊 DETAILED INFORMATION"@, bold()),
        span("\n"@, plain()),
        span(repeated("─"@, 40), dimmed()),
        span("\n"@, plain()),
    ]
}

/// The detail grid of the default template: humidity, pressure, wind and
/// clouds on the left; visibility, sunrise, sunset and moon on the right.
pub open spec fn details_spans(w: WeatherView) -> Seq<SpanView> {
    details_head_spans() + detail_row_spans(
        "💧"@,
        " Humidity: "@ + humidity_text(w.main.humidity),
        "👁️"@,
        " Visibility: "@ + visibility_text(w.visibility),
    ) + detail_row_spans(
        "🎈"@,
        " Pressure: "@ + pressure_text(w.main.pressure),
        "🌅"@,
        " Sunrise: "@ + sun_time(w.sys.sunrise as int, w.timezone as int),
    ) + detail_row_spans(
        "💨"@,
        " Wind: "@ + speed_tenths_text(w.wind.speed as int) + " m/s "@ + compass_point(
            wind_sector(w.wind.deg as int),
        ),
        "🌇"@,
        " Sunset: "@ + sun_time(w.sys.sunset as int, w.timezone as int),
    ) + detail_row_spans(
        "☁️"@,
        " Clouds: "@ + cloudiness_text(w.clouds.all as int),
        "🌙"@,
        " Moon: "@ + moon_phase_text(None),
    ) + seq![span("\n"@, plain())]
}

/// The footer of the default template, with the time of rendering.
pub open spec fn footer_spans(updated: Seq<char>) -> Seq<SpanView> {
    seq![
        span(repeated("="@, 80), tinted(Color::Cyan)),
        span("\n"@, plain()),
        span("🔄"@, dimmed()),
        span(" Last updated: "@, plain()),
        span(updated + " UTC"@, dimmed()),
        span("\n"@, plain()),
        span("⚡"@, dimmed()),
        span(" Powered by OpenWeatherMap API\n"@, plain()),
        span(repeated("="@, 80), tinted(Color::Cyan)),
        span("\n\n"@, plain()),
    ]
}

/// The default template: heading, location, current weather, detail grid
/// and footer.
pub open spec fn default_spans(
    w: WeatherView,
    unit: TemperatureUnit,
    shouted: Seq<char>,
    updated: Seq<char>,
) -> Seq<SpanView> {
    header_spans() + location_spans(w) + current_weather_spans(w, unit, shouted) + details_spans(
        w,
    ) + footer_spans(updated)
}

/// The minimal template: one line with symbol, description, temperature,
/// place and feeling.
pub open spec fn minimal_spans(w: WeatherView, unit: TemperatureUnit) -> Seq<SpanView> {
    seq![
        span(
            "\n"@ + weather_symbol(w.weather[0].icon) + " "@ + w.weather[0].description + " "@,
            plain(),
        ),
        span(display_temperature(w.main.temp as int, unit), bold()),
        span(" in "@, plain()),
        span(w.name, bold_tinted(Color::Cyan)),
        span(" | "@, plain()),
    ] + feeling_spans(celsius_of(w.main.temp as int)) + seq![span("\n\n"@, plain())]
}

/// The compact template: a small box with the condition, a summary line and
/// the sun times.
pub open spec fn compact_spans(w: WeatherView, unit: TemperatureUnit) -> Seq<SpanView> {
    seq![
        span("\n┌─ "@, plain()),
        span("🌤️"@, bold()),
        span(" "@, plain()),
        span("WEATHER"@, bold_tinted(Color::Cyan)),
        span(" ─┐\n│ "@ + weather_symbol(w.weather[0].icon) + " "@, plain()),
        span(w.weather[0].description, bold()),
        span(" "@, plain()),
        span(display_temperature(w.main.temp as int, unit), bold_tinted(Color::Yellow)),
        span(" "@, plain()),
        span("(feels "@ + display_temperature(w.main.feels_like as int, unit) + ")"@, dimmed()),
        span("\n│\n│ 📍 "@, plain()),
        span(w.name, bold()),
        span(
            " | 💧 "@ + humidity_text(w.main.humidity) + " | 💨 "@ + speed_tenths_text(
                w.wind.speed as int,
            ) + "m/s\n│ 🌅 "@ + sun_time(w.sys.sunrise as int, w.timezone as int) + " | 🌇 "@
                + sun_time(w.sys.sunset as int, w.timezone as int) + "\n"@ + COMPACT_BOTTOM@
                + "\n\n"@,
            plain(),
        ),
    ]
}

/// The title box of the detailed template.
pub open spec fn detailed_title_spans() -> Seq<SpanView> {
    seq![
        span("\n"@, plain()),
        span(DOUBLE_TOP@, tinted(Color::BrightCyan)),
        span("\n"@, plain()),
        span(DOUBLE_TITLE@, bold_tinted(Color::BrightCyan)),
        span("\n"@, plain()),
        span(DOUBLE_BOTTOM@, tinted(Color::BrightCyan)),
        span("\n"@, plain()),
    ]
}

/// The location section of the detailed template: city, country,
/// coordinates and offset from UTC.
pub open spec fn detailed_location_spans(w: WeatherView) -> Seq<SpanView> {
    seq![
        span("\n"@, plain()),
        span(LOCATION_TOP@, tinted(Color::Cyan)),
        span("\n│ City: "@, plain()),
        span(padded(w.name, 52), bold_tinted(Color::Green)),
        span("│\n│ Country: "@, plain()),
        span(padded(w.sys.country, 48), bold()),
        span(
            "│\n│ Coordinates: "@ + coordinates_text(w.coord) + repeated(" "@, 32)
                + "│\n│ Timezone: "@ + utc_offset_text(w.timezone as int) + repeated(" "@, 46)
                + "│\n"@,
            plain(),
        ),
        span(SECTION_BOTTOM@, tinted(Color::Cyan)),
        span("\n"@, plain()),
    ]
}

/// The conditions section of the detailed template: condition, temperature
/// in the colour of its band, felt temperature, daily range, feeling and
/// the temperature gauge of twenty cells.
pub open spec fn detailed_conditions_spans(
    w: WeatherView,
    unit: TemperatureUnit,
    shouted: Seq<char>,
) -> Seq<SpanView> {
    let symbol = weather_symbol(w.weather[0].icon);
    let celsius = celsius_of(w.main.temp as int);
    let band = band_color(temperature_band(celsius));
    let bucket = feeling_bucket(celsius);
    let filled = gauge_filled(celsius, 20);
    seq![
        span("\n"@, plain()),
        span(CONDITIONS_TOP@, tinted(Color::Yellow)),
        span("\n│ Condition: "@ + symbol + " "@, plain()),
        span(shouted, bold()),
        span(filler((symbol + " "@ + shouted).len(), 51) + "│\n│ Temperature: "@, plain()),
        span(padded(display_temperature(w.main.temp as int, unit), 48), bold_tinted(band)),
        span(
            "│\n│ Feels Like: "@ + padded(
                display_temperature(w.main.feels_like as int, unit),
                51,
            ) + "│\n│ Daily Range: "@ + daily_range_text(w.main) + repeated(" "@, 36)
                + "│\n│ Sensation: "@,
            plain(),
        ),
        span(feeling_glyph(bucket), dim_tinted(feeling_color(bucket))),
        span(
            " "@ + feeling_label(bucket) + filler(
                (feeling_glyph(bucket) + " "@ + feeling_label(bucket)).len(),
                52,
            ),
            dimmed(),
        ),
        span("│\n│ Gauge: ["@, plain()),
        span(repeated("█"@, filled as nat), tinted(band)),
        span(repeated("░"@, (20 - filled) as nat), dimmed()),
        span("]"@ + repeated(" "@, 29) + "│\n"@, plain()),
        span(SECTION_BOTTOM@, tinted(Color::Yellow)),
        span("\n"@, plain()),
    ]
}

/// The line for the wind gust in the detailed template; nothing where the
/// record has no gust.
pub open spec fn gust_line(gust: Option<i32>) -> Seq<char> {
    match gust {
        Some(g) => "│ Wind Gust: "@ + padded(speed_hundredths_text(g as int) + " m/s"@, 52)
            + "│\n"@,
        None => Seq::empty(),
    }
}

/// The atmosphere section of the detailed template: humidity, pressure,
/// wind speed and direction, the gust where there is one, cloud cover and
/// visibility.
pub open spec fn detailed_atmosphere_spans(w: WeatherView) -> Seq<SpanView> {
    seq![
        span("\n"@, plain()),
        span(ATMOSPHERE_TOP@, tinted(Color::Cyan)),
        span("\n│ Humidity: "@, plain()),
        span(padded(humidity_text(w.main.humidity), 53), bold_tinted(Color::Blue)),
        span(
            "│\n│ Pressure: "@ + padded(pressure_text(w.main.pressure), 53)
                + "│\n│ Wind Speed: "@,
            plain(),
        ),
        span(padded(speed_hundredths_text(w.wind.speed as int) + " m/s"@, 51), bold()),
        span("│\n│ Wind Direction: "@, plain()),
        span(padded(compass_point(wind_sector(w.wind.deg as int)), 46), bold()),
        span("│\n"@ + gust_line(w.wind.gust) + "│ Cloudiness: "@, plain()),
        span(padded(cloudiness_text(w.clouds.all as int), 50), bold()),
        span("│\n│ Visibility: "@ + padded(visibility_text(w.visibility), 51) + "│\n"@, plain()),
        span(SECTION_BOTTOM@, tinted(Color::Cyan)),
        span("\n"@, plain()),
    ]
}

/// The sun and moon section of the detailed template.
pub open spec fn detailed_sun_spans(w: WeatherView) -> Seq<SpanView> {
    seq![
        span("\n"@, plain()),
        span(SUN_TOP@, tinted(Color::BrightYellow)),
        span("\n│ Sunrise: "@, plain()),
        span(padded(sun_time(w.sys.sunrise as int, w.timezone as int), 54), bold()),
        span("│\n│ Sunset: "@, plain()),
        span(padded(sun_time(w.sys.sunset as int, w.timezone as int), 55), bold()),
        span("│\n│ Moon Phase: "@ + padded(moon_phase_text(None), 52) + "│\n"@, plain()),
        span(SECTION_BOTTOM@, tinted(Color::BrightYellow)),
        span("\n"@, plain()),
    ]
}

/// The footer box of the detailed template, with the time of rendering.
pub open spec fn detailed_footer_spans(updated: Seq<char>) -> Seq<SpanView> {
    seq![
        span("\n"@, plain()),
        span(DOUBLE_TOP@, tinted(Color::BrightCyan)),
        span("\n║ "@, plain()),
        span("🔄"@, dimmed()),
        span(" Last updated: "@, plain()),
        span(updated + " UTC"@, dimmed()),
        span(repeated(" "@, 9) + "║\n║ "@, plain()),
        span("⚡"@, dimmed()),
        span(" Powered by OpenWeatherMap API"@ + repeated(" "@, 21) + "║\n"@, plain()),
        span(DOUBLE_BOTTOM@, tinted(Color::BrightCyan)),
        span("\n\n"@, plain()),
    ]
}

/// The detailed template: title, location, conditions, atmosphere, sun and
/// moon, footer.
pub open spec fn detailed_spans(
    w: WeatherView,
    unit: TemperatureUnit,
    shouted: Seq<char>,
    updated: Seq<char>,
) -> Seq<SpanView> {
    detailed_title_spans() + detailed_location_spans(w) + detailed_conditions_spans(
        w,
        unit,
        shouted,
    ) + detailed_atmosphere_spans(w) + detailed_sun_spans(w) + detailed_footer_spans(updated)
}

/// What a template makes of a record with at least one condition, where
/// `shouted` is the description of the first condition in upper case and
/// `updated` the time of rendering as text.
pub open spec fn template_spans(
    w: WeatherView,
    unit: TemperatureUnit,
    template: DisplayTemplate,
    shouted: Seq<char>,
    updated: Seq<char>,
) -> Seq<SpanView> {
    match template {
        DisplayTemplate::Default => default_spans(w, unit, shouted, updated),
        DisplayTemplate::Compact => compact_spans(w, unit),
        DisplayTemplate::Detailed => detailed_spans(w, unit, shouted, updated),
        DisplayTemplate::Minimal => minimal_spans(w, unit),
    }
}

/// What rendering returns: an error for a record without a condition, and
/// for any other record the text of the template.
pub open spec fn rendered(
    w: WeatherView,
    unit: TemperatureUnit,
    template: DisplayTemplate,
    shouted: Seq<char>,
    updated: Seq<char>,
    result: Result<StyledText, RenderError>,
) -> bool {
    if w.weather.len() == 0 {
        result == Err::<StyledText, RenderError>(RenderError::NoConditions)
    } else {
        result is Ok && result->Ok_0@ == template_spans(w, unit, template, shouted, updated)
    }
}

/// What rendering as text returns: an error for a record without a
/// condition, and for any other record the characters of the template.
pub open spec fn rendered_text(
    w: WeatherView,
    unit: TemperatureUnit,
    template: DisplayTemplate,
    shouted: Seq<char>,
    updated: Seq<char>,
    result: Result<String, RenderError>,
) -> bool {
    if w.weather.len() == 0 {
        result == Err::<String, RenderError>(RenderError::NoConditions)
    } else {
        result is Ok && result->Ok_0@ == flattened(
            template_spans(w, unit, template, shouted, updated),
        )
    }
}

/// The one line of the minimal template, between an empty line before it
/// and one after it.
pub open spec fn minimal_line(w: WeatherView, unit: TemperatureUnit) -> Seq<char> {
    let bucket = feeling_bucket(celsius_of(w.main.temp as int));
    "\n"@ + weather_symbol(w.weather[0].icon) + " "@ + w.weather[0].description + " "@
        + display_temperature(w.main.temp as int, unit) + " in "@ + w.name + " | "@
        + feeling_glyph(bucket) + " "@ + feeling_label(bucket) + "\n\n"@
}

/// The message of a failed request, with two hints below it.
pub open spec fn error_spans(error: Seq<char>) -> Seq<SpanView> {
    seq![
        span("\n"@, plain()),
        span("❌ ERROR:"@, bold_tinted(Color::Red)),
        span(" "@ + error + "\n"@, plain()),
        span(repeated("─"@, 60), tinted(Color::Red)),
        span("\n"@, plain()),
        span("💡"@, tinted(Color::Yellow)),
        span(" Check your internet connection and API key\n"@, plain()),
        span("🔍"@, tinted(Color::Yellow)),
        span(" Make sure the city name is correct\n"@, plain()),
        span(repeated("─"@, 60), tinted(Color::Red)),
        span("\n"@, plain()),
    ]
}

/// The help text.
pub open spec fn help_spans() -> Seq<SpanView> {
    seq![
        span("\n"@, plain()),
        span("ℹ️  WEATHER CLI HELP"@, bold_tinted(Color::Cyan)),
        span("\n"@, plain()),
        span(repeated("═"@, 60), tinted(Color::Cyan)),
        span("\n\n"@, plain()),
        span("📝 USAGE:"@, bold()),
        span("\n  weather <city> [options]\n  weather --help\n\n"@, plain()),
        span("📍 EXAMPLES:"@, bold()),
        span(
            "\n  weather Nairobi\n  weather \"New York\" --unit fahrenheit\n  weather London --unit celsius\n  weather Tokyo -u k\n\n"@,
            plain(),
        ),
        span("⚙️  OPTIONS:"@, bold()),
        span(
            "\n  -u, --unit <UNIT>    Temperature unit (celsius, fahrenheit, kelvin)\n  -h, --help           Show this help message\n  -v, --version        Show version information\n\n"@,
            plain(),
        ),
        span("🌡️  TEMPERATURE UNITS:"@, bold()),
        span(
            "\n  celsius (c)     - Degrees Celsius (°C)\n  fahrenheit (f)  - Degrees Fahrenheit (°F)\n  kelvin (k)      - Kelvin (K)\n\n"@,
            plain(),
        ),
        span("🔧 CONFIGURATION:"@, bold()),
        span("\n  export WEATHER_API_KEY=\"your_api_key_here\"\n\n"@, plain()),
        span("🔗 LINKS:"@, bold()),
        span(
            "\n  GitHub: https://github.com/yourusername/weather-cli\n  OpenWeatherMap: https://openweathermap.org/api\n\n"@,
            plain(),
        ),
        span(repeated("═"@, 60), tinted(Color::Cyan)),
        span("\n"@, plain()),
    ]
}

/// The two lines that name the program and its version.
pub open spec fn version_spans(version: Seq<char>) -> Seq<SpanView> {
    seq![span("🌤️  Weather CLI v"@ + version + "\n🦀 Built with Rust\n"@, plain())]
}

/// The notice that something is in progress: an hourglass, the message and
/// three dots, without a line end.
pub open spec fn loading_spans(message: Seq<char>) -> Seq<SpanView> {
    seq![span("⏳"@, tinted(Color::Yellow)), span(" "@ + message + "..."@, plain())]
}

impl RenderError {
    /// The error in words.
    pub fn message(&self) -> (out: String)
        ensures
            out@ == "The weather record has no conditions to show"@,
    {
        String::from_str("The weather record has no conditions to show")
    }
}

/// One row of the detail grid.
pub fn detail_row(left_glyph: &str, left_text: &str, right_glyph: &str, right_text: &str) -> (out:
    StyledText)
    ensures
        out@ == detail_row_spans(left_glyph@, left_text@, right_glyph@, right_text@),
{
    let cell = join(left_glyph, left_text);
    let gap = fill(cell.as_str().unicode_len(), 35);
    let mut out = StyledText::new();
    out.push("  ", Style::plain());
    out.push(left_glyph, Style::bold());
    out.push_joined(left_text, gap.as_str(), "  ", Style::plain());
    out.push(right_glyph, Style::bold());
    out.push(join(right_text, "\n").as_str(), Style::plain());
    out
}

impl<'a> WeatherDisplay<'a> {
    /// A display of `weather` in `unit` with the default template.
    pub fn new(weather: &'a WeatherResponse, unit: TemperatureUnit) -> (display: Self)
        ensures
            display.weather == weather,
            display.unit == unit,
            display.template == DisplayTemplate::Default,
    {
        WeatherDisplay { weather, unit, template: DisplayTemplate::Default }
    }

    /// The same display with another template.
    pub fn with_template(self, template: DisplayTemplate) -> (display: Self)
        ensures
            display.weather == self.weather,
            display.unit == self.unit,
            display.template == template,
    {
        WeatherDisplay { weather: self.weather, unit: self.unit, template }
    }

    /// The record in the chosen template as text for a terminal, rendered
    /// at `now` seconds after the Unix epoch. Fails for a record without a
    /// condition and for no other. The text is the spans of the template in
    /// order, a styled span as it is or between an escape code and the reset
    /// sequence, as the `colored` crate writes it where the program runs.
    pub fn display(&self, now: u64) -> (result: Result<String, RenderError>)
        requires
            now <= MAX_TIMESTAMP,
        ensures
            result is Err <==> self.weather@.weather.len() == 0,
            result is Err ==> result->Err_0 == RenderError::NoConditions,
            result matches Ok(text) ==> painted(
                template_spans(
                    self.weather@,
                    self.unit,
                    self.template,
                    uppercase_text(primary_description(self.weather@)),
                    utc_timestamp_text(now as int),
                ),
                text@,
            ),
    {
        match self.render(now) {
            Ok(text) => Ok(text.colorize()),
            Err(e) => Err(e),
        }
    }

    /// The record in the chosen template as styled text, rendered at `now`
    /// seconds after the Unix epoch.
    pub fn render(&self, now: u64) -> (result: Result<StyledText, RenderError>)
        requires
            now <= MAX_TIMESTAMP,
        ensures
            rendered(
                self.weather@,
                self.unit,
                self.template,
                uppercase_text(primary_description(self.weather@)),
                utc_timestamp_text(now as int),
                result,
            ),
    {
        if self.weather.weather.len() == 0 {
            return Err(RenderError::NoConditions);
        }
        let shouted = uppercase(self.weather.weather[0].description.as_str());
        let updated = format_timestamp(now);
        self.compose(shouted.as_str(), updated.as_str())
    }

    /// The record in the chosen template as text without styles, rendered
    /// at `now` seconds after the Unix epoch. Fails for a record without a
    /// condition and for no other.
    pub fn render_text(&self, now: u64) -> (result: Result<String, RenderError>)
        requires
            now <= MAX_TIMESTAMP,
        ensures
            rendered_text(
                self.weather@,
                self.unit,
                self.template,
                uppercase_text(primary_description(self.weather@)),
                utc_timestamp_text(now as int),
                result,
            ),
    {
        match self.render(now) {
            Ok(text) => Ok(text.plain_text()),
            Err(e) => Err(e),
        }
    }

    /// The record in the chosen template as styled text, where `shouted` is
    /// the description of the first condition in upper case and `updated`
    /// the time of rendering as text.
    pub fn compose(&self, shouted: &str, updated: &str) -> (result: Result<
        StyledText,
        RenderError,
    >)
        ensures
            rendered(self.weather@, self.unit, self.template, shouted@, updated@, result),
    {
        if self.weather.weather.len() == 0 {
            return Err(RenderError::NoConditions);
        }
        let text = match self.template {
            DisplayTemplate::Default => self.display_default(shouted, updated),
            DisplayTemplate::Compact => self.display_compact(),
            DisplayTemplate::Detailed => self.display_detailed(shouted, updated),
            DisplayTemplate::Minimal => self.display_minimal(),
        };
        Ok(text)
    }

    /// The minimal template.
    pub fn display_minimal(&self) -> (out: StyledText)
        requires
            self.weather@.weather.len() > 0,
        ensures
            out@ == minimal_spans(self.weather@, self.unit),
    {
        let condition = &self.weather.weather[0];
        assert(condition@ == self.weather@.weather[0]);
        let mut lead = String::from_str("\n");
        lead.append(symbol_for_icon(condition.icon.as_str()));
        lead.append(" ");
        lead.append(condition.description.as_str());
        lead.append(" ");
        let mut out = StyledText::new();
        out.push(lead.as_str(), Style::plain());
        out.push(self.weather.format_temperature(&self.unit).as_str(), Style::bold());
        out.push(" in ", Style::plain());
        out.push(self.weather.name.as_str(), Style::bold_tinted(Color::Cyan));
        out.push(" | ", Style::plain());
        out.append(get_temperature_feeling(to_celsius(self.weather.main.temp)));
        let mut tail = StyledText::new();
        tail.push("\n\n", Style::plain());
        out.append(tail);
        out
    }

    /// The compact template.
    pub fn display_compact(&self) -> (out: StyledText)
        requires
            self.weather@.weather.len() > 0,
        ensures
            out@ == compact_spans(self.weather@, self.unit),
    {
        let weather = self.weather;
        let condition = &weather.weather[0];
        assert(condition@ == weather@.weather[0]);
        let mut open = String::from_str(" ─┐\n│ ");
        open.append(symbol_for_icon(condition.icon.as_str()));
        open.append(" ");
        let mut felt = String::from_str("(feels ");
        felt.append(weather.format_feels_like(&self.unit).as_str());
        felt.append(")");
        let mut summary = String::from_str(" | 💧 ");
        summary.append(format_humidity(weather.main.humidity).as_str());
        summary.append(" | 💨 ");
        summary.append(format_speed_tenths(weather.wind.speed).as_str());
        summary.append("m/s\n│ 🌅 ");
        summary.append(format_sun_time(weather.sys.sunrise, weather.timezone).as_str());
        summary.append(" | 🌇 ");
        summary.append(format_sun_time(weather.sys.sunset, weather.timezone).as_str());
        summary.append("\n");
        summary.append(COMPACT_BOTTOM);
        summary.append("\n\n");
        let mut out = StyledText::new();
        out.push("\n┌─ ", Style::plain());
        out.push("🌤️", Style::bold());
        out.push(" ", Style::plain());
        out.push("WEATHER", Style::bold_tinted(Color::Cyan));
        out.push(open.as_str(), Style::plain());
        out.push(condition.description.as_str(), Style::bold());
        out.push(" ", Style::plain());
        out.push(
            weather.format_temperature(&self.unit).as_str(),
            Style::bold_tinted(Color::Yellow),
        );
        out.push(" ", Style::plain());
        out.push(felt.as_str(), Style::dimmed());
        out.push("\n│\n│ 📍 ", Style::plain());
        out.push(weather.name.as_str(), Style::bold());
        out.push(summary.as_str(), Style::plain());
        out
    }

    /// The default template.
    pub fn display_default(&self, shouted: &str, updated: &str) -> (out: StyledText)
        requires
            self.weather@.weather.len() > 0,
        ensures
            out@ == default_spans(self.weather@, self.unit, shouted@, updated@),
    {
        let mut out = self.display_header();
        out.append(self.display_location());
        out.append(self.display_current_weather(shouted));
        out.append(self.display_details());
        out.append(self.display_footer(updated));
        out
    }

    /// The detailed template.
    pub fn display_detailed(&self, shouted: &str, updated: &str) -> (out: StyledText)
        requires
            self.weather@.weather.len() > 0,
        ensures
            out@ == detailed_spans(self.weather@, self.unit, shouted@, updated@),
    {
        let mut out = self.detailed_title();
        out.append(self.detailed_location());
        out.append(self.detailed_conditions(shouted));
        out.append(self.detailed_atmosphere());
        out.append(self.detailed_sun());
        out.append(self.detailed_footer(updated));
        out
    }

    /// The title box of the detailed template.
    pub fn detailed_title(&self) -> (out: StyledText)
        ensures
            out@ == detailed_title_spans(),
    {
        let mut out = StyledText::new();
        out.push("\n", Style::plain());
        out.push(DOUBLE_TOP, Style::tinted(Color::BrightCyan));
        out.push("\n", Style::plain());
        out.push(DOUBLE_TITLE, Style::bold_tinted(Color::BrightCyan));
        out.push("\n", Style::plain());
        out.push(DOUBLE_BOTTOM, Style::tinted(Color::BrightCyan));
        out.push("\n", Style::plain());
        out
    }

    /// The location section of the detailed template.
    pub fn detailed_location(&self) -> (out: StyledText)
        ensures
            out@ == detailed_location_spans(self.weather@),
    {
        let weather = self.weather;
        let mut rest = String::from_str("│\n│ Coordinates: ");
        rest.append(format_coordinates(&weather.coord).as_str());
        rest.append(repeat(" ", 32).as_str());
        rest.append("│\n│ Timezone: ");
        rest.append(format_utc_offset(weather.timezone).as_str());
        rest.append(repeat(" ", 46).as_str());
        rest.append("│\n");
        let mut out = StyledText::new();
        out.push("\n", Style::plain());
        out.push(LOCATION_TOP, Style::tinted(Color::Cyan));
        out.push("\n│ City: ", Style::plain());
        out.push(pad_right(weather.name.as_str(), 52).as_str(), Style::bold_tinted(Color::Green));
        out.push("│\n│ Country: ", Style::plain());
        out.push(pad_right(weather.sys.country.as_str(), 48).as_str(), Style::bold());
        out.push(rest.as_str(), Style::plain());
        out.push(SECTION_BOTTOM, Style::tinted(Color::Cyan));
        out.push("\n", Style::plain());
        out
    }

    /// The conditions section of the detailed template.
    pub fn detailed_conditions(&self, shouted: &str) -> (out: StyledText)
        requires
            self.weather@.weather.len() > 0,
        ensures
            out@ == detailed_conditions_spans(self.weather@, self.unit, shouted@),
    {
        let weather = self.weather;
        let condition = &weather.weather[0];
        assert(condition@ == weather@.weather[0]);
        let symbol = symbol_for_icon(condition.icon.as_str());
        let celsius = to_celsius(weather.main.temp);
        let band = color_of_band(band_of(celsius));
        let bucket = bucket_of(celsius);
        let glyph = glyph_of_bucket(bucket);
        let label = label_of_bucket(bucket);
        let cells = gauge_cells(celsius, GAUGE_WIDTH);
        let mut closing = String::from_str("]");
        closing.append(repeat(" ", 29).as_str());
        closing.append("│\n");

        let mut lead = String::from_str("\n│ Condition: ");
        lead.append(symbol);
        lead.append(" ");
        let mut shown = String::from_str(symbol);
        shown.append(" ");
        shown.append(shouted);
        let mut after = fill(shown.as_str().unicode_len(), 51);
        after.append("│\n│ Temperature: ");
        let mut middle = String::from_str("│\n│ Feels Like: ");
        middle.append(pad_right(weather.format_feels_like(&self.unit).as_str(), 51).as_str());
        middle.append("│\n│ Daily Range: ");
        middle.append(format_daily_range(&weather.main).as_str());
        middle.append(repeat(" ", 36).as_str());
        middle.append("│\n│ Sensation: ");
        let mut feeling = String::from_str(glyph);
        feeling.append(" ");
        feeling.append(label);
        let mut worded = String::from_str(" ");
        worded.append(label);
        worded.append(fill(feeling.as_str().unicode_len(), 52).as_str());

        let mut out = StyledText::new();
        out.push("\n", Style::plain());
        out.push(CONDITIONS_TOP, Style::tinted(Color::Yellow));
        out.push(lead.as_str(), Style::plain());
        out.push(shouted, Style::bold());
        out.push(after.as_str(), Style::plain());
        out.push(
            pad_right(weather.format_temperature(&self.unit).as_str(), 48).as_str(),
            Style::bold_tinted(band),
        );
        out.push(middle.as_str(), Style::plain());
        out.push(glyph, Style::dim_tinted(color_of_bucket(bucket)));
        out.push(worded.as_str(), Style::dimmed());
        out.push("│\n│ Gauge: [", Style::plain());
        out.push(repeat("█", cells.0 as usize).as_str(), Style::tinted(band));
        out.push(repeat("░", cells.1 as usize).as_str(), Style::dimmed());
        out.push(closing.as_str(), Style::plain());
        out.push(SECTION_BOTTOM, Style::tinted(Color::Yellow));
        out.push("\n", Style::plain());
        out
    }

    /// The atmosphere section of the detailed template.
    pub fn detailed_atmosphere(&self) -> (out: StyledText)
        ensures
            out@ == detailed_atmosphere_spans(self.weather@),
    {
        let weather = self.weather;
        let mut pressure = String::from_str("│\n│ Pressure: ");
        pressure.append(pad_right(format_pressure(weather.main.pressure).as_str(), 53).as_str());
        pressure.append("│\n│ Wind Speed: ");
        let speed = join(format_speed_hundredths(weather.wind.speed).as_str(), " m/s");
        let gust = match weather.wind.gust {
            Some(g) => {
                let value = join(format_speed_hundredths(g).as_str(), " m/s");
                let mut line = String::from_str("│ Wind Gust: ");
                line.append(pad_right(value.as_str(), 52).as_str());
                line.append("│\n");
                line
            },
            None => String::new(),
        };
        let mut between = String::from_str("│\n");
        between.append(gust.as_str());
        between.append("│ Cloudiness: ");
        let mut visibility = String::from_str("│\n│ Visibility: ");
        visibility.append(pad_right(format_visibility(weather.visibility).as_str(), 51).as_str());
        visibility.append("│\n");

        let mut out = StyledText::new();
        out.push("\n", Style::plain());
        out.push(ATMOSPHERE_TOP, Style::tinted(Color::Cyan));
        out.push("\n│ Humidity: ", Style::plain());
        out.push(
            pad_right(format_humidity(weather.main.humidity).as_str(), 53).as_str(),
            Style::bold_tinted(Color::Blue),
        );
        out.push(pressure.as_str(), Style::plain());
        out.push(pad_right(speed.as_str(), 51).as_str(), Style::bold());
        out.push("│\n│ Wind Direction: ", Style::plain());
        out.push(
            pad_right(format_wind_direction(weather.wind.deg).as_str(), 46).as_str(),
            Style::bold(),
        );
        out.push(between.as_str(), Style::plain());
        out.push(
            pad_right(format_cloudiness(weather.clouds.all).as_str(), 50).as_str(),
            Style::bold(),
        );
        out.push(visibility.as_str(), Style::plain());
        out.push(SECTION_BOTTOM, Style::tinted(Color::Cyan));
        out.push("\n", Style::plain());
        out
    }

    /// The sun and moon section of the detailed template.
    pub fn detailed_sun(&self) -> (out: StyledText)
        ensures
            out@ == detailed_sun_spans(self.weather@),
    {
        let weather = self.weather;
        let mut moon = String::from_str("│\n│ Moon Phase: ");
        moon.append(pad_right(format_moon_phase(None).as_str(), 52).as_str());
        moon.append("│\n");
        let mut out = StyledText::new();
        out.push("\n", Style::plain());
        out.push(SUN_TOP, Style::tinted(Color::BrightYellow));
        out.push("\n│ Sunrise: ", Style::plain());
        out.push(
            pad_right(format_sun_time(weather.sys.sunrise, weather.timezone).as_str(), 54).as_str(),
            Style::bold(),
        );
        out.push("│\n│ Sunset: ", Style::plain());
        out.push(
            pad_right(format_sun_time(weather.sys.sunset, weather.timezone).as_str(), 55).as_str(),
            Style::bold(),
        );
        out.push(moon.as_str(), Style::plain());
        out.push(SECTION_BOTTOM, Style::tinted(Color::BrightYellow));
        out.push("\n", Style::plain());
        out
    }

    /// The footer box of the detailed template.
    pub fn detailed_footer(&self, updated: &str) -> (out: StyledText)
        ensures
            out@ == detailed_footer_spans(updated@),
    {
        let mut gap = repeat(" ", 9);
        gap.append("║\n║ ");
        let mut powered = String::from_str(" Powered by OpenWeatherMap API");
        powered.append(repeat(" ", 21).as_str());
        powered.append("║\n");
        let mut out = StyledText::new();
        out.push("\n", Style::plain());
        out.push(DOUBLE_TOP, Style::tinted(Color::BrightCyan));
        out.push("\n║ ", Style::plain());
        out.push("🔄", Style::dimmed());
        out.push(" Last updated: ", Style::plain());
        out.push(join(updated, " UTC").as_str(), Style::dimmed());
        out.push(gap.as_str(), Style::plain());
        out.push("⚡", Style::dimmed());
        out.push(powered.as_str(), Style::plain());
        out.push(DOUBLE_BOTTOM, Style::tinted(Color::BrightCyan));
        out.push("\n\n", Style::plain());
        out
    }

    /// The heading of the default template.
    pub fn display_header(&self) -> (out: StyledText)
        ensures
            out@ == header_spans(),
    {
        let rule = repeat("=", 80);
        let mut out = StyledText::new();
        out.push("\n", Style::plain());
        out.push(rule.as_str(), Style::tinted(Color::Cyan));
        out.push("\n", Style::plain());
        out.push("🌤️  RUST WEATHER CLI", Style::bold_tinted(Color::Cyan));
        out.push("\n", Style::plain());
        out.push(rule.as_str(), Style::tinted(Color::Cyan));
        out.push("\n\n", Style::plain());
        out
    }

    /// The location section of the default template.
    pub fn display_location(&self) -> (out: StyledText)
        ensures
            out@ == location_spans(self.weather@),
    {
        let weather = self.weather;
        let mut out = StyledText::new();
        out.push("📍 LOCATION", Style::bold());
        out.push("\n", Style::plain());
        out.push(repeat("─", 40).as_str(), Style::dimmed());
        out.push("\n  ", Style::plain());
        out.push("🏙️", Style::bold());
        out.push(" ", Style::plain());
        out.push(format_location(weather).as_str(), Style::bold_tinted(Color::Green));
        out.push("\n  ", Style::plain());
        out.push("🗺️", Style::bold());
        out.push_joined(
            " Coordinates: ",
            format_coordinates(&weather.coord).as_str(),
            "\n  ",
            Style::plain(),
        );
        out.push("🕐", Style::bold());
        out.push_joined(
            " Timezone: ",
            format_utc_offset(weather.timezone).as_str(),
            "\n\n",
            Style::plain(),
        );
        out
    }

    /// The current-weather section of the default template.
    pub fn display_current_weather(&self, shouted: &str) -> (out: StyledText)
        requires
            self.weather@.weather.len() > 0,
        ensures
            out@ == current_weather_spans(self.weather@, self.unit, shouted@),
    {
        let weather = self.weather;
        let condition = &weather.weather[0];
        assert(condition@ == weather@.weather[0]);
        let symbol = symbol_for_icon(condition.icon.as_str());
        let celsius = to_celsius(weather.main.temp);
        let band = color_of_band(band_of(celsius));
        let cells = gauge_cells(celsius, GAUGE_WIDTH);

        let mut out = StyledText::new();
        out.push("🌡️  CURRENT WEATHER", Style::bold());
        out.push("\n", Style::plain());
        out.push(repeat("─", 40).as_str(), Style::dimmed());
        out.push("\n  ", Style::plain());
        out.push(symbol, Style::bold());
        out.push(" ", Style::plain());
        out.push(shouted, Style::bold());
        out.push_joined(" ", symbol, "\n  ", Style::plain());
        out.push("🌡️", Style::bold());
        out.push(" Temperature: ", Style::plain());
        out.push(weather.format_temperature(&self.unit).as_str(), Style::bold_tinted(band));
        out.push("\n  ", Style::plain());
        out.push("🤚", Style::bold());
        out.push_joined(
            " Feels like: ",
            weather.format_feels_like(&self.unit).as_str(),
            "\n  ",
            Style::plain(),
        );
        out.push("💭", Style::bold());
        out.push(" ", Style::plain());
        out.append(get_temperature_feeling(celsius));

        let mut tail = StyledText::new();
        tail.push("\n  ", Style::plain());
        tail.push("📊", Style::bold());
        tail.push_joined(
            " Daily range: ",
            format_daily_range(&weather.main).as_str(),
            "\n  ",
            Style::plain(),
        );
        tail.push("📈", Style::bold());
        tail.push(" [", Style::plain());
        tail.push(repeat("█", cells.0 as usize).as_str(), Style::tinted(band));
        tail.push(repeat("░", cells.1 as usize).as_str(), Style::dimmed());
        tail.push("]\n\n", Style::plain());
        out.append(tail);
        out
    }

    /// The detail grid of the default template.
    pub fn display_details(&self) -> (out: StyledText)
        ensures
            out@ == details_spans(self.weather@),
    {
        let weather = self.weather;
        let mut wind = String::from_str(" Wind: ");
        wind.append(format_speed_tenths(weather.wind.speed).as_str());
        wind.append(" m/s ");
        wind.append(format_wind_direction(weather.wind.deg).as_str());

        let mut out = StyledText::new();
        out.push("📊 DETAILED INFORMATION", Style::bold());
        out.push("\n", Style::plain());
        out.push(repeat("─", 40).as_str(), Style::dimmed());
        out.push("\n", Style::plain());
        out.append(
            detail_row(
                "💧",
                join(" Humidity: ", format_humidity(weather.main.humidity).as_str()).as_str(),
                "👁️",
                join(" Visibility: ", format_visibility(weather.visibility).as_str()).as_str(),
            ),
        );
        out.append(
            detail_row(
                "🎈",
                join(" Pressure: ", format_pressure(weather.main.pressure).as_str()).as_str(),
                "🌅",
                join(
                    " Sunrise: ",
                    format_sun_time(weather.sys.sunrise, weather.timezone).as_str(),
                ).as_str(),
            ),
        );
        out.append(
            detail_row(
                "💨",
                wind.as_str(),
                "🌇",
                join(
                    " Sunset: ",
                    format_sun_time(weather.sys.sunset, weather.timezone).as_str(),
                ).as_str(),
            ),
        );
        out.append(
            detail_row(
                "☁️",
                join(" Clouds: ", format_cloudiness(weather.clouds.all).as_str()).as_str(),
                "🌙",
                join(" Moon: ", format_moon_phase(None).as_str()).as_str(),
            ),
        );
        let mut tail = StyledText::new();
        tail.push("\n", Style::plain());
        out.append(tail);
        out
    }

    /// The footer of the default template.
    pub fn display_footer(&self, updated: &str) -> (out: StyledText)
        ensures
            out@ == footer_spans(updated@),
    {
        let rule = repeat("=", 80);
        let mut out = StyledText::new();
        out.push(rule.as_str(), Style::tinted(Color::Cyan));
        out.push("\n", Style::plain());
        out.push("🔄", Style::dimmed());
        out.push(" Last updated: ", Style::plain());
        out.push(join(updated, " UTC").as_str(), Style::dimmed());
        out.push("\n", Style::plain());
        out.push("⚡", Style::dimmed());
        out.push(" Powered by OpenWeatherMap API\n", Style::plain());
        out.push(rule.as_str(), Style::tinted(Color::Cyan));
        out.push("\n\n", Style::plain());
        out
    }
}

/// The message of a failed request, with two hints below it.
pub fn display_error(error: &str) -> (out: StyledText)
    ensures
        out@ == error_spans(error@),
{
    let rule = repeat("─", 60);
    let mut out = StyledText::new();
    out.push("\n", Style::plain());
    out.push("❌ ERROR:", Style::bold_tinted(Color::Red));
    out.push_joined(" ", error, "\n", Style::plain());
    out.push(rule.as_str(), Style::tinted(Color::Red));
    out.push("\n", Style::plain());
    out.push("💡", Style::tinted(Color::Yellow));
    out.push(" Check your internet connection and API key\n", Style::plain());
    out.push("🔍", Style::tinted(Color::Yellow));
    out.push(" Make sure the city name is correct\n", Style::plain());
    out.push(rule.as_str(), Style::tinted(Color::Red));
    out.push("\n", Style::plain());
    out
}

/// The help text.
pub fn display_help() -> (out: StyledText)
    ensures
        out@ == help_spans(),
{
    let rule = repeat("═", 60);
    let mut out = StyledText::new();
    out.push("\n", Style::plain());
    out.push("ℹ️  WEATHER CLI HELP", Style::bold_tinted(Color::Cyan));
    out.push("\n", Style::plain());
    out.push(rule.as_str(), Style::tinted(Color::Cyan));
    out.push("\n\n", Style::plain());
    out.push("📝 USAGE:", Style::bold());
    out.push("\n  weather <city> [options]\n  weather --help\n\n", Style::plain());
    out.push("📍 EXAMPLES:", Style::bold());
    out.push(
        "\n  weather Nairobi\n  weather \"New York\" --unit fahrenheit\n  weather London --unit celsius\n  weather Tokyo -u k\n\n",
        Style::plain(),
    );
    out.push("⚙️  OPTIONS:", Style::bold());
    out.push(
        "\n  -u, --unit <UNIT>    Temperature unit (celsius, fahrenheit, kelvin)\n  -h, --help           Show this help message\n  -v, --version        Show version information\n\n",
        Style::plain(),
    );
    out.push("🌡️  TEMPERATURE UNITS:", Style::bold());
    out.push(
        "\n  celsius (c)     - Degrees Celsius (°C)\n  fahrenheit (f)  - Degrees Fahrenheit (°F)\n  kelvin (k)      - Kelvin (K)\n\n",
        Style::plain(),
    );
    out.push("🔧 CONFIGURATION:", Style::bold());
    out.push("\n  export WEATHER_API_KEY=\"your_api_key_here\"\n\n", Style::plain());
    out.push("🔗 LINKS:", Style::bold());
    out.push(
        "\n  GitHub: https://github.com/yourusername/weather-cli\n  OpenWeatherMap: https://openweathermap.org/api\n\n",
        Style::plain(),
    );
    out.push(rule.as_str(), Style::tinted(Color::Cyan));
    out.push("\n", Style::plain());
    out
}

/// The two lines that name the program and its version.
pub fn display_version(version: &str) -> (out: StyledText)
    ensures
        out@ == version_spans(version@),
{
    let mut out = StyledText::new();
    out.push_joined("🌤️  Weather CLI v", version, "\n🦀 Built with Rust\n", Style::plain());
    out
}

/// The notice that something is in progress.
pub fn display_loading(message: &str) -> (out: StyledText)
    ensures
        out@ == loading_spans(message@),
{
    let mut out = StyledText::new();
    out.push("⏳", Style::tinted(Color::Yellow));
    out.push_joined(" ", message, "...", Style::plain());
    out
}

/// Rendering is a function of the record, the unit, the template, the
/// description in upper case and the time of rendering: two results for the
/// same of these are both the same error, or hold the same spans and so the
/// same characters.
pub proof fn lemma_render_is_deterministic(
    w: WeatherView,
    unit: TemperatureUnit,
    template: DisplayTemplate,
    shouted: Seq<char>,
    updated: Seq<char>,
    first: Result<StyledText, RenderError>,
    second: Result<StyledText, RenderError>,
)
    requires
        rendered(w, unit, template, shouted, updated, first),
        rendered(w, unit, template, shouted, updated, second),
    ensures
        first is Ok <==> second is Ok,
        first is Ok ==> first->Ok_0@ == second->Ok_0@ && flattened(first->Ok_0@)
            == flattened(second->Ok_0@),
        first is Err ==> second is Err && first->Err_0 == second->Err_0,
{
}

/// The time of rendering shows in the footer alone: everything before the
/// footer is the same whenever the record is rendered, and the compact and
/// the minimal template, which have no footer, do not depend on it at all.
pub proof fn lemma_only_footer_shows_time(
    w: WeatherView,
    unit: TemperatureUnit,
    shouted: Seq<char>,
    earlier: Seq<char>,
    later: Seq<char>,
)
    ensures
        template_spans(w, unit, DisplayTemplate::Compact, shouted, earlier) == template_spans(
            w,
            unit,
            DisplayTemplate::Compact,
            shouted,
            later,
        ),
        template_spans(w, unit, DisplayTemplate::Minimal, shouted, earlier) == template_spans(
            w,
            unit,
            DisplayTemplate::Minimal,
            shouted,
            later,
        ),
        exists|body: Seq<SpanView>|
            template_spans(w, unit, DisplayTemplate::Default, shouted, earlier) == body
                + footer_spans(earlier) && template_spans(
                w,
                unit,
                DisplayTemplate::Default,
                shouted,
                later,
            ) == body + footer_spans(later),
        exists|body: Seq<SpanView>|
            template_spans(w, unit, DisplayTemplate::Detailed, shouted, earlier) == body
                + detailed_footer_spans(earlier) && template_spans(
                w,
                unit,
                DisplayTemplate::Detailed,
                shouted,
                later,
            ) == body + detailed_footer_spans(later),
{
    let body = header_spans() + location_spans(w) + current_weather_spans(w, unit, shouted)
        + details_spans(w);
    assert(template_spans(w, unit, DisplayTemplate::Default, shouted, earlier) == body
        + footer_spans(earlier) && template_spans(
        w,
        unit,
        DisplayTemplate::Default,
        shouted,
        later,
    ) == body + footer_spans(later));
    let detailed = detailed_title_spans() + detailed_location_spans(w)
        + detailed_conditions_spans(w, unit, shouted) + detailed_atmosphere_spans(w)
        + detailed_sun_spans(w);
    assert(template_spans(w, unit, DisplayTemplate::Detailed, shouted, earlier) == detailed
        + detailed_footer_spans(earlier) && template_spans(
        w,
        unit,
        DisplayTemplate::Detailed,
        shouted,
        later,
    ) == detailed + detailed_footer_spans(later));
}

/// The text of the minimal template is one line that holds, in this order,
/// the symbol, the description, the temperature, the name of the place and
/// how the temperature feels.
pub proof fn lemma_minimal_text(w: WeatherView, unit: TemperatureUnit)
    ensures
        flattened(minimal_spans(w, unit)) == minimal_line(w, unit),
{
    let symbol = weather_symbol(w.weather[0].icon);
    let bucket = feeling_bucket(celsius_of(w.main.temp as int));
    let none = Seq::<SpanView>::empty();
    let a0 = span("\n"@ + symbol + " "@ + w.weather[0].description + " "@, plain());
    let a1 = span(display_temperature(w.main.temp as int, unit), bold());
    let a2 = span(" in "@, plain());
    let a3 = span(w.name, bold_tinted(Color::Cyan));
    let a4 = span(" | "@, plain());
    let f0 = span(feeling_glyph(bucket), tinted(feeling_color(bucket)));
    let f1 = span(" "@ + feeling_label(bucket), plain());
    let t0 = span("\n\n"@, plain());
    let head = none.push(a0).push(a1).push(a2).push(a3).push(a4);
    let feeling = none.push(f0).push(f1);
    let tail = none.push(t0);
    lemma_flattened_push(none, a0);
    lemma_flattened_push(none.push(a0), a1);
    lemma_flattened_push(none.push(a0).push(a1), a2);
    lemma_flattened_push(none.push(a0).push(a1).push(a2), a3);
    lemma_flattened_push(none.push(a0).push(a1).push(a2).push(a3), a4);
    lemma_flattened_push(none, f0);
    lemma_flattened_push(none.push(f0), f1);
    lemma_flattened_push(none, t0);
    lemma_flattened_concat(head, feeling);
    lemma_flattened_concat(head + feeling, tail);
    assert(minimal_spans(w, unit) == head + feeling + tail);
    assert(flattened(head + feeling + tail) =~= minimal_line(w, unit));
}

/// The two spans of the temperature gauge: the filled cells in the colour of
/// the temperature band, then the empty cells dimmed.
pub open spec fn gauge_spans(w: WeatherView) -> Seq<SpanView> {
    let celsius = celsius_of(w.main.temp as int);
    seq![
        span(
            repeated("█"@, gauge_filled(celsius, 20) as nat),
            tinted(band_color(temperature_band(celsius))),
        ),
        span(repeated("░"@, (20 - gauge_filled(celsius, 20)) as nat), dimmed()),
    ]
}

/// The current-weather section of the default template and the conditions
/// section of the detailed template show the same temperature gauge.
pub proof fn lemma_sections_hold_the_gauge(
    w: WeatherView,
    unit: TemperatureUnit,
    shouted: Seq<char>,
)
    ensures
        current_weather_spans(w, unit, shouted).len() == 26,
        current_weather_spans(w, unit, shouted).subrange(23, 25) == gauge_spans(w),
        detailed_conditions_spans(w, unit, shouted).len() == 15,
        detailed_conditions_spans(w, unit, shouted).subrange(10, 12) == gauge_spans(w),
{
    let tail = current_tail_spans(w);
    let current = current_weather_spans(w, unit, shouted);
    assert(current_head_spans(w, unit, shouted).len() == 16);
    assert(feeling_spans(celsius_of(w.main.temp as int)).len() == 2);
    assert(tail.len() == 8);
    assert(current[23] == tail[5]);
    assert(current[24] == tail[6]);
    assert(current.subrange(23, 25) =~= gauge_spans(w));
    assert(detailed_conditions_spans(w, unit, shouted).subrange(10, 12) =~= gauge_spans(w));
}

/// The detailed template shows the temperature gauge of the default
/// template: the two spans of the gauge stand in both.
pub proof fn lemma_detailed_holds_the_gauge(
    w: WeatherView,
    unit: TemperatureUnit,
    shouted: Seq<char>,
    updated: Seq<char>,
)
    ensures
        default_spans(w, unit, shouted, updated).subrange(42, 44) == gauge_spans(w),
        detailed_spans(w, unit, shouted, updated).subrange(26, 28) == gauge_spans(w),
{
    lemma_sections_hold_the_gauge(w, unit, shouted);
    lemma_lengths_before_the_gauge(w);
    lemma_part_stays(
        header_spans(),
        location_spans(w),
        current_weather_spans(w, unit, shouted),
        details_spans(w),
        footer_spans(updated),
        Seq::empty(),
        23,
        25,
    );
    lemma_part_stays(
        detailed_title_spans(),
        detailed_location_spans(w),
        detailed_conditions_spans(w, unit, shouted),
        detailed_atmosphere_spans(w),
        detailed_sun_spans(w),
        detailed_footer_spans(updated),
        10,
        12,
    );
}

/// The number of spans before the section that holds the gauge, in the
/// default and in the detailed template.
pub proof fn lemma_lengths_before_the_gauge(w: WeatherView)
    ensures
        header_spans().len() == 7,
        location_spans(w).len() == 12,
        detailed_title_spans().len() == 7,
        detailed_location_spans(w).len() == 9,
{
}

/// A part of the third of up to six sections stands in the whole text, moved
/// by the length of the two sections before it.
pub proof fn lemma_part_stays(
    first: Seq<SpanView>,
    second: Seq<SpanView>,
    section: Seq<SpanView>,
    fourth: Seq<SpanView>,
    fifth: Seq<SpanView>,
    sixth: Seq<SpanView>,
    from: int,
    to: int,
)
    requires
        0 <= from <= to <= section.len(),
    ensures
        (first + second + section + fourth + fifth).subrange(
            first.len() + second.len() + from,
            first.len() + second.len() + to,
        ) == section.subrange(from, to),
        (first + second + section + fourth + fifth + sixth).subrange(
            first.len() + second.len() + from,
            first.len() + second.len() + to,
        ) == section.subrange(from, to),
{
    assert((first + second + section + fourth + fifth).subrange(
        first.len() + second.len() + from,
        first.len() + second.len() + to,
    ) =~= section.subrange(from, to));
    assert((first + second + section + fourth + fifth + sixth).subrange(
        first.len() + second.len() + from,
        first.len() + second.len() + to,
    ) =~= section.subrange(from, to));
}

} // verus!
