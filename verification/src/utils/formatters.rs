//! Display values derived from the raw fields of a weather record. Each is a
//! total function of its arguments.

use crate::models::weather::{
    celsius_tenths, symbol_for_icon, temperature_band, to_celsius, weather_symbol, Coordinates,
    MainData, WeatherResponse, WeatherView,
};
use crate::style::{plain, span, tinted, Color, SpanView, Style, StyledText};
use crate::text::{
    append_zero_padded, decimal, digits, fixed, fixed_text, join, repeat, repeated,
    round_half_away, round_to_nearest, truncated_quotient, truncating_div, zero_padded,
};
use vstd::prelude::*;
use vstd::string::*;

verus! {

/// The last second that [`format_timestamp`] can format: 23:59:59 on the
/// last day of the year 262142.
pub const MAX_TIMESTAMP: u64 = 8_210_266_876_799;

/// The number of cells of the temperature gauge on a terminal.
pub const GAUGE_WIDTH: u32 = 20;

/// The date and time of day in UTC at `seconds` after the Unix epoch,
/// written as year, month, day, hour, minute and second in the pattern
/// `%Y-%m-%d %H:%M:%S`, as the `chrono` crate writes it.
pub uninterp spec fn utc_timestamp_text(seconds: int) -> Seq<char>;

/// The second of the local day at `timestamp` seconds after the Unix epoch,
/// where local time is `offset` seconds ahead of UTC.
pub open spec fn local_second_of_day(timestamp: int, offset: int) -> int {
    (timestamp + offset) % 86_400
}

/// A second of the day on a 24-hour clock, as `HH:MM`.
pub open spec fn clock_text(second_of_day: int) -> Seq<char> {
    zero_padded((second_of_day / 3600) as nat, 2) + ":"@ + zero_padded(
        ((second_of_day / 60) % 60) as nat,
        2,
    )
}

/// The local time of day at `timestamp`, as `HH:MM`.
pub open spec fn sun_time(timestamp: int, offset: int) -> Seq<char> {
    clock_text(local_second_of_day(timestamp, offset))
}

/// The compass sector of a wind direction: sixteen sectors of 22.5 degrees,
/// each centred on its compass point, numbered clockwise from north.
/// `floor((degrees + 11.25) / 22.5) mod 16`, with the degrees taken modulo
/// 360 first.
pub open spec fn wind_sector(degrees: int) -> int {
    ((4 * (degrees % 360) + 45) / 90) % 16
}

/// The name of a compass sector.
pub open spec fn compass_point(sector: int) -> Seq<char> {
    if sector == 0 {
        "N"@
    } else if sector == 1 {
        "NNE"@
    } else if sector == 2 {
        "NE"@
    } else if sector == 3 {
        "ENE"@
    } else if sector == 4 {
        "E"@
    } else if sector == 5 {
        "ESE"@
    } else if sector == 6 {
        "SE"@
    } else if sector == 7 {
        "SSE"@
    } else if sector == 8 {
        "S"@
    } else if sector == 9 {
        "SSW"@
    } else if sector == 10 {
        "SW"@
    } else if sector == 11 {
        "WSW"@
    } else if sector == 12 {
        "W"@
    } else if sector == 13 {
        "WNW"@
    } else if sector == 14 {
        "NW"@
    } else {
        "NNW"@
    }
}

/// The words for a cloud cover in percent.
pub open spec fn cloudiness_text(cloudiness: int) -> Seq<char> {
    if cloudiness == 0 {
        "Clear sky"@
    } else if 1 <= cloudiness <= 25 {
        "Mostly clear"@
    } else if 26 <= cloudiness <= 50 {
        "Partly cloudy"@
    } else if 51 <= cloudiness <= 75 {
        "Mostly cloudy"@
    } else if 76 <= cloudiness <= 100 {
        "Overcast"@
    } else {
        "Unknown"@
    }
}

/// A visibility in metres: from 1000 m on in kilometres to one decimal
/// place, below that in whole metres, `N/A` where none is given.
pub open spec fn visibility_text(visibility: Option<u32>) -> Seq<char> {
    match visibility {
        Some(v) => if v >= 1000 {
            fixed(round_half_away(v as int, 100), 1) + " km"@
        } else {
            digits(v as nat) + " m"@
        },
        None => "N/A"@,
    }
}

/// A pressure in hectopascal.
pub open spec fn pressure_text(pressure: u32) -> Seq<char> {
    digits(pressure as nat) + " hPa"@
}

/// A humidity in percent.
pub open spec fn humidity_text(humidity: u32) -> Seq<char> {
    digits(humidity as nat) + "%"@
}

/// How a temperature in thousandths of a degree Celsius feels: 0 below
/// -10 °C, then one bucket for every ten degrees, 6 from 40 °C on. A
/// temperature on a threshold belongs to the bucket above it.
pub open spec fn feeling_bucket(celsius: int) -> int {
    if celsius < -10_000 {
        0
    } else if celsius < 0 {
        1
    } else if celsius < 10_000 {
        2
    } else if celsius < 20_000 {
        3
    } else if celsius < 30_000 {
        4
    } else if celsius < 40_000 {
        5
    } else {
        6
    }
}

/// The word for a feeling bucket.
pub open spec fn feeling_label(bucket: int) -> Seq<char> {
    if bucket == 0 {
        "Freezing"@
    } else if bucket == 1 {
        "Very Cold"@
    } else if bucket == 2 {
        "Cold"@
    } else if bucket == 3 {
        "Cool"@
    } else if bucket == 4 {
        "Warm"@
    } else if bucket == 5 {
        "Hot"@
    } else {
        "Extremely Hot"@
    }
}

/// The glyph for a feeling bucket.
pub open spec fn feeling_glyph(bucket: int) -> Seq<char> {
    if bucket == 0 {
        "🥶"@
    } else if bucket == 1 {
        "🧊"@
    } else if bucket == 2 {
        "🌬️"@
    } else if bucket == 3 {
        "😎"@
    } else if bucket == 4 {
        "🌤️"@
    } else if bucket == 5 {
        "🔥"@
    } else {
        "🥵"@
    }
}

/// The terminal colour of the glyph of a feeling bucket.
pub open spec fn feeling_color(bucket: int) -> Color {
    if bucket == 0 {
        Color::Red
    } else if bucket == 1 {
        Color::BrightBlue
    } else if bucket == 2 {
        Color::Blue
    } else if bucket == 3 {
        Color::Green
    } else if bucket == 4 {
        Color::Yellow
    } else if bucket == 5 {
        Color::BrightYellow
    } else {
        Color::Red
    }
}

/// How a temperature feels, as styled text: the glyph in its colour, a space
/// and the word.
pub open spec fn feeling_spans(celsius: int) -> Seq<SpanView> {
    let bucket = feeling_bucket(celsius);
    seq![
        span(feeling_glyph(bucket), tinted(feeling_color(bucket))),
        span(" "@ + feeling_label(bucket), plain()),
    ]
}

/// The glyph that stands for the moon phase. A record carries no moon phase,
/// so it is the same for every argument.
pub open spec fn moon_phase_text(phase: Option<u32>) -> Seq<char> {
    "🌓"@
}

/// The filled cells of a temperature gauge of `width` cells: the
/// temperature, in thousandths of a degree Celsius, is clamped to -20 °C to
/// 40 °C and the part of that range below it is scaled to the width, a
/// fraction of a cell being dropped.
pub open spec fn gauge_filled(celsius: int, width: int) -> int {
    let clamped = if celsius < -20_000 {
        -20_000
    } else if celsius > 40_000 {
        40_000
    } else {
        celsius
    };
    ((clamped + 20_000) * width) / 60_000
}

/// The smaller of `value` and `max`.
pub open spec fn capped(value: int, max: int) -> int {
    if value < max {
        value
    } else {
        max
    }
}

/// The filled cells of a progress bar of `width` cells for `value` out of
/// `max`: the ratio, at most one, scaled to the width and rounded half away
/// from zero. With `max` zero the ratio counts as one for a positive value
/// and is not a number for zero, which fills no cell.
pub open spec fn bar_filled(value: int, max: int, width: int) -> int {
    if max == 0 {
        if value == 0 {
            0
        } else {
            width
        }
    } else {
        round_half_away(width * capped(value, max), max)
    }
}

/// The percentage that a progress bar shows behind its cells.
pub open spec fn bar_percent(value: int, max: int) -> Seq<char> {
    if max == 0 {
        if value == 0 {
            "NaN"@
        } else {
            "100"@
        }
    } else {
        digits(round_half_away(100 * capped(value, max), max) as nat)
    }
}

/// A progress bar as styled text: the filled cells in bright blue, the
/// empty ones dimmed, in brackets, followed by the percentage.
pub open spec fn progress_bar_spans(value: int, max: int, width: int) -> Seq<SpanView> {
    let filled = bar_filled(value, max, width);
    seq![
        span("["@, plain()),
        span(repeated("█"@, filled as nat), tinted(Color::BrightBlue)),
        span(repeated("░"@, (width - filled) as nat), crate::style::dimmed()),
        span("] "@ + bar_percent(value, max) + "%"@, plain()),
    ]
}

/// The place of a record: its name, and its country code behind a comma
/// where it has one.
pub open spec fn location_text(weather: WeatherView) -> Seq<char> {
    if weather.sys.country.len() > 0 {
        weather.name + ", "@ + weather.sys.country
    } else {
        weather.name
    }
}

/// An offset from UTC in seconds as whole hours, a fraction of an hour being
/// dropped: `UTC+<h>`, or `UTC-<h>` for an offset of an hour or more behind.
pub open spec fn utc_offset_text(timezone: int) -> Seq<char> {
    let hours = truncated_quotient(timezone, 3600);
    if hours >= 0 {
        "UTC+"@ + fixed(hours, 0)
    } else {
        "UTC"@ + fixed(hours, 0)
    }
}

/// Coordinates in degrees to three decimal places.
pub open spec fn coordinates_text(coord: Coordinates) -> Seq<char> {
    fixed(coord.lat as int, 3) + "°N, "@ + fixed(coord.lon as int, 3) + "°E"@
}

/// The lowest and the highest temperature, in degrees Celsius to one decimal
/// place whatever unit the rest is shown in.
pub open spec fn daily_range_text(main: MainData) -> Seq<char> {
    fixed(celsius_tenths(main.temp_min as int), 1) + "°C - "@ + fixed(
        celsius_tenths(main.temp_max as int),
        1,
    ) + "°C"@
}

/// A speed in millimetres per second as metres per second to one decimal
/// place.
pub open spec fn speed_tenths_text(speed: int) -> Seq<char> {
    fixed(round_half_away(speed, 100), 1)
}

/// A speed in millimetres per second as metres per second to two decimal
/// places.
pub open spec fn speed_hundredths_text(speed: int) -> Seq<char> {
    fixed(round_half_away(speed, 10), 2)
}

/// `TimeZone::timestamp_opt` on `Utc`, then `DateTime::format` with the
/// pattern `%Y-%m-%d %H:%M:%S`, of the `chrono` crate. The text depends on
/// the number of seconds alone. `chrono` has no date for a number of seconds
/// past the end of the year 262142, which `requires` leaves out.
#[verifier::external_body]
fn utc_text(seconds: i64) -> (out: String)
    requires
        0 <= seconds <= MAX_TIMESTAMP,
    ensures
        out@ == utc_timestamp_text(seconds as int),
{
    chrono::TimeZone::timestamp_opt(&chrono::Utc, seconds, 0)
        .unwrap()
        .format("%Y-%m-%d %H:%M:%S")
        .to_string()
}

/// The date and time of day in UTC at `timestamp`, as
/// `YYYY-MM-DD HH:MM:SS`.
pub fn format_timestamp(timestamp: u64) -> (out: String)
    requires
        timestamp <= MAX_TIMESTAMP,
    ensures
        out@ == utc_timestamp_text(timestamp as int),
{
    utc_text(timestamp as i64)
}

/// The date and time of day in UTC at `timestamp`, or nothing for a
/// timestamp past [`MAX_TIMESTAMP`].
pub fn checked_format_timestamp(timestamp: u64) -> (out: Option<String>)
    ensures
        out is Some <==> timestamp <= MAX_TIMESTAMP,
        out matches Some(text) ==> text@ == utc_timestamp_text(timestamp as int),
{
    if timestamp <= MAX_TIMESTAMP {
        Some(format_timestamp(timestamp))
    } else {
        None
    }
}

fn two_digits(n: u64) -> (out: String)
    ensures
        out@ == zero_padded(n as nat, 2),
{
    let mut out = String::new();
    append_zero_padded(&mut out, n, 2);
    assert(Seq::<char>::empty() + zero_padded(n as nat, 2) =~= zero_padded(n as nat, 2));
    out
}

/// The second of the local day at `timestamp`, where local time is
/// `timezone` seconds ahead of UTC.
pub fn second_of_local_day(timestamp: u64, timezone: i32) -> (second: u64)
    ensures
        second == local_second_of_day(timestamp as int, timezone as int),
        second < 86_400,
{
    let day: u64 = 86_400;
    let base: u64 = timestamp % day;
    let shift: u64 = if timezone >= 0 {
        (timezone as u64) % day
    } else {
        let behind: u64 = (-(timezone as i64)) as u64;
        let back: u64 = behind % day;
        proof {
            let q = behind as int / 86_400;
            assert(behind as int == 86_400 * q + back);
            if back == 0 {
                vstd::arithmetic::div_mod::lemma_fundamental_div_mod_converse(
                    timezone as int,
                    86_400,
                    -q,
                    0,
                );
            } else {
                vstd::arithmetic::div_mod::lemma_fundamental_div_mod_converse(
                    timezone as int,
                    86_400,
                    -q - 1,
                    86_400 - back,
                );
            }
        }
        if back == 0 {
            0
        } else {
            day - back
        }
    };
    assert(shift as int == (timezone as int) % 86_400);
    proof {
        vstd::arithmetic::div_mod::lemma_add_mod_noop(timestamp as int, timezone as int, 86_400);
    }
    (base + shift) % day
}

/// The local time of day at `timestamp` seconds after the Unix epoch, on a
/// 24-hour clock as `HH:MM`, where local time is `timezone` seconds ahead of
/// UTC (behind it where `timezone` is negative).
pub fn format_sun_time(timestamp: u64, timezone: i32) -> (out: String)
    ensures
        out@ == sun_time(timestamp as int, timezone as int),
{
    let second: u64 = second_of_local_day(timestamp, timezone);
    let mut out = two_digits(second / 3600);
    out.append(":");
    out.append(two_digits((second / 60) % 60).as_str());
    out
}

/// The compass point that a wind direction in degrees lies nearest to.
pub fn format_wind_direction(degrees: u32) -> (out: String)
    ensures
        out@ == compass_point(wind_sector(degrees as int)),
{
    let sector: u32 = ((4 * (degrees % 360) + 45) / 90) % 16;
    let point = if sector == 0 {
        "N"
    } else if sector == 1 {
        "NNE"
    } else if sector == 2 {
        "NE"
    } else if sector == 3 {
        "ENE"
    } else if sector == 4 {
        "E"
    } else if sector == 5 {
        "ESE"
    } else if sector == 6 {
        "SE"
    } else if sector == 7 {
        "SSE"
    } else if sector == 8 {
        "S"
    } else if sector == 9 {
        "SSW"
    } else if sector == 10 {
        "SW"
    } else if sector == 11 {
        "WSW"
    } else if sector == 12 {
        "W"
    } else if sector == 13 {
        "WNW"
    } else if sector == 14 {
        "NW"
    } else {
        "NNW"
    };
    String::from_str(point)
}

/// A pressure in hectopascal, as `<n> hPa`.
pub fn format_pressure(pressure: u32) -> (out: String)
    ensures
        out@ == pressure_text(pressure),
{
    join(decimal(pressure as u64).as_str(), " hPa")
}

/// A humidity in percent, as `<n>%`.
pub fn format_humidity(humidity: u32) -> (out: String)
    ensures
        out@ == humidity_text(humidity),
{
    join(decimal(humidity as u64).as_str(), "%")
}

/// A visibility in metres: kilometres to one decimal place from 1000 m on,
/// whole metres below that, `N/A` where none is given.
pub fn format_visibility(visibility: Option<u32>) -> (out: String)
    ensures
        out@ == visibility_text(visibility),
{
    match visibility {
        Some(v) => {
            if v >= 1000 {
                let tenths = round_to_nearest(v as i64, 100);
                join(fixed_text(tenths, 1).as_str(), " km")
            } else {
                join(decimal(v as u64).as_str(), " m")
            }
        },
        None => String::from_str("N/A"),
    }
}

/// The words for a cloud cover in percent; `Unknown` above 100.
pub fn format_cloudiness(cloudiness: u32) -> (out: String)
    ensures
        out@ == cloudiness_text(cloudiness as int),
{
    let words = if cloudiness == 0 {
        "Clear sky"
    } else if cloudiness <= 25 {
        "Mostly clear"
    } else if cloudiness <= 50 {
        "Partly cloudy"
    } else if cloudiness <= 75 {
        "Mostly cloudy"
    } else if cloudiness <= 100 {
        "Overcast"
    } else {
        "Unknown"
    };
    String::from_str(words)
}

/// The symbol for a weather icon code; the rainbow for a code that is not
/// known.
pub fn get_weather_emoji(icon: &str) -> (symbol: &'static str)
    ensures
        symbol@ == weather_symbol(icon@),
{
    symbol_for_icon(icon)
}

/// The feeling bucket of a temperature in thousandths of a degree Celsius.
pub fn bucket_of(celsius: i64) -> (bucket: u8)
    ensures
        bucket == feeling_bucket(celsius as int),
{
    if celsius < -10_000 {
        0
    } else if celsius < 0 {
        1
    } else if celsius < 10_000 {
        2
    } else if celsius < 20_000 {
        3
    } else if celsius < 30_000 {
        4
    } else if celsius < 40_000 {
        5
    } else {
        6
    }
}

/// The glyph for a feeling bucket.
pub fn glyph_of_bucket(bucket: u8) -> (glyph: &'static str)
    ensures
        glyph@ == feeling_glyph(bucket as int),
{
    if bucket == 0 {
        "🥶"
    } else if bucket == 1 {
        "🧊"
    } else if bucket == 2 {
        "🌬️"
    } else if bucket == 3 {
        "😎"
    } else if bucket == 4 {
        "🌤️"
    } else if bucket == 5 {
        "🔥"
    } else {
        "🥵"
    }
}

/// The word for a feeling bucket.
pub fn label_of_bucket(bucket: u8) -> (label: &'static str)
    ensures
        label@ == feeling_label(bucket as int),
{
    if bucket == 0 {
        "Freezing"
    } else if bucket == 1 {
        "Very Cold"
    } else if bucket == 2 {
        "Cold"
    } else if bucket == 3 {
        "Cool"
    } else if bucket == 4 {
        "Warm"
    } else if bucket == 5 {
        "Hot"
    } else {
        "Extremely Hot"
    }
}

/// The terminal colour of the glyph of a feeling bucket.
pub fn color_of_bucket(bucket: u8) -> (color: Color)
    ensures
        color == feeling_color(bucket as int),
{
    if bucket == 0 {
        Color::Red
    } else if bucket == 1 {
        Color::BrightBlue
    } else if bucket == 2 {
        Color::Blue
    } else if bucket == 3 {
        Color::Green
    } else if bucket == 4 {
        Color::Yellow
    } else if bucket == 5 {
        Color::BrightYellow
    } else {
        Color::Red
    }
}

/// How a temperature in thousandths of a degree Celsius feels: a glyph in
/// its colour and a word.
pub fn get_temperature_feeling(temp_c: i64) -> (out: StyledText)
    ensures
        out@ == feeling_spans(temp_c as int),
{
    let bucket = bucket_of(temp_c);
    let mut out = StyledText::new();
    out.push(glyph_of_bucket(bucket), Style::tinted(color_of_bucket(bucket)));
    out.push(join(" ", label_of_bucket(bucket)).as_str(), Style::plain());
    out
}

/// The glyph that stands for the moon phase, whatever `phase` is.
pub fn format_moon_phase(phase: Option<u32>) -> (out: String)
    ensures
        out@ == moon_phase_text(phase),
{
    String::from_str("🌓")
}

/// The filled and the empty cells of a temperature gauge of `width` cells,
/// for a temperature in thousandths of a degree Celsius. The two counts
/// always add up to `width`.
pub fn gauge_cells(celsius: i64, width: u32) -> (cells: (u32, u32))
    ensures
        cells.0 == gauge_filled(celsius as int, width as int),
        cells.0 + cells.1 == width,
{
    let clamped: i64 = if celsius < -20_000 {
        -20_000
    } else if celsius > 40_000 {
        40_000
    } else {
        celsius
    };
    let above: u64 = (clamped + 20_000) as u64;
    let span_width: u64 = width as u64;
    assert(above * span_width <= 60_000 * span_width) by (nonlinear_arith)
        requires
            above <= 60_000,
    ;
    let filled: u64 = (above * span_width) / 60_000;
    ((filled as u32), ((span_width - filled) as u32))
}

/// A progress bar of `width` cells for `value` out of `max`, with the
/// percentage behind it.
pub fn create_progress_bar(value: u32, max: u32, width: usize) -> (out: StyledText)
    ensures
        out@ == progress_bar_spans(value as int, max as int, width as int),
{
    let filled: usize = if max == 0 {
        if value == 0 {
            0
        } else {
            width
        }
    } else {
        let part: u128 = if value < max {
            value as u128
        } else {
            max as u128
        };
        let cells: u128 = width as u128;
        let limit: u128 = max as u128;
        assert(cells * part <= 0x1_0000_0000_0000_0000 * 0x1_0000_0000) by (nonlinear_arith)
            requires
                cells <= 0x1_0000_0000_0000_0000,
                part <= 0x1_0000_0000,
        ;
        assert(cells * part <= cells * limit) by (nonlinear_arith)
            requires
                part <= limit,
        ;
        let whole: u128 = cells * part;
        let rounded: u128 = (2 * whole + limit) / (2 * limit);
        assert(rounded <= cells) by {
            assert(2 * whole + limit < (2 * limit) * (cells + 1)) by (nonlinear_arith)
                requires
                    whole <= cells * limit,
                    limit > 0,
            ;
            vstd::arithmetic::div_mod::lemma_multiply_divide_lt(
                (2 * whole + limit) as int,
                (2 * limit) as int,
                (cells + 1) as int,
            );
        }
        rounded as usize
    };
    let percent: String = if max == 0 {
        if value == 0 {
            String::from_str("NaN")
        } else {
            String::from_str("100")
        }
    } else {
        let part: u64 = if value < max {
            value as u64
        } else {
            max as u64
        };
        let rounded = round_to_nearest(100 * (part as i64), max as i64);
        assert(rounded >= 0) by {
            crate::text::lemma_round_half_away_is_nearest(100 * (part as int), max as int);
        }
        decimal(rounded as u64)
    };
    let mut tail = String::from_str("] ");
    tail.append(percent.as_str());
    tail.append("%");
    let mut out = StyledText::new();
    out.push("[", Style::plain());
    out.push(repeat("█", filled).as_str(), Style::tinted(Color::BrightBlue));
    out.push(repeat("░", width - filled).as_str(), Style::dimmed());
    out.push(tail.as_str(), Style::plain());
    out
}

/// The place of a record: its name, and its country code behind a comma
/// where it has one.
pub fn format_location(weather: &WeatherResponse) -> (out: String)
    ensures
        out@ == location_text(weather@),
{
    if !weather.sys.country.as_str().is_empty() {
        let mut out = String::from_str(weather.name.as_str());
        out.append(", ");
        out.append(weather.sys.country.as_str());
        out
    } else {
        String::from_str(weather.name.as_str())
    }
}

/// An offset from UTC in seconds, as `UTC+<h>` or `UTC-<h>` in whole hours.
pub fn format_utc_offset(timezone: i32) -> (out: String)
    ensures
        out@ == utc_offset_text(timezone as int),
{
    let hours = truncating_div(timezone as i64, 3600);
    if hours >= 0 {
        join("UTC+", fixed_text(hours, 0).as_str())
    } else {
        join("UTC", fixed_text(hours, 0).as_str())
    }
}

/// Coordinates as `<lat>°N, <lon>°E`, in degrees to three decimal places.
pub fn format_coordinates(coord: &Coordinates) -> (out: String)
    ensures
        out@ == coordinates_text(*coord),
{
    let mut out = fixed_text(coord.lat as i64, 3);
    out.append("°N, ");
    out.append(fixed_text(coord.lon as i64, 3).as_str());
    out.append("°E");
    out
}

/// The lowest and the highest temperature as `<min>°C - <max>°C`.
pub fn format_daily_range(main: &MainData) -> (out: String)
    ensures
        out@ == daily_range_text(*main),
{
    let low = round_to_nearest(to_celsius(main.temp_min), 100);
    let high = round_to_nearest(to_celsius(main.temp_max), 100);
    let mut out = fixed_text(low, 1);
    out.append("°C - ");
    out.append(fixed_text(high, 1).as_str());
    out.append("°C");
    out
}

/// A speed in millimetres per second as metres per second to one decimal
/// place.
pub fn format_speed_tenths(speed: i32) -> (out: String)
    ensures
        out@ == speed_tenths_text(speed as int),
{
    fixed_text(round_to_nearest(speed as i64, 100), 1)
}

/// A speed in millimetres per second as metres per second to two decimal
/// places.
pub fn format_speed_hundredths(speed: i32) -> (out: String)
    ensures
        out@ == speed_hundredths_text(speed as int),
{
    fixed_text(round_to_nearest(speed as i64, 10), 2)
}

/// With no offset the local time is the time of day in UTC, and an offset
/// moves the clock by exactly that many seconds, around midnight where it
/// crosses it: the local time at `timestamp` is the UTC time at
/// `timestamp + offset`, and its second of the day is that of UTC plus the
/// offset, taken modulo the length of a day.
pub proof fn lemma_offset_shifts_clock(timestamp: int, offset: int)
    ensures
        sun_time(timestamp, 0) == clock_text(timestamp % 86_400),
        sun_time(timestamp, offset) == sun_time(timestamp + offset, 0),
        local_second_of_day(timestamp, offset) == (local_second_of_day(timestamp, 0) + offset)
            % 86_400,
        0 <= local_second_of_day(timestamp, offset) < 86_400,
        0 <= local_second_of_day(timestamp, offset) / 3600 < 24,
        0 <= (local_second_of_day(timestamp, offset) / 60) % 60 < 60,
{
}

/// The compass point depends on the direction modulo 360 degrees alone, and
/// the sector is `floor((degrees + 11.25) / 22.5) mod 16` whether or not the
/// degrees are reduced first.
pub proof fn lemma_wind_sector_wraps(degrees: int, turns: int)
    ensures
        wind_sector(degrees) == wind_sector(degrees % 360),
        wind_sector(degrees + 360 * turns) == wind_sector(degrees),
        wind_sector(degrees) == ((4 * degrees + 45) / 90) % 16,
        0 <= wind_sector(degrees) < 16,
{
    assert((degrees + 360 * turns) % 360 == degrees % 360) by {
        vstd::arithmetic::div_mod::lemma_mod_multiples_vanish(turns, degrees, 360);
    }
    let q = degrees / 360;
    let r = degrees % 360;
    assert(degrees == 360 * q + r);
    assert(4 * degrees + 45 == 90 * (16 * q) + (4 * r + 45));
    assert((4 * degrees + 45) / 90 == 16 * q + (4 * r + 45) / 90);
}

/// The cells of a gauge add up to its width for every temperature: a
/// temperature outside -20 °C to 40 °C fills none or all of them.
pub proof fn lemma_gauge_is_bounded(celsius: int, width: int)
    requires
        width >= 0,
    ensures
        0 <= gauge_filled(celsius, width) <= width,
        celsius <= -20_000 ==> gauge_filled(celsius, width) == 0,
        celsius >= 40_000 ==> gauge_filled(celsius, width) == width,
{
    let clamped = if celsius < -20_000 {
        -20_000
    } else if celsius > 40_000 {
        40_000
    } else {
        celsius
    };
    let above = clamped + 20_000;
    assert(0 <= above * width <= 60_000 * width) by (nonlinear_arith)
        requires
            0 <= above <= 60_000,
            width >= 0,
    ;
    if celsius >= 40_000 {
        assert(above * width == 60_000 * width);
    }
    if celsius <= -20_000 {
        assert(above * width == 0) by (nonlinear_arith)
            requires
                above == 0,
        ;
    }
}

/// The feeling and the colour band of a temperature turn at the same
/// thresholds: from -10 °C on the band is the bucket less one, and below
/// that both are the lowest.
pub proof fn lemma_feeling_and_band_share_thresholds(celsius: int)
    ensures
        0 <= feeling_bucket(celsius) <= 6,
        0 <= temperature_band(celsius) <= 5,
        feeling_bucket(celsius) >= 1 ==> temperature_band(celsius) == feeling_bucket(celsius) - 1,
        feeling_bucket(celsius) == 0 ==> temperature_band(celsius) == 0,
{
}

/// Each feeling has a glyph and a word of its own.
pub proof fn lemma_feelings_are_told_apart(first: int, second: int)
    requires
        0 <= first <= 6,
        0 <= second <= 6,
        first != second,
    ensures
        feeling_glyph(first) != feeling_glyph(second),
        feeling_label(first) != feeling_label(second),
{
    reveal_strlit("🥶");
    reveal_strlit("🧊");
    reveal_strlit("🌬️");
    reveal_strlit("😎");
    reveal_strlit("🌤️");
    reveal_strlit("🔥");
    reveal_strlit("🥵");
    reveal_strlit("Freezing");
    reveal_strlit("Very Cold");
    reveal_strlit("Cold");
    reveal_strlit("Cool");
    reveal_strlit("Warm");
    reveal_strlit("Hot");
    reveal_strlit("Extremely Hot");
    assert(feeling_glyph(first)[0] != feeling_glyph(second)[0]);
    assert(feeling_label(first).len() != feeling_label(second).len() || feeling_label(first)[0]
        != feeling_label(second)[0] || feeling_label(first)[2] != feeling_label(second)[2]);
}

} // verus!
