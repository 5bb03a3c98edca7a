use weather_cli::models::weather::{
    CloudData, Coordinates, MainData, SystemData, TemperatureUnit, WeatherCondition,
    WeatherResponse, WindData,
};
use weather_cli::utils::display_templates::RenderError;
use weather_cli::utils::server::WeatherState;
use weather_cli::utils::web::{compose_html, generate_html, get_emoji, hex_of_band};

fn mock_weather() -> WeatherResponse {
    WeatherResponse {
        coord: Coordinates { lon: 0, lat: 0 },
        weather: vec![WeatherCondition {
            id: 800,
            main: "Clear".to_string(),
            description: "clear sky".to_string(),
            icon: "01d".to_string(),
        }],
        main: MainData {
            temp: 293_150,
            feels_like: 295_150,
            temp_min: 288_150,
            temp_max: 298_150,
            pressure: 1013,
            humidity: 65,
            sea_level: None,
            grnd_level: None,
        },
        wind: WindData { speed: 5_000, deg: 180, gust: None },
        clouds: CloudData { all: 0 },
        sys: SystemData { country: "US".to_string(), sunrise: 1678867200, sunset: 1678910400 },
        name: "Test City".to_string(),
        visibility: Some(10000),
        timezone: 0,
    }
}

fn page(weather: &WeatherResponse, unit: TemperatureUnit) -> String {
    compose_html(weather, &unit, "2023-03-15 08:00:00").unwrap()
}

#[test]
fn page_is_a_whole_document() {
    let html = page(&mock_weather(), TemperatureUnit::Celsius);
    assert!(html.starts_with("\n<!DOCTYPE html>\n<html lang=\"en\">\n<head>\n"));
    assert!(html.ends_with("</body>\n</html>\n"));
    assert_eq!(html.matches("<html").count(), 1);
    assert_eq!(html.matches("</html>").count(), 1);
    assert_eq!(html.matches("<style>").count(), 1);
    assert_eq!(html.matches("</style>").count(), 1);
    assert_eq!(html.matches("<div").count(), html.matches("</div>").count());
    assert!(!html.contains("{}"));
    assert!(!html.contains("{{"));
}

#[test]
fn page_shows_the_derived_values() {
    let html = page(&mock_weather(), TemperatureUnit::Celsius);
    assert!(html.contains("<title>Weather - Test City, US</title>"));
    assert!(html.contains("<h1>Test City, US</h1>"));
    assert!(html.contains("<div class=\"location\">Test City, US</div>"));
    assert!(html.contains("<div class=\"coords\">📍 0.000°N, 0.000°E | UTC+0</div>"));
    assert!(html.contains("<div class=\"weather-icon\">☀️</div>"));
    assert!(html.contains("<div class=\"condition\">clear sky</div>"));
    assert!(html.contains("<div class=\"temperature\">20.0°C</div>"));
    assert!(html.contains("Feels like: 22.0°C</div>"));
    assert!(html.contains(
        "<div class=\"detail-label\">Current</div>\n                        <div class=\"detail-value\">20.0°C</div>"
    ));
    assert!(html.contains(
        "<div class=\"detail-label\">Feels Like</div>\n                        <div class=\"detail-value\">22.0°C</div>"
    ));
    assert!(html.contains(
        "<div class=\"detail-label\">Min</div>\n                        <div class=\"detail-value\">15.0°</div>"
    ));
    assert!(html.contains(
        "<div class=\"detail-label\">Max</div>\n                        <div class=\"detail-value\">25.0°</div>"
    ));
    assert!(html.contains("<div class=\"detail-value\">65%</div>"));
    assert!(html.contains("<div class=\"detail-value\">1013 hPa</div>"));
    assert!(html.contains("<div class=\"detail-value\">5.0 m/s</div>"));
    assert!(html.contains("<div class=\"detail-value\">S</div>"));
    assert!(html.contains("<div class=\"detail-value\">0%</div>"));
    assert!(html.contains("<div class=\"progress-fill\" style=\"width: 0%;\"></div>"));
    assert!(html.contains("<div class=\"detail-value\">10.0 km</div>"));
    assert!(html.contains(
        "<div>🌅 Sunrise</div>\n                        <div class=\"sun-moon-time\">08:00</div>"
    ));
    assert!(html.contains(
        "<div>🌇 Sunset</div>\n                        <div class=\"sun-moon-time\">20:00</div>"
    ));
    assert!(html.contains("<p>Last updated: 2023-03-15 08:00:00 UTC</p>"));
}

#[test]
fn page_follows_the_unit() {
    let html = page(&mock_weather(), TemperatureUnit::Fahrenheit);
    assert!(html.contains("<div class=\"temperature\">68.0°F</div>"));
    assert!(html.contains("Feels like: 71.6°F</div>"));
    // lowest and highest stay in degrees Celsius
    assert!(html.contains("<div class=\"detail-value\">15.0°</div>"));
    let html = page(&mock_weather(), TemperatureUnit::Kelvin);
    assert!(html.contains("<div class=\"temperature\">293.2K</div>"));
}

#[test]
fn page_colours_the_temperature_by_its_band() {
    let mut weather = mock_weather();
    for (kelvin, hex) in [
        (263_150, "#3498db"),
        (273_149, "#3498db"),
        (273_150, "#2980b9"),
        (283_150, "#27ae60"),
        (293_150, "#f39c12"),
        (303_150, "#e67e22"),
        (313_150, "#e74c3c"),
    ] {
        weather.main.temp = kelvin;
        let html = page(&weather, TemperatureUnit::Celsius);
        assert!(html.contains(&format!(
            "font-weight: bold;\n            color: {};\n            margin: 10px 0;",
            hex
        )));
    }
    assert_eq!(hex_of_band(0), "#3498db");
    assert_eq!(hex_of_band(5), "#e74c3c");
    assert_eq!(hex_of_band(200), "#e74c3c");
}

#[test]
fn page_draws_the_cloud_bar() {
    let mut weather = mock_weather();
    weather.clouds.all = 75;
    let html = page(&weather, TemperatureUnit::Celsius);
    assert!(html.contains("height: 100%;\n            width: 75%;\n        }"));
    assert!(html.contains("<div class=\"detail-value\">75%</div>"));
    assert!(html.contains("<div class=\"progress-fill\" style=\"width: 75%;\"></div>"));
}

#[test]
fn page_shows_ten_kilometres_without_a_visibility() {
    let mut weather = mock_weather();
    weather.visibility = None;
    assert!(page(&weather, TemperatureUnit::Celsius)
        .contains("<div class=\"detail-value\">10.0 km</div>"));
    weather.visibility = Some(500);
    assert!(page(&weather, TemperatureUnit::Celsius)
        .contains("<div class=\"detail-value\">0.5 km</div>"));
    weather.visibility = Some(7_250);
    assert!(page(&weather, TemperatureUnit::Celsius)
        .contains("<div class=\"detail-value\">7.3 km</div>"));
}

#[test]
fn page_escapes_text_from_the_service() {
    let mut weather = mock_weather();
    weather.name = "<script>alert('x')</script>".to_string();
    weather.sys.country = "A&B".to_string();
    weather.weather[0].description = "rain \"heavy\" <b>".to_string();
    let html = page(&weather, TemperatureUnit::Celsius);
    assert!(!html.contains("<script>"));
    assert!(!html.contains("alert('x')"));
    assert!(!html.contains("<b>"));
    assert!(html.contains(
        "<title>Weather - &lt;script&gt;alert(&#39;x&#39;)&lt;/script&gt;, A&amp;B</title>"
    ));
    assert!(html.contains("<h1>&lt;script&gt;alert(&#39;x&#39;)&lt;/script&gt;, A&amp;B</h1>"));
    assert!(html.contains("<div class=\"condition\">rain &quot;heavy&quot; &lt;b&gt;</div>"));
    let clean = page(&mock_weather(), TemperatureUnit::Celsius);
    assert_eq!(html.matches("<div").count(), clean.matches("<div").count());
    assert_eq!(html.matches('<').count(), clean.matches('<').count());
}

#[test]
fn page_without_a_country() {
    let mut weather = mock_weather();
    weather.sys.country = String::new();
    weather.timezone = -18_000;
    weather.coord = Coordinates { lon: -74_006, lat: 40_714 };
    let html = page(&weather, TemperatureUnit::Celsius);
    assert!(html.contains("<h1>Test City</h1>"));
    assert!(html.contains("<div class=\"coords\">📍 40.714°N, -74.006°E | UTC-5</div>"));
    assert!(html.contains("<div class=\"sun-moon-time\">03:00</div>"));
}

#[test]
fn page_fails_without_conditions() {
    let mut weather = mock_weather();
    weather.weather.clear();
    assert_eq!(
        compose_html(&weather, &TemperatureUnit::Celsius, "now"),
        Err(RenderError::NoConditions)
    );
    assert_eq!(
        generate_html(&weather, &TemperatureUnit::Celsius, 0),
        Err(RenderError::NoConditions)
    );
}

#[test]
fn page_is_stamped_with_the_time_of_rendering() {
    let weather = mock_weather();
    let html = generate_html(&weather, &TemperatureUnit::Celsius, 1678867200).unwrap();
    assert!(html.contains("<p>Last updated: 2023-03-15 08:00:00 UTC</p>"));
    assert_eq!(html, page(&weather, TemperatureUnit::Celsius));
    let again = generate_html(&weather, &TemperatureUnit::Celsius, 1678867200).unwrap();
    assert_eq!(html, again);
    let later = generate_html(&weather, &TemperatureUnit::Celsius, 1678867260).unwrap();
    assert_eq!(
        html.replace("2023-03-15 08:00:00", "*"),
        later.replace("2023-03-15 08:01:00", "*")
    );
}

#[test]
fn emoji_table_of_the_page() {
    assert_eq!(get_emoji("01d"), "☀️");
    assert_eq!(get_emoji("01n"), "🌙");
    assert_eq!(get_emoji("02d"), "⛅");
    assert_eq!(get_emoji("04n"), "☁️");
    assert_eq!(get_emoji("09d"), "🌧️");
    assert_eq!(get_emoji("10n"), "🌦️");
    assert_eq!(get_emoji("11d"), "⛈️");
    assert_eq!(get_emoji("13n"), "❄️");
    assert_eq!(get_emoji("50d"), "🌫️");
    assert_eq!(get_emoji("nope"), "🌈");
}

#[test]
fn server_state_holds_the_page() {
    let html = page(&mock_weather(), TemperatureUnit::Celsius);
    let state = WeatherState { html: html.clone() };
    assert_eq!(state.html, html);
}
