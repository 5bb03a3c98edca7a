use weather_cli::api::clients::{
    accept, char_is_space, check_coords_status, check_status, status_is_success, text_is_blank,
    validate_response, ApiError, WeatherApiClient, ENDPOINT, PLACEHOLDER_KEY, TIMEOUT_SECONDS,
    USER_AGENT,
};
use weather_cli::models::weather::{
    CloudData, Coordinates, MainData, SystemData, TemperatureUnit, WeatherCondition,
    WeatherResponse, WindData,
};
use weather_cli::utils::display_templates::WeatherDisplay;

fn mock_weather() -> WeatherResponse {
    WeatherResponse {
        coord: Coordinates { lon: 0, lat: 0 },
        weather: vec![WeatherCondition {
            id: 800,
            main: "Clear".to_string(),
            description: "clear sky".to_string(),
            icon: "01d".to_string(),
        }],
        main: MainData {
            temp: 293_150,
            feels_like: 295_150,
            temp_min: 288_150,
            temp_max: 298_150,
            pressure: 1013,
            humidity: 65,
            sea_level: None,
            grnd_level: None,
        },
        wind: WindData { speed: 5_000, deg: 180, gust: None },
        clouds: CloudData { all: 0 },
        sys: SystemData { country: "US".to_string(), sunrise: 1678867200, sunset: 1678910400 },
        name: "Test City".to_string(),
        visibility: Some(10000),
        timezone: 0,
    }
}

#[test]
fn client_takes_the_primary_key_first() {
    let client = WeatherApiClient::new(Some("abc".to_string()), Some("def".to_string())).unwrap();
    assert_eq!(client.api_key, "abc");
    let client = WeatherApiClient::new(None, Some("def".to_string())).unwrap();
    assert_eq!(client.api_key, "def");
    let client = WeatherApiClient::new(Some("abc".to_string()), None).unwrap();
    assert_eq!(client.api_key, "abc");
}

#[test]
fn client_needs_a_key() {
    let error = WeatherApiClient::new(None, None).unwrap_err();
    assert!(matches!(error, ApiError::MissingApiKey));
    assert_eq!(
        error.message(),
        "No API key found. Please set WEATHER_API_KEY or OPENWEATHER_API_KEY environment variable.\nGet a free API key at: https://openweathermap.org/api"
    );
}

#[test]
fn client_refuses_a_blank_key_or_the_placeholder() {
    for key in ["", " ", "   ", "\t\n", "\u{a0}\u{2003}", "your_api_key_here"] {
        let error = WeatherApiClient::new(Some(key.to_string()), None).unwrap_err();
        assert!(matches!(error, ApiError::InvalidApiKey), "key {:?}", key);
        assert_eq!(
            error.message(),
            "Invalid API key. Please set a valid OpenWeatherMap API key."
        );
    }
    // a blank primary key is not replaced by the fallback
    let error =
        WeatherApiClient::new(Some(" ".to_string()), Some("good".to_string())).unwrap_err();
    assert!(matches!(error, ApiError::InvalidApiKey));
    // close to the placeholder, but not it
    assert!(WeatherApiClient::new(Some(" your_api_key_here".to_string()), None).is_ok());
    assert!(WeatherApiClient::new(Some("YOUR_API_KEY_HERE".to_string()), None).is_ok());
    assert!(WeatherApiClient::new(Some(" k ".to_string()), None).is_ok());
    assert_eq!(PLACEHOLDER_KEY, "your_api_key_here");
}

#[test]
fn white_space_is_what_the_standard_library_calls_white_space() {
    for code in 0u32..0x3100 {
        if let Some(c) = char::from_u32(code) {
            assert_eq!(char_is_space(c), c.is_whitespace(), "U+{:04X}", code);
        }
    }
    for c in ['\u{feff}', '\u{e000}', '\u{1f324}', '\u{10ffff}'] {
        assert_eq!(char_is_space(c), c.is_whitespace());
    }
    for text in ["", " ", " \t\r\n", "a", " a ", "\u{3000}", "\u{200b}", "\u{180e}"] {
        assert_eq!(text_is_blank(text), text.trim().is_empty(), "text {:?}", text);
    }
}

#[test]
fn request_addresses() {
    let client = WeatherApiClient::new(Some("k3y".to_string()), None).unwrap();
    assert_eq!(
        client.request_url("Nairobi"),
        "https://api.openweathermap.org/data/2.5/weather?q=Nairobi&appid=k3y"
    );
    assert_eq!(
        client.request_url("New York"),
        "https://api.openweathermap.org/data/2.5/weather?q=New York&appid=k3y"
    );
    assert_eq!(
        client.request_url_by_coords(&Coordinates { lon: 36_817, lat: -1_283 }),
        "https://api.openweathermap.org/data/2.5/weather?lat=-1.283&lon=36.817&appid=k3y"
    );
    assert_eq!(ENDPOINT, "https://api.openweathermap.org/data/2.5/weather");
    assert_eq!(USER_AGENT, "rust-weather-cli/1.0");
    assert_eq!(TIMEOUT_SECONDS, 10);
}

#[test]
fn success_statuses_pass() {
    for status in [200u16, 201, 204, 299] {
        assert!(check_status(status, "200 OK", "", "Paris").is_ok());
        assert!(check_coords_status(status).is_ok());
    }
}

#[test]
fn failure_statuses_are_told_apart() {
    let error = check_status(401, "401 Unauthorized", "{}", "Paris").unwrap_err();
    assert!(matches!(error, ApiError::Unauthorized));
    assert_eq!(error.message(), "Invalid API key. Please check your OpenWeatherMap API key.");

    let error = check_status(404, "404 Not Found", "{}", "Pariss").unwrap_err();
    assert!(matches!(&error, ApiError::CityNotFound { city } if city == "Pariss"));
    assert_eq!(error.message(), "City 'Pariss' not found. Please check the spelling.");

    let error = check_status(429, "429 Too Many Requests", "{}", "Paris").unwrap_err();
    assert!(matches!(error, ApiError::RateLimited));
    assert_eq!(error.message(), "API rate limit exceeded. Please try again later.");

    let error =
        check_status(500, "500 Internal Server Error", "boom", "Paris").unwrap_err();
    assert!(matches!(
        &error,
        ApiError::Http { status, body } if status == "500 Internal Server Error" && body == "boom"
    ));
    assert_eq!(error.message(), "API error (500 Internal Server Error): boom");

    for status in [0u16, 100, 199, 300, 302, 400, 403, 418, 503, u16::MAX] {
        let error = check_status(status, "status", "body", "Paris").unwrap_err();
        assert!(matches!(error, ApiError::Http { .. }), "status {}", status);
        assert_eq!(error.message(), "API error (status): body");
    }
}

#[test]
fn failed_request_by_coordinates() {
    for status in [0u16, 199, 300, 401, 404, 429, 500] {
        let error = check_coords_status(status).unwrap_err();
        assert!(matches!(error, ApiError::CoordinatesFailed));
        assert_eq!(error.message(), "Failed to fetch weather data for coordinates");
    }
}

#[test]
fn an_answer_must_name_a_place_and_hold_a_condition() {
    let weather = mock_weather();
    assert!(validate_response(&weather).is_ok());

    let mut nameless = mock_weather();
    nameless.name = String::new();
    let error = validate_response(&nameless).unwrap_err();
    assert!(matches!(error, ApiError::InvalidResponse));
    assert_eq!(error.message(), "Invalid response from API");

    let mut empty = mock_weather();
    empty.weather.clear();
    assert!(matches!(validate_response(&empty).unwrap_err(), ApiError::InvalidResponse));

    let mut blank = mock_weather();
    blank.name = " ".to_string();
    assert!(validate_response(&blank).is_ok());
}

#[test]
fn success_is_two_hundred_to_two_hundred_ninety_nine() {
    for status in 0u16..1000 {
        assert_eq!(status_is_success(status), (200..300).contains(&status));
    }
    assert!(!status_is_success(u16::MAX));
}

#[test]
fn request_by_city_gives_the_record_of_a_good_answer() {
    let client = WeatherApiClient::new(Some("k3y".to_string()), None).unwrap();
    let weather = client.get_weather("Test City", 200, "200 OK", "", Some(mock_weather())).unwrap();
    assert_eq!(format!("{:?}", weather), format!("{:?}", mock_weather()));
}

#[test]
fn request_by_city_fails_by_status_first() {
    let client = WeatherApiClient::new(Some("k3y".to_string()), None).unwrap();
    let error = client
        .get_weather("Atlantis", 404, "404 Not Found", "{}", Some(mock_weather()))
        .unwrap_err();
    assert_eq!(error.message(), "City 'Atlantis' not found. Please check the spelling.");
    let error = client.get_weather("Paris", 401, "401 Unauthorized", "{}", None).unwrap_err();
    assert!(matches!(error, ApiError::Unauthorized));
    let error = client.get_weather("Paris", 429, "429 Too Many Requests", "", None).unwrap_err();
    assert!(matches!(error, ApiError::RateLimited));
    let error = client.get_weather("Paris", 502, "502 Bad Gateway", "down", None).unwrap_err();
    assert_eq!(error.message(), "API error (502 Bad Gateway): down");
}

#[test]
fn request_by_city_refuses_an_answer_that_cannot_be_shown() {
    let client = WeatherApiClient::new(Some("k3y".to_string()), None).unwrap();
    let mut nameless = mock_weather();
    nameless.name = String::new();
    let error = client.get_weather("Paris", 200, "200 OK", "", Some(nameless)).unwrap_err();
    assert!(matches!(error, ApiError::InvalidResponse));
    let mut empty = mock_weather();
    empty.weather.clear();
    let error = client.get_weather("Paris", 200, "200 OK", "", Some(empty)).unwrap_err();
    assert!(matches!(error, ApiError::InvalidResponse));
    let error = client.get_weather("Paris", 200, "200 OK", "", None).unwrap_err();
    assert!(matches!(error, ApiError::InvalidResponse));
}

#[test]
fn request_by_coordinates() {
    let client = WeatherApiClient::new(Some("k3y".to_string()), None).unwrap();
    let weather = client.get_weather_by_coords(200, Some(mock_weather())).unwrap();
    assert_eq!(weather.name, "Test City");
    for status in [199u16, 300, 401, 404, 429, 500] {
        let error = client.get_weather_by_coords(status, Some(mock_weather())).unwrap_err();
        assert!(matches!(error, ApiError::CoordinatesFailed));
    }
    let error = client.get_weather_by_coords(200, None).unwrap_err();
    assert!(matches!(error, ApiError::InvalidResponse));
    let mut empty = mock_weather();
    empty.weather.clear();
    let error = client.get_weather_by_coords(204, Some(empty)).unwrap_err();
    assert!(matches!(error, ApiError::InvalidResponse));
}

#[test]
fn a_record_that_is_accepted_can_be_rendered() {
    let weather = accept(Some(mock_weather())).unwrap();
    assert!(WeatherDisplay::new(&weather, TemperatureUnit::Celsius).compose("X", "Y").is_ok());
    assert!(accept(None).is_err());
}
