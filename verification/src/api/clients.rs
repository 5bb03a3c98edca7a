//! The decisions around one request to the weather service: which key to
//! use, which address to ask, what a status means and whether an answer can
//! be shown. Sending the request and reading the answer are left to the
//! caller.

use crate::models::weather::{Coordinates, TemperatureUnit, WeatherResponse, WeatherView};
use crate::style::StyledText;
use crate::text::{fixed, fixed_text, str_equals};
use crate::utils::display_templates::{rendered, DisplayTemplate, RenderError};
use crate::utils::web::generated;
use vstd::prelude::*;
use vstd::string::*;

verus! {

/// The address of the weather service, up to the query.
pub const ENDPOINT: &'static str = "https://api.openweathermap.org/data/2.5/weather";

/// The placeholder that stands where a key has not been filled in.
pub const PLACEHOLDER_KEY: &'static str = "your_api_key_here";

/// How the client names itself to the service.
pub const USER_AGENT: &'static str = "rust-weather-cli/1.0";

/// The seconds after which a request is given up.
pub const TIMEOUT_SECONDS: u64 = 10;

/// Why no weather record could be had.
#[derive(Clone, Debug)]
pub enum ApiError {
    /// No key is configured.
    MissingApiKey,
    /// The configured key is blank or the placeholder.
    InvalidApiKey,
    /// The service refused the key.
    Unauthorized,
    /// The service knows no such city.
    CityNotFound { city: String },
    /// Too many requests.
    RateLimited,
    /// Any other failure that the service reported.
    Http { status: String, body: String },
    /// The answer names no place or holds no condition.
    InvalidResponse,
    /// A request by coordinates failed.
    CoordinatesFailed,
}

/// The mathematical form of an [`ApiError`].
pub enum ApiErrorView {
    MissingApiKey,
    InvalidApiKey,
    Unauthorized,
    CityNotFound { city: Seq<char> },
    RateLimited,
    Http { status: Seq<char>, body: Seq<char> },
    InvalidResponse,
    CoordinatesFailed,
}

/// A client that holds a usable key.
#[derive(Clone, Debug)]
pub struct WeatherApiClient {
    pub api_key: String,
}

impl View for ApiError {
    type V = ApiErrorView;

    open spec fn view(&self) -> ApiErrorView {
        match self {
            ApiError::MissingApiKey => ApiErrorView::MissingApiKey,
            ApiError::InvalidApiKey => ApiErrorView::InvalidApiKey,
            ApiError::Unauthorized => ApiErrorView::Unauthorized,
            ApiError::CityNotFound { city } => ApiErrorView::CityNotFound { city: city@ },
            ApiError::RateLimited => ApiErrorView::RateLimited,
            ApiError::Http { status, body } => ApiErrorView::Http {
                status: status@,
                body: body@,
            },
            ApiError::InvalidResponse => ApiErrorView::InvalidResponse,
            ApiError::CoordinatesFailed => ApiErrorView::CoordinatesFailed,
        }
    }
}

/// Whether a character is white space: the characters with the Unicode
/// property `White_Space`.
pub open spec fn is_space(c: char) -> bool {
    let code = c as u32;
    ||| 0x09 <= code <= 0x0D
    ||| code == 0x20
    ||| code == 0x85
    ||| code == 0xA0
    ||| code == 0x1680
    ||| 0x2000 <= code <= 0x200A
    ||| code == 0x2028
    ||| code == 0x2029
    ||| code == 0x202F
    ||| code == 0x205F
    ||| code == 0x3000
}

/// Whether a text is empty or white space only.
pub open spec fn is_blank(s: Seq<char>) -> bool {
    forall|i: int| 0 <= i < s.len() ==> is_space(#[trigger] s[i])
}

/// Whether a key can be used: it is not blank and not the placeholder.
pub open spec fn key_is_usable(key: Seq<char>) -> bool {
    !is_blank(key) && key != PLACEHOLDER_KEY@
}

/// The key that is configured: the primary one where there is one, else the
/// fallback.
pub open spec fn configured_key(primary: Option<String>, fallback: Option<String>) -> Option<
    Seq<char>,
> {
    match primary {
        Some(key) => Some(key@),
        None => match fallback {
            Some(key) => Some(key@),
            None => None,
        },
    }
}

/// What setting up a client returns: a client with the configured key
/// where that key is usable, and else the error that says what is wrong.
pub open spec fn client_made(
    primary: Option<String>,
    fallback: Option<String>,
    result: Result<WeatherApiClient, ApiError>,
) -> bool {
    match configured_key(primary, fallback) {
        None => result is Err && result->Err_0@ == ApiErrorView::MissingApiKey,
        Some(key) => if key_is_usable(key) {
            result is Ok && result->Ok_0.api_key@ == key
        } else {
            result is Err && result->Err_0@ == ApiErrorView::InvalidApiKey
        },
    }
}

/// The address to ask for the weather in a city.
pub open spec fn city_url(city: Seq<char>, key: Seq<char>) -> Seq<char> {
    ENDPOINT@ + "?q="@ + city + "&appid="@ + key
}

/// The address to ask for the weather at coordinates, which are written in
/// degrees to three decimal places.
pub open spec fn coordinates_url(coord: Coordinates, key: Seq<char>) -> Seq<char> {
    ENDPOINT@ + "?lat="@ + fixed(coord.lat as int, 3) + "&lon="@ + fixed(coord.lon as int, 3)
        + "&appid="@ + key
}

/// Whether a status code reports success: 200 to 299.
pub open spec fn is_success(status: int) -> bool {
    200 <= status <= 299
}

/// What a status means for a request by city: nothing is wrong for a
/// success, and else 401 is a refused key, 404 an unknown city, 429 too
/// many requests, and any other code an error that carries the status line
/// and the body of the answer.
pub open spec fn status_outcome(
    status: int,
    status_line: Seq<char>,
    body: Seq<char>,
    city: Seq<char>,
) -> Option<ApiErrorView> {
    if is_success(status) {
        None
    } else if status == 401 {
        Some(ApiErrorView::Unauthorized)
    } else if status == 404 {
        Some(ApiErrorView::CityNotFound { city })
    } else if status == 429 {
        Some(ApiErrorView::RateLimited)
    } else {
        Some(ApiErrorView::Http { status: status_line, body })
    }
}

/// Whether an answer can be shown: it names a place and holds a condition.
pub open spec fn is_showable(w: WeatherView) -> bool {
    w.name.len() > 0 && w.weather.len() > 0
}

/// What a request by city comes to, where `weather` is the record read
/// from a successful answer, if one could be read: the error that the status
/// stands for; else the record, where there is one and it can be shown; else
/// the error of an answer that cannot be used.
pub open spec fn city_outcome(
    status: int,
    status_line: Seq<char>,
    body: Seq<char>,
    city: Seq<char>,
    weather: Option<WeatherResponse>,
    result: Result<WeatherResponse, ApiError>,
) -> bool {
    match status_outcome(status, status_line, body, city) {
        Some(error) => result is Err && result->Err_0@ == error,
        None => answer_outcome(weather, result),
    }
}

/// What a request by coordinates comes to: the error of a failed request
/// for any status but a success; else as for a request by city.
pub open spec fn coords_outcome(
    status: int,
    weather: Option<WeatherResponse>,
    result: Result<WeatherResponse, ApiError>,
) -> bool {
    if is_success(status) {
        answer_outcome(weather, result)
    } else {
        result is Err && result->Err_0@ == ApiErrorView::CoordinatesFailed
    }
}

/// What a successful answer comes to: the record itself, where there is one
/// that names a place and holds a condition; else the error of an answer
/// that cannot be used.
pub open spec fn answer_outcome(
    weather: Option<WeatherResponse>,
    result: Result<WeatherResponse, ApiError>,
) -> bool {
    match weather {
        Some(w) => if is_showable(w@) {
            result == Ok::<WeatherResponse, ApiError>(w)
        } else {
            result is Err && result->Err_0@ == ApiErrorView::InvalidResponse
        },
        None => result is Err && result->Err_0@ == ApiErrorView::InvalidResponse,
    }
}

/// An error in words.
pub open spec fn error_message(error: ApiErrorView) -> Seq<char> {
    match error {
        ApiErrorView::MissingApiKey => "No API key found. Please set WEATHER_API_KEY or OPENWEATHER_API_KEY environment variable.\nGet a free API key at: https://openweathermap.org/api"@,
        ApiErrorView::InvalidApiKey => "Invalid API key. Please set a valid OpenWeatherMap API key."@,
        ApiErrorView::Unauthorized => "Invalid API key. Please check your OpenWeatherMap API key."@,
        ApiErrorView::CityNotFound { city } => "City '"@ + city
            + "' not found. Please check the spelling."@,
        ApiErrorView::RateLimited => "API rate limit exceeded. Please try again later."@,
        ApiErrorView::Http { status, body } => "API error ("@ + status + "): "@ + body,
        ApiErrorView::InvalidResponse => "Invalid response from API"@,
        ApiErrorView::CoordinatesFailed => "Failed to fetch weather data for coordinates"@,
    }
}

/// Whether a character is white space.
pub fn char_is_space(c: char) -> (b: bool)
    ensures
        b == is_space(c),
{
    let code: u32 = c as u32;
    (0x09 <= code && code <= 0x0D) || code == 0x20 || code == 0x85 || code == 0xA0 || code
        == 0x1680 || (0x2000 <= code && code <= 0x200A) || code == 0x2028 || code == 0x2029
        || code == 0x202F || code == 0x205F || code == 0x3000
}

/// Whether a text is empty or white space only.
pub fn text_is_blank(s: &str) -> (b: bool)
    ensures
        b == is_blank(s@),
{
    let n: usize = s.unicode_len();
    let mut i: usize = 0;
    while i < n
        invariant
            i <= n,
            n == s@.len(),
            forall|j: int| 0 <= j < i ==> is_space(#[trigger] s@[j]),
        decreases n - i,
    {
        if !char_is_space(s.get_char(i)) {
            return false;
        }
        i = i + 1;
    }
    true
}

impl ApiError {
    /// The error in words.
    pub fn message(&self) -> (out: String)
        ensures
            out@ == error_message(self@),
    {
        match self {
            ApiError::MissingApiKey => String::from_str(
                "No API key found. Please set WEATHER_API_KEY or OPENWEATHER_API_KEY environment variable.\nGet a free API key at: https://openweathermap.org/api",
            ),
            ApiError::InvalidApiKey => String::from_str(
                "Invalid API key. Please set a valid OpenWeatherMap API key.",
            ),
            ApiError::Unauthorized => String::from_str(
                "Invalid API key. Please check your OpenWeatherMap API key.",
            ),
            ApiError::CityNotFound { city } => {
                let mut out = String::from_str("City '");
                out.append(city.as_str());
                out.append("' not found. Please check the spelling.");
                out
            },
            ApiError::RateLimited => String::from_str(
                "API rate limit exceeded. Please try again later.",
            ),
            ApiError::Http { status, body } => {
                let mut out = String::from_str("API error (");
                out.append(status.as_str());
                out.append("): ");
                out.append(body.as_str());
                out
            },
            ApiError::InvalidResponse => String::from_str("Invalid response from API"),
            ApiError::CoordinatesFailed => String::from_str(
                "Failed to fetch weather data for coordinates",
            ),
        }
    }
}

impl WeatherApiClient {
    /// A client for the key that is configured: `primary` where there is
    /// one, else `fallback`. Fails where neither is given, and where the
    /// key is blank or the placeholder.
    pub fn new(primary: Option<String>, fallback: Option<String>) -> (result: Result<
        WeatherApiClient,
        ApiError,
    >)
        ensures
            client_made(primary, fallback, result),
    {
        let api_key = match primary {
            Some(key) => key,
            None => match fallback {
                Some(key) => key,
                None => {
                    return Err(ApiError::MissingApiKey);
                },
            },
        };
        if text_is_blank(api_key.as_str()) || str_equals(api_key.as_str(), PLACEHOLDER_KEY) {
            return Err(ApiError::InvalidApiKey);
        }
        Ok(WeatherApiClient { api_key })
    }

    /// The address to ask for the weather in `city`.
    pub fn request_url(&self, city: &str) -> (url: String)
        ensures
            url@ == city_url(city@, self.api_key@),
    {
        let mut url = String::from_str(ENDPOINT);
        url.append("?q=");
        url.append(city);
        url.append("&appid=");
        url.append(self.api_key.as_str());
        url
    }

    /// The address to ask for the weather at `coord`.
    pub fn request_url_by_coords(&self, coord: &Coordinates) -> (url: String)
        ensures
            url@ == coordinates_url(*coord, self.api_key@),
    {
        let mut url = String::from_str(ENDPOINT);
        url.append("?lat=");
        url.append(fixed_text(coord.lat as i64, 3).as_str());
        url.append("&lon=");
        url.append(fixed_text(coord.lon as i64, 3).as_str());
        url.append("&appid=");
        url.append(self.api_key.as_str());
        url
    }

    /// The weather in `city`, from what the service sent back: `status` and
    /// `status_line` are the status of the answer, `body` is its text where
    /// the status is no success, and `weather` the record read from it
    /// where the status is a success and a record could be read.
    pub fn get_weather(
        &self,
        city: &str,
        status: u16,
        status_line: &str,
        body: &str,
        weather: Option<WeatherResponse>,
    ) -> (result: Result<WeatherResponse, ApiError>)
        ensures
            city_outcome(status as int, status_line@, body@, city@, weather, result),
    {
        match check_status(status, status_line, body, city) {
            Err(error) => Err(error),
            Ok(()) => accept(weather),
        }
    }

    /// The weather at coordinates, from what the service sent back: the
    /// status of the answer, and the record read from it where the status
    /// is a success and a record could be read.
    pub fn get_weather_by_coords(&self, status: u16, weather: Option<WeatherResponse>) -> (result:
        Result<WeatherResponse, ApiError>)
        ensures
            coords_outcome(status as int, weather, result),
    {
        match check_coords_status(status) {
            Err(error) => Err(error),
            Ok(()) => accept(weather),
        }
    }
}

/// The record of a successful answer, where there is one that can be shown.
pub fn accept(weather: Option<WeatherResponse>) -> (result: Result<WeatherResponse, ApiError>)
    ensures
        answer_outcome(weather, result),
{
    match weather {
        Some(w) => match validate_response(&w) {
            Ok(()) => Ok(w),
            Err(error) => Err(error),
        },
        None => Err(ApiError::InvalidResponse),
    }
}

/// Whether a status code reports success.
pub fn status_is_success(status: u16) -> (b: bool)
    ensures
        b == is_success(status as int),
{
    200 <= status && status <= 299
}

/// What the status of an answer means for a request for `city`, where
/// `status_line` is the status as the service put it and `body` the text of
/// the answer.
pub fn check_status(status: u16, status_line: &str, body: &str, city: &str) -> (result: Result<
    (),
    ApiError,
>)
    ensures
        match status_outcome(status as int, status_line@, body@, city@) {
            None => result is Ok,
            Some(error) => result is Err && result->Err_0@ == error,
        },
{
    if status_is_success(status) {
        Ok(())
    } else if status == 401 {
        Err(ApiError::Unauthorized)
    } else if status == 404 {
        Err(ApiError::CityNotFound { city: String::from_str(city) })
    } else if status == 429 {
        Err(ApiError::RateLimited)
    } else {
        Err(ApiError::Http { status: String::from_str(status_line), body: String::from_str(body) })
    }
}

/// What the status of an answer means for a request by coordinates.
pub fn check_coords_status(status: u16) -> (result: Result<(), ApiError>)
    ensures
        result is Ok <==> is_success(status as int),
        result is Err ==> result->Err_0@ == ApiErrorView::CoordinatesFailed,
{
    if status_is_success(status) {
        Ok(())
    } else {
        Err(ApiError::CoordinatesFailed)
    }
}

/// Whether an answer can be shown: it must name a place and hold at least
/// one condition.
pub fn validate_response(weather: &WeatherResponse) -> (result: Result<(), ApiError>)
    ensures
        result is Ok <==> is_showable(weather@),
        result is Err ==> result->Err_0@ == ApiErrorView::InvalidResponse,
{
    if weather.name.as_str().is_empty() || weather.weather.len() == 0 {
        Err(ApiError::InvalidResponse)
    } else {
        Ok(())
    }
}

/// A record that was accepted can be shown: rendering it succeeds in every
/// template and every unit, and so does making the page.
pub proof fn lemma_accepted_record_renders(
    weather: Option<WeatherResponse>,
    result: Result<WeatherResponse, ApiError>,
    unit: TemperatureUnit,
    template: DisplayTemplate,
    shouted: Seq<char>,
    updated: Seq<char>,
    text: Result<StyledText, RenderError>,
    html: Result<String, RenderError>,
)
    requires
        answer_outcome(weather, result),
        result is Ok,
        rendered(result->Ok_0@, unit, template, shouted, updated, text),
        generated(result->Ok_0@, unit, updated, html),
    ensures
        is_showable(result->Ok_0@),
        text is Ok,
        html is Ok,
{
}

} // verus!
