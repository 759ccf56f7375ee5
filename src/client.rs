use vstd::prelude::*;
use vstd::string::*;

use crate::style::{colorize_weather_output, style_of, StyledText};
use crate::symbol::{emoji_for_temperature, tier_of};
use crate::text::{one_decimal, push_one_decimal};

verus! {

/// Why a weather query failed.
#[derive(Debug, PartialEq, Eq)]
pub enum FetchError {
    /// The request did not reach the provider or got no answer; the text
    /// describes the transport failure.
    Network(String),
    /// The provider answered with a status outside 200..=299.
    Provider(u16),
    /// The body does not have the expected shape; the text says how.
    Decode(String),
    /// The body holds an empty list of weather descriptions.
    NoDescription,
}

/// The weather at one place, as one successful query reports it.
///
/// The four measures are kept in hundredths of their unit, rounded down:
/// degrees Celsius, percent, hectopascals and metres per second.
#[derive(Debug, PartialEq, Eq)]
pub struct WeatherRecord {
    pub description: String,
    pub location_name: String,
    pub temperature: i64,
    pub humidity: i64,
    pub pressure: i64,
    pub wind_speed: i64,
}

/// The client for the weather provider, with its access token.
pub struct WeatherApp {
    pub api_token: String,
}

pub open spec fn request_url_of(city: Seq<char>, country: Seq<char>, token: Seq<char>) -> Seq<
    char,
> {
    "http://api.openweathermap.org/data/2.5/weather?q="@ + city + ","@ + country
        + "&units=metric&appid="@ + token
}

/// Whether an HTTP status counts as success.
pub open spec fn is_success(status: u16) -> bool {
    200 <= status <= 299
}

/// The report block for a record.
pub open spec fn report_of(info: WeatherRecord) -> Seq<char> {
    "Weather Update for "@ + info.location_name@ + ": "@ + info.description@ + " "@ + tier_of(
        info.temperature as int,
    ).spec_emoji() + "\n            > Temperature: "@ + one_decimal(info.temperature as int)
        + "\u{b0}C\n            > Humidity: "@ + one_decimal(info.humidity as int)
        + "%\n            > Pressure: "@ + one_decimal(info.pressure as int)
        + " hPa\n            > Wind Speed: "@ + one_decimal(info.wind_speed as int) + " m/s"@
}

/// The report names the place and the description verbatim: the place right
/// after the opening words, the description after the colon that follows it.
pub proof fn lemma_report_names_place_and_description(info: WeatherRecord)
    ensures
        ({
            let r = report_of(info);
            let head = "Weather Update for "@;
            let n = (head.len() + info.location_name@.len()) as int;
            let p: int = n + 2;
            &&& r.subrange(0, head.len() as int) == head
            &&& r.subrange(head.len() as int, n) == info.location_name@
            &&& r.subrange(p, p + info.description@.len()) == info.description@
        }),
{
    let r = report_of(info);
    let head = "Weather Update for "@;
    let name = info.location_name@;
    let desc = info.description@;
    let rest = " "@ + tier_of(info.temperature as int).spec_emoji() + "\n            > Temperature: "@
        + one_decimal(info.temperature as int) + "\u{b0}C\n            > Humidity: "@ + one_decimal(
        info.humidity as int,
    ) + "%\n            > Pressure: "@ + one_decimal(info.pressure as int)
        + " hPa\n            > Wind Speed: "@ + one_decimal(info.wind_speed as int) + " m/s"@;
    reveal_strlit(": ");
    assert(r =~= head + name + ": "@ + desc + rest);
    let n = (head.len() + name.len()) as int;
    let p: int = n + 2;
    assert(r.subrange(0, head.len() as int) =~= head);
    assert(r.subrange(head.len() as int, n) =~= name);
    assert(r.subrange(p, p + desc.len()) =~= desc);
}

impl WeatherApp {
    /// A client that sends `api_token` with every request.
    pub fn initialize(api_token: &str) -> (r: WeatherApp)
        ensures
            r.api_token@ == api_token@,
    {
        WeatherApp { api_token: api_token.to_owned() }
    }

    /// The request for the current weather at `city` in `country`, in
    /// metric units. The parts are put in as they are, without escaping.
    pub fn request_url(&self, city: &str, country: &str) -> (r: String)
        ensures
            r@ == request_url_of(city@, country@, self.api_token@),
    {
        let mut url = String::from_str("http://api.openweathermap.org/data/2.5/weather?q=");
        url.append(city);
        url.append(",");
        url.append(country);
        url.append("&units=metric&appid=");
        url.append(self.api_token.as_str());
        url
    }

    /// Accepts a status in 200..=299 and turns any other into a provider error.
    pub fn check_status(status: u16) -> (r: Result<(), FetchError>)
        ensures
            r is Ok <==> is_success(status),
            !is_success(status) ==> r == Err::<(), FetchError>(FetchError::Provider(status)),
    {
        if 200 <= status && status <= 299 {
            Ok(())
        } else {
            Err(FetchError::Provider(status))
        }
    }

    /// Builds the record from the decoded parts of an answer. The first
    /// description of the list is the one kept; an empty list is refused.
    pub fn record_from_parts(
        descriptions: Vec<String>,
        location_name: String,
        temperature: i64,
        humidity: i64,
        pressure: i64,
        wind_speed: i64,
    ) -> (r: Result<WeatherRecord, FetchError>)
        ensures
            descriptions@.len() == 0 <==> r == Err::<WeatherRecord, FetchError>(
                FetchError::NoDescription,
            ),
            r is Ok <==> descriptions@.len() > 0,
            r matches Ok(w) ==> {
                &&& w.description@ == descriptions@[0]@
                &&& w.location_name@ == location_name@
                &&& w.temperature == temperature
                &&& w.humidity == humidity
                &&& w.pressure == pressure
                &&& w.wind_speed == wind_speed
            },
    {
        let mut descriptions = descriptions;
        if descriptions.len() == 0 {
            return Err(FetchError::NoDescription);
        }
        let description = descriptions.swap_remove(0);
        Ok(
            WeatherRecord {
                description,
                location_name,
                temperature,
                humidity,
                pressure,
                wind_speed,
            },
        )
    }

    /// The report block for a record, with the style of its description.
    pub fn render_weather_info(&self, weather_info: &WeatherRecord) -> (r: StyledText)
        ensures
            r.text@ == report_of(*weather_info),
            r.style == style_of(weather_info.description@),
    {
        let mut out = String::from_str("Weather Update for ");
        out.append(weather_info.location_name.as_str());
        out.append(": ");
        out.append(weather_info.description.as_str());
        out.append(" ");
        out.append(emoji_for_temperature(weather_info.temperature));
        out.append("\n            > Temperature: ");
        push_one_decimal(&mut out, weather_info.temperature);
        out.append("\u{b0}C\n            > Humidity: ");
        push_one_decimal(&mut out, weather_info.humidity);
        out.append("%\n            > Pressure: ");
        push_one_decimal(&mut out, weather_info.pressure);
        out.append(" hPa\n            > Wind Speed: ");
        push_one_decimal(&mut out, weather_info.wind_speed);
        out.append(" m/s");
        colorize_weather_output(weather_info.description.as_str(), out)
    }
}

} // verus!
