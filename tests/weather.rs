use weather_app::client::{FetchError, WeatherApp, WeatherRecord};
use weather_app::session::{error_message, should_continue, step, Action, Event, Stage};
use weather_app::style::{colorize_weather_output, style_for_description, Style};
use weather_app::symbol::{emoji_for_temperature, temperature_tier, TemperatureTier};
use weather_app::text::{push_decimal, push_one_decimal, same_text};

fn record(description: &str, temperature: i64) -> WeatherRecord {
    WeatherRecord {
        description: description.to_string(),
        location_name: "London".to_string(),
        temperature,
        humidity: 8150,
        pressure: 101325,
        wind_speed: 412,
    }
}

fn one_decimal(hundredths: i64) -> String {
    let mut s = String::new();
    push_one_decimal(&mut s, hundredths);
    s
}

#[test]
fn tier_thresholds_are_half_open() {
    assert_eq!(temperature_tier(i64::MIN), TemperatureTier::Freezing);
    assert_eq!(temperature_tier(-1), TemperatureTier::Freezing);
    assert_eq!(temperature_tier(0), TemperatureTier::Cold);
    assert_eq!(temperature_tier(999), TemperatureTier::Cold);
    assert_eq!(temperature_tier(1000), TemperatureTier::Mild);
    assert_eq!(temperature_tier(1999), TemperatureTier::Mild);
    assert_eq!(temperature_tier(2000), TemperatureTier::Warm);
    assert_eq!(temperature_tier(2999), TemperatureTier::Warm);
    assert_eq!(temperature_tier(3000), TemperatureTier::Hot);
    assert_eq!(temperature_tier(i64::MAX), TemperatureTier::Hot);
}

#[test]
fn emoji_per_tier() {
    assert_eq!(emoji_for_temperature(-500), "\u{2744}\u{fe0f}");
    assert_eq!(emoji_for_temperature(0), "\u{2601}\u{fe0f}");
    assert_eq!(emoji_for_temperature(1504), "\u{26c5}");
    assert_eq!(emoji_for_temperature(2500), "\u{1f324}\u{fe0f}");
    assert_eq!(emoji_for_temperature(3000), "\u{1f525}");
}

#[test]
fn known_descriptions_get_their_style() {
    assert_eq!(style_for_description("clear sky"), Style::BrightYellow);
    for d in ["few clouds", "scattered clouds", "broken clouds"] {
        assert_eq!(style_for_description(d), Style::BrightBlue);
    }
    for d in ["overcast clouds", "mist", "haze", "smoke", "dust", "fog"] {
        assert_eq!(style_for_description(d), Style::Dimmed);
    }
    for d in ["rain", "thunderstorm", "snow"] {
        assert_eq!(style_for_description(d), Style::BrightCyan);
    }
}

#[test]
fn other_descriptions_are_unstyled() {
    assert_eq!(style_for_description("Clear Sky"), Style::Normal);
    assert_eq!(style_for_description("clear sky "), Style::Normal);
    assert_eq!(style_for_description("light rain"), Style::Normal);
    assert_eq!(style_for_description(""), Style::Normal);
}

#[test]
fn colorize_keeps_text() {
    let r = colorize_weather_output("mist", "block".to_string());
    assert_eq!(r.text, "block");
    assert_eq!(r.style, Style::Dimmed);
}

#[test]
fn same_text_compares_characters() {
    assert!(same_text("fog", "fog"));
    assert!(!same_text("fog", "Fog"));
    assert!(!same_text("fog", "fo"));
    assert!(same_text("", ""));
}

#[test]
fn decimal_digits() {
    let mut s = "n=".to_string();
    push_decimal(&mut s, 0);
    assert_eq!(s, "n=0");
    let mut s = String::new();
    push_decimal(&mut s, 18446744073709551615);
    assert_eq!(s, "18446744073709551615");
}

#[test]
fn one_decimal_rounding() {
    assert_eq!(one_decimal(1504), "15.0");
    assert_eq!(one_decimal(1505), "15.1");
    assert_eq!(one_decimal(1506), "15.1");
    assert_eq!(one_decimal(0), "0.0");
    assert_eq!(one_decimal(-4), "-0.0");
    assert_eq!(one_decimal(-15), "-0.1");
    assert_eq!(one_decimal(-16), "-0.2");
    assert_eq!(one_decimal(-250), "-2.5");
    assert_eq!(one_decimal(101325), "1013.3");
    assert_eq!(one_decimal(i64::MAX), "92233720368547758.1");
    assert_eq!(one_decimal(i64::MIN), "-92233720368547758.1");
}

#[test]
fn initialize_keeps_token() {
    let app = WeatherApp::initialize("k3y");
    assert_eq!(app.api_token, "k3y");
}

#[test]
fn request_url_fills_template() {
    let app = WeatherApp::initialize("abc");
    assert_eq!(
        app.request_url("Paris", "FR"),
        "http://api.openweathermap.org/data/2.5/weather?q=Paris,FR&units=metric&appid=abc"
    );
    let empty = WeatherApp::initialize("");
    assert_eq!(
        empty.request_url("", ""),
        "http://api.openweathermap.org/data/2.5/weather?q=,&units=metric&appid="
    );
}

#[test]
fn status_check() {
    assert_eq!(WeatherApp::check_status(200), Ok(()));
    assert_eq!(WeatherApp::check_status(299), Ok(()));
    assert_eq!(WeatherApp::check_status(199), Err(FetchError::Provider(199)));
    assert_eq!(WeatherApp::check_status(300), Err(FetchError::Provider(300)));
    assert_eq!(WeatherApp::check_status(401), Err(FetchError::Provider(401)));
}

#[test]
fn empty_description_list_fails() {
    let r = WeatherApp::record_from_parts(Vec::new(), "Oslo".to_string(), 1, 2, 3, 4);
    assert_eq!(r, Err(FetchError::NoDescription));
}

#[test]
fn first_description_is_kept() {
    let r = WeatherApp::record_from_parts(
        vec!["rain".to_string(), "mist".to_string()],
        "Oslo".to_string(),
        -120,
        9000,
        99800,
        350,
    );
    assert_eq!(
        r,
        Ok(WeatherRecord {
            description: "rain".to_string(),
            location_name: "Oslo".to_string(),
            temperature: -120,
            humidity: 9000,
            pressure: 99800,
            wind_speed: 350,
        })
    );
}

#[test]
fn render_block() {
    let app = WeatherApp::initialize("");
    let r = app.render_weather_info(&record("clear sky", 1504));
    assert_eq!(
        r.text,
        "Weather Update for London: clear sky \u{26c5}\n            > Temperature: 15.0\u{b0}C\n            > Humidity: 81.5%\n            > Pressure: 1013.3 hPa\n            > Wind Speed: 4.1 m/s"
    );
    assert_eq!(r.style, Style::BrightYellow);
}

#[test]
fn render_unknown_description_unstyled() {
    let app = WeatherApp::initialize("");
    let r = app.render_weather_info(&record("Light Drizzle", -300));
    assert!(r.text.starts_with("Weather Update for London: Light Drizzle \u{2744}\u{fe0f}\n"));
    assert!(r.text.contains("> Temperature: -3.0\u{b0}C"));
    assert_eq!(r.style, Style::Normal);
}

#[test]
fn continuation_answers() {
    for a in ["yes", "Yes", "YES", "yEs", "yes\n", "  yes \r\n"] {
        assert!(should_continue(a), "{:?}", a);
    }
    for a in ["no", "", "y", "ye", "yess", "y es", "\n", "oui"] {
        assert!(!should_continue(a), "{:?}", a);
    }
}

#[test]
fn error_lines() {
    assert_eq!(
        error_message(&FetchError::Network("connection refused".to_string())),
        "Error retrieving weather information: connection refused"
    );
    assert_eq!(
        error_message(&FetchError::Provider(404)),
        "Error retrieving weather information: the provider answered with status 404"
    );
    assert_eq!(
        error_message(&FetchError::NoDescription),
        "Error retrieving weather information: the answer holds no weather description"
    );
}

#[test]
fn network_failure_goes_to_confirmation() {
    let app = WeatherApp::initialize("");
    let (stage, action) = step(
        &app,
        Stage::Querying,
        Event::FetchFailed(FetchError::Network("dns error".to_string())),
    );
    assert_eq!(stage, Stage::Confirming);
    assert_eq!(
        action,
        Action::Failure("Error retrieving weather information: dns error".to_string())
    );
}

#[test]
fn fetched_record_is_reported() {
    let app = WeatherApp::initialize("");
    let (stage, action) = step(&app, Stage::Querying, Event::Fetched(record("fog", 2999)));
    assert_eq!(stage, Stage::Confirming);
    match action {
        Action::Report(t) => {
            assert!(t.text.starts_with("Weather Update for London: fog \u{1f324}\u{fe0f}"));
            assert_eq!(t.style, Style::Dimmed);
        }
        other => panic!("unexpected {:?}", other),
    }
}

#[test]
fn answers_drive_the_loop() {
    let app = WeatherApp::initialize("");
    for a in ["yes", "Yes", "YES"] {
        let r = step(&app, Stage::Confirming, Event::Answered(a.to_string()));
        assert_eq!(r, (Stage::Querying, Action::Prompt));
    }
    for a in ["no", "", "y"] {
        let r = step(&app, Stage::Confirming, Event::Answered(a.to_string()));
        assert_eq!(r, (Stage::Terminated, Action::Farewell));
    }
}

#[test]
fn events_out_of_turn_are_ignored() {
    let app = WeatherApp::initialize("");
    let r = step(&app, Stage::Querying, Event::Answered("yes".to_string()));
    assert_eq!(r, (Stage::Querying, Action::Ignore));
    let r = step(&app, Stage::Confirming, Event::FetchFailed(FetchError::NoDescription));
    assert_eq!(r, (Stage::Confirming, Action::Ignore));
    let r = step(&app, Stage::Terminated, Event::Answered("yes".to_string()));
    assert_eq!(r, (Stage::Terminated, Action::Ignore));
}
