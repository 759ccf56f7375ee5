use vstd::prelude::*;

use crate::text::same_text;

verus! {

/// How a weather report is colored on the terminal.
#[derive(Clone, Copy, Debug, PartialEq, Eq, Structural)]
pub enum Style {
    BrightYellow,
    BrightBlue,
    Dimmed,
    BrightCyan,
    Normal,
}

/// The style for a provider description: an exact, case-sensitive match
/// against the known phrases, checked rule by rule; anything else is left
/// unstyled.
pub open spec fn style_of(description: Seq<char>) -> Style {
    if description == "clear sky"@ {
        Style::BrightYellow
    } else if description == "few clouds"@ || description == "scattered clouds"@
        || description == "broken clouds"@ {
        Style::BrightBlue
    } else if description == "overcast clouds"@ || description == "mist"@ || description
        == "haze"@ || description == "smoke"@ || description == "dust"@ || description
        == "fog"@ {
        Style::Dimmed
    } else if description == "rain"@ || description == "thunderstorm"@ || description
        == "snow"@ {
        Style::BrightCyan
    } else {
        Style::Normal
    }
}

/// Picks the style for a provider description.
pub fn style_for_description(description: &str) -> (r: Style)
    ensures
        r == style_of(description@),
{
    if same_text(description, "clear sky") {
        Style::BrightYellow
    } else if same_text(description, "few clouds") || same_text(description, "scattered clouds")
        || same_text(description, "broken clouds") {
        Style::BrightBlue
    } else if same_text(description, "overcast clouds") || same_text(description, "mist")
        || same_text(description, "haze") || same_text(description, "smoke") || same_text(
        description,
        "dust",
    ) || same_text(description, "fog") {
        Style::Dimmed
    } else if same_text(description, "rain") || same_text(description, "thunderstorm")
        || same_text(description, "snow") {
        Style::BrightCyan
    } else {
        Style::Normal
    }
}

/// Text together with the style it is shown in.
#[derive(Debug, PartialEq, Eq)]
pub struct StyledText {
    pub text: String,
    pub style: Style,
}

/// Pairs a report with the style that its weather description calls for.
pub fn colorize_weather_output(description: &str, weather_text: String) -> (r: StyledText)
    ensures
        r.text@ == weather_text@,
        r.style == style_of(description@),
{
    StyledText { text: weather_text, style: style_for_description(description) }
}

} // verus!
