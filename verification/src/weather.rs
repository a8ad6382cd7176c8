//! The weather readout of the status screen.
//!
//! The weather service answers with a JSON document. The readout takes the
//! condition text and the humidity from it; a field that is missing or of
//! another kind gets a default. The temperature is a decimal fraction and
//! comes from the caller as the text to show.

use vstd::prelude::*;

verus! {

/// Where the document holds the text of the weather condition.
pub open spec fn condition_pointer() -> Seq<char> {
    "/current/condition/text"@
}

/// Where the document holds the relative humidity in percent.
pub open spec fn humidity_pointer() -> Seq<char> {
    "/current/humidity"@
}

/// The condition shown when the document names none.
pub open spec fn unknown_condition() -> Seq<char> {
    "Unknown"@
}

/// Whether `serde_json::from_str` accepts `document` as a JSON value.
pub uninterp spec fn json_parses(document: Seq<char>) -> bool;

/// The string that `serde_json` finds in `document` at the JSON pointer
/// `pointer`: `None` when the document does not parse, holds nothing there,
/// or holds something other than a string.
pub uninterp spec fn json_text_at(document: Seq<char>, pointer: Seq<char>) -> Option<Seq<char>>;

/// The number that `serde_json` finds in `document` at the JSON pointer
/// `pointer`: `None` when the document does not parse, holds nothing there,
/// or holds something other than an integer that fits 64 bits unsigned.
pub uninterp spec fn json_u64_at(document: Seq<char>, pointer: Seq<char>) -> Option<u64>;

/// Why a document gave no weather report.
#[derive(Clone, Copy, Debug, PartialEq, Eq, Structural)]
pub enum WeatherError {
    /// The document is not JSON.
    Malformed,
}

/// What the status screen shows of the weather.
#[derive(Debug, PartialEq, Eq)]
pub struct WeatherReport {
    /// The temperature in degrees Celsius, as the text to show.
    pub temperature: String,
    /// The weather condition in words.
    pub condition: String,
    /// The relative humidity in percent.
    pub humidity: u64,
}

/// The mathematical view of a weather report: the texts by their characters.
pub struct WeatherView {
    pub temperature: Seq<char>,
    pub condition: Seq<char>,
    pub humidity: u64,
}

impl View for WeatherReport {
    type V = WeatherView;

    open spec fn view(&self) -> WeatherView {
        WeatherView {
            temperature: self.temperature@,
            condition: self.condition@,
            humidity: self.humidity,
        }
    }
}

/// The report made of what a document held: a missing condition reads
/// "Unknown", a missing humidity reads zero.
pub open spec fn report_of(
    temperature: Seq<char>,
    condition: Option<Seq<char>>,
    humidity: Option<u64>,
) -> WeatherView {
    WeatherView {
        temperature,
        condition: match condition {
            Some(text) => text,
            None => unknown_condition(),
        },
        humidity: match humidity {
            Some(percent) => percent,
            None => 0,
        },
    }
}

/// The report that a document gives, if it is JSON.
pub open spec fn weather_in(document: Seq<char>, temperature: Seq<char>) -> Result<
    WeatherView,
    WeatherError,
> {
    if json_parses(document) {
        Ok(
            report_of(
                temperature,
                json_text_at(document, condition_pointer()),
                json_u64_at(document, humidity_pointer()),
            ),
        )
    } else {
        Err(WeatherError::Malformed)
    }
}

/// Asks `serde_json::from_str` whether `document` is a JSON value.
#[verifier::external_body]
fn parses(document: &str) -> (ok: bool)
    ensures
        ok == json_parses(document@),
{
    serde_json::from_str::<serde_json::Value>(document).is_ok()
}

/// Parses `document` with `serde_json::from_str`, looks up `pointer` with
/// `Value::pointer` and reads what is there with `Value::as_str`. The answer
/// depends on the two texts alone.
#[verifier::external_body]
fn text_at(document: &str, pointer: &str) -> (found: Option<String>)
    ensures
        match found {
            Some(text) => json_text_at(document@, pointer@) == Some(text@),
            None => json_text_at(document@, pointer@) is None,
        },
{
    match serde_json::from_str::<serde_json::Value>(document) {
        Ok(value) => match value.pointer(pointer) {
            Some(held) => match held.as_str() {
                Some(text) => Some(text.to_string()),
                None => None,
            },
            None => None,
        },
        Err(_) => None,
    }
}

/// Parses `document` with `serde_json::from_str`, looks up `pointer` with
/// `Value::pointer` and reads what is there with `Value::as_u64`. The answer
/// depends on the two texts alone.
#[verifier::external_body]
fn u64_at(document: &str, pointer: &str) -> (found: Option<u64>)
    ensures
        found == json_u64_at(document@, pointer@),
{
    match serde_json::from_str::<serde_json::Value>(document) {
        Ok(value) => match value.pointer(pointer) {
            Some(held) => held.as_u64(),
            None => None,
        },
        Err(_) => None,
    }
}

/// Makes the report of what a document held, with the defaults for what it
/// did not hold.
pub fn report_from(temperature: &str, condition: Option<String>, humidity: Option<u64>) -> (report:
    WeatherReport)
    ensures
        report@ == report_of(
            temperature@,
            match condition {
                Some(text) => Some(text@),
                None => None,
            },
            humidity,
        ),
{
    WeatherReport {
        temperature: String::from_str(temperature),
        condition: match condition {
            Some(text) => text,
            None => String::from_str("Unknown"),
        },
        humidity: match humidity {
            Some(percent) => percent,
            None => 0,
        },
    }
}

/// Reads the weather report out of the answer of the weather service.
pub fn read_weather(document: &str, temperature: &str) -> (outcome: Result<
    WeatherReport,
    WeatherError,
>)
    ensures
        match outcome {
            Ok(report) => weather_in(document@, temperature@) == Ok::<WeatherView, WeatherError>(
                report@,
            ),
            Err(error) => weather_in(document@, temperature@) == Err::<WeatherView, WeatherError>(
                error,
            ),
        },
{
    if !parses(document) {
        return Err(WeatherError::Malformed);
    }
    let condition: Option<String> = text_at(document, "/current/condition/text");
    let humidity: Option<u64> = u64_at(document, "/current/humidity");
    Ok(report_from(temperature, condition, humidity))
}

} // verus!
