//! The weather record and the lines that present it.
use crate::text::{decimal, decimal_text, lines_view, tenths, tenths_text};
use vstd::prelude::*;

verus! {

/// Where the conditions were observed.
pub struct Location {
    pub name: String,
    pub region: String,
    pub country: String,
}

/// The current conditions.
///
/// Temperatures are held in tenths of a degree Celsius, the precision that is
/// displayed.
pub struct Current {
    pub temp_tenths: i64,
    pub feels_like_tenths: i64,
    pub humidity: i32,
    pub condition: String,
}

/// The part of the weather service's answer that is displayed.
pub struct WeatherResult {
    pub location: Location,
    pub current: Current,
}

/// The lines printed before the city is read.
pub open spec fn banner_lines() -> Seq<Seq<char>> {
    seq![
        "Aplicaci\u{f3}n de Clima"@,
        "-----------------"@,
        "Ingresa el nombre de una ciudad:"@,
    ]
}

/// The lines that present a weather record: a blank line, then one labelled
/// line per field.
pub open spec fn weather_lines(w: WeatherResult) -> Seq<Seq<char>> {
    seq![
        ""@,
        "Clima actual en "@ + w.location.name@ + ":"@,
        "Pa\u{ed}s: "@ + w.location.country@,
        "Regi\u{f3}n: "@ + w.location.region@,
        "Temperatura: "@ + tenths_text(w.current.temp_tenths as int) + "\u{b0}C"@,
        "Sensaci\u{f3}n t\u{e9}rmica: "@ + tenths_text(w.current.feels_like_tenths as int)
            + "\u{b0}C"@,
        "Humedad: "@ + decimal_text(w.current.humidity as int) + "%"@,
        "Condici\u{f3}n: "@ + w.current.condition@,
    ]
}

/// The line that reports a failed fetch.
pub open spec fn error_line(message: Seq<char>) -> Seq<char> {
    "Error: "@ + message
}

/// The lines printed once the fetch has ended, well or not.
pub open spec fn outcome_lines(outcome: Result<WeatherResult, String>) -> Seq<Seq<char>> {
    match outcome {
        Ok(w) => weather_lines(w),
        Err(m) => seq![error_line(m@)],
    }
}

/// The lines printed before the city is read.
pub fn banner() -> (r: Vec<String>)
    ensures
        lines_view(r@) == banner_lines(),
{
    let mut r: Vec<String> = Vec::new();
    r.push(String::from_str("Aplicaci\u{f3}n de Clima"));
    r.push(String::from_str("-----------------"));
    r.push(String::from_str("Ingresa el nombre de una ciudad:"));
    assert(lines_view(r@) =~= banner_lines());
    r
}

/// A line made of a label and a value.
fn labelled(label: &str, value: &str) -> (r: String)
    ensures
        r@ == label@ + value@,
{
    let mut line = String::from_str(label);
    line.append(value);
    line
}

/// A line made of a label, a value and a unit.
fn measured(label: &str, value: &str, unit: &str) -> (r: String)
    ensures
        r@ == label@ + value@ + unit@,
{
    let mut line = labelled(label, value);
    line.append(unit);
    line
}

/// The lines that present a weather record.
pub fn render(w: &WeatherResult) -> (r: Vec<String>)
    ensures
        lines_view(r@) == weather_lines(*w),
{
    let mut r: Vec<String> = Vec::new();
    r.push(String::new());
    r.push(measured("Clima actual en ", w.location.name.as_str(), ":"));
    r.push(labelled("Pa\u{ed}s: ", w.location.country.as_str()));
    r.push(labelled("Regi\u{f3}n: ", w.location.region.as_str()));
    let temp = tenths(w.current.temp_tenths);
    r.push(measured("Temperatura: ", temp.as_str(), "\u{b0}C"));
    let feels = tenths(w.current.feels_like_tenths);
    r.push(measured("Sensaci\u{f3}n t\u{e9}rmica: ", feels.as_str(), "\u{b0}C"));
    let humidity = decimal(w.current.humidity as i64);
    r.push(measured("Humedad: ", humidity.as_str(), "%"));
    r.push(labelled("Condici\u{f3}n: ", w.current.condition.as_str()));
    proof {
        reveal_strlit("");
        assert(""@ =~= Seq::<char>::empty());
    }
    assert(lines_view(r@) =~= weather_lines(*w));
    r
}

/// The lines printed once the fetch has ended: the record on success, a
/// single error line carrying the failure's message otherwise.
pub fn report(outcome: &Result<WeatherResult, String>) -> (r: Vec<String>)
    ensures
        lines_view(r@) == outcome_lines(*outcome),
{
    match outcome {
        Ok(w) => render(w),
        Err(m) => {
            let mut r: Vec<String> = Vec::new();
            r.push(labelled("Error: ", m.as_str()));
            assert(lines_view(r@) =~= outcome_lines(*outcome));
            r
        },
    }
}

} // verus!
