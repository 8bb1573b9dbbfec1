//! The city query, the request URL and the conditions that end the program.
use crate::config::{config_lines, debug_on};
use crate::text::{is_trim_of, is_white_space, lines_view, trim};
use vstd::prelude::*;

verus! {

/// The URL that asks the weather service for the current conditions in
/// `city`, authenticated by `key`, with descriptions in Spanish.
///
/// Neither value is escaped.
pub open spec fn url_for(key: Seq<char>, city: Seq<char>) -> Seq<char> {
    "https://api.weatherapi.com/v1/current.json?key="@ + key + "&q="@ + city + "&lang=es"@
}

/// The diagnostic line that echoes a request URL.
pub open spec fn url_echo(url: Seq<char>) -> Seq<char> {
    "DEBUG: Consultando URL: "@ + url
}

/// The city query term typed on a line of input: the line, trimmed.
pub fn city_query(line: &str) -> (r: String)
    ensures
        is_trim_of(line@, r@),
{
    String::from_str(trim(line))
}

/// Builds the request URL for `city` with the API key `api_key`.
pub fn query_url(api_key: &str, city: &str) -> (r: String)
    ensures
        r@ == url_for(api_key@, city@),
{
    let mut url = String::from_str("https://api.weatherapi.com/v1/current.json?key=");
    url.append(api_key);
    url.append("&q=");
    url.append(city);
    url.append("&lang=es");
    url
}

/// A condition under which the program stops at once.
#[derive(Debug, Clone, Copy, PartialEq, Eq, Structural)]
pub enum Fatal {
    /// The API key is in neither the environment nor an environment file.
    MissingApiKey,
    /// Standard input could not be read.
    UnreadableInput,
}

/// The message that reports a fatal condition.
pub open spec fn fatal_message(f: Fatal) -> Seq<char> {
    match f {
        Fatal::MissingApiKey => "No se encontr\u{f3} la variable WEATHER_API_KEY en el archivo .env"@,
        Fatal::UnreadableInput => "Error al leer la entrada"@,
    }
}

impl Fatal {
    /// The message that reports this condition.
    pub fn message(&self) -> (r: String)
        ensures
            r@ == fatal_message(*self),
    {
        match self {
            Fatal::MissingApiKey => String::from_str(
                "No se encontr\u{f3} la variable WEATHER_API_KEY en el archivo .env",
            ),
            Fatal::UnreadableInput => String::from_str("Error al leer la entrada"),
        }
    }
}

/// A request ready to be sent: its URL and the diagnostic lines printed
/// before it goes out.
pub struct Request {
    pub url: String,
    pub diagnostics: Vec<String>,
}

/// The diagnostic lines printed before a request to `url`.
pub open spec fn request_diagnostics(url: Seq<char>, debug: bool) -> Seq<Seq<char>> {
    if debug {
        seq![url_echo(url)]
    } else {
        seq![]
    }
}

/// Prepares the request for `city`.
///
/// Without an API key there is nothing to send: the program must stop before
/// any network activity. The city is not checked; an empty one is sent as an
/// empty query term.
pub fn plan_request(api_key: Option<String>, city: &str, debug: bool) -> (r: Result<
    Request,
    Fatal,
>)
    ensures
        api_key is None ==> r == Err::<Request, Fatal>(Fatal::MissingApiKey),
        api_key matches Some(k) ==> r matches Ok(q) && q.url@ == url_for(k@, city@)
            && lines_view(q.diagnostics@) == request_diagnostics(q.url@, debug),
{
    match api_key {
        None => Err(Fatal::MissingApiKey),
        Some(k) => {
            let url = query_url(k.as_str(), city);
            let mut diagnostics: Vec<String> = Vec::new();
            if debug {
                let mut line = String::from_str("DEBUG: Consultando URL: ");
                line.append(url.as_str());
                diagnostics.push(line);
            }
            assert(lines_view(diagnostics@) =~= request_diagnostics(url@, debug));
            Ok(Request { url, diagnostics })
        },
    }
}

/// Diagnostics appear only when the debug variable is exactly `true`: then the
/// configuration report gains its two debug lines and the request URL is
/// echoed; with any other value, or none, both are left out.
pub proof fn lemma_diagnostics_follow_debug_flag(
    flag: Option<Seq<char>>,
    mode: Seq<char>,
    level: Option<Seq<char>>,
    url: Seq<char>,
)
    ensures
        flag == Some("true"@) ==> config_lines(mode, debug_on(flag), level).len() == 3
            && request_diagnostics(url, debug_on(flag)) == seq![url_echo(url)],
        flag != Some("true"@) ==> config_lines(mode, debug_on(flag), level).len() == 1
            && request_diagnostics(url, debug_on(flag)).len() == 0,
{
}

/// A line of input that is empty, or white space only, gives an empty query
/// term, and the request is still made with it.
pub proof fn lemma_blank_line_gives_empty_query(line: Seq<char>, query: Seq<char>, key: Seq<char>)
    requires
        forall|k: int| 0 <= k < line.len() ==> is_white_space(#[trigger] line[k]),
        is_trim_of(line, query),
    ensures
        query.len() == 0,
        url_for(key, query) == url_for(key, Seq::empty()),
{
    let (i, j) = choose|i: int, j: int|
        {
            &&& 0 <= i <= j <= line.len()
            &&& query == line.subrange(i, j)
            &&& forall|k: int| 0 <= k < i ==> is_white_space(#[trigger] line[k])
            &&& forall|k: int| j <= k < line.len() ==> is_white_space(#[trigger] line[k])
            &&& i < j ==> !is_white_space(line[i]) && !is_white_space(line[j - 1])
        };
    assert(i == j);
    assert(query =~= Seq::empty());
}

} // verus!
