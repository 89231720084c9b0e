//! The decisions around fetching a forecast: which API key to use, whether a
//! reply can be decoded, and which location to ask for.
use vstd::prelude::*;

use crate::model::WeatherResponse;
use crate::text::{decimal, decimal_string, trim, trimmed};

verus! {

/// A forecast together with the name of the place it is for.
pub struct WeatherData<F> {
    pub weather: WeatherResponse<F>,
    pub location_name: String,
}

/// What a background fetch delivers: the forecast, or the message of what
/// went wrong.
pub type FetchResult<F> = Result<WeatherData<F>, String>;

/// The key taken from the `OWM_API_KEY` variable: its trimmed value, unless
/// that is empty or the variable is unset.
pub open spec fn key_from_variable(value: Option<Seq<char>>) -> Option<Seq<char>> {
    match value {
        Some(v) => if trimmed(v).len() > 0 {
            Some(trimmed(v))
        } else {
            None
        },
        None => None,
    }
}

/// The API key given by the `OWM_API_KEY` variable's value, if it gives one.
pub fn env_api_key(value: Option<&str>) -> (r: Option<String>)
    ensures
        match value {
            Some(v) => match r {
                Some(k) => key_from_variable(Some(v@)) == Some(k@),
                None => key_from_variable(Some(v@)) is None,
            },
            None => r is None,
        },
{
    match value {
        Some(v) => {
            let key = trim(v);
            if key.unicode_len() > 0 {
                Some(String::from_str(key))
            } else {
                None
            }
        },
        None => None,
    }
}

/// The characters of an optional string slice.
pub open spec fn opt_chars(value: Option<&str>) -> Option<Seq<char>> {
    match value {
        Some(v) => Some(v@),
        None => None,
    }
}

/// The key, or the message, that the key file's contents give.
pub open spec fn key_file_outcome(contents: Option<String>, path: Seq<char>) -> Result<Seq<char>, Seq<char>> {
    match contents {
        None => Err(no_key_message(path)),
        Some(c) => if trimmed(c@).len() == 0 {
            Err(empty_key_file_message(path))
        } else {
            Ok(trimmed(c@))
        },
    }
}

/// The characters of a key lookup's outcome.
pub open spec fn outcome_chars(r: Result<String, String>) -> Result<Seq<char>, Seq<char>> {
    match r {
        Ok(k) => Ok(k@),
        Err(m) => Err(m@),
    }
}

/// Resolves the OpenWeatherMap API key: the trimmed value of the
/// `OWM_API_KEY` variable when it holds more than white space; otherwise the
/// trimmed contents of the key file at `path`, read only then, with an error
/// when it cannot be read or holds only white space. The reader needs to be
/// callable only where the variable gives no key: it is not called otherwise.
pub fn api_key_from<R: FnOnce() -> Option<String>>(
    variable: Option<&str>,
    read_key_file: R,
    path: &str,
) -> (r: Result<String, String>)
    requires
        key_from_variable(opt_chars(variable)) is None ==> read_key_file.requires(()),
    ensures
        key_from_variable(opt_chars(variable)) matches Some(k) ==> outcome_chars(r) == Ok::<Seq<char>, Seq<char>>(k),
        key_from_variable(opt_chars(variable)) is None ==> exists|contents: Option<String>|
            read_key_file.ensures((), contents) && outcome_chars(r) == key_file_outcome(contents, path@),
{
    if let Some(key) = env_api_key(variable) {
        return Ok(key);
    }
    let contents = read_key_file();
    let r = match &contents {
        Some(c) => file_api_key(Some(c.as_str()), path),
        None => file_api_key(None, path),
    };
    assert(read_key_file.ensures((), contents) && outcome_chars(r) == key_file_outcome(contents, path@));
    r
}

/// The message when neither the variable nor the key file gives a key.
pub open spec fn no_key_message(path: Seq<char>) -> Seq<char> {
    "No OpenWeatherMap API key. Set OWM_API_KEY or write it to "@ + path
}

/// The message when the key file holds only white space.
pub open spec fn empty_key_file_message(path: Seq<char>) -> Seq<char> {
    "API key file "@ + path + " is empty"@
}

/// The API key read from the key file at `path`: its trimmed contents; an
/// error when the file could not be read or holds only white space.
pub fn file_api_key(contents: Option<&str>, path: &str) -> (r: Result<String, String>)
    ensures
        match contents {
            None => r matches Err(m) && m@ == no_key_message(path@),
            Some(c) => if trimmed(c@).len() == 0 {
                r matches Err(m) && m@ == empty_key_file_message(path@)
            } else {
                r matches Ok(k) && k@ == trimmed(c@)
            },
        },
{
    match contents {
        None => {
            let mut m = String::from_str("No OpenWeatherMap API key. Set OWM_API_KEY or write it to ");
            m.append(path);
            Err(m)
        },
        Some(c) => {
            let key = trim(c);
            if key.unicode_len() == 0 {
                let mut m = String::from_str("API key file ");
                m.append(path);
                m.append(" is empty");
                Err(m)
            } else {
                Ok(String::from_str(key))
            }
        },
    }
}

/// Whether an HTTP status is a success (200 to 299), as `StatusCode::is_success` has it.
pub open spec fn is_success(status: u16) -> bool {
    200 <= status < 300
}

/// The message for a reply that is not a success: the status and the trimmed body.
pub open spec fn reply_error_message(status: u16, body: Seq<char>) -> Seq<char> {
    "OpenWeatherMap "@ + decimal(status as nat) + ": "@ + trimmed(body)
}

/// Accepts a reply with a success status for decoding; any other status is an
/// error naming the status and the trimmed body.
pub fn check_reply(status: u16, body: &str) -> (r: Result<(), String>)
    ensures
        r is Ok <==> is_success(status),
        r matches Err(m) ==> m@ == reply_error_message(status, body@),
{
    if 200 <= status && status < 300 {
        Ok(())
    } else {
        let mut m = String::from_str("OpenWeatherMap ");
        let code = decimal_string(status as u64);
        m.append(code.as_str());
        m.append(": ");
        m.append(trim(body));
        Err(m)
    }
}

/// Whether a search query asks for the location found from the IP address:
/// a query of only white space does.
pub fn wants_ip_location(query: &str) -> (r: bool)
    ensures
        r == (trimmed(query@).len() == 0),
{
    trim(query).unicode_len() == 0
}

/// The message when a place name has no match.
pub open spec fn no_match_message() -> Seq<char> {
    "No matching location found"@
}

/// The first match of a place-name search, or an error when there is none.
pub fn first_match<T: Copy>(matches: &Vec<T>) -> (r: Result<T, String>)
    ensures
        matches@.len() > 0 ==> r == Ok::<T, String>(matches@[0]),
        matches@.len() == 0 ==> (r matches Err(m) && m@ == no_match_message()),
{
    if matches.len() > 0 {
        Ok(matches[0])
    } else {
        Err(String::from_str("No matching location found"))
    }
}

} // verus!
