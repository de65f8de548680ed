//! How the backend's replies become the dashboard's data.

use vstd::prelude::*;
use reqwest::StatusCode;

verus! {

/// What one request to the backend gave.
pub enum Fetched<T> {
    /// The request did not reach the backend.
    Unreachable,
    /// The backend answered with a status outside the success range, whose
    /// code is given.
    Rejected(u16),
    /// The backend answered with success and a body that decoded.
    Decoded(T),
    /// The backend answered with success and a body that did not decode.
    Undecodable,
}

/// The reason phrase that `StatusCode::canonical_reason` gives for a status
/// code: the registered phrase, or none for an unregistered code.
pub uninterp spec fn canonical_reason_of(code: u16) -> Option<Seq<char>>;

/// The decimal digit `d` as a character.
pub open spec fn digit_char(d: int) -> char {
    (('0' as int) + d) as char
}

/// The three decimal digits of a status code from 100 to 999.
pub open spec fn code_digits(code: u16) -> Seq<char> {
    let n = code as int;
    seq![digit_char(n / 100), digit_char((n / 10) % 10), digit_char(n % 10)]
}

/// The text a status code is displayed as: its digits, a space, and its
/// reason phrase, or a placeholder for an unregistered code.
pub open spec fn status_line_text(code: u16) -> Seq<char> {
    code_digits(code) + seq![' '] + match canonical_reason_of(code) {
        Some(reason) => reason,
        None => "<unknown status code>"@,
    }
}

/// `reqwest::StatusCode`'s `Display`, on the status made from `code` by
/// `StatusCode::from_u16`: the code's three digits, a space, and the
/// canonical reason phrase or "<unknown status code>". `from_u16` accepts
/// exactly the codes from 100 to 999.
#[verifier::external_body]
fn status_line(code: u16) -> (line: String)
    requires
        100 <= code <= 999,
    ensures
        line@ == code_digits(code) + seq![' '] + match canonical_reason_of(code) {
            Some(reason) => reason,
            None => "<unknown status code>"@,
        },
{
    match StatusCode::from_u16(code) {
        Ok(status) => status.to_string(),
        Err(err) => err.to_string(),
    }
}

/// Whether a reply with this status code is a success, whose body is read:
/// codes from 200 to 299.
pub fn accepts_body(code: u16) -> (ok: bool)
    ensures
        ok == (200 <= code <= 299),
{
    200 <= code && code <= 299
}

/// The list a reply gives: the decoded one, or the empty list for any other
/// reply.
pub fn list_or_empty<T>(reply: Fetched<Vec<T>>) -> (items: Vec<T>)
    ensures
        items@ == (match reply {
            Fetched::Decoded(v) => v@,
            _ => Seq::<T>::empty(),
        }),
{
    match reply {
        Fetched::Decoded(v) => v,
        _ => Vec::new(),
    }
}

/// The value a reply gives: the decoded one, or none for any other reply.
pub fn value_or_none<T>(reply: Fetched<T>) -> (value: Option<T>)
    ensures
        value == (match reply {
            Fetched::Decoded(v) => Some(v),
            _ => None,
        }),
{
    match reply {
        Fetched::Decoded(v) => Some(v),
        _ => None,
    }
}

/// The error a reply to the Kp history request reports: that the backend
/// could not be reached, that it answered with an error status, or nothing.
pub open spec fn history_error_text<T>(reply: Fetched<T>) -> Option<Seq<char>> {
    match reply {
        Fetched::Unreachable => Some("Cannot reach API"@),
        Fetched::Rejected(code) => Some("API error: "@ + status_line_text(code)),
        _ => None,
    }
}

/// The error that the reply to the Kp history request gives the dashboard.
pub fn history_error<T>(reply: &Fetched<T>) -> (err: Option<String>)
    requires
        *reply matches Fetched::Rejected(code) ==> 100 <= code <= 999,
    ensures
        match history_error_text(*reply) {
            Some(text) => err matches Some(e) && e@ == text,
            None => err is None,
        },
        *reply is Unreachable ==> (err matches Some(e) && e@ == "Cannot reach API"@),
        match *reply {
            Fetched::Rejected(code) => err matches Some(e) && e@ == "API error: "@ + code_digits(code)
                + seq![' '] + match canonical_reason_of(code) {
                Some(reason) => reason,
                None => "<unknown status code>"@,
            },
            _ => true,
        },
        *reply is Decoded || *reply is Undecodable ==> err is None,
{
    match reply {
        Fetched::Unreachable => Some(String::from_str("Cannot reach API")),
        Fetched::Rejected(code) => {
            let mut text = String::from_str("API error: ");
            let line = status_line(*code);
            text.append(line.as_str());
            Some(text)
        },
        _ => None,
    }
}

/// The list a reply gives: the decoded one, or the empty list.
pub open spec fn list_of<T>(reply: Fetched<Vec<T>>) -> Seq<T> {
    match reply {
        Fetched::Decoded(v) => v@,
        _ => Seq::empty(),
    }
}

/// The value a reply gives: the decoded one, or none.
pub open spec fn value_of<T>(reply: Fetched<T>) -> Option<T> {
    match reply {
        Fetched::Decoded(v) => Some(v),
        _ => None,
    }
}

/// Whether the current solar wind reading is fetched in place of the
/// history: exactly when the history reply gives no readings.
pub fn needs_current_wind<W>(history: &Fetched<Vec<W>>) -> (needed: bool)
    ensures
        needed == (list_of(*history).len() == 0),
        !needed <==> (*history matches Fetched::Decoded(v) && v.len() > 0),
{
    match history {
        Fetched::Decoded(v) => v.len() == 0,
        _ => true,
    }
}

/// The solar wind readings the dashboard keeps: the history when it has
/// any, else those of the current reading's reply, if that was fetched.
pub open spec fn wind_of<W>(history: Fetched<Vec<W>>, current: Option<Fetched<Vec<W>>>) -> Seq<W> {
    if list_of(history).len() > 0 {
        list_of(history)
    } else {
        match current {
            Some(reply) => list_of(reply),
            None => Seq::empty(),
        }
    }
}

/// The solar wind fallback: a history with readings is kept; a history
/// without any, whether it failed, did not decode or came back empty, is
/// replaced by the current reading's decoded reply, and by nothing if that
/// reply has no readings either or was not fetched.
pub proof fn lemma_wind_fallback<W>(history: Fetched<Vec<W>>, current: Option<Fetched<Vec<W>>>)
    ensures
        match history {
            Fetched::Decoded(v) => v.len() > 0 ==> wind_of(history, current) == v@,
            _ => true,
        },
        !(history matches Fetched::Decoded(v) && v.len() > 0) ==> match current {
            Some(Fetched::Decoded(c)) => wind_of(history, current) == c@,
            _ => wind_of(history, current).len() == 0,
        },
{
}

/// A status code from 100 to 999 is written as three decimal digits whose
/// value is the code, followed by a space.
pub proof fn lemma_status_digits(code: u16)
    requires
        100 <= code <= 999,
    ensures
        code_digits(code).len() == 3,
        forall|i: int| 0 <= i < 3 ==> '0' <= #[trigger] code_digits(code)[i] <= '9',
        (code_digits(code)[0] as int - '0' as int) * 100 + (code_digits(code)[1] as int - '0' as int) * 10
            + (code_digits(code)[2] as int - '0' as int) == code,
        status_line_text(code).subrange(0, 3) == code_digits(code),
        status_line_text(code)[3] == ' ',
{
    let n = code as int;
    assert(status_line_text(code).subrange(0, 3) =~= code_digits(code));
}

/// The data of one refresh of the dashboard: the Kp history and forecast,
/// the solar wind readings, the backend's status report, tonight's
/// viewline, the recent alerts, and the error the refresh ran into.
pub struct Feed<K, F, W, S, V, A> {
    pub kp_history: Vec<K>,
    pub kp_forecast: Vec<F>,
    pub solar_wind: Vec<W>,
    pub status: Option<S>,
    pub tonight: Option<V>,
    pub alerts: Vec<A>,
    pub error: Option<String>,
}

/// The data of a refresh, from the replies to its requests. Only the Kp
/// history reply can give an error; any reply that is not a decoded body
/// leaves its part empty. The current solar wind reply, fetched only when
/// `needs_current_wind` says so, stands in for an empty history.
pub fn assemble<K, F, W, S, V, A>(
    kp_history: Fetched<Vec<K>>,
    kp_forecast: Fetched<Vec<F>>,
    wind_history: Fetched<Vec<W>>,
    wind_current: Option<Fetched<Vec<W>>>,
    status: Fetched<S>,
    tonight: Fetched<V>,
    alerts: Fetched<Vec<A>>,
) -> (feed: Feed<K, F, W, S, V, A>)
    requires
        kp_history matches Fetched::Rejected(code) ==> 100 <= code <= 999,
    ensures
        match history_error_text(kp_history) {
            Some(text) => feed.error matches Some(e) && e@ == text,
            None => feed.error is None,
        },
        feed.kp_history@ == list_of(kp_history),
        feed.kp_forecast@ == list_of(kp_forecast),
        feed.solar_wind@ == wind_of(wind_history, wind_current),
        feed.status == value_of(status),
        feed.tonight == value_of(tonight),
        feed.alerts@ == list_of(alerts),
        kp_history is Unreachable ==> (feed.error matches Some(e) && e@ == "Cannot reach API"@),
        kp_history is Rejected ==> feed.error is Some,
        kp_history is Decoded || kp_history is Undecodable ==> feed.error is None,
        kp_history matches Fetched::Decoded(v) ==> (feed.kp_history@ == v@),
        !(kp_history is Decoded) ==> feed.kp_history@.len() == 0,
        match wind_history {
            Fetched::Decoded(v) => v.len() > 0 ==> feed.solar_wind@ == v@,
            _ => true,
        },
        !(wind_history matches Fetched::Decoded(v) && v.len() > 0) ==> match wind_current {
            Some(Fetched::Decoded(c)) => feed.solar_wind@ == c@,
            _ => feed.solar_wind@.len() == 0,
        },
        status matches Fetched::Decoded(st) ==> (feed.status == Some(st)),
        !(status is Decoded) ==> feed.status is None,
        tonight matches Fetched::Decoded(v) ==> (feed.tonight == Some(v)),
        !(tonight is Decoded) ==> feed.tonight is None,
        kp_forecast matches Fetched::Decoded(v) ==> (feed.kp_forecast@ == v@),
        !(kp_forecast is Decoded) ==> feed.kp_forecast@.len() == 0,
        alerts matches Fetched::Decoded(v) ==> (feed.alerts@ == v@),
        !(alerts is Decoded) ==> feed.alerts@.len() == 0,
{
    let error = history_error(&kp_history);
    let history = list_or_empty(wind_history);
    let solar_wind = if history.len() > 0 {
        history
    } else {
        match wind_current {
            Some(reply) => list_or_empty(reply),
            None => Vec::new(),
        }
    };
    Feed {
        kp_history: list_or_empty(kp_history),
        kp_forecast: list_or_empty(kp_forecast),
        solar_wind,
        status: value_or_none(status),
        tonight: value_or_none(tonight),
        alerts: list_or_empty(alerts),
        error,
    }
}

} // verus!
