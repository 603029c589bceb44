//! The printer control API: the requests that the monitor makes of it and
//! what it reads out of the answers.

use vstd::prelude::*;
use crate::error::PrinterError;
use crate::rendering::{whole_of_double, whole_part};
use crate::text::{decimal, u64_to_decimal};

verus! {

/// What the printer reports of itself. A field that the answer lacks is
/// `None`.
#[derive(Debug, Clone, PartialEq, Eq)]
pub struct PrinterObservation {
    /// Name of the print state, such as "printing" or "paused".
    pub state_name: Option<String>,
    /// Human-readable message on the state.
    pub state_message: Option<String>,
    /// Name of the file being printed.
    pub filename: Option<String>,
    /// Filament used so far, in whole millimetres.
    pub filament_used_mm: u64,
    /// Time spent printing, in whole seconds.
    pub print_duration_seconds: u64,
}

/// A JSON document of `serde_json`.
#[verifier::external_type_specification]
#[verifier::external_body]
pub struct ExJsonValue(serde_json::Value);

/// What is found at a place in a JSON document.
#[derive(Debug, Clone, PartialEq, Eq)]
pub enum JsonLookup {
    /// The document has nothing at the place.
    Missing,
    /// A string.
    Text(String),
    /// A number: the bit pattern of the double-precision number nearest to
    /// it.
    Number(u64),
    /// Anything else: null, a truth value, a list or an object.
    Other,
}

/// Mathematical value of a [`JsonLookup`].
pub enum JsonFound {
    Missing,
    Text(Seq<char>),
    Number(u64),
    Other,
}

impl View for JsonLookup {
    type V = JsonFound;

    open spec fn view(&self) -> JsonFound {
        match self {
            JsonLookup::Missing => JsonFound::Missing,
            JsonLookup::Text(s) => JsonFound::Text(s@),
            JsonLookup::Number(n) => JsonFound::Number(*n),
            JsonLookup::Other => JsonFound::Other,
        }
    }
}

/// What a JSON value is: a string, a number or something else.
pub uninterp spec fn what_is(value: serde_json::Value) -> JsonFound;

/// What a JSON document holds: for each JSON pointer at which it has a
/// value, what that value is.
pub uninterp spec fn places(document: serde_json::Value) -> Map<Seq<char>, JsonFound>;

/// What `serde_json` reads `body` as: what the document holds, or `None`
/// where `body` is no JSON document.
pub uninterp spec fn parsed(body: Seq<char>) -> Option<Map<Seq<char>, JsonFound>>;

/// What is found at `pointer` in a document that holds `held`.
pub open spec fn found_at(held: Map<Seq<char>, JsonFound>, pointer: Seq<char>) -> JsonFound {
    if held.dom().contains(pointer) {
        held[pointer]
    } else {
        JsonFound::Missing
    }
}

/// Reads a text as a JSON document.
///
/// Calls `serde_json::from_str` for a `serde_json::Value`, which depends
/// on the text alone. The contract gives what the document holds the name
/// [`parsed`], with `None` for an error.
#[verifier::external_body]
fn parse(body: &str) -> (r: Option<serde_json::Value>)
    ensures
        r matches Some(document) ==> parsed(body@) == Some(places(document)),
        r is None ==> parsed(body@) is None,
{
    serde_json::from_str::<serde_json::Value>(body).ok()
}

/// Looks up a place in a JSON document.
///
/// Calls `Value::pointer`, which hands out the value at the pointer or
/// `None` where the document has none there. The contract says that the
/// value is what the document holds at the pointer.
#[verifier::external_body]
fn value_at<'a>(document: &'a serde_json::Value, pointer: &str) -> (r: Option<
    &'a serde_json::Value,
>)
    ensures
        r matches Some(value) ==> places(*document).dom().contains(pointer@) && places(
            *document,
        )[pointer@] == what_is(*value),
        r is None ==> !places(*document).dom().contains(pointer@),
{
    document.pointer(pointer)
}

/// Tells what a JSON value is.
///
/// Tells the variants of `serde_json::Value` apart and, for a number,
/// calls `Number::as_f64`, whose result is handed on as its bit pattern.
/// The contract gives the result the name [`what_is`].
#[verifier::external_body]
fn classify(value: &serde_json::Value) -> (r: JsonLookup)
    ensures
        r@ == what_is(*value),
{
    match value {
        serde_json::Value::String(text) => JsonLookup::Text(text.clone()),
        serde_json::Value::Number(number) => match number.as_f64() {
            Some(double) => JsonLookup::Number(double.to_bits()),
            None => JsonLookup::Other,
        },
        _ => JsonLookup::Other,
    }
}

/// Looks up a place in a JSON document and tells what is there.
fn json_lookup(document: &serde_json::Value, pointer: &str) -> (r: JsonLookup)
    ensures
        r@ == found_at(places(*document), pointer@),
{
    match value_at(document, pointer) {
        Some(value) => classify(value),
        None => JsonLookup::Missing,
    }
}

/// The string that a lookup found, if it found one.
pub open spec fn found_text(found: JsonFound) -> Option<Seq<char>> {
    match found {
        JsonFound::Text(s) => Some(s),
        _ => None,
    }
}

/// The whole part of the number that a lookup found, 0 if it found none.
/// A negative number counts as 0.
pub open spec fn found_number(found: JsonFound) -> u64 {
    match found {
        JsonFound::Number(bits) => whole_part(bits),
        _ => 0,
    }
}

/// The string that a lookup found, if it found one.
pub fn text_of(found: JsonLookup) -> (r: Option<String>)
    ensures
        (match r {
            Some(s) => Some(s@),
            None => None,
        }) == found_text(found@),
{
    match found {
        JsonLookup::Text(s) => Some(s),
        _ => None,
    }
}

/// The whole part of the number that a lookup found, 0 if it found none.
pub fn number_of(found: JsonLookup) -> (r: u64)
    ensures
        r == found_number(found@),
{
    match found {
        JsonLookup::Number(bits) => whole_of_double(bits),
        _ => 0,
    }
}

/// The text of an optional field, or `default` where it is absent.
pub open spec fn text_or(field: Option<String>, default: Seq<char>) -> Seq<char> {
    match field {
        Some(s) => s@,
        None => default,
    }
}

/// Whether `body` is a JSON document.
pub open spec fn is_json(body: Seq<char>) -> bool {
    parsed(body) is Some
}

/// Whether `o` is what a status document that holds `held` reports.
pub open spec fn observed_in(held: Map<Seq<char>, JsonFound>, o: PrinterObservation) -> bool {
    &&& (match o.state_name {
        Some(s) => Some(s@),
        None => None,
    }) == found_text(found_at(held, "/result/status/print_stats/state"@))
    &&& (match o.state_message {
        Some(s) => Some(s@),
        None => None,
    }) == found_text(found_at(held, "/result/status/webhooks/state_message"@))
    &&& (match o.filename {
        Some(s) => Some(s@),
        None => None,
    }) == found_text(found_at(held, "/result/status/print_stats/filename"@))
    &&& o.filament_used_mm == found_number(
        found_at(held, "/result/status/print_stats/filament_used"@),
    )
    &&& o.print_duration_seconds == found_number(
        found_at(held, "/result/status/print_stats/print_duration"@),
    )
}

impl PrinterObservation {
    /// Reads an observation out of the body of an answer to a status
    /// query. There is none where the body is no JSON document; a string
    /// that the document lacks is `None`, a number that it lacks is 0. Of
    /// a number only the whole part is taken, and 0 for a negative one.
    pub fn from_json(body: &str) -> (r: Option<PrinterObservation>)
        ensures
            match parsed(body@) {
                Some(held) => r matches Some(o) && observed_in(held, o),
                None => r is None,
            },
    {
        let document = match parse(body) {
            Some(document) => document,
            None => {
                return None;
            },
        };
        Some(
            PrinterObservation {
                state_name: text_of(json_lookup(&document, "/result/status/print_stats/state")),
                state_message: text_of(
                    json_lookup(&document, "/result/status/webhooks/state_message"),
                ),
                filename: text_of(
                    json_lookup(&document, "/result/status/print_stats/filename"),
                ),
                filament_used_mm: number_of(
                    json_lookup(&document, "/result/status/print_stats/filament_used"),
                ),
                print_duration_seconds: number_of(
                    json_lookup(&document, "/result/status/print_stats/print_duration"),
                ),
            },
        )
    }

    /// The state name, "unknown" where the answer had none.
    pub open spec fn state_text(&self) -> Seq<char> {
        text_or(self.state_name, "unknown"@)
    }

    /// The state name, "unknown" where the answer had none.
    pub fn state(&self) -> (r: &str)
        ensures
            r@ == self.state_text(),
    {
        match &self.state_name {
            Some(s) => s.as_str(),
            None => "unknown",
        }
    }
}

/// The actions of the printer control API.
#[derive(Debug, Clone, Copy, PartialEq, Eq, Structural)]
pub enum PrinterAction {
    Pause,
    Resume,
    Cancel,
    QueryStatus,
}

impl PrinterAction {
    /// The path of the action below the base URL of the API.
    pub open spec fn path(self) -> Seq<char> {
        match self {
            PrinterAction::Pause => "/printer/print/pause"@,
            PrinterAction::Resume => "/printer/print/resume"@,
            PrinterAction::Cancel => "/printer/print/cancel"@,
            PrinterAction::QueryStatus => "/printer/objects/query?webhooks&print_stats"@,
        }
    }

    /// What the action is called in an error message.
    pub open spec fn verb(self) -> Seq<char> {
        match self {
            PrinterAction::Pause => "pause print"@,
            PrinterAction::Resume => "resume print"@,
            PrinterAction::Cancel => "cancel print"@,
            PrinterAction::QueryStatus => "get printer status"@,
        }
    }

    /// Whether the action is a query, sent with GET; the others change the
    /// printer's state and are sent with POST.
    pub fn is_query(self) -> (r: bool)
        ensures
            r == (self == PrinterAction::QueryStatus),
    {
        match self {
            PrinterAction::QueryStatus => true,
            _ => false,
        }
    }
}

/// Whether an HTTP status code reports success.
pub open spec fn is_success(status: u16) -> bool {
    200 <= status < 300
}

/// The message of the error for an answer with a status that is no success.
pub open spec fn failure_message(action: PrinterAction, status: u16) -> Seq<char> {
    "Failed to "@ + action.verb() + ": HTTP "@ + decimal(status as nat)
}

/// What an answer to `action` at `api_url` amounts to; `None` stands for no
/// answer at all.
pub open spec fn reply_outcome(
    api_url: Seq<char>,
    action: PrinterAction,
    reply: Option<u16>,
    r: Result<(), PrinterError>,
) -> bool {
    match reply {
        Some(status) => if is_success(status) {
            r is Ok
        } else {
            &&& r matches Err(PrinterError::ApiError { endpoint, status: code, message })
            &&& endpoint@ == api_url + action.path()
            &&& code == status
            &&& message@ == failure_message(action, status)
        },
        None => {
            &&& r matches Err(PrinterError::ConnectionFailed { api_url: url, reason })
            &&& url@ == api_url
            &&& reason@ == "no response"@
        },
    }
}

/// What an answer to a status query at `api_url` amounts to, `body` being
/// the body of the answer.
pub open spec fn status_outcome(
    api_url: Seq<char>,
    reply: Option<u16>,
    body: Seq<char>,
    r: Result<PrinterObservation, PrinterError>,
) -> bool {
    if reply matches Some(status) && is_success(status) {
        if is_json(body) {
            r matches Ok(o) && observed_in(parsed(body)->0, o)
        } else {
            &&& r matches Err(PrinterError::ApiError { endpoint, status: code, message })
            &&& endpoint@ == api_url + PrinterAction::QueryStatus.path()
            &&& code == reply->0
            &&& message@ == "Failed to get printer status: unreadable body"@
        }
    } else {
        r matches Err(e) && reply_outcome(api_url, PrinterAction::QueryStatus, reply, Err(e))
    }
}

/// Client side of the printer control API at one base URL.
#[derive(Debug, Clone, PartialEq, Eq)]
pub struct PrinterService {
    pub api_url: String,
}

impl PrinterService {
    /// A service for the API at `api_url`.
    pub fn new(api_url: String) -> (r: Self)
        ensures
            r.api_url == api_url,
    {
        PrinterService { api_url }
    }

    /// The URL to send `action` to.
    pub fn endpoint(&self, action: PrinterAction) -> (r: String)
        ensures
            r@ == self.api_url@ + action.path(),
    {
        let mut url = String::from_str(self.api_url.as_str());
        match action {
            PrinterAction::Pause => url.append("/printer/print/pause"),
            PrinterAction::Resume => url.append("/printer/print/resume"),
            PrinterAction::Cancel => url.append("/printer/print/cancel"),
            PrinterAction::QueryStatus => url.append(
                "/printer/objects/query?webhooks&print_stats",
            ),
        }
        url
    }

    /// Reads the answer to `action`: a success status is success, any
    /// other status is an API error, and no answer is a connection failure.
    pub fn check_reply(&self, action: PrinterAction, reply: Option<u16>) -> (r: Result<
        (),
        PrinterError,
    >)
        ensures
            reply_outcome(self.api_url@, action, reply, r),
    {
        match reply {
            Some(status) => {
                if 200 <= status && status < 300 {
                    Ok(())
                } else {
                    let code = u64_to_decimal(status as u64);
                    let mut message = String::from_str("Failed to ");
                    match action {
                        PrinterAction::Pause => message.append("pause print"),
                        PrinterAction::Resume => message.append("resume print"),
                        PrinterAction::Cancel => message.append("cancel print"),
                        PrinterAction::QueryStatus => message.append("get printer status"),
                    }
                    message.append(": HTTP ");
                    message.append(code.as_str());
                    Err(PrinterError::ApiError { endpoint: self.endpoint(action), status, message })
                }
            },
            None => Err(
                PrinterError::ConnectionFailed {
                    api_url: String::from_str(self.api_url.as_str()),
                    reason: String::from_str("no response"),
                },
            ),
        }
    }

    /// The outcome of a pause request, given the status of the answer.
    pub fn pause_print(&self, reply: Option<u16>) -> (r: Result<(), PrinterError>)
        ensures
            reply_outcome(self.api_url@, PrinterAction::Pause, reply, r),
    {
        self.check_reply(PrinterAction::Pause, reply)
    }

    /// The outcome of a resume request, given the status of the answer.
    pub fn resume_print(&self, reply: Option<u16>) -> (r: Result<(), PrinterError>)
        ensures
            reply_outcome(self.api_url@, PrinterAction::Resume, reply, r),
    {
        self.check_reply(PrinterAction::Resume, reply)
    }

    /// The outcome of a cancel request, given the status of the answer.
    pub fn cancel_print(&self, reply: Option<u16>) -> (r: Result<(), PrinterError>)
        ensures
            reply_outcome(self.api_url@, PrinterAction::Cancel, reply, r),
    {
        self.check_reply(PrinterAction::Cancel, reply)
    }

    /// The outcome of a status query, given the status and the body of
    /// the answer: the observation read out of the body where the status
    /// reports success and the body is a JSON document, an error otherwise.
    pub fn get_printer_status(&self, reply: Option<u16>, body: &str) -> (r: Result<
        PrinterObservation,
        PrinterError,
    >)
        ensures
            status_outcome(self.api_url@, reply, body@, r),
    {
        match self.check_reply(PrinterAction::QueryStatus, reply) {
            Ok(()) => match PrinterObservation::from_json(body) {
                Some(observation) => Ok(observation),
                None => Err(
                    PrinterError::ApiError {
                        endpoint: self.endpoint(PrinterAction::QueryStatus),
                        status: reply.unwrap(),
                        message: String::from_str("Failed to get printer status: unreadable body"),
                    },
                ),
            },
            Err(e) => Err(e),
        }
    }
}

} // verus!
