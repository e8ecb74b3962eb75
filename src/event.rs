use vstd::prelude::*;
use vstd::string::*;
use crate::text::{blank, is_blank};

verus! {

#[verifier::external_type_specification]
#[verifier::external_body]
pub struct ExValue(serde_json::Value);

/// Whether serde_json accepts a text as one JSON value.
pub uninterp spec fn parses_as_json(s: Seq<char>) -> bool;

/// The JSON value serde_json reads from a text it accepts.
pub uninterp spec fn json_of(s: Seq<char>) -> serde_json::Value;

/// What parsing a line gives: its JSON value when serde_json accepts it.
pub open spec fn parsed_line(s: Seq<char>) -> Option<serde_json::Value> {
    if parses_as_json(s) {
        Some(json_of(s))
    } else {
        None
    }
}

/// Relies on `serde_json::from_str::<Value>`: it succeeds exactly on the text
/// serde_json accepts, and its value depends on the text alone.
#[verifier::external_body]
fn parse_json(s: &str) -> (r: Option<serde_json::Value>)
    ensures
        r == (if parses_as_json(s@) {
            Some(json_of(s@))
        } else {
            None
        }),
{
    serde_json::from_str::<serde_json::Value>(s).ok()
}

/// One status or progress record of the worker, with its recognised fields.
#[derive(Debug)]
pub struct SidecarEvent {
    pub event_type: String,
    pub stage: Option<String>,
    pub message: Option<String>,
    pub percent: Option<u32>,
    pub status: Option<String>,
    pub article_path: Option<String>,
    pub title: Option<String>,
    pub code: Option<String>,
}

/// The record synthesised for a line of free text: a `progress` event at stage
/// `log` that carries the text as its message, and nothing else.
pub open spec fn is_log_event(e: SidecarEvent, message: Seq<char>) -> bool {
    &&& e.event_type@ == "progress"@
    &&& e.stage matches Some(st) && st@ == "log"@
    &&& e.message matches Some(m) && m@ == message
    &&& e.percent is None
    &&& e.status is None
    &&& e.article_path is None
    &&& e.title is None
    &&& e.code is None
}

impl SidecarEvent {
    /// A log record carrying `message`.
    pub fn log(message: String) -> (r: SidecarEvent)
        ensures
            is_log_event(r, message@),
    {
        SidecarEvent {
            event_type: String::from_str("progress"),
            stage: Some(String::from_str("log")),
            message: Some(message),
            percent: None,
            status: None,
            article_path: None,
            title: None,
            code: None,
        }
    }
}

/// What is handed to the subscriber for one line of output.
pub enum Emission {
    /// A line that parsed as JSON, passed on as it was parsed.
    Forward(serde_json::Value),
    /// A record synthesised for a line of free text.
    Log(SidecarEvent),
}

/// The text that marks a line as coming from standard error.
pub open spec fn stderr_prefix() -> Seq<char> {
    "[stderr] "@
}

/// The emission for a standard-output line, given what parsing it gave.
pub open spec fn stdout_emission_ok(line: Seq<char>, parsed: Option<serde_json::Value>, r: Option<Emission>) -> bool {
    match parsed {
        Some(v) => r == Some(Emission::Forward(v)),
        None => if blank(line) {
            r is None
        } else {
            r matches Some(Emission::Log(e)) && is_log_event(e, line)
        },
    }
}

/// The emission for a standard-error line.
pub open spec fn stderr_emission_ok(line: Seq<char>, r: Option<Emission>) -> bool {
    if blank(line) {
        r is None
    } else {
        r matches Some(Emission::Log(e)) && is_log_event(e, stderr_prefix() + line)
    }
}

/// Normalises a standard-output line whose parse result is `parsed`: parsed
/// JSON is forwarded as it is, free text becomes a log record, blank text
/// becomes nothing.
pub fn stdout_emission(line: &String, parsed: Option<serde_json::Value>) -> (r: Option<Emission>)
    ensures
        stdout_emission_ok(line@, parsed, r),
{
    match parsed {
        Some(v) => Some(Emission::Forward(v)),
        None => {
            if is_blank(line.as_str()) {
                None
            } else {
                Some(Emission::Log(SidecarEvent::log(line.clone())))
            }
        },
    }
}

/// Normalises a standard-output line: it is parsed as JSON first.
pub fn normalize_stdout(line: &String) -> (r: Option<Emission>)
    ensures
        stdout_emission_ok(line@, parsed_line(line@), r),
{
    let parsed = parse_json(line.as_str());
    stdout_emission(line, parsed)
}

/// Normalises a standard-error line: never parsed, always text, marked by its origin.
pub fn stderr_emission(line: &String) -> (r: Option<Emission>)
    ensures
        stderr_emission_ok(line@, r),
{
    if is_blank(line.as_str()) {
        None
    } else {
        let mut message = String::from_str("[stderr] ");
        message.append(line.as_str());
        proof {
            reveal_strlit("[stderr] ");
        }
        Some(Emission::Log(SidecarEvent::log(message)))
    }
}

} // verus!
