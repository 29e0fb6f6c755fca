//! The response of a run: what came back, how long it took, and what the
//! body holds.

use vstd::prelude::*;
use vstd::string::StringExecFns;
use std::time::Duration;
use crate::config::Config;
use crate::crt::{Crt, CrtView};
use crate::decode::{decode_records, decode_records_spec, views_of, DecodeError};
use crate::json::{parse_json, JsonValue};
use crate::outside::{json_from_str, json_parse, json_text, json_to_string};
use crate::request::Header;

verus! {

/// The protocol version of a response.
#[derive(Debug, Clone, Copy, PartialEq, Eq, Structural)]
pub enum HttpVersion {
    Http09,
    Http10,
    Http11,
    H2,
    H3,
}

impl HttpVersion {
    /// The version as it is shown.
    pub open spec fn label(self) -> Seq<char> {
        match self {
            HttpVersion::Http09 => "HTTP/0.9"@,
            HttpVersion::Http10 => "HTTP/1.0"@,
            HttpVersion::Http11 => "HTTP/1.1"@,
            HttpVersion::H2 => "HTTP/2.0"@,
            HttpVersion::H3 => "HTTP/3.0"@,
        }
    }

    /// The version as it is shown.
    pub fn as_str(self) -> (text: &'static str)
        ensures
            text@ == self.label(),
    {
        match self {
            HttpVersion::Http09 => "HTTP/0.9",
            HttpVersion::Http10 => "HTTP/1.0",
            HttpVersion::Http11 => "HTTP/1.1",
            HttpVersion::H2 => "HTTP/2.0",
            HttpVersion::H3 => "HTTP/3.0",
        }
    }
}

/// Status, protocol version and headers of the response that ended a run.
#[derive(Debug, Clone, PartialEq, Eq)]
pub struct ResponseInfo {
    status: u16,
    version: HttpVersion,
    headers: Vec<Header>,
}

impl ResponseInfo {
    /// The status code held.
    pub closed spec fn spec_status(&self) -> u16 {
        self.status
    }

    /// The protocol version held.
    pub closed spec fn spec_version(&self) -> HttpVersion {
        self.version
    }

    /// The headers held, in order.
    pub closed spec fn spec_headers(&self) -> Seq<Header> {
        self.headers@
    }

    /// Puts together what is known of a response before its body is read.
    pub fn new(status: u16, version: HttpVersion, headers: Vec<Header>) -> (info: ResponseInfo)
        ensures
            info.spec_status() == status,
            info.spec_version() == version,
            info.spec_headers() == headers@,
    {
        ResponseInfo { status, version, headers }
    }

    /// The status code of the response.
    pub fn status(&self) -> (status: u16)
        ensures
            status == self.spec_status(),
    {
        self.status
    }

    /// The protocol version of the response.
    pub fn version(&self) -> (version: HttpVersion)
        ensures
            version == self.spec_version(),
    {
        self.version
    }

    /// The headers of the response, in the order in which they came.
    pub fn headers(&self) -> (headers: &Vec<Header>)
        ensures
            headers@ == self.spec_headers(),
    {
        &self.headers
    }
}

/// The three durations measured on a run.
#[derive(Debug, Clone, Copy, PartialEq, Eq)]
pub struct TimingInfo {
    /// From the start of the last attempt until its response headers came.
    pub response_time: Duration,
    /// The time it took to read the body.
    pub body_read_time: Duration,
    /// From the start of the first attempt until the body was read.
    pub total_time: Duration,
}

impl TimingInfo {
    /// Puts the three durations of a run together.
    pub fn new(response_time: Duration, body_read_time: Duration, total_time: Duration) -> (timing: TimingInfo)
        ensures
            timing.response_time == response_time,
            timing.body_read_time == body_read_time,
            timing.total_time == total_time,
    {
        TimingInfo { response_time, body_read_time, total_time }
    }
}

/// Puts together what a run hands on once the last response was read.
pub fn handle_successful_response(
    status: u16,
    version: HttpVersion,
    headers: Vec<Header>,
    response_body: String,
    response_time: Duration,
    body_read_time: Duration,
    total_time: Duration,
) -> (handled: (ResponseInfo, String, TimingInfo))
    ensures
        handled.0.spec_status() == status,
        handled.0.spec_version() == version,
        handled.0.spec_headers() == headers@,
        handled.1 == response_body,
        handled.2.response_time == response_time,
        handled.2.body_read_time == body_read_time,
        handled.2.total_time == total_time,
{
    let response_info = ResponseInfo::new(status, version, headers);
    let timing_info = TimingInfo::new(response_time, body_read_time, total_time);
    (response_info, response_body, timing_info)
}

/// Why the body of a response could not be handed on.
#[derive(Debug, Clone, Copy, PartialEq, Eq, Structural)]
pub enum ResponseError {
    /// The body is JSON, but it could not be written out again.
    Serialize,
    /// The body is JSON, but not a list of certificate records.
    RecordDecode(DecodeError),
}

impl ResponseError {
    /// The error in words.
    pub open spec fn message_text(self) -> Seq<char> {
        match self {
            ResponseError::Serialize => "response could not be written as JSON"@,
            ResponseError::RecordDecode(e) => e.message_text(),
        }
    }

    /// The error in words.
    pub fn message(&self) -> (text: String)
        ensures
            text@ == self.message_text(),
    {
        match self {
            ResponseError::Serialize => String::from_str("response could not be written as JSON"),
            ResponseError::RecordDecode(e) => e.message(),
        }
    }
}

/// The body as it is handed on: written out again without insignificant
/// white space where it is JSON, unchanged where it is not.
pub open spec fn formatted_body(body: Seq<char>) -> Result<Seq<char>, ResponseError> {
    match json_parse(body) {
        None => Ok(body),
        Some(tree) => match json_text(tree) {
            Some(text) => Ok(text),
            None => Err(ResponseError::Serialize),
        },
    }
}

/// Formats the body of a response: JSON is written out again, which drops
/// insignificant white space; a body that is not JSON is handed back
/// unchanged, and that is no error.
pub fn format_response_body(body: &str, _config: &Config) -> (formatted: Result<String, ResponseError>)
    ensures
        match formatted {
            Ok(text) => formatted_body(body@) == Ok::<Seq<char>, ResponseError>(text@),
            Err(e) => formatted_body(body@) == Err::<Seq<char>, ResponseError>(e),
        },
{
    match json_from_str(body) {
        Err(_) => Ok(String::from_str(body)),
        Ok(document) => match json_to_string(&document) {
            Ok(text) => Ok(text),
            Err(_) => Err(ResponseError::Serialize),
        },
    }
}

/// The records that a text lists.
pub open spec fn records_of_text(text: Seq<char>) -> Result<Seq<CrtView>, DecodeError> {
    match json_parse(text) {
        None => Err(DecodeError::NotJson),
        Some(tree) => decode_records_spec(tree),
    }
}

/// Decodes a text into the certificate records it lists.
pub fn parse_records(text: &str) -> (parsed: Result<Vec<Crt>, DecodeError>)
    ensures
        match parsed {
            Ok(records) => records_of_text(text@) == Ok::<Seq<CrtView>, DecodeError>(views_of(records@)),
            Err(e) => records_of_text(text@) == Err::<Seq<CrtView>, DecodeError>(e),
        },
{
    match parse_json(text) {
        None => Err(DecodeError::NotJson),
        Some(tree) => decode_records(&tree),
    }
}

/// What is handed to the renderer.
#[derive(Debug, Clone, PartialEq, Eq)]
pub enum ResponsePayload {
    /// The records that the body lists.
    Records(Vec<Crt>),
    /// The body as it came, where it is not JSON.
    Raw(String),
}

/// A payload with its texts as sequences of characters.
pub enum ResponsePayloadView {
    Records(Seq<CrtView>),
    Raw(Seq<char>),
}

impl View for ResponsePayload {
    type V = ResponsePayloadView;

    open spec fn view(&self) -> ResponsePayloadView {
        match self {
            ResponsePayload::Records(records) => ResponsePayloadView::Records(views_of(records@)),
            ResponsePayload::Raw(text) => ResponsePayloadView::Raw(text@),
        }
    }
}

/// What is handed on for a body, given the document that was read from it:
/// the body itself where there is none, else the records that the document
/// lists, or the reason why it lists none.
pub open spec fn payload_of_tree(body: Seq<char>, tree: Option<JsonValue>) -> Result<
    ResponsePayloadView,
    ResponseError,
> {
    match tree {
        None => Ok(ResponsePayloadView::Raw(body)),
        Some(document) => match decode_records_spec(document) {
            Ok(records) => Ok(ResponsePayloadView::Records(records)),
            Err(e) => Err(ResponseError::RecordDecode(e)),
        },
    }
}

/// Decides what is handed on for a body, given the document that was read
/// from it, or `None` where the body is not JSON.
pub fn payload_of(body: &str, tree: Option<&JsonValue>) -> (payload: Result<ResponsePayload, ResponseError>)
    ensures
        match payload {
            Ok(p) => payload_of_tree(body@, option_deref(tree)) == Ok::<ResponsePayloadView, ResponseError>(p@),
            Err(e) => payload_of_tree(body@, option_deref(tree)) == Err::<ResponsePayloadView, ResponseError>(e),
        },
{
    match tree {
        None => Ok(ResponsePayload::Raw(String::from_str(body))),
        Some(document) => match decode_records(document) {
            Ok(records) => Ok(ResponsePayload::Records(records)),
            Err(e) => Err(ResponseError::RecordDecode(e)),
        },
    }
}

/// The document behind an optional reference.
pub open spec fn option_deref(tree: Option<&JsonValue>) -> Option<JsonValue> {
    match tree {
        Some(document) => Some(*document),
        None => None,
    }
}

/// What a body gives: itself where it is not JSON; else the records that
/// its formatted text lists, or the reason why it lists none.
pub open spec fn processed_body(body: Seq<char>) -> Result<ResponsePayloadView, ResponseError> {
    if json_parse(body) is None {
        payload_of_tree(body, None)
    } else {
        match formatted_body(body) {
            Err(e) => Err(e),
            Ok(text) => match json_parse(text) {
                None => Err(ResponseError::RecordDecode(DecodeError::NotJson)),
                Some(tree) => payload_of_tree(body, Some(tree)),
            },
        }
    }
}

/// Turns the body of the last response into what is handed to the
/// renderer. A body that is not JSON is handed on as it is. A body that is
/// JSON is formatted and decoded into records; where it does not decode, that
/// is an error.
pub fn process_response(body: &str, _config: &Config) -> (processed: Result<ResponsePayload, ResponseError>)
    ensures
        match processed {
            Ok(payload) => processed_body(body@) == Ok::<ResponsePayloadView, ResponseError>(payload@),
            Err(e) => processed_body(body@) == Err::<ResponsePayloadView, ResponseError>(e),
        },
{
    match json_from_str(body) {
        Err(_) => payload_of(body, None),
        Ok(document) => match json_to_string(&document) {
            Err(_) => Err(ResponseError::Serialize),
            Ok(text) => match parse_json(text.as_str()) {
                None => Err(ResponseError::RecordDecode(DecodeError::NotJson)),
                Some(tree) => payload_of(body, Some(&tree)),
            },
        },
    }
}

/// A body that is not JSON is handed on unchanged, as raw text, and is no
/// error.
pub proof fn law_not_json_is_handed_on(body: Seq<char>)
    requires
        json_parse(body) is None,
    ensures
        formatted_body(body) == Ok::<Seq<char>, ResponseError>(body),
        processed_body(body) == Ok::<ResponsePayloadView, ResponseError>(ResponsePayloadView::Raw(body)),
{
}

/// A text that is JSON, but an object and not an array, lists no records:
/// decoding it is an error.
pub proof fn law_object_is_no_record_list(text: Seq<char>)
    requires
        json_parse(text) is Some,
        json_parse(text)->Some_0 is Object,
    ensures
        records_of_text(text) == Err::<Seq<CrtView>, DecodeError>(DecodeError::NotAnArray),
{
}

/// A body that is JSON never comes back as raw text: it gives records, or
/// an error.
pub proof fn law_json_is_decoded(body: Seq<char>)
    requires
        json_parse(body) is Some,
    ensures
        !(processed_body(body) matches Ok(ResponsePayloadView::Raw(_))),
{
}

} // verus!
