//! What a verbose or timed run shows beside its result. Nothing here
//! changes what a run returns.

use vstd::prelude::*;
use vstd::string::StringExecFns;
use std::time::Duration;
use crate::config::Config;
use crate::outside::{canonical_reason, duration_is_zero, reason_phrase};
use crate::request::{headers_view, Header, HeaderValue, HeaderValueView, HeaderView, RequestContext};
use crate::response::{
    process_response,
    processed_body,
    ResponseError,
    ResponseInfo,
    ResponsePayload,
    ResponsePayloadView,
    TimingInfo,
};
use crate::text::{decimal_string, decimal_text, lines_view, same_ignoring_ascii_case};

verus! {

/// The name of the header whose value is never shown.
pub open spec fn authorization_name() -> Seq<char> {
    "authorization"@
}

/// What is shown in place of the value of an authorization header.
pub open spec fn authorization_placeholder() -> Seq<char> {
    "Basic <credentials>"@
}

/// What is shown in place of a header value that is not text.
pub open spec fn binary_placeholder() -> Seq<char> {
    "<binary>"@
}

/// The value of a header as it is shown: a placeholder for an authorization
/// header, whatever its value and however its name is capitalised, and for a
/// value that is not text.
pub open spec fn shown_value(header: HeaderView) -> Seq<char> {
    if same_ignoring_ascii_case(header.name, authorization_name()) {
        authorization_placeholder()
    } else {
        match header.value {
            HeaderValueView::Text(text) => text,
            HeaderValueView::Binary(_) => binary_placeholder(),
        }
    }
}

/// The line that shows a header, after `marker`.
pub open spec fn header_line(marker: Seq<char>, header: HeaderView) -> Seq<char> {
    marker + header.name + ": "@ + shown_value(header)
}

/// The line that shows an authorization header is the same whatever the
/// value of the header: the value is never shown.
pub proof fn law_authorization_is_never_shown(
    marker: Seq<char>,
    name: Seq<char>,
    value: HeaderValueView,
    other: HeaderValueView,
)
    requires
        same_ignoring_ascii_case(name, authorization_name()),
    ensures
        header_line(marker, HeaderView { name, value }) == header_line(marker, HeaderView { name, value: other }),
        header_line(marker, HeaderView { name, value }) == marker + name + ": "@ + authorization_placeholder(),
{
}

/// The lines that show a list of headers, in order.
pub open spec fn header_lines(marker: Seq<char>, headers: Seq<HeaderView>) -> Seq<Seq<char>> {
    Seq::new(headers.len(), |i: int| header_line(marker, headers[i]))
}

/// Whether a list of headers holds one called `name`. The case of ASCII
/// letters makes no difference between header names.
pub open spec fn has_name(headers: Seq<HeaderView>, name: Seq<char>) -> bool {
    exists|i: int| 0 <= i < headers.len() && same_ignoring_ascii_case((#[trigger] headers[i]).name, name)
}

/// The lines that show those of the first `count` headers of `headers`
/// whose name is not among `known`.
pub open spec fn other_header_lines(
    marker: Seq<char>,
    headers: Seq<HeaderView>,
    known: Seq<HeaderView>,
    count: nat,
) -> Seq<Seq<char>>
    decreases count,
{
    if count == 0 {
        Seq::empty()
    } else {
        let before = other_header_lines(marker, headers, known, (count - 1) as nat);
        if has_name(known, headers[count - 1].name) {
            before
        } else {
            before.push(header_line(marker, headers[count - 1]))
        }
    }
}

/// What a verbose run shows before the first attempt: the request line, the
/// default headers, the headers that only the request has, and an empty
/// line. A run that is not verbose shows nothing.
pub open spec fn request_info_lines(
    verbose: bool,
    method: Seq<char>,
    url: Seq<char>,
    default_headers: Seq<HeaderView>,
    request_headers: Seq<HeaderView>,
) -> Seq<Seq<char>> {
    if verbose {
        seq!["> "@ + method + " "@ + url] + header_lines("> "@, default_headers) + other_header_lines(
            "> "@,
            request_headers,
            default_headers,
            request_headers.len(),
        ) + seq![Seq::<char>::empty()]
    } else {
        Seq::empty()
    }
}

fn show_header(marker: &str, header: &Header) -> (line: String)
    ensures
        line@ == header_line(marker@, header@),
{
    let mut line = String::from_str(marker);
    line.append(header.name.as_str());
    line.append(": ");
    if header.name.as_str().eq_ignore_ascii_case("authorization") {
        line.append("Basic <credentials>");
    } else {
        match &header.value {
            HeaderValue::Text(text) => {
                line.append(text.as_str());
            },
            HeaderValue::Binary(_) => {
                line.append("<binary>");
            },
        }
    }
    line
}

fn holds_name(headers: &Vec<Header>, name: &String) -> (found: bool)
    ensures
        found == has_name(headers_view(headers@), name@),
{
    let mut i: usize = 0;
    while i < headers.len()
        invariant
            i <= headers.len(),
            forall|j: int|
                0 <= j < i ==> !same_ignoring_ascii_case((#[trigger] headers_view(headers@)[j]).name, name@),
        decreases headers.len() - i,
    {
        if headers[i].name.as_str().eq_ignore_ascii_case(name.as_str()) {
            assert(same_ignoring_ascii_case(headers_view(headers@)[i as int].name, name@));
            return true;
        }
        i += 1;
    }
    false
}

fn show_headers(lines: &mut Vec<String>, marker: &str, headers: &Vec<Header>)
    ensures
        lines_view(final(lines)@) == lines_view(old(lines)@) + header_lines(marker@, headers_view(headers@)),
{
    let ghost head = lines_view(lines@);
    let ghost shown = header_lines(marker@, headers_view(headers@));
    let mut i: usize = 0;
    while i < headers.len()
        invariant
            i <= headers.len(),
            shown == header_lines(marker@, headers_view(headers@)),
            lines_view(lines@) == head + shown.take(i as int),
        decreases headers.len() - i,
    {
        let line = show_header(marker, &headers[i]);
        let ghost before = lines@;
        lines.push(line);
        proof {
            assert(lines_view(lines@) =~= lines_view(before).push(line@));
        }
        i += 1;
    }
}

/// Collects what a verbose run shows before the first attempt.
pub fn display_request_info(config: &Config, context: &RequestContext) -> (lines: Vec<String>)
    ensures
        lines_view(lines@) == request_info_lines(
            config.verbose,
            context.request.method.token(),
            context.request.url@,
            headers_view(context.default_headers@),
            headers_view(context.request.headers@),
        ),
{
    let mut lines: Vec<String> = Vec::new();
    if !config.verbose {
        return lines;
    }
    let mut first = String::from_str("> ");
    first.append(context.request.method.as_str());
    first.append(" ");
    first.append(context.request.url.as_str());
    lines.push(first);
    let ghost head = seq!["> "@ + context.request.method.token() + " "@ + context.request.url@];
    let ghost defaults = headers_view(context.default_headers@);
    let ghost own = headers_view(context.request.headers@);
    show_headers(&mut lines, "> ", &context.default_headers);
    let mut k: usize = 0;
    while k < context.request.headers.len()
        invariant
            k <= context.request.headers.len(),
            defaults == headers_view(context.default_headers@),
            own == headers_view(context.request.headers@),
            lines_view(lines@) == head + header_lines("> "@, defaults) + other_header_lines(
                "> "@,
                own,
                defaults,
                k as nat,
            ),
        decreases context.request.headers.len() - k,
    {
        let ghost before = lines@;
        if !holds_name(&context.default_headers, &context.request.headers[k].name) {
            let line = show_header("> ", &context.request.headers[k]);
            lines.push(line);
            proof {
                assert(lines_view(lines@) =~= lines_view(before).push(line@));
            }
        }
        k += 1;
    }
    lines.push(String::new());
    lines
}

/// The reason phrase of a status code, or the empty text where none is
/// known.
pub open spec fn reason_or_empty(status: u16) -> Seq<char> {
    match canonical_reason(status) {
        Some(reason) => reason,
        None => Seq::empty(),
    }
}

/// The line that shows the status of a response.
pub open spec fn status_line(version: Seq<char>, status: u16, reason: Seq<char>) -> Seq<char> {
    "< "@ + version + " "@ + decimal_text(status as nat) + " "@ + reason
}

/// What a verbose run shows of the response that ended it: the status line,
/// the headers, and an empty line. A run that is not verbose shows nothing.
pub open spec fn response_info_lines(
    verbose: bool,
    version: Seq<char>,
    status: u16,
    reason: Seq<char>,
    headers: Seq<HeaderView>,
) -> Seq<Seq<char>> {
    if verbose {
        seq![status_line(version, status, reason)] + header_lines("< "@, headers) + seq![Seq::<char>::empty()]
    } else {
        Seq::empty()
    }
}

/// Collects what a verbose run shows of the response that ended it, with
/// `reason` as the reason phrase of its status.
pub fn response_lines(response_info: &ResponseInfo, reason: &str, config: &Config) -> (lines: Vec<String>)
    ensures
        lines_view(lines@) == response_info_lines(
            config.verbose,
            response_info.spec_version().label(),
            response_info.spec_status(),
            reason@,
            headers_view(response_info.spec_headers()),
        ),
{
    let mut lines: Vec<String> = Vec::new();
    if !config.verbose {
        return lines;
    }
    let status = response_info.status();
    let mut first = String::from_str("< ");
    first.append(response_info.version().as_str());
    first.append(" ");
    first.append(decimal_string(status as u64).as_str());
    first.append(" ");
    first.append(reason);
    lines.push(first);
    show_headers(&mut lines, "< ", response_info.headers());
    let ghost before = lines@;
    lines.push(String::new());
    assert(lines_view(lines@) =~= lines_view(before).push(Seq::<char>::empty()));
    lines
}

/// Collects what a verbose run shows of the response that ended it. The
/// status line ends in the reason phrase of the status, or in nothing where
/// the status has none.
pub fn display_response_info(response_info: &ResponseInfo, config: &Config) -> (lines: Vec<String>)
    ensures
        lines_view(lines@) == response_info_lines(
            config.verbose,
            response_info.spec_version().label(),
            response_info.spec_status(),
            reason_or_empty(response_info.spec_status()),
            headers_view(response_info.spec_headers()),
        ),
{
    if !config.verbose {
        return response_lines(response_info, "", config);
    }
    match reason_phrase(response_info.status()) {
        Some(reason) => response_lines(response_info, reason.as_str(), config),
        None => {
            proof {
                reveal_strlit("");
            }
            response_lines(response_info, "", config)
        },
    }
}

/// What a timed run shows: the three durations, the size of the body in
/// bytes, and whether a throughput goes with them.
#[derive(Debug, Clone, Copy, PartialEq, Eq)]
pub struct TimingReport {
    pub response_time: Duration,
    pub body_read_time: Duration,
    pub total_time: Duration,
    pub response_size: usize,
    /// Whether the throughput, the size over the total time, is shown.
    pub show_throughput: bool,
}

/// The report of a timed run. The throughput is shown exactly where the
/// body is not empty and the total time is not zero.
pub open spec fn timing_report(timing_info: TimingInfo, response_size: usize, total_is_zero: bool) -> TimingReport {
    TimingReport {
        response_time: timing_info.response_time,
        body_read_time: timing_info.body_read_time,
        total_time: timing_info.total_time,
        response_size,
        show_throughput: response_size > 0 && !total_is_zero,
    }
}

/// Makes the report of a timed run, for a total time that is zero or not as
/// `total_is_zero` says.
pub fn timing_report_for(timing_info: &TimingInfo, response_size: usize, total_is_zero: bool) -> (report:
    TimingReport)
    ensures
        report == timing_report(*timing_info, response_size, total_is_zero),
{
    TimingReport {
        response_time: timing_info.response_time,
        body_read_time: timing_info.body_read_time,
        total_time: timing_info.total_time,
        response_size,
        show_throughput: response_size > 0 && !total_is_zero,
    }
}

/// Collects what a timed run shows; a run that is not timed shows nothing.
pub fn display_timing_info(timing_info: &TimingInfo, response_size: usize, config: &Config) -> (report: Option<
    TimingReport,
>)
    ensures
        report == if config.timing {
            Some(timing_report(*timing_info, response_size, duration_is_zero(timing_info.total_time)))
        } else {
            None
        },
{
    if !config.timing {
        return None;
    }
    Some(timing_report_for(timing_info, response_size, timing_info.total_time.is_zero()))
}

/// The size of a text in bytes, as UTF-8.
pub open spec fn byte_size(text: Seq<char>) -> usize {
    vstd::utf8::encode_utf8(text).len() as usize
}

/// All that follows from the response that ended a run.
#[derive(Debug, PartialEq, Eq)]
pub struct HandledResponse {
    /// What a verbose run shows of the response.
    pub response_lines: Vec<String>,
    /// What a timed run shows.
    pub timing: Option<TimingReport>,
    /// What is handed to the renderer, or why there is nothing to hand on.
    pub outcome: Result<ResponsePayload, ResponseError>,
}

/// Handles the response that ended a run: collects what is shown of it and
/// of its timing, then processes its body. The body does not change what is
/// shown, nor does what is shown change the outcome.
pub fn handle_response(
    response_info: ResponseInfo,
    response_body: String,
    timing_info: TimingInfo,
    config: &Config,
) -> (handled: HandledResponse)
    ensures
        lines_view(handled.response_lines@) == response_info_lines(
            config.verbose,
            response_info.spec_version().label(),
            response_info.spec_status(),
            reason_or_empty(response_info.spec_status()),
            headers_view(response_info.spec_headers()),
        ),
        handled.timing == if config.timing {
            Some(timing_report(timing_info, byte_size(response_body@), duration_is_zero(timing_info.total_time)))
        } else {
            None
        },
        match handled.outcome {
            Ok(payload) => processed_body(response_body@) == Ok::<ResponsePayloadView, ResponseError>(payload@),
            Err(e) => processed_body(response_body@) == Err::<ResponsePayloadView, ResponseError>(e),
        },
{
    let response_lines = display_response_info(&response_info, config);
    let timing = display_timing_info(&timing_info, response_body.as_str().len(), config);
    let outcome = process_response(response_body.as_str(), config);
    HandledResponse { response_lines, timing, outcome }
}

} // verus!
