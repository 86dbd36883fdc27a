//! What happens to the outcome of a request: the transport's failure, or the
//! status and body of a response, becomes the answer text or a typed failure.

use vstd::prelude::*;

use crate::json::{json_document, parse_json};
use crate::messages::{
    decode_error_payload, decode_response, PromptResponse, PromptResponseErrorMessage,
    PromptResponseErrorView, PromptResponseView,
};
use crate::request::request_events;
use crate::trace::{Trace, TraceEvent, TraceEventView, TraceView};

verus! {

/// The one status that counts as success. Any other, 201 included, is read as
/// a failure whose body should hold the error payload.
pub const HTTP_OK: u16 = 200;

/// The text returned when a success payload holds no choice.
pub const NO_RESPONSE: &'static str = "No response";

/// What the transport produced for one request.
#[derive(Debug, PartialEq, Eq)]
pub enum RawOutcome {
    /// No response came (DNS, TLS, connection, timeout), with a description.
    TransportError(String),
    /// A response came but its body could not be read, with a description.
    BodyReadFailure(String),
    /// A response with its status and whole body.
    HttpResult { status: u16, body: Vec<u8> },
}

pub ghost enum RawOutcomeView {
    TransportError(Seq<char>),
    BodyReadFailure(Seq<char>),
    HttpResult { status: u16, body: Seq<u8> },
}

impl View for RawOutcome {
    type V = RawOutcomeView;

    open spec fn view(&self) -> RawOutcomeView {
        match self {
            RawOutcome::TransportError(d) => RawOutcomeView::TransportError(d@),
            RawOutcome::BodyReadFailure(d) => RawOutcomeView::BodyReadFailure(d@),
            RawOutcome::HttpResult { status, body } => RawOutcomeView::HttpResult {
                status: *status,
                body: body@,
            },
        }
    }
}

/// Why a request gave no answer.
#[derive(Debug, PartialEq, Eq)]
pub enum PipelineError {
    /// No response came; the transport's description.
    Transport(String),
    /// The body of a response could not be read; the transport's description.
    BodyReadFailure(String),
    /// The service refused the request with a well-formed error payload.
    Remote { code: String, message: String },
    /// A body did not have the shape expected of it; a description.
    Malformed(String),
}

pub ghost enum PipelineErrorView {
    Transport(Seq<char>),
    BodyReadFailure(Seq<char>),
    Remote { code: Seq<char>, message: Seq<char> },
    Malformed,
}

impl View for PipelineError {
    type V = PipelineErrorView;

    open spec fn view(&self) -> PipelineErrorView {
        match self {
            PipelineError::Transport(d) => PipelineErrorView::Transport(d@),
            PipelineError::BodyReadFailure(d) => PipelineErrorView::BodyReadFailure(d@),
            PipelineError::Remote { code, message } => PipelineErrorView::Remote {
                code: code@,
                message: message@,
            },
            PipelineError::Malformed(_) => PipelineErrorView::Malformed,
        }
    }
}

impl PipelineError {
    /// The text shown to a user for this failure.
    pub fn message(&self) -> (r: String)
        ensures
            match self {
                PipelineError::Transport(d) => r@ == "ERROR: Failed get response: "@ + d@,
                PipelineError::BodyReadFailure(d) => r@ == "ERROR: Failed read response body in bytes: "@
                    + d@,
                PipelineError::Remote { code, message } => r@ == "Response error "@ + code@ + ": "@
                    + message@,
                PipelineError::Malformed(d) => r@ == d@,
            },
    {
        match self {
            PipelineError::Transport(d) => {
                let mut r = String::from_str("ERROR: Failed get response: ");
                r.append(d.as_str());
                r
            },
            PipelineError::BodyReadFailure(d) => {
                let mut r = String::from_str("ERROR: Failed read response body in bytes: ");
                r.append(d.as_str());
                r
            },
            PipelineError::Remote { code, message } => {
                let mut r = String::from_str("Response error ");
                r.append(code.as_str());
                r.append(": ");
                r.append(message.as_str());
                r
            },
            PipelineError::Malformed(d) => d.clone(),
        }
    }
}

pub open spec fn result_view(r: Result<String, PipelineError>) -> Result<Seq<char>, PipelineErrorView> {
    match r {
        Ok(s) => Ok(s@),
        Err(e) => Err(e@),
    }
}

/// The success payload that a body holds, if it holds one.
pub open spec fn success_payload(body: Seq<u8>) -> Option<PromptResponseView> {
    match json_document(body) {
        Some(t) => decode_response(t),
        None => None,
    }
}

/// The error payload that a body holds, if it holds one.
pub open spec fn error_payload(body: Seq<u8>) -> Option<PromptResponseErrorView> {
    match json_document(body) {
        Some(t) => decode_error_payload(t),
        None => None,
    }
}

/// The answer of a success payload: the content of the first choice's
/// message, or the fallback text where there is no choice.
pub open spec fn answer_of(p: PromptResponseView) -> Seq<char> {
    if p.choices.len() > 0 {
        p.choices[0].message.content
    } else {
        NO_RESPONSE@
    }
}

/// What a request gives, by the outcome of its transport.
pub open spec fn verdict(o: RawOutcomeView) -> Result<Seq<char>, PipelineErrorView> {
    match o {
        RawOutcomeView::TransportError(d) => Err(PipelineErrorView::Transport(d)),
        RawOutcomeView::BodyReadFailure(d) => Err(PipelineErrorView::BodyReadFailure(d)),
        RawOutcomeView::HttpResult { status, body } => if status == HTTP_OK {
            match success_payload(body) {
                Some(p) => Ok(answer_of(p)),
                None => Err(PipelineErrorView::Malformed),
            }
        } else {
            match error_payload(body) {
                Some(e) => Err(PipelineErrorView::Remote { code: e.code, message: e.message }),
                None => Err(PipelineErrorView::Malformed),
            }
        },
    }
}

/// The events reported on a received body: the body itself while tracing is
/// on, then its size.
pub open spec fn body_events(body: Seq<u8>, tracing: bool) -> Seq<TraceEventView> {
    (if tracing {
        seq![TraceEventView::ResponseBody(body)]
    } else {
        Seq::<TraceEventView>::empty()
    }) + seq![TraceEventView::ResponseSize(body.len() as usize)]
}

/// The events reported on decoding a body as the success payload.
pub open spec fn success_events(body: Seq<u8>) -> Seq<TraceEventView> {
    if success_payload(body) is Some {
        Seq::<TraceEventView>::empty()
    } else {
        seq![TraceEventView::Malformed]
    }
}

/// The events reported on a status other than 200.
pub open spec fn failure_events(status: u16, body: Seq<u8>) -> Seq<TraceEventView> {
    seq![TraceEventView::RequestFailed(status)] + if error_payload(body) is Some {
        Seq::<TraceEventView>::empty()
    } else {
        seq![TraceEventView::Malformed]
    }
}

/// The events reported on the outcome of a request, in order.
pub open spec fn response_events(o: RawOutcomeView, tracing: bool) -> Seq<TraceEventView> {
    match o {
        RawOutcomeView::TransportError(d) => seq![TraceEventView::TransportFailed(d)],
        RawOutcomeView::BodyReadFailure(d) => seq![TraceEventView::BodyReadFailed(d)],
        RawOutcomeView::HttpResult { status, body } => body_events(body, tracing) + if status
            == HTTP_OK {
            success_events(body)
        } else {
            failure_events(status, body)
        },
    }
}

/// `after` is `before` with `added` reported.
pub open spec fn reported(before: TraceView, after: TraceView, added: Seq<TraceEventView>) -> bool {
    after == (TraceView { tracing: before.tracing, events: before.events + added })
}

/// A description of a body that is not what it should be.
fn malformed(what: &str, detail: &str) -> (r: PipelineError)
    ensures
        r@ == PipelineErrorView::Malformed,
{
    let mut d = String::from_str("ERROR: Failed to parse ");
    d.append(what);
    d.append(": ");
    d.append(detail);
    PipelineError::Malformed(d)
}

/// The answer text of a success payload.
pub fn extract_answer(p: &PromptResponse) -> (r: String)
    ensures
        r@ == answer_of(p@),
{
    if p.choices.len() > 0 {
        p.choices[0].message.content.clone()
    } else {
        NO_RESPONSE.to_string()
    }
}

/// Reads a body as the success payload.
pub fn parse_response_msg(response_bytes: &[u8], trace: &mut Trace) -> (r: Result<
    PromptResponse,
    PipelineError,
>)
    ensures
        match r {
            Ok(p) => success_payload(response_bytes@) == Some(p@),
            Err(e) => success_payload(response_bytes@) is None && e@ == PipelineErrorView::Malformed,
        },
        reported(old(trace)@, final(trace)@, success_events(response_bytes@)),
{
    let r = match parse_json(response_bytes) {
        Ok(v) => match PromptResponse::from_json(&v) {
            Some(p) => Ok(p),
            None => Err(
                malformed("response to PromptResponse json", "the document does not have its shape"),
            ),
        },
        Err(e) => Err(malformed("response to PromptResponse json", e.to_string().as_str())),
    };
    if let Err(PipelineError::Malformed(d)) = &r {
        trace.record(TraceEvent::Malformed(d.clone()));
    }
    assert(final(trace)@.events =~= old(trace)@.events + success_events(response_bytes@));
    r
}

/// Reads the body of a response whose status is not 200 as the error payload.
pub fn process_error_msg(http_status: u16, response_bytes: &[u8], trace: &mut Trace) -> (r:
    PipelineError)
    ensures
        r@ == match error_payload(response_bytes@) {
            Some(e) => PipelineErrorView::Remote { code: e.code, message: e.message },
            None => PipelineErrorView::Malformed,
        },
        reported(old(trace)@, final(trace)@, failure_events(http_status, response_bytes@)),
{
    trace.record(TraceEvent::RequestFailed(http_status));
    let r = match parse_json(response_bytes) {
        Ok(v) => match PromptResponseErrorMessage::from_json(&v) {
            Some(m) => PipelineError::Remote { code: m.error.code, message: m.error.message },
            None => malformed("error response from json", "the document does not have its shape"),
        },
        Err(e) => malformed("error response from json", e.to_string().as_str()),
    };
    if let PipelineError::Malformed(d) = &r {
        trace.record(TraceEvent::Malformed(d.clone()));
    }
    assert(final(trace)@.events =~= old(trace)@.events + failure_events(
        http_status,
        response_bytes@,
    ));
    r
}

/// Reports a received body: the body itself while tracing is on, then its size.
pub fn trace_response_body(response_bytes: &[u8], trace: &mut Trace)
    ensures
        reported(old(trace)@, final(trace)@, body_events(response_bytes@, old(trace)@.tracing)),
{
    if trace.tracing() {
        trace.record(TraceEvent::ResponseBody(vstd::slice::slice_to_vec(response_bytes)));
    }
    trace.record(TraceEvent::ResponseSize(response_bytes.len()));
    assert(final(trace)@.events =~= old(trace)@.events + body_events(
        response_bytes@,
        old(trace)@.tracing,
    ));
}

/// Handles a response whose whole body was read: status 200 is read as the
/// success payload and gives its answer, any other status as the error payload.
pub fn process_response_msg(http_status: u16, response_bytes: &[u8], trace: &mut Trace) -> (r:
    Result<String, PipelineError>)
    ensures
        result_view(r) == verdict(
            RawOutcomeView::HttpResult { status: http_status, body: response_bytes@ },
        ),
        reported(
            old(trace)@,
            final(trace)@,
            response_events(
                RawOutcomeView::HttpResult { status: http_status, body: response_bytes@ },
                old(trace)@.tracing,
            ),
        ),
{
    trace_response_body(response_bytes, trace);
    let r = if http_status != HTTP_OK {
        Err(process_error_msg(http_status, response_bytes, trace))
    } else {
        match parse_response_msg(response_bytes, trace) {
            Ok(p) => Ok(extract_answer(&p)),
            Err(e) => Err(e),
        }
    };
    assert(final(trace)@.events =~= old(trace)@.events + response_events(
        RawOutcomeView::HttpResult { status: http_status, body: response_bytes@ },
        old(trace)@.tracing,
    ));
    r
}

/// Turns the outcome of a request into the answer text or a typed failure.
/// A transport failure is final and no body is decoded for it.
pub fn process_response_result(response: RawOutcome, trace: &mut Trace) -> (r: Result<
    String,
    PipelineError,
>)
    ensures
        result_view(r) == verdict(response@),
        reported(old(trace)@, final(trace)@, response_events(response@, old(trace)@.tracing)),
{
    match response {
        RawOutcome::TransportError(d) => {
            trace.record(TraceEvent::TransportFailed(d.clone()));
            assert(final(trace)@.events =~= old(trace)@.events + response_events(
                response@,
                old(trace)@.tracing,
            ));
            Err(PipelineError::Transport(d))
        },
        RawOutcome::BodyReadFailure(d) => {
            trace.record(TraceEvent::BodyReadFailed(d.clone()));
            assert(final(trace)@.events =~= old(trace)@.events + response_events(
                response@,
                old(trace)@.tracing,
            ));
            Err(PipelineError::BodyReadFailure(d))
        },
        RawOutcome::HttpResult { status, body } => process_response_msg(
            status,
            body.as_slice(),
            trace,
        ),
    }
}

/// A response with status 200 whose body holds a success payload with at least
/// one choice gives the content of the first choice's message.
pub proof fn lemma_first_choice_answers(body: Seq<u8>, p: PromptResponseView)
    requires
        success_payload(body) == Some(p),
        p.choices.len() > 0,
    ensures
        verdict(RawOutcomeView::HttpResult { status: HTTP_OK, body }) == Ok::<
            Seq<char>,
            PipelineErrorView,
        >(p.choices[0].message.content),
{
}

/// A response with status 200 whose body holds a success payload without any
/// choice gives the fallback text.
pub proof fn lemma_no_choice_falls_back(body: Seq<u8>, p: PromptResponseView)
    requires
        success_payload(body) == Some(p),
        p.choices.len() == 0,
    ensures
        verdict(RawOutcomeView::HttpResult { status: HTTP_OK, body }) == Ok::<
            Seq<char>,
            PipelineErrorView,
        >(NO_RESPONSE@),
{
}

/// A response with status 200 whose body is not JSON text is malformed.
pub proof fn lemma_not_json_is_malformed(body: Seq<u8>)
    requires
        json_document(body) is None,
    ensures
        verdict(RawOutcomeView::HttpResult { status: HTTP_OK, body }) == Err::<
            Seq<char>,
            PipelineErrorView,
        >(PipelineErrorView::Malformed),
{
}

/// A transport failure is reported as such, with its description, and nothing
/// but the failure is reported: no body is looked at.
pub proof fn lemma_transport_failure_is_final(d: Seq<char>, tracing: bool)
    ensures
        verdict(RawOutcomeView::TransportError(d)) == Err::<Seq<char>, PipelineErrorView>(
            PipelineErrorView::Transport(d),
        ),
        response_events(RawOutcomeView::TransportError(d), tracing) == seq![
            TraceEventView::TransportFailed(d),
        ],
{
}

/// While tracing is off, neither sending a request nor handling any outcome
/// reports a payload event.
pub proof fn lemma_quiet_without_tracing(o: RawOutcomeView, url: Seq<char>)
    ensures
        forall|i: int|
            0 <= i < response_events(o, false).len() ==> !(#[trigger] response_events(
                o,
                false,
            )[i]).is_payload(),
        forall|i: int|
            0 <= i < request_events(url, false).len() ==> !(#[trigger] request_events(
                url,
                false,
            )[i]).is_payload(),
{
    let events = response_events(o, false);
    if let RawOutcomeView::HttpResult { status, body } = o {
        let tail = if status == HTTP_OK {
            success_events(body)
        } else {
            failure_events(status, body)
        };
        assert(body_events(body, false) =~= seq![TraceEventView::ResponseSize(body.len() as usize)]);
        assert forall|i: int| 0 <= i < events.len() implies !(#[trigger] events[i]).is_payload() by {
            if i > 0 {
                assert(events[i] == tail[i - 1]);
            }
        }
    }
    assert(request_events(url, false) =~= seq![
        TraceEventView::RequestBodyFollows,
        TraceEventView::RequestStarted(url),
    ]);
}

} // verus!
