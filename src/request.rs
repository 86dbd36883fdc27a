//! Building the request for a prompt, and what goes with sending it.

use vstd::prelude::*;

use crate::messages::{PromptRequest, PromptRequestMessage, PromptRequestMessageView};
use crate::settings::ChatGptSettings;
use crate::trace::{Trace, TraceEvent, TraceEventView, TraceView};

verus! {

/// The root of the provider's API.
pub const API_ROOT: &'static str = "https://api.openai.com/v1";

/// The path of the chat-completion endpoint under the API root.
pub const COMPLETIONS_PATH: &'static str = "/chat/completions";

/// The sampling temperature of every request, in hundredths: 0.8.
pub const DEFAULT_TEMPERATURE_HUNDREDTHS: u16 = 80;

/// Builds the request for a prompt: one message from the user whose content is
/// the prompt as given, the configured model, and the default temperature.
pub fn build_request(my_prompt: &String, settings: &ChatGptSettings) -> (r: PromptRequest)
    ensures
        r@.model == settings.model@,
        r@.messages == seq![PromptRequestMessageView { role: "user"@, content: my_prompt@ }],
        r@.temperature_hundredths == DEFAULT_TEMPERATURE_HUNDREDTHS,
{
    let message = PromptRequestMessage { role: "user".to_string(), content: my_prompt.clone() };
    let r = PromptRequest {
        model: settings.model.clone(),
        messages: vec![message],
        temperature_hundredths: DEFAULT_TEMPERATURE_HUNDREDTHS,
    };
    assert(r@.messages =~= seq![PromptRequestMessageView { role: "user"@, content: my_prompt@ }]);
    r
}

/// The URL that a completion request is posted to.
pub fn completions_url() -> (r: String)
    ensures
        r@ == API_ROOT@ + COMPLETIONS_PATH@,
{
    let mut r = String::from_str(API_ROOT);
    r.append(COMPLETIONS_PATH);
    r
}

/// The value of the `Authorization` header: `Bearer <api_key>`.
pub fn authorization_header(settings: &ChatGptSettings) -> (r: String)
    ensures
        r@ == "Bearer "@ + settings.api_key@,
{
    let mut r = String::from_str("Bearer ");
    r.append(settings.api_key.as_str());
    r
}

/// The events reported while a request is sent to `url`.
pub open spec fn request_events(url: Seq<char>, tracing: bool) -> Seq<TraceEventView> {
    seq![TraceEventView::RequestBodyFollows] + (if tracing {
        seq![TraceEventView::RequestBody]
    } else {
        Seq::<TraceEventView>::empty()
    }) + seq![TraceEventView::RequestStarted(url)]
}

/// Reports that the request is sent to `url`; the serialized request itself
/// only while tracing is on.
pub fn trace_request(url: &String, trace: &mut Trace)
    ensures
        final(trace)@ == (TraceView {
            tracing: old(trace)@.tracing,
            events: old(trace)@.events + request_events(url@, old(trace)@.tracing),
        }),
{
    trace.record(TraceEvent::RequestBodyFollows);
    if trace.tracing() {
        trace.record(TraceEvent::RequestBody);
    }
    trace.record(TraceEvent::RequestStarted(url.clone()));
    assert(final(trace)@.events =~= old(trace)@.events + request_events(url@, old(trace)@.tracing));
}

} // verus!
