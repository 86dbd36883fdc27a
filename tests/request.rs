use rchat::messages::PromptRequest;
use rchat::request::{
    authorization_header, build_request, completions_url, trace_request,
    DEFAULT_TEMPERATURE_HUNDREDTHS,
};
use rchat::settings::ChatGptSettings;
use rchat::trace::{Trace, TraceEvent};

fn provider() -> ChatGptSettings {
    ChatGptSettings { api_key: "sk-test".to_string(), model: "gpt-4".to_string() }
}

#[test]
fn request_has_one_user_message_with_the_prompt() {
    for prompt in ["How to use the API with cURL?", "", "  spaced\n\nlines  "] {
        let r: PromptRequest = build_request(&prompt.to_string(), &provider());
        assert_eq!(r.model, "gpt-4");
        assert_eq!(r.messages.len(), 1);
        assert_eq!(r.messages[0].role, "user");
        assert_eq!(r.messages[0].content, prompt);
        assert_eq!(r.temperature_hundredths, 80);
    }
    assert_eq!(DEFAULT_TEMPERATURE_HUNDREDTHS, 80);
}

#[test]
fn authorization_is_bearer_with_one_space() {
    assert_eq!(authorization_header(&provider()), "Bearer sk-test");
}

#[test]
fn completions_url_is_under_the_api_root() {
    assert_eq!(completions_url(), "https://api.openai.com/v1/chat/completions");
}

#[test]
fn request_trace_holds_the_body_only_while_tracing() {
    let url = completions_url();
    let mut quiet = Trace::new(false);
    trace_request(&url, &mut quiet);
    assert_eq!(
        quiet.events(),
        &vec![TraceEvent::RequestBodyFollows, TraceEvent::RequestStarted(url.clone())]
    );
    let mut loud = Trace::new(true);
    trace_request(&url, &mut loud);
    assert_eq!(
        loud.events(),
        &vec![
            TraceEvent::RequestBodyFollows,
            TraceEvent::RequestBody,
            TraceEvent::RequestStarted(url.clone())
        ]
    );
    assert!(loud.tracing());
    assert!(!quiet.tracing());
}
