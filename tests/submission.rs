use open_llm_server::error::LLMError;
use open_llm_server::reply::ContentType;
use open_llm_server::responses::{frame_prompt_response, IsBusyResponse, PromptResponse};
use open_llm_server::submit::{
    bridge_result, prompt_reply, response_for, submit_prompt_endpoint, PromptAction, PromptEvent,
};

fn delivered_body(action: PromptAction) -> String {
    match action {
        PromptAction::Reply(Ok(reply)) => {
            assert_eq!(reply.status, 200);
            assert_eq!(reply.content_type, Some(ContentType::ApplicationJson));
            reply.body
        }
        PromptAction::Reply(Err(e)) => panic!("unexpected failure: {}", e.message()),
        PromptAction::RunEngine(p) => panic!("unexpected engine run for {p}"),
    }
}

#[test]
fn parsed_prompt_runs_engine() {
    match submit_prompt_endpoint(PromptEvent::BodyParsed(Some("hello".to_string()))) {
        PromptAction::RunEngine(p) => assert_eq!(p, "hello"),
        PromptAction::Reply(_) => panic!("expected an engine run"),
    }
}

#[test]
fn engine_output_is_returned() {
    let action = submit_prompt_endpoint(PromptEvent::EngineFinished(Ok("engine output".to_string())));
    assert_eq!(delivered_body(action), "{\"success\":true,\"response\":\"engine output\"}");
}

#[test]
fn malformed_body_is_a_failure_reply() {
    let action = submit_prompt_endpoint(PromptEvent::BodyParsed(None));
    assert_eq!(
        delivered_body(action),
        "{\"success\":false,\"response\":\"Failed to parse request body\"}"
    );
}

#[test]
fn losing_the_guard_is_busy() {
    let action = submit_prompt_endpoint(PromptEvent::GuardBusy);
    assert_eq!(delivered_body(action), "{\"success\":false,\"response\":\"LLM Is Busy\"}");
}

#[test]
fn engine_failure_is_reported() {
    let action = submit_prompt_endpoint(PromptEvent::EngineFinished(Err(LLMError::SubmittingPromptFailed)));
    assert_eq!(
        delivered_body(action),
        "{\"success\":false,\"response\":\"Submitting prompt to the LLM has failed.\"}"
    );
}

#[test]
fn response_text_is_escaped() {
    let reply = prompt_reply(Ok("say \"hi\"\n\\done".to_string())).unwrap();
    assert_eq!(reply.body, "{\"success\":true,\"response\":\"say \\\"hi\\\"\\n\\\\done\"}");
    let json = PromptResponse { success: true, response: "tab\there".to_string() }.to_json().unwrap();
    assert_eq!(json, "{\"success\":true,\"response\":\"tab\\there\"}");
}

#[test]
fn framing_wraps_encoded_text() {
    assert_eq!(frame_prompt_response(false, "\"x\""), "{\"success\":false,\"response\":\"x\"}");
    assert_eq!(frame_prompt_response(true, "\"\""), "{\"success\":true,\"response\":\"\"}");
}

#[test]
fn busy_response_encoding() {
    let r = IsBusyResponse::new(true, false);
    assert!(r.is_busy);
    assert!(!r.success);
    assert_eq!(r.to_json(), "{\"success\":false,\"is_busy\":true}");
    assert_eq!(IsBusyResponse::new(false, true).to_json(), "{\"success\":true,\"is_busy\":false}");
}

#[test]
fn prompt_response_from_outcome() {
    let ok = PromptResponse::from_content(Ok("text".to_string()));
    assert_eq!(ok, PromptResponse { success: true, response: "text".to_string() });
    let err = PromptResponse::from_content(Err(LLMError::IsBusy));
    assert_eq!(err, PromptResponse { success: false, response: "LLM is currently busy.".to_string() });
}

#[test]
fn dropped_worker_yields_error() {
    match bridge_result(None) {
        Err(LLMError::Custom(m)) => assert_eq!(m, "Failed to get response."),
        _ => panic!("expected the lost-result error"),
    }
    let sent = prompt_reply(Ok("x".to_string()));
    let got = bridge_result(Some(sent)).unwrap();
    assert_eq!(got.body, "{\"success\":true,\"response\":\"x\"}");
}

#[test]
fn errors_become_server_errors() {
    let reply = response_for(Err(LLMError::Custom("Failed to convert response to JSON".to_string())));
    assert_eq!(reply.status, 500);
    assert_eq!(reply.content_type, Some(ContentType::TextPlain));
    assert_eq!(reply.body, "Failed to convert response to JSON");
    let ok = response_for(prompt_reply(Ok("y".to_string())));
    assert_eq!(ok.status, 200);
}

#[test]
fn error_messages() {
    assert_eq!(LLMError::IsBusy.message(), "LLM is currently busy.");
    assert_eq!(LLMError::InitializingLLMFailed.message(), "Initializing the LLLM has failed.");
    assert_eq!(LLMError::SubmittingPromptFailed.message(), "Submitting prompt to the LLM has failed.");
    assert_eq!(LLMError::Custom("free text".to_string()).message(), "free text");
    assert_eq!(
        LLMError::from_http_error("bad header"),
        LLMError::Custom("Hyper HTTP error: bad header".to_string())
    );
}

fn encoded_response(text: &str) -> String {
    PromptResponse { success: true, response: text.to_string() }.to_json().unwrap()
}

#[test]
fn control_characters_are_escaped() {
    assert_eq!(encoded_response("\u{8}\u{c}\r"), "{\"success\":true,\"response\":\"\\b\\f\\r\"}");
    assert_eq!(encoded_response("\u{1}"), "{\"success\":true,\"response\":\"\\u0001\"}");
    assert_eq!(encoded_response("\u{1f}\u{b}"), "{\"success\":true,\"response\":\"\\u001f\\u000b\"}");
}

#[test]
fn other_characters_stand_for_themselves() {
    assert_eq!(encoded_response("a/b \u{7f} é ✓"), "{\"success\":true,\"response\":\"a/b \u{7f} é ✓\"}");
    assert_eq!(encoded_response(""), "{\"success\":true,\"response\":\"\"}");
}
