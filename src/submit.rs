use vstd::prelude::*;

use crate::error::{error_text, LLMError};
use crate::reply::{ContentType, HttpReply, ReplyView, STATUS_OK, STATUS_SERVER_ERROR};
use crate::responses::{json_string_of, prompt_json, PromptResponse};
use crate::router::ok_view;

verus! {

/// The failure reported for a body that is not a prompt object.
pub open spec fn parse_failure_text() -> Seq<char> {
    "Failed to parse request body"@
}

/// The failure reported when the guard is held by another request.
pub open spec fn busy_failure_text() -> Seq<char> {
    "LLM Is Busy"@
}

/// The failure reported when the worker ends without delivering a result.
pub open spec fn lost_result_text() -> Seq<char> {
    "Failed to get response."@
}

/// The JSON reply that reports a submission outcome.
pub open spec fn prompt_view(success: bool, text: Seq<char>) -> ReplyView {
    ok_view(Some(ContentType::ApplicationJson), prompt_json(success, json_string_of(text)))
}

/// Whether `r` is the prompt reply reporting `success` and `text`.
pub open spec fn replies_with(r: Result<HttpReply, LLMError>, success: bool, text: Seq<char>) -> bool {
    r matches Ok(reply) && reply@ == prompt_view(success, text)
}

/// Encodes the outcome of a submission as the JSON prompt reply: the
/// generated text on success, the error's description on failure.
pub fn prompt_reply(content: Result<String, LLMError>) -> (r: Result<HttpReply, LLMError>)
    ensures
        content matches Ok(t) ==> replies_with(r, true, t@),
        content matches Err(e) ==> replies_with(r, false, error_text(e)),
{
    let response = PromptResponse::from_content(content);
    match response.to_json() {
        Ok(body) => Ok(
            HttpReply { status: STATUS_OK, content_type: Some(ContentType::ApplicationJson), body },
        ),
        Err(e) => Err(e),
    }
}

/// What happened to a prompt request so far.
#[derive(Debug)]
pub enum PromptEvent {
    /// The body was read and decoded: the prompt, or `None` when the body is
    /// not a prompt object.
    BodyParsed(Option<String>),
    /// The non-blocking attempt to take the guard failed.
    GuardBusy,
    /// The guard was taken and the inference resource returned this.
    EngineFinished(Result<String, LLMError>),
}

/// What the prompt handler must do next.
#[derive(Debug)]
pub enum PromptAction {
    /// Try to take the guard without blocking and, if taken, submit this
    /// prompt to the inference resource while holding it.
    RunEngine(String),
    /// Deliver this result to the waiting request.
    Reply(Result<HttpReply, LLMError>),
}

/// Whether `a` delivers the prompt reply reporting `success` and `text`.
pub open spec fn delivers(a: PromptAction, success: bool, text: Seq<char>) -> bool {
    a matches PromptAction::Reply(r) && replies_with(r, success, text)
}

/// The decisions of the prompt handler: a well-formed body leads to one
/// guarded inference attempt, everything else to a reply.
pub fn submit_prompt_endpoint(event: PromptEvent) -> (r: PromptAction)
    ensures
        event matches PromptEvent::BodyParsed(Some(p)) ==> (r matches PromptAction::RunEngine(q)
            && q@ == p@),
        event matches PromptEvent::BodyParsed(None) ==> delivers(r, false, parse_failure_text()),
        event is GuardBusy ==> delivers(r, false, busy_failure_text()),
        event matches PromptEvent::EngineFinished(Ok(t)) ==> delivers(r, true, t@),
        event matches PromptEvent::EngineFinished(Err(e)) ==> delivers(r, false, error_text(e)),
{
    match event {
        PromptEvent::BodyParsed(Some(prompt)) => PromptAction::RunEngine(prompt),
        PromptEvent::BodyParsed(None) => PromptAction::Reply(
            prompt_reply(Err(LLMError::Custom(String::from_str("Failed to parse request body")))),
        ),
        PromptEvent::GuardBusy => PromptAction::Reply(
            prompt_reply(Err(LLMError::Custom(String::from_str("LLM Is Busy")))),
        ),
        PromptEvent::EngineFinished(content) => PromptAction::Reply(prompt_reply(content)),
    }
}

/// The result handed back to the waiting request by the worker that ran
/// the prompt handler: what it sent, or an error when it ended without
/// sending anything.
pub fn bridge_result(received: Option<Result<HttpReply, LLMError>>) -> (r: Result<
    HttpReply,
    LLMError,
>)
    ensures
        received matches Some(x) ==> r == x,
        received is None ==> (r matches Err(LLMError::Custom(m)) && m@ == lost_result_text()),
{
    match received {
        Some(result) => result,
        None => Err(LLMError::Custom(String::from_str("Failed to get response."))),
    }
}

/// The reply for a request whose handling ended in an error.
pub open spec fn failure_view(e: LLMError) -> ReplyView {
    ReplyView { status: STATUS_SERVER_ERROR, content_type: Some(ContentType::TextPlain), body: error_text(e) }
}

/// The reply that goes on the wire for the result of a handler: the reply
/// itself, or a server error that describes what failed.
pub fn response_for(result: Result<HttpReply, LLMError>) -> (r: HttpReply)
    ensures
        result matches Ok(reply) ==> r@ == reply@,
        result matches Err(e) ==> r@ == failure_view(e),
{
    match result {
        Ok(reply) => reply,
        Err(e) => HttpReply {
            status: STATUS_SERVER_ERROR,
            content_type: Some(ContentType::TextPlain),
            body: e.message(),
        },
    }
}

} // verus!
