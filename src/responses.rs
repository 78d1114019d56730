use vstd::prelude::*;

use crate::error::{error_text, LLMError};

verus! {

#[verifier::external_type_specification]
#[verifier::external_body]
pub struct ExJsonError(serde_json::Error);

/// The escape sequence of one character inside a JSON string literal:
/// quote, backslash and the control characters below U+0020 are escaped,
/// with the short forms where JSON has them and `\u00xx` (lower-case hex)
/// otherwise; every other character stands for itself.
pub open spec fn json_escape_char(c: char) -> Seq<char> {
    if c == '"' {
        seq!['\\', '"']
    } else if c == '\\' {
        seq!['\\', '\\']
    } else if c == '\u{8}' {
        seq!['\\', 'b']
    } else if c == '\t' {
        seq!['\\', 't']
    } else if c == '\n' {
        seq!['\\', 'n']
    } else if c == '\u{c}' {
        seq!['\\', 'f']
    } else if c == '\r' {
        seq!['\\', 'r']
    } else if (c as u32) < 0x20 {
        seq![
            '\\',
            'u',
            '0',
            '0',
            if (c as u32) < 0x10 {
                '0'
            } else {
                '1'
            },
            seq!['0', '1', '2', '3', '4', '5', '6', '7', '8', '9', 'a', 'b', 'c', 'd', 'e', 'f'][(
            c as u32 % 16) as int],
        ]
    } else {
        seq![c]
    }
}

/// The escaped contents of a JSON string literal.
pub open spec fn json_escaped(s: Seq<char>) -> Seq<char>
    decreases s.len(),
{
    if s.len() == 0 {
        Seq::empty()
    } else {
        json_escaped(s.drop_last()) + json_escape_char(s.last())
    }
}

/// The JSON string literal, quotes included, that encodes a text.
pub open spec fn json_string_of(s: Seq<char>) -> Seq<char> {
    seq!['"'] + json_escaped(s) + seq!['"']
}

/// Relies on `serde_json::to_string` applied to a `str`: the text is written
/// between quotes with the escapes of `format_escaped_str` into a `Vec`,
/// which cannot fail.
#[verifier::external_body]
fn json_string(s: &str) -> (r: Result<String, serde_json::Error>)
    ensures
        r is Ok,
        r matches Ok(q) ==> q@ == json_string_of(s@),
{
    serde_json::to_string(s)
}

/// The JSON literal of a boolean.
pub open spec fn bool_text(b: bool) -> Seq<char> {
    if b {
        "true"@
    } else {
        "false"@
    }
}

/// The compact JSON object `{"success":..,"is_busy":..}`.
pub open spec fn busy_json(success: bool, is_busy: bool) -> Seq<char> {
    "{\"success\":"@ + bool_text(success) + ",\"is_busy\":"@ + bool_text(is_busy) + "}"@
}

/// The compact JSON object `{"success":..,"response":..}`, whose response
/// member is the already encoded string literal `quoted`.
pub open spec fn prompt_json(success: bool, quoted: Seq<char>) -> Seq<char> {
    "{\"success\":"@ + bool_text(success) + ",\"response\":"@ + quoted + "}"@
}

fn bool_literal(b: bool) -> (r: &'static str)
    ensures
        r@ == bool_text(b),
{
    if b {
        "true"
    } else {
        "false"
    }
}

/// The answer of the busy status check.
#[derive(Clone, Copy, Debug, PartialEq, Eq, Structural)]
pub struct IsBusyResponse {
    pub success: bool,
    pub is_busy: bool,
}

impl IsBusyResponse {
    /// Builds the status answer from the state of the resource guard as a
    /// non-blocking acquisition attempt found it.
    pub fn new(lock_held: bool, endpoint_success: bool) -> (r: Self)
        ensures
            r.success == endpoint_success,
            r.is_busy == lock_held,
    {
        IsBusyResponse { success: endpoint_success, is_busy: lock_held }
    }

    /// The compact JSON encoding of this answer.
    pub fn to_json(&self) -> (r: String)
        ensures
            r@ == busy_json(self.success, self.is_busy),
    {
        let mut out = String::from_str("{\"success\":");
        out.append(bool_literal(self.success));
        out.append(",\"is_busy\":");
        out.append(bool_literal(self.is_busy));
        out.append("}");
        out
    }
}

/// The answer to a prompt submission.
#[derive(Clone, Debug, PartialEq, Eq)]
pub struct PromptResponse {
    pub success: bool,
    pub response: String,
}

/// Frames the prompt answer around an already encoded JSON string literal.
pub fn frame_prompt_response(success: bool, quoted: &str) -> (r: String)
    ensures
        r@ == prompt_json(success, quoted@),
{
    let mut out = String::from_str("{\"success\":");
    out.append(bool_literal(success));
    out.append(",\"response\":");
    out.append(quoted);
    out.append("}");
    out
}

impl PromptResponse {
    /// The answer for the outcome of a submission: the generated text on
    /// success, the error's description on failure.
    pub fn from_content(content: Result<String, LLMError>) -> (r: Self)
        ensures
            r.success == content is Ok,
            content matches Ok(t) ==> r.response@ == t@,
            content matches Err(e) ==> r.response@ == error_text(e),
    {
        match content {
            Ok(text) => PromptResponse { success: true, response: text },
            Err(e) => PromptResponse { success: false, response: e.message() },
        }
    }

    /// The compact JSON encoding of this answer. Encoding a text always
    /// succeeds; the error arm maps the encoder's error type.
    pub fn to_json(&self) -> (r: Result<String, LLMError>)
        ensures
            r matches Ok(t) && t@ == prompt_json(self.success, json_string_of(self.response@)),
    {
        match json_string(self.response.as_str()) {
            Ok(quoted) => Ok(frame_prompt_response(self.success, quoted.as_str())),
            Err(_) => Err(LLMError::Custom(String::from_str("Failed to convert response to JSON"))),
        }
    }
}

} // verus!
