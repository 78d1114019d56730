use vstd::prelude::*;

verus! {

/// The failures that a request or the server's startup can meet.
#[derive(Debug, Clone, PartialEq, Eq)]
pub enum LLMError {
    IsBusy,
    InitializingLLMFailed,
    SubmittingPromptFailed,
    Custom(String),
}

/// The text that describes an error to a caller.
pub open spec fn error_text(e: LLMError) -> Seq<char> {
    match e {
        LLMError::IsBusy => "LLM is currently busy."@,
        LLMError::InitializingLLMFailed => "Initializing the LLLM has failed."@,
        LLMError::SubmittingPromptFailed => "Submitting prompt to the LLM has failed."@,
        LLMError::Custom(s) => s@,
    }
}

impl LLMError {
    /// The human-readable description of this error.
    pub fn message(&self) -> (r: String)
        ensures
            r@ == error_text(*self),
    {
        match self {
            LLMError::IsBusy => String::from_str("LLM is currently busy."),
            LLMError::InitializingLLMFailed => String::from_str("Initializing the LLLM has failed."),
            LLMError::SubmittingPromptFailed => String::from_str(
                "Submitting prompt to the LLM has failed.",
            ),
            LLMError::Custom(s) => s.clone(),
        }
    }

    /// The error for a failure of the HTTP layer, given that failure's own
    /// description.
    pub fn from_http_error(detail: &str) -> (r: LLMError)
        ensures
            r matches LLMError::Custom(m) && m@ == "Hyper HTTP error: "@ + detail@,
    {
        let mut m = String::from_str("Hyper HTTP error: ");
        m.append(detail);
        LLMError::Custom(m)
    }
}

} // verus!
