use vstd::prelude::*;
use vstd::utf8::encode_utf8;

use crate::error::LLMError;

verus! {

/// A request is authorized when no credential is configured, or when it
/// carries a credential whose bytes are exactly those of the configured one.
pub open spec fn credential_accepted(api_key: Option<Seq<char>>, provided: Option<Seq<u8>>) -> bool {
    match api_key {
        None => true,
        Some(key) => provided == Some(encode_utf8(key)),
    }
}

/// The credential bytes a request carries, if any.
pub open spec fn provided_view(authorization: Option<&[u8]>) -> Option<Seq<u8>> {
    match authorization {
        Some(b) => Some(b@),
        None => None,
    }
}

/// The rejection message for a request that carries no credential.
pub open spec fn missing_key_text() -> Seq<char> {
    "No API key provided"@
}

/// The rejection message for a request whose credential does not match.
pub open spec fn invalid_key_text() -> Seq<char> {
    "Invalid API key"@
}

/// The message that rejects a request carrying the given credential.
pub open spec fn rejection_text(provided: Option<Seq<u8>>) -> Seq<char> {
    if provided is None {
        missing_key_text()
    } else {
        invalid_key_text()
    }
}

/// Byte-for-byte equality of two byte strings.
fn bytes_equal(a: &[u8], b: &[u8]) -> (r: bool)
    ensures
        r == (a@ == b@),
{
    if a.len() != b.len() {
        return false;
    }
    let mut i: usize = 0;
    while i < a.len()
        invariant
            a@.len() == b@.len(),
            i <= a@.len(),
            forall|j: int| 0 <= j < i ==> a@[j] == b@[j],
        decreases a@.len() - i,
    {
        if a[i] != b[i] {
            return false;
        }
        i = i + 1;
    }
    assert(a@ =~= b@);
    true
}

/// Checks the credential a request carries (the raw bytes of its
/// `Authorization` header, if any) against the configured one.
pub fn check_api_key(api_key: &Option<String>, authorization: Option<&[u8]>) -> (r: Result<
    (),
    LLMError,
>)
    ensures
        r is Ok <==> credential_accepted(api_key.deep_view(), provided_view(authorization)),
        r matches Err(e) ==> e matches LLMError::Custom(m) && m@ == rejection_text(provided_view(authorization)),
{
    match api_key {
        None => Ok(()),
        Some(key) => match authorization {
            None => Err(LLMError::Custom(String::from_str("No API key provided"))),
            Some(provided) => {
                if bytes_equal(provided, key.as_str().as_bytes()) {
                    Ok(())
                } else {
                    Err(LLMError::Custom(String::from_str("Invalid API key")))
                }
            },
        },
    }
}

} // verus!
